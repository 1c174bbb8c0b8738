//! Error reporting for a request pipeline: what to report of a request that
//! failed or of a process that crashed, and when, without changing what the
//! pipeline returns.

pub mod client;
pub mod context;
pub mod hook;
pub mod middleware;
pub mod report;
