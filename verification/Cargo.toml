[package]
name = "actix_rollbar"
version = "0.1.0"
edition = "2021"
publish = false

[dependencies]
actix-web = { version = "4", default-features = false }
backtrace = "0.3"
futures-util = "0.3"
rollbar = "*"
