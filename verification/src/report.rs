//! Reports: the record of one incident, ready to be sent.
//!
//! There are two kinds of incident and so two kinds of report: a request that
//! failed, told with the context of the request, and a crash of the process,
//! told with the call stack at the time of the crash.

use crate::context::{ContextModel, RequestContext};
use backtrace::Backtrace;
use vstd::prelude::*;

verus! {

/// A call stack as `backtrace::Backtrace` records it. A report carries it along
/// unread, so nothing is said of what it holds.
#[verifier::external_type_specification]
#[verifier::external_body]
pub struct ExBacktrace(backtrace::Backtrace);

/// One incident, as it is reported.
#[derive(Debug)]
pub enum Report {
    /// A request failed with `error`; `request` is the context of that request.
    Error { error: String, request: RequestContext },
    /// The process crashed with `message`; `backtrace` is the call stack at that moment.
    Panic { message: String, backtrace: Backtrace },
}

/// The mathematical model of [`Report`].
pub enum ReportModel {
    Error { error: Seq<char>, request: ContextModel },
    Panic { message: Seq<char>, backtrace: Backtrace },
}

impl View for Report {
    type V = ReportModel;

    open spec fn view(&self) -> ReportModel {
        match self {
            Report::Error { error, request } => ReportModel::Error {
                error: error@,
                request: request@,
            },
            Report::Panic { message, backtrace } => ReportModel::Panic {
                message: message@,
                backtrace: *backtrace,
            },
        }
    }
}

impl DeepView for Report {
    type V = ReportModel;

    open spec fn deep_view(&self) -> ReportModel {
        self@
    }
}

/// Takes the call stack of the caller.
///
/// Trusted: the body is one call of `backtrace::Backtrace::new`. What the
/// stack holds depends on where and on which machine the call is made, so
/// nothing is claimed of it.
#[verifier::external_body]
pub(crate) fn capture_backtrace() -> (backtrace: Backtrace) {
    Backtrace::new()
}

impl Report {
    /// The report of a failed request: the error and the context, both as given.
    pub fn from_error(error: String, request: RequestContext) -> (report: Report)
        ensures
            report@ == (ReportModel::Error { error: error@, request: request@ }),
    {
        Report::Error { error, request }
    }

    /// The report of a crash: the message and the call stack, both as given.
    pub fn from_panic(message: String, backtrace: Backtrace) -> (report: Report)
        ensures
            report@ == (ReportModel::Panic { message: message@, backtrace: backtrace }),
    {
        Report::Panic { message, backtrace }
    }
}

/// Building a report is repeatable: two reports of the same error in the same
/// context are the same report.
pub proof fn error_report_is_repeatable(
    error: Seq<char>,
    request: ContextModel,
    first: ReportModel,
    second: ReportModel,
)
    requires
        first == (ReportModel::Error { error: error, request: request }),
        second == (ReportModel::Error { error: error, request: request }),
    ensures
        first == second,
{
}

/// Two reports of the same crash message with the same call stack are the same report.
pub proof fn panic_report_is_repeatable(
    message: Seq<char>,
    backtrace: Backtrace,
    first: ReportModel,
    second: ReportModel,
)
    requires
        first == (ReportModel::Panic { message: message, backtrace: backtrace }),
        second == (ReportModel::Panic { message: message, backtrace: backtrace }),
    ensures
        first == second,
{
}

} // verus!
