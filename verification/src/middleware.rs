//! The interceptor: what is done around one request.
//!
//! A request passes through these stages: received, context extracted,
//! delegated to the wrapped handler, outcome observed, then reported or passed
//! through, and at last responded. [`RollbarMiddleware::call`] covers the
//! stages up to the delegation: it takes the context from the request as
//! received, before the handler sees it. [`InFlight::complete`] covers the
//! rest: given the outcome of the handler it says, in order, what to do. The
//! last action always returns the outcome as the handler gave it.

use crate::client::{reported, ClientModel, Rollbar};
use crate::context::{context_of, to_rollbar_request, ContextModel, RequestContext, RequestParts};
use crate::report::{Report, ReportModel};
use actix_web::http::StatusCode;
use vstd::prelude::*;

verus! {

/// What the wrapped handler made of a request.
#[derive(Debug, Clone, PartialEq, Eq)]
pub enum Outcome {
    /// The handler failed and gave no response.
    Failure { error: String },
    /// The handler gave a response with this status; `attached` is the error
    /// that the response was made from, where it carries one.
    Response { status: u16, attached: Option<String> },
}

/// The mathematical model of [`Outcome`].
pub enum OutcomeModel {
    Failure { error: Seq<char> },
    Response { status: u16, attached: Option<Seq<char>> },
}

impl View for Outcome {
    type V = OutcomeModel;

    open spec fn view(&self) -> OutcomeModel {
        match self {
            Outcome::Failure { error } => OutcomeModel::Failure { error: error@ },
            Outcome::Response { status, attached } => OutcomeModel::Response {
                status: *status,
                attached: attached.deep_view(),
            },
        }
    }
}

impl DeepView for Outcome {
    type V = OutcomeModel;

    open spec fn deep_view(&self) -> OutcomeModel {
        self@
    }
}

/// One thing that the interceptor asks for once the handler is done.
#[derive(Debug)]
pub enum Action {
    /// Send this report to the backend.
    Send(Report),
    /// Return this outcome to the caller.
    Respond(Outcome),
}

/// The mathematical model of [`Action`].
pub enum ActionModel {
    Send(ReportModel),
    Respond(OutcomeModel),
}

impl View for Action {
    type V = ActionModel;

    open spec fn view(&self) -> ActionModel {
        match self {
            Action::Send(report) => ActionModel::Send(report@),
            Action::Respond(outcome) => ActionModel::Respond(outcome@),
        }
    }
}

impl DeepView for Action {
    type V = ActionModel;

    open spec fn deep_view(&self) -> ActionModel {
        self@
    }
}

/// The statuses that tell of a failure on the server's side: 500 to 599.
pub open spec fn is_server_failure(status: u16) -> bool {
    500 <= status < 600
}

/// The error that an outcome gives to report: the error of a failure, or the
/// error carried by a response whose status tells of a server failure. Any
/// other outcome gives none.
pub open spec fn reportable_error(outcome: OutcomeModel) -> Option<Seq<char>> {
    match outcome {
        OutcomeModel::Failure { error } => Some(error),
        OutcomeModel::Response { status, attached } => if is_server_failure(status) {
            attached
        } else {
            None
        },
    }
}

/// The report that an outcome calls for, if any.
pub open spec fn report_of(
    handle: Option<ClientModel>,
    detail: ContextModel,
    outcome: OutcomeModel,
) -> Option<ReportModel> {
    match reportable_error(outcome) {
        Some(error) => reported(handle, error, detail),
        None => None,
    }
}

/// What an outcome calls for, in order: the report, where there is one, is
/// sent; then the outcome is returned.
pub open spec fn completion(
    handle: Option<ClientModel>,
    detail: ContextModel,
    outcome: OutcomeModel,
) -> Seq<ActionModel> {
    match report_of(handle, detail, outcome) {
        Some(report) => seq![ActionModel::Send(report), ActionModel::Respond(outcome)],
        None => seq![ActionModel::Respond(outcome)],
    }
}

/// The class of a status number.
///
/// Trusted: the body makes a `StatusCode` of the number with
/// `StatusCode::from_u16` and asks it `StatusCode::is_server_error` (crate
/// `http`, as `actix_web::http` exports it). `from_u16` takes the numbers from
/// 100 to 999 and refuses the others; `is_server_error` holds of 500 to 599.
#[verifier::external_body]
fn server_error_class(status: u16) -> (class: Option<bool>)
    ensures
        class is Some <==> 100 <= status < 1000,
        class matches Some(failed) ==> failed == is_server_failure(status),
{
    match StatusCode::from_u16(status) {
        Ok(code) => Some(code.is_server_error()),
        Err(_) => None,
    }
}

/// Whether a status tells of a failure on the server's side.
pub fn is_server_error(status: u16) -> (failed: bool)
    ensures
        failed == is_server_failure(status),
{
    match server_error_class(status) {
        Some(failed) => failed,
        None => false,
    }
}

/// The interceptor. It reports through the handle it was made with.
pub struct RollbarMiddleware {
    inner: Rollbar,
}

impl View for RollbarMiddleware {
    type V = Option<ClientModel>;

    closed spec fn view(&self) -> Option<ClientModel> {
        self.inner@
    }
}

/// A request that was handed to the wrapped handler and has no outcome yet.
pub struct InFlight {
    inner: Rollbar,
    detail: RequestContext,
}

/// The mathematical model of [`InFlight`].
pub struct InFlightModel {
    pub handle: Option<ClientModel>,
    pub detail: ContextModel,
}

impl View for InFlight {
    type V = InFlightModel;

    closed spec fn view(&self) -> InFlightModel {
        InFlightModel { handle: self.inner@, detail: self.detail@ }
    }
}

impl RollbarMiddleware {
    /// The interceptor that reports through `inner`.
    pub fn new(inner: Rollbar) -> (middleware: RollbarMiddleware)
        ensures
            middleware@ == inner@,
    {
        RollbarMiddleware { inner }
    }

    /// Takes up a request. The context is taken from the request as it was
    /// received, here and now, whether or not there is a client to report to;
    /// the request is then to be delegated to the wrapped handler.
    pub fn call(&self, req: &RequestParts) -> (in_flight: InFlight)
        ensures
            in_flight@ == (InFlightModel { handle: self@, detail: context_of(req@) }),
    {
        let inner = self.inner.clone();
        let detail = to_rollbar_request(req);
        InFlight { inner, detail }
    }
}

impl InFlight {
    /// The context that was taken from the request.
    pub fn detail(&self) -> (detail: &RequestContext)
        ensures
            detail@ == self@.detail,
    {
        &self.detail
    }

    /// Settles the request with the outcome of the wrapped handler: the
    /// actions to take, in order. A failure, or a response that tells of a
    /// server failure and carries its error, is reported first, if there is a
    /// client to report to. The outcome is returned last and unchanged.
    pub fn complete(self, outcome: Outcome) -> (actions: Vec<Action>)
        ensures
            actions.deep_view() == completion(self@.handle, self@.detail, outcome@),
    {
        let InFlight { inner, detail } = self;
        let report = match &outcome {
            Outcome::Failure { error } => inner.report_error(error.clone(), detail),
            Outcome::Response { status, attached } => {
                if is_server_error(*status) {
                    match attached {
                        Some(error) => inner.report_error(error.clone(), detail),
                        None => None,
                    }
                } else {
                    None
                }
            },
        };
        let mut actions: Vec<Action> = Vec::new();
        match report {
            Some(report) => {
                actions.push(Action::Send(report));
            },
            None => {},
        }
        actions.push(Action::Respond(outcome));
        proof {
            assert(actions.deep_view() =~= completion(self@.handle, self@.detail, outcome@));
        }
        actions
    }
}

/// The outcome is always returned, last and as the handler gave it, and at
/// most one report goes out for it, before it is returned: the actions are
/// one or two, the last returns the outcome, and an action before it sends a
/// report.
pub proof fn outcome_is_returned_unchanged(
    handle: Option<ClientModel>,
    detail: ContextModel,
    outcome: OutcomeModel,
)
    ensures
        1 <= completion(handle, detail, outcome).len() <= 2,
        completion(handle, detail, outcome).last() == ActionModel::Respond(outcome),
        forall|i: int|
            0 <= i < completion(handle, detail, outcome).len() - 1 ==> (#[trigger] completion(
                handle,
                detail,
                outcome,
            )[i]) is Send,
{
}

/// A response whose status does not tell of a server failure is returned as
/// it is, and nothing is sent.
pub proof fn success_is_passed_through(
    handle: Option<ClientModel>,
    detail: ContextModel,
    status: u16,
    attached: Option<Seq<char>>,
)
    requires
        !is_server_failure(status),
    ensures
        completion(handle, detail, OutcomeModel::Response { status, attached }) == seq![
            ActionModel::Respond(OutcomeModel::Response { status, attached }),
        ],
{
}

/// Where there is a client, a failure of the handler is reported exactly
/// once, with the context of the request, and then returned as it is.
pub proof fn failure_is_reported_then_returned(
    client: ClientModel,
    detail: ContextModel,
    error: Seq<char>,
)
    ensures
        completion(Some(client), detail, OutcomeModel::Failure { error }) == seq![
            ActionModel::Send(ReportModel::Error { error, request: detail }),
            ActionModel::Respond(OutcomeModel::Failure { error }),
        ],
{
}

/// Where there is a client, a response that tells of a server failure and
/// carries its error is reported exactly once, with that error, and then
/// returned as it is.
pub proof fn server_failure_with_error_is_reported(
    client: ClientModel,
    detail: ContextModel,
    status: u16,
    error: Seq<char>,
)
    requires
        is_server_failure(status),
    ensures
        completion(Some(client), detail, OutcomeModel::Response { status, attached: Some(error) })
            == seq![
            ActionModel::Send(ReportModel::Error { error, request: detail }),
            ActionModel::Respond(OutcomeModel::Response { status, attached: Some(error) }),
        ],
{
}

/// A response that carries no error is never reported, whatever its status:
/// there is nothing to tell.
pub proof fn response_without_error_is_not_reported(
    handle: Option<ClientModel>,
    detail: ContextModel,
    status: u16,
)
    ensures
        completion(handle, detail, OutcomeModel::Response { status, attached: None }) == seq![
            ActionModel::Respond(OutcomeModel::Response { status, attached: None }),
        ],
{
}

/// Without a client nothing is ever sent: whatever the outcome, it is
/// returned as it is and that is all.
pub proof fn nothing_is_sent_without_client(detail: ContextModel, outcome: OutcomeModel)
    ensures
        completion(None, detail, outcome) == seq![ActionModel::Respond(outcome)],
{
}

} // verus!
