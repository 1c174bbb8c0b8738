//! The crash hook: what is done when the process crashes.
//!
//! The hook does not replace the crash handling that was in place before it;
//! it goes first and then hands the crash on. So a crash yields two actions,
//! in this order: send the report of the crash, then delegate to the earlier
//! behavior, which may well end the process.

use crate::client::{Client, ClientModel};
use crate::report::{capture_backtrace, Report, ReportModel};
use backtrace::Backtrace;
use std::sync::Arc;
use vstd::prelude::*;

verus! {

/// One thing that the hook asks for when the process crashes.
#[derive(Debug)]
pub enum CrashAction {
    /// Send this report to the backend.
    Send(Report),
    /// Call the crash handling that was in place before the hook, with the crash it was given.
    Delegate { payload: String },
}

/// The mathematical model of [`CrashAction`].
pub enum CrashActionModel {
    Send(ReportModel),
    Delegate { payload: Seq<char> },
}

impl View for CrashAction {
    type V = CrashActionModel;

    open spec fn view(&self) -> CrashActionModel {
        match self {
            CrashAction::Send(report) => CrashActionModel::Send(report@),
            CrashAction::Delegate { payload } => CrashActionModel::Delegate { payload: payload@ },
        }
    }
}

impl DeepView for CrashAction {
    type V = CrashActionModel;

    open spec fn deep_view(&self) -> CrashActionModel {
        self@
    }
}

/// What a crash calls for, in order: the report of the crash is sent, then
/// the crash is handed on to the earlier behavior.
pub open spec fn crash_response(payload: Seq<char>, backtrace: Backtrace) -> Seq<CrashActionModel> {
    seq![
        CrashActionModel::Send(ReportModel::Panic { message: payload, backtrace }),
        CrashActionModel::Delegate { payload },
    ]
}

/// The hook that reports crashes through a client. There is one only where
/// there is a client.
pub struct PanicHook {
    client: Arc<Client>,
}

impl View for PanicHook {
    type V = ClientModel;

    closed spec fn view(&self) -> ClientModel {
        self.client@
    }
}

impl PanicHook {
    /// The hook that reports through `client`.
    pub(crate) fn new(client: Arc<Client>) -> (hook: PanicHook)
        ensures
            hook@ == client@,
    {
        PanicHook { client }
    }

    /// The client that crashes are reported through.
    pub fn client(&self) -> (client: &Client)
        ensures
            client@ == self@,
    {
        &*self.client
    }

    /// The actions that a crash calls for. The call stack is taken here, at
    /// once, while it still is the stack of the crash.
    pub fn on_panic(&self, payload: String) -> (actions: Vec<CrashAction>)
        ensures
            exists|backtrace: Backtrace|
                actions.deep_view() == #[trigger] crash_response(payload@, backtrace),
    {
        let backtrace = capture_backtrace();
        self.on_panic_with(payload, backtrace)
    }

    /// The actions that a crash calls for, given the call stack of the crash.
    pub fn on_panic_with(&self, payload: String, backtrace: Backtrace) -> (actions: Vec<
        CrashAction,
    >)
        ensures
            actions.deep_view() == crash_response(payload@, backtrace),
    {
        let report = Report::from_panic(payload.clone(), backtrace);
        let mut actions: Vec<CrashAction> = Vec::new();
        actions.push(CrashAction::Send(report));
        actions.push(CrashAction::Delegate { payload });
        proof {
            assert(actions.deep_view() =~= crash_response(payload@, backtrace));
        }
        actions
    }
}

/// A crash is reported exactly once, and the report goes out before the crash
/// is handed on: of the actions of a crash the first, and no other, sends a
/// report, which tells the crash as it was given; the last, and no other,
/// delegates, with the same crash.
pub proof fn crash_is_reported_then_delegated(payload: Seq<char>, backtrace: Backtrace)
    ensures
        crash_response(payload, backtrace).len() == 2,
        crash_response(payload, backtrace)[0] == CrashActionModel::Send(
            ReportModel::Panic { message: payload, backtrace },
        ),
        crash_response(payload, backtrace)[1] == (CrashActionModel::Delegate { payload }),
        forall|i: int|
            0 <= i < 2 ==> ((#[trigger] crash_response(payload, backtrace)[i]) is Send <==> i == 0),
{
}

} // verus!
