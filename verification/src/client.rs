//! The client handle: whether there is a backend to report to, and which.
//!
//! The handle is made once, from the two settings that the environment
//! provides. Without a key it is empty, and whatever is asked of it then
//! yields no report. It never changes after that; sharing it hands out another
//! reference to the same client.

use crate::context::{ContextModel, RequestContext};
use crate::hook::PanicHook;
use crate::middleware::RollbarMiddleware;
use crate::report::{Report, ReportModel};
use std::sync::Arc;
use vstd::prelude::*;
use vstd::string::*;

verus! {

/// What it takes to reach the backend: the key and the environment label.
#[derive(Debug, Clone, PartialEq, Eq)]
pub struct Client {
    /// The key that the backend knows the project by.
    pub access_token: String,
    /// The environment that reports are filed under.
    pub environment: String,
}

/// The mathematical model of [`Client`].
pub struct ClientModel {
    pub access_token: Seq<char>,
    pub environment: Seq<char>,
}

impl View for Client {
    type V = ClientModel;

    open spec fn view(&self) -> ClientModel {
        ClientModel { access_token: self.access_token@, environment: self.environment@ }
    }
}

impl DeepView for Client {
    type V = ClientModel;

    open spec fn deep_view(&self) -> ClientModel {
        self@
    }
}

/// The environment label used where none is set.
pub open spec fn default_environment() -> Seq<char> {
    "development"@
}

/// The client that two settings call for: none without a key; with a key, one
/// for that key and for the environment set, or else the default environment.
pub open spec fn configured(key: Option<Seq<char>>, environment: Option<Seq<char>>) -> Option<
    ClientModel,
> {
    match key {
        Some(access_token) => Some(
            ClientModel {
                access_token,
                environment: match environment {
                    Some(label) => label,
                    None => default_environment(),
                },
            },
        ),
        None => None,
    }
}

/// What reporting an error through a handle yields: the report of that error
/// in that context where the handle holds a client, and nothing where it holds none.
pub open spec fn reported(
    handle: Option<ClientModel>,
    error: Seq<char>,
    request: ContextModel,
) -> Option<ReportModel> {
    if handle is Some {
        Some(ReportModel::Error { error, request })
    } else {
        None
    }
}

/// The handle on the backend client. It holds a client or none; which of the
/// two is settled when it is made.
pub struct Rollbar {
    client: Option<Arc<Client>>,
}

impl View for Rollbar {
    type V = Option<ClientModel>;

    closed spec fn view(&self) -> Option<ClientModel> {
        match self.client {
            Some(client) => Some(client@),
            None => None,
        }
    }
}

/// Another reference to a shared client.
///
/// Trusted: the body is one call of `Arc::clone`, which std documents as
/// making another pointer to the same allocation; so what the result points
/// at is what the argument points at.
#[verifier::external_body]
fn share(client: &Arc<Client>) -> (shared: Arc<Client>)
    ensures
        shared == *client,
{
    Arc::clone(client)
}

impl Clone for Rollbar {
    /// Another handle on the same client.
    fn clone(&self) -> (handle: Self)
        ensures
            handle == *self,
    {
        match &self.client {
            Some(client) => Rollbar { client: Some(share(client)) },
            None => Rollbar { client: None },
        }
    }
}

impl Rollbar {
    /// The handle that the two settings of the environment call for: the
    /// backend key and the environment label, each as set or not set.
    pub fn from_env(key: Option<String>, environment: Option<String>) -> (handle: Rollbar)
        ensures
            handle@ == configured(key.deep_view(), environment.deep_view()),
    {
        match Self::client_from_env(key, environment) {
            Some(client) => Rollbar { client: Some(Arc::new(client)) },
            None => Rollbar { client: None },
        }
    }

    /// The client that the two settings call for. Without a key there is
    /// none. The environment label, where not set, is `development`.
    pub fn client_from_env(key: Option<String>, environment: Option<String>) -> (client: Option<
        Client,
    >)
        ensures
            client.deep_view() == configured(key.deep_view(), environment.deep_view()),
    {
        match key {
            Some(access_token) => {
                let environment = match environment {
                    Some(label) => label,
                    None => String::from_str("development"),
                };
                Some(Client { access_token, environment })
            },
            None => None,
        }
    }

    /// Whether the handle holds a client.
    pub fn present(&self) -> (present: bool)
        ensures
            present == (self@ is Some),
    {
        self.client.is_some()
    }

    /// The client that the handle holds.
    pub fn client(&self) -> (client: Option<&Client>)
        ensures
            client.deep_view() == self@,
    {
        match &self.client {
            Some(client) => Some(&**client),
            None => None,
        }
    }

    /// The crash hook to install: one that reports through this handle's
    /// client, or none where the handle holds no client, so that the crash
    /// handling already in place is left as it is.
    pub fn register_panic_hook(self) -> (hook: Option<PanicHook>)
        ensures
            hook is Some <==> self@ is Some,
            hook matches Some(h) ==> Some(h@) == self@,
    {
        match self.client {
            Some(client) => Some(PanicHook::new(client)),
            None => None,
        }
    }

    /// Reports an error that came with a request: the report to send, one at
    /// most. There is none where the handle holds no client.
    pub fn report_error(&self, error: String, request: RequestContext) -> (report: Option<Report>)
        ensures
            report.deep_view() == reported(self@, error@, request@),
    {
        if self.client.is_some() {
            Some(Report::from_error(error, request))
        } else {
            None
        }
    }

    /// The interceptor that reports through this handle.
    pub fn new_transform(&self) -> (middleware: RollbarMiddleware)
        ensures
            middleware@ == self@,
    {
        RollbarMiddleware::new(self.clone())
    }
}

} // verus!
