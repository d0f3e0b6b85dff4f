//! Forwarding a batch of dependencies to the server.
use crate::config::ServerConfig;
use crate::engine::dependency::{batch_to_json, dependency_views, encode_batch, Dependency, DependencyView};
use crate::error::{Error, ErrorView};
use crate::json::{document_text, render};
use crate::text::{decimal, decimal_string, joined};
use vstd::prelude::*;

verus! {

/// The one request that carries a batch to the server.
#[derive(Debug, Clone, PartialEq, Eq)]
pub struct RelayRequest {
    pub url: String,
    /// Seconds after which the request is given up.
    pub timeout: u64,
    /// The batch as a JSON array of objects.
    pub body: String,
}

/// How the request ended.
#[derive(Debug, Clone, PartialEq, Eq)]
pub enum RelayOutcome {
    /// The server answered with this status.
    Status(u16),
    /// The server could not be reached; holds the reason.
    Failed(String),
    /// No answer came in time.
    TimedOut,
}

/// The statuses that mean success.
pub open spec fn is_success(status: u16) -> bool {
    200 <= status <= 299
}

pub open spec fn status_text(status: u16) -> Seq<char> {
    "Server responded with status: "@ + decimal(status as nat)
}

/// The text of the request body for a batch, where it can be written.
pub open spec fn batch_text(batch: Seq<DependencyView>) -> Option<Seq<char>> {
    document_text(encode_batch(batch))
}

/// Why a batch could not be made into a request.
pub open spec fn unwritable_batch() -> ErrorView {
    ErrorView::Serialization("the batch cannot be written as JSON"@)
}

/// What the outcome of a request means: a status from 200 to 299 is success,
/// everything else a relay failure.
pub open spec fn relay_failure(outcome: RelayOutcome) -> Option<ErrorView> {
    match outcome {
        RelayOutcome::Status(status) => if is_success(status) {
            None
        } else {
            Some(ErrorView::Relay(status_text(status)))
        },
        RelayOutcome::Failed(reason) => Some(ErrorView::Relay(reason@)),
        RelayOutcome::TimedOut => Some(ErrorView::Relay("The request timed out"@)),
    }
}

/// Builds the request that carries `batch` to `server`.
pub fn relay_request(server: &ServerConfig, batch: &Vec<Dependency>) -> (r: Result<
    RelayRequest,
    Error,
>)
    ensures
        match batch_text(dependency_views(batch@)) {
            Some(body) => r is Ok && r->Ok_0.url@ == server.url@ && r->Ok_0.timeout
                == server.timeout && r->Ok_0.body@ == body,
            None => r is Err && r->Err_0@ == unwritable_batch(),
        },
{
    match render(&batch_to_json(batch)) {
        Some(body) => Ok(RelayRequest { url: server.url.clone(), timeout: server.timeout, body }),
        None => Err(Error::Serialization("the batch cannot be written as JSON".to_owned())),
    }
}

/// Judges the outcome of a relay request.
pub fn send_to_server(outcome: RelayOutcome) -> (r: Result<(), Error>)
    ensures
        match relay_failure(outcome) {
            Some(e) => r is Err && r->Err_0@ == e,
            None => r is Ok,
        },
{
    match outcome {
        RelayOutcome::Status(status) => {
            if 200 <= status && status <= 299 {
                Ok(())
            } else {
                Err(
                    Error::Relay(
                        joined(
                            "Server responded with status: ",
                            decimal_string(status as u64).as_str(),
                        ),
                    ),
                )
            }
        },
        RelayOutcome::Failed(reason) => Err(Error::Relay(reason)),
        RelayOutcome::TimedOut => Err(Error::Relay("The request timed out".to_owned())),
    }
}

} // verus!
