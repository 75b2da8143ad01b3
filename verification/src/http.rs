//! What comes back from a remote service, and how a refusal is reported.
use vstd::prelude::*;

verus! {

/// The 2xx class of HTTP status codes, as `http::StatusCode::is_success`
/// defines it.
pub open spec fn spec_is_success(status: u16) -> bool {
    200 <= status && status < 300
}

/// Whether the status code of a reply means that the request succeeded.
pub fn is_success(status: u16) -> (ok: bool)
    ensures
        ok == spec_is_success(status),
{
    200 <= status && status < 300
}

/// The reply of a remote service: the decoded body of a successful reply, or
/// the status code and body text of any other.
pub enum HttpReply<T> {
    Success(T),
    Failure { status: u16, body: String },
}

/// A remote service refused a request.
#[derive(Debug, Clone)]
pub enum ServiceError {
    /// The vector database answered a search with a status other than 2xx.
    QdrantRejected { status: u16, body: String },
    /// The chat model server answered with a status other than 2xx.
    OllamaRejected { status: u16, body: String },
}

} // verus!
