//! Work items and the values that travel back to the caller.

use vstd::prelude::*;

verus! {

/// What the remote call produced on success. The pool never looks inside: it
/// moves the value from the worker to the caller as it is.
#[derive(Debug, Clone, PartialEq, Eq)]
pub struct RemoteResponse {
    pub status: u16,
    pub body: Vec<u8>,
}

/// What the remote call reported on failure. Passed through as it is; the
/// pool never retries.
#[derive(Debug, Clone, PartialEq, Eq)]
pub struct RemoteError {
    pub message: String,
}

/// The single value a completion handle carries.
pub type HttpPoolResponse = Result<RemoteResponse, RemoteError>;

/// One unit of submitted work: the target of the remote call and the writing
/// end of the completion handle on which the caller waits.
pub struct HttpPoolRequest {
    pub(crate) url: String,
    pub(crate) result: tokio::sync::oneshot::Sender<HttpPoolResponse>,
}

impl HttpPoolRequest {
    /// A work item for `url` that answers on `result`.
    pub(crate) fn new(
        url: String,
        result: tokio::sync::oneshot::Sender<HttpPoolResponse>,
    ) -> (item: HttpPoolRequest)
        ensures
            item.target() == url@,
    {
        HttpPoolRequest { url, result }
    }

    /// The target as a sequence of characters.
    pub closed spec fn target(&self) -> Seq<char> {
        self.url@
    }

    /// The target of the remote call.
    pub fn url(&self) -> (url: &String)
        ensures
            url@ == self.target(),
    {
        &self.url
    }
}

} // verus!
