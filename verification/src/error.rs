//! The ways in which a request can fail to yield a resource.

use vstd::prelude::*;

verus! {

/// Why a request gave no resource. Every failure is found by the client that
/// carries the request; nothing in this crate raises one of its own.
#[derive(Debug, PartialEq, Eq)]
pub enum Error {
    /// The request did not reach the service, or its answer did not come
    /// back: a connection that failed, a time limit that ran out.
    Transport(String),
    /// The service answered with a status other than success, and said why.
    Api { status: u16, message: String },
    /// The answer came, but did not have the shape of the resource.
    Deserialization(String),
}

impl Clone for Error {
    fn clone(&self) -> (copy: Self)
        ensures
            copy == *self,
    {
        match self {
            Error::Transport(reason) => Error::Transport(reason.clone()),
            Error::Api { status, message } => Error::Api {
                status: *status,
                message: message.clone(),
            },
            Error::Deserialization(reason) => Error::Deserialization(reason.clone()),
        }
    }
}

} // verus!
