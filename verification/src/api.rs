//! Errors the HTTP handlers answer with.
use vstd::prelude::*;

verus! {

/// The status class of an error answer.
#[derive(Clone, Copy, PartialEq, Eq, Structural, Debug)]
pub enum ApiErrorKind {
    /// The request was malformed or refers to something that does not exist.
    BadRequest,
    /// The caller is not (or no longer) authenticated.
    Unauthorized,
    /// The server or a service it depends on failed.
    ServerError,
}

/// An error answer decided by the library: its status and a fixed context
/// message.
#[derive(Clone, Copy, Debug)]
pub struct ApiFailure {
    /// The status class.
    pub kind: ApiErrorKind,
    /// What went wrong.
    pub context: &'static str,
}

/// Either an answer the library decided on, or an error from the outside
/// that is passed on as it is.
pub enum Rejection<E> {
    /// Refused by the library.
    Refused(ApiFailure),
    /// An error of a service the library relied on.
    Failed(E),
}

} // verus!
