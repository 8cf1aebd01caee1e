//! The two error types of the adapter. Every variant that stems from a
//! failure of the client carries that failure as its cause.

use vstd::prelude::*;

verus! {

/// Why no session could be handed out.
#[derive(Debug)]
pub enum ConnectError {
    /// The transport-level session could not be opened: the host was
    /// unreachable, the handshake failed, or the URI was malformed.
    Transport(surrealdb::Error),
    /// The session was opened, but the sign-in was rejected or failed.
    Auth(surrealdb::Error),
}

/// What a probe was answered with in place of the sentinel.
#[derive(Debug)]
pub enum Unexpected {
    /// Another integer, or no value at all.
    Scalar(Option<i32>),
    /// One value that is no 32-bit integer, with the client's account of
    /// it.
    Mistyped(surrealdb::Error),
    /// More than one value, with the client's account of them.
    Several(surrealdb::Error),
}

/// Why a session is no longer fit to be handed out.
#[derive(Debug)]
pub enum ValidateError {
    /// The probe was answered, but not with the sentinel. Carries what it
    /// was answered with.
    UnexpectedResult(Unexpected),
    /// The probe round trip itself failed: the query could not be sent or
    /// answered, or the server reported an error for it.
    ProbeFailed(surrealdb::Error),
}

} // verus!
