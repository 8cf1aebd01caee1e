//! The parts of the database client that the adapter reads without touching
//! the network: its error type, the response to a query, and what such a
//! response holds for its first statement.

use vstd::prelude::*;

verus! {

/// `surrealdb::Error`, the client's error type. The adapter never looks
/// inside one: it only carries it along as the cause of its own errors.
#[verifier::external_type_specification]
#[verifier::external_body]
pub struct ExClientError(surrealdb::Error);

/// `surrealdb::Response`, what the client returns for a query: the results
/// of its statements, by index.
#[verifier::external_type_specification]
#[verifier::external_body]
pub struct ExQueryResponse(surrealdb::Response);

/// How the attempt to read one optional 32-bit integer from the first
/// statement of a response ended.
#[derive(Debug)]
pub enum Reading {
    /// The statement was answered with this integer, or with no value.
    Scalar(Option<i32>),
    /// The statement was answered with one value that is no 32-bit
    /// integer. Carries the client's account of the value.
    Mistyped(surrealdb::Error),
    /// The statement was answered with more than one value. Carries the
    /// client's account of them.
    Several(surrealdb::Error),
    /// There is no answer to read: the server reported an error for the
    /// statement, or the client failed in some other way. Carries that
    /// error.
    Failed(surrealdb::Error),
}

/// What a response holds for its first statement, as far as one optional
/// 32-bit integer can be read from it.
pub uninterp spec fn first_reading(response: surrealdb::Response) -> Reading;

/// Calls `surrealdb::Response::take` with index 0 and `Option<i32>` as the
/// type to read, and tells the variants of its error apart: `Api::FromValue`
/// is `Mistyped`, `Api::LossyTake` is `Several`, any other is `Failed`, each
/// with the error as it came.
///
/// Not proved: that the outcome is determined by what the response held
/// before the call, which is all that `first_reading` stands for. Nothing is
/// claimed about the response after the call.
#[verifier::external_body]
pub(crate) fn take_first_reading(response: &mut surrealdb::Response) -> (reading: Reading)
    ensures
        reading == first_reading(*old(response)),
{
    match response.take::<Option<i32>>(0) {
        Ok(found) => Reading::Scalar(found),
        Err(cause @ surrealdb::Error::Api(surrealdb::error::Api::FromValue { .. })) => {
            Reading::Mistyped(cause)
        },
        Err(cause @ surrealdb::Error::Api(surrealdb::error::Api::LossyTake(_))) => {
            Reading::Several(cause)
        },
        Err(cause) => Reading::Failed(cause),
    }
}

} // verus!
