//! Liveness verification: what is sent to a session to probe it, and what
//! the answer must be for the session to be handed out again.

use vstd::prelude::*;
use crate::client::{first_reading, take_first_reading, Reading};
use crate::connect::{law_faithful_run, run, ConnectActionView, ConnectEvent, ConnectState};
use crate::error::{ConnectError, Unexpected, ValidateError};
use crate::manager::{Endpoint, SurrealDBConnectionManager};

verus! {

/// The value that a live session answers the probe with.
pub const SENTINEL: i32 = 1;

/// The text of the probe: a constant expression, so that evaluating it
/// takes a full round trip and changes nothing on the server.
pub open spec fn probe_text() -> Seq<char> {
    "RETURN 1"@
}

/// The verdict on a connection, given how the reading of its probe ended.
///
/// The connection passes, and is returned as it came, exactly when the
/// sentinel was read. Whatever else the probe was answered with is an
/// unexpected result: another integer, no value, a value of another type,
/// or several values. Where there was no answer to read, the probe has
/// failed, with that failure as its cause.
pub open spec fn verdict<C>(conn: C, reading: Reading) -> Result<C, ValidateError> {
    match reading {
        Reading::Scalar(found) => if found == Some(SENTINEL) {
            Ok(conn)
        } else {
            Err(ValidateError::UnexpectedResult(Unexpected::Scalar(found)))
        },
        Reading::Mistyped(account) => Err(
            ValidateError::UnexpectedResult(Unexpected::Mistyped(account)),
        ),
        Reading::Several(account) => Err(
            ValidateError::UnexpectedResult(Unexpected::Several(account)),
        ),
        Reading::Failed(cause) => Err(ValidateError::ProbeFailed(cause)),
    }
}

/// The verdict on a connection, given how the round trip of its probe
/// ended: a round trip that failed is a failed probe, and one that was
/// answered is judged by what the response holds for its first statement.
pub open spec fn check_result<C>(conn: C, outcome: Result<surrealdb::Response, surrealdb::Error>) -> Result<
    C,
    ValidateError,
> {
    match outcome {
        Ok(response) => verdict(conn, first_reading(response)),
        Err(cause) => Err(ValidateError::ProbeFailed(cause)),
    }
}

/// The verdict on a connection that is probed once for each of `readings`,
/// in order: that of the first reading that fails it, and if none does, the
/// connection as it came.
pub open spec fn verdicts<C>(conn: C, readings: Seq<Reading>) -> Result<C, ValidateError>
    decreases readings.len(),
{
    if readings.len() == 0 {
        Ok(conn)
    } else {
        match verdict(conn, readings.first()) {
            Ok(conn) => verdicts(conn, readings.drop_first()),
            Err(error) => Err(error),
        }
    }
}

/// A connection passes exactly when the sentinel was read, and what passes
/// is the connection that was put to the test.
pub proof fn law_only_the_sentinel_passes<C>(conn: C, reading: Reading)
    ensures
        verdict(conn, reading) is Ok <==> reading == Reading::Scalar(Some(SENTINEL)),
        verdict(conn, reading) is Ok ==> verdict(conn, reading) == Ok::<C, ValidateError>(conn),
{
}

/// A probe that got no answer is a failed probe, with the failure as its
/// cause: whether the round trip itself failed, or the server reported an
/// error for the statement.
pub proof fn law_failed_probe<C>(
    conn: C,
    outcome: Result<surrealdb::Response, surrealdb::Error>,
    cause: surrealdb::Error,
)
    requires
        outcome == Err::<surrealdb::Response, surrealdb::Error>(cause) || (outcome matches Ok(response)
            && first_reading(response) == Reading::Failed(cause)),
    ensures
        check_result(conn, outcome) == Err::<C, ValidateError>(ValidateError::ProbeFailed(cause)),
{
}

/// A probe that was answered with anything but the sentinel is an
/// unexpected result, never a failed probe and never a pass: be the answer
/// another integer, no value, a value of another type, or several values.
/// The error carries what the answer was.
pub proof fn law_unexpected_result<C>(conn: C, response: surrealdb::Response)
    requires
        !(first_reading(response) is Failed),
        first_reading(response) != Reading::Scalar(Some(SENTINEL)),
    ensures
        check_result(conn, Ok(response)) matches Err(error) && error is UnexpectedResult,
        first_reading(response) matches Reading::Scalar(value) ==> check_result(conn, Ok(response))
            == Err::<C, ValidateError>(ValidateError::UnexpectedResult(Unexpected::Scalar(value))),
        first_reading(response) matches Reading::Mistyped(account) ==> check_result(
            conn,
            Ok(response),
        ) == Err::<C, ValidateError>(ValidateError::UnexpectedResult(Unexpected::Mistyped(account))),
        first_reading(response) matches Reading::Several(account) ==> check_result(
            conn,
            Ok(response),
        ) == Err::<C, ValidateError>(ValidateError::UnexpectedResult(Unexpected::Several(account))),
{
}

/// Validation is idempotent: however often a connection is probed, as long
/// as every probe reads the sentinel it passes every time, and comes back
/// as it was.
pub proof fn law_revalidation_changes_nothing<C>(conn: C, readings: Seq<Reading>)
    requires
        forall|i: int| 0 <= i < readings.len() ==> readings[i] == Reading::Scalar(Some(SENTINEL)),
    ensures
        verdicts(conn, readings) == Ok::<C, ValidateError>(conn),
    decreases readings.len(),
{
    if readings.len() > 0 {
        law_revalidation_changes_nothing(conn, readings.drop_first());
    }
}

/// A session that was just established passes validation: when the dial
/// and the sign-in succeed, the run hands out that session, and a probe on
/// it that reads the sentinel returns it unchanged.
pub proof fn law_fresh_connection_passes<S>(endpoint: Endpoint, session: S)
    ensures
        run(
            endpoint,
            ConnectState::Unconnected,
            ConnectEvent::Requested,
            Ok::<S, surrealdb::Error>(session),
            Ok::<(), surrealdb::Error>(()),
        ).last() == ConnectActionView::Finish(Ok::<S, ConnectError>(session)),
        verdict(session, Reading::Scalar(Some(SENTINEL))) == Ok::<S, ValidateError>(session),
{
    law_faithful_run(
        endpoint,
        Ok::<S, surrealdb::Error>(session),
        Ok::<(), surrealdb::Error>(()),
    );
}

/// Judges a connection by how the reading of its probe ended.
pub fn inspect<C>(conn: C, reading: Reading) -> (checked: Result<C, ValidateError>)
    ensures
        checked == verdict(conn, reading),
{
    match reading {
        Reading::Scalar(Some(value)) => {
            if value == SENTINEL {
                Ok(conn)
            } else {
                Err(ValidateError::UnexpectedResult(Unexpected::Scalar(Some(value))))
            }
        },
        Reading::Scalar(None) => Err(ValidateError::UnexpectedResult(Unexpected::Scalar(None))),
        Reading::Mistyped(account) => Err(
            ValidateError::UnexpectedResult(Unexpected::Mistyped(account)),
        ),
        Reading::Several(account) => Err(
            ValidateError::UnexpectedResult(Unexpected::Several(account)),
        ),
        Reading::Failed(cause) => Err(ValidateError::ProbeFailed(cause)),
    }
}

impl SurrealDBConnectionManager {
    /// The query to send to a session in order to probe it. It is the same
    /// for every manager and every session.
    pub fn probe(&self) -> (query: &'static str)
        ensures
            query@ == probe_text(),
    {
        "RETURN 1"
    }

    /// Checks the health of a connection, given how the round trip of the
    /// probe on it ended.
    ///
    /// A round trip that failed is a failed probe. One that was answered is
    /// judged by what the response holds for its first statement.
    pub fn check<C>(&self, conn: C, outcome: Result<surrealdb::Response, surrealdb::Error>) -> (checked:
        Result<C, ValidateError>)
        ensures
            checked == check_result(conn, outcome),
    {
        match outcome {
            Ok(response) => {
                let mut response = response;
                let reading = take_first_reading(&mut response);
                inspect(conn, reading)
            },
            Err(cause) => Err(ValidateError::ProbeFailed(cause)),
        }
    }
}

} // verus!
