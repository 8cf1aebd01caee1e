//! Connection establishment as a state machine.
//!
//! Opening a session takes network round trips that this crate does not
//! make. It decides instead: a driver reports each thing that happened as a
//! [`ConnectEvent`], and is told by a [`ConnectAction`] what to do next. The
//! order of the steps, the classification of failures and the duty to close
//! a session that could not be signed in are all settled here.
//!
//! The machine itself never keeps a session. One that an event brings
//! leaves with the action of the same step, so between two steps every
//! open session is in the driver's hands, and is released with them if the
//! run is abandoned.

use std::sync::Arc;
use vstd::prelude::*;
use crate::error::ConnectError;
use crate::manager::{Endpoint, SurrealDBConnectionManager};

verus! {

/// How far one attempt to establish a session has come.
#[derive(Debug)]
pub enum ConnectState {
    /// Nothing has been opened yet.
    Unconnected,
    /// The transport-level session is being opened.
    Dialing,
    /// A session is open and is being signed in.
    SigningIn,
    /// The sign-in failed and the session is being closed; the cause of
    /// the failure is kept until that is done.
    Closing(surrealdb::Error),
    /// The attempt is over, and its result has been handed out.
    Finished,
}

/// What the driver reports to the machine.
#[derive(Debug)]
pub enum ConnectEvent<S> {
    /// A session was asked for.
    Requested,
    /// The dial has ended, with an open session or with a failure.
    Dialed(Result<S, surrealdb::Error>),
    /// The sign-in on this session has ended.
    SignedIn(S, Result<(), surrealdb::Error>),
    /// The session that was to be closed is closed.
    Closed,
}

/// What the machine tells the driver to do.
///
/// An action cannot be formatted for debugging: `SignIn` carries the
/// password, which is never to be logged.
pub enum ConnectAction<S> {
    /// Open a transport-level session to this URI, and report `Dialed`.
    Dial(String),
    /// Sign in on this session as a root-level user with these credentials,
    /// and report `SignedIn` with the same session.
    SignIn { session: S, username: &'static str, password: &'static str },
    /// Close this session, and report `Closed`.
    Close(S),
    /// Return this to the caller: the session behind a shared handle, or
    /// the error.
    Finish(Result<Arc<S>, ConnectError>),
    /// The event did not answer what the machine had asked for. It is
    /// handed back as it came, and the machine has not moved.
    Refuse(ConnectEvent<S>),
}

/// A [`ConnectAction`] as plain values: strings as their characters, and a
/// shared handle as the session behind it.
pub enum ConnectActionView<S> {
    /// Open a session to the URI that these characters spell.
    Dial(Seq<char>),
    /// Sign in on this session with these credentials.
    SignIn { session: S, username: Seq<char>, password: Seq<char> },
    /// Close this session.
    Close(S),
    /// Return the session, behind a handle, or the error.
    Finish(Result<S, ConnectError>),
    /// The event is handed back.
    Refuse(ConnectEvent<S>),
}

impl<S> View for ConnectAction<S> {
    type V = ConnectActionView<S>;

    open spec fn view(&self) -> ConnectActionView<S> {
        match *self {
            ConnectAction::Dial(uri) => ConnectActionView::Dial(uri@),
            ConnectAction::SignIn { session, username, password } => ConnectActionView::SignIn {
                session,
                username: username@,
                password: password@,
            },
            ConnectAction::Close(session) => ConnectActionView::Close(session),
            ConnectAction::Finish(Ok(handle)) => ConnectActionView::Finish(Ok(*handle)),
            ConnectAction::Finish(Err(error)) => ConnectActionView::Finish(Err(error)),
            ConnectAction::Refuse(event) => ConnectActionView::Refuse(event),
        }
    }
}

/// The transition function: the next state and the action, for a manager of
/// this endpoint in this state on this event.
pub open spec fn connect_step<S>(endpoint: Endpoint, state: ConnectState, event: ConnectEvent<S>) -> (
    ConnectState,
    ConnectActionView<S>,
) {
    match (state, event) {
        (ConnectState::Unconnected, ConnectEvent::Requested) => (
            ConnectState::Dialing,
            ConnectActionView::Dial(endpoint.uri()),
        ),
        (ConnectState::Dialing, ConnectEvent::Dialed(Ok(session))) => (
            ConnectState::SigningIn,
            ConnectActionView::SignIn {
                session,
                username: endpoint.username,
                password: endpoint.password,
            },
        ),
        (ConnectState::Dialing, ConnectEvent::Dialed(Err(cause))) => (
            ConnectState::Finished,
            ConnectActionView::Finish(Err(ConnectError::Transport(cause))),
        ),
        (ConnectState::SigningIn, ConnectEvent::SignedIn(session, Ok(_))) => (
            ConnectState::Finished,
            ConnectActionView::Finish(Ok(session)),
        ),
        (ConnectState::SigningIn, ConnectEvent::SignedIn(session, Err(cause))) => (
            ConnectState::Closing(cause),
            ConnectActionView::Close(session),
        ),
        (ConnectState::Closing(cause), ConnectEvent::Closed) => (
            ConnectState::Finished,
            ConnectActionView::Finish(Err(ConnectError::Auth(cause))),
        ),
        (state, event) => (state, ConnectActionView::Refuse(event)),
    }
}

/// The session that an event brings to the machine, if it brings one.
pub open spec fn session_in<S>(event: ConnectEvent<S>) -> Option<S> {
    match event {
        ConnectEvent::Dialed(Ok(session)) => Some(session),
        ConnectEvent::SignedIn(session, _) => Some(session),
        _ => None,
    }
}

/// The session that an action hands to the driver or to the caller, if it
/// hands one.
pub open spec fn session_out<S>(action: ConnectActionView<S>) -> Option<S> {
    match action {
        ConnectActionView::SignIn { session, .. } => Some(session),
        ConnectActionView::Close(session) => Some(session),
        ConnectActionView::Finish(Ok(session)) => Some(session),
        ConnectActionView::Refuse(event) => session_in(event),
        _ => None,
    }
}

/// How many more actions a state can ask the driver to carry out.
pub open spec fn remaining(state: ConnectState) -> nat {
    match state {
        ConnectState::Unconnected => 3,
        ConnectState::Dialing => 2,
        ConnectState::SigningIn => 1,
        ConnectState::Closing(_) => 0,
        ConnectState::Finished => 0,
    }
}

/// The event with which a faithful driver answers an action, where the dial
/// ends as `dial` and the sign-in as `sign_in`. An action that ends the run
/// has no answer.
pub open spec fn answer<S>(
    action: ConnectActionView<S>,
    dial: Result<S, surrealdb::Error>,
    sign_in: Result<(), surrealdb::Error>,
) -> Option<ConnectEvent<S>> {
    match action {
        ConnectActionView::Dial(_) => Some(ConnectEvent::Dialed(dial)),
        ConnectActionView::SignIn { session, .. } => Some(ConnectEvent::SignedIn(session, sign_in)),
        ConnectActionView::Close(_) => Some(ConnectEvent::Closed),
        ConnectActionView::Finish(_) => None,
        ConnectActionView::Refuse(_) => None,
    }
}

/// The actions that the machine issues, in order, when it is driven
/// faithfully from `state` on `event` until an action ends the run.
pub open spec fn run<S>(
    endpoint: Endpoint,
    state: ConnectState,
    event: ConnectEvent<S>,
    dial: Result<S, surrealdb::Error>,
    sign_in: Result<(), surrealdb::Error>,
) -> Seq<ConnectActionView<S>>
    decreases remaining(state),
{
    let (next, action) = connect_step(endpoint, state, event);
    match answer(action, dial, sign_in) {
        Some(event) => seq![action] + run(endpoint, next, event, dial, sign_in),
        None => seq![action],
    }
}

/// What one call for a session comes to, given how the dial and the sign-in
/// end: the session, when both succeed; a transport error, when the dial
/// fails; an authentication error, when the sign-in fails.
pub open spec fn connect_result<S>(
    dial: Result<S, surrealdb::Error>,
    sign_in: Result<(), surrealdb::Error>,
) -> Result<S, ConnectError> {
    match dial {
        Err(cause) => Err(ConnectError::Transport(cause)),
        Ok(session) => match sign_in {
            Ok(_) => Ok(session),
            Err(cause) => Err(ConnectError::Auth(cause)),
        },
    }
}

/// What the driver is asked to do before the result is handed out: to dial
/// the endpoint's URI once; if that gave a session, to sign in on it with
/// the endpoint's credentials; and if the sign-in failed, to close it.
pub open spec fn connect_requests<S>(
    endpoint: Endpoint,
    dial: Result<S, surrealdb::Error>,
    sign_in: Result<(), surrealdb::Error>,
) -> Seq<ConnectActionView<S>> {
    let dialing = ConnectActionView::Dial(endpoint.uri());
    match dial {
        Err(_) => seq![dialing],
        Ok(session) => {
            let signing_in = ConnectActionView::SignIn {
                session,
                username: endpoint.username,
                password: endpoint.password,
            };
            match sign_in {
                Ok(_) => seq![dialing, signing_in],
                Err(_) => seq![dialing, signing_in, ConnectActionView::Close(session)],
            }
        },
    }
}

/// No step loses or invents a session: whatever session the event brings,
/// the action hands on, and an action hands on no other.
///
/// So a session that was opened is, at every step, on its way to the
/// sign-in, to being closed, or to the caller; and an action that reports a
/// failure holds none.
pub proof fn law_sessions_are_conserved<S>(endpoint: Endpoint, state: ConnectState, event: ConnectEvent<S>)
    ensures
        session_out(connect_step(endpoint, state, event).1) == session_in(event),
{
}

/// A faithfully driven run from `Unconnected` asks for exactly the requests
/// of `connect_requests`, in that order, and then hands out
/// `connect_result`.
///
/// In particular nothing is dialed twice, a failed dial is followed by no
/// request at all, and an authentication error is handed out only after the
/// session was given up for closing.
pub proof fn law_faithful_run<S>(
    endpoint: Endpoint,
    dial: Result<S, surrealdb::Error>,
    sign_in: Result<(), surrealdb::Error>,
)
    ensures
        run(endpoint, ConnectState::Unconnected, ConnectEvent::Requested, dial, sign_in)
            == connect_requests(endpoint, dial, sign_in).push(
            ConnectActionView::Finish(connect_result(dial, sign_in)),
        ),
{
    reveal_with_fuel(run, 4);
}

/// An endpoint that cannot be reached: the dial is the only request, and
/// its failure is handed out as a transport error. No session was opened,
/// and none is signed in or closed.
pub proof fn law_failed_dial<S>(
    endpoint: Endpoint,
    cause: surrealdb::Error,
    sign_in: Result<(), surrealdb::Error>,
)
    ensures
        run(
            endpoint,
            ConnectState::Unconnected,
            ConnectEvent::Requested,
            Err::<S, surrealdb::Error>(cause),
            sign_in,
        ) == seq![
            ConnectActionView::<S>::Dial(endpoint.uri()),
            ConnectActionView::<S>::Finish(Err(ConnectError::Transport(cause))),
        ],
{
    law_faithful_run(endpoint, Err::<S, surrealdb::Error>(cause), sign_in);
}

/// An endpoint that rejects the credentials: the session that the dial
/// opened is closed, and after that the failure of the sign-in is handed
/// out as an authentication error.
pub proof fn law_failed_sign_in<S>(endpoint: Endpoint, session: S, cause: surrealdb::Error)
    ensures
        run(
            endpoint,
            ConnectState::Unconnected,
            ConnectEvent::Requested,
            Ok::<S, surrealdb::Error>(session),
            Err::<(), surrealdb::Error>(cause),
        ) == seq![
            ConnectActionView::Dial(endpoint.uri()),
            (ConnectActionView::SignIn {
                session,
                username: endpoint.username,
                password: endpoint.password,
            }),
            ConnectActionView::Close(session),
            ConnectActionView::Finish(Err(ConnectError::Auth(cause))),
        ],
{
    law_faithful_run(
        endpoint,
        Ok::<S, surrealdb::Error>(session),
        Err::<(), surrealdb::Error>(cause),
    );
}

impl SurrealDBConnectionManager {
    /// Advances the establishment of a session by one event.
    ///
    /// A run starts in `Unconnected` with `Requested` and is over with the
    /// action `Finish`.
    pub fn connect<S>(&self, state: ConnectState, event: ConnectEvent<S>) -> (next: (
        ConnectState,
        ConnectAction<S>,
    ))
        ensures
            (next.0, next.1@) == connect_step(self@, state, event),
    {
        match (state, event) {
            (ConnectState::Unconnected, ConnectEvent::Requested) => (
                ConnectState::Dialing,
                ConnectAction::Dial(self.connection_uri()),
            ),
            (ConnectState::Dialing, ConnectEvent::Dialed(Ok(session))) => (
                ConnectState::SigningIn,
                ConnectAction::SignIn {
                    session,
                    username: self.username(),
                    password: self.password(),
                },
            ),
            (ConnectState::Dialing, ConnectEvent::Dialed(Err(cause))) => (
                ConnectState::Finished,
                ConnectAction::Finish(Err(ConnectError::Transport(cause))),
            ),
            (ConnectState::SigningIn, ConnectEvent::SignedIn(session, Ok(_))) => (
                ConnectState::Finished,
                ConnectAction::Finish(Ok(Arc::new(session))),
            ),
            (ConnectState::SigningIn, ConnectEvent::SignedIn(session, Err(cause))) => (
                ConnectState::Closing(cause),
                ConnectAction::Close(session),
            ),
            (ConnectState::Closing(cause), ConnectEvent::Closed) => (
                ConnectState::Finished,
                ConnectAction::Finish(Err(ConnectError::Auth(cause))),
            ),
            (state, event) => (state, ConnectAction::Refuse(event)),
        }
    }
}

} // verus!
