use std::sync::Arc;

use mobc_surrealdb::connect::{ConnectAction, ConnectEvent, ConnectState};
use mobc_surrealdb::error::ConnectError;
use mobc_surrealdb::{ConnectionProtocol, SurrealDBConnectionManager};

#[derive(Debug, PartialEq)]
struct FakeSession {
    id: u32,
}

/// What a fake transport was asked to do, in order.
#[derive(Debug, Default, PartialEq)]
struct Calls {
    dialed: Vec<String>,
    signed_in: Vec<(u32, String, String)>,
    closed: Vec<u32>,
}

fn failure(text: &str) -> surrealdb::Error {
    surrealdb::Error::Api(surrealdb::error::Api::Query(text.to_string()))
}

/// Runs the machine to its end against a transport whose dial and sign-in
/// end as given, each of which may be used once.
fn drive(
    manager: &SurrealDBConnectionManager,
    dial: Result<FakeSession, surrealdb::Error>,
    sign_in: Result<(), surrealdb::Error>,
    calls: &mut Calls,
) -> Result<Arc<FakeSession>, ConnectError> {
    let mut dial = Some(dial);
    let mut sign_in = Some(sign_in);
    let mut state = ConnectState::Unconnected;
    let mut event = ConnectEvent::Requested;
    loop {
        let (next, action) = manager.connect(state, event);
        state = next;
        event = match action {
            ConnectAction::Dial(uri) => {
                calls.dialed.push(uri);
                ConnectEvent::Dialed(dial.take().expect("dialed more than once"))
            }
            ConnectAction::SignIn { session, username, password } => {
                calls.signed_in.push((session.id, username.to_string(), password.to_string()));
                ConnectEvent::SignedIn(session, sign_in.take().expect("signed in more than once"))
            }
            ConnectAction::Close(session) => {
                calls.closed.push(session.id);
                ConnectEvent::Closed
            }
            ConnectAction::Finish(result) => {
                assert!(matches!(state, ConnectState::Finished));
                return result;
            }
            ConnectAction::Refuse(event) => panic!("refused {:?}", event),
        };
    }
}

fn manager() -> SurrealDBConnectionManager {
    SurrealDBConnectionManager::new("127.0.0.1:8000", "root", "hunter2")
}

#[test]
fn reachable_endpoint_with_right_credentials_gives_the_session() {
    let mut calls = Calls::default();
    let handle = drive(&manager(), Ok(FakeSession { id: 7 }), Ok(()), &mut calls).unwrap();
    assert_eq!(*handle, FakeSession { id: 7 });
    assert_eq!(Arc::strong_count(&handle), 1);
    assert_eq!(
        calls,
        Calls {
            dialed: vec!["ws://127.0.0.1:8000".to_string()],
            signed_in: vec![(7, "root".to_string(), "hunter2".to_string())],
            closed: vec![],
        }
    );
}

#[test]
fn unreachable_endpoint_is_a_transport_error_and_nothing_is_closed() {
    let mut calls = Calls::default();
    let error = drive(&manager(), Err(failure("connection refused")), Ok(()), &mut calls).unwrap_err();
    match error {
        ConnectError::Transport(cause) => assert_eq!(cause.to_string(), "connection refused"),
        other => panic!("expected a transport error, got {:?}", other),
    }
    assert_eq!(
        calls,
        Calls { dialed: vec!["ws://127.0.0.1:8000".to_string()], signed_in: vec![], closed: vec![] }
    );
}

#[test]
fn wrong_credentials_are_an_auth_error_and_the_session_is_closed() {
    let mut calls = Calls::default();
    let error = drive(
        &manager(),
        Ok(FakeSession { id: 3 }),
        Err(failure("There was a problem with authentication")),
        &mut calls,
    )
    .unwrap_err();
    match error {
        ConnectError::Auth(cause) => {
            assert_eq!(cause.to_string(), "There was a problem with authentication")
        }
        other => panic!("expected an auth error, got {:?}", other),
    }
    assert_eq!(
        calls,
        Calls {
            dialed: vec!["ws://127.0.0.1:8000".to_string()],
            signed_in: vec![(3, "root".to_string(), "hunter2".to_string())],
            closed: vec![3],
        }
    );
}

#[test]
fn auth_error_is_held_back_until_the_session_is_closed() {
    let manager = manager();
    let (state, _) = manager.connect::<FakeSession>(ConnectState::Unconnected, ConnectEvent::Requested);
    assert!(matches!(state, ConnectState::Dialing));
    let (state, _) = manager.connect(state, ConnectEvent::Dialed(Ok(FakeSession { id: 1 })));
    assert!(matches!(state, ConnectState::SigningIn));
    let (state, action) =
        manager.connect(state, ConnectEvent::SignedIn(FakeSession { id: 1 }, Err(failure("denied"))));
    match &state {
        ConnectState::Closing(cause) => assert_eq!(cause.to_string(), "denied"),
        other => panic!("expected to be closing, got {:?}", other),
    }
    assert!(matches!(action, ConnectAction::Close(FakeSession { id: 1 })));
    let (state, action) = manager.connect::<FakeSession>(state, ConnectEvent::Closed);
    assert!(matches!(state, ConnectState::Finished));
    match action {
        ConnectAction::Finish(Err(ConnectError::Auth(cause))) => assert_eq!(cause.to_string(), "denied"),
        _ => panic!("expected the auth error"),
    }
}

#[test]
fn an_event_out_of_turn_is_handed_back_and_changes_nothing() {
    let manager = manager();

    let (state, action) =
        manager.connect(ConnectState::Unconnected, ConnectEvent::Dialed(Ok(FakeSession { id: 5 })));
    assert!(matches!(state, ConnectState::Unconnected));
    assert!(matches!(action, ConnectAction::Refuse(ConnectEvent::Dialed(Ok(FakeSession { id: 5 })))));

    let (state, action) = manager.connect::<FakeSession>(ConnectState::Dialing, ConnectEvent::Requested);
    assert!(matches!(state, ConnectState::Dialing));
    assert!(matches!(action, ConnectAction::Refuse(ConnectEvent::Requested)));

    let (state, action) = manager.connect::<FakeSession>(ConnectState::SigningIn, ConnectEvent::Closed);
    assert!(matches!(state, ConnectState::SigningIn));
    assert!(matches!(action, ConnectAction::Refuse(ConnectEvent::Closed)));

    let (state, action) = manager.connect(
        ConnectState::Closing(failure("denied")),
        ConnectEvent::SignedIn(FakeSession { id: 6 }, Ok(())),
    );
    assert!(matches!(state, ConnectState::Closing(_)));
    assert!(matches!(
        action,
        ConnectAction::Refuse(ConnectEvent::SignedIn(FakeSession { id: 6 }, Ok(())))
    ));
}

#[test]
fn a_finished_run_accepts_nothing_more() {
    let manager = manager();
    let (state, action) = manager.connect::<FakeSession>(ConnectState::Finished, ConnectEvent::Requested);
    assert!(matches!(state, ConnectState::Finished));
    assert!(matches!(action, ConnectAction::Refuse(ConnectEvent::Requested)));
    let (state, action) =
        manager.connect(ConnectState::Finished, ConnectEvent::Dialed(Ok(FakeSession { id: 2 })));
    assert!(matches!(state, ConnectState::Finished));
    assert!(matches!(action, ConnectAction::Refuse(ConnectEvent::Dialed(Ok(FakeSession { id: 2 })))));
}

#[test]
fn a_failed_attempt_can_be_followed_by_a_fresh_one() {
    let manager = manager();
    let mut calls = Calls::default();
    assert!(drive(&manager, Err(failure("down")), Ok(()), &mut calls).is_err());
    let handle = drive(&manager, Ok(FakeSession { id: 11 }), Ok(()), &mut calls).unwrap();
    assert_eq!(handle.id, 11);
    assert_eq!(calls.dialed.len(), 2);
    assert_eq!(calls.closed, Vec::<u32>::new());
}

#[test]
fn every_scheme_runs_the_same_sequence() {
    for (protocol, uri) in [
        (ConnectionProtocol::Http, "http://h"),
        (ConnectionProtocol::Https, "https://h"),
        (ConnectionProtocol::Ws, "ws://h"),
        (ConnectionProtocol::Wss, "wss://h"),
    ] {
        let manager = SurrealDBConnectionManager::new_with_protocol(protocol, "h", "u", "p");
        let mut calls = Calls::default();
        let handle = drive(&manager, Ok(FakeSession { id: 1 }), Ok(()), &mut calls).unwrap();
        assert_eq!(handle.id, 1);
        assert_eq!(calls.dialed, vec![uri.to_string()]);
        assert_eq!(calls.signed_in, vec![(1, "u".to_string(), "p".to_string())]);
    }
}

#[test]
fn many_attempts_on_one_manager_give_independent_handles() {
    let manager = manager();
    let mut handles = Vec::new();
    for id in 0..16u32 {
        let mut calls = Calls::default();
        handles.push(drive(&manager, Ok(FakeSession { id }), Ok(()), &mut calls).unwrap());
    }
    for (i, a) in handles.iter().enumerate() {
        assert_eq!(a.id, i as u32);
        assert_eq!(Arc::strong_count(a), 1);
        for b in handles.iter().skip(i + 1) {
            assert!(!Arc::ptr_eq(a, b));
        }
    }
}

#[test]
fn concurrent_attempts_give_independent_handles() {
    let manager = Arc::new(manager());
    let runtime = tokio::runtime::Builder::new_multi_thread().worker_threads(4).build().unwrap();
    let handles: Vec<Arc<FakeSession>> = runtime.block_on(async {
        let tasks: Vec<_> = (0..32u32)
            .map(|id| {
                let manager = manager.clone();
                tokio::spawn(async move {
                    let mut calls = Calls::default();
                    let handle = drive(&manager, Ok(FakeSession { id }), Ok(()), &mut calls).unwrap();
                    assert_eq!(calls.dialed, vec!["ws://127.0.0.1:8000".to_string()]);
                    assert_eq!(calls.signed_in, vec![(id, "root".to_string(), "hunter2".to_string())]);
                    assert_eq!(calls.closed, Vec::<u32>::new());
                    handle
                })
            })
            .collect();
        let mut handles = Vec::new();
        for task in tasks {
            handles.push(task.await.unwrap());
        }
        handles
    });
    for (i, a) in handles.iter().enumerate() {
        assert_eq!(a.id, i as u32);
        assert_eq!(Arc::strong_count(a), 1);
        for b in handles.iter().skip(i + 1) {
            assert!(!Arc::ptr_eq(a, b));
        }
    }
}

/// One run in the hands of a scheduler: its state, and the event that its
/// transport reports next.
struct Attempt {
    state: ConnectState,
    event: Option<ConnectEvent<FakeSession>>,
    result: Option<Result<Arc<FakeSession>, ConnectError>>,
    calls: Calls,
}

/// Takes one step of attempt `id` against a transport that is up and gives
/// that attempt the session of the same number.
fn step(manager: &SurrealDBConnectionManager, id: u32, attempt: &mut Attempt) {
    let Some(event) = attempt.event.take() else { return };
    let state = std::mem::replace(&mut attempt.state, ConnectState::Finished);
    let (next, action) = manager.connect(state, event);
    attempt.state = next;
    attempt.event = match action {
        ConnectAction::Dial(uri) => {
            attempt.calls.dialed.push(uri);
            Some(ConnectEvent::Dialed(Ok(FakeSession { id })))
        }
        ConnectAction::SignIn { session, username, password } => {
            attempt.calls.signed_in.push((session.id, username.to_string(), password.to_string()));
            Some(ConnectEvent::SignedIn(session, Ok(())))
        }
        ConnectAction::Close(session) => {
            attempt.calls.closed.push(session.id);
            Some(ConnectEvent::Closed)
        }
        ConnectAction::Finish(result) => {
            attempt.result = Some(result);
            None
        }
        ConnectAction::Refuse(event) => panic!("refused {:?}", event),
    };
}

fn run_interleaved(schedule: &[u32], count: u32) -> Vec<Attempt> {
    let manager = manager();
    let mut attempts: Vec<Attempt> = (0..count)
        .map(|_| Attempt {
            state: ConnectState::Unconnected,
            event: Some(ConnectEvent::Requested),
            result: None,
            calls: Calls::default(),
        })
        .collect();
    for &id in schedule {
        step(&manager, id, &mut attempts[id as usize]);
    }
    attempts
}

fn assert_each_got_its_own(attempts: Vec<Attempt>) {
    let mut handles = Vec::new();
    for (id, attempt) in attempts.into_iter().enumerate() {
        let id = id as u32;
        assert_eq!(
            attempt.calls,
            Calls {
                dialed: vec!["ws://127.0.0.1:8000".to_string()],
                signed_in: vec![(id, "root".to_string(), "hunter2".to_string())],
                closed: vec![],
            }
        );
        let handle = attempt.result.expect("the attempt is over").unwrap();
        assert_eq!(handle.id, id);
        handles.push(handle);
    }
    for (i, a) in handles.iter().enumerate() {
        for b in handles.iter().skip(i + 1) {
            assert!(!Arc::ptr_eq(a, b));
        }
    }
}

#[test]
fn attempts_interleaved_step_by_step_each_get_their_own_session() {
    // Round robin: every attempt takes its first step, then every attempt
    // its second, and so on.
    let round_robin: Vec<u32> = (0..3).flat_map(|_| 0..5u32).collect();
    assert_each_got_its_own(run_interleaved(&round_robin, 5));
}

#[test]
fn attempts_interleaved_in_an_uneven_order_each_get_their_own_session() {
    let schedule = [4, 0, 0, 3, 4, 1, 2, 2, 0, 3, 1, 4, 2, 3, 1, 1, 0, 4];
    assert_each_got_its_own(run_interleaved(&schedule, 5));
}

#[test]
fn an_attempt_that_has_not_had_its_turns_is_not_over() {
    let attempts = run_interleaved(&[0, 1, 0, 1, 0], 2);
    assert!(matches!(attempts[0].result, Some(Ok(_))));
    assert!(attempts[1].result.is_none());
    assert!(matches!(attempts[1].state, ConnectState::SigningIn));
}
