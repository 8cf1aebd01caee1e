//! Many calls on one manager at a time.
//!
//! A manager is never changed by a call, and neither operation keeps
//! anything between calls. So however the steps of several calls are
//! interleaved, each call comes to what it would have come to alone. This
//! module states that for any number of runs of the establishment machine
//! under any schedule, and for any number of handles checked in any order.

use vstd::prelude::*;
use crate::client::Reading;
use crate::connect::{
    answer, connect_step, law_faithful_run, remaining, run, ConnectActionView, ConnectEvent,
    ConnectState,
};
use crate::manager::Endpoint;
use crate::validate::{verdict, SENTINEL};

verus! {

/// One run of the establishment machine under way with a faithful driver.
pub struct Progress<S> {
    /// Where the machine stands.
    pub state: ConnectState,
    /// The event that the driver reports next; none once the run is over.
    pub pending: Option<ConnectEvent<S>>,
    /// The actions issued so far, in order.
    pub issued: Seq<ConnectActionView<S>>,
}

/// A run that has been asked for and has not taken a step yet.
pub open spec fn started<S>() -> Progress<S> {
    Progress {
        state: ConnectState::Unconnected,
        pending: Some(ConnectEvent::Requested),
        issued: Seq::empty(),
    }
}

/// So many runs, all asked for and none under way.
pub open spec fn started_together<S>(count: nat) -> Seq<Progress<S>> {
    Seq::new(count, |k: int| started())
}

/// The dials of an endpoint that is up: run `k` is given `sessions[k]`.
pub open spec fn dials_giving<S>(sessions: Seq<S>) -> Seq<Result<S, surrealdb::Error>> {
    Seq::new(sessions.len(), |k: int| Ok(sessions[k]))
}

/// So many sign-ins, all of which succeed.
pub open spec fn sign_ins_accepted(count: nat) -> Seq<Result<(), surrealdb::Error>> {
    Seq::new(count, |k: int| Ok(()))
}

/// The run after its next step, where its dial ends as `dial` and its
/// sign-in as `sign_in`. A run that is over stays as it is.
pub open spec fn advance<S>(
    endpoint: Endpoint,
    progress: Progress<S>,
    dial: Result<S, surrealdb::Error>,
    sign_in: Result<(), surrealdb::Error>,
) -> Progress<S> {
    match progress.pending {
        None => progress,
        Some(event) => {
            let (next, action) = connect_step(endpoint, progress.state, event);
            Progress {
                state: next,
                pending: answer(action, dial, sign_in),
                issued: progress.issued.push(action),
            }
        },
    }
}

/// The run after `steps` steps with nothing else going on.
pub open spec fn alone<S>(
    endpoint: Endpoint,
    progress: Progress<S>,
    dial: Result<S, surrealdb::Error>,
    sign_in: Result<(), surrealdb::Error>,
    steps: nat,
) -> Progress<S>
    decreases steps,
{
    if steps == 0 {
        progress
    } else {
        alone(endpoint, advance(endpoint, progress, dial, sign_in), dial, sign_in, (steps - 1) as nat)
    }
}

/// How many turns a schedule gives to run `i`.
pub open spec fn turns(schedule: Seq<int>, i: int) -> nat
    decreases schedule.len(),
{
    if schedule.len() == 0 {
        0
    } else {
        turns(schedule.drop_first(), i) + if schedule.first() == i {
            1nat
        } else {
            0nat
        }
    }
}

/// The runs after the steps of `schedule`, which names, turn by turn, the
/// run that takes its next step. Run `i` lives in a world where its dial
/// ends as `dials[i]` and its sign-in as `sign_ins[i]`. A turn for a run
/// that does not exist passes.
pub open spec fn interleave<S>(
    endpoint: Endpoint,
    runs: Seq<Progress<S>>,
    dials: Seq<Result<S, surrealdb::Error>>,
    sign_ins: Seq<Result<(), surrealdb::Error>>,
    schedule: Seq<int>,
) -> Seq<Progress<S>>
    decreases schedule.len(),
{
    if schedule.len() == 0 {
        runs
    } else {
        let i = schedule.first();
        let stepped = if 0 <= i < runs.len() {
            runs.update(i, advance(endpoint, runs[i], dials[i], sign_ins[i]))
        } else {
            runs
        };
        interleave(endpoint, stepped, dials, sign_ins, schedule.drop_first())
    }
}

/// The handles of a pool after the checks of `order`, each of which names a
/// handle by its index and says how the reading of its probe ended. A
/// handle that passes stays, as the check returned it; one that fails is
/// gone, and so is not checked again.
pub open spec fn check_in_order<C>(handles: Seq<Option<C>>, order: Seq<(int, Reading)>) -> Seq<
    Option<C>,
>
    decreases order.len(),
{
    if order.len() == 0 {
        handles
    } else {
        let (i, reading) = order.first();
        let checked = if 0 <= i < handles.len() && handles[i] is Some {
            handles.update(
                i,
                match verdict(handles[i]->Some_0, reading) {
                    Ok(handle) => Some(handle),
                    Err(_) => None,
                },
            )
        } else {
            handles
        };
        check_in_order(checked, order.drop_first())
    }
}

proof fn lemma_over_stays_over<S>(
    endpoint: Endpoint,
    progress: Progress<S>,
    dial: Result<S, surrealdb::Error>,
    sign_in: Result<(), surrealdb::Error>,
    steps: nat,
)
    requires
        progress.pending is None,
    ensures
        alone(endpoint, progress, dial, sign_in, steps) == progress,
    decreases steps,
{
    if steps > 0 {
        lemma_over_stays_over(endpoint, progress, dial, sign_in, (steps - 1) as nat);
    }
}

proof fn lemma_alone_run<S>(
    endpoint: Endpoint,
    dial: Result<S, surrealdb::Error>,
    sign_in: Result<(), surrealdb::Error>,
    steps: nat,
)
    ensures
        steps > remaining(ConnectState::Unconnected) ==> alone(
            endpoint,
            started(),
            dial,
            sign_in,
            steps,
        ).pending is None,
        alone(endpoint, started(), dial, sign_in, steps).pending is None ==> alone(
            endpoint,
            started(),
            dial,
            sign_in,
            steps,
        ).issued == run(endpoint, ConnectState::Unconnected, ConnectEvent::Requested, dial, sign_in),
{
    law_faithful_run(endpoint, dial, sign_in);
    reveal_with_fuel(alone, 5);
    let p0 = started::<S>();
    let p1 = advance(endpoint, p0, dial, sign_in);
    let p2 = advance(endpoint, p1, dial, sign_in);
    let p3 = advance(endpoint, p2, dial, sign_in);
    let p4 = advance(endpoint, p3, dial, sign_in);
    if steps >= 4 {
        lemma_over_stays_over(endpoint, p4, dial, sign_in, (steps - 4) as nat);
    }
}

proof fn lemma_interleave<S>(
    endpoint: Endpoint,
    runs: Seq<Progress<S>>,
    dials: Seq<Result<S, surrealdb::Error>>,
    sign_ins: Seq<Result<(), surrealdb::Error>>,
    schedule: Seq<int>,
    i: int,
)
    requires
        0 <= i < runs.len(),
    ensures
        interleave(endpoint, runs, dials, sign_ins, schedule).len() == runs.len(),
        interleave(endpoint, runs, dials, sign_ins, schedule)[i] == alone(
            endpoint,
            runs[i],
            dials[i],
            sign_ins[i],
            turns(schedule, i),
        ),
    decreases schedule.len(),
{
    if schedule.len() > 0 {
        let first = schedule.first();
        let stepped = if 0 <= first < runs.len() {
            runs.update(first, advance(endpoint, runs[first], dials[first], sign_ins[first]))
        } else {
            runs
        };
        lemma_interleave(endpoint, stepped, dials, sign_ins, schedule.drop_first(), i);
    }
}

/// Runs on one manager do not touch each other. Take any number of runs,
/// started together, and any schedule of their steps. A run that has had
/// more turns than a run has requests is over; and a run that is over has
/// issued exactly the actions that it issues when it runs alone: its own
/// requests, on its own session, and then its own result.
pub proof fn law_interleaved_runs_are_independent<S>(
    endpoint: Endpoint,
    dials: Seq<Result<S, surrealdb::Error>>,
    sign_ins: Seq<Result<(), surrealdb::Error>>,
    schedule: Seq<int>,
    i: int,
)
    requires
        sign_ins.len() == dials.len(),
        0 <= i < dials.len(),
    ensures
        interleave(endpoint, started_together(dials.len()), dials, sign_ins, schedule).len()
            == dials.len(),
        turns(schedule, i) > remaining(ConnectState::Unconnected) ==> interleave(
            endpoint,
            started_together(dials.len()),
            dials,
            sign_ins,
            schedule,
        )[i].pending is None,
        interleave(endpoint, started_together(dials.len()), dials, sign_ins, schedule)[i].pending
            is None ==> interleave(
            endpoint,
            started_together(dials.len()),
            dials,
            sign_ins,
            schedule,
        )[i].issued == run(
            endpoint,
            ConnectState::Unconnected,
            ConnectEvent::Requested,
            dials[i],
            sign_ins[i],
        ),
{
    lemma_interleave(endpoint, started_together(dials.len()), dials, sign_ins, schedule, i);
    lemma_alone_run(endpoint, dials[i], sign_ins[i], turns(schedule, i));
}

/// Concurrent calls against an endpoint that is up: where every dial gives
/// a session and every sign-in succeeds, each run that is over, under
/// whatever schedule, has dialed the endpoint once, signed in once, on the
/// session of its own dial, and handed out that very session. So as many
/// dials are made as there are calls, and no call is given the session of
/// another.
pub proof fn law_concurrent_runs_keep_their_sessions<S>(
    endpoint: Endpoint,
    sessions: Seq<S>,
    schedule: Seq<int>,
    i: int,
)
    requires
        0 <= i < sessions.len(),
        interleave(
            endpoint,
            started_together(sessions.len()),
            dials_giving(sessions),
            sign_ins_accepted(sessions.len()),
            schedule,
        )[i].pending is None,
    ensures
        interleave(
            endpoint,
            started_together(sessions.len()),
            dials_giving(sessions),
            sign_ins_accepted(sessions.len()),
            schedule,
        )[i].issued == seq![
            ConnectActionView::Dial(endpoint.uri()),
            (ConnectActionView::SignIn {
                session: sessions[i],
                username: endpoint.username,
                password: endpoint.password,
            }),
            ConnectActionView::Finish(Ok(sessions[i])),
        ],
{
    let dials = dials_giving(sessions);
    let sign_ins = sign_ins_accepted(sessions.len());
    law_interleaved_runs_are_independent(endpoint, dials, sign_ins, schedule, i);
    law_faithful_run(endpoint, dials[i], sign_ins[i]);
}

/// Checks of live handles do not touch each other either. Whatever the
/// order in which the handles of a pool are checked, and however often, as
/// long as every probe reads the sentinel every handle passes every time,
/// and the pool holds the same handles afterwards.
pub proof fn law_checks_in_any_order_change_nothing<C>(
    handles: Seq<Option<C>>,
    order: Seq<(int, Reading)>,
)
    requires
        forall|k: int| 0 <= k < order.len() ==> (#[trigger] order[k]).1 == Reading::Scalar(Some(SENTINEL)),
    ensures
        check_in_order(handles, order) == handles,
    decreases order.len(),
{
    if order.len() > 0 {
        let (i, reading) = order.first();
        if 0 <= i < handles.len() && handles[i] is Some {
            assert(handles.update(i, Some(handles[i]->Some_0)) =~= handles);
        }
        assert forall|k: int| 0 <= k < order.drop_first().len() implies (#[trigger] order.drop_first()[k]).1
            == Reading::Scalar(Some(SENTINEL)) by {
            assert(order.drop_first()[k] == order[k + 1]);
        }
        law_checks_in_any_order_change_nothing(handles, order.drop_first());
    }
}

} // verus!
