//! What holds of every launch, whatever the caller reports.

use vstd::prelude::*;
use crate::config::lemma_production_env_bindings;
use crate::config::lookup;
use crate::config::production_env;
use crate::error::LaunchErrorView;
use crate::launch::ActionView;
use crate::launch::EventView;
use crate::launch::LaunchView;
use crate::launch::PROBE_INTERVAL_SECS;
use crate::launch::SERVER_URL;
use crate::notes::MAX_ATTEMPTS;
use crate::probe::ProbeOutcome;

verus! {

/// The state of a launch that began in `start` after the caller reported
/// `events`, first to last.
pub open spec fn run(start: LaunchView, events: Seq<EventView>) -> LaunchView
    decreases events.len(),
{
    if events.len() == 0 {
        start
    } else {
        run(start, events.drop_last()).next(events.last())
    }
}

/// How many of `events` were taken as the answer to a probe.
pub open spec fn probes_answered(start: LaunchView, events: Seq<EventView>) -> nat
    decreases events.len(),
{
    if events.len() == 0 {
        0
    } else {
        let before = run(start, events.drop_last());
        let taken: nat = if before is Probing && events.last() is Probed {
            1
        } else {
            0
        };
        probes_answered(start, events.drop_last()) + taken
    }
}

/// How many of `events` were taken as the answer to a spawn.
pub open spec fn spawns_answered(start: LaunchView, events: Seq<EventView>) -> nat
    decreases events.len(),
{
    if events.len() == 0 {
        0
    } else {
        let before = run(start, events.drop_last());
        let taken: nat = if before is Spawning && before.expects(events.last()) {
            1
        } else {
            0
        };
        spawns_answered(start, events.drop_last()) + taken
    }
}

/// The reports of a series of probes that came back with `outcomes`.
pub open spec fn probed(outcomes: Seq<ProbeOutcome>) -> Seq<EventView> {
    Seq::new(outcomes.len(), |i: int| EventView::Probed { outcome: outcomes[i] })
}

/// A launch begins in a well-formed state, with no probe answered.
pub proof fn lemma_start_is_well_formed(executable: Option<Seq<char>>)
    ensures
        LaunchView::start(executable).wf(),
        LaunchView::start(executable).attempts() == 0,
        !(LaunchView::start(executable) is Ready),
{
}

/// No event leads out of the well-formed states.
pub proof fn lemma_step_keeps_well_formed(state: LaunchView, event: EventView)
    requires
        state.wf(),
    ensures
        state.next(event).wf(),
{
}

/// No series of events leads out of the well-formed states.
pub proof fn lemma_run_keeps_well_formed(start: LaunchView, events: Seq<EventView>)
    requires
        start.wf(),
    ensures
        run(start, events).wf(),
    decreases events.len(),
{
    if events.len() > 0 {
        lemma_run_keeps_well_formed(start, events.drop_last());
    }
}

/// Reporting one series of events and then another is reporting the two
/// in a row.
pub proof fn lemma_run_concat(start: LaunchView, first: Seq<EventView>, second: Seq<EventView>)
    ensures
        run(start, first + second) == run(run(start, first), second),
    decreases second.len(),
{
    if second.len() == 0 {
        assert(first + second =~= first);
    } else {
        lemma_run_concat(start, first, second.drop_last());
        assert((first + second).drop_last() =~= first + second.drop_last());
        assert((first + second).last() == second.last());
    }
}

/// Reporting a single event is taking one step.
pub proof fn lemma_run_one(state: LaunchView, event: EventView)
    ensures
        run(state, seq![event]) == state.next(event),
{
    let events = seq![event];
    assert(events.drop_last().len() == 0);
    assert(run(state, events.drop_last()) == state);
    assert(events.last() == event);
}

/// A launch that is over stays as it is, whatever is reported to it.
pub proof fn lemma_finished_is_final(state: LaunchView, events: Seq<EventView>)
    requires
        state.finished(),
    ensures
        run(state, events) == state,
    decreases events.len(),
{
    if events.len() > 0 {
        lemma_finished_is_final(state, events.drop_last());
    }
}

/// The probe count of a launch is the number of probe answers it took in.
pub proof fn lemma_attempts_count_answers(start: LaunchView, events: Seq<EventView>)
    requires
        start.wf(),
    ensures
        run(start, events).attempts() == start.attempts() + probes_answered(start, events),
    decreases events.len(),
{
    if events.len() > 0 {
        lemma_attempts_count_answers(start, events.drop_last());
        lemma_run_keeps_well_formed(start, events.drop_last());
    }
}

/// A launch performs at most 30 probes: whatever the caller reports, no
/// more than that many reports are taken as the answer to a probe.
pub proof fn lemma_probe_budget(executable: Option<Seq<char>>, events: Seq<EventView>)
    ensures
        probes_answered(LaunchView::start(executable), events) <= MAX_ATTEMPTS,
        probes_answered(LaunchView::start(executable), events) == run(
            LaunchView::start(executable),
            events,
        ).attempts(),
{
    let start = LaunchView::start(executable);
    lemma_start_is_well_formed(executable);
    lemma_attempts_count_answers(start, events);
    lemma_run_keeps_well_formed(start, events);
}

/// Every probe comes after a wait of at least one second, and goes to the
/// address of the server.
pub proof fn lemma_probe_is_paced(state: LaunchView)
    ensures
        state.pending() matches ActionView::Probe { wait_secs, url } ==> wait_secs
            == PROBE_INTERVAL_SECS && wait_secs >= 1 && url == SERVER_URL@,
{
}

/// The first success-range answer ends the probing at once: the launch is
/// ready, what is left to do is the redirect, and nothing reported later
/// brings another probe.
pub proof fn lemma_success_stops_probing(
    state: LaunchView,
    outcome: ProbeOutcome,
    later: Seq<EventView>,
)
    requires
        state is Probing,
        outcome.ready(),
    ensures
        state.next(EventView::Probed { outcome }) == (LaunchView::Ready {
            attempts: state.attempts() + 1,
            responded: true,
        }),
        run(state.next(EventView::Probed { outcome }), later) == state.next(
            EventView::Probed { outcome },
        ),
        run(state.next(EventView::Probed { outcome }), later).pending() == (ActionView::Redirect {
            url: SERVER_URL@,
        }),
{
    lemma_finished_is_final(state.next(EventView::Probed { outcome }), later);
}

/// After `n` probes without a success-range answer, `n` below the limit,
/// the launch is waiting for probe number `n + 1`.
pub proof fn lemma_unanswered_probes(outcomes: Seq<ProbeOutcome>, n: nat)
    requires
        n <= outcomes.len(),
        n < MAX_ATTEMPTS,
        forall|i: int| 0 <= i < n ==> !outcomes[i].ready(),
    ensures
        run(LaunchView::Probing { attempts: 0 }, probed(outcomes.take(n as int)))
            == (LaunchView::Probing { attempts: n }),
    decreases n,
{
    let events = probed(outcomes.take(n as int));
    if n > 0 {
        lemma_unanswered_probes(outcomes, (n - 1) as nat);
        assert(events.drop_last() =~= probed(outcomes.take(n - 1)));
        assert(events.last() == EventView::Probed { outcome: outcomes[n - 1] });
    }
}

/// If the server first answers in the success range on probe number
/// `k + 1`, the launch is ready after exactly `k + 1` probes, whatever the
/// later probes would have come back with.
pub proof fn lemma_first_answer_ends_probing(outcomes: Seq<ProbeOutcome>, k: nat)
    requires
        k < outcomes.len(),
        k < MAX_ATTEMPTS,
        forall|i: int| 0 <= i < k ==> !outcomes[i].ready(),
        outcomes[k as int].ready(),
    ensures
        run(LaunchView::Probing { attempts: 0 }, probed(outcomes)) == (LaunchView::Ready {
            attempts: k + 1,
            responded: true,
        }),
{
    let start = LaunchView::Probing { attempts: 0 };
    let head = probed(outcomes.take(k as int));
    let answer = seq![EventView::Probed { outcome: outcomes[k as int] }];
    assert(answer[0] == EventView::Probed { outcome: outcomes[k as int] });
    let tail = probed(outcomes.skip(k as int + 1));
    lemma_unanswered_probes(outcomes, k);
    assert(probed(outcomes) =~= head + answer + tail);
    lemma_run_concat(start, head + answer, tail);
    lemma_run_concat(start, head, answer);
    lemma_run_one(run(start, head), answer[0]);
    lemma_finished_is_final(run(start, head + answer), tail);
}

/// If none of the 30 probes gets a success-range answer, the launch is
/// over all the same, and with success: what is left to do is the
/// redirect to the server.
pub proof fn lemma_exhausted_probes_still_succeed(outcomes: Seq<ProbeOutcome>)
    requires
        outcomes.len() >= MAX_ATTEMPTS,
        forall|i: int| 0 <= i < MAX_ATTEMPTS ==> !outcomes[i].ready(),
    ensures
        run(LaunchView::Probing { attempts: 0 }, probed(outcomes)) == (LaunchView::Ready {
            attempts: MAX_ATTEMPTS as nat,
            responded: false,
        }),
        run(LaunchView::Probing { attempts: 0 }, probed(outcomes)).outcome() == Some(
            Ok::<(), LaunchErrorView>(()),
        ),
        run(LaunchView::Probing { attempts: 0 }, probed(outcomes)).pending()
            == (ActionView::Redirect { url: SERVER_URL@ }),
{
    let start = LaunchView::Probing { attempts: 0 };
    let last = (MAX_ATTEMPTS - 1) as nat;
    let head = probed(outcomes.take(last as int));
    let answer = seq![EventView::Probed { outcome: outcomes[last as int] }];
    assert(answer[0] == EventView::Probed { outcome: outcomes[last as int] });
    let tail = probed(outcomes.skip(MAX_ATTEMPTS as int));
    lemma_unanswered_probes(outcomes, last);
    assert(probed(outcomes) =~= head + answer + tail);
    lemma_run_concat(start, head + answer, tail);
    lemma_run_concat(start, head, answer);
    lemma_run_one(run(start, head), answer[0]);
    lemma_finished_is_final(run(start, head + answer), tail);
}

/// The reports of a launch whose entry point is on disk and whose child
/// process was created.
pub open spec fn started() -> Seq<EventView> {
    seq![EventView::EntryPointChecked { exists: true }, EventView::Spawned]
}

/// Once the entry point is found and the child process runs, the launch
/// waits for its first probe, and no sooner.
pub proof fn lemma_started_launch_probes(path: Seq<char>)
    ensures
        run(LaunchView::Checking { path }, started()) == (LaunchView::Probing { attempts: 0 }),
        run(LaunchView::Checking { path }, started().take(1)) == (LaunchView::Spawning { path }),
{
    let start = LaunchView::Checking { path };
    let first = seq![EventView::EntryPointChecked { exists: true }];
    let second = seq![EventView::Spawned];
    assert(started() =~= first + second);
    assert(started().take(1) =~= first);
    lemma_run_one(start, first[0]);
    lemma_run_one(run(start, first), second[0]);
    lemma_run_concat(start, first, second);
}

/// A launch whose server never answers in the success range still ends
/// with success after its 30 probes, with the redirect left to do.
pub proof fn lemma_launch_succeeds_without_answer(path: Seq<char>, outcomes: Seq<ProbeOutcome>)
    requires
        outcomes.len() >= MAX_ATTEMPTS,
        forall|i: int| 0 <= i < MAX_ATTEMPTS ==> !outcomes[i].ready(),
    ensures
        run(LaunchView::Checking { path }, started() + probed(outcomes)) == (LaunchView::Ready {
            attempts: MAX_ATTEMPTS as nat,
            responded: false,
        }),
        run(LaunchView::Checking { path }, started() + probed(outcomes)).outcome() == Some(
            Ok::<(), LaunchErrorView>(()),
        ),
        run(LaunchView::Checking { path }, started() + probed(outcomes)).pending()
            == (ActionView::Redirect { url: SERVER_URL@ }),
{
    lemma_started_launch_probes(path);
    lemma_exhausted_probes_still_succeed(outcomes);
    lemma_run_concat(LaunchView::Checking { path }, started(), probed(outcomes));
}

/// If the entry point is reported missing, the launch fails with
/// `ServerNotFound` and the path that was looked for, and at no point,
/// before or after, is the caller told to spawn a process.
pub proof fn lemma_missing_entry_point_never_spawns(path: Seq<char>, events: Seq<EventView>)
    requires
        events.len() >= 1,
        events[0] == (EventView::EntryPointChecked { exists: false }),
    ensures
        run(LaunchView::Checking { path }, events) == (LaunchView::Failed {
            error: LaunchErrorView::ServerNotFound { path },
        }),
        run(LaunchView::Checking { path }, events).outcome() == Some(
            Err::<(), LaunchErrorView>(LaunchErrorView::ServerNotFound { path }),
        ),
        forall|n: int|
            0 <= n <= events.len() ==> !(#[trigger] run(
                LaunchView::Checking { path },
                events.take(n),
            ).pending() is Spawn),
        spawns_answered(LaunchView::Checking { path }, events) == 0,
    decreases events.len(),
{
    let start = LaunchView::Checking { path };
    let failed = LaunchView::Failed { error: LaunchErrorView::ServerNotFound { path } };
    assert(events.take(0).len() == 0);
    assert(run(start, events.take(0)) == start);
    assert(events.take(events.len() as int) =~= events);
    if events.len() == 1 {
        assert(events =~= seq![events[0]]);
        lemma_run_one(start, events[0]);
        assert(events.drop_last().len() == 0);
        assert(spawns_answered(start, events.drop_last()) == 0);
        assert(run(start, events.drop_last()) == start);
    } else {
        let shorter = events.drop_last();
        lemma_missing_entry_point_never_spawns(path, shorter);
        assert(run(start, shorter) == failed);
        assert forall|n: int| 0 <= n <= events.len() implies !(#[trigger] run(
            start,
            events.take(n),
        ).pending() is Spawn) by {
            if n < events.len() {
                assert(events.take(n) =~= shorter.take(n));
            }
        }
    }
}

/// A launch creates at most one child process: whatever the caller
/// reports, at most one report is taken as the answer to a spawn.
pub proof fn lemma_spawns_at_most_once(executable: Option<Seq<char>>, events: Seq<EventView>)
    ensures
        spawns_answered(LaunchView::start(executable), events) <= 1,
        run(LaunchView::start(executable), events) is Checking || run(
            LaunchView::start(executable),
            events,
        ) is Spawning ==> spawns_answered(LaunchView::start(executable), events) == 0,
    decreases events.len(),
{
    if events.len() > 0 {
        lemma_spawns_at_most_once(executable, events.drop_last());
    }
}

/// Whenever the caller is told to spawn the server, and whatever happened
/// before, the environment it is given is the production environment, in
/// which `PORT` is `3000` and `NODE_ENV` is `production`.
pub proof fn lemma_spawn_environment(state: LaunchView)
    ensures
        state.pending() matches ActionView::Spawn { env, .. } ==> env == production_env()
            && lookup(env, "PORT"@) == Some("3000"@) && lookup(env, "NODE_ENV"@) == Some(
            "production"@,
        ),
{
    lemma_production_env_bindings();
}

} // verus!
