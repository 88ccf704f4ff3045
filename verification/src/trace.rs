//! Whole runs of a session, and what holds of every run.
//!
//! A run is the sequence of events that a caller reports to a session that
//! has not begun, in order. The session answers each event with one command,
//! so the commands of a run say what was asked of the controller and how
//! often. The laws at the end of this file hold for every sequence of events,
//! also for one that no caller who keeps to the protocol would report.

use vstd::prelude::*;
use crate::outcome::{ActionOutcome, SessionError};
use crate::session::{Command, Event, MastershipSession};

verus! {

/// The session that `events` lead to.
pub open spec fn state_after<T>(events: Seq<Event<T>>) -> MastershipSession<T>
    decreases events.len(),
{
    if events.len() == 0 {
        MastershipSession::Idle
    } else {
        state_after(events.drop_last()).step_spec(events.last()).0
    }
}

/// The commands that answer `events`, one for each event and in the same
/// order.
pub open spec fn commands<T>(events: Seq<Event<T>>) -> Seq<Command<T>>
    decreases events.len(),
{
    if events.len() == 0 {
        Seq::empty()
    } else {
        commands(events.drop_last()).push(
            state_after(events.drop_last()).step_spec(events.last()).1,
        )
    }
}

/// How often `wanted` stands in `issued`.
pub open spec fn times<T>(issued: Seq<Command<T>>, wanted: Command<T>) -> nat
    decreases issued.len(),
{
    if issued.len() == 0 {
        0
    } else if issued.last() == wanted {
        times(issued.drop_last(), wanted) + 1
    } else {
        times(issued.drop_last(), wanted)
    }
}

/// How often the lease was requested, the action run and the lease released,
/// in this order.
pub open spec fn tally<T>(issued: Seq<Command<T>>) -> (nat, nat, nat) {
    (
        times(issued, Command::Acquire),
        times(issued, Command::RunAction),
        times(issued, Command::Release),
    )
}

/// The event at position `at` answers the request for the lease, and refuses
/// it for `reason`.
pub open spec fn lease_refused_at<T>(events: Seq<Event<T>>, at: int, reason: String) -> bool {
    &&& 0 <= at < events.len()
    &&& state_after(events.take(at)) is Acquiring
    &&& events[at] == Event::<T>::Acquired(Err(reason))
}

/// The event at position `at` answers the request for the lease, and grants
/// it.
pub open spec fn lease_granted_at<T>(events: Seq<Event<T>>, at: int) -> bool {
    &&& 0 <= at < events.len()
    &&& state_after(events.take(at)) is Acquiring
    &&& events[at] == Event::<T>::Acquired(Ok(()))
}

/// The event at position `at` reports that the guarded action, which was
/// running, has returned `result`.
pub open spec fn action_returned_at<T>(
    events: Seq<Event<T>>,
    at: int,
    result: Result<T, String>,
) -> bool {
    &&& 0 <= at < events.len()
    &&& state_after(events.take(at)) is Holding
    &&& events[at] == Event::ActionDone(result)
}

/// The event at position `at` answers the request to release the lease, with
/// `result`.
pub open spec fn release_answered_at<T>(
    events: Seq<Event<T>>,
    at: int,
    result: Result<(), String>,
) -> bool {
    &&& 0 <= at < events.len()
    &&& state_after(events.take(at)) is Releasing
    &&& events[at] == Event::<T>::Released(result)
}

/// `event` reports how `command` went.
pub open spec fn answers<T>(command: Command<T>, event: Event<T>) -> bool {
    match command {
        Command::Acquire => event is Acquired,
        Command::RunAction => event is ActionDone,
        Command::Release => event is Released,
        Command::Finish(_) => false,
        Command::Reject => false,
    }
}

/// The run of a caller that keeps to the protocol: it begins with
/// [`Event::Start`], then reports how each command went, and reports nothing
/// after the session has finished.
pub open spec fn in_turn<T>(events: Seq<Event<T>>) -> bool {
    &&& events.len() > 0 ==> events[0] is Start
    &&& forall|i: int|
        0 <= i < events.len() - 1 ==> answers(#[trigger] commands(events)[i], events[i + 1])
}

/// Runs a session from the beginning over recorded events, and gives the
/// session that they lead to and the commands that answered them.
pub fn replay<T>(events: Vec<Event<T>>) -> (run: (MastershipSession<T>, Vec<Command<T>>))
    ensures
        run.0 == state_after(events@),
        run.1@ == commands(events@),
{
    let ghost all = events@;
    let mut session: MastershipSession<T> = MastershipSession::new();
    let mut issued: Vec<Command<T>> = Vec::new();
    for event in iter: events
        invariant
            iter.seq() == all,
            session == state_after(all.take(iter.index())),
            issued@ == commands(all.take(iter.index())),
    {
        proof {
            lemma_one_more_event(all, iter.index() + 1);
        }
        let (next, command) = session.step(event);
        session = next;
        issued.push(command);
    }
    assert(all.take(all.len() as int) =~= all);
    (session, issued)
}

/// The session and the commands after `n` events, from those after `n - 1`.
proof fn lemma_one_more_event<T>(events: Seq<Event<T>>, n: int)
    requires
        0 < n <= events.len(),
    ensures
        state_after(events.take(n)) == state_after(events.take(n - 1)).step_spec(
            events[n - 1],
        ).0,
        commands(events.take(n)) == commands(events.take(n - 1)).push(
            state_after(events.take(n - 1)).step_spec(events[n - 1]).1,
        ),
{
    assert(events.take(n).drop_last() =~= events.take(n - 1));
}

proof fn lemma_commands_len<T>(events: Seq<Event<T>>)
    ensures
        commands(events).len() == events.len(),
    decreases events.len(),
{
    if events.len() > 0 {
        lemma_commands_len(events.drop_last());
    }
}

/// Every event is answered by one command: the one that the step function
/// gives for the session that the earlier events lead to.
pub proof fn lemma_command_at<T>(events: Seq<Event<T>>, at: int)
    requires
        0 <= at < events.len(),
    ensures
        commands(events).len() == events.len(),
        commands(events)[at] == state_after(events.take(at)).step_spec(events[at]).1,
    decreases events.len(),
{
    let before = events.drop_last();
    lemma_commands_len(before);
    if at < before.len() {
        lemma_command_at(before, at);
        assert(before.take(at) =~= events.take(at));
    }
}

proof fn lemma_times_push<T>(issued: Seq<Command<T>>, command: Command<T>, wanted: Command<T>)
    ensures
        times(issued.push(command), wanted) == if command == wanted {
            times(issued, wanted) + 1
        } else {
            times(issued, wanted)
        },
{
    assert(issued.push(command).drop_last() =~= issued);
}

proof fn lemma_tally_push<T>(issued: Seq<Command<T>>, command: Command<T>)
    ensures
        tally(issued.push(command)) == match command {
            Command::Acquire => (tally(issued).0 + 1, tally(issued).1, tally(issued).2),
            Command::RunAction => (tally(issued).0, tally(issued).1 + 1, tally(issued).2),
            Command::Release => (tally(issued).0, tally(issued).1, tally(issued).2 + 1),
            _ => tally(issued),
        },
{
    lemma_times_push(issued, command, Command::Acquire);
    lemma_times_push(issued, command, Command::RunAction);
    lemma_times_push(issued, command, Command::Release);
}

/// What the counts of a run are in each step of a session.
spec fn counts_in_step<T>(session: MastershipSession<T>, counts: (nat, nat, nat)) -> bool {
    match session {
        MastershipSession::Idle => counts == (0nat, 0nat, 0nat),
        MastershipSession::Acquiring => counts == (1nat, 0nat, 0nat),
        MastershipSession::Holding => counts == (1nat, 1nat, 0nat),
        MastershipSession::Releasing(_) => counts == (1nat, 1nat, 1nat),
        MastershipSession::Closed => counts == (1nat, 0nat, 0nat) || counts == (1nat, 1nat, 1nat),
    }
}

proof fn lemma_counts_in_step<T>(events: Seq<Event<T>>)
    ensures
        counts_in_step(state_after(events), tally(commands(events))),
    decreases events.len(),
{
    if events.len() > 0 {
        let before = events.drop_last();
        lemma_counts_in_step(before);
        lemma_tally_push(commands(before), state_after(before).step_spec(events.last()).1);
    }
}

/// The counts of a run never fall when more events are reported.
proof fn lemma_tally_grows<T>(events: Seq<Event<T>>, k: int, n: int)
    requires
        0 <= k <= n <= events.len(),
    ensures
        tally(commands(events.take(k))).0 <= tally(commands(events.take(n))).0,
        tally(commands(events.take(k))).1 <= tally(commands(events.take(n))).1,
        tally(commands(events.take(k))).2 <= tally(commands(events.take(n))).2,
    decreases n - k,
{
    if k < n {
        lemma_tally_grows(events, k, n - 1);
        lemma_one_more_event(events, n);
        lemma_tally_push(
            commands(events.take(n - 1)),
            state_after(events.take(n - 1)).step_spec(events[n - 1]).1,
        );
    }
}

/// A closed session stays closed, and asks for nothing more.
proof fn lemma_closed_stays<T>(events: Seq<Event<T>>, k: int, n: int)
    requires
        0 <= k <= n <= events.len(),
        state_after(events.take(k)) is Closed,
    ensures
        state_after(events.take(n)) is Closed,
        tally(commands(events.take(n))) == tally(commands(events.take(k))),
    decreases n - k,
{
    if k < n {
        lemma_closed_stays(events, k, n - 1);
        lemma_one_more_event(events, n);
        lemma_tally_push(
            commands(events.take(n - 1)),
            state_after(events.take(n - 1)).step_spec(events[n - 1]).1,
        );
    }
}

/// Once the session keeps the action's result for the end, it keeps that
/// result until it closes.
proof fn lemma_result_kept<T>(events: Seq<Event<T>>, k: int, n: int, result: Result<T, String>)
    requires
        0 <= k <= n <= events.len(),
        state_after(events.take(k)) == MastershipSession::Releasing(result),
    ensures
        state_after(events.take(n)) == MastershipSession::Releasing(result) || state_after(
            events.take(n),
        ) is Closed,
    decreases n - k,
{
    if k < n {
        lemma_result_kept(events, k, n - 1, result);
        lemma_one_more_event(events, n);
    }
}

/// The session is where `command` has left it.
spec fn left_by<T>(session: MastershipSession<T>, command: Command<T>) -> bool {
    match command {
        Command::Acquire => session is Acquiring,
        Command::RunAction => session is Holding,
        Command::Release => session is Releasing,
        Command::Finish(_) => session is Closed,
        Command::Reject => false,
    }
}

/// After `n` events of a caller that keeps to the protocol, the session is
/// where the last command has left it. The last two clauses say where that
/// session and that command come from.
proof fn lemma_in_turn_prefix<T>(events: Seq<Event<T>>, n: int)
    requires
        in_turn(events),
        0 < n <= events.len(),
    ensures
        left_by(state_after(events.take(n)), commands(events)[n - 1]),
        state_after(events.take(n)) == state_after(events.take(n - 1)).step_spec(
            events[n - 1],
        ).0,
        commands(events)[n - 1] == state_after(events.take(n - 1)).step_spec(events[n - 1]).1,
    decreases n,
{
    lemma_command_at(events, n - 1);
    lemma_one_more_event(events, n);
    if n > 1 {
        lemma_in_turn_prefix(events, n - 1);
    }
}

/// In every run the lease is requested at most once, the action is run at most
/// once and the lease is released at most once. The action is run only if the
/// lease was requested, and the lease is released only if the action was run.
pub proof fn law_each_request_at_most_once<T>(events: Seq<Event<T>>)
    ensures
        ({
            let (requested, run, released) = tally(commands(events));
            released <= run <= requested <= 1
        }),
{
    lemma_counts_in_step(events);
}

/// If the lease is refused, the session finishes at once with the reason of the
/// refusal; the action is never run and the lease is never released, whatever
/// is reported afterwards.
pub proof fn law_refused_lease_runs_nothing<T>(events: Seq<Event<T>>, at: int, reason: String)
    requires
        lease_refused_at(events, at, reason),
    ensures
        commands(events)[at] == Command::<T>::Finish(ActionOutcome::NotRun { reason }),
        times(commands(events), Command::RunAction) == 0,
        times(commands(events), Command::Release) == 0,
{
    lemma_command_at(events, at);
    lemma_counts_in_step(events.take(at));
    lemma_one_more_event(events, at + 1);
    lemma_tally_push(
        commands(events.take(at)),
        state_after(events.take(at)).step_spec(events[at]).1,
    );
    lemma_closed_stays(events, at + 1, events.len() as int);
    assert(events.take(events.len() as int) =~= events);
}

/// If the lease is granted, then as soon as the action has returned, with a
/// value or with a failure, the release is requested, and it is requested
/// exactly once in the whole run.
pub proof fn law_granted_lease_released_once<T>(
    events: Seq<Event<T>>,
    at: int,
    done: int,
    result: Result<T, String>,
)
    requires
        lease_granted_at(events, at),
        action_returned_at(events, done, result),
    ensures
        at < done,
        commands(events)[at] == Command::<T>::RunAction,
        commands(events)[done] == Command::<T>::Release,
        tally(commands(events)) == (1nat, 1nat, 1nat),
{
    lemma_command_at(events, at);
    lemma_command_at(events, done);
    lemma_counts_in_step(events.take(done));
    lemma_one_more_event(events, done + 1);
    lemma_tally_grows(events, done + 1, events.len() as int);
    assert(events.take(events.len() as int) =~= events);
    lemma_counts_in_step(events);
    if done <= at {
        // The action has been run when it returns, and is still to be run when
        // the lease is granted: the counts cannot fall in between.
        lemma_counts_in_step(events.take(at));
        lemma_tally_grows(events, done, at);
    }
}

/// A session that was granted the lease and has closed requested the lease
/// once, ran the action once and released the lease once.
pub proof fn law_closed_session_released<T>(events: Seq<Event<T>>, at: int)
    requires
        lease_granted_at(events, at),
        state_after(events) is Closed,
    ensures
        tally(commands(events)) == (1nat, 1nat, 1nat),
{
    lemma_one_more_event(events, at + 1);
    lemma_counts_in_step(events.take(at + 1));
    lemma_tally_grows(events, at + 1, events.len() as int);
    assert(events.take(events.len() as int) =~= events);
    lemma_counts_in_step(events);
}

/// The outcome carries the action's result as the action returned it, whether
/// the release that followed succeeded or failed.
pub proof fn law_outcome_keeps_action_result<T>(
    events: Seq<Event<T>>,
    done: int,
    end: int,
    result: Result<T, String>,
    release: Result<(), String>,
)
    requires
        action_returned_at(events, done, result),
        release_answered_at(events, end, release),
    ensures
        done < end,
        commands(events)[end] == Command::Finish(ActionOutcome::Ran { action: result, release }),
{
    lemma_command_at(events, end);
    lemma_one_more_event(events, done + 1);
    if end <= done {
        // The release has been requested when it is answered, and is still to
        // be requested when the action returns.
        lemma_counts_in_step(events.take(end));
        lemma_counts_in_step(events.take(done));
        lemma_tally_grows(events, end, done);
    }
    lemma_result_kept(events, done + 1, end, result);
}

/// A failed release is always part of the outcome, also when the action
/// succeeded: the session then does not count as a success, its exit code is
/// not 0, and the failure of the release is the last of its failures.
pub proof fn law_release_failure_reported<T>(events: Seq<Event<T>>, end: int, reason: String)
    requires
        release_answered_at(events, end, Err(reason)),
    ensures
        commands(events)[end] matches Command::Finish(outcome) && {
            &&& outcome matches ActionOutcome::Ran { release, .. } && release == Err::<(), String>(
                reason,
            )
            &&& !outcome.succeeded()
            &&& outcome.exit_code_spec() == 1
            &&& outcome.failures_spec().len() > 0
            &&& outcome.failures_spec().last() == SessionError::ReleaseFailed(reason)
        },
{
    lemma_command_at(events, end);
}

/// A caller that keeps to the protocol is never rejected, and its run is over
/// after four events at most.
pub proof fn law_caller_in_turn_never_rejected<T>(events: Seq<Event<T>>)
    requires
        in_turn(events),
    ensures
        events.len() <= 4,
        forall|i: int| 0 <= i < events.len() ==> !(#[trigger] commands(events)[i] is Reject),
{
    assert forall|i: int| 0 <= i < events.len() implies !(#[trigger] commands(events)[i]
        is Reject) by {
        lemma_in_turn_prefix(events, i + 1);
    }
    if events.len() > 4 {
        // The fourth command of such a run finishes the session, and no event
        // answers that.
        lemma_in_turn_prefix(events, 1);
        lemma_in_turn_prefix(events, 2);
        lemma_in_turn_prefix(events, 3);
        lemma_in_turn_prefix(events, 4);
    }
}

} // verus!
