//! Whole runs of the start-up machine, and what holds of every run.
//!
//! A run is the sequence of events reported since launch. [`phase_after`] and
//! [`action_at`] say where the machine stands after a run and what it asked
//! for at each event; the proof functions below state the guarantees that do
//! not depend on which run it is.

use crate::bootstrap::{step, transition, Action, Event, Fatal, Phase};
use vstd::prelude::*;

verus! {

/// The phase reached once all of `events` have been answered.
pub open spec fn phase_after(events: Seq<Event>) -> Phase
    decreases events.len(),
{
    if events.len() == 0 {
        Phase::LoadingConfig
    } else {
        transition(phase_after(events.drop_last()), events.last()).0
    }
}

/// The action given in answer to the event at position `i`.
pub open spec fn action_at(events: Seq<Event>, i: int) -> Action
    recommends
        0 <= i < events.len(),
{
    transition(phase_after(events.take(i)), events[i]).1
}

/// The actions given in answer to `events`, one per event.
pub open spec fn actions_of(events: Seq<Event>) -> Seq<Action> {
    Seq::new(events.len(), |i: int| action_at(events, i))
}

/// Feeds a recorded run to the machine and returns the phase it ends in
/// together with every answer it gave.
pub fn replay(events: &[Event]) -> (out: (Phase, Vec<Action>))
    ensures
        out.0 == phase_after(events@),
        out.1@ == actions_of(events@),
{
    let mut phase = Phase::LoadingConfig;
    let mut actions: Vec<Action> = Vec::new();
    let mut i: usize = 0;
    while i < events.len()
        invariant
            0 <= i <= events.len(),
            phase == phase_after(events@.take(i as int)),
            actions@ == actions_of(events@).take(i as int),
        decreases events.len() - i,
    {
        let (next, action) = step(phase, events[i]);
        proof {
            lemma_prefix_step(events@, i as int);
        }
        phase = next;
        actions.push(action);
        i = i + 1;
    }
    proof {
        assert(events@.take(i as int) == events@);
        assert(actions_of(events@).take(i as int) == actions_of(events@));
    }
    (phase, actions)
}

/// Answering one more event moves the machine by one transition.
proof fn lemma_prefix_step(events: Seq<Event>, n: int)
    requires
        0 <= n < events.len(),
    ensures
        phase_after(events.take(n + 1)) == transition(
            phase_after(events.take(n)),
            events[n],
        ).0,
{
    let longer = events.take(n + 1);
    assert(longer.drop_last() == events.take(n));
    assert(longer.last() == events[n]);
}

/// How far a phase lies from launch. No transition leads back.
spec fn rank(phase: Phase) -> nat {
    match phase {
        Phase::LoadingConfig => 0,
        Phase::ReadingToken => 1,
        Phase::FetchingInfo => 2,
        Phase::BuildingClient => 3,
        Phase::Running => 4,
        Phase::Draining => 5,
        Phase::Finished => 6,
        Phase::Aborted(_) => 6,
    }
}

proof fn lemma_rank_monotone(events: Seq<Event>, i: int, j: int)
    requires
        0 <= i <= j <= events.len(),
    ensures
        rank(phase_after(events.take(i))) <= rank(phase_after(events.take(j))),
    decreases j - i,
{
    if i < j {
        lemma_rank_monotone(events, i, j - 1);
        lemma_prefix_step(events, j - 1);
    }
}

/// A finished or aborted machine stays as it is and asks for nothing more.
pub proof fn terminal_is_absorbing(phase: Phase, event: Event)
    requires
        phase.terminal(),
    ensures
        transition(phase, event) == (phase, Action::Nothing),
{
}

proof fn lemma_terminal_persists(events: Seq<Event>, k: int, j: int)
    requires
        0 <= k <= j <= events.len(),
        phase_after(events.take(k)).terminal(),
    ensures
        phase_after(events.take(j)) == phase_after(events.take(k)),
    decreases j - k,
{
    if k < j {
        lemma_terminal_persists(events, k, j - 1);
        lemma_prefix_step(events, j - 1);
    }
}

proof fn lemma_draining_persists(events: Seq<Event>, k: int, j: int)
    requires
        0 <= k <= j <= events.len(),
        phase_after(events.take(k)) == Phase::Draining,
    ensures
        phase_after(events.take(j)) == Phase::Draining || phase_after(events.take(j))
            == Phase::Finished,
    decreases j - k,
{
    if k < j {
        lemma_draining_persists(events, k, j - 1);
        lemma_prefix_step(events, j - 1);
    }
}

/// No action that uses the network is asked for before a token was found.
pub proof fn network_needs_token(events: Seq<Event>, i: int)
    requires
        0 <= i < events.len(),
        action_at(events, i).network(),
    ensures
        exists|j: int| 0 <= j <= i && events[j] == Event::TokenFound,
{
    if events[i] == Event::TokenFound {
    } else {
        // The phase before event `i` lies past the token, so an earlier event
        // moved the machine out of `ReadingToken`.
        let k = first_past(events, i, 2);
        lemma_prefix_step(events, k);
        if phase_after(events.take(k + 1)).terminal() {
            lemma_terminal_persists(events, k + 1, i);
        }
        assert(events[k] == Event::TokenFound);
    }
}

/// The client is neither built nor run nor shut down before the application
/// metadata arrived, and it is built for exactly the metadata that arrived.
pub proof fn client_needs_info(events: Seq<Event>, i: int)
    requires
        0 <= i < events.len(),
        action_at(events, i) is BuildClient || action_at(events, i) is Run || action_at(events, i)
            == Action::ShutDownShards,
    ensures
        exists|j: int| 0 <= j <= i && events[j] is InfoFetched,
        action_at(events, i) matches Action::BuildClient(info) ==> events[i] == Event::InfoFetched(
            info,
        ),
{
    if action_at(events, i) is BuildClient {
        assert(events[i] is InfoFetched);
    } else {
        let k = first_past(events, i, 3);
        lemma_prefix_step(events, k);
        if phase_after(events.take(k + 1)).terminal() {
            lemma_terminal_persists(events, k + 1, i);
        }
        assert(events[k] is InfoFetched);
    }
}

/// The position of the event that first took the machine to a phase of rank
/// `r` or more, given that it stands there before event `i`.
proof fn first_past(events: Seq<Event>, i: int, r: nat) -> (k: int)
    requires
        0 <= i <= events.len(),
        0 < r <= rank(phase_after(events.take(i))),
    ensures
        0 <= k < i,
        rank(phase_after(events.take(k))) < r <= rank(phase_after(events.take(k + 1))),
    decreases i,
{
    assert(events.take(0).len() == 0);
    assert(i > 0);
    if rank(phase_after(events.take(i - 1))) < r {
        i - 1
    } else {
        first_past(events, i - 1, r)
    }
}

/// The shards are told to shut down at most once in a run.
pub proof fn shutdown_at_most_once(events: Seq<Event>, i: int, j: int)
    requires
        0 <= i < events.len(),
        0 <= j < events.len(),
        action_at(events, i) == Action::ShutDownShards,
        action_at(events, j) == Action::ShutDownShards,
    ensures
        i == j,
{
    if i < j {
        lemma_prefix_step(events, i);
        lemma_rank_monotone(events, i + 1, j);
    } else if j < i {
        lemma_prefix_step(events, j);
        lemma_rank_monotone(events, j + 1, i);
    }
}

/// A missing token aborts the start-up: the answer is the abort itself, no
/// answer of the whole run uses the network, and the run ends aborted for want
/// of a token whatever is reported afterwards.
pub proof fn missing_token_aborts_before_network(events: Seq<Event>, k: int)
    requires
        0 <= k < events.len(),
        phase_after(events.take(k)) == Phase::ReadingToken,
        events[k] == Event::TokenMissing,
    ensures
        action_at(events, k) == Action::Abort(Fatal::TokenMissing),
        forall|i: int| 0 <= i < events.len() ==> !(#[trigger] action_at(events, i)).network(),
        phase_after(events) == Phase::Aborted(Fatal::TokenMissing),
{
    lemma_prefix_step(events, k);
    assert forall|i: int| 0 <= i < events.len() implies !(#[trigger] action_at(
        events,
        i,
    )).network() by {
        if i < k {
            lemma_prefix_step(events, i);
            lemma_rank_monotone(events, i + 1, k);
        } else if i > k {
            lemma_terminal_persists(events, k + 1, i);
        }
    }
    lemma_terminal_persists(events, k + 1, events.len() as int);
    assert(events.take(events.len() as int) == events);
}

/// A failed metadata fetch aborts the start-up: the answer is the abort
/// itself, no answer of the whole run builds, runs or shuts down a client, and
/// the run ends aborted for want of the metadata whatever is reported
/// afterwards.
pub proof fn failed_info_aborts_before_client(events: Seq<Event>, k: int)
    requires
        0 <= k < events.len(),
        phase_after(events.take(k)) == Phase::FetchingInfo,
        events[k] == Event::InfoFailed,
    ensures
        action_at(events, k) == Action::Abort(Fatal::InfoUnavailable),
        forall|i: int|
            0 <= i < events.len() ==> {
                let action = #[trigger] action_at(events, i);
                !(action is BuildClient) && action != Action::Run && action
                    != Action::ShutDownShards
            },
        phase_after(events) == Phase::Aborted(Fatal::InfoUnavailable),
{
    lemma_prefix_step(events, k);
    assert forall|i: int| 0 <= i < events.len() implies {
        let action = #[trigger] action_at(events, i);
        !(action is BuildClient) && action != Action::Run && action != Action::ShutDownShards
    } by {
        if i < k {
            lemma_prefix_step(events, i);
            lemma_rank_monotone(events, i + 1, k);
        } else if i > k {
            lemma_terminal_persists(events, k + 1, i);
        }
    }
    lemma_terminal_persists(events, k + 1, events.len() as int);
    assert(events.take(events.len() as int) == events);
}

/// An interrupt that reaches a running bot is answered with the one shutdown
/// of the whole run, and from then on the bot is draining or has finished: it
/// never aborts, and it has finished as soon as the event loop returned.
pub proof fn interrupt_shuts_down_once(events: Seq<Event>, k: int)
    requires
        0 <= k < events.len(),
        phase_after(events.take(k)) == Phase::Running,
        events[k] == Event::Interrupted,
    ensures
        action_at(events, k) == Action::ShutDownShards,
        forall|i: int|
            0 <= i < events.len() && i != k ==> #[trigger] action_at(events, i)
                != Action::ShutDownShards,
        phase_after(events) == Phase::Draining || phase_after(events) == Phase::Finished,
        (exists|j: int| k < j < events.len() && events[j] is RunEnded) ==> phase_after(events)
            == Phase::Finished,
{
    lemma_prefix_step(events, k);
    assert forall|i: int| 0 <= i < events.len() && i != k implies #[trigger] action_at(events, i)
        != Action::ShutDownShards by {
        if action_at(events, i) == Action::ShutDownShards {
            shutdown_at_most_once(events, i, k);
        }
    }
    lemma_draining_persists(events, k + 1, events.len() as int);
    assert(events.take(events.len() as int) == events);
    if exists|j: int| k < j < events.len() && events[j] is RunEnded {
        let j = choose|j: int| k < j < events.len() && events[j] is RunEnded;
        lemma_draining_persists(events, k + 1, j);
        lemma_prefix_step(events, j);
        lemma_terminal_persists(events, j + 1, events.len() as int);
    }
}

} // verus!
