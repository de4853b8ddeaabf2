//! What holds of a poller over whole runs of events: what a consumer sees
//! of it, whatever the platform answers.

use crate::poller::{
    discovery, next_step, round_start, runs_request, wait, PollerActionView, PollerEventView,
    PollerView, FETCH_ITERATIONS, ITERATION_WAIT_SECONDS, RETRY_WAIT_SECONDS,
};
use crate::repository::RepositoryView;
use crate::run::WorkflowRunView;
use crate::snapshot::{is_newest_first, lemma_newest_first_is_sorted, newest_first};
use vstd::prelude::*;

verus! {

/// The state that a poller in `state` reaches by a run of events, and the
/// actions that the events draw from it, one for each event in turn. `None`
/// where an event of the run answers nothing that the poller has asked for.
pub open spec fn replay(state: PollerView, events: Seq<PollerEventView>) -> Option<
    (PollerView, Seq<PollerActionView>),
>
    decreases events.len(),
{
    if events.len() == 0 {
        Some((state, Seq::empty()))
    } else {
        match replay(state, events.drop_last()) {
            None => None,
            Some((reached, actions)) => match next_step(reached, events.last()) {
                None => None,
                Some((next, action)) => Some((next, actions.push(action))),
            },
        }
    }
}

/// How many of the actions hand out a snapshot.
pub open spec fn snapshots_in(actions: Seq<PollerActionView>) -> nat {
    actions.filter(|action: PollerActionView| action is Emit).len()
}

/// How many of the actions ask for the repositories.
pub open spec fn discoveries_in(actions: Seq<PollerActionView>) -> nat {
    actions.filter(|action: PollerActionView| action is FetchRepositories).len()
}

/// A step keeps a poller well formed.
pub proof fn lemma_step_keeps_well_formed(state: PollerView, event: PollerEventView)
    requires
        state.well_formed(),
    ensures
        next_step(state, event) matches Some((next, _)) ==> next.well_formed(),
{
}

/// Replaying one event is a step.
pub proof fn lemma_replay_of_one(state: PollerView, event: PollerEventView)
    ensures
        replay(state, seq![event]) == match next_step(state, event) {
            Some((next, action)) => Some((next, seq![action])),
            None => None,
        },
{
    // Before its last event, a run of one event is the empty run.
    assert(replay(state, seq![event].drop_last()) == Some(
        (state, Seq::<PollerActionView>::empty()),
    ));
}

/// Replaying two runs of events, one after the other, is replaying the
/// second from where the first one ends.
pub proof fn lemma_replay_of_two(
    state: PollerView,
    first: Seq<PollerEventView>,
    second: Seq<PollerEventView>,
)
    ensures
        replay(state, first + second) == match replay(state, first) {
            None => None,
            Some((reached, actions)) => match replay(reached, second) {
                None => None,
                Some((last, more)) => Some((last, actions + more)),
            },
        },
    decreases second.len(),
{
    if second.len() == 0 {
        assert(first + second =~= first);
    } else {
        assert((first + second).drop_last() =~= first + second.drop_last());
        lemma_replay_of_two(state, first, second.drop_last());
    }
}

/// Whether `event` reports what came of `action`.
pub open spec fn answers(event: PollerEventView, action: PollerActionView) -> bool {
    match action {
        PollerActionView::FetchRepositories { .. } => event is RepositoriesFetched
            || event is FetchFailed,
        PollerActionView::FetchWorkflowRuns { .. } => event is WorkflowRunsFetched
            || event is FetchFailed,
        PollerActionView::Emit(_) => event is SnapshotTaken,
        PollerActionView::Wait { .. } => event is WaitElapsed,
        PollerActionView::Fail(_) => false,
        PollerActionView::Halt => false,
    }
}

/// A driver that reports what came of the action it was given is never
/// turned away, and neither is one that reports that the consumer is gone.
pub proof fn lemma_answer_is_taken(
    state: PollerView,
    event: PollerEventView,
    answer: PollerEventView,
)
    requires
        next_step(state, event) matches Some((_, action)) && (answers(answer, action)
            || answer is ConsumerGone),
    ensures
        next_step(next_step(state, event).unwrap().0, answer) is Some,
{
}

/// A sequence ends only by a fetch that failed for good or because the
/// consumer is gone: of itself it never ends.
pub proof fn lemma_ends_only_by_failure_or_cancellation(state: PollerView, event: PollerEventView)
    requires
        !state.ended(),
        next_step(state, event) matches Some((next, _)) && next.ended(),
    ensures
        event is FetchFailed || event is ConsumerGone,
{
}

/// Sort invariant, of every snapshot that a poller hands out: no run stands
/// before one that was created later.
pub proof fn lemma_snapshots_are_newest_first(state: PollerView, event: PollerEventView)
    ensures
        next_step(state, event) matches Some((_, PollerActionView::Emit(runs)))
            ==> is_newest_first(runs),
{
    match (state, event) {
        (
            PollerView::AwaitingRuns { repositories, iteration, next, collected },
            PollerEventView::WorkflowRunsFetched(runs),
        ) => {
            lemma_newest_first_is_sorted(collected + runs);
        },
        _ => {},
    }
}

/// A sequence that has ended stays ended: whatever is reported to it, it
/// asks for nothing more. So the first error is the last item, and after a
/// consumer is gone no call goes out, though a call that was under way may
/// still complete and be reported.
pub proof fn lemma_ended_asks_for_nothing(state: PollerView, events: Seq<PollerEventView>)
    requires
        state.ended(),
    ensures
        replay(state, events) == Some(
            (state, Seq::new(events.len(), |i: int| PollerActionView::Halt)),
        ),
    decreases events.len(),
{
    if events.len() != 0 {
        lemma_ended_asks_for_nothing(state, events.drop_last());
    }
}

/// Cancellation: once a poller has heard that its consumer is gone, it asks
/// for no fetch again, whatever it stood at and whatever is reported to it
/// afterwards.
pub proof fn lemma_consumer_gone_stops_fetching(
    state: PollerView,
    events: Seq<PollerEventView>,
    i: int,
)
    requires
        0 <= i < events.len(),
    ensures
        next_step(state, PollerEventView::ConsumerGone) matches Some((stopped, halt)) && {
            &&& halt == PollerActionView::Halt
            &&& stopped.ended()
            &&& replay(stopped, events) matches Some((last, actions))
            &&& last.ended()
            &&& actions.len() == events.len()
            &&& actions[i] == PollerActionView::Halt
        },
{
    let stopped = next_step(state, PollerEventView::ConsumerGone).unwrap().0;
    lemma_ended_asks_for_nothing(stopped, events);
}

/// A fetch that fails for good ends the sequence: the error is handed out,
/// and nothing is asked for after it.
pub proof fn lemma_failure_is_last(state: PollerView, events: Seq<PollerEventView>, i: int)
    requires
        state is AwaitingRepositories || state is AwaitingRuns,
        0 <= i < events.len(),
    ensures
        next_step(state, PollerEventView::FetchFailed) matches Some((failed, action)) && {
            &&& action is Fail
            &&& failed.ended()
            &&& replay(failed, events) matches Some((last, actions))
            &&& last.ended()
            &&& actions.len() == events.len()
            &&& actions[i] == PollerActionView::Halt
        },
{
    let failed = next_step(state, PollerEventView::FetchFailed).unwrap().0;
    lemma_ended_asks_for_nothing(failed, events);
}

/// The reports of `rounds` discoveries that find no repository, each
/// followed by the end of the wait that it draws.
pub open spec fn empty_discoveries(rounds: nat) -> Seq<PollerEventView>
    decreases rounds,
{
    if rounds == 0 {
        Seq::empty()
    } else {
        empty_discoveries((rounds - 1) as nat).push(
            PollerEventView::RepositoriesFetched(Seq::empty()),
        ).push(PollerEventView::WaitElapsed)
    }
}

/// Empty-repositories stall: as long as every discovery finds no repository,
/// the poller hands out no snapshot and fetches no runs. It waits
/// [`RETRY_WAIT_SECONDS`] after each discovery and then asks again, for
/// any number of rounds.
pub proof fn lemma_empty_discoveries_stall(rounds: nat)
    ensures
        replay(PollerView::AwaitingRepositories, empty_discoveries(rounds)) matches Some(
            (last, actions),
        ) && {
            &&& last == PollerView::AwaitingRepositories
            &&& actions.len() == 2 * rounds
            &&& forall|k: int|
                0 <= k < rounds ==> {
                    &&& #[trigger] actions[2 * k] == wait(RETRY_WAIT_SECONDS)
                    &&& actions[2 * k + 1] == discovery()
                }
        },
    decreases rounds,
{
    if rounds != 0 {
        let start = PollerView::AwaitingRepositories;
        let before = empty_discoveries((rounds - 1) as nat);
        let found_nothing = PollerEventView::RepositoriesFetched(Seq::empty());
        let round = seq![found_nothing, PollerEventView::WaitElapsed];
        let stall = wait(RETRY_WAIT_SECONDS);
        lemma_empty_discoveries_stall((rounds - 1) as nat);
        assert(empty_discoveries(rounds) =~= before + round);
        lemma_replay_of_two(start, before, round);
        assert(replay(start, round) == Some((start, seq![stall, discovery()]))) by {
            assert(round.drop_last() =~= seq![found_nothing]);
            lemma_replay_of_one(start, found_nothing);
        }
    }
}

/// No discovery among the events finds a repository.
pub open spec fn finds_nothing(events: Seq<PollerEventView>) -> bool {
    forall|j: int|
        0 <= j < events.len() && (#[trigger] events[j]) is RepositoriesFetched
            ==> events[j]->RepositoriesFetched_0.len() == 0
}

/// Where no discovery finds a repository, none does before the last event.
proof fn lemma_finds_nothing_before(events: Seq<PollerEventView>)
    requires
        finds_nothing(events),
        events.len() != 0,
    ensures
        finds_nothing(events.drop_last()),
        events.last() matches PollerEventView::RepositoriesFetched(found) ==> found.len() == 0,
{
    let before = events.drop_last();
    assert forall|j: int|
        0 <= j < before.len() && before[j] is RepositoriesFetched implies before[j]->RepositoriesFetched_0.len()
        == 0 by {
        assert(before[j] == events[j]);
    }
    assert(events.last() == events[events.len() - 1]);
}

/// As long as no discovery finds a repository, a poller that starts anew
/// stays at its discoveries, whatever else is reported to it.
proof fn lemma_stays_at_discovery(events: Seq<PollerEventView>)
    requires
        finds_nothing(events),
        replay(PollerView::AwaitingRepositories, events) is Some,
    ensures
        ({
            let (last, actions) = replay(PollerView::AwaitingRepositories, events).unwrap();
            &&& last is AwaitingRepositories || last is Stalled || last.ended()
            &&& actions.len() == events.len()
        }),
    decreases events.len(),
{
    if events.len() != 0 {
        lemma_finds_nothing_before(events);
        lemma_stays_at_discovery(events.drop_last());
    }
}

/// Empty-repositories stall, whatever else happens: as long as no discovery
/// finds a repository, a poller that starts anew never hands out a snapshot
/// and never asks for the runs of a repository.
pub proof fn lemma_no_repositories_no_snapshot(events: Seq<PollerEventView>, i: int)
    requires
        finds_nothing(events),
        replay(PollerView::AwaitingRepositories, events) is Some,
        0 <= i < events.len(),
    ensures
        ({
            let actions = replay(PollerView::AwaitingRepositories, events).unwrap().1;
            &&& actions.len() == events.len()
            &&& !(actions[i] is Emit)
            &&& !(actions[i] is FetchWorkflowRuns)
        }),
    decreases events.len(),
{
    lemma_finds_nothing_before(events);
    lemma_stays_at_discovery(events.drop_last());
    if i < events.len() - 1 {
        lemma_no_repositories_no_snapshot(events.drop_last(), i);
    }
}

/// The reports of one round of fetches: the runs of each repository in turn.
pub open spec fn runs_reports(fetched: Seq<Seq<WorkflowRunView>>) -> Seq<PollerEventView> {
    Seq::new(fetched.len(), |j: int| PollerEventView::WorkflowRunsFetched(fetched[j]))
}

/// The requests for the runs of the repositories from number `from` up to,
/// but not with, number `to`.
pub open spec fn runs_requests(repositories: Seq<RepositoryView>, from: int, to: int) -> Seq<
    PollerActionView,
> {
    Seq::new((to - from) as nat, |j: int| runs_request(repositories[from + j]))
}

/// What a poller reports are made to in one round: the runs of each
/// repository in turn, that the snapshot was taken, and that the wait after
/// it is over.
pub open spec fn round_events(fetched: Seq<Seq<WorkflowRunView>>) -> Seq<PollerEventView> {
    runs_reports(fetched).push(PollerEventView::SnapshotTaken).push(PollerEventView::WaitElapsed)
}

/// Where the poller stands after round number `iteration` of a cycle: at the
/// next round, or after the last round at the next discovery.
pub open spec fn round_end(repositories: Seq<RepositoryView>, iteration: nat) -> (
    PollerView,
    PollerActionView,
) {
    if iteration + 1 < FETCH_ITERATIONS {
        (round_start(repositories, iteration + 1), runs_request(repositories[0]))
    } else {
        (PollerView::AwaitingRepositories, discovery())
    }
}

/// While the runs of the repositories of a round come in, the poller asks
/// for those of the next repository and keeps what has come in.
proof fn lemma_runs_come_in(
    repositories: Seq<RepositoryView>,
    iteration: nat,
    fetched: Seq<Seq<WorkflowRunView>>,
)
    requires
        fetched.len() < repositories.len(),
    ensures
        replay(round_start(repositories, iteration), runs_reports(fetched)) == Some(
            (
                PollerView::AwaitingRuns {
                    repositories,
                    iteration,
                    next: fetched.len(),
                    collected: fetched.flatten(),
                },
                runs_requests(repositories, 1, fetched.len() as int + 1),
            ),
        ),
    decreases fetched.len(),
{
    if fetched.len() != 0 {
        let before = fetched.drop_last();
        lemma_runs_come_in(repositories, iteration, before);
        assert(runs_reports(fetched).drop_last() =~= runs_reports(before));
        assert(before.push(fetched.last()) =~= fetched);
        before.lemma_flatten_push(fetched.last());
    }
}

/// One round: the poller asks for the runs of each repository after the
/// first, hands out one snapshot, which holds the runs of all repositories
/// newest first, and waits [`ITERATION_WAIT_SECONDS`]. Then it starts the
/// next round or, after the last round, the next discovery.
pub proof fn lemma_round(
    repositories: Seq<RepositoryView>,
    iteration: nat,
    fetched: Seq<Seq<WorkflowRunView>>,
)
    requires
        0 < repositories.len(),
        fetched.len() == repositories.len(),
    ensures
        replay(round_start(repositories, iteration), round_events(fetched)) == Some(
            (
                round_end(repositories, iteration).0,
                runs_requests(repositories, 1, repositories.len() as int).push(
                    PollerActionView::Emit(newest_first(fetched.flatten())),
                ).push(wait(ITERATION_WAIT_SECONDS)).push(
                    round_end(repositories, iteration).1,
                ),
            ),
        ),
{
    let start = round_start(repositories, iteration);
    let reports = runs_reports(fetched);
    let before = fetched.drop_last();
    lemma_runs_come_in(repositories, iteration, before);
    assert(reports.drop_last() =~= runs_reports(before));
    assert(before.push(fetched.last()) =~= fetched);
    before.lemma_flatten_push(fetched.last());
    assert(replay(start, reports) == Some(
        (
            PollerView::Delivering { repositories, iteration },
            runs_requests(repositories, 1, repositories.len() as int).push(
                PollerActionView::Emit(newest_first(fetched.flatten())),
            ),
        ),
    ));
    let taken = reports.push(PollerEventView::SnapshotTaken);
    assert(taken.drop_last() =~= reports);
    assert(replay(start, taken) == Some(
        (
            PollerView::Pausing { repositories, iteration },
            runs_requests(repositories, 1, repositories.len() as int).push(
                PollerActionView::Emit(newest_first(fetched.flatten())),
            ).push(wait(ITERATION_WAIT_SECONDS)),
        ),
    ));
    let all = round_events(fetched);
    assert(all.drop_last() =~= taken);
}

/// The actions of one round hold one snapshot, and a discovery only as their
/// last, after the last round.
proof fn lemma_round_counts(
    repositories: Seq<RepositoryView>,
    iteration: nat,
    snapshot: Seq<WorkflowRunView>,
)
    requires
        0 < repositories.len(),
    ensures
        ({
            let actions = runs_requests(repositories, 1, repositories.len() as int).push(
                PollerActionView::Emit(snapshot),
            ).push(wait(ITERATION_WAIT_SECONDS)).push(
                round_end(repositories, iteration).1,
            );
            &&& snapshots_in(actions) == 1
            &&& discoveries_in(actions) == if iteration + 1 < FETCH_ITERATIONS {
                0nat
            } else {
                1nat
            }
        }),
{
    broadcast use Seq::lemma_filter_push;

    let requests = runs_requests(repositories, 1, repositories.len() as int);
    let emits = |action: PollerActionView| action is Emit;
    let discovers = |action: PollerActionView| action is FetchRepositories;
    requests.lemma_all_neg_filter_empty(emits);
    requests.lemma_all_neg_filter_empty(discovers);
}

/// What is reported to a poller over the rounds of a cycle, where
/// `rounds[i][j]` are the runs that repository number `j` gives in round
/// number `i`.
pub open spec fn rounds_events(rounds: Seq<Seq<Seq<WorkflowRunView>>>) -> Seq<PollerEventView>
    decreases rounds.len(),
{
    if rounds.len() == 0 {
        Seq::empty()
    } else {
        rounds_events(rounds.drop_last()) + round_events(rounds.last())
    }
}

/// What is reported to a poller from a discovery that finds `repositories`
/// on, over the rounds that follow it.
pub open spec fn cycle_events(
    repositories: Seq<RepositoryView>,
    rounds: Seq<Seq<Seq<WorkflowRunView>>>,
) -> Seq<PollerEventView> {
    seq![PollerEventView::RepositoriesFetched(repositories)] + rounds_events(rounds)
}

/// Where a cycle stands after some of its rounds, and how many snapshots it
/// has handed out by then.
proof fn lemma_rounds(repositories: Seq<RepositoryView>, rounds: Seq<Seq<Seq<WorkflowRunView>>>)
    requires
        0 < repositories.len(),
        rounds.len() <= FETCH_ITERATIONS,
        forall|i: int| 0 <= i < rounds.len() ==> (#[trigger] rounds[i]).len() == repositories.len(),
    ensures
        replay(round_start(repositories, 0), rounds_events(rounds)) matches Some((last, actions)) && {
            &&& last == if rounds.len() < FETCH_ITERATIONS {
                round_start(repositories, rounds.len())
            } else {
                PollerView::AwaitingRepositories
            }
            &&& snapshots_in(actions) == rounds.len()
            &&& discoveries_in(actions) == if rounds.len() < FETCH_ITERATIONS {
                0nat
            } else {
                1nat
            }
            &&& rounds.len() == FETCH_ITERATIONS ==> actions.last() == discovery()
        },
    decreases rounds.len(),
{
    let start = round_start(repositories, 0);
    if rounds.len() != 0 {
        let done = rounds.drop_last();
        let iteration: nat = done.len();
        lemma_rounds(repositories, done);
        lemma_replay_of_two(start, rounds_events(done), round_events(rounds.last()));
        lemma_round(repositories, iteration, rounds.last());
        let earlier = replay(start, rounds_events(done)).unwrap().1;
        let snapshot = newest_first(rounds.last().flatten());
        let of_round = runs_requests(repositories, 1, repositories.len() as int).push(
            PollerActionView::Emit(snapshot),
        ).push(wait(ITERATION_WAIT_SECONDS)).push(
            round_end(repositories, iteration).1,
        );
        lemma_round_counts(repositories, iteration, snapshot);
        Seq::filter_distributes_over_add(
            earlier,
            of_round,
            |action: PollerActionView| action is Emit,
        );
        Seq::filter_distributes_over_add(
            earlier,
            of_round,
            |action: PollerActionView| action is FetchRepositories,
        );
    }
}

/// Iteration count: a discovery that finds repositories is followed by
/// exactly [`FETCH_ITERATIONS`] snapshots before the repositories are asked
/// for again. The next discovery is the last thing that the poller asks for
/// in the cycle, and it asks for none before it.
pub proof fn lemma_cycle_hands_out_all_snapshots(
    repositories: Seq<RepositoryView>,
    rounds: Seq<Seq<Seq<WorkflowRunView>>>,
)
    requires
        0 < repositories.len(),
        rounds.len() == FETCH_ITERATIONS,
        forall|i: int| 0 <= i < rounds.len() ==> (#[trigger] rounds[i]).len() == repositories.len(),
    ensures
        replay(PollerView::AwaitingRepositories, cycle_events(repositories, rounds)) matches Some(
            (last, actions),
        ) && {
            &&& last == PollerView::AwaitingRepositories
            &&& snapshots_in(actions) == FETCH_ITERATIONS
            &&& discoveries_in(actions) == 1
            &&& actions.last() == discovery()
        },
{
    broadcast use Seq::lemma_filter_prepend;

    let found = PollerEventView::RepositoriesFetched(repositories);
    let start = PollerView::AwaitingRepositories;
    lemma_replay_of_one(start, found);
    lemma_replay_of_two(start, seq![found], rounds_events(rounds));
    lemma_rounds(repositories, rounds);
}

} // verus!
