//! Snapshots: all the runs of one fetch round, newest first.

use crate::run::{WorkflowRun, WorkflowRunView};
use crate::timestamp::Timestamp;
use vstd::prelude::*;

verus! {

/// No run stands before one that was created later.
pub open spec fn is_newest_first(runs: Seq<WorkflowRunView>) -> bool {
    forall|i: int, j: int|
        0 <= i <= j < runs.len() ==> runs[i].created_at.at_or_after(runs[j].created_at)
}

/// Where a run created at `created_at` enters `runs`: behind the runs at the
/// front that were created later.
pub open spec fn insert_position(runs: Seq<WorkflowRunView>, created_at: Timestamp) -> int
    decreases runs.len(),
{
    if runs.len() == 0 || !runs[0].created_at.after(created_at) {
        0
    } else {
        1 + insert_position(runs.drop_first(), created_at)
    }
}

/// The order of a snapshot: each run of `runs` in turn enters behind the runs
/// that were created later than it, and before all others.
pub open spec fn newest_first(runs: Seq<WorkflowRunView>) -> Seq<WorkflowRunView>
    decreases runs.len(),
{
    if runs.len() == 0 {
        Seq::empty()
    } else {
        let earlier = newest_first(runs.drop_last());
        earlier.insert(insert_position(earlier, runs.last().created_at), runs.last())
    }
}

/// The position that [`insert_position`] gives lies within the sequence, with
/// later runs before it and none at it.
pub proof fn lemma_insert_position(runs: Seq<WorkflowRunView>, created_at: Timestamp)
    ensures
        0 <= insert_position(runs, created_at) <= runs.len(),
        forall|i: int|
            0 <= i < insert_position(runs, created_at) ==> (#[trigger] runs[i]).created_at.after(
                created_at,
            ),
        insert_position(runs, created_at) < runs.len() ==> !runs[insert_position(
            runs,
            created_at,
        )].created_at.after(created_at),
    decreases runs.len(),
{
    if runs.len() != 0 && runs[0].created_at.after(created_at) {
        let rest = runs.drop_first();
        lemma_insert_position(rest, created_at);
        assert forall|i: int| 0 <= i < insert_position(runs, created_at) implies (
        #[trigger] runs[i]).created_at.after(created_at) by {
            if i > 0 {
                assert(runs[i] == rest[i - 1]);
            }
        }
    }
}

/// A run that enters a snapshot at its [`insert_position`] leaves it in order.
pub proof fn lemma_insert_keeps_order(runs: Seq<WorkflowRunView>, run: WorkflowRunView)
    requires
        is_newest_first(runs),
    ensures
        is_newest_first(runs.insert(insert_position(runs, run.created_at), run)),
{
    let position = insert_position(runs, run.created_at);
    let grown = runs.insert(position, run);
    lemma_insert_position(runs, run.created_at);
    assert forall|i: int, j: int| 0 <= i <= j < grown.len() implies grown[i].created_at.at_or_after(
        grown[j].created_at,
    ) by {
        if position < j {
            // Behind the run that entered, the runs have moved back by one.
            if i == position {
                assert(runs[position].created_at.at_or_after(runs[j - 1].created_at));
            } else if position < i {
                assert(grown[i] == runs[i - 1]);
            }
        }
    }
}

/// Sort invariant: in the order of a snapshot no run stands before one that
/// was created later.
pub proof fn lemma_newest_first_is_sorted(runs: Seq<WorkflowRunView>)
    ensures
        is_newest_first(newest_first(runs)),
    decreases runs.len(),
{
    if runs.len() != 0 {
        lemma_newest_first_is_sorted(runs.drop_last());
        lemma_insert_keeps_order(newest_first(runs.drop_last()), runs.last());
    }
}

/// The order of a snapshot holds every run as often as it was fetched: none
/// is lost and none is added.
pub proof fn lemma_newest_first_is_permutation(runs: Seq<WorkflowRunView>)
    ensures
        newest_first(runs).to_multiset() == runs.to_multiset(),
        newest_first(runs).len() == runs.len(),
    decreases runs.len(),
{
    broadcast use vstd::seq_lib::group_to_multiset_ensures;

    if runs.len() != 0 {
        let earlier = newest_first(runs.drop_last());
        lemma_newest_first_is_permutation(runs.drop_last());
        lemma_insert_position(earlier, runs.last().created_at);
        assert(runs.drop_last().push(runs.last()) =~= runs);
    }
}

/// The runs that were created at `instant`.
pub open spec fn created_at(instant: Timestamp) -> spec_fn(WorkflowRunView) -> bool {
    |run: WorkflowRunView| run.created_at == instant
}

/// Runs that were created at the same instant stand in the order of a
/// snapshot the other way round than they were fetched: the one fetched last
/// comes first.
pub proof fn lemma_newest_first_ties(runs: Seq<WorkflowRunView>, instant: Timestamp)
    ensures
        newest_first(runs).filter(created_at(instant)) == runs.filter(
            created_at(instant),
        ).reverse(),
    decreases runs.len(),
{
    let at = created_at(instant);
    if runs.len() == 0 {
        assert(newest_first(runs).filter(at) =~= runs.filter(at).reverse()) by {
            reveal(Seq::filter);
        }
    } else {
        let fetched_before = runs.drop_last();
        let last = runs.last();
        let earlier = newest_first(fetched_before);
        let position = insert_position(earlier, last.created_at);
        lemma_newest_first_ties(fetched_before, instant);
        lemma_insert_position(earlier, last.created_at);
        let front = earlier.take(position);
        let back = earlier.skip(position);
        assert(earlier.insert(position, last) =~= front + seq![last] + back);
        assert(earlier =~= front + back);
        assert(fetched_before.push(last) =~= runs);
        Seq::filter_distributes_over_add(front + seq![last], back, at);
        Seq::filter_distributes_over_add(front, seq![last], at);
        Seq::filter_distributes_over_add(front, back, at);
        fetched_before.lemma_filter_push(last, at);
        Seq::<WorkflowRunView>::empty().lemma_filter_push(last, at);
        if last.created_at == instant {
            // No run before the position was created at this instant.
            front.lemma_all_neg_filter_empty(at);
        }
    }
}

/// Puts the runs into the order of a snapshot: newest first, with none lost
/// and none added.
pub fn sort_newest_first(runs: Vec<WorkflowRun>) -> (sorted: Vec<WorkflowRun>)
    ensures
        sorted.deep_view() == newest_first(runs.deep_view()),
        is_newest_first(sorted.deep_view()),
        sorted.deep_view().to_multiset() == runs.deep_view().to_multiset(),
        sorted.len() == runs.len(),
{
    let mut sorted: Vec<WorkflowRun> = Vec::new();
    let ghost all = runs.deep_view();
    for run in it: runs
        invariant
            all == runs.deep_view(),
            it.seq() == runs@,
            sorted.deep_view() == newest_first(all.take(it.index() as int)),
    {
        let ghost earlier = sorted.deep_view();
        let ghost instant = run.created_at;
        let mut position: usize = 0;
        assert(earlier.skip(0) =~= earlier);
        while position < sorted.len() && sorted[position].created_at.is_after(&run.created_at)
            invariant
                position <= sorted.len(),
                earlier == sorted.deep_view(),
                instant == run.created_at,
                insert_position(earlier, instant) == position + insert_position(
                    earlier.skip(position as int),
                    instant,
                ),
            decreases sorted.len() - position,
        {
            assert(earlier.skip(position as int).drop_first() =~= earlier.skip(position + 1));
            position = position + 1;
        }
        proof {
            let done = all.take(it.index() + 1);
            assert(done.drop_last() =~= all.take(it.index() as int));
        }
        sorted.insert(position, run);
    }
    assert(all.take(all.len() as int) =~= all);
    proof {
        lemma_newest_first_is_sorted(all);
        lemma_newest_first_is_permutation(all);
    }
    sorted
}

/// A snapshot: the runs of one fetch round, newest first. It replaces the
/// snapshot before it; it is no change to it.
#[derive(Debug)]
pub struct StreamGitHubActionsRunsUseCaseOutput {
    runs: Vec<WorkflowRun>,
}

impl View for StreamGitHubActionsRunsUseCaseOutput {
    type V = Seq<WorkflowRunView>;

    /// The runs of the snapshot, in its order.
    closed spec fn view(&self) -> Seq<WorkflowRunView> {
        self.runs.deep_view()
    }
}

impl StreamGitHubActionsRunsUseCaseOutput {
    #[verifier::type_invariant]
    spec fn in_order(self) -> bool {
        is_newest_first(self.runs.deep_view())
    }

    /// Makes the snapshot of the runs that one round fetched, in whatever
    /// order they came.
    pub fn new(all_runs: Vec<WorkflowRun>) -> (snapshot: StreamGitHubActionsRunsUseCaseOutput)
        ensures
            snapshot@ == newest_first(all_runs.deep_view()),
            is_newest_first(snapshot@),
            snapshot@.to_multiset() == all_runs.deep_view().to_multiset(),
    {
        proof {
            lemma_newest_first_is_sorted(all_runs.deep_view());
        }
        StreamGitHubActionsRunsUseCaseOutput { runs: sort_newest_first(all_runs) }
    }

    /// The runs of the snapshot, newest first.
    pub fn runs(&self) -> (runs: &Vec<WorkflowRun>)
        ensures
            runs.deep_view() == self@,
            is_newest_first(self@),
    {
        proof {
            use_type_invariant(self);
        }
        &self.runs
    }

    /// Gives up the snapshot for its runs, newest first.
    pub fn into_runs(self) -> (runs: Vec<WorkflowRun>)
        ensures
            runs.deep_view() == self@,
            is_newest_first(self@),
    {
        proof {
            use_type_invariant(&self);
        }
        self.runs
    }
}

impl Clone for StreamGitHubActionsRunsUseCaseOutput {
    fn clone(&self) -> (copy: StreamGitHubActionsRunsUseCaseOutput)
        ensures
            copy@ == self@,
    {
        proof {
            use_type_invariant(self);
        }
        let runs = self.runs.clone();
        StreamGitHubActionsRunsUseCaseOutput { runs }
    }
}

} // verus!
