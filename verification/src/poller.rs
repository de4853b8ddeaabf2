//! The poller: which request goes out next, when a snapshot is handed out,
//! and how long to wait in between.
//!
//! The poller is a state machine. It names one action at a time; its driver
//! carries the action out (a network call, a sleep, handing a snapshot to the
//! consumer) and reports what came of it as an event. The poller itself never
//! blocks and holds nothing beyond the round that it is in.

use crate::repository::{Repository, RepositoryView};
use crate::run::{WorkflowRun, WorkflowRunView};
use crate::snapshot::{newest_first, StreamGitHubActionsRunsUseCaseOutput};
use vstd::prelude::*;
use vstd::string::*;

verus! {

/// How many repositories a discovery asks for.
pub const MAX_REPOSITORIES_TO_FETCH: u8 = 5;

/// How long to wait, in seconds, after a discovery that found no repository.
pub const RETRY_WAIT_SECONDS: u64 = 60;

/// How many snapshots follow one discovery.
pub const FETCH_ITERATIONS: usize = 2;

/// How many runs are asked of each repository.
pub const MAX_WORKFLOW_RUNS_PER_REPO: u8 = 2;

/// How long to wait, in seconds, after each snapshot.
pub const ITERATION_WAIT_SECONDS: u64 = 30;

/// The fetch that ended a sequence of snapshots.
#[derive(Debug, PartialEq)]
pub enum PollError {
    /// The repositories could not be listed.
    Repositories,
    /// The runs of this repository could not be listed.
    WorkflowRuns { owner: String, name: String },
}

/// What a [`PollError`] holds.
pub enum PollErrorView {
    Repositories,
    WorkflowRuns { owner: Seq<char>, name: Seq<char> },
}

impl View for PollError {
    type V = PollErrorView;

    open spec fn view(&self) -> PollErrorView {
        match self {
            PollError::Repositories => PollErrorView::Repositories,
            PollError::WorkflowRuns { owner, name } => PollErrorView::WorkflowRuns {
                owner: owner@,
                name: name@,
            },
        }
    }
}

impl PollErrorView {
    /// How the error reads: which fetch failed, and for a fetch of runs of
    /// which repository.
    pub open spec fn text(self) -> Seq<char> {
        match self {
            PollErrorView::Repositories => "Failed to fetch repositories"@,
            PollErrorView::WorkflowRuns { owner, name } => "Failed to fetch workflow runs for "@
                + owner + "/"@ + name,
        }
    }
}

impl PollError {
    /// Writes the error out.
    pub fn message(&self) -> (message: String)
        ensures
            message@ == self@.text(),
    {
        match self {
            PollError::Repositories => "Failed to fetch repositories".to_owned(),
            PollError::WorkflowRuns { owner, name } => {
                let mut message: String = "Failed to fetch workflow runs for ".to_owned();
                message.append(owner.as_str());
                message.append("/");
                message.append(name.as_str());
                message
            },
        }
    }
}

/// What the driver reports to the poller.
#[derive(Debug)]
pub enum PollerEvent {
    /// The repositories were listed, most recently active first.
    RepositoriesFetched(Vec<Repository>),
    /// The runs of the repository asked for were listed.
    WorkflowRunsFetched(Vec<WorkflowRun>),
    /// The fetch asked for failed for good.
    FetchFailed,
    /// The wait asked for is over.
    WaitElapsed,
    /// The consumer has taken the snapshot and asks for the next.
    SnapshotTaken,
    /// The consumer no longer takes snapshots.
    ConsumerGone,
}

/// What a [`PollerEvent`] holds.
pub enum PollerEventView {
    RepositoriesFetched(Seq<RepositoryView>),
    WorkflowRunsFetched(Seq<WorkflowRunView>),
    FetchFailed,
    WaitElapsed,
    SnapshotTaken,
    ConsumerGone,
}

impl View for PollerEvent {
    type V = PollerEventView;

    open spec fn view(&self) -> PollerEventView {
        match self {
            PollerEvent::RepositoriesFetched(repositories) => PollerEventView::RepositoriesFetched(
                repositories.deep_view(),
            ),
            PollerEvent::WorkflowRunsFetched(runs) => PollerEventView::WorkflowRunsFetched(
                runs.deep_view(),
            ),
            PollerEvent::FetchFailed => PollerEventView::FetchFailed,
            PollerEvent::WaitElapsed => PollerEventView::WaitElapsed,
            PollerEvent::SnapshotTaken => PollerEventView::SnapshotTaken,
            PollerEvent::ConsumerGone => PollerEventView::ConsumerGone,
        }
    }
}

/// What the poller asks of its driver.
#[derive(Debug)]
pub enum PollerAction {
    /// List up to `count` repositories, then report them or the failure.
    FetchRepositories { count: u8 },
    /// List up to `count` runs of a repository, then report them or the
    /// failure.
    FetchWorkflowRuns { owner: String, repo: String, count: u8 },
    /// Hand the snapshot to the consumer, then report that it was taken.
    Emit(StreamGitHubActionsRunsUseCaseOutput),
    /// Sleep, then report that the wait is over.
    Wait { seconds: u64 },
    /// End the sequence with this error. It is the last item.
    Fail(PollError),
    /// Do nothing more: the sequence has ended.
    Halt,
}

/// What a [`PollerAction`] holds.
pub enum PollerActionView {
    FetchRepositories { count: u8 },
    FetchWorkflowRuns { owner: Seq<char>, repo: Seq<char>, count: u8 },
    Emit(Seq<WorkflowRunView>),
    Wait { seconds: u64 },
    Fail(PollErrorView),
    Halt,
}

impl View for PollerAction {
    type V = PollerActionView;

    open spec fn view(&self) -> PollerActionView {
        match self {
            PollerAction::FetchRepositories { count } => PollerActionView::FetchRepositories {
                count: *count,
            },
            PollerAction::FetchWorkflowRuns { owner, repo, count } => {
                PollerActionView::FetchWorkflowRuns { owner: owner@, repo: repo@, count: *count }
            },
            PollerAction::Emit(snapshot) => PollerActionView::Emit(snapshot@),
            PollerAction::Wait { seconds } => PollerActionView::Wait { seconds: *seconds },
            PollerAction::Fail(error) => PollerActionView::Fail(error@),
            PollerAction::Halt => PollerActionView::Halt,
        }
    }
}

/// Where a poller stands: what it has asked for and waits to hear of.
pub enum PollerView {
    /// A discovery is under way.
    AwaitingRepositories,
    /// The last discovery found nothing; the wait before the next is running.
    Stalled,
    /// The runs of `repositories[next]` are being fetched for snapshot number
    /// `iteration` of this cycle; `collected` holds the runs of the
    /// repositories before it.
    AwaitingRuns {
        repositories: Seq<RepositoryView>,
        iteration: nat,
        next: nat,
        collected: Seq<WorkflowRunView>,
    },
    /// Snapshot number `iteration` of this cycle is with the consumer.
    Delivering { repositories: Seq<RepositoryView>, iteration: nat },
    /// The wait after snapshot number `iteration` of this cycle is running.
    Pausing { repositories: Seq<RepositoryView>, iteration: nat },
    /// A fetch failed: the sequence has ended with its error.
    Failed,
    /// The consumer is gone: the sequence has ended.
    Stopped,
}

impl PollerView {
    /// What holds of every poller: a cycle has repositories, fetches the runs
    /// of one of them, and has not yet made all its snapshots.
    pub open spec fn well_formed(self) -> bool {
        match self {
            PollerView::AwaitingRuns { repositories, iteration, next, collected } => {
                &&& next < repositories.len()
                &&& iteration < FETCH_ITERATIONS
            },
            PollerView::Delivering { repositories, iteration } => {
                &&& 0 < repositories.len()
                &&& iteration < FETCH_ITERATIONS
            },
            PollerView::Pausing { repositories, iteration } => {
                &&& 0 < repositories.len()
                &&& iteration < FETCH_ITERATIONS
            },
            _ => true,
        }
    }

    /// The sequence has ended.
    pub open spec fn ended(self) -> bool {
        self is Failed || self is Stopped
    }
}

/// The request for the repositories.
pub open spec fn discovery() -> PollerActionView {
    PollerActionView::FetchRepositories { count: MAX_REPOSITORIES_TO_FETCH }
}

/// The request to wait.
pub open spec fn wait(seconds: u64) -> PollerActionView {
    PollerActionView::Wait { seconds }
}

/// Where round number `iteration` of a cycle starts: at the runs of the
/// first repository, with no runs in hand.
pub open spec fn round_start(repositories: Seq<RepositoryView>, iteration: nat) -> PollerView {
    PollerView::AwaitingRuns { repositories, iteration, next: 0, collected: Seq::empty() }
}

/// The request for the runs of a repository.
pub open spec fn runs_request(repository: RepositoryView) -> PollerActionView {
    PollerActionView::FetchWorkflowRuns {
        owner: repository.owner,
        repo: repository.name,
        count: MAX_WORKFLOW_RUNS_PER_REPO,
    }
}

/// The poller's rule: the state and the action that follow when `event`
/// reaches a poller in `state`, or `None` where the event answers nothing
/// that the poller has asked for.
///
/// - A sequence that has ended stays ended, and asks for nothing.
/// - A consumer that is gone ends the sequence.
/// - A discovery that finds nothing is tried again after
///   [`RETRY_WAIT_SECONDS`]; one that finds repositories starts a cycle.
/// - In a cycle the runs of each repository are fetched in turn. Once those
///   of the last are in, all of them make a snapshot, newest first. After
///   the snapshot and a wait of [`ITERATION_WAIT_SECONDS`] the next round
///   begins, or after [`FETCH_ITERATIONS`] snapshots the next discovery.
/// - A fetch that fails ends the sequence with the error that names it.
pub open spec fn next_step(state: PollerView, event: PollerEventView) -> Option<
    (PollerView, PollerActionView),
> {
    if state.ended() {
        Some((state, PollerActionView::Halt))
    } else {
        match event {
            PollerEventView::ConsumerGone => Some((PollerView::Stopped, PollerActionView::Halt)),
            PollerEventView::RepositoriesFetched(found) => match state {
                PollerView::AwaitingRepositories => {
                    if found.len() == 0 {
                        Some((PollerView::Stalled, wait(RETRY_WAIT_SECONDS)))
                    } else {
                        Some((round_start(found, 0), runs_request(found[0])))
                    }
                },
                _ => None,
            },
            PollerEventView::WorkflowRunsFetched(runs) => match state {
                PollerView::AwaitingRuns { repositories, iteration, next, collected } => {
                    if next + 1 < repositories.len() {
                        Some(
                            (
                                PollerView::AwaitingRuns {
                                    repositories,
                                    iteration,
                                    next: next + 1,
                                    collected: collected + runs,
                                },
                                runs_request(repositories[(next + 1) as int]),
                            ),
                        )
                    } else {
                        Some(
                            (
                                PollerView::Delivering { repositories, iteration },
                                PollerActionView::Emit(newest_first(collected + runs)),
                            ),
                        )
                    }
                },
                _ => None,
            },
            PollerEventView::FetchFailed => match state {
                PollerView::AwaitingRepositories => Some(
                    (PollerView::Failed, PollerActionView::Fail(PollErrorView::Repositories)),
                ),
                PollerView::AwaitingRuns { repositories, iteration, next, collected } => Some(
                    (
                        PollerView::Failed,
                        PollerActionView::Fail(
                            PollErrorView::WorkflowRuns {
                                owner: repositories[next as int].owner,
                                name: repositories[next as int].name,
                            },
                        ),
                    ),
                ),
                _ => None,
            },
            PollerEventView::SnapshotTaken => match state {
                PollerView::Delivering { repositories, iteration } => Some(
                    (PollerView::Pausing { repositories, iteration }, wait(ITERATION_WAIT_SECONDS)),
                ),
                _ => None,
            },
            PollerEventView::WaitElapsed => match state {
                PollerView::Stalled => Some((PollerView::AwaitingRepositories, discovery())),
                PollerView::Pausing { repositories, iteration } => {
                    if iteration + 1 < FETCH_ITERATIONS {
                        Some((round_start(repositories, iteration + 1), runs_request(repositories[0])))
                    } else {
                        Some((PollerView::AwaitingRepositories, discovery()))
                    }
                },
                _ => None,
            },
        }
    }
}

/// What a poller holds at each place that [`PollerView`] tells apart.
#[derive(Debug)]
enum Phase {
    AwaitingRepositories,
    Stalled,
    AwaitingRuns {
        repositories: Vec<Repository>,
        iteration: usize,
        next: usize,
        collected: Vec<WorkflowRun>,
    },
    Delivering { repositories: Vec<Repository>, iteration: usize },
    Pausing { repositories: Vec<Repository>, iteration: usize },
    Failed,
    Stopped,
}

/// One execution of the polling loop. Each consumer has its own: nothing is
/// shared between two of them.
#[derive(Debug)]
pub struct Poller {
    phase: Phase,
}

impl View for Phase {
    type V = PollerView;

    closed spec fn view(&self) -> PollerView {
        match self {
            Phase::AwaitingRepositories => PollerView::AwaitingRepositories,
            Phase::Stalled => PollerView::Stalled,
            Phase::AwaitingRuns { repositories, iteration, next, collected } => {
                PollerView::AwaitingRuns {
                    repositories: repositories.deep_view(),
                    iteration: *iteration as nat,
                    next: *next as nat,
                    collected: collected.deep_view(),
                }
            },
            Phase::Delivering { repositories, iteration } => PollerView::Delivering {
                repositories: repositories.deep_view(),
                iteration: *iteration as nat,
            },
            Phase::Pausing { repositories, iteration } => PollerView::Pausing {
                repositories: repositories.deep_view(),
                iteration: *iteration as nat,
            },
            Phase::Failed => PollerView::Failed,
            Phase::Stopped => PollerView::Stopped,
        }
    }
}

impl View for Poller {
    type V = PollerView;

    closed spec fn view(&self) -> PollerView {
        self.phase@
    }
}

/// The request for the runs of `repository`.
fn request_runs_of(repository: &Repository) -> (action: PollerAction)
    ensures
        action@ == runs_request(repository@),
{
    PollerAction::FetchWorkflowRuns {
        owner: repository.owner.clone(),
        repo: repository.name.clone(),
        count: MAX_WORKFLOW_RUNS_PER_REPO,
    }
}

impl Poller {
    #[verifier::type_invariant]
    spec fn valid(self) -> bool {
        self@.well_formed()
    }

    /// Starts a sequence of snapshots: a poller of its own, and the first
    /// thing it asks for, which is a discovery.
    pub fn start() -> (started: (Poller, PollerAction))
        ensures
            started.0@ == PollerView::AwaitingRepositories,
            started.1@ == discovery(),
    {
        (
            Poller { phase: Phase::AwaitingRepositories },
            PollerAction::FetchRepositories { count: MAX_REPOSITORIES_TO_FETCH },
        )
    }

    /// Whether the sequence has ended, by an error or because the consumer
    /// is gone.
    pub fn has_ended(&self) -> (ended: bool)
        ensures
            ended == self@.ended(),
    {
        match &self.phase {
            Phase::Failed => true,
            Phase::Stopped => true,
            _ => false,
        }
    }

    /// Takes what the driver reports and names what it is to do next, as
    /// [`next_step`] rules. An event that answers nothing the poller has
    /// asked for leaves it as it was, and gets `None`.
    pub fn step(self, event: PollerEvent) -> (next: (Poller, Option<PollerAction>))
        ensures
            next.0@.well_formed(),
            match next_step(self@, event@) {
                Some((state, action)) => {
                    &&& next.0@ == state
                    &&& next.1 matches Some(taken)
                    &&& taken@ == action
                },
                None => next.0@ == self@ && next.1 is None,
            },
    {
        proof {
            use_type_invariant(&self);
        }
        match self.phase {
            Phase::Failed => (Poller { phase: Phase::Failed }, Some(PollerAction::Halt)),
            Phase::Stopped => (Poller { phase: Phase::Stopped }, Some(PollerAction::Halt)),
            phase => match event {
                PollerEvent::ConsumerGone => (
                    Poller { phase: Phase::Stopped },
                    Some(PollerAction::Halt),
                ),
                PollerEvent::RepositoriesFetched(found) => match phase {
                    Phase::AwaitingRepositories => {
                        if found.len() == 0 {
                            (
                                Poller { phase: Phase::Stalled },
                                Some(PollerAction::Wait { seconds: RETRY_WAIT_SECONDS }),
                            )
                        } else {
                            let action = request_runs_of(&found[0]);
                            let collected: Vec<WorkflowRun> = Vec::new();
                            assert(collected.deep_view() =~= Seq::empty());
                            (
                                Poller {
                                    phase: Phase::AwaitingRuns {
                                        repositories: found,
                                        iteration: 0,
                                        next: 0,
                                        collected,
                                    },
                                },
                                Some(action),
                            )
                        }
                    },
                    other => (Poller { phase: other }, None),
                },
                PollerEvent::WorkflowRunsFetched(runs) => match phase {
                    Phase::AwaitingRuns { repositories, iteration, next, collected } => {
                        let mut collected = collected;
                        let mut runs = runs;
                        let ghost before = collected.deep_view();
                        let ghost fetched = runs.deep_view();
                        collected.append(&mut runs);
                        assert(collected.deep_view() =~= before + fetched);
                        assert(repositories.deep_view().len() == repositories.len());
                        if next + 1 < repositories.len() {
                            let action = request_runs_of(&repositories[next + 1]);
                            (
                                Poller {
                                    phase: Phase::AwaitingRuns {
                                        repositories,
                                        iteration,
                                        next: next + 1,
                                        collected,
                                    },
                                },
                                Some(action),
                            )
                        } else {
                            let snapshot = StreamGitHubActionsRunsUseCaseOutput::new(collected);
                            (
                                Poller { phase: Phase::Delivering { repositories, iteration } },
                                Some(PollerAction::Emit(snapshot)),
                            )
                        }
                    },
                    other => (Poller { phase: other }, None),
                },
                PollerEvent::FetchFailed => match phase {
                    Phase::AwaitingRepositories => (
                        Poller { phase: Phase::Failed },
                        Some(PollerAction::Fail(PollError::Repositories)),
                    ),
                    Phase::AwaitingRuns { repositories, iteration, next, collected } => {
                        let error = PollError::WorkflowRuns {
                            owner: repositories[next].owner.clone(),
                            name: repositories[next].name.clone(),
                        };
                        (Poller { phase: Phase::Failed }, Some(PollerAction::Fail(error)))
                    },
                    other => (Poller { phase: other }, None),
                },
                PollerEvent::SnapshotTaken => match phase {
                    Phase::Delivering { repositories, iteration } => (
                        Poller { phase: Phase::Pausing { repositories, iteration } },
                        Some(PollerAction::Wait { seconds: ITERATION_WAIT_SECONDS }),
                    ),
                    other => (Poller { phase: other }, None),
                },
                PollerEvent::WaitElapsed => match phase {
                    Phase::Stalled => (
                        Poller { phase: Phase::AwaitingRepositories },
                        Some(PollerAction::FetchRepositories { count: MAX_REPOSITORIES_TO_FETCH }),
                    ),
                    Phase::Pausing { repositories, iteration } => {
                        if iteration + 1 < FETCH_ITERATIONS {
                            let action = request_runs_of(&repositories[0]);
                            let collected: Vec<WorkflowRun> = Vec::new();
                            assert(collected.deep_view() =~= Seq::empty());
                            (
                                Poller {
                                    phase: Phase::AwaitingRuns {
                                        repositories,
                                        iteration: iteration + 1,
                                        next: 0,
                                        collected,
                                    },
                                },
                                Some(action),
                            )
                        } else {
                            (
                                Poller { phase: Phase::AwaitingRepositories },
                                Some(
                                    PollerAction::FetchRepositories {
                                        count: MAX_REPOSITORIES_TO_FETCH,
                                    },
                                ),
                            )
                        }
                    },
                    other => (Poller { phase: other }, None),
                },
            },
        }
    }
}

} // verus!
