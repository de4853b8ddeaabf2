use gha_dashboard::poller::{
    PollError, Poller, PollerAction, PollerEvent, FETCH_ITERATIONS, ITERATION_WAIT_SECONDS,
    MAX_REPOSITORIES_TO_FETCH, MAX_WORKFLOW_RUNS_PER_REPO, RETRY_WAIT_SECONDS,
};
use gha_dashboard::repository::Repository;
use gha_dashboard::run::WorkflowRun;
use gha_dashboard::timestamp::Timestamp;
use gha_dashboard::use_case::{StreamGitHubActionsRunsInteractor, StreamGitHubActionsRunsUseCaseInput};
use std::sync::Arc;

fn repository(owner: &str, name: &str) -> Repository {
    Repository { name: name.to_string(), owner: owner.to_string() }
}

/// A run created on 2024-01-01 at the given time of day, UTC.
fn run_created(id: u64, hour: i64, minute: i64) -> WorkflowRun {
    let created = 1_704_067_200 + hour * 3600 + minute * 60;
    WorkflowRun {
        repository_name: "A/r".to_string(),
        id,
        workflow_name: "CI".to_string(),
        display_title: format!("run {}", id),
        event: "push".to_string(),
        status: "success".to_string(),
        created_at: Timestamp::new(created, 0),
        updated_at: Timestamp::new(created, 0),
        html_url: format!("https://example.test/{}", id),
    }
}

fn expect_fetch_of(action: &PollerAction, owner: &str, repo: &str) {
    match action {
        PollerAction::FetchWorkflowRuns { owner: o, repo: r, count } => {
            assert_eq!(o, owner);
            assert_eq!(r, repo);
            assert_eq!(*count, MAX_WORKFLOW_RUNS_PER_REPO);
        }
        other => panic!("expected a fetch of runs, got {:?}", other),
    }
}

fn step(poller: Poller, event: PollerEvent) -> (Poller, PollerAction) {
    let (poller, action) = poller.step(event);
    (poller, action.expect("the event answers what the poller asked for"))
}

#[test]
fn poller_constants_have_their_documented_values() {
    assert_eq!(MAX_REPOSITORIES_TO_FETCH, 5);
    assert_eq!(FETCH_ITERATIONS, 2);
    assert_eq!(MAX_WORKFLOW_RUNS_PER_REPO, 2);
    assert_eq!(RETRY_WAIT_SECONDS, 60);
    assert_eq!(ITERATION_WAIT_SECONDS, 30);
}

#[test]
fn a_poller_starts_with_a_discovery() {
    let (poller, action) = Poller::start();
    assert!(!poller.has_ended());
    assert!(matches!(action, PollerAction::FetchRepositories { count: 5 }));
}

#[test]
fn the_use_case_starts_a_poller_of_its_own_each_time() {
    let interactor = StreamGitHubActionsRunsInteractor::new(Arc::new("api"));
    assert_eq!(**interactor.github_api(), "api");
    let (first, first_action) = interactor.start(StreamGitHubActionsRunsUseCaseInput::default());
    let (second, second_action) = interactor.start(StreamGitHubActionsRunsUseCaseInput {});
    assert!(matches!(first_action, PollerAction::FetchRepositories { count: 5 }));
    assert!(matches!(second_action, PollerAction::FetchRepositories { count: 5 }));
    // The first goes on while the second still waits for its discovery.
    let (first, _) = step(first, PollerEvent::RepositoriesFetched(Vec::new()));
    let (_, action) = step(first, PollerEvent::WaitElapsed);
    assert!(matches!(action, PollerAction::FetchRepositories { count: 5 }));
    let (_, action) = step(second, PollerEvent::RepositoriesFetched(vec![repository("A", "r1")]));
    expect_fetch_of(&action, "A", "r1");
}

#[test]
fn merge_scenario_of_two_repositories() {
    let (poller, _) = Poller::start();
    let (poller, action) = step(
        poller,
        PollerEvent::RepositoriesFetched(vec![repository("A", "r1"), repository("B", "r2")]),
    );
    expect_fetch_of(&action, "A", "r1");
    let (poller, action) = step(
        poller,
        PollerEvent::WorkflowRunsFetched(vec![run_created(1, 10, 0), run_created(2, 9, 0)]),
    );
    expect_fetch_of(&action, "B", "r2");
    let (_, action) = step(poller, PollerEvent::WorkflowRunsFetched(vec![run_created(3, 9, 30)]));
    match action {
        PollerAction::Emit(snapshot) => {
            let runs = snapshot.into_runs();
            assert_eq!(
                runs,
                vec![run_created(1, 10, 0), run_created(3, 9, 30), run_created(2, 9, 0)]
            );
        }
        other => panic!("expected a snapshot, got {:?}", other),
    }
}

#[test]
fn empty_discoveries_stall_without_a_snapshot() {
    let (mut poller, _) = Poller::start();
    for _ in 0..25 {
        let (next, action) = step(poller, PollerEvent::RepositoriesFetched(Vec::new()));
        assert!(matches!(action, PollerAction::Wait { seconds: 60 }));
        let (next, action) = step(next, PollerEvent::WaitElapsed);
        assert!(matches!(action, PollerAction::FetchRepositories { count: 5 }));
        poller = next;
    }
    assert!(!poller.has_ended());
}

#[test]
fn a_cycle_hands_out_two_snapshots_before_the_next_discovery() {
    let repositories = vec![repository("A", "r1"), repository("B", "r2"), repository("C", "r3")];
    let (poller, _) = Poller::start();
    let (mut poller, mut action) = step(poller, PollerEvent::RepositoriesFetched(repositories));
    let mut snapshots = 0;
    let mut fetches = 0;
    let mut waits = 0;
    loop {
        let event = match action {
            PollerAction::FetchWorkflowRuns { .. } => {
                fetches += 1;
                PollerEvent::WorkflowRunsFetched(vec![run_created(fetches, 1, 0)])
            }
            PollerAction::Emit(snapshot) => {
                snapshots += 1;
                assert_eq!(snapshot.runs().len(), 3);
                PollerEvent::SnapshotTaken
            }
            PollerAction::Wait { seconds } => {
                waits += 1;
                assert_eq!(seconds, ITERATION_WAIT_SECONDS);
                PollerEvent::WaitElapsed
            }
            PollerAction::FetchRepositories { count } => {
                assert_eq!(count, MAX_REPOSITORIES_TO_FETCH);
                break;
            }
            other => panic!("unexpected action {:?}", other),
        };
        let next = step(poller, event);
        poller = next.0;
        action = next.1;
    }
    assert_eq!(snapshots, FETCH_ITERATIONS);
    assert_eq!(fetches as usize, 3 * FETCH_ITERATIONS);
    assert_eq!(waits, FETCH_ITERATIONS);
    assert!(!poller.has_ended());
}

#[test]
fn each_round_starts_from_no_runs() {
    let (poller, _) = Poller::start();
    let (poller, _) = step(poller, PollerEvent::RepositoriesFetched(vec![repository("A", "r1")]));
    let (poller, action) = step(poller, PollerEvent::WorkflowRunsFetched(vec![run_created(1, 1, 0)]));
    assert!(matches!(action, PollerAction::Emit(_)));
    let (poller, action) = step(poller, PollerEvent::SnapshotTaken);
    assert!(matches!(action, PollerAction::Wait { seconds: 30 }));
    let (poller, action) = step(poller, PollerEvent::WaitElapsed);
    expect_fetch_of(&action, "A", "r1");
    let (_, action) = step(poller, PollerEvent::WorkflowRunsFetched(vec![run_created(2, 2, 0)]));
    match action {
        PollerAction::Emit(snapshot) => assert_eq!(snapshot.into_runs(), vec![run_created(2, 2, 0)]),
        other => panic!("expected a snapshot, got {:?}", other),
    }
}

#[test]
fn repositories_without_runs_make_an_empty_snapshot() {
    let (poller, _) = Poller::start();
    let (poller, _) = step(
        poller,
        PollerEvent::RepositoriesFetched(vec![repository("A", "r1"), repository("B", "r2")]),
    );
    let (poller, _) = step(poller, PollerEvent::WorkflowRunsFetched(Vec::new()));
    let (_, action) = step(poller, PollerEvent::WorkflowRunsFetched(Vec::new()));
    match action {
        PollerAction::Emit(snapshot) => assert!(snapshot.runs().is_empty()),
        other => panic!("expected a snapshot, got {:?}", other),
    }
}

#[test]
fn a_failed_discovery_ends_the_sequence() {
    let (poller, _) = Poller::start();
    let (poller, action) = step(poller, PollerEvent::FetchFailed);
    match action {
        PollerAction::Fail(error) => {
            assert_eq!(error, PollError::Repositories);
            assert_eq!(error.message(), "Failed to fetch repositories");
        }
        other => panic!("expected the error, got {:?}", other),
    }
    assert!(poller.has_ended());
    let (poller, action) = step(poller, PollerEvent::WaitElapsed);
    assert!(matches!(action, PollerAction::Halt));
    let (poller, action) = step(poller, PollerEvent::RepositoriesFetched(vec![repository("A", "r")]));
    assert!(matches!(action, PollerAction::Halt));
    assert!(poller.has_ended());
}

#[test]
fn a_failed_fetch_of_runs_ends_the_sequence_for_all_repositories() {
    let (poller, _) = Poller::start();
    let (poller, _) = step(
        poller,
        PollerEvent::RepositoriesFetched(vec![
            repository("A", "r1"),
            repository("B", "r2"),
            repository("C", "r3"),
        ]),
    );
    let (poller, _) = step(poller, PollerEvent::WorkflowRunsFetched(vec![run_created(1, 1, 0)]));
    let (poller, action) = step(poller, PollerEvent::FetchFailed);
    match action {
        PollerAction::Fail(error) => {
            assert_eq!(
                error,
                PollError::WorkflowRuns { owner: "B".to_string(), name: "r2".to_string() }
            );
            assert_eq!(error.message(), "Failed to fetch workflow runs for B/r2");
        }
        other => panic!("expected the error, got {:?}", other),
    }
    assert!(poller.has_ended());
    let (_, action) = step(poller, PollerEvent::WorkflowRunsFetched(vec![run_created(2, 2, 0)]));
    assert!(matches!(action, PollerAction::Halt));
}

#[test]
fn a_consumer_that_is_gone_stops_the_poller() {
    let (poller, _) = Poller::start();
    let (poller, _) = step(poller, PollerEvent::RepositoriesFetched(vec![repository("A", "r1")]));
    let (poller, action) = step(poller, PollerEvent::ConsumerGone);
    assert!(matches!(action, PollerAction::Halt));
    assert!(poller.has_ended());
    // The call that was under way completes and is discarded.
    let (poller, action) = step(poller, PollerEvent::WorkflowRunsFetched(vec![run_created(1, 1, 0)]));
    assert!(matches!(action, PollerAction::Halt));
    let (poller, action) = step(poller, PollerEvent::WaitElapsed);
    assert!(matches!(action, PollerAction::Halt));
    let (poller, action) = step(poller, PollerEvent::SnapshotTaken);
    assert!(matches!(action, PollerAction::Halt));
    assert!(poller.has_ended());
}

#[test]
fn a_consumer_may_go_at_any_point() {
    let (poller, _) = Poller::start();
    let (stopped, action) = step(poller, PollerEvent::ConsumerGone);
    assert!(matches!(action, PollerAction::Halt));
    assert!(stopped.has_ended());

    let (poller, _) = Poller::start();
    let (poller, _) = step(poller, PollerEvent::RepositoriesFetched(Vec::new()));
    let (stopped, action) = step(poller, PollerEvent::ConsumerGone);
    assert!(matches!(action, PollerAction::Halt));
    assert!(stopped.has_ended());

    let (poller, _) = Poller::start();
    let (poller, _) = step(poller, PollerEvent::RepositoriesFetched(vec![repository("A", "r1")]));
    let (poller, _) = step(poller, PollerEvent::WorkflowRunsFetched(Vec::new()));
    let (stopped, action) = step(poller, PollerEvent::ConsumerGone);
    assert!(matches!(action, PollerAction::Halt));
    assert!(stopped.has_ended());
}

#[test]
fn an_event_that_answers_nothing_is_turned_away() {
    let (poller, _) = Poller::start();
    let (poller, action) = poller.step(PollerEvent::WaitElapsed);
    assert!(action.is_none());
    let (poller, action) = poller.step(PollerEvent::SnapshotTaken);
    assert!(action.is_none());
    let (poller, action) = poller.step(PollerEvent::WorkflowRunsFetched(Vec::new()));
    assert!(action.is_none());
    // The poller still waits for its discovery.
    let (poller, action) = step(poller, PollerEvent::RepositoriesFetched(vec![repository("A", "r1")]));
    expect_fetch_of(&action, "A", "r1");
    let (poller, action) = poller.step(PollerEvent::RepositoriesFetched(Vec::new()));
    assert!(action.is_none());
    let (poller, action) = poller.step(PollerEvent::WaitElapsed);
    assert!(action.is_none());
    // It still waits for the runs of the first repository.
    let (poller, action) = step(poller, PollerEvent::WorkflowRunsFetched(vec![run_created(1, 1, 0)]));
    assert!(matches!(action, PollerAction::Emit(_)));
    let (poller, action) = poller.step(PollerEvent::FetchFailed);
    assert!(action.is_none());
    let (poller, action) = poller.step(PollerEvent::WaitElapsed);
    assert!(action.is_none());
    let (poller, action) = step(poller, PollerEvent::SnapshotTaken);
    assert!(matches!(action, PollerAction::Wait { seconds: 30 }));
    let (poller, action) = poller.step(PollerEvent::SnapshotTaken);
    assert!(action.is_none());
    assert!(!poller.has_ended());
}

#[test]
fn without_repositories_nothing_but_discoveries_and_waits_is_asked() {
    // Discoveries that find nothing, with a turned-away report in between
    // and a failure at the end.
    let (mut poller, mut action) = Poller::start();
    for round in 0..6 {
        assert!(matches!(action, PollerAction::FetchRepositories { count: 5 }));
        if round == 3 {
            let (same, turned_away) = poller.step(PollerEvent::SnapshotTaken);
            assert!(turned_away.is_none());
            poller = same;
        }
        let next = step(poller, PollerEvent::RepositoriesFetched(Vec::new()));
        assert!(matches!(next.1, PollerAction::Wait { seconds: 60 }));
        let next = step(next.0, PollerEvent::WaitElapsed);
        poller = next.0;
        action = next.1;
    }
    let (poller, action) = step(poller, PollerEvent::FetchFailed);
    assert!(matches!(action, PollerAction::Fail(PollError::Repositories)));
    assert!(poller.has_ended());
}
