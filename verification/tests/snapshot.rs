use gha_dashboard::run::WorkflowRun;
use gha_dashboard::snapshot::{sort_newest_first, StreamGitHubActionsRunsUseCaseOutput};
use gha_dashboard::timestamp::Timestamp;

fn run_at(id: u64, secs: i64, nanos: u32) -> WorkflowRun {
    WorkflowRun {
        repository_name: "octo/cat".to_string(),
        id,
        workflow_name: "CI".to_string(),
        display_title: format!("run {}", id),
        event: "push".to_string(),
        status: "completed".to_string(),
        created_at: Timestamp::new(secs, nanos),
        updated_at: Timestamp::new(secs + 60, nanos),
        html_url: format!("https://example.test/{}", id),
    }
}

fn ids(runs: &[WorkflowRun]) -> Vec<u64> {
    runs.iter().map(|run| run.id).collect()
}

#[test]
fn runs_are_sorted_newest_first() {
    let sorted = sort_newest_first(vec![
        run_at(1, 100, 0),
        run_at(2, 300, 0),
        run_at(3, 200, 0),
        run_at(4, 50, 0),
    ]);
    assert_eq!(ids(&sorted), vec![2, 3, 1, 4]);
}

#[test]
fn every_neighbour_pair_of_a_snapshot_is_in_order() {
    let mut runs = Vec::new();
    let mut seed: u64 = 12345;
    for id in 0..200u64 {
        seed = seed.wrapping_mul(6364136223846793005).wrapping_add(1442695040888963407);
        runs.push(run_at(id, (seed >> 40) as i64 % 50 - 25, (seed >> 20) as u32 % 3));
    }
    let snapshot = StreamGitHubActionsRunsUseCaseOutput::new(runs);
    let sorted = snapshot.runs();
    assert_eq!(sorted.len(), 200);
    for pair in sorted.windows(2) {
        assert!(pair[0].created_at.is_at_or_after(&pair[1].created_at));
    }
    let mut seen = ids(sorted);
    seen.sort();
    assert_eq!(seen, (0..200u64).collect::<Vec<u64>>());
}

#[test]
fn nanoseconds_break_ties_of_seconds() {
    let sorted = sort_newest_first(vec![
        run_at(1, 100, 5),
        run_at(2, 100, 999_999_999),
        run_at(3, 100, 0),
        run_at(4, 99, 999_999_999),
    ]);
    assert_eq!(ids(&sorted), vec![2, 1, 3, 4]);
}

#[test]
fn negative_seconds_come_last() {
    let sorted = sort_newest_first(vec![
        run_at(1, -5, 0),
        run_at(2, 0, 0),
        run_at(3, -5, 1),
        run_at(4, i64::MIN, 0),
        run_at(5, i64::MAX - 60, u32::MAX),
    ]);
    assert_eq!(ids(&sorted), vec![5, 2, 3, 1, 4]);
}

#[test]
fn runs_created_at_the_same_instant_come_latest_fetched_first() {
    let sorted = sort_newest_first(vec![
        run_at(1, 100, 0),
        run_at(2, 100, 0),
        run_at(3, 200, 0),
        run_at(4, 100, 0),
    ]);
    assert_eq!(ids(&sorted), vec![3, 4, 2, 1]);
}

#[test]
fn a_run_that_is_fetched_twice_stays_twice() {
    let sorted = sort_newest_first(vec![run_at(1, 100, 0), run_at(2, 200, 0), run_at(1, 100, 0)]);
    assert_eq!(ids(&sorted), vec![2, 1, 1]);
}

#[test]
fn no_runs_make_an_empty_snapshot() {
    let snapshot = StreamGitHubActionsRunsUseCaseOutput::new(Vec::new());
    assert!(snapshot.runs().is_empty());
    assert!(snapshot.into_runs().is_empty());
}

#[test]
fn one_run_makes_a_snapshot_of_one() {
    let snapshot = StreamGitHubActionsRunsUseCaseOutput::new(vec![run_at(9, 1, 1)]);
    assert_eq!(snapshot.runs(), &vec![run_at(9, 1, 1)]);
}

#[test]
fn sorted_runs_stay_as_they_are() {
    let sorted = sort_newest_first(vec![run_at(1, 300, 0), run_at(2, 200, 0), run_at(3, 100, 0)]);
    assert_eq!(ids(&sorted), vec![1, 2, 3]);
}

#[test]
fn a_snapshot_keeps_the_runs_whole() {
    let snapshot = StreamGitHubActionsRunsUseCaseOutput::new(vec![run_at(1, 100, 0), run_at(2, 200, 0)]);
    assert_eq!(snapshot.clone().into_runs(), vec![run_at(2, 200, 0), run_at(1, 100, 0)]);
    assert_eq!(snapshot.into_runs(), vec![run_at(2, 200, 0), run_at(1, 100, 0)]);
}

#[test]
fn timestamps_compare_by_seconds_then_nanoseconds() {
    let early = Timestamp::new(10, 500);
    let late = Timestamp::new(11, 0);
    assert!(late.is_after(&early));
    assert!(late.is_at_or_after(&early));
    assert!(!early.is_after(&late));
    assert!(!early.is_at_or_after(&late));
    assert!(early.is_at_or_after(&early));
    assert!(!early.is_after(&early));
    assert!(Timestamp::new(10, 501).is_after(&early));
    assert!(!Timestamp::new(10, 499).is_at_or_after(&early));
}

#[test]
fn a_cloned_run_equals_the_run() {
    let run = run_at(3, 7, 9);
    assert_eq!(run.clone(), run);
}
