use dev_quick_setup::batch::{BatchError, Completion, InstallOrchestrator};
use dev_quick_setup::outcome::{BatchReport, InstallOutcome};
use dev_quick_setup::progress::ProgressTracker;
use rayon::prelude::{IntoParallelIterator, ParallelIterator};
use std::sync::Mutex;

fn names(list: &[&str]) -> Vec<String> {
    list.iter().map(|s| s.to_string()).collect()
}

fn failed(text: &str) -> InstallOutcome {
    InstallOutcome::InstallFailed(text.to_string())
}

fn done(index: usize, outcome: InstallOutcome) -> Completion {
    Completion { index, outcome }
}

fn numbered(count: usize) -> Vec<String> {
    (0..count).map(|i| format!("tool-{}", i)).collect()
}

fn advance_all(total: u64) -> ProgressTracker {
    let mut tracker = ProgressTracker::start(total);
    for done in 0..total {
        assert_eq!(tracker.completed(), done);
        assert!(!tracker.is_complete());
        assert!(tracker.advance());
    }
    tracker
}

#[test]
fn tracker_starts_at_zero() {
    let tracker = ProgressTracker::start(7);
    assert_eq!(tracker.total(), 7);
    assert_eq!(tracker.completed(), 0);
    assert!(!tracker.is_complete());
}

#[test]
fn tracker_of_nothing_is_complete_at_once() {
    let mut tracker = advance_all(0);
    assert!(tracker.is_complete());
    assert!(!tracker.advance());
    assert_eq!(tracker.completed(), 0);
}

#[test]
fn tracker_of_one_is_complete_after_one_advance() {
    let tracker = advance_all(1);
    assert!(tracker.is_complete());
    assert_eq!(tracker.completed(), 1);
}

#[test]
fn tracker_of_ten_is_complete_after_ten_advances() {
    let tracker = advance_all(10);
    assert!(tracker.is_complete());
    assert_eq!(tracker.completed(), 10);
}

#[test]
fn tracker_of_a_thousand_is_complete_after_a_thousand_advances() {
    let tracker = advance_all(1000);
    assert!(tracker.is_complete());
    assert_eq!(tracker.completed(), 1000);
    assert_eq!(tracker.total(), 1000);
}

#[test]
fn tracker_never_passes_its_total() {
    let mut tracker = advance_all(3);
    for _ in 0..5 {
        assert!(!tracker.advance());
        assert_eq!(tracker.completed(), 3);
        assert_eq!(tracker.total(), 3);
    }
}

#[test]
fn tracker_handles_the_largest_total() {
    let mut tracker = ProgressTracker::start(u64::MAX);
    assert!(tracker.advance());
    assert_eq!(tracker.completed(), 1);
    assert_eq!(tracker.total(), u64::MAX);
}

#[test]
fn finished_tracker_hands_out_count_and_message() {
    let end = advance_all(2).finish();
    assert_eq!(end.completed, 2);
    assert_eq!(end.total, 2);
    assert_eq!(end.message, "Installation complete");
    let early = ProgressTracker::start(4).finish();
    assert_eq!(early.completed, 0);
    assert_eq!(early.total, 4);
}

#[test]
fn report_counts_successes_and_failures() {
    let report = BatchReport::from_outcomes(vec![
        InstallOutcome::AlreadyPresent,
        failed("a"),
        InstallOutcome::InstalledOk,
        failed("b"),
        InstallOutcome::InstalledOk,
    ]);
    assert_eq!(report.len(), 5);
    assert_eq!(report.failed(), 2);
    assert_eq!(report.succeeded(), 3);
    assert!(!report.is_empty());
    assert_eq!(report.outcome(1), Some(&failed("a")));
    assert_eq!(report.outcome(4), Some(&InstallOutcome::InstalledOk));
    assert_eq!(report.outcome(5), None);
    assert_eq!(report.outcomes().len(), 5);
}

#[test]
fn empty_report_counts_nothing() {
    let report = BatchReport::empty();
    assert!(report.is_empty());
    assert_eq!(report.len(), 0);
    assert_eq!(report.failed(), 0);
    assert_eq!(report.succeeded(), 0);
    assert_eq!(report, BatchReport::from_outcomes(vec![]));
    assert!(report.into_outcomes().is_empty());
}

#[test]
fn report_of_failures_only() {
    let report = BatchReport::from_outcomes(vec![failed("a"), failed("b")]);
    assert_eq!(report.failed(), 2);
    assert_eq!(report.succeeded(), 0);
    assert_eq!(report.into_outcomes(), vec![failed("a"), failed("b")]);
}

#[test]
fn fresh_batch_has_no_outcomes() {
    let batch = InstallOrchestrator::start(names(&["git", "curl", "jq"]));
    assert_eq!(batch.len(), 3);
    assert_eq!(batch.tools(), &names(&["git", "curl", "jq"]));
    assert_eq!(batch.progress(), (0, 3));
    assert!(!batch.is_complete());
}

#[test]
fn batch_files_outcomes_by_position() {
    let mut batch = InstallOrchestrator::start(names(&["git", "curl", "jq"]));
    assert_eq!(batch.record(2, InstallOutcome::AlreadyPresent), Ok(()));
    assert_eq!(batch.progress(), (1, 3));
    assert_eq!(batch.record(0, InstallOutcome::InstalledOk), Ok(()));
    assert_eq!(batch.progress(), (2, 3));
    assert!(!batch.is_complete());
    assert_eq!(batch.record(1, failed("boom")), Ok(()));
    assert_eq!(batch.progress(), (3, 3));
    assert!(batch.is_complete());
    let finished = batch.finish().unwrap();
    assert_eq!(
        finished.report.outcomes(),
        &vec![InstallOutcome::InstalledOk, failed("boom"), InstallOutcome::AlreadyPresent]
    );
    assert_eq!(finished.progress.completed, 3);
    assert_eq!(finished.progress.total, 3);
}

#[test]
fn batch_refuses_a_second_outcome_for_a_tool() {
    let mut batch = InstallOrchestrator::start(names(&["git", "curl"]));
    assert_eq!(batch.record(0, InstallOutcome::InstalledOk), Ok(()));
    assert_eq!(batch.record(0, failed("late")), Err(BatchError::AlreadyRecorded));
    assert_eq!(batch.progress(), (1, 2));
    assert_eq!(batch.record(1, InstallOutcome::InstalledOk), Ok(()));
    let finished = batch.finish().unwrap();
    assert_eq!(
        finished.report.outcomes(),
        &vec![InstallOutcome::InstalledOk, InstallOutcome::InstalledOk]
    );
}

#[test]
fn batch_refuses_a_position_it_does_not_have() {
    let mut batch = InstallOrchestrator::start(names(&["git"]));
    assert_eq!(batch.record(1, InstallOutcome::InstalledOk), Err(BatchError::OutOfRange));
    assert_eq!(batch.record(usize::MAX, InstallOutcome::InstalledOk), Err(BatchError::OutOfRange));
    assert_eq!(batch.progress(), (0, 1));
    assert!(!batch.is_complete());
}

#[test]
fn unfinished_batch_has_no_report() {
    let mut batch = InstallOrchestrator::start(names(&["git", "curl"]));
    batch.record(1, InstallOutcome::InstalledOk).unwrap();
    assert_eq!(batch.finish().err(), Some(BatchError::Incomplete));
    let untouched = InstallOrchestrator::start(names(&["git"]));
    assert_eq!(untouched.finish().err(), Some(BatchError::Incomplete));
}

#[test]
fn empty_batch_is_complete_at_once() {
    let batch = InstallOrchestrator::start(vec![]);
    assert!(batch.is_complete());
    assert_eq!(batch.progress(), (0, 0));
    let finished = batch.finish().unwrap();
    assert!(finished.report.is_empty());
    assert_eq!(finished.progress.completed, 0);
    assert_eq!(finished.progress.total, 0);
}

#[test]
fn run_batch_reports_in_input_order() {
    let tools = names(&["git", "curl", "jq"]);
    let orders: [[usize; 3]; 6] =
        [[0, 1, 2], [0, 2, 1], [1, 0, 2], [1, 2, 0], [2, 0, 1], [2, 1, 0]];
    for order in orders {
        let completions: Vec<Completion> =
            order.iter().map(|&i| done(i, failed(&tools[i]))).collect();
        let report = InstallOrchestrator::run_batch(tools.clone(), &completions).unwrap();
        assert_eq!(
            report.outcomes(),
            &vec![failed("git"), failed("curl"), failed("jq")]
        );
    }
}

#[test]
fn run_batch_of_nothing_reports_nothing() {
    let report = InstallOrchestrator::run_batch(vec![], &[]).unwrap();
    assert!(report.is_empty());
    assert_eq!(
        InstallOrchestrator::run_batch(vec![], &[done(0, InstallOutcome::InstalledOk)]),
        Err(BatchError::OutOfRange)
    );
}

#[test]
fn run_batch_of_one() {
    let report =
        InstallOrchestrator::run_batch(names(&["git"]), &[done(0, InstallOutcome::InstalledOk)])
            .unwrap();
    assert_eq!(report.outcomes(), &vec![InstallOutcome::InstalledOk]);
}

#[test]
fn run_batch_of_a_thousand_in_reverse() {
    let tools = numbered(1000);
    let completions: Vec<Completion> =
        (0..1000).rev().map(|i| done(i, failed(&format!("{}", i)))).collect();
    let report = InstallOrchestrator::run_batch(tools, &completions).unwrap();
    assert_eq!(report.len(), 1000);
    assert_eq!(report.failed(), 1000);
    for i in 0..1000 {
        assert_eq!(report.outcome(i), Some(&failed(&format!("{}", i))));
    }
}

#[test]
fn run_batch_treats_equal_names_as_separate_tools() {
    let report = InstallOrchestrator::run_batch(
        names(&["git", "git"]),
        &[done(1, failed("second")), done(0, InstallOutcome::AlreadyPresent)],
    )
    .unwrap();
    assert_eq!(report.outcomes(), &vec![InstallOutcome::AlreadyPresent, failed("second")]);
}

#[test]
fn run_batch_names_the_first_fault() {
    let tools = names(&["git", "curl"]);
    assert_eq!(
        InstallOrchestrator::run_batch(tools.clone(), &[done(0, InstallOutcome::InstalledOk)]),
        Err(BatchError::Incomplete)
    );
    assert_eq!(InstallOrchestrator::run_batch(tools.clone(), &[]), Err(BatchError::Incomplete));
    assert_eq!(
        InstallOrchestrator::run_batch(
            tools.clone(),
            &[done(0, InstallOutcome::InstalledOk), done(0, InstallOutcome::InstalledOk)]
        ),
        Err(BatchError::AlreadyRecorded)
    );
    assert_eq!(
        InstallOrchestrator::run_batch(
            tools.clone(),
            &[done(2, InstallOutcome::InstalledOk), done(0, InstallOutcome::InstalledOk)]
        ),
        Err(BatchError::OutOfRange)
    );
    assert_eq!(
        InstallOrchestrator::run_batch(
            tools.clone(),
            &[
                done(1, InstallOutcome::InstalledOk),
                done(1, InstallOutcome::InstalledOk),
                done(7, InstallOutcome::InstalledOk)
            ]
        ),
        Err(BatchError::AlreadyRecorded)
    );
    assert_eq!(
        InstallOrchestrator::run_batch(
            tools,
            &[
                done(0, InstallOutcome::InstalledOk),
                done(1, InstallOutcome::InstalledOk),
                done(0, InstallOutcome::InstalledOk)
            ]
        ),
        Err(BatchError::AlreadyRecorded)
    );
}

#[test]
fn failing_tool_leaves_the_others_alone() {
    let tools = numbered(5);
    for failing in 0..5 {
        let completions: Vec<Completion> = [3usize, 0, 4, 1, 2]
            .iter()
            .map(|&i| {
                let outcome = if i == failing {
                    failed("always fails")
                } else if i % 2 == 0 {
                    InstallOutcome::InstalledOk
                } else {
                    InstallOutcome::AlreadyPresent
                };
                done(i, outcome)
            })
            .collect();
        let report = InstallOrchestrator::run_batch(tools.clone(), &completions).unwrap();
        assert_eq!(report.len(), 5);
        assert_eq!(report.failed(), 1);
        assert_eq!(report.succeeded(), 4);
        for i in 0..5 {
            let expected = if i == failing {
                failed("always fails")
            } else if i % 2 == 0 {
                InstallOutcome::InstalledOk
            } else {
                InstallOutcome::AlreadyPresent
            };
            assert_eq!(report.outcome(i), Some(&expected));
        }
    }
}

#[test]
fn batch_of_failures_still_completes() {
    let mut batch = InstallOrchestrator::start(numbered(10));
    for i in 0..10 {
        assert_eq!(batch.record(9 - i, failed("no")), Ok(()));
        assert_eq!(batch.progress(), (i as u64 + 1, 10));
    }
    let finished = batch.finish().unwrap();
    assert_eq!(finished.report.failed(), 10);
    assert_eq!(finished.progress.completed, 10);
}

fn run_concurrently(count: usize) {
    let tools = numbered(count);
    let batch = Mutex::new(InstallOrchestrator::start(tools.clone()));
    (0..count).into_par_iter().for_each(|index| {
        let outcome = if index % 3 == 0 {
            failed(&tools[index])
        } else {
            InstallOutcome::InstalledOk
        };
        let mut batch = batch.lock().unwrap();
        assert_eq!(batch.record(index, outcome), Ok(()));
        let (completed, total) = batch.progress();
        assert!(completed >= 1 && completed <= total);
    });
    let batch = batch.into_inner().unwrap();
    assert_eq!(batch.progress(), (count as u64, count as u64));
    assert!(batch.is_complete());
    let finished = batch.finish().unwrap();
    assert_eq!(finished.progress.completed, count as u64);
    assert_eq!(finished.progress.total, count as u64);
    assert_eq!(finished.report.len(), count);
    for index in 0..count {
        let expected = if index % 3 == 0 {
            failed(&tools[index])
        } else {
            InstallOutcome::InstalledOk
        };
        assert_eq!(finished.report.outcome(index), Some(&expected));
    }
}

#[test]
fn concurrent_batch_of_nothing_counts_every_completion() {
    run_concurrently(0);
}

#[test]
fn concurrent_batch_of_one_counts_every_completion() {
    run_concurrently(1);
}

#[test]
fn concurrent_batch_of_ten_counts_every_completion() {
    run_concurrently(10);
}

#[test]
fn concurrent_batch_of_a_thousand_counts_every_completion() {
    run_concurrently(1000);
}

#[test]
fn concurrent_tracker_loses_no_advance() {
    for total in [0u64, 1, 10, 1000] {
        let tracker = Mutex::new(ProgressTracker::start(total));
        (0..total).into_par_iter().for_each(|_| {
            assert!(tracker.lock().unwrap().advance());
        });
        let tracker = tracker.into_inner().unwrap();
        assert_eq!(tracker.completed(), total);
        assert!(tracker.is_complete());
        assert_eq!(tracker.finish().completed, total);
    }
}
