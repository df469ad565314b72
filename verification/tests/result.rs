use git_auto_fetch::outcome::{FailureReason, SyncOutcome};
use git_auto_fetch::result::{
    exit_status, ProcessResult, Severity, UnitStatus, EXIT_FATAL, EXIT_SUCCESS, EXIT_TASK_FAILURE,
};

fn not_found(path: &str) -> SyncOutcome {
    SyncOutcome::Failure { reason: FailureReason::NotFound, task_identity: path.to_string() }
}

fn fetch_failed(path: &str, cause: &str) -> SyncOutcome {
    SyncOutcome::Failure {
        reason: FailureReason::FetchFailed(cause.to_string()),
        task_identity: path.to_string(),
    }
}

fn with_units(n: usize) -> ProcessResult {
    let mut result = ProcessResult::new();
    for expected in 0..n {
        assert_eq!(result.add_unit(), expected);
    }
    result
}

#[test]
fn exit_statuses_are_zero_one_and_one_hundred_and_one() {
    assert_eq!(EXIT_SUCCESS, 0);
    assert_eq!(EXIT_TASK_FAILURE, 1);
    assert_eq!(EXIT_FATAL, 101);
    assert_eq!(exit_status(Severity::Success), 0);
    assert_eq!(exit_status(Severity::TaskFailure), 1);
    assert_eq!(exit_status(Severity::Fatal), 101);
}

#[test]
fn an_empty_result_is_final_and_a_success() {
    let result = ProcessResult::new();
    assert_eq!(result.len(), 0);
    assert!(result.is_final());
    assert!(result.all_succeeded());
    assert!(!result.has_crash());
    assert!(!result.has_pending());
    assert_eq!(result.severity(), Some(Severity::Success));
    assert_eq!(result.exit_code(), Some(0));
    assert!(result.failures().is_empty());
    assert!(result.crashed_units().is_empty());
    assert_eq!(result.status(0), None);
}

#[test]
fn units_are_numbered_in_the_order_in_which_they_are_added() {
    let mut result = ProcessResult::new();
    assert_eq!(result.add_unit(), 0);
    assert_eq!(result.add_unit(), 1);
    assert_eq!(result.add_unit(), 2);
    assert_eq!(result.len(), 3);
    assert_eq!(result.status(0), Some(&UnitStatus::Pending));
    assert_eq!(result.status(2), Some(&UnitStatus::Pending));
    assert_eq!(result.status(3), None);
}

#[test]
fn a_result_with_a_pending_unit_is_not_final() {
    let mut result = with_units(2);
    assert!(result.record(0, SyncOutcome::Success));
    assert!(result.has_pending());
    assert!(!result.is_final());
    assert_eq!(result.severity(), None);
    assert_eq!(result.exit_code(), None);
    assert!(result.record(1, SyncOutcome::Success));
    assert!(result.is_final());
    assert_eq!(result.severity(), Some(Severity::Success));
    assert_eq!(result.exit_code(), Some(0));
}

#[test]
fn one_failed_task_makes_the_run_a_failure() {
    let mut result = with_units(3);
    assert!(result.record(0, SyncOutcome::Success));
    assert!(result.record(1, not_found("/nowhere")));
    assert!(result.record(2, SyncOutcome::Success));
    assert!(!result.all_succeeded());
    assert_eq!(result.severity(), Some(Severity::TaskFailure));
    assert_eq!(result.exit_code(), Some(1));
    assert_eq!(result.failures(), vec![not_found("/nowhere")]);
}

#[test]
fn every_failure_is_listed_in_the_order_of_the_units() {
    let mut result = with_units(4);
    assert!(result.record(3, fetch_failed("/repos/d", "timeout")));
    assert!(result.record(1, not_found("/repos/b")));
    assert!(result.record(0, SyncOutcome::Success));
    assert!(result.record(2, fetch_failed("/repos/c", "refused")));
    assert_eq!(
        result.failures(),
        vec![
            not_found("/repos/b"),
            fetch_failed("/repos/c", "refused"),
            fetch_failed("/repos/d", "timeout"),
        ]
    );
    assert_eq!(result.exit_code(), Some(1));
}

#[test]
fn a_crash_is_fatal_and_ends_the_wait() {
    let mut result = with_units(3);
    assert!(result.record(0, SyncOutcome::Success));
    assert!(result.record_crash(1));
    assert!(result.has_crash());
    assert!(result.has_pending());
    assert!(result.is_final());
    assert_eq!(result.severity(), Some(Severity::Fatal));
    assert_eq!(result.exit_code(), Some(101));
    assert_eq!(result.crashed_units(), vec![1]);
    assert_eq!(result.status(1), Some(&UnitStatus::Crashed));
}

#[test]
fn a_crash_outweighs_failed_tasks() {
    let mut failed = with_units(2);
    assert!(failed.record(0, not_found("/a")));
    assert!(failed.record(1, not_found("/b")));
    let mut crashed = with_units(2);
    assert!(crashed.record(0, not_found("/a")));
    assert!(crashed.record_crash(1));
    assert_eq!(failed.severity(), Some(Severity::TaskFailure));
    assert_eq!(crashed.severity(), Some(Severity::Fatal));
    assert_ne!(failed.exit_code(), crashed.exit_code());
    assert_eq!(crashed.failures(), vec![not_found("/a")]);
}

#[test]
fn crashed_units_come_in_rising_order() {
    let mut result = with_units(5);
    assert!(result.record_crash(4));
    assert!(result.record_crash(0));
    assert!(result.record(2, SyncOutcome::Success));
    assert!(result.record_crash(3));
    assert_eq!(result.crashed_units(), vec![0, 3, 4]);
}

#[test]
fn a_unit_reports_once() {
    let mut result = with_units(1);
    assert!(result.record(0, not_found("/a")));
    let before = result.status(0).cloned_status();
    assert!(!result.record(0, SyncOutcome::Success));
    assert!(!result.record_crash(0));
    assert_eq!(result.status(0).cloned_status(), before);
    assert_eq!(result.exit_code(), Some(1));
}

trait ClonedStatus {
    fn cloned_status(self) -> Option<String>;
}

impl ClonedStatus for Option<&UnitStatus> {
    fn cloned_status(self) -> Option<String> {
        self.map(|status| format!("{:?}", status))
    }
}

#[test]
fn a_report_for_a_unit_that_was_never_launched_changes_nothing() {
    let mut result = with_units(2);
    assert!(!result.record(2, SyncOutcome::Success));
    assert!(!result.record_crash(7));
    assert_eq!(result, with_units(2));
    let mut empty = ProcessResult::new();
    assert!(!empty.record(0, SyncOutcome::Success));
    assert_eq!(empty, ProcessResult::new());
}

#[test]
fn the_order_of_the_reports_is_of_no_account() {
    let reports = || {
        vec![
            SyncOutcome::Success,
            not_found("/repos/b"),
            fetch_failed("/repos/c", "timeout"),
        ]
    };
    let orders: [[usize; 3]; 6] =
        [[0, 1, 2], [0, 2, 1], [1, 0, 2], [1, 2, 0], [2, 0, 1], [2, 1, 0]];
    let mut in_launch_order = with_units(3);
    for (unit, outcome) in reports().into_iter().enumerate() {
        assert!(in_launch_order.record(unit, outcome));
    }
    for order in orders {
        let mut result = with_units(3);
        for unit in order {
            assert!(result.record(unit, reports().swap_remove(unit)));
        }
        assert_eq!(result, in_launch_order);
        assert_eq!(result.exit_code(), Some(1));
        assert_eq!(result.failures(), in_launch_order.failures());
    }
}
