use git_auto_fetch::orchestrator::{execute, Action, SyncOrchestrator};
use git_auto_fetch::outcome::{FailureReason, SyncOutcome};
use git_auto_fetch::result::{Severity, UnitStatus};
use git_auto_fetch::task::{Config, GitRepository};
use git_auto_fetch::vcs::{VcsAnswers, VcsReply};
use git_auto_fetch::worker::SyncWorker;

fn task(path: &str) -> GitRepository {
    GitRepository::new(path.to_string(), "origin".to_string(), vec!["main".to_string()])
}

fn config(paths: &[&str]) -> Config {
    Config::new(paths.iter().map(|path| task(path)).collect())
}

fn not_found(path: &str) -> SyncOutcome {
    SyncOutcome::Failure { reason: FailureReason::NotFound, task_identity: path.to_string() }
}

fn launch_all(orchestrator: &mut SyncOrchestrator, paths: &[&str]) {
    for (unit, path) in paths.iter().enumerate() {
        assert_eq!(
            orchestrator.next(),
            Action::Launch { unit, worker: SyncWorker::new(task(path)) }
        );
    }
}

#[test]
fn a_config_keeps_its_repositories_in_order() {
    let c = config(&["/repos/a", "/repos/b"]);
    assert_eq!(c.len(), 2);
    assert!(!c.is_empty());
    assert_eq!(c.repositories(), &vec![task("/repos/a"), task("/repos/b")]);
    assert_eq!(c.into_repositories(), vec![task("/repos/a"), task("/repos/b")]);
    assert!(Config::new(Vec::new()).is_empty());
    assert_eq!(Config::new(Vec::new()).len(), 0);
}

#[test]
fn without_tasks_the_first_action_is_to_leave_with_zero() {
    let mut orchestrator = SyncOrchestrator::new(Config::new(Vec::new()));
    assert_eq!(orchestrator.task_count(), 0);
    assert_eq!(orchestrator.next(), Action::Exit { code: 0 });
    assert_eq!(orchestrator.next(), Action::Exit { code: 0 });
    assert_eq!(orchestrator.into_result().exit_code(), Some(0));
}

#[test]
fn every_unit_is_launched_in_the_order_of_the_tasks_before_anything_is_waited_for() {
    let paths = ["/repos/a", "/repos/b", "/repos/c"];
    let mut orchestrator = SyncOrchestrator::new(config(&paths));
    assert_eq!(orchestrator.task_count(), 3);
    assert_eq!(orchestrator.result().len(), 0);
    launch_all(&mut orchestrator, &paths);
    assert_eq!(orchestrator.result().len(), 3);
    assert_eq!(orchestrator.next(), Action::Await);
    assert_eq!(orchestrator.next(), Action::Await);
    assert_eq!(orchestrator.result().len(), 3);
}

#[test]
fn the_orchestrator_waits_until_the_last_unit_has_reported() {
    let paths = ["/repos/a", "/repos/b", "/repos/c"];
    let mut orchestrator = SyncOrchestrator::new(config(&paths));
    launch_all(&mut orchestrator, &paths);
    assert!(orchestrator.report_outcome(2, SyncOutcome::Success));
    assert_eq!(orchestrator.next(), Action::Await);
    assert!(orchestrator.report_outcome(0, SyncOutcome::Success));
    assert_eq!(orchestrator.next(), Action::Await);
    assert!(orchestrator.report_outcome(1, SyncOutcome::Success));
    assert_eq!(orchestrator.next(), Action::Exit { code: 0 });
    assert_eq!(orchestrator.result().severity(), Some(Severity::Success));
}

#[test]
fn a_failed_task_does_not_stop_the_others() {
    let paths = ["/nowhere", "/repos/b"];
    let mut orchestrator = SyncOrchestrator::new(config(&paths));
    launch_all(&mut orchestrator, &paths);
    assert!(orchestrator.report_outcome(0, not_found("/nowhere")));
    assert_eq!(orchestrator.next(), Action::Await);
    assert!(orchestrator.report_outcome(1, SyncOutcome::Success));
    assert_eq!(orchestrator.next(), Action::Exit { code: 1 });
    let result = orchestrator.into_result();
    assert_eq!(result.status(1), Some(&UnitStatus::Completed(SyncOutcome::Success)));
    assert_eq!(result.failures(), vec![not_found("/nowhere")]);
}

#[test]
fn a_crash_ends_the_run_at_once() {
    let paths = ["/repos/a", "/repos/b", "/repos/c"];
    let mut orchestrator = SyncOrchestrator::new(config(&paths));
    launch_all(&mut orchestrator, &paths);
    assert!(orchestrator.report_crash(1));
    assert_eq!(orchestrator.next(), Action::Exit { code: 101 });
    assert_eq!(orchestrator.result().severity(), Some(Severity::Fatal));
    assert_eq!(orchestrator.result().crashed_units(), vec![1]);
    assert_eq!(orchestrator.task(1), Some(&task("/repos/b")));
}

#[test]
fn a_crash_during_the_launches_stops_the_launches() {
    let paths = ["/repos/a", "/repos/b"];
    let mut orchestrator = SyncOrchestrator::new(config(&paths));
    assert_eq!(
        orchestrator.next(),
        Action::Launch { unit: 0, worker: SyncWorker::new(task("/repos/a")) }
    );
    assert!(orchestrator.report_crash(0));
    assert_eq!(orchestrator.next(), Action::Exit { code: 101 });
    assert_eq!(orchestrator.result().len(), 1);
}

#[test]
fn a_report_before_the_launch_is_not_taken() {
    let paths = ["/repos/a", "/repos/b"];
    let mut orchestrator = SyncOrchestrator::new(config(&paths));
    assert!(!orchestrator.report_outcome(0, SyncOutcome::Success));
    assert!(!orchestrator.report_crash(0));
    launch_all(&mut orchestrator, &paths);
    assert!(!orchestrator.report_outcome(2, SyncOutcome::Success));
    assert!(orchestrator.report_outcome(0, SyncOutcome::Success));
    assert!(!orchestrator.report_outcome(0, not_found("/repos/a")));
    assert!(!orchestrator.report_crash(0));
    assert_eq!(orchestrator.next(), Action::Await);
    assert_eq!(orchestrator.task(2), None);
}

#[test]
fn execute_runs_every_task_against_its_own_answers() {
    let answers = vec![
        VcsAnswers::all_succeed(),
        VcsAnswers {
            open: VcsReply::Succeeded,
            resolve_remote: VcsReply::Succeeded,
            fetch: VcsReply::Failed("timeout".to_string()),
        },
        VcsAnswers::all_succeed(),
    ];
    let result = execute(config(&["/repos/a", "/repos/b", "/repos/c"]), &answers)
        .expect("one entry of answers for each task");
    assert_eq!(result.len(), 3);
    assert_eq!(result.status(0), Some(&UnitStatus::Completed(SyncOutcome::Success)));
    assert_eq!(
        result.status(1),
        Some(&UnitStatus::Completed(SyncOutcome::Failure {
            reason: FailureReason::FetchFailed("timeout".to_string()),
            task_identity: "/repos/b".to_string(),
        }))
    );
    assert_eq!(result.status(2), Some(&UnitStatus::Completed(SyncOutcome::Success)));
    assert_eq!(result.exit_code(), Some(1));
}

#[test]
fn execute_wants_one_entry_of_answers_for_each_task() {
    assert_eq!(execute(config(&["/repos/a"]), &Vec::new()), None);
    assert_eq!(
        execute(config(&["/repos/a"]), &vec![VcsAnswers::all_succeed(), VcsAnswers::all_succeed()]),
        None
    );
    assert_eq!(execute(Config::new(Vec::new()), &vec![VcsAnswers::all_succeed()]), None);
}
