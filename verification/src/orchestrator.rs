//! The sync orchestrator: fans the configured tasks out, one unit of work for
//! each, waits until every unit has reported, and settles the status with
//! which the process is to exit.
//!
//! The orchestrator starts no thread and waits on nothing itself. It tells
//! its driver what to do next ([`SyncOrchestrator::next`]) and is told what
//! became of each unit ([`SyncOrchestrator::report_outcome`],
//! [`SyncOrchestrator::report_crash`]).
//!
//! Units are launched in the order of the configuration, all of them before
//! anything is waited for: there is no cap on how many run at once. Reports
//! are taken in whatever order they arrive. A failed task stops nothing: the
//! other units run on and are waited for. A crashed unit ends the run at once.

use vstd::prelude::*;
use crate::outcome::SyncOutcome;
use crate::result::{any_crashed, exit_code_of, recorded, ProcessResult, UnitView, EXIT_FATAL};
use crate::task::{task_views, Config, GitRepository, TaskView};
use crate::vcs::{AnswersView, VcsAnswers};
use crate::worker::{
    lemma_driven_worker_reaches_outcome,
    outcome_of,
    SyncWorker,
    WorkerPhase,
    WorkerView,
};

verus! {

/// An orchestrator as a mathematical value: the configured tasks, and the
/// state of each unit launched so far. Unit `i` works on task `i`.
pub ghost struct OrchestratorView {
    pub tasks: Seq<TaskView>,
    pub units: Seq<UnitView>,
}

/// An action as a mathematical value.
pub ghost enum ActionView {
    Launch { unit: int, worker: WorkerView },
    Await,
    Exit { code: i32 },
}

/// What the orchestrator asks its driver to do.
#[derive(Debug, PartialEq, Eq)]
pub enum Action {
    /// Start a unit of work of its own that drives `worker` to its outcome,
    /// and go on at once. The unit owns the worker and its task.
    Launch { unit: usize, worker: SyncWorker },
    /// Wait until some launched unit has ended, and report it.
    Await,
    /// Leave with this exit status: the run is over.
    Exit { code: i32 },
}

impl View for Action {
    type V = ActionView;

    open spec fn view(&self) -> ActionView {
        match self {
            Action::Launch { unit, worker } => ActionView::Launch {
                unit: *unit as int,
                worker: worker@,
            },
            Action::Await => ActionView::Await,
            Action::Exit { code } => ActionView::Exit { code: *code },
        }
    }
}

/// What an orchestrator in state `o` does next.
///
/// A crash ends the run whatever else is going on. Otherwise the next task
/// without a unit gets one. Once every task has its unit, the orchestrator
/// waits as long as a unit is pending, and then leaves with the status that
/// the reports add up to.
pub open spec fn next_action(o: OrchestratorView) -> ActionView {
    if any_crashed(o.units) {
        ActionView::Exit { code: EXIT_FATAL }
    } else if o.units.len() < o.tasks.len() {
        ActionView::Launch {
            unit: o.units.len() as int,
            worker: WorkerView { task: o.tasks[o.units.len() as int], phase: WorkerPhase::Opening },
        }
    } else {
        match exit_code_of(o.units) {
            Some(code) => ActionView::Exit { code },
            None => ActionView::Await,
        }
    }
}

/// The state in which `next_action` leaves an orchestrator in state `o`: a
/// launch adds the new unit's slot, and nothing else changes anything.
pub open spec fn after_next(o: OrchestratorView) -> OrchestratorView {
    if next_action(o) is Launch {
        OrchestratorView { tasks: o.tasks, units: o.units.push(UnitView::Pending) }
    } else {
        o
    }
}

/// The orchestrator of one run.
#[derive(Debug)]
pub struct SyncOrchestrator {
    tasks: Vec<GitRepository>,
    result: ProcessResult,
}

impl View for SyncOrchestrator {
    type V = OrchestratorView;

    closed spec fn view(&self) -> OrchestratorView {
        OrchestratorView { tasks: task_views(self.tasks@), units: self.result@ }
    }
}

impl SyncOrchestrator {
    /// An orchestrator for the tasks of `config`, with nothing launched yet.
    pub fn new(config: Config) -> (orchestrator: Self)
        ensures
            orchestrator@ == (OrchestratorView { tasks: config@, units: Seq::empty() }),
    {
        SyncOrchestrator { tasks: config.into_repositories(), result: ProcessResult::new() }
    }

    /// How many tasks are configured.
    pub fn task_count(&self) -> (n: usize)
        ensures
            n == self@.tasks.len(),
    {
        self.tasks.len()
    }

    /// The task that unit `unit` works on, if the configuration has one of
    /// that number.
    pub fn task(&self, unit: usize) -> (task: Option<&GitRepository>)
        ensures
            task is Some <==> unit < self@.tasks.len(),
            task matches Some(t) ==> t@ == self@.tasks[unit as int],
    {
        if unit < self.tasks.len() {
            Some(&self.tasks[unit])
        } else {
            None
        }
    }

    /// What is known of the units so far.
    pub fn result(&self) -> (result: &ProcessResult)
        ensures
            result@ == self@.units,
    {
        &self.result
    }

    /// Gives up the orchestrator for what it knows of the units.
    pub fn into_result(self) -> (result: ProcessResult)
        ensures
            result@ == self@.units,
    {
        self.result
    }

    /// Says what the driver is to do next, and counts a unit as launched
    /// where the answer is to launch it.
    pub fn next(&mut self) -> (action: Action)
        ensures
            action@ == next_action(old(self)@),
            final(self)@ == after_next(old(self)@),
    {
        if self.result.has_crash() {
            return Action::Exit { code: EXIT_FATAL };
        }
        let launched = self.result.len();
        if launched < self.tasks.len() {
            let worker = SyncWorker::new(self.tasks[launched].clone());
            let unit = self.result.add_unit();
            return Action::Launch { unit, worker };
        }
        match self.result.exit_code() {
            Some(code) => Action::Exit { code },
            None => Action::Await,
        }
    }

    /// Takes the outcome that the worker of `unit` returned. Returns whether
    /// the report was taken: it is not where no such unit was launched, or
    /// where the unit has reported before. A report that is not taken changes
    /// nothing.
    pub fn report_outcome(&mut self, unit: usize, outcome: SyncOutcome) -> (accepted: bool)
        ensures
            accepted == (unit < old(self)@.units.len() && old(self)@.units[unit as int] is Pending),
            final(self)@ == (OrchestratorView {
                tasks: old(self)@.tasks,
                units: recorded(old(self)@.units, unit as int, UnitView::Completed(outcome@)),
            }),
    {
        self.result.record(unit, outcome)
    }

    /// Takes the news that `unit` ended without an outcome. Returns whether
    /// the report was taken, as [`SyncOrchestrator::report_outcome`] does.
    pub fn report_crash(&mut self, unit: usize) -> (accepted: bool)
        ensures
            accepted == (unit < old(self)@.units.len() && old(self)@.units[unit as int] is Pending),
            final(self)@ == (OrchestratorView {
                tasks: old(self)@.tasks,
                units: recorded(old(self)@.units, unit as int, UnitView::Crashed),
            }),
    {
        self.result.record_crash(unit)
    }
}

/// The answers of every entry of `answers`, in order.
pub open spec fn answer_views(answers: Seq<VcsAnswers>) -> Seq<AnswersView> {
    answers.map_values(|given: VcsAnswers| given@)
}

/// What a whole run over `tasks` ends with when the client answers the calls
/// for task `i` with `answers[i]`: every task has its unit, every unit has
/// reported, and the report of unit `i` is the outcome of task `i` against
/// its own answers.
pub open spec fn run_result(tasks: Seq<TaskView>, answers: Seq<AnswersView>) -> Seq<UnitView> {
    Seq::new(tasks.len(), |i: int| UnitView::Completed(outcome_of(tasks[i], answers[i])))
}

/// Runs the tasks of `config` to the end against a client that answers the
/// calls for task `i` with `answers[i]`: launches every unit, drives each
/// worker to its outcome, reports the outcomes, and returns the result.
///
/// Returns `None`, and runs nothing, unless there is exactly one entry of
/// `answers` for each task.
pub fn execute(config: Config, answers: &Vec<VcsAnswers>) -> (result: Option<ProcessResult>)
    ensures
        result is Some <==> answers@.len() == config@.len(),
        result matches Some(r) ==> r@ == run_result(config@, answer_views(answers@)),
{
    if answers.len() != config.len() {
        return None;
    }
    let ghost tasks = config@;
    let ghost given = answer_views(answers@);
    let mut orchestrator = SyncOrchestrator::new(config);
    let mut outcomes: Vec<SyncOutcome> = Vec::new();
    loop
        invariant_except_break
            orchestrator@.tasks == tasks,
            orchestrator@.units =~= Seq::new(outcomes@.len(), |i: int| UnitView::Pending),
        invariant
            given == answer_views(answers@),
            given.len() == tasks.len(),
            outcomes@.len() <= tasks.len(),
            forall|i: int|
                0 <= i < outcomes@.len() ==> (#[trigger] outcomes@[i])@ == outcome_of(
                    tasks[i],
                    given[i],
                ),
        ensures
            orchestrator@.tasks == tasks,
            orchestrator@.units =~= Seq::new(tasks.len(), |i: int| UnitView::Pending),
            outcomes@.len() == tasks.len(),
        decreases tasks.len() - outcomes@.len(),
    {
        match orchestrator.next() {
            Action::Launch { unit, worker } => {
                proof {
                    lemma_driven_worker_reaches_outcome(tasks[unit as int], given[unit as int]);
                }
                let outcome = worker.run(&answers[unit]);
                outcomes.push(outcome);
            },
            _ => {
                break ;
            },
        }
    }
    let mut unit: usize = 0;
    while unit < outcomes.len()
        invariant
            unit <= outcomes@.len(),
            outcomes@.len() == tasks.len(),
            given.len() == tasks.len(),
            orchestrator@.tasks == tasks,
            orchestrator@.units =~= Seq::new(
                tasks.len(),
                |i: int|
                    if i < unit {
                        UnitView::Completed(outcome_of(tasks[i], given[i]))
                    } else {
                        UnitView::Pending
                    },
            ),
            forall|i: int|
                0 <= i < outcomes@.len() ==> (#[trigger] outcomes@[i])@ == outcome_of(
                    tasks[i],
                    given[i],
                ),
        decreases outcomes@.len() - unit,
    {
        orchestrator.report_outcome(unit, outcomes[unit].clone());
        unit += 1;
    }
    Some(orchestrator.into_result())
}

} // verus!
