//! What holds of every run, whatever the tasks are and whatever the client
//! answers.

use vstd::prelude::*;
use vstd::set_lib::{lemma_int_range, lemma_subset_equality, set_int_range};
use crate::orchestrator::{after_next, next_action, run_result, ActionView, OrchestratorView};
use crate::outcome::{OutcomeView, ReasonView};
use crate::result::{
    all_succeeded,
    any_crashed,
    any_pending,
    exit_code_of,
    failure_in,
    failures_of,
    is_final,
    recorded,
    severity_of,
    Severity,
    UnitView,
    EXIT_FATAL,
    EXIT_SUCCESS,
    EXIT_TASK_FAILURE,
};
use crate::task::TaskView;
use crate::vcs::AnswersView;
use crate::worker::{failure_of, outcome_of, step_of, ProgressView, WorkerPhase, WorkerView};

verus! {

/// The slots of `n` units that have been launched and have not reported.
pub open spec fn all_pending(n: nat) -> Seq<UnitView> {
    Seq::new(n, |i: int| UnitView::Pending)
}

/// Whether `order` is an order in which `n` units can report: it names every
/// unit once.
pub open spec fn is_arrival_order(order: Seq<int>, n: nat) -> bool {
    &&& order.len() == n
    &&& forall|k: int| 0 <= k < order.len() ==> 0 <= #[trigger] order[k] < n
    &&& order.no_duplicates()
}

/// `units` after the units that `order` names have reported one after the
/// other, unit `u` reporting `reports[u]`.
pub open spec fn after_reports(units: Seq<UnitView>, order: Seq<int>, reports: Seq<UnitView>) -> Seq<
    UnitView,
>
    decreases order.len(),
{
    if order.len() == 0 {
        units
    } else {
        recorded(
            after_reports(units, order.drop_last(), reports),
            order.last(),
            reports[order.last()],
        )
    }
}

/// Whether every call that a worker makes for `task` goes through when the
/// client gives `answers`.
pub open spec fn every_call_succeeds(task: TaskView, answers: AnswersView) -> bool {
    &&& answers.open is Succeeded
    &&& answers.resolve_remote is Succeeded
    &&& task.branches.len() > 0 ==> answers.fetch is Succeeded
}

/// While some units have reported, the slot of each of them holds its
/// report, and every other slot is still pending.
proof fn lemma_reports_so_far(n: nat, order: Seq<int>, reports: Seq<UnitView>)
    requires
        reports.len() == n,
        forall|k: int| 0 <= k < order.len() ==> 0 <= #[trigger] order[k] < n,
        order.no_duplicates(),
    ensures
        after_reports(all_pending(n), order, reports).len() == n,
        forall|u: int|
            0 <= u < n ==> #[trigger] after_reports(all_pending(n), order, reports)[u] == (
            if order.contains(u) {
                reports[u]
            } else {
                UnitView::Pending
            }),
    decreases order.len(),
{
    if order.len() > 0 {
        let earlier = order.drop_last();
        let unit = order.last();
        lemma_reports_so_far(n, earlier, reports);
        let before = after_reports(all_pending(n), earlier, reports);
        let after = after_reports(all_pending(n), order, reports);
        assert(!earlier.contains(unit)) by {
            if earlier.contains(unit) {
                let k = choose|k: int| 0 <= k < earlier.len() && earlier[k] == unit;
                assert(order[k] == order[order.len() - 1]);
            }
        }
        assert(before[unit] is Pending);
        assert(after == before.update(unit, reports[unit]));
        assert forall|u: int| 0 <= u < n implies #[trigger] after[u] == (if order.contains(u) {
            reports[u]
        } else {
            UnitView::Pending
        }) by {
            if u == unit {
                assert(order[order.len() - 1] == u);
            } else if earlier.contains(u) {
                let k = choose|k: int| 0 <= k < earlier.len() && earlier[k] == u;
                assert(order[k] == u);
            } else if order.contains(u) {
                let k = choose|k: int| 0 <= k < order.len() && order[k] == u;
                assert(earlier[k] == u);
            }
        }
    }
}

/// An arrival order of `n` units leaves no unit out.
proof fn lemma_order_names_every_unit(order: Seq<int>, n: nat)
    requires
        is_arrival_order(order, n),
    ensures
        forall|u: int| 0 <= u < n ==> order.contains(u),
{
    let named = order.to_set();
    let units = set_int_range(0, n as int);
    order.unique_seq_to_set();
    lemma_int_range(0, n as int);
    assert(named.subset_of(units)) by {
        assert forall|u: int| named.contains(u) implies units.contains(u) by {
            let k = choose|k: int| 0 <= k < order.len() && order[k] == u;
            assert(0 <= order[k] < n);
        }
    }
    vstd::set_lib::lemma_len_subset(named, units);
    lemma_subset_equality(named, units);
    assert forall|u: int| 0 <= u < n implies order.contains(u) by {
        assert(units.contains(u));
        assert(named.contains(u));
    }
}

/// The order in which the units report is of no account: once each unit has
/// reported, in whatever order, the result holds for each unit what that
/// unit reported.
pub proof fn lemma_arrival_order_is_irrelevant(reports: Seq<UnitView>, order: Seq<int>)
    requires
        is_arrival_order(order, reports.len()),
    ensures
        after_reports(all_pending(reports.len()), order, reports) == reports,
{
    lemma_reports_so_far(reports.len(), order, reports);
    lemma_order_names_every_unit(order, reports.len());
    assert(after_reports(all_pending(reports.len()), order, reports) =~= reports);
}

/// Every failure that a unit reported is in the list of failures: none is
/// passed over, however many there are.
pub proof fn lemma_every_failure_is_listed(units: Seq<UnitView>, i: int)
    requires
        0 <= i < units.len(),
        failure_in(units[i]) is Some,
    ensures
        failures_of(units).contains(failure_in(units[i]).unwrap()),
    decreases units.len(),
{
    let earlier = units.drop_last();
    let listed = failures_of(units);
    let failure = failure_in(units[i]).unwrap();
    if i == units.len() - 1 {
        assert(listed == failures_of(earlier) + seq![failure]);
        assert(listed[listed.len() - 1] == failure);
    } else {
        lemma_every_failure_is_listed(earlier, i);
        let k = choose|k: int|
            0 <= k < failures_of(earlier).len() && failures_of(earlier)[k] == failure;
        assert(listed[k] == failure);
    }
}

/// Nothing is in the list of failures but the failures that units reported.
pub proof fn lemma_only_failures_are_listed(units: Seq<UnitView>, failure: OutcomeView)
    requires
        failures_of(units).contains(failure),
    ensures
        failure is Failure,
        exists|i: int| 0 <= i < units.len() && #[trigger] units[i] == UnitView::Completed(failure),
{
    units.lemma_filter_map_contains(|unit: UnitView| failure_in(unit), failure);
    let unit = choose|unit: UnitView| #[trigger]
        units.contains(unit) && failure_in(unit) == Some(failure);
    let i = choose|i: int| 0 <= i < units.len() && units[i] == unit;
    assert(units[i] == UnitView::Completed(failure));
}

/// A run without tasks succeeds at once: the orchestrator's first action is
/// to leave with status zero, and the result of the run, which is empty, is
/// final and a success.
pub proof fn lemma_empty_run_succeeds()
    ensures
        next_action(OrchestratorView { tasks: Seq::empty(), units: Seq::empty() })
            == (ActionView::Exit { code: 0 }),
        run_result(Seq::empty(), Seq::empty()) == Seq::<UnitView>::empty(),
        is_final(Seq::<UnitView>::empty()),
        severity_of(Seq::<UnitView>::empty()) == Some(Severity::Success),
        exit_code_of(Seq::<UnitView>::empty()) == Some(0i32),
{
    assert(run_result(Seq::empty(), Seq::empty()) =~= Seq::<UnitView>::empty());
}

/// A run is a success, with exit status zero, exactly where every call made
/// for every task goes through. This holds of every list of tasks, long or
/// short and in whatever order it is written, and of every order in which the
/// units report.
pub proof fn lemma_success_is_all_calls_succeeding(
    tasks: Seq<TaskView>,
    answers: Seq<AnswersView>,
    order: Seq<int>,
)
    requires
        answers.len() == tasks.len(),
        is_arrival_order(order, tasks.len()),
    ensures
        ({
            let result = after_reports(
                all_pending(tasks.len()),
                order,
                run_result(tasks, answers),
            );
            let all_go_through = forall|i: int|
                0 <= i < tasks.len() ==> every_call_succeeds(#[trigger] tasks[i], answers[i]);
            &&& is_final(result)
            &&& severity_of(result) == Some(Severity::Success) <==> all_go_through
            &&& exit_code_of(result) == Some(0i32) <==> all_go_through
            &&& !all_go_through ==> exit_code_of(result) == Some(EXIT_TASK_FAILURE)
        }),
{
    let result = run_result(tasks, answers);
    lemma_arrival_order_is_irrelevant(result, order);
    let all_go_through = forall|i: int|
        0 <= i < tasks.len() ==> every_call_succeeds(#[trigger] tasks[i], answers[i]);
    assert(!any_crashed(result));
    assert(!any_pending(result));
    if all_go_through {
        assert forall|i: int| 0 <= i < result.len() implies result[i] == UnitView::Completed(
            OutcomeView::Success,
        ) by {
            assert(every_call_succeeds(tasks[i], answers[i]));
        }
    } else {
        let i = choose|i: int|
            0 <= i < tasks.len() && !every_call_succeeds(#[trigger] tasks[i], answers[i]);
        assert(result[i] != UnitView::Completed(OutcomeView::Success));
    }
}

/// Where every call goes through for every task, the run is a success.
pub proof fn lemma_all_successes_give_success(
    tasks: Seq<TaskView>,
    answers: Seq<AnswersView>,
    order: Seq<int>,
)
    requires
        answers.len() == tasks.len(),
        is_arrival_order(order, tasks.len()),
        forall|i: int| 0 <= i < answers.len() ==> (#[trigger] answers[i]).all_succeed(),
    ensures
        severity_of(after_reports(all_pending(tasks.len()), order, run_result(tasks, answers)))
            == Some(Severity::Success),
        exit_code_of(after_reports(all_pending(tasks.len()), order, run_result(tasks, answers)))
            == Some(EXIT_SUCCESS),
{
    lemma_success_is_all_calls_succeeding(tasks, answers, order);
    assert forall|i: int| 0 <= i < tasks.len() implies every_call_succeeds(
        #[trigger] tasks[i],
        answers[i],
    ) by {
        assert(answers[i].all_succeed());
    }
}

/// A task whose working copy cannot be opened fails as not found, and fails
/// alone: every task has its report, and the report of each other task is
/// what that task's own calls lead to. It would be the same had the failing
/// task been another task, or had it met with other answers.
pub proof fn lemma_missing_repository_fails_alone(
    tasks: Seq<TaskView>,
    answers: Seq<AnswersView>,
    i: int,
    other_task: TaskView,
    other_answers: AnswersView,
)
    requires
        answers.len() == tasks.len(),
        0 <= i < tasks.len(),
        answers[i].open is Failed,
    ensures
        run_result(tasks, answers).len() == tasks.len(),
        run_result(tasks, answers)[i] == UnitView::Completed(
            failure_of(tasks[i], ReasonView::NotFound),
        ),
        step_of(WorkerView { task: tasks[i], phase: WorkerPhase::Opening }, answers[i].open)
            == ProgressView::Finished(failure_of(tasks[i], ReasonView::NotFound)),
        forall|j: int|
            0 <= j < tasks.len() && j != i ==> #[trigger] run_result(tasks, answers)[j]
                == UnitView::Completed(outcome_of(tasks[j], answers[j])),
        forall|j: int|
            0 <= j < tasks.len() && j != i ==> #[trigger] run_result(
                tasks.update(i, other_task),
                answers.update(i, other_answers),
            )[j] == run_result(tasks, answers)[j],
        failures_of(run_result(tasks, answers)).contains(failure_of(tasks[i], ReasonView::NotFound)),
{
    lemma_every_failure_is_listed(run_result(tasks, answers), i);
}

/// A task that names no branch succeeds as soon as its working copy opens
/// and its remote is found: nothing is fetched, so nothing that the client
/// would say to a fetch can make the task fail.
pub proof fn lemma_nothing_to_fetch_succeeds(task: TaskView, answers: AnswersView)
    requires
        task.branches.len() == 0,
        answers.open is Succeeded,
        answers.resolve_remote is Succeeded,
    ensures
        outcome_of(task, answers) == OutcomeView::Success,
        step_of(WorkerView { task, phase: WorkerPhase::Resolving }, answers.resolve_remote)
            == ProgressView::Finished(OutcomeView::Success),
{
}

/// Two runs over the same tasks against a client that gives the same answers
/// end with the same result, and so with the same exit status and the same
/// failures, in whatever order the units of either run report.
pub proof fn lemma_rerun_gives_same_result(
    tasks: Seq<TaskView>,
    answers: Seq<AnswersView>,
    first: Seq<int>,
    second: Seq<int>,
)
    requires
        answers.len() == tasks.len(),
        is_arrival_order(first, tasks.len()),
        is_arrival_order(second, tasks.len()),
    ensures
        after_reports(all_pending(tasks.len()), first, run_result(tasks, answers))
            == after_reports(all_pending(tasks.len()), second, run_result(tasks, answers)),
        after_reports(all_pending(tasks.len()), first, run_result(tasks, answers)) == run_result(
            tasks,
            answers,
        ),
{
    lemma_arrival_order_is_irrelevant(run_result(tasks, answers), first);
    lemma_arrival_order_is_irrelevant(run_result(tasks, answers), second);
}

/// The orchestrator never has more units than tasks: a launch keeps it so,
/// and so does every report.
pub proof fn lemma_units_stay_within_tasks(o: OrchestratorView, unit: int, status: UnitView)
    requires
        o.units.len() <= o.tasks.len(),
    ensures
        after_next(o).units.len() <= after_next(o).tasks.len(),
        recorded(o.units, unit, status).len() == o.units.len(),
{
}

/// The orchestrator leaves only when the result is final, and then with the
/// result's exit status. That status is zero exactly where every task has
/// its unit and every unit has reported success; a crash gives the status of
/// a run that was given up, which no number of failed tasks gives.
pub proof fn lemma_exit_is_settled(o: OrchestratorView)
    requires
        o.units.len() <= o.tasks.len(),
    ensures
        (next_action(o) matches ActionView::Exit { code } ==> {
            &&& is_final(o.units)
            &&& exit_code_of(o.units) == Some(code)
            &&& code == 0 <==> o.units.len() == o.tasks.len() && !any_crashed(o.units)
                && all_succeeded(o.units)
            &&& code == EXIT_FATAL <==> any_crashed(o.units)
        }),
        next_action(o) is Await ==> o.units.len() == o.tasks.len() && any_pending(o.units),
        next_action(o) is Launch ==> o.units.len() < o.tasks.len(),
{
}

} // verus!
