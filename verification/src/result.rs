//! The process result: what is known of every unit of work, and what that
//! adds up to.
//!
//! The result starts empty. The orchestrator adds one slot for each unit it
//! launches, and fills the slot when the unit reports. Reports may come in
//! any order; a slot is filled at most once. The result is final once every
//! slot is filled, or as soon as one unit has crashed.

use vstd::prelude::*;
use crate::outcome::{OutcomeView, SyncOutcome};

verus! {

/// A unit's state as a mathematical value.
pub ghost enum UnitView {
    Pending,
    Completed(OutcomeView),
    Crashed,
}

/// What is known of one unit of work.
#[derive(Debug, PartialEq, Eq)]
pub enum UnitStatus {
    /// The unit was launched and has not reported yet.
    Pending,
    /// The unit's worker returned this outcome.
    Completed(SyncOutcome),
    /// The unit ended without an outcome.
    Crashed,
}

impl View for UnitStatus {
    type V = UnitView;

    open spec fn view(&self) -> UnitView {
        match self {
            UnitStatus::Pending => UnitView::Pending,
            UnitStatus::Completed(outcome) => UnitView::Completed(outcome@),
            UnitStatus::Crashed => UnitView::Crashed,
        }
    }
}

/// How a finished run is to be judged.
#[derive(Debug, Clone, Copy, PartialEq, Eq, Structural)]
pub enum Severity {
    /// Every task succeeded.
    Success,
    /// Every unit reported, and at least one task failed.
    TaskFailure,
    /// A unit crashed. This is worse than any number of failed tasks.
    Fatal,
}

/// The exit status of a run in which every task succeeded.
pub const EXIT_SUCCESS: i32 = 0;

/// The exit status of a run in which a task failed and no unit crashed.
pub const EXIT_TASK_FAILURE: i32 = 1;

/// The exit status of a run that had to be given up.
pub const EXIT_FATAL: i32 = 101;

/// The exit status that goes with `severity`.
pub open spec fn exit_status_of(severity: Severity) -> i32 {
    match severity {
        Severity::Success => EXIT_SUCCESS,
        Severity::TaskFailure => EXIT_TASK_FAILURE,
        Severity::Fatal => EXIT_FATAL,
    }
}

/// The exit status that goes with `severity`: zero for success and for
/// nothing else.
pub fn exit_status(severity: Severity) -> (code: i32)
    ensures
        code == exit_status_of(severity),
        code == 0 <==> severity == Severity::Success,
{
    match severity {
        Severity::Success => EXIT_SUCCESS,
        Severity::TaskFailure => EXIT_TASK_FAILURE,
        Severity::Fatal => EXIT_FATAL,
    }
}

/// The state of every unit of `units`, in order.
pub open spec fn unit_views(units: Seq<UnitStatus>) -> Seq<UnitView> {
    units.map_values(|unit: UnitStatus| unit@)
}

/// Whether some unit has crashed.
pub open spec fn any_crashed(units: Seq<UnitView>) -> bool {
    exists|i: int| 0 <= i < units.len() && units[i] is Crashed
}

/// Whether some unit has not reported yet.
pub open spec fn any_pending(units: Seq<UnitView>) -> bool {
    exists|i: int| 0 <= i < units.len() && units[i] is Pending
}

/// Whether every unit has reported success.
pub open spec fn all_succeeded(units: Seq<UnitView>) -> bool {
    forall|i: int| 0 <= i < units.len() ==> units[i] == UnitView::Completed(OutcomeView::Success)
}

/// Whether nothing more is waited for: every unit has reported, or one has
/// crashed.
pub open spec fn is_final(units: Seq<UnitView>) -> bool {
    any_crashed(units) || !any_pending(units)
}

/// The judgement on `units`, once it is final. Success is the conjunction of
/// all the tasks' successes; one crash outweighs everything else.
pub open spec fn severity_of(units: Seq<UnitView>) -> Option<Severity> {
    if any_crashed(units) {
        Some(Severity::Fatal)
    } else if any_pending(units) {
        None
    } else if all_succeeded(units) {
        Some(Severity::Success)
    } else {
        Some(Severity::TaskFailure)
    }
}

/// The exit status that goes with `units`, once it is final.
pub open spec fn exit_code_of(units: Seq<UnitView>) -> Option<i32> {
    match severity_of(units) {
        Some(severity) => Some(exit_status_of(severity)),
        None => None,
    }
}

/// The failure that `unit` reported, if it reported one.
pub open spec fn failure_in(unit: UnitView) -> Option<OutcomeView> {
    match unit {
        UnitView::Completed(OutcomeView::Failure { reason, task_identity }) => Some(
            OutcomeView::Failure { reason, task_identity },
        ),
        _ => None,
    }
}

/// Every failure that was reported, in the order of the units.
pub open spec fn failures_of(units: Seq<UnitView>) -> Seq<OutcomeView> {
    units.filter_map(|unit: UnitView| failure_in(unit))
}

/// `units` after `unit` has reported `status`. Only a unit that exists and is
/// still pending can report; any other report changes nothing.
pub open spec fn recorded(units: Seq<UnitView>, unit: int, status: UnitView) -> Seq<UnitView> {
    if 0 <= unit < units.len() && units[unit] is Pending {
        units.update(unit, status)
    } else {
        units
    }
}

/// The text of every outcome of `outcomes`, in order.
pub open spec fn outcome_views(outcomes: Seq<SyncOutcome>) -> Seq<OutcomeView> {
    outcomes.map_values(|outcome: SyncOutcome| outcome@)
}

/// The aggregate of all the units' reports.
#[derive(Debug, PartialEq, Eq)]
pub struct ProcessResult {
    units: Vec<UnitStatus>,
}

impl View for ProcessResult {
    type V = Seq<UnitView>;

    closed spec fn view(&self) -> Seq<UnitView> {
        unit_views(self.units@)
    }
}

impl ProcessResult {
    /// The result of a run that has launched nothing yet.
    pub fn new() -> (result: Self)
        ensures
            result@ == Seq::<UnitView>::empty(),
    {
        let result = ProcessResult { units: Vec::new() };
        proof {
            assert(result@ =~= Seq::<UnitView>::empty());
        }
        result
    }

    /// Adds the slot of a unit that has just been launched, and returns the
    /// unit's number. Units are numbered from zero in the order in which they
    /// are added.
    pub fn add_unit(&mut self) -> (unit: usize)
        ensures
            unit == old(self)@.len(),
            final(self)@ == old(self)@.push(UnitView::Pending),
    {
        let unit = self.units.len();
        self.units.push(UnitStatus::Pending);
        proof {
            assert(self@ =~= old(self)@.push(UnitView::Pending));
        }
        unit
    }

    /// How many units have been launched.
    pub fn len(&self) -> (n: usize)
        ensures
            n == self@.len(),
    {
        self.units.len()
    }

    /// What is known of unit `unit`, if there is such a unit.
    pub fn status(&self, unit: usize) -> (status: Option<&UnitStatus>)
        ensures
            status is Some <==> unit < self@.len(),
            status matches Some(s) ==> s@ == self@[unit as int],
    {
        if unit < self.units.len() {
            Some(&self.units[unit])
        } else {
            None
        }
    }

    /// Fills the slot of `unit` with `status`, where the unit exists and is
    /// still pending.
    fn fill(&mut self, unit: usize, status: UnitStatus) -> (accepted: bool)
        ensures
            accepted == (unit < old(self)@.len() && old(self)@[unit as int] is Pending),
            final(self)@ == recorded(old(self)@, unit as int, status@),
    {
        if unit >= self.units.len() {
            return false;
        }
        let pending = match &self.units[unit] {
            UnitStatus::Pending => true,
            _ => false,
        };
        if !pending {
            return false;
        }
        self.units.set(unit, status);
        proof {
            assert(self@ =~= old(self)@.update(unit as int, status@));
        }
        true
    }

    /// Records the outcome that the worker of `unit` returned. Returns whether
    /// the report was taken: it is not where there is no such unit, or where
    /// the unit has reported before. A report that is not taken changes
    /// nothing.
    pub fn record(&mut self, unit: usize, outcome: SyncOutcome) -> (accepted: bool)
        ensures
            accepted == (unit < old(self)@.len() && old(self)@[unit as int] is Pending),
            final(self)@ == recorded(old(self)@, unit as int, UnitView::Completed(outcome@)),
    {
        self.fill(unit, UnitStatus::Completed(outcome))
    }

    /// Records that `unit` ended without an outcome. Returns whether the
    /// report was taken, as [`ProcessResult::record`] does.
    pub fn record_crash(&mut self, unit: usize) -> (accepted: bool)
        ensures
            accepted == (unit < old(self)@.len() && old(self)@[unit as int] is Pending),
            final(self)@ == recorded(old(self)@, unit as int, UnitView::Crashed),
    {
        self.fill(unit, UnitStatus::Crashed)
    }

    /// Whether some unit has crashed.
    pub fn has_crash(&self) -> (crashed: bool)
        ensures
            crashed == any_crashed(self@),
    {
        let mut i: usize = 0;
        while i < self.units.len()
            invariant
                i <= self.units.len(),
                forall|j: int| 0 <= j < i ==> !(self@[j] is Crashed),
            decreases self.units.len() - i,
        {
            match &self.units[i] {
                UnitStatus::Crashed => {
                    assert(self@[i as int] is Crashed);
                    return true;
                },
                _ => {},
            }
            i += 1;
        }
        false
    }

    /// Whether some unit has not reported yet.
    pub fn has_pending(&self) -> (pending: bool)
        ensures
            pending == any_pending(self@),
    {
        let mut i: usize = 0;
        while i < self.units.len()
            invariant
                i <= self.units.len(),
                forall|j: int| 0 <= j < i ==> !(self@[j] is Pending),
            decreases self.units.len() - i,
        {
            match &self.units[i] {
                UnitStatus::Pending => {
                    assert(self@[i as int] is Pending);
                    return true;
                },
                _ => {},
            }
            i += 1;
        }
        false
    }

    /// Whether every unit has reported success. This holds of a run without
    /// units.
    pub fn all_succeeded(&self) -> (yes: bool)
        ensures
            yes == all_succeeded(self@),
    {
        let mut i: usize = 0;
        while i < self.units.len()
            invariant
                i <= self.units.len(),
                forall|j: int|
                    0 <= j < i ==> self@[j] == UnitView::Completed(OutcomeView::Success),
            decreases self.units.len() - i,
        {
            let succeeded = match &self.units[i] {
                UnitStatus::Completed(outcome) => outcome.is_success(),
                _ => false,
            };
            if !succeeded {
                assert(self@[i as int] != UnitView::Completed(OutcomeView::Success));
                return false;
            }
            i += 1;
        }
        true
    }

    /// Whether nothing more is waited for.
    pub fn is_final(&self) -> (yes: bool)
        ensures
            yes == is_final(self@),
    {
        self.has_crash() || !self.has_pending()
    }

    /// The judgement on the run, once the result is final; `None` before.
    pub fn severity(&self) -> (severity: Option<Severity>)
        ensures
            severity == severity_of(self@),
            severity is Some <==> is_final(self@),
    {
        if self.has_crash() {
            Some(Severity::Fatal)
        } else if self.has_pending() {
            None
        } else if self.all_succeeded() {
            Some(Severity::Success)
        } else {
            Some(Severity::TaskFailure)
        }
    }

    /// The status with which the process is to exit, once the result is
    /// final; `None` before. It is zero where every task succeeded, and
    /// nowhere else.
    pub fn exit_code(&self) -> (code: Option<i32>)
        ensures
            code is Some <==> is_final(self@),
            code == exit_code_of(self@),
            code == Some(0i32) <==> !any_crashed(self@) && all_succeeded(self@),
    {
        match self.severity() {
            Some(severity) => Some(exit_status(severity)),
            None => None,
        }
    }

    /// Every failure that was reported, in the order of the units. None is
    /// left out, and nothing else is in the list.
    pub fn failures(&self) -> (failures: Vec<SyncOutcome>)
        ensures
            outcome_views(failures@) == failures_of(self@),
    {
        let mut failures: Vec<SyncOutcome> = Vec::new();
        let mut i: usize = 0;
        proof {
            assert(self@.take(0) =~= Seq::<UnitView>::empty());
        }
        while i < self.units.len()
            invariant
                i <= self.units.len(),
                outcome_views(failures@) =~= failures_of(self@.take(i as int)),
            decreases self.units.len() - i,
        {
            proof {
                self@.lemma_filter_map_take_succ(|unit: UnitView| failure_in(unit), i as int);
            }
            match &self.units[i] {
                UnitStatus::Completed(outcome) => {
                    if !outcome.is_success() {
                        failures.push(outcome.clone());
                    }
                },
                _ => {},
            }
            i += 1;
        }
        proof {
            assert(self@.take(i as int) =~= self@);
        }
        failures
    }

    /// The numbers of the units that crashed, in rising order.
    pub fn crashed_units(&self) -> (crashed: Vec<usize>)
        ensures
            forall|k: int| 0 <= k < crashed@.len() ==> crashed@[k] < self@.len() && self@[crashed@[k] as int] is Crashed,
            forall|u: int| 0 <= u < self@.len() && self@[u] is Crashed ==> crashed@.contains(u as usize),
            forall|k: int, l: int| 0 <= k < l < crashed@.len() ==> crashed@[k] < crashed@[l],
    {
        let mut crashed: Vec<usize> = Vec::new();
        let mut i: usize = 0;
        while i < self.units.len()
            invariant
                i <= self.units.len(),
                forall|k: int| 0 <= k < crashed@.len() ==> crashed@[k] < i && self@[crashed@[k] as int] is Crashed,
                forall|u: int| 0 <= u < i && self@[u] is Crashed ==> crashed@.contains(u as usize),
                forall|k: int, l: int| 0 <= k < l < crashed@.len() ==> crashed@[k] < crashed@[l],
            decreases self.units.len() - i,
        {
            match &self.units[i] {
                UnitStatus::Crashed => {
                    let ghost before = crashed@;
                    crashed.push(i);
                    proof {
                        assert(crashed@[before.len() as int] == i);
                        assert forall|u: int| 0 <= u < i + 1 && self@[u] is Crashed implies crashed@.contains(u as usize) by {
                            if u < i {
                                let k = choose|k: int| 0 <= k < before.len() && before[k] == u as usize;
                                assert(crashed@[k] == u as usize);
                            }
                        }
                    }
                },
                _ => {},
            }
            i += 1;
        }
        crashed
    }
}

} // verus!
