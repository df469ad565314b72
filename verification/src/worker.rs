//! The sync worker: carries one task through the version-control client and
//! reports a single outcome.
//!
//! A worker never calls the client. It says which call it is waiting for
//! ([`SyncWorker::request`]) and is told how that call ended
//! ([`SyncWorker::step`]). The order is fixed: open the working copy, resolve
//! the remote, fetch the branches. The first call that fails ends the task;
//! nothing is retried and nothing is rolled back.

use vstd::prelude::*;
use crate::outcome::{FailureReason, OutcomeView, ReasonView, SyncOutcome};
use crate::task::{GitRepository, TaskView};
use crate::vcs::{AnswersView, ReplyView, RequestView, VcsAnswers, VcsReply, VcsRequest};

verus! {

/// The call that a worker is waiting for.
#[derive(Debug, Clone, Copy, PartialEq, Eq, Structural)]
pub enum WorkerPhase {
    /// The working copy is being opened.
    Opening,
    /// The working copy is open; the remote is being resolved.
    Resolving,
    /// The remote is known; the branches are being fetched.
    Fetching,
}

/// A worker as a mathematical value.
pub ghost struct WorkerView {
    pub task: TaskView,
    pub phase: WorkerPhase,
}

/// What a step leads to, as a mathematical value.
pub ghost enum ProgressView {
    Pending(WorkerView),
    Finished(OutcomeView),
}

/// The failure of `task` for `reason`.
pub open spec fn failure_of(task: TaskView, reason: ReasonView) -> OutcomeView {
    OutcomeView::Failure { reason, task_identity: task.local_path }
}

/// The call that a worker for `task` waits for in `phase`.
pub open spec fn request_of(task: TaskView, phase: WorkerPhase) -> RequestView {
    match phase {
        WorkerPhase::Opening => RequestView::Open { local_path: task.local_path },
        WorkerPhase::Resolving => RequestView::ResolveRemote { remote_name: task.remote },
        WorkerPhase::Fetching => RequestView::Fetch { branches: task.branches },
    }
}

/// Where `worker` goes when the call it waits for ends with `reply`.
///
/// A failed call ends the task with the failure that belongs to the phase.
/// A task that names no branch is through once its remote is resolved: there
/// is nothing to fetch, so no fetch is asked for.
pub open spec fn step_of(worker: WorkerView, reply: ReplyView) -> ProgressView {
    match (worker.phase, reply) {
        (WorkerPhase::Opening, ReplyView::Failed(_)) => ProgressView::Finished(
            failure_of(worker.task, ReasonView::NotFound),
        ),
        (WorkerPhase::Opening, ReplyView::Succeeded) => ProgressView::Pending(
            WorkerView { task: worker.task, phase: WorkerPhase::Resolving },
        ),
        (WorkerPhase::Resolving, ReplyView::Failed(_)) => ProgressView::Finished(
            failure_of(worker.task, ReasonView::RemoteNotFound),
        ),
        (WorkerPhase::Resolving, ReplyView::Succeeded) => if worker.task.branches.len() == 0 {
            ProgressView::Finished(OutcomeView::Success)
        } else {
            ProgressView::Pending(WorkerView { task: worker.task, phase: WorkerPhase::Fetching })
        },
        (WorkerPhase::Fetching, ReplyView::Failed(cause)) => ProgressView::Finished(
            failure_of(worker.task, ReasonView::FetchFailed(cause)),
        ),
        (WorkerPhase::Fetching, ReplyView::Succeeded) => ProgressView::Finished(
            OutcomeView::Success,
        ),
    }
}

/// The outcome of `task` against a client that gives `answers`.
pub open spec fn outcome_of(task: TaskView, answers: AnswersView) -> OutcomeView {
    if answers.open is Failed {
        failure_of(task, ReasonView::NotFound)
    } else if answers.resolve_remote is Failed {
        failure_of(task, ReasonView::RemoteNotFound)
    } else if task.branches.len() == 0 {
        OutcomeView::Success
    } else {
        match answers.fetch {
            ReplyView::Succeeded => OutcomeView::Success,
            ReplyView::Failed(cause) => failure_of(task, ReasonView::FetchFailed(cause)),
        }
    }
}

/// The calls that a worker in `phase` may still make, itself included.
pub open spec fn calls_left(phase: WorkerPhase) -> nat {
    match phase {
        WorkerPhase::Opening => 3,
        WorkerPhase::Resolving => 2,
        WorkerPhase::Fetching => 1,
    }
}

/// The outcome that `worker` reaches from where it stands when each call it
/// asks for is answered from `answers`.
pub open spec fn outcome_from(worker: WorkerView, answers: AnswersView) -> OutcomeView
    decreases calls_left(worker.phase),
{
    match step_of(worker, answers.answer_to(request_of(worker.task, worker.phase))) {
        ProgressView::Finished(outcome) => outcome,
        ProgressView::Pending(next) => outcome_from(next, answers),
    }
}

/// One task on its way through the client.
#[derive(Debug, PartialEq, Eq)]
pub struct SyncWorker {
    task: GitRepository,
    phase: WorkerPhase,
}

/// What a step leads to: the worker goes on, or the task has its outcome.
#[derive(Debug, PartialEq, Eq)]
pub enum Progress {
    /// The worker waits for its next call.
    Pending(SyncWorker),
    /// The task is over.
    Finished(SyncOutcome),
}

impl View for SyncWorker {
    type V = WorkerView;

    closed spec fn view(&self) -> WorkerView {
        WorkerView { task: self.task@, phase: self.phase }
    }
}

impl View for Progress {
    type V = ProgressView;

    open spec fn view(&self) -> ProgressView {
        match self {
            Progress::Pending(worker) => ProgressView::Pending(worker@),
            Progress::Finished(outcome) => ProgressView::Finished(outcome@),
        }
    }
}

impl SyncWorker {
    /// A worker fetches only where there is something to fetch.
    #[verifier::type_invariant]
    spec fn fetches_something(self) -> bool {
        self.phase is Fetching ==> self.task@.branches.len() > 0
    }

    /// A worker that is about to start on `task`.
    pub fn new(task: GitRepository) -> (worker: Self)
        ensures
            worker@ == (WorkerView { task: task@, phase: WorkerPhase::Opening }),
    {
        SyncWorker { task, phase: WorkerPhase::Opening }
    }

    /// The task that the worker carries.
    pub fn task(&self) -> (task: &GitRepository)
        ensures
            task@ == self@.task,
    {
        &self.task
    }

    /// The call that the worker waits for.
    pub fn phase(&self) -> (phase: WorkerPhase)
        ensures
            phase == self@.phase,
    {
        self.phase
    }

    /// The call that the driver is to make next, with its arguments. A fetch
    /// is never asked for with an empty list of branches.
    pub fn request(&self) -> (request: VcsRequest)
        ensures
            request@ == request_of(self@.task, self@.phase),
            request@ matches RequestView::Fetch { branches } ==> branches.len() > 0,
    {
        proof {
            use_type_invariant(self);
        }
        match self.phase {
            WorkerPhase::Opening => VcsRequest::Open { local_path: self.task.local_path().clone() },
            WorkerPhase::Resolving => VcsRequest::ResolveRemote {
                remote_name: self.task.remote().clone(),
            },
            WorkerPhase::Fetching => {
                let configured = self.task.fetch_branches();
                let branches = configured.clone();
                proof {
                    assert(branches@ =~= configured@);
                }
                VcsRequest::Fetch { branches }
            },
        }
    }

    /// Takes the reply to the call that the worker waited for, and says where
    /// that leaves the task.
    pub fn step(self, reply: VcsReply) -> (progress: Progress)
        ensures
            progress@ == step_of(self@, reply@),
    {
        match self.phase {
            WorkerPhase::Opening => match reply {
                VcsReply::Succeeded => Progress::Pending(
                    SyncWorker { task: self.task, phase: WorkerPhase::Resolving },
                ),
                VcsReply::Failed(_) => Progress::Finished(
                    fail(&self.task, FailureReason::NotFound),
                ),
            },
            WorkerPhase::Resolving => match reply {
                VcsReply::Succeeded => if self.task.fetches_nothing() {
                    Progress::Finished(SyncOutcome::Success)
                } else {
                    Progress::Pending(SyncWorker { task: self.task, phase: WorkerPhase::Fetching })
                },
                VcsReply::Failed(_) => Progress::Finished(
                    fail(&self.task, FailureReason::RemoteNotFound),
                ),
            },
            WorkerPhase::Fetching => match reply {
                VcsReply::Succeeded => Progress::Finished(SyncOutcome::Success),
                VcsReply::Failed(cause) => Progress::Finished(
                    fail(&self.task, FailureReason::FetchFailed(cause)),
                ),
            },
        }
    }

    /// Drives the worker from where it stands to the end of its task,
    /// answering each call it asks for from `answers`.
    pub fn run(self, answers: &VcsAnswers) -> (outcome: SyncOutcome)
        ensures
            outcome@ == outcome_from(self@, answers@),
    {
        let mut worker = self;
        loop
            invariant
                outcome_from(worker@, answers@) == outcome_from(self@, answers@),
            decreases calls_left(worker@.phase),
        {
            let request = worker.request();
            let reply = answers.answer_to(&request);
            match worker.step(reply) {
                Progress::Pending(next) => {
                    worker = next;
                },
                Progress::Finished(outcome) => {
                    return outcome;
                },
            }
        }
    }
}

/// The failure of `task` for `reason`, named by the task's local path.
fn fail(task: &GitRepository, reason: FailureReason) -> (outcome: SyncOutcome)
    ensures
        outcome@ == failure_of(task@, reason@),
{
    SyncOutcome::Failure { reason, task_identity: task.local_path().clone() }
}

/// Carries `task` through a client that gives `answers`: makes each call that
/// the worker asks for, in turn, until the task has its outcome.
pub fn run(task: GitRepository, answers: &VcsAnswers) -> (outcome: SyncOutcome)
    ensures
        outcome@ == outcome_of(task@, answers@),
{
    proof {
        lemma_driven_worker_reaches_outcome(task@, answers@);
    }
    SyncWorker::new(task).run(answers)
}

/// A worker that is driven from its start, call by call, against a client
/// that gives `answers` ends with `outcome_of`.
pub proof fn lemma_driven_worker_reaches_outcome(task: TaskView, answers: AnswersView)
    ensures
        outcome_from(WorkerView { task, phase: WorkerPhase::Opening }, answers) == outcome_of(
            task,
            answers,
        ),
{
    reveal_with_fuel(outcome_from, 3);
}

} // verus!
