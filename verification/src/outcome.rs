//! What one task can end with.

use vstd::prelude::*;
use vstd::string::StringExecFns;

verus! {

/// A failure reason as a mathematical value.
pub ghost enum ReasonView {
    NotFound,
    RemoteNotFound,
    FetchFailed(Seq<char>),
}

/// Why a task failed.
#[derive(Debug, PartialEq, Eq)]
pub enum FailureReason {
    /// The local path holds no working copy that could be opened.
    NotFound,
    /// The working copy knows no remote of the configured name.
    RemoteNotFound,
    /// The fetch itself failed; the text is the cause that the
    /// version-control client gave.
    FetchFailed(String),
}

impl View for FailureReason {
    type V = ReasonView;

    open spec fn view(&self) -> ReasonView {
        match self {
            FailureReason::NotFound => ReasonView::NotFound,
            FailureReason::RemoteNotFound => ReasonView::RemoteNotFound,
            FailureReason::FetchFailed(cause) => ReasonView::FetchFailed(cause@),
        }
    }
}

/// The words for `reason` in a diagnostic.
pub open spec fn reason_text(reason: ReasonView) -> Seq<char> {
    match reason {
        ReasonView::NotFound => "no working copy found"@,
        ReasonView::RemoteNotFound => "remote not found"@,
        ReasonView::FetchFailed(cause) => "fetch failed: "@ + cause,
    }
}

impl FailureReason {
    /// The reason in words. A failed fetch keeps the client's cause, letter
    /// for letter.
    pub fn describe(&self) -> (text: String)
        ensures
            text@ == reason_text(self@),
    {
        match self {
            FailureReason::NotFound => "no working copy found".to_owned(),
            FailureReason::RemoteNotFound => "remote not found".to_owned(),
            FailureReason::FetchFailed(cause) => {
                let mut text = "fetch failed: ".to_owned();
                text.append(cause.as_str());
                text
            },
        }
    }
}

impl Clone for FailureReason {
    fn clone(&self) -> (copy: Self)
        ensures
            copy@ == self@,
    {
        match self {
            FailureReason::NotFound => FailureReason::NotFound,
            FailureReason::RemoteNotFound => FailureReason::RemoteNotFound,
            FailureReason::FetchFailed(cause) => FailureReason::FetchFailed(cause.clone()),
        }
    }
}

/// A task's outcome as a mathematical value.
pub ghost enum OutcomeView {
    Success,
    Failure { reason: ReasonView, task_identity: Seq<char> },
}

/// The single outcome that a task reports.
#[derive(Debug, PartialEq, Eq)]
pub enum SyncOutcome {
    /// Every step of the task went through.
    Success,
    /// A step failed. `task_identity` is the local path of the task that
    /// failed.
    Failure { reason: FailureReason, task_identity: String },
}

impl View for SyncOutcome {
    type V = OutcomeView;

    open spec fn view(&self) -> OutcomeView {
        match self {
            SyncOutcome::Success => OutcomeView::Success,
            SyncOutcome::Failure { reason, task_identity } => OutcomeView::Failure {
                reason: reason@,
                task_identity: task_identity@,
            },
        }
    }
}

/// The diagnostic for `outcome`: the local path of the task that failed, and
/// why it failed. A success calls for none.
pub open spec fn diagnostic_of(outcome: OutcomeView) -> Option<Seq<char>> {
    match outcome {
        OutcomeView::Success => None,
        OutcomeView::Failure { reason, task_identity } => Some(
            task_identity + ": "@ + reason_text(reason),
        ),
    }
}

impl SyncOutcome {
    /// The line that tells the user of a failure: which repository failed,
    /// named by its local path, and why. `None` for a success.
    pub fn diagnostic(&self) -> (line: Option<String>)
        ensures
            line is Some <==> self@ is Failure,
            match line {
                Some(text) => Some(text@) == diagnostic_of(self@),
                None => diagnostic_of(self@) is None,
            },
    {
        match self {
            SyncOutcome::Success => None,
            SyncOutcome::Failure { reason, task_identity } => {
                let mut text = task_identity.clone();
                text.append(": ");
                let why = reason.describe();
                text.append(why.as_str());
                Some(text)
            },
        }
    }

    /// Whether the task went through.
    pub fn is_success(&self) -> (success: bool)
        ensures
            success == (self@ is Success),
    {
        match self {
            SyncOutcome::Success => true,
            SyncOutcome::Failure { .. } => false,
        }
    }

    /// The local path of the task, where it failed.
    pub fn failed_path(&self) -> (path: Option<&String>)
        ensures
            match self@ {
                OutcomeView::Success => path is None,
                OutcomeView::Failure { task_identity, .. } => path matches Some(p) && p@
                    == task_identity,
            },
    {
        match self {
            SyncOutcome::Success => None,
            SyncOutcome::Failure { task_identity, .. } => Some(task_identity),
        }
    }

    /// Why the task failed, where it did.
    pub fn failure_reason(&self) -> (reason: Option<&FailureReason>)
        ensures
            match self@ {
                OutcomeView::Success => reason is None,
                OutcomeView::Failure { reason: why, .. } => reason matches Some(r) && r@ == why,
            },
    {
        match self {
            SyncOutcome::Success => None,
            SyncOutcome::Failure { reason, .. } => Some(reason),
        }
    }
}

impl Clone for SyncOutcome {
    fn clone(&self) -> (copy: Self)
        ensures
            copy@ == self@,
    {
        match self {
            SyncOutcome::Success => SyncOutcome::Success,
            SyncOutcome::Failure { reason, task_identity } => SyncOutcome::Failure {
                reason: reason.clone(),
                task_identity: task_identity.clone(),
            },
        }
    }
}

} // verus!
