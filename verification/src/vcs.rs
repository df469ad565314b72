//! The version-control client, seen from the core: the calls that a worker
//! asks for, and the answers that come back.
//!
//! The client itself lives outside this crate. A call may block for as long
//! as the network takes; the core only ever sees the request it handed out
//! and, later, the reply.

use vstd::prelude::*;
use crate::task::texts;

verus! {

/// A request as a mathematical value.
pub ghost enum RequestView {
    Open { local_path: Seq<char> },
    ResolveRemote { remote_name: Seq<char> },
    Fetch { branches: Seq<Seq<char>> },
}

/// One call that a worker asks its driver to make.
#[derive(Debug, PartialEq, Eq)]
pub enum VcsRequest {
    /// Open the working copy at `local_path`.
    Open { local_path: String },
    /// Look up the remote called `remote_name` in the working copy that the
    /// preceding `Open` gave.
    ResolveRemote { remote_name: String },
    /// Fetch `branches`, in this order, from the remote that the preceding
    /// `ResolveRemote` gave.
    Fetch { branches: Vec<String> },
}

impl View for VcsRequest {
    type V = RequestView;

    open spec fn view(&self) -> RequestView {
        match self {
            VcsRequest::Open { local_path } => RequestView::Open { local_path: local_path@ },
            VcsRequest::ResolveRemote { remote_name } => RequestView::ResolveRemote {
                remote_name: remote_name@,
            },
            VcsRequest::Fetch { branches } => RequestView::Fetch { branches: texts(branches@) },
        }
    }
}

/// A reply as a mathematical value.
pub ghost enum ReplyView {
    Succeeded,
    Failed(Seq<char>),
}

/// How one call ended.
#[derive(Debug, PartialEq, Eq)]
pub enum VcsReply {
    /// The call went through.
    Succeeded,
    /// The call failed; the text is the cause that the client gave.
    Failed(String),
}

impl View for VcsReply {
    type V = ReplyView;

    open spec fn view(&self) -> ReplyView {
        match self {
            VcsReply::Succeeded => ReplyView::Succeeded,
            VcsReply::Failed(cause) => ReplyView::Failed(cause@),
        }
    }
}

impl VcsReply {
    /// Whether the call went through.
    pub fn succeeded(&self) -> (yes: bool)
        ensures
            yes == (self@ is Succeeded),
    {
        match self {
            VcsReply::Succeeded => true,
            VcsReply::Failed(_) => false,
        }
    }
}

impl Clone for VcsReply {
    fn clone(&self) -> (copy: Self)
        ensures
            copy@ == self@,
    {
        match self {
            VcsReply::Succeeded => VcsReply::Succeeded,
            VcsReply::Failed(cause) => VcsReply::Failed(cause.clone()),
        }
    }
}

/// The client's answers for one task as a mathematical value.
pub ghost struct AnswersView {
    pub open: ReplyView,
    pub resolve_remote: ReplyView,
    pub fetch: ReplyView,
}

impl AnswersView {
    /// Whether the client would let every call go through.
    pub open spec fn all_succeed(self) -> bool {
        self.open is Succeeded && self.resolve_remote is Succeeded && self.fetch is Succeeded
    }

    /// The answer to `request`.
    pub open spec fn answer_to(self, request: RequestView) -> ReplyView {
        match request {
            RequestView::Open { .. } => self.open,
            RequestView::ResolveRemote { .. } => self.resolve_remote,
            RequestView::Fetch { .. } => self.fetch,
        }
    }
}

/// What the client answers for one task: the reply it gives to each of the
/// three calls, should the call be made.
///
/// This is the state of one repository and its remote as far as a worker can
/// tell. A worker that is run twice against the same answers sees the same
/// world twice.
#[derive(Debug, PartialEq, Eq)]
pub struct VcsAnswers {
    pub open: VcsReply,
    pub resolve_remote: VcsReply,
    pub fetch: VcsReply,
}

impl View for VcsAnswers {
    type V = AnswersView;

    open spec fn view(&self) -> AnswersView {
        AnswersView {
            open: self.open@,
            resolve_remote: self.resolve_remote@,
            fetch: self.fetch@,
        }
    }
}

impl VcsAnswers {
    /// The answers of a client for which every call goes through.
    pub fn all_succeed() -> (answers: Self)
        ensures
            answers@.all_succeed(),
    {
        VcsAnswers {
            open: VcsReply::Succeeded,
            resolve_remote: VcsReply::Succeeded,
            fetch: VcsReply::Succeeded,
        }
    }

    /// The reply that the client gives to `request`.
    pub fn answer_to(&self, request: &VcsRequest) -> (reply: VcsReply)
        ensures
            reply@ == self@.answer_to(request@),
    {
        match request {
            VcsRequest::Open { .. } => self.open.clone(),
            VcsRequest::ResolveRemote { .. } => self.resolve_remote.clone(),
            VcsRequest::Fetch { .. } => self.fetch.clone(),
        }
    }
}

impl Clone for VcsAnswers {
    fn clone(&self) -> (copy: Self)
        ensures
            copy@ == self@,
    {
        VcsAnswers {
            open: self.open.clone(),
            resolve_remote: self.resolve_remote.clone(),
            fetch: self.fetch.clone(),
        }
    }
}

} // verus!
