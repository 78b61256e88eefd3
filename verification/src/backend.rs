//! What the controller asks of the repository, and what the repository answers.
//!
//! The controller never touches the repository. It leaves a request in its
//! state; whoever drives it carries the request out and hands the reply back.

use vstd::prelude::*;
use crate::types::commit_info::{CommitInfo, CommitView};
use crate::types::diff_line::{PatchLine, PatchLineView};
use crate::types::status_info::{StatusInfo, StatusView};

verus! {

/// A failed call into the repository, with the words that describe the failure.
#[derive(Clone, Debug, PartialEq, Eq)]
pub struct BackendError {
    pub description: String,
}

impl View for BackendError {
    type V = Seq<char>;

    open spec fn view(&self) -> Seq<char> {
        self.description@
    }
}

/// The item whose diff the diff panel shows.
#[derive(Clone, Debug, PartialEq, Eq)]
pub enum DiffTarget {
    /// The commit with this id, against its first parent.
    Commit(String),
    /// The working tree against the index, for this path alone.
    File(String),
}

/// The mathematical content of a [`DiffTarget`].
pub enum DiffTargetView {
    Commit(Seq<char>),
    File(Seq<char>),
}

impl View for DiffTarget {
    type V = DiffTargetView;

    open spec fn view(&self) -> DiffTargetView {
        match self {
            DiffTarget::Commit(id) => DiffTargetView::Commit(id@),
            DiffTarget::File(path) => DiffTargetView::File(path@),
        }
    }
}

/// The mathematical content of a target that may be absent.
pub open spec fn target_view(target: Option<DiffTarget>) -> Option<DiffTargetView> {
    match target {
        Some(t) => Some(t@),
        None => None,
    }
}

/// One piece of work for the repository.
#[derive(Clone, Debug, PartialEq, Eq)]
pub enum BackendRequest {
    /// Compute the diff of the target.
    Diff(DiffTarget),
    /// Stage the path if it is unstaged, unstage it if it is staged.
    ToggleStage(String),
    /// Commit the index with this message.
    Commit(String),
    /// Read the commit history, newest first.
    FetchLog,
    /// Read the status of the working tree.
    FetchStatus,
    /// Start pushing the current branch, without waiting for the push to end.
    Push,
}

/// The mathematical content of a [`BackendRequest`].
pub enum RequestView {
    Diff(DiffTargetView),
    ToggleStage(Seq<char>),
    Commit(Seq<char>),
    FetchLog,
    FetchStatus,
    Push,
}

impl View for BackendRequest {
    type V = RequestView;

    open spec fn view(&self) -> RequestView {
        match self {
            BackendRequest::Diff(target) => RequestView::Diff(target@),
            BackendRequest::ToggleStage(path) => RequestView::ToggleStage(path@),
            BackendRequest::Commit(message) => RequestView::Commit(message@),
            BackendRequest::FetchLog => RequestView::FetchLog,
            BackendRequest::FetchStatus => RequestView::FetchStatus,
            BackendRequest::Push => RequestView::Push,
        }
    }
}

/// The mathematical content of a request that may be absent.
pub open spec fn request_view(request: Option<BackendRequest>) -> Option<RequestView> {
    match request {
        Some(r) => Some(r@),
        None => None,
    }
}

/// The outcome of one piece of work, named after the request that it answers.
#[derive(Debug, PartialEq, Eq)]
pub enum BackendReply {
    Diff(Result<Vec<PatchLine>, BackendError>),
    StageToggled(Result<(), BackendError>),
    Committed(Result<(), BackendError>),
    Log(Result<Vec<CommitInfo>, BackendError>),
    Status(Result<Vec<StatusInfo>, BackendError>),
    /// The push is under way; its outcome arrives later, as a message.
    PushStarted,
}

/// The mathematical content of a [`BackendReply`]. Of a failed staging or
/// commit only the failure itself is kept.
pub enum ReplyView {
    Diff(Result<Seq<PatchLineView>, Seq<char>>),
    StageToggled(bool),
    Committed(bool),
    Log(Result<Seq<CommitView>, Seq<char>>),
    Status(Result<Seq<StatusView>, Seq<char>>),
    PushStarted,
}

/// The mathematical content of the outcome of a diff.
pub open spec fn diff_outcome_view(outcome: Result<Vec<PatchLine>, BackendError>) -> Result<
    Seq<PatchLineView>,
    Seq<char>,
> {
    match outcome {
        Ok(lines) => Ok(lines.deep_view()),
        Err(e) => Err(e@),
    }
}

/// The mathematical content of the outcome of reading the history.
pub open spec fn log_outcome_view(outcome: Result<Vec<CommitInfo>, BackendError>) -> Result<
    Seq<CommitView>,
    Seq<char>,
> {
    match outcome {
        Ok(commits) => Ok(commits.deep_view()),
        Err(e) => Err(e@),
    }
}

/// The mathematical content of the outcome of reading the status.
pub open spec fn status_outcome_view(outcome: Result<Vec<StatusInfo>, BackendError>) -> Result<
    Seq<StatusView>,
    Seq<char>,
> {
    match outcome {
        Ok(entries) => Ok(entries.deep_view()),
        Err(e) => Err(e@),
    }
}

impl View for BackendReply {
    type V = ReplyView;

    open spec fn view(&self) -> ReplyView {
        match self {
            BackendReply::Diff(outcome) => ReplyView::Diff(diff_outcome_view(*outcome)),
            BackendReply::StageToggled(outcome) => ReplyView::StageToggled(outcome is Ok),
            BackendReply::Committed(outcome) => ReplyView::Committed(outcome is Ok),
            BackendReply::Log(outcome) => ReplyView::Log(log_outcome_view(*outcome)),
            BackendReply::Status(outcome) => ReplyView::Status(status_outcome_view(*outcome)),
            BackendReply::PushStarted => ReplyView::PushStarted,
        }
    }
}

/// How a push ended.
#[derive(Clone, Debug, PartialEq, Eq)]
pub enum PushOutcome {
    /// The branch was pushed.
    Pushed,
    /// The repository was opened, and the push failed.
    Failed(BackendError),
    /// The repository could not be opened for the push.
    Unopened(BackendError),
}

/// The mathematical content of a [`PushOutcome`].
pub enum PushOutcomeView {
    Pushed,
    Failed(Seq<char>),
    Unopened(Seq<char>),
}

impl View for PushOutcome {
    type V = PushOutcomeView;

    open spec fn view(&self) -> PushOutcomeView {
        match self {
            PushOutcome::Pushed => PushOutcomeView::Pushed,
            PushOutcome::Failed(e) => PushOutcomeView::Failed(e@),
            PushOutcome::Unopened(e) => PushOutcomeView::Unopened(e@),
        }
    }
}

} // verus!
