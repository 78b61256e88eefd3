//! One commit of the history.

use vstd::prelude::*;

verus! {

/// One entry of the commit history.
#[derive(Clone, Debug, PartialEq, Eq)]
pub struct CommitInfo {
    /// The commit's content hash, in hexadecimal.
    pub id: String,
    /// The first line of the commit message.
    pub message: String,
    /// The author's name.
    pub author: String,
}

/// The mathematical content of a [`CommitInfo`].
pub struct CommitView {
    pub id: Seq<char>,
    pub message: Seq<char>,
    pub author: Seq<char>,
}

impl View for CommitInfo {
    type V = CommitView;

    open spec fn view(&self) -> CommitView {
        CommitView { id: self.id@, message: self.message@, author: self.author@ }
    }
}

impl DeepView for CommitInfo {
    type V = CommitView;

    open spec fn deep_view(&self) -> CommitView {
        self@
    }
}

} // verus!
