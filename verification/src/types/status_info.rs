//! One entry of the working-tree status.

use vstd::prelude::*;

verus! {

/// What the repository reports of one path: how the index differs from the
/// last commit, and how the working tree differs from the index.
#[derive(Clone, Copy, Debug, PartialEq, Eq, Structural)]
pub struct Status {
    pub index_new: bool,
    pub index_modified: bool,
    pub index_deleted: bool,
    pub index_renamed: bool,
    pub index_typechange: bool,
    pub wt_new: bool,
    pub wt_modified: bool,
    pub wt_deleted: bool,
    pub wt_renamed: bool,
}

impl Status {
    /// A path counts as staged when the index holds any change of it.
    pub open spec fn is_staged(self) -> bool {
        self.index_new || self.index_modified || self.index_deleted || self.index_renamed
            || self.index_typechange
    }

    /// Whether the index holds any change of the path.
    pub fn staged(&self) -> (staged: bool)
        ensures
            staged == self.is_staged(),
    {
        self.index_new || self.index_modified || self.index_deleted || self.index_renamed
            || self.index_typechange
    }
}

/// One path of the working tree with its status.
#[derive(Clone, Debug, PartialEq, Eq)]
pub struct StatusInfo {
    pub path: String,
    pub status: Status,
}

/// The mathematical content of a [`StatusInfo`].
pub struct StatusView {
    pub path: Seq<char>,
    pub status: Status,
}

impl View for StatusInfo {
    type V = StatusView;

    open spec fn view(&self) -> StatusView {
        StatusView { path: self.path@, status: self.status }
    }
}

impl DeepView for StatusInfo {
    type V = StatusView;

    open spec fn deep_view(&self) -> StatusView {
        self@
    }
}

} // verus!
