//! The lines of a diff: as the repository prints them, and as the diff panel shows them.

use vstd::prelude::*;

verus! {

/// The colours that the controller hands to the screen.
#[derive(Clone, Copy, Debug, PartialEq, Eq, Structural)]
pub enum Color {
    Green,
    Yellow,
    Red,
    Cyan,
    DarkGray,
    White,
    LightBlue,
}

/// One line of a patch as the repository prints it: the marker of the line's
/// kind, and the line's bytes.
#[derive(Clone, Debug, PartialEq, Eq)]
pub struct PatchLine {
    pub origin: char,
    pub content: Vec<u8>,
}

/// The mathematical content of a [`PatchLine`].
pub struct PatchLineView {
    pub origin: char,
    pub content: Seq<u8>,
}

impl View for PatchLine {
    type V = PatchLineView;

    open spec fn view(&self) -> PatchLineView {
        PatchLineView { origin: self.origin, content: self.content@ }
    }
}

impl DeepView for PatchLine {
    type V = PatchLineView;

    open spec fn deep_view(&self) -> PatchLineView {
        self@
    }
}

/// One line of the diff panel: its text, and its colour if it has one.
#[derive(Clone, Debug, PartialEq, Eq)]
pub struct DiffLine {
    pub content: String,
    pub color: Option<Color>,
}

/// The mathematical content of a [`DiffLine`].
pub struct DiffLineView {
    pub content: Seq<char>,
    pub color: Option<Color>,
}

impl View for DiffLine {
    type V = DiffLineView;

    open spec fn view(&self) -> DiffLineView {
        DiffLineView { content: self.content@, color: self.color }
    }
}

impl DeepView for DiffLine {
    type V = DiffLineView;

    open spec fn deep_view(&self) -> DiffLineView {
        self@
    }
}

} // verus!
