//! The controller as a state machine over mathematical values.
//!
//! Every step of the controller is a function from a state to a state. A step
//! that needs the repository leaves a request in `pending`; the reply to it is
//! the input of a later step. While a request is outstanding no key is taken.

use vstd::prelude::*;
use crate::app::ActivePanel;
use crate::backend::{DiffTargetView, ReplyView, RequestView};
use crate::git::format_lines;
use crate::input::InputView;
use crate::keys::{Key, KeyEvent};
use crate::selection::{clamp_index, next_index, previous_index, valid_index};
use crate::types::commit_info::CommitView;
use crate::types::diff_line::{DiffLineView, PatchLineView};
use crate::types::status_info::StatusView;

verus! {

/// The mathematical content of a mode.
pub enum ModeView {
    Normal,
    CommitInput,
    Pushing(Seq<char>),
}

/// The text of the push overlay while the push is under way.
pub open spec fn pushing_text() -> Seq<char> {
    "Pushing to origin..."@
}

/// What the diff panel shows for the outcome of a diff: the formatted lines,
/// or one uncoloured line that names the failure.
pub open spec fn diff_lines(outcome: Result<Seq<PatchLineView>, Seq<char>>) -> Seq<DiffLineView> {
    match outcome {
        Ok(lines) => format_lines(lines),
        Err(e) => seq![DiffLineView { content: "could not load diff: "@ + e, color: None }],
    }
}

/// Whether a reply is the answer to a request.
pub open spec fn answers(request: RequestView, reply: ReplyView) -> bool {
    match request {
        RequestView::Diff(_) => reply is Diff,
        RequestView::ToggleStage(_) => reply is StageToggled,
        RequestView::Commit(_) => reply is Committed,
        RequestView::FetchLog => reply is Log,
        RequestView::FetchStatus => reply is Status,
        RequestView::Push => reply is PushStarted,
    }
}

/// The mathematical content of the controller's state.
pub struct AppView {
    pub should_quit: bool,
    pub active_panel: ActivePanel,
    pub mode: ModeView,
    pub commits: Seq<CommitView>,
    pub status_files: Seq<StatusView>,
    pub commit_selection: Option<nat>,
    pub status_selection: Option<nat>,
    pub diff_text: Seq<DiffLineView>,
    pub diff_target: Option<DiffTargetView>,
    pub commit_input: InputView,
    pub pending: Option<RequestView>,
}

impl AppView {
    /// The item that the diff panel is to show: the selected item of the
    /// active panel, if there is one.
    pub open spec fn selected_target(self) -> Option<DiffTargetView> {
        match self.active_panel {
            ActivePanel::Commits => match self.commit_selection {
                Some(i) => if i < self.commits.len() {
                    Some(DiffTargetView::Commit(self.commits[i as int].id))
                } else {
                    None
                },
                None => None,
            },
            ActivePanel::Status => match self.status_selection {
                Some(i) => if i < self.status_files.len() {
                    Some(DiffTargetView::File(self.status_files[i as int].path))
                } else {
                    None
                },
                None => None,
            },
        }
    }

    /// No request is outstanding: the state is complete and can be shown.
    pub open spec fn settled(self) -> bool {
        self.pending is None
    }

    /// Both cursors fit their lists, the draft is empty outside commit input,
    /// and a diff with no target has no lines.
    pub open spec fn coherent(self) -> bool {
        &&& valid_index(self.commit_selection, self.commits.len())
        &&& valid_index(self.status_selection, self.status_files.len())
        &&& (!(self.mode is CommitInput) ==> self.commit_input == InputView::empty())
        &&& (self.diff_target is None ==> self.diff_text.len() == 0)
    }

    /// The diff panel goes with the selected item of the active panel: it
    /// shows that item's diff, or that diff is the one being waited for. Only
    /// while the reload of a list is outstanding nothing is asked of the panel.
    pub open spec fn diff_current(self) -> bool {
        match self.pending {
            Some(RequestView::Diff(target)) => self.selected_target() == Some(target),
            Some(RequestView::FetchLog) => true,
            Some(RequestView::FetchStatus) => true,
            _ => self.diff_target == self.selected_target(),
        }
    }

    /// A bound on the replies that are still needed before the state is
    /// settled: none without a request, one for a diff or the start of a
    /// push, and one more for each reload that comes before the diff.
    pub open spec fn steps_to_settle(self) -> nat {
        match self.pending {
            None => 0,
            Some(RequestView::Diff(_)) => 1,
            Some(RequestView::Push) => 1,
            Some(RequestView::FetchStatus) => 2,
            Some(RequestView::ToggleStage(_)) => 3,
            Some(RequestView::FetchLog) => 3,
            Some(RequestView::Commit(_)) => 4,
        }
    }

    /// The state is well formed: it is coherent, and its diff is current.
    pub open spec fn wf(self) -> bool {
        self.coherent() && self.diff_current()
    }

    /// The list of the active panel has this many items.
    pub open spec fn active_len(self) -> nat {
        match self.active_panel {
            ActivePanel::Commits => self.commits.len(),
            ActivePanel::Status => self.status_files.len(),
        }
    }

    /// The cursor of the active panel.
    pub open spec fn active_selection(self) -> Option<nat> {
        match self.active_panel {
            ActivePanel::Commits => self.commit_selection,
            ActivePanel::Status => self.status_selection,
        }
    }

    /// The state with which the controller starts on two lists.
    pub open spec fn init(commits: Seq<CommitView>, status_files: Seq<StatusView>) -> AppView {
        (AppView {
            should_quit: false,
            active_panel: ActivePanel::Commits,
            mode: ModeView::Normal,
            commits,
            status_files,
            commit_selection: clamp_index(None, commits.len()),
            status_selection: clamp_index(None, status_files.len()),
            diff_text: Seq::empty(),
            diff_target: None,
            commit_input: InputView::empty(),
            pending: None,
        }).update_diff()
    }

    /// Recomputing the diff: with a selected item, its diff is requested; with
    /// none, the diff panel is emptied at once.
    pub open spec fn update_diff(self) -> AppView {
        match self.selected_target() {
            Some(target) => AppView { pending: Some(RequestView::Diff(target)), ..self },
            None => AppView { diff_text: Seq::empty(), diff_target: None, pending: None, ..self },
        }
    }

    /// Moving the cursor of the active panel one item down. On an empty list
    /// nothing changes.
    pub open spec fn select_next(self) -> AppView {
        match self.active_panel {
            ActivePanel::Commits => if self.commits.len() == 0 {
                self
            } else {
                (AppView {
                    commit_selection: next_index(self.commit_selection, self.commits.len()),
                    ..self
                }).update_diff()
            },
            ActivePanel::Status => if self.status_files.len() == 0 {
                self
            } else {
                (AppView {
                    status_selection: next_index(self.status_selection, self.status_files.len()),
                    ..self
                }).update_diff()
            },
        }
    }

    /// Moving the cursor of the active panel one item up. On an empty list
    /// nothing changes.
    pub open spec fn select_previous(self) -> AppView {
        match self.active_panel {
            ActivePanel::Commits => if self.commits.len() == 0 {
                self
            } else {
                (AppView {
                    commit_selection: previous_index(self.commit_selection, self.commits.len()),
                    ..self
                }).update_diff()
            },
            ActivePanel::Status => if self.status_files.len() == 0 {
                self
            } else {
                (AppView {
                    status_selection: previous_index(
                        self.status_selection,
                        self.status_files.len(),
                    ),
                    ..self
                }).update_diff()
            },
        }
    }

    /// Giving the focus to the other panel. Neither cursor moves.
    pub open spec fn switch_panel(self) -> AppView {
        (AppView { active_panel: self.active_panel.other(), ..self }).update_diff()
    }

    /// Asking for the selected path of the status list to be staged or
    /// unstaged. Without a selected path nothing changes.
    pub open spec fn toggle_stage_selection(self) -> AppView {
        match self.status_selection {
            Some(i) => if i < self.status_files.len() {
                AppView {
                    pending: Some(RequestView::ToggleStage(self.status_files[i as int].path)),
                    ..self
                }
            } else {
                self
            },
            None => self,
        }
    }

    /// Starting a push: the overlay appears at once, and the push is requested.
    pub open spec fn initiate_push(self) -> AppView {
        AppView {
            mode: ModeView::Pushing(pushing_text()),
            pending: Some(RequestView::Push),
            ..self
        }
    }

    /// Submitting the draft: a commit with the draft as its message is
    /// requested. With an empty draft nothing changes.
    pub open spec fn submit_commit(self) -> AppView {
        if self.commit_input.value.len() == 0 {
            self
        } else {
            AppView { pending: Some(RequestView::Commit(self.commit_input.value)), ..self }
        }
    }

    /// One key in normal mode.
    pub open spec fn handle_normal_mode_keys(self, key: KeyEvent) -> AppView {
        match key.code {
            Key::Char(c) => if c == 'q' {
                AppView { should_quit: true, ..self }
            } else if c == 'c' {
                if self.active_panel == ActivePanel::Status && self.status_files.len() > 0 {
                    AppView { mode: ModeView::CommitInput, ..self }
                } else {
                    self
                }
            } else if c == ' ' {
                if self.active_panel == ActivePanel::Status {
                    self.toggle_stage_selection()
                } else {
                    self
                }
            } else if c == 'P' {
                self.initiate_push()
            } else {
                self
            },
            Key::Tab => self.switch_panel(),
            Key::Down => self.select_next(),
            Key::Up => self.select_previous(),
            _ => self,
        }
    }

    /// One key while the commit message is typed.
    pub open spec fn handle_commit_input_keys(self, key: KeyEvent) -> AppView {
        match key.code {
            Key::Enter => self.submit_commit(),
            Key::Esc => AppView {
                commit_input: InputView::empty(),
                mode: ModeView::Normal,
                ..self
            },
            _ => AppView { commit_input: self.commit_input.after_key(key), ..self },
        }
    }

    /// One key while the push overlay is shown: confirm and cancel close it.
    pub open spec fn handle_pushing_keys(self, key: KeyEvent) -> AppView {
        if key.code is Enter || key.code is Esc {
            AppView { mode: ModeView::Normal, ..self }
        } else {
            self
        }
    }

    /// One key. While a request is outstanding the key is dropped.
    pub open spec fn handle_key_event(self, key: KeyEvent) -> AppView {
        if self.pending is Some {
            self
        } else {
            match self.mode {
                ModeView::Normal => self.handle_normal_mode_keys(key),
                ModeView::CommitInput => self.handle_commit_input_keys(key),
                ModeView::Pushing(_) => self.handle_pushing_keys(key),
            }
        }
    }

    /// The notice of a finished push replaces the text of the overlay. Without
    /// the overlay the notice is dropped.
    pub open spec fn handle_push_feedback(self, message: Seq<char>) -> AppView {
        match self.mode {
            ModeView::Pushing(_) => AppView { mode: ModeView::Pushing(message), ..self },
            _ => self,
        }
    }

    /// Taking over a freshly read commit list and fitting the cursor to it. A
    /// failed read leaves list and cursor as they were.
    pub open spec fn refresh_commits(self, fetched: Result<Seq<CommitView>, Seq<char>>) -> AppView {
        match fetched {
            Ok(commits) => AppView {
                commits,
                commit_selection: clamp_index(self.commit_selection, commits.len()),
                ..self
            },
            Err(_) => self,
        }
    }

    /// Taking over a freshly read status list and fitting the cursor to it. A
    /// failed read leaves list and cursor as they were.
    pub open spec fn refresh_status(self, fetched: Result<Seq<StatusView>, Seq<char>>) -> AppView {
        match fetched {
            Ok(status_files) => AppView {
                status_files,
                status_selection: clamp_index(self.status_selection, status_files.len()),
                ..self
            },
            Err(_) => self,
        }
    }

    /// Showing the outcome of the diff that was requested for `target`.
    pub open spec fn show_diff(
        self,
        target: DiffTargetView,
        outcome: Result<Seq<PatchLineView>, Seq<char>>,
    ) -> AppView {
        AppView {
            diff_text: diff_lines(outcome),
            diff_target: Some(target),
            pending: None,
            ..self
        }
    }

    /// After the staging request: a success is followed by the reload of the
    /// status list, a failure by nothing.
    pub open spec fn finish_stage_toggle(self, done: bool) -> AppView {
        if done {
            AppView { pending: Some(RequestView::FetchStatus), ..self }
        } else {
            AppView { pending: None, ..self }
        }
    }

    /// After the commit request: a success empties the draft, returns to
    /// normal mode and is followed by the reload of both lists; a failure
    /// leaves draft and mode as they were.
    pub open spec fn finish_commit(self, done: bool) -> AppView {
        if done {
            AppView {
                commit_input: InputView::empty(),
                mode: ModeView::Normal,
                pending: Some(RequestView::FetchLog),
                ..self
            }
        } else {
            AppView { pending: None, ..self }
        }
    }

    /// The reload of both lists, first half: the commit list is taken over,
    /// and the status list is requested.
    pub open spec fn refresh_all(self, fetched: Result<Seq<CommitView>, Seq<char>>) -> AppView {
        AppView { pending: Some(RequestView::FetchStatus), ..self.refresh_commits(fetched) }
    }

    /// One reply. A reply that does not answer the outstanding request is dropped.
    pub open spec fn handle_reply(self, reply: ReplyView) -> AppView {
        match self.pending {
            Some(RequestView::Diff(target)) => match reply {
                ReplyView::Diff(outcome) => self.show_diff(target, outcome),
                _ => self,
            },
            Some(RequestView::ToggleStage(_)) => match reply {
                ReplyView::StageToggled(done) => self.finish_stage_toggle(done),
                _ => self,
            },
            Some(RequestView::Commit(_)) => match reply {
                ReplyView::Committed(done) => self.finish_commit(done),
                _ => self,
            },
            Some(RequestView::FetchLog) => match reply {
                ReplyView::Log(fetched) => self.refresh_all(fetched),
                _ => self,
            },
            Some(RequestView::FetchStatus) => match reply {
                ReplyView::Status(fetched) => self.refresh_status(fetched).update_diff(),
                _ => self,
            },
            Some(RequestView::Push) => match reply {
                ReplyView::PushStarted => AppView { pending: None, ..self },
                _ => self,
            },
            None => self,
        }
    }

    /// One key, and then the reply to the diff that the key asked for.
    pub open spec fn key_then_diff(
        self,
        key: KeyEvent,
        outcome: Result<Seq<PatchLineView>, Seq<char>>,
    ) -> AppView {
        self.handle_key_event(key).handle_reply(ReplyView::Diff(outcome))
    }

    /// The same key as often as there are outcomes, each time followed by the
    /// reply to the diff that it asked for.
    pub open spec fn key_then_diff_times(
        self,
        key: KeyEvent,
        outcomes: Seq<Result<Seq<PatchLineView>, Seq<char>>>,
    ) -> AppView
        decreases outcomes.len(),
    {
        if outcomes.len() == 0 {
            self
        } else {
            self.key_then_diff_times(key, outcomes.drop_last()).key_then_diff(
                key,
                outcomes.last(),
            )
        }
    }
}

} // verus!
