//! The controller: its state, and the steps that keys, replies and push
//! notices make it take.

use vstd::prelude::*;
use vstd::string::StringExecFns;
use crate::backend::{
    diff_outcome_view, log_outcome_view, request_view, status_outcome_view, target_view,
    BackendError, BackendReply, BackendRequest, DiffTarget,
};
use crate::input::Input;
use crate::keys::{Key, KeyEvent};
use crate::git::format_diff;
use crate::laws::{
    lemma_init_wf, lemma_key_preserves_wf, lemma_push_feedback_preserves_wf,
    lemma_reply_preserves_wf, lemma_update_diff_wf,
};
use crate::model::{diff_lines, AppView, ModeView};
use crate::selection::{clamp, fits, index_view, select_next, select_previous};
use crate::types::commit_info::CommitInfo;
use crate::types::diff_line::{DiffLine, PatchLine};
use crate::types::status_info::StatusInfo;

verus! {

/// Which of the two lists has the focus.
#[derive(Clone, Copy, Debug, PartialEq, Eq, Structural)]
pub enum ActivePanel {
    Commits,
    Status,
}

impl ActivePanel {
    /// The panel that does not have the focus.
    pub open spec fn other(self) -> ActivePanel {
        match self {
            ActivePanel::Commits => ActivePanel::Status,
            ActivePanel::Status => ActivePanel::Commits,
        }
    }

    /// The panel that does not have the focus.
    pub fn toggled(self) -> (panel: ActivePanel)
        ensures
            panel == self.other(),
    {
        match self {
            ActivePanel::Commits => ActivePanel::Status,
            ActivePanel::Status => ActivePanel::Commits,
        }
    }
}

/// What the controller is doing: browsing, taking a commit message, or
/// showing the overlay of a push with its text.
#[derive(Clone, Debug, PartialEq, Eq)]
pub enum AppMode {
    Normal,
    CommitInput,
    Pushing(String),
}

impl View for AppMode {
    type V = ModeView;

    open spec fn view(&self) -> ModeView {
        match self {
            AppMode::Normal => ModeView::Normal,
            AppMode::CommitInput => ModeView::CommitInput,
            AppMode::Pushing(text) => ModeView::Pushing(text@),
        }
    }
}

/// The controller's state.
#[derive(Debug)]
pub struct App {
    pub should_quit: bool,
    pub active_panel: ActivePanel,
    pub mode: AppMode,
    /// The commit history, newest first.
    pub commits: Vec<CommitInfo>,
    /// The status of the working tree.
    pub status_files: Vec<StatusInfo>,
    pub commit_selection: Option<usize>,
    pub status_selection: Option<usize>,
    /// The lines of the diff panel.
    pub diff_text: Vec<DiffLine>,
    /// The item whose diff the lines are, if they are the diff of any.
    pub diff_target: Option<DiffTarget>,
    /// The draft of the commit message.
    pub commit_input: Input,
    /// The request that waits for its reply.
    pub pending: Option<BackendRequest>,
}

impl View for App {
    type V = AppView;

    open spec fn view(&self) -> AppView {
        AppView {
            should_quit: self.should_quit,
            active_panel: self.active_panel,
            mode: self.mode@,
            commits: self.commits.deep_view(),
            status_files: self.status_files.deep_view(),
            commit_selection: index_view(self.commit_selection),
            status_selection: index_view(self.status_selection),
            diff_text: self.diff_text.deep_view(),
            diff_target: target_view(self.diff_target),
            commit_input: self.commit_input@,
            pending: request_view(self.pending),
        }
    }
}

/// Whether two targets name the same item.
fn same_target(a: &DiffTarget, b: &DiffTarget) -> (same: bool)
    ensures
        same == (a@ == b@),
{
    match (a, b) {
        (DiffTarget::Commit(x), DiffTarget::Commit(y)) => *x == *y,
        (DiffTarget::File(x), DiffTarget::File(y)) => *x == *y,
        _ => false,
    }
}

impl App {
    /// The controller on two freshly read lists: the commit panel has the
    /// focus, each cursor stands on the first item of its list, and the diff
    /// of the first commit is requested.
    pub fn new(commits: Vec<CommitInfo>, status_files: Vec<StatusInfo>) -> (app: App)
        ensures
            app@ == AppView::init(commits.deep_view(), status_files.deep_view()),
            app@.wf(),
    {
        let commit_selection = clamp(None, commits.len());
        let status_selection = clamp(None, status_files.len());
        let mut app = App {
            should_quit: false,
            active_panel: ActivePanel::Commits,
            mode: AppMode::Normal,
            commits,
            status_files,
            commit_selection,
            status_selection,
            diff_text: Vec::new(),
            diff_target: None,
            commit_input: Input::new(),
            pending: None,
        };
        assert(app.diff_text.deep_view() =~= Seq::empty());
        app.update_diff();
        proof {
            lemma_init_wf(commits.deep_view(), status_files.deep_view());
        }
        app
    }

    /// Whether no request waits for its reply: the state is complete and can
    /// be shown.
    pub fn is_settled(&self) -> (settled: bool)
        ensures
            settled == self@.settled(),
    {
        self.pending.is_none()
    }

    /// Whether the state is well formed. Every state that `new` and the steps
    /// below produce is; a state put together by hand need not be.
    pub fn is_well_formed(&self) -> (well_formed: bool)
        ensures
            well_formed == self@.wf(),
    {
        let cursors_fit = fits(self.commit_selection, self.commits.len()) && fits(
            self.status_selection,
            self.status_files.len(),
        );
        let draft_kept = match &self.mode {
            AppMode::CommitInput => true,
            _ => self.commit_input.value.as_str().is_empty() && self.commit_input.cursor == 0,
        };
        let lines_have_target = self.diff_target.is_some() || self.diff_text.len() == 0;
        let selected = self.selected_target();
        let diff_current = match &self.pending {
            Some(BackendRequest::Diff(target)) => match &selected {
                Some(wanted) => same_target(target, wanted),
                None => false,
            },
            Some(BackendRequest::FetchLog) => true,
            Some(BackendRequest::FetchStatus) => true,
            _ => match (&self.diff_target, &selected) {
                (Some(shown), Some(wanted)) => same_target(shown, wanted),
                (None, None) => true,
                _ => false,
            },
        };
        proof {
            // A text without characters is the empty text.
            assert(self.commit_input.value@.len() == 0 ==> self.commit_input.value@
                =~= Seq::<char>::empty());
        }
        cursors_fit && draft_kept && lines_have_target && diff_current
    }

    /// The selected item of the active panel, as the target of a diff.
    pub fn selected_target(&self) -> (target: Option<DiffTarget>)
        ensures
            target_view(target) == self@.selected_target(),
    {
        match self.active_panel {
            ActivePanel::Commits => match self.commit_selection {
                Some(i) => if i < self.commits.len() {
                    Some(DiffTarget::Commit(self.commits[i].id.clone()))
                } else {
                    None
                },
                None => None,
            },
            ActivePanel::Status => match self.status_selection {
                Some(i) => if i < self.status_files.len() {
                    Some(DiffTarget::File(self.status_files[i].path.clone()))
                } else {
                    None
                },
                None => None,
            },
        }
    }

    /// Recomputes the diff for the selected item of the active panel: its
    /// diff is requested, or, with nothing selected, the diff panel is emptied.
    pub fn update_diff(&mut self)
        ensures
            final(self)@ == old(self)@.update_diff(),
            old(self)@.coherent() ==> final(self)@.wf(),
    {
        proof {
            if old(self)@.coherent() {
                lemma_update_diff_wf(old(self)@);
            }
        }
        match self.selected_target() {
            Some(target) => {
                self.pending = Some(BackendRequest::Diff(target));
            },
            None => {
                self.diff_text = Vec::new();
                self.diff_target = None;
                self.pending = None;
                assert(self.diff_text.deep_view() =~= Seq::empty());
            },
        }
    }

    /// Moves the cursor of the active panel one item down, round the list,
    /// and recomputes the diff. On an empty list nothing changes.
    fn select_next(&mut self)
        ensures
            final(self)@ == old(self)@.select_next(),
    {
        match self.active_panel {
            ActivePanel::Commits => {
                if self.commits.len() == 0 {
                    return ;
                }
                self.commit_selection = select_next(self.commit_selection, self.commits.len());
            },
            ActivePanel::Status => {
                if self.status_files.len() == 0 {
                    return ;
                }
                self.status_selection = select_next(
                    self.status_selection,
                    self.status_files.len(),
                );
            },
        }
        self.update_diff();
    }

    /// Moves the cursor of the active panel one item up, round the list, and
    /// recomputes the diff. On an empty list nothing changes.
    fn select_previous(&mut self)
        ensures
            final(self)@ == old(self)@.select_previous(),
    {
        match self.active_panel {
            ActivePanel::Commits => {
                if self.commits.len() == 0 {
                    return ;
                }
                self.commit_selection = select_previous(
                    self.commit_selection,
                    self.commits.len(),
                );
            },
            ActivePanel::Status => {
                if self.status_files.len() == 0 {
                    return ;
                }
                self.status_selection = select_previous(
                    self.status_selection,
                    self.status_files.len(),
                );
            },
        }
        self.update_diff();
    }

    /// Asks for the selected path of the status list to be staged or
    /// unstaged. Without a selected path nothing changes.
    fn toggle_stage_selection(&mut self)
        ensures
            final(self)@ == old(self)@.toggle_stage_selection(),
    {
        if let Some(i) = self.status_selection {
            if i < self.status_files.len() {
                let path = self.status_files[i].path.clone();
                self.pending = Some(BackendRequest::ToggleStage(path));
            }
        }
    }

    /// Shows the push overlay with its first text and asks for the push.
    fn initiate_push(&mut self)
        ensures
            final(self)@ == old(self)@.initiate_push(),
    {
        self.mode = AppMode::Pushing("Pushing to origin...".to_owned());
        self.pending = Some(BackendRequest::Push);
    }

    /// Asks for a commit with the draft as its message. With an empty draft
    /// nothing changes.
    fn submit_commit(&mut self)
        ensures
            final(self)@ == old(self)@.submit_commit(),
    {
        if !self.commit_input.value.as_str().is_empty() {
            let message = self.commit_input.value.clone();
            self.pending = Some(BackendRequest::Commit(message));
        }
    }

    /// One key in normal mode: quit, switch panels, move the cursor, open the
    /// commit input, toggle the staging of a path, or push.
    fn handle_normal_mode_keys(&mut self, key: KeyEvent)
        ensures
            final(self)@ == old(self)@.handle_normal_mode_keys(key),
    {
        match key.code {
            Key::Char(c) => {
                if c == 'q' {
                    self.should_quit = true;
                } else if c == 'c' {
                    if self.active_panel == ActivePanel::Status && self.status_files.len() > 0 {
                        self.mode = AppMode::CommitInput;
                    }
                } else if c == ' ' {
                    if self.active_panel == ActivePanel::Status {
                        self.toggle_stage_selection();
                    }
                } else if c == 'P' {
                    self.initiate_push();
                }
            },
            Key::Tab => {
                self.active_panel = self.active_panel.toggled();
                self.update_diff();
            },
            Key::Down => self.select_next(),
            Key::Up => self.select_previous(),
            _ => {},
        }
    }

    /// One key while the commit message is typed: submit, cancel, or edit.
    fn handle_commit_input_keys(&mut self, key: KeyEvent)
        ensures
            final(self)@ == old(self)@.handle_commit_input_keys(key),
    {
        match key.code {
            Key::Enter => self.submit_commit(),
            Key::Esc => {
                self.commit_input.reset();
                self.mode = AppMode::Normal;
            },
            _ => {
                self.commit_input.handle_event(&key);
            },
        }
    }

    /// Applies one key press. What the key means depends on the mode; a key
    /// without a meaning in the mode changes nothing, and so does any key that
    /// arrives while a request waits for its reply.
    pub fn handle_key_event(&mut self, key: KeyEvent)
        ensures
            final(self)@ == old(self)@.handle_key_event(key),
            old(self)@.wf() ==> final(self)@.wf(),
    {
        proof {
            if old(self)@.wf() {
                lemma_key_preserves_wf(old(self)@, key);
            }
        }
        if self.pending.is_some() {
            return ;
        }
        match &self.mode {
            AppMode::Normal => self.handle_normal_mode_keys(key),
            AppMode::CommitInput => self.handle_commit_input_keys(key),
            AppMode::Pushing(_) => {
                match key.code {
                    Key::Enter => {
                        self.mode = AppMode::Normal;
                    },
                    Key::Esc => {
                        self.mode = AppMode::Normal;
                    },
                    _ => {},
                }
            },
        }
    }

    /// Takes the notice of a finished push: it replaces the text of the push
    /// overlay. Without the overlay the notice is dropped.
    pub fn handle_push_feedback(&mut self, message: String)
        ensures
            final(self)@ == old(self)@.handle_push_feedback(message@),
            old(self)@.wf() ==> final(self)@.wf(),
    {
        proof {
            if old(self)@.wf() {
                lemma_push_feedback_preserves_wf(old(self)@, message@);
            }
        }
        match &self.mode {
            AppMode::Pushing(_) => {
                self.mode = AppMode::Pushing(message);
            },
            _ => {},
        }
    }

    /// Takes over a freshly read commit list and fits the cursor to it. A
    /// failed read leaves list and cursor as they were.
    fn refresh_commits(&mut self, fetched: Result<Vec<CommitInfo>, BackendError>)
        ensures
            final(self)@ == old(self)@.refresh_commits(log_outcome_view(fetched)),
    {
        match fetched {
            Ok(commits) => {
                self.commit_selection = clamp(self.commit_selection, commits.len());
                self.commits = commits;
            },
            Err(_) => {},
        }
    }

    /// Takes over a freshly read status list and fits the cursor to it. A
    /// failed read leaves list and cursor as they were.
    fn refresh_status(&mut self, fetched: Result<Vec<StatusInfo>, BackendError>)
        ensures
            final(self)@ == old(self)@.refresh_status(status_outcome_view(fetched)),
    {
        match fetched {
            Ok(status_files) => {
                self.status_selection = clamp(self.status_selection, status_files.len());
                self.status_files = status_files;
            },
            Err(_) => {},
        }
    }

    /// Takes over a freshly read commit list and asks for the status list.
    fn refresh_all(&mut self, fetched: Result<Vec<CommitInfo>, BackendError>)
        ensures
            final(self)@ == old(self)@.refresh_all(log_outcome_view(fetched)),
    {
        self.refresh_commits(fetched);
        self.pending = Some(BackendRequest::FetchStatus);
    }

    /// Shows the outcome of the diff that was requested for `target`: its
    /// lines, or one line that names the failure.
    fn show_diff(&mut self, target: DiffTarget, outcome: Result<Vec<PatchLine>, BackendError>)
        ensures
            final(self)@ == old(self)@.show_diff(target@, diff_outcome_view(outcome)),
    {
        match outcome {
            Ok(lines) => {
                self.diff_text = format_diff(&lines);
            },
            Err(e) => {
                let content = "could not load diff: ".to_owned().concat(e.description.as_str());
                let mut text: Vec<DiffLine> = Vec::new();
                text.push(DiffLine { content, color: None });
                assert(text.deep_view() =~= diff_lines(Err(e@)));
                self.diff_text = text;
            },
        }
        self.diff_target = Some(target);
        self.pending = None;
    }

    /// After the staging request: a success is followed by the reload of the
    /// status list, a failure by nothing.
    fn finish_stage_toggle(&mut self, done: bool)
        ensures
            final(self)@ == old(self)@.finish_stage_toggle(done),
    {
        if done {
            self.pending = Some(BackendRequest::FetchStatus);
        } else {
            self.pending = None;
        }
    }

    /// After the commit request: a success empties the draft, returns to
    /// normal mode and is followed by the reload of both lists; a failure
    /// leaves draft and mode as they were.
    fn finish_commit(&mut self, done: bool)
        ensures
            final(self)@ == old(self)@.finish_commit(done),
    {
        if done {
            self.commit_input.reset();
            self.mode = AppMode::Normal;
            self.pending = Some(BackendRequest::FetchLog);
        } else {
            self.pending = None;
        }
    }

    /// Takes the reply to the request that waits: the state moves on, and
    /// either the next request waits or the state is settled. A reply that
    /// does not answer the waiting request is dropped.
    pub fn handle_reply(&mut self, reply: BackendReply)
        ensures
            final(self)@ == old(self)@.handle_reply(reply@),
            old(self)@.wf() ==> final(self)@.wf(),
    {
        proof {
            if old(self)@.wf() {
                lemma_reply_preserves_wf(old(self)@, reply@);
            }
        }
        match reply {
            BackendReply::Diff(outcome) => {
                let awaited = match &self.pending {
                    Some(BackendRequest::Diff(_)) => true,
                    _ => false,
                };
                if awaited {
                    match self.pending.take() {
                        Some(BackendRequest::Diff(target)) => self.show_diff(target, outcome),
                        _ => {},
                    }
                }
            },
            BackendReply::StageToggled(outcome) => {
                let awaited = match &self.pending {
                    Some(BackendRequest::ToggleStage(_)) => true,
                    _ => false,
                };
                if awaited {
                    self.finish_stage_toggle(outcome.is_ok());
                }
            },
            BackendReply::Committed(outcome) => {
                let awaited = match &self.pending {
                    Some(BackendRequest::Commit(_)) => true,
                    _ => false,
                };
                if awaited {
                    self.finish_commit(outcome.is_ok());
                }
            },
            BackendReply::Log(fetched) => {
                let awaited = match &self.pending {
                    Some(BackendRequest::FetchLog) => true,
                    _ => false,
                };
                if awaited {
                    self.refresh_all(fetched);
                }
            },
            BackendReply::Status(fetched) => {
                let awaited = match &self.pending {
                    Some(BackendRequest::FetchStatus) => true,
                    _ => false,
                };
                if awaited {
                    self.refresh_status(fetched);
                    self.update_diff();
                }
            },
            BackendReply::PushStarted => {
                let awaited = match &self.pending {
                    Some(BackendRequest::Push) => true,
                    _ => false,
                };
                if awaited {
                    self.pending = None;
                }
            },
        }
    }
}

} // verus!
