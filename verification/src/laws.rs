//! What holds of the controller in every state and over several steps.

use vstd::prelude::*;
use crate::app::ActivePanel;
use crate::backend::{ReplyView, RequestView};
use crate::git::toggle_of;
use crate::input::InputView;
use crate::keys::{Key, KeyEvent};
use crate::model::{answers, diff_lines, pushing_text, AppView, ModeView};
use crate::selection::{
    clamp_index, lemma_next_index_cycle, next_index_times, valid_index,
};
use crate::types::commit_info::CommitView;
use crate::types::diff_line::{DiffLineView, PatchLineView};
use crate::types::status_info::{Status, StatusView};

verus! {

/// The controller starts in a well-formed state.
pub proof fn lemma_init_wf(commits: Seq<CommitView>, status_files: Seq<StatusView>)
    ensures
        AppView::init(commits, status_files).wf(),
{
}

/// Recomputing the diff makes a coherent state well formed.
pub proof fn lemma_update_diff_wf(s: AppView)
    requires
        s.coherent(),
    ensures
        s.update_diff().wf(),
{
}

/// No key leads out of the well-formed states.
pub proof fn lemma_key_preserves_wf(s: AppView, key: KeyEvent)
    requires
        s.wf(),
    ensures
        s.handle_key_event(key).wf(),
{
}

/// No reply leads out of the well-formed states.
pub proof fn lemma_reply_preserves_wf(s: AppView, reply: ReplyView)
    requires
        s.wf(),
    ensures
        s.handle_reply(reply).wf(),
{
}

/// No push notice leads out of the well-formed states.
pub proof fn lemma_push_feedback_preserves_wf(s: AppView, message: Seq<char>)
    requires
        s.wf(),
    ensures
        s.handle_push_feedback(message).wf(),
{
}

/// In a settled well-formed state the diff panel shows the diff of the
/// selected item of the active panel, and nothing when no item is selected.
pub proof fn lemma_settled_diff_matches_selection(s: AppView)
    requires
        s.wf(),
        s.settled(),
    ensures
        s.diff_target == s.selected_target(),
        s.active_selection() is None ==> s.diff_text.len() == 0,
{
}

/// What rounds of one and the same move-down key, each settled by the reply
/// to its diff request, do to a settled well-formed state in normal mode: the
/// cursor of the active panel has made as many steps as there were rounds,
/// and nothing else that a move depends on has changed.
proof fn lemma_moves_down(
    s: AppView,
    key: KeyEvent,
    outcomes: Seq<Result<Seq<PatchLineView>, Seq<char>>>,
)
    requires
        s.wf(),
        s.settled(),
        s.mode is Normal,
        key.code is Down,
        s.active_len() > 0,
    ensures
        ({
            let t = s.key_then_diff_times(key, outcomes);
            &&& t.wf()
            &&& t.settled()
            &&& t.mode is Normal
            &&& t.active_panel == s.active_panel
            &&& t.commits == s.commits
            &&& t.status_files == s.status_files
            &&& t.active_selection() == next_index_times(
                s.active_selection(),
                s.active_len(),
                outcomes.len(),
            )
            &&& s.active_panel == ActivePanel::Commits ==> t.status_selection
                == s.status_selection
            &&& s.active_panel == ActivePanel::Status ==> t.commit_selection
                == s.commit_selection
        }),
    decreases outcomes.len(),
{
    if outcomes.len() > 0 {
        lemma_moves_down(s, key, outcomes.drop_last());
    }
}

/// As many moves down as the active list has items, each settled by the reply
/// to its diff request, bring the cursor back to where it started; the
/// cursor of the other panel never moves.
pub proof fn lemma_move_next_cycles(
    s: AppView,
    key: KeyEvent,
    outcomes: Seq<Result<Seq<PatchLineView>, Seq<char>>>,
)
    requires
        s.wf(),
        s.settled(),
        s.mode is Normal,
        key.code is Down,
        s.active_len() > 0,
        outcomes.len() == s.active_len(),
    ensures
        s.key_then_diff_times(key, outcomes).commit_selection == s.commit_selection,
        s.key_then_diff_times(key, outcomes).status_selection == s.status_selection,
        s.key_then_diff_times(key, outcomes).settled(),
{
    lemma_moves_down(s, key, outcomes);
    lemma_next_index_cycle(s.active_selection(), s.active_len());
}

/// On an empty list a move up or down changes nothing at all; in a
/// well-formed state the cursor was absent and stays absent.
pub proof fn lemma_move_on_empty_list(s: AppView, key: KeyEvent)
    requires
        s.mode is Normal,
        key.code is Down || key.code is Up,
        s.active_len() == 0,
    ensures
        s.handle_key_event(key) == s,
        s.select_next() == s,
        s.select_previous() == s,
        s.wf() ==> s.handle_key_event(key).active_selection() is None,
{
}

/// A reloaded list takes its cursor along: onto the new last item if the
/// cursor stood beyond it, to nowhere if the new list is empty, and in place
/// otherwise. This holds of both lists.
pub proof fn lemma_reload_clamps(
    s: AppView,
    commits: Seq<CommitView>,
    status_files: Seq<StatusView>,
)
    ensures
        ({
            let t = s.refresh_commits(Ok(commits));
            &&& t.commits == commits
            &&& valid_index(t.commit_selection, commits.len())
            &&& commits.len() == 0 ==> t.commit_selection is None
            &&& s.commit_selection matches Some(i) ==> {
                &&& i >= commits.len() > 0 ==> t.commit_selection == Some(
                    (commits.len() - 1) as nat,
                )
                &&& i < commits.len() ==> t.commit_selection == Some(i)
            }
        }),
        ({
            let t = s.refresh_status(Ok(status_files));
            &&& t.status_files == status_files
            &&& valid_index(t.status_selection, status_files.len())
            &&& status_files.len() == 0 ==> t.status_selection is None
            &&& s.status_selection matches Some(i) ==> {
                &&& i >= status_files.len() > 0 ==> t.status_selection == Some(
                    (status_files.len() - 1) as nat,
                )
                &&& i < status_files.len() ==> t.status_selection == Some(i)
            }
        }),
        s.pending == Some(RequestView::FetchStatus) ==> s.handle_reply(
            ReplyView::Status(Ok(status_files)),
        ).status_selection == clamp_index(s.status_selection, status_files.len()),
        s.pending == Some(RequestView::FetchLog) ==> s.handle_reply(
            ReplyView::Log(Ok(commits)),
        ).commit_selection == clamp_index(s.commit_selection, commits.len()),
{
}

/// Switching panels moves neither cursor and changes neither list: only the
/// focus goes to the other panel. The diff follows the focus: with an item
/// selected in the now active panel its diff is requested, and the reply
/// settles the state with that diff shown; with none, the diff panel is
/// empty at once.
pub proof fn lemma_switch_panel(
    s: AppView,
    key: KeyEvent,
    outcome: Result<Seq<PatchLineView>, Seq<char>>,
)
    requires
        s.settled(),
        s.mode is Normal,
        key.code is Tab,
    ensures
        ({
            let t = s.handle_key_event(key);
            &&& t.active_panel == s.active_panel.other()
            &&& t.commit_selection == s.commit_selection
            &&& t.status_selection == s.status_selection
            &&& t.commits == s.commits
            &&& t.status_files == s.status_files
            &&& t.mode == s.mode
            &&& match t.selected_target() {
                Some(target) => {
                    let u = t.handle_reply(ReplyView::Diff(outcome));
                    &&& t.pending == Some(RequestView::Diff(target))
                    &&& u.settled()
                    &&& u.diff_target == u.selected_target()
                    &&& u.diff_text == diff_lines(outcome)
                    &&& u.active_panel == t.active_panel
                    &&& u.commit_selection == s.commit_selection
                    &&& u.status_selection == s.status_selection
                },
                None => {
                    &&& t.settled()
                    &&& t.diff_target is None
                    &&& t.diff_text == Seq::<DiffLineView>::empty()
                },
            }
        }),
{
}

/// Submitting an empty draft changes nothing: the mode stays commit input, no
/// commit is requested, and the commit list is as it was.
pub proof fn lemma_submit_empty_draft(s: AppView, key: KeyEvent)
    requires
        s.mode is CommitInput,
        key.code is Enter,
        s.commit_input.value.len() == 0,
    ensures
        s.handle_key_event(key) == s,
{
}

/// Submitting a draft that is not empty requests a commit with the draft as
/// its message. While the request waits, mode and draft stay. If the commit
/// succeeds, the mode returns to normal, the draft is emptied and the commit
/// list is read anew: where the repository then reports the new commit in
/// front of the commits known so far, the list is longer by exactly one, with
/// the new commit at its head. If the commit fails, the state is as it was
/// before the draft was submitted.
pub proof fn lemma_submit_commit(s: AppView, key: KeyEvent, created: CommitView)
    requires
        s.settled(),
        s.mode is CommitInput,
        key.code is Enter,
        s.commit_input.value.len() > 0,
    ensures
        ({
            let asked = s.handle_key_event(key);
            let done = asked.handle_reply(ReplyView::Committed(true));
            let reloaded = done.handle_reply(ReplyView::Log(Ok(seq![created] + s.commits)));
            &&& asked == (AppView {
                pending: Some(RequestView::Commit(s.commit_input.value)),
                ..s
            })
            &&& asked.handle_reply(ReplyView::Committed(false)) == s
            &&& done.mode is Normal
            &&& done.commit_input == InputView::empty()
            &&& done.commits == s.commits
            &&& done.pending == Some(RequestView::FetchLog)
            &&& reloaded.commits.len() == s.commits.len() + 1
            &&& reloaded.commits[0] == created
            &&& reloaded.mode is Normal
            &&& reloaded.pending == Some(RequestView::FetchStatus)
        }),
{
}

/// The push key shows the overlay with its first text at once and requests
/// the push; starting the push settles the state without touching the
/// overlay. A notice that arrives while the overlay is shown replaces its
/// text and leaves the mode a push overlay.
pub proof fn lemma_push(s: AppView, key: KeyEvent, message: Seq<char>)
    requires
        s.settled(),
        s.mode is Normal,
        key.code == Key::Char('P'),
    ensures
        ({
            let asked = s.handle_key_event(key);
            let started = asked.handle_reply(ReplyView::PushStarted);
            &&& asked == (AppView {
                mode: ModeView::Pushing(pushing_text()),
                pending: Some(RequestView::Push),
                ..s
            })
            &&& started == (AppView { mode: ModeView::Pushing(pushing_text()), ..s })
            &&& asked.handle_push_feedback(message).mode == ModeView::Pushing(message)
            &&& started.handle_push_feedback(message) == (AppView {
                mode: ModeView::Pushing(message),
                ..s
            })
        }),
{
}

/// Confirm and cancel close the push overlay and touch nothing else; in
/// normal mode the two keys change nothing.
pub proof fn lemma_dismissal(s: AppView, key: KeyEvent)
    requires
        s.settled(),
        key.code is Enter || key.code is Esc,
    ensures
        (s.mode is Pushing) ==> s.handle_key_event(key) == (AppView {
            mode: ModeView::Normal,
            ..s
        }),
        (s.mode is Normal) ==> s.handle_key_event(key) == s,
{
}

/// The mode changes along these ways and no others. A key is taken only in
/// a settled state. In normal mode the commit key opens the commit input,
/// given the focus on a status list that is not empty, and the push key
/// shows the push overlay with its first text. In commit input the cancel
/// key returns to normal mode. In the push overlay confirm and cancel return
/// to normal mode. A reply changes the mode only when it reports the
/// success of the commit that was asked for: then the mode is normal. A push
/// notice changes only the text of the push overlay.
pub proof fn lemma_mode_transitions(
    s: AppView,
    key: KeyEvent,
    reply: ReplyView,
    message: Seq<char>,
)
    ensures
        s.handle_key_event(key).mode == (if !s.settled() {
            s.mode
        } else {
            match s.mode {
                ModeView::Normal => if key.code == Key::Char('c') && s.active_panel
                    == ActivePanel::Status && s.status_files.len() > 0 {
                    ModeView::CommitInput
                } else if key.code == Key::Char('P') {
                    ModeView::Pushing(pushing_text())
                } else {
                    ModeView::Normal
                },
                ModeView::CommitInput => if key.code is Esc {
                    ModeView::Normal
                } else {
                    ModeView::CommitInput
                },
                ModeView::Pushing(text) => if key.code is Enter || key.code is Esc {
                    ModeView::Normal
                } else {
                    ModeView::Pushing(text)
                },
            }
        }),
        s.handle_reply(reply).mode == (if (s.pending matches Some(RequestView::Commit(_)))
            && reply == ReplyView::Committed(true) {
            ModeView::Normal
        } else {
            s.mode
        }),
        s.handle_push_feedback(message).mode == (if s.mode is Pushing {
            ModeView::Pushing(message)
        } else {
            s.mode
        }),
{
}

/// Answering requests comes to an end: each reply that answers the waiting
/// request, whatever it reports, leaves fewer steps to the settled state, and
/// a reply that answers nothing changes nothing. From any state at most four
/// replies settle it.
pub proof fn lemma_replies_settle(s: AppView, reply: ReplyView)
    ensures
        s.steps_to_settle() <= 4,
        s.steps_to_settle() == 0 <==> s.settled(),
        match s.pending {
            Some(request) => if answers(request, reply) {
                s.handle_reply(reply).steps_to_settle() < s.steps_to_settle()
            } else {
                s.handle_reply(reply) == s
            },
            None => s.handle_reply(reply) == s,
        },
{
}

/// A push is requested by the push key alone, in a settled state in normal
/// mode: never while the push overlay is shown, and never by a reply.
pub proof fn lemma_push_needs_normal_mode(s: AppView, key: KeyEvent, reply: ReplyView)
    requires
        s.pending != Some(RequestView::Push),
    ensures
        s.handle_key_event(key).pending == Some(RequestView::Push) ==> s.settled() && (s.mode
            is Normal) && key.code == Key::Char('P'),
        s.handle_reply(reply).pending != Some(RequestView::Push),
{
}

/// Toggling a path twice restores the side of the index it was on: where the
/// repository carries out each action (so that a staged path comes out
/// staged and an unstaged one unstaged), the status after the second toggle
/// is staged exactly if the status before the first was.
pub proof fn lemma_stage_toggle_twice(before: Status, between: Status, after: Status)
    requires
        between.is_staged() == toggle_of(before).leaves_staged(),
        after.is_staged() == toggle_of(between).leaves_staged(),
    ensures
        between.is_staged() != before.is_staged(),
        after.is_staged() == before.is_staged(),
        toggle_of(between) != toggle_of(before),
{
}

} // verus!
