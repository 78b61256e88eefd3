use git_tui::backend::{BackendError, PushOutcome};
use git_tui::git::{
    fetch_log, fetch_status, format_diff, format_diff_line, login_name, mark_line,
    next_credential, push_feedback, stage_toggle, CredentialSource, LogEntry, StageAction,
    StatusEntry, KEY_FILE, REMOTE,
};
use git_tui::types::diff_line::{Color, PatchLine};
use git_tui::types::status_info::Status;

fn clean() -> Status {
    Status {
        index_new: false,
        index_modified: false,
        index_deleted: false,
        index_renamed: false,
        index_typechange: false,
        wt_new: false,
        wt_modified: false,
        wt_deleted: false,
        wt_renamed: false,
    }
}

fn patch_line(origin: char, content: &[u8]) -> PatchLine {
    PatchLine { origin, content: content.to_vec() }
}

#[test]
fn log_keeps_order_and_fields() {
    let entries = vec![
        LogEntry {
            id: "aaa".to_string(),
            summary: Some("second".to_string()),
            author: Some("Ann".to_string()),
        },
        LogEntry {
            id: "bbb".to_string(),
            summary: Some("first".to_string()),
            author: Some("Bob".to_string()),
        },
    ];
    let commits = fetch_log(&entries);
    assert_eq!(commits.len(), 2);
    assert_eq!(commits[0].id, "aaa");
    assert_eq!(commits[0].message, "second");
    assert_eq!(commits[0].author, "Ann");
    assert_eq!(commits[1].id, "bbb");
    assert_eq!(commits[1].message, "first");
    assert_eq!(commits[1].author, "Bob");
}

#[test]
fn log_fills_in_missing_summary_and_author() {
    let entries = vec![LogEntry { id: "ccc".to_string(), summary: None, author: None }];
    let commits = fetch_log(&entries);
    assert_eq!(commits.len(), 1);
    assert_eq!(commits[0].id, "ccc");
    assert_eq!(commits[0].message, "No commit message");
    assert_eq!(commits[0].author, "Unknown");
}

#[test]
fn log_of_nothing_is_empty() {
    assert!(fetch_log(&Vec::new()).is_empty());
}

#[test]
fn status_keeps_order_paths_and_flags() {
    let mut modified = clean();
    modified.wt_modified = true;
    let mut added = clean();
    added.index_new = true;
    let entries = vec![
        StatusEntry { path: Some("a.txt".to_string()), status: modified },
        StatusEntry { path: Some("dir/b.txt".to_string()), status: added },
    ];
    let files = fetch_status(&entries);
    assert_eq!(files.len(), 2);
    assert_eq!(files[0].path, "a.txt");
    assert_eq!(files[0].status, modified);
    assert_eq!(files[1].path, "dir/b.txt");
    assert_eq!(files[1].status, added);
}

#[test]
fn status_reads_a_missing_path_as_empty() {
    let entries = vec![StatusEntry { path: None, status: clean() }];
    let files = fetch_status(&entries);
    assert_eq!(files.len(), 1);
    assert_eq!(files[0].path, "");
}

#[test]
fn unstaged_path_is_staged() {
    let mut status = clean();
    assert_eq!(stage_toggle(status), StageAction::Stage);
    status.wt_modified = true;
    assert_eq!(stage_toggle(status), StageAction::Stage);
    status.wt_new = true;
    status.wt_deleted = true;
    status.wt_renamed = true;
    assert_eq!(stage_toggle(status), StageAction::Stage);
}

#[test]
fn each_index_flag_alone_makes_a_path_staged() {
    let mut status = clean();
    status.index_new = true;
    assert_eq!(stage_toggle(status), StageAction::Unstage);
    let mut status = clean();
    status.index_modified = true;
    assert_eq!(stage_toggle(status), StageAction::Unstage);
    let mut status = clean();
    status.index_deleted = true;
    assert_eq!(stage_toggle(status), StageAction::Unstage);
    let mut status = clean();
    status.index_renamed = true;
    assert_eq!(stage_toggle(status), StageAction::Unstage);
    let mut status = clean();
    status.index_typechange = true;
    assert_eq!(stage_toggle(status), StageAction::Unstage);
}

#[test]
fn staged_path_with_further_changes_is_unstaged() {
    let mut status = clean();
    status.index_modified = true;
    status.wt_modified = true;
    assert!(status.staged());
    assert_eq!(stage_toggle(status), StageAction::Unstage);
}

#[test]
fn toggling_twice_restores_the_side() {
    // The repository carries out each action: staging leaves the path
    // staged, unstaging leaves it with its change in the working tree.
    let mut unstaged = clean();
    unstaged.wt_modified = true;
    let mut staged = clean();
    staged.index_modified = true;

    let first = stage_toggle(unstaged);
    assert_eq!(first, StageAction::Stage);
    let second = stage_toggle(staged);
    assert_eq!(second, StageAction::Unstage);
    assert_eq!(stage_toggle(unstaged), first);
    assert_ne!(first, second);
    assert_eq!(unstaged.staged(), false);
    assert_eq!(staged.staged(), true);
}

#[test]
fn added_line_is_green() {
    let line = format_diff_line(&patch_line('+', b"new text\n"));
    assert_eq!(line.content, "+new text\n");
    assert_eq!(line.color, Some(Color::Green));
}

#[test]
fn removed_line_is_red() {
    let line = format_diff_line(&patch_line('-', b"old text\n"));
    assert_eq!(line.content, "-old text\n");
    assert_eq!(line.color, Some(Color::Red));
}

#[test]
fn header_lines_are_cyan() {
    let hunk = format_diff_line(&patch_line('H', b"@@ -1 +1 @@\n"));
    assert_eq!(hunk.content, "H@@ -1 +1 @@\n");
    assert_eq!(hunk.color, Some(Color::Cyan));
    let file = format_diff_line(&patch_line('F', b"diff --git a/x b/x\n"));
    assert_eq!(file.content, "Fdiff --git a/x b/x\n");
    assert_eq!(file.color, Some(Color::Cyan));
}

#[test]
fn other_lines_have_no_color() {
    let context = format_diff_line(&patch_line(' ', b"same\n"));
    assert_eq!(context.content, " same\n");
    assert_eq!(context.color, None);
    let lower = format_diff_line(&patch_line('h', b"x"));
    assert_eq!(lower.color, None);
}

#[test]
fn line_without_bytes_is_its_marker() {
    let line = format_diff_line(&patch_line('+', b""));
    assert_eq!(line.content, "+");
}

#[test]
fn text_beyond_ascii_is_decoded() {
    let line = format_diff_line(&patch_line('+', "größer ↑".as_bytes()));
    assert_eq!(line.content, "+größer ↑");
}

#[test]
fn bytes_that_are_no_text_are_replaced() {
    let line = format_diff_line(&patch_line('-', &[b'a', 0xff, b'b']));
    assert_eq!(line.content, "-a\u{fffd}b");
    assert_eq!(line.color, Some(Color::Red));
}

#[test]
fn diff_keeps_the_order_of_the_patch() {
    let lines = vec![
        patch_line('F', b"diff --git a/a.txt b/a.txt\n"),
        patch_line('H', b"@@ -1 +1 @@\n"),
        patch_line('-', b"one\n"),
        patch_line('+', b"two\n"),
        patch_line(' ', b"three\n"),
    ];
    let shown = format_diff(&lines);
    assert_eq!(shown.len(), 5);
    assert_eq!(shown[0].content, "Fdiff --git a/a.txt b/a.txt\n");
    assert_eq!(shown[1].content, "H@@ -1 +1 @@\n");
    assert_eq!(shown[2].content, "-one\n");
    assert_eq!(shown[3].content, "+two\n");
    assert_eq!(shown[4].content, " three\n");
    assert_eq!(shown[0].color, Some(Color::Cyan));
    assert_eq!(shown[1].color, Some(Color::Cyan));
    assert_eq!(shown[2].color, Some(Color::Red));
    assert_eq!(shown[3].color, Some(Color::Green));
    assert_eq!(shown[4].color, None);
}

#[test]
fn diff_of_an_empty_patch_is_empty() {
    assert!(format_diff(&Vec::new()).is_empty());
}

#[test]
fn push_success_notice() {
    assert_eq!(push_feedback(&PushOutcome::Pushed), "push successful");
}

#[test]
fn push_failure_notice_carries_the_description() {
    let outcome = PushOutcome::Failed(BackendError { description: "remote hung up".to_string() });
    assert_eq!(push_feedback(&outcome), "push failed: remote hung up");
}

#[test]
fn unopened_repository_notice_carries_the_description() {
    let outcome = PushOutcome::Unopened(BackendError { description: "not found".to_string() });
    assert_eq!(push_feedback(&outcome), "Failed to open repo: not found");
}

#[test]
fn marked_line_puts_the_marker_first() {
    let line = mark_line('+', "text");
    assert_eq!(line.content, "+text");
    assert_eq!(line.color, Some(Color::Green));
    let line = mark_line('>', "");
    assert_eq!(line.content, ">");
    assert_eq!(line.color, None);
}

#[test]
fn agent_is_tried_before_the_key_file() {
    assert_eq!(next_credential(0), Some(CredentialSource::Agent));
    assert_eq!(next_credential(1), Some(CredentialSource::KeyFile));
}

#[test]
fn no_source_is_left_after_the_key_file() {
    assert_eq!(next_credential(2), None);
    assert_eq!(next_credential(usize::MAX), None);
}

#[test]
fn login_name_is_taken_from_the_address() {
    assert_eq!(login_name(Some("alice")), "alice");
    assert_eq!(login_name(Some("")), "");
}

#[test]
fn login_name_defaults_to_git() {
    assert_eq!(login_name(None), "git");
}

#[test]
fn push_goes_to_origin_with_the_default_key() {
    assert_eq!(REMOTE, "origin");
    assert_eq!(KEY_FILE, ".ssh/id_rsa");
}
