//! What is computed from the repository's answers: the records of the two
//! lists, the lines of the diff panel, the side to which a path is toggled,
//! and the notice that ends a push.

use vstd::prelude::*;
use vstd::string::StringExecFns;
use vstd::utf8::{decode_utf8, valid_utf8};
use crate::backend::{PushOutcome, PushOutcomeView};
use crate::types::commit_info::{CommitInfo, CommitView};
use crate::types::diff_line::{Color, DiffLine, DiffLineView, PatchLine, PatchLineView};
use crate::types::status_info::{Status, StatusInfo, StatusView};

verus! {

/// The text that `String::from_utf8_lossy` makes of a run of bytes.
pub uninterp spec fn lossy_text(bytes: Seq<u8>) -> Seq<char>;

/// Calls `String::from_utf8_lossy` and takes the text as an owned string. The
/// result is a function of the bytes alone; bytes that are valid UTF-8 are
/// decoded as they stand, which is all that is claimed of its content.
#[verifier::external_body]
fn utf8_lossy(bytes: &[u8]) -> (text: String)
    ensures
        text@ == lossy_text(bytes@),
        valid_utf8(bytes@) ==> text@ == decode_utf8(bytes@),
{
    String::from_utf8_lossy(bytes).into_owned()
}

/// Calls `String::push`: the character is added at the end of the text.
#[verifier::external_body]
fn push_char(text: &mut String, c: char)
    ensures
        final(text)@ == old(text)@.push(c),
{
    text.push(c)
}

/// One commit as the walk over the history yields it. The summary and the
/// author's name are missing where the repository cannot give them as text.
#[derive(Clone, Debug, PartialEq, Eq)]
pub struct LogEntry {
    pub id: String,
    pub summary: Option<String>,
    pub author: Option<String>,
}

/// The mathematical content of a [`LogEntry`].
pub struct LogEntryView {
    pub id: Seq<char>,
    pub summary: Option<Seq<char>>,
    pub author: Option<Seq<char>>,
}

impl View for LogEntry {
    type V = LogEntryView;

    open spec fn view(&self) -> LogEntryView {
        LogEntryView {
            id: self.id@,
            summary: match self.summary {
                Some(s) => Some(s@),
                None => None,
            },
            author: match self.author {
                Some(s) => Some(s@),
                None => None,
            },
        }
    }
}

impl DeepView for LogEntry {
    type V = LogEntryView;

    open spec fn deep_view(&self) -> LogEntryView {
        self@
    }
}

/// The record of one commit: a missing summary reads "No commit message", a
/// missing author reads "Unknown".
pub open spec fn commit_of(entry: LogEntryView) -> CommitView {
    CommitView {
        id: entry.id,
        message: match entry.summary {
            Some(s) => s,
            None => "No commit message"@,
        },
        author: match entry.author {
            Some(s) => s,
            None => "Unknown"@,
        },
    }
}

/// The commit list made of the entries of a walk, in the order of the walk.
pub fn fetch_log(entries: &Vec<LogEntry>) -> (commits: Vec<CommitInfo>)
    ensures
        commits.deep_view() == entries.deep_view().map_values(|e: LogEntryView| commit_of(e)),
{
    let mut commits: Vec<CommitInfo> = Vec::new();
    let mut i: usize = 0;
    while i < entries.len()
        invariant
            i <= entries.len(),
            commits.len() == i,
            forall|j: int| 0 <= j < i ==> (#[trigger] commits[j])@ == commit_of(entries[j]@),
        decreases entries.len() - i,
    {
        let entry = &entries[i];
        let message = match &entry.summary {
            Some(s) => s.clone(),
            None => "No commit message".to_owned(),
        };
        let author = match &entry.author {
            Some(s) => s.clone(),
            None => "Unknown".to_owned(),
        };
        commits.push(CommitInfo { id: entry.id.clone(), message, author });
        i += 1;
    }
    assert(commits.deep_view() =~= entries.deep_view().map_values(
        |e: LogEntryView| commit_of(e),
    ));
    commits
}

/// One path as the repository's status report yields it. The path is missing
/// where the repository cannot give it as text.
#[derive(Clone, Debug, PartialEq, Eq)]
pub struct StatusEntry {
    pub path: Option<String>,
    pub status: Status,
}

/// The mathematical content of a [`StatusEntry`].
pub struct StatusEntryView {
    pub path: Option<Seq<char>>,
    pub status: Status,
}

impl View for StatusEntry {
    type V = StatusEntryView;

    open spec fn view(&self) -> StatusEntryView {
        StatusEntryView {
            path: match self.path {
                Some(p) => Some(p@),
                None => None,
            },
            status: self.status,
        }
    }
}

impl DeepView for StatusEntry {
    type V = StatusEntryView;

    open spec fn deep_view(&self) -> StatusEntryView {
        self@
    }
}

/// The record of one path: a missing path reads as the empty text.
pub open spec fn status_of(entry: StatusEntryView) -> StatusView {
    StatusView {
        path: match entry.path {
            Some(p) => p,
            None => Seq::empty(),
        },
        status: entry.status,
    }
}

/// The status list made of the entries of a status report, in the order of the report.
pub fn fetch_status(entries: &Vec<StatusEntry>) -> (files: Vec<StatusInfo>)
    ensures
        files.deep_view() == entries.deep_view().map_values(|e: StatusEntryView| status_of(e)),
{
    let mut files: Vec<StatusInfo> = Vec::new();
    let mut i: usize = 0;
    while i < entries.len()
        invariant
            i <= entries.len(),
            files.len() == i,
            forall|j: int| 0 <= j < i ==> (#[trigger] files[j])@ == status_of(entries[j]@),
        decreases entries.len() - i,
    {
        let entry = &entries[i];
        let path = match &entry.path {
            Some(p) => p.clone(),
            None => String::new(),
        };
        files.push(StatusInfo { path, status: entry.status });
        i += 1;
    }
    assert(files.deep_view() =~= entries.deep_view().map_values(
        |e: StatusEntryView| status_of(e),
    ));
    files
}

/// The two things that can be done to a path of the working tree.
#[derive(Clone, Copy, Debug, PartialEq, Eq, Structural)]
pub enum StageAction {
    /// Add the path to the index.
    Stage,
    /// Reset the path's index entry to the last commit's version.
    Unstage,
}

impl StageAction {
    /// Whether the index holds a change of the path once the action is done.
    pub open spec fn leaves_staged(self) -> bool {
        self is Stage
    }
}

/// The action that inverts a status: a staged path is unstaged, any other is staged.
pub open spec fn toggle_of(status: Status) -> StageAction {
    if status.is_staged() {
        StageAction::Unstage
    } else {
        StageAction::Stage
    }
}

/// Picks the action that moves a path to the other side of the index.
pub fn stage_toggle(status: Status) -> (action: StageAction)
    ensures
        action == toggle_of(status),
{
    if status.staged() {
        StageAction::Unstage
    } else {
        StageAction::Stage
    }
}

/// The colour of a patch line, told by its marker: additions green, removals
/// red, hunk and file headers cyan, anything else uncoloured.
pub open spec fn origin_color(origin: char) -> Option<Color> {
    if origin == '+' {
        Some(Color::Green)
    } else if origin == '-' {
        Some(Color::Red)
    } else if origin == 'H' || origin == 'F' {
        Some(Color::Cyan)
    } else {
        None
    }
}

/// One line of the diff panel made of a marker and a text: the marker comes
/// first and gives the colour.
pub open spec fn marked_line(origin: char, text: Seq<char>) -> DiffLineView {
    DiffLineView { content: seq![origin] + text, color: origin_color(origin) }
}

/// One line of the diff panel: the marker, then the line's bytes read as text.
pub open spec fn format_line(line: PatchLineView) -> DiffLineView {
    marked_line(line.origin, lossy_text(line.content))
}

/// The lines of the diff panel for the lines of a patch, one for one.
pub open spec fn format_lines(lines: Seq<PatchLineView>) -> Seq<DiffLineView> {
    lines.map_values(|l: PatchLineView| format_line(l))
}

/// Makes a line of the diff panel of a marker and the text that follows it.
pub fn mark_line(origin: char, text: &str) -> (shown: DiffLine)
    ensures
        shown@ == marked_line(origin, text@),
{
    let color = if origin == '+' {
        Some(Color::Green)
    } else if origin == '-' {
        Some(Color::Red)
    } else if origin == 'H' || origin == 'F' {
        Some(Color::Cyan)
    } else {
        None
    };
    let mut content = String::new();
    push_char(&mut content, origin);
    content.append(text);
    assert(content@ =~= seq![origin] + text@);
    DiffLine { content, color }
}

/// Formats one line of a patch for the diff panel. Bytes that are valid UTF-8
/// are shown as the text they encode.
pub fn format_diff_line(line: &PatchLine) -> (shown: DiffLine)
    ensures
        shown@ == format_line(line@),
        valid_utf8(line.content@) ==> shown@ == marked_line(
            line.origin,
            decode_utf8(line.content@),
        ),
{
    let text = utf8_lossy(line.content.as_slice());
    mark_line(line.origin, text.as_str())
}

/// Formats the lines of a patch for the diff panel.
pub fn format_diff(lines: &Vec<PatchLine>) -> (shown: Vec<DiffLine>)
    ensures
        shown.deep_view() == format_lines(lines.deep_view()),
{
    let mut shown: Vec<DiffLine> = Vec::new();
    let mut i: usize = 0;
    while i < lines.len()
        invariant
            i <= lines.len(),
            shown.len() == i,
            forall|j: int| 0 <= j < i ==> (#[trigger] shown[j])@ == format_line(lines[j]@),
        decreases lines.len() - i,
    {
        let line = format_diff_line(&lines[i]);
        shown.push(line);
        i += 1;
    }
    assert(shown.deep_view() =~= format_lines(lines.deep_view()));
    shown
}

/// The remote to which the current branch is pushed.
pub const REMOTE: &'static str = "origin";

/// Where the key file for the remote lies, below the home directory.
pub const KEY_FILE: &'static str = ".ssh/id_rsa";

/// A way to prove one's identity to the remote.
#[derive(Clone, Copy, Debug, PartialEq, Eq, Structural)]
pub enum CredentialSource {
    /// An identity that the key agent holds.
    Agent,
    /// The key file below the home directory.
    KeyFile,
}

/// The sources of a credential, in the order in which they are tried.
pub open spec fn credential_order() -> Seq<CredentialSource> {
    seq![CredentialSource::Agent, CredentialSource::KeyFile]
}

/// The source to try once `failed` sources have failed: the next in the
/// order, or none when all have failed.
pub fn next_credential(failed: usize) -> (next: Option<CredentialSource>)
    ensures
        next == if failed < credential_order().len() {
            Some(credential_order()[failed as int])
        } else {
            None
        },
{
    if failed == 0 {
        Some(CredentialSource::Agent)
    } else if failed == 1 {
        Some(CredentialSource::KeyFile)
    } else {
        None
    }
}

/// The name to log in with: the one that the address of the remote gives, or
/// "git" where it gives none.
pub fn login_name<'a>(from_url: Option<&'a str>) -> (name: &'a str)
    ensures
        name@ == match from_url {
            Some(given) => given@,
            None => "git"@,
        },
{
    match from_url {
        Some(given) => given,
        None => "git",
    }
}

/// The notice that ends a push.
pub open spec fn feedback_of(outcome: PushOutcomeView) -> Seq<char> {
    match outcome {
        PushOutcomeView::Pushed => "push successful"@,
        PushOutcomeView::Failed(e) => "push failed: "@ + e,
        PushOutcomeView::Unopened(e) => "Failed to open repo: "@ + e,
    }
}

/// Words the outcome of a push for the operator.
pub fn push_feedback(outcome: &PushOutcome) -> (message: String)
    ensures
        message@ == feedback_of(outcome@),
{
    match outcome {
        PushOutcome::Pushed => "push successful".to_owned(),
        PushOutcome::Failed(e) => "push failed: ".to_owned().concat(e.description.as_str()),
        PushOutcome::Unopened(e) => "Failed to open repo: ".to_owned().concat(
            e.description.as_str(),
        ),
    }
}

} // verus!
