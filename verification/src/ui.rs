//! What the screen shows of a state, as far as it is decided and not drawn:
//! markers, colours, captions and the measures of the overlays.

use vstd::prelude::*;
use vstd::string::StrSliceExecFns;
use crate::app::ActivePanel;
use crate::types::diff_line::Color;
use crate::types::status_info::Status;

verus! {

/// The marker and the colour of a path in the status list. Changes of the
/// working tree come before changes of the index; of each, a new path comes
/// before a modified, a deleted and a renamed one. A status with none of
/// these reads as unknown.
pub open spec fn status_style(status: Status) -> (Seq<char>, Color) {
    if status.wt_new {
        ("A "@, Color::Green)
    } else if status.wt_modified {
        ("M "@, Color::Yellow)
    } else if status.wt_deleted {
        ("D "@, Color::Red)
    } else if status.wt_renamed {
        ("R "@, Color::Cyan)
    } else if status.index_new {
        ("[A]"@, Color::Green)
    } else if status.index_modified {
        ("[M]"@, Color::Yellow)
    } else if status.index_deleted {
        ("[D]"@, Color::Red)
    } else if status.index_renamed {
        ("[R]"@, Color::Cyan)
    } else {
        ("? "@, Color::DarkGray)
    }
}

/// The marker and the colour with which a path of the status list is shown.
pub fn get_status_style(status: Status) -> (style: (&'static str, Color))
    ensures
        (style.0@, style.1) == status_style(status),
{
    if status.wt_new {
        ("A ", Color::Green)
    } else if status.wt_modified {
        ("M ", Color::Yellow)
    } else if status.wt_deleted {
        ("D ", Color::Red)
    } else if status.wt_renamed {
        ("R ", Color::Cyan)
    } else if status.index_new {
        ("[A]", Color::Green)
    } else if status.index_modified {
        ("[M]", Color::Yellow)
    } else if status.index_deleted {
        ("[D]", Color::Red)
    } else if status.index_renamed {
        ("[R]", Color::Cyan)
    } else {
        ("? ", Color::DarkGray)
    }
}

/// The keys that the help line names for a panel.
pub open spec fn help_of(panel: ActivePanel) -> Seq<char> {
    match panel {
        ActivePanel::Commits => "↓↑: Navigate | <Tab>: Switch | <P>: Push | q: Quit"@,
        ActivePanel::Status =>
            "↓↑: Navigate | <Space>: Stage/Unstage | <c>: Commit | <Tab>: Switch | q: Quit"@,
    }
}

/// The help line for the panel that has the focus.
pub fn help_text(panel: ActivePanel) -> (text: &'static str)
    ensures
        text@ == help_of(panel),
{
    match panel {
        ActivePanel::Commits => "↓↑: Navigate | <Tab>: Switch | <P>: Push | q: Quit",
        ActivePanel::Status =>
            "↓↑: Navigate | <Space>: Stage/Unstage | <c>: Commit | <Tab>: Switch | q: Quit",
    }
}

/// The colours of a panel's border and of its selected line: white and light
/// blue with the focus, dark gray for both without it.
pub fn panel_colors(has_focus: bool) -> (colors: (Color, Color))
    ensures
        colors == if has_focus {
            (Color::White, Color::LightBlue)
        } else {
            (Color::DarkGray, Color::DarkGray)
        },
{
    if has_focus {
        (Color::White, Color::LightBlue)
    } else {
        (Color::DarkGray, Color::DarkGray)
    }
}

/// The abbreviation of a commit id: its first seven characters, or all of it
/// where it has no more.
pub fn short_id(id: &str) -> (short: &str)
    ensures
        short@ == if id@.len() <= 7 {
            id@
        } else {
            id@.subrange(0, 7)
        },
{
    if id.unicode_len() <= 7 {
        id
    } else {
        id.substring_char(0, 7)
    }
}

/// The measures of an overlay in the middle of the screen: the rows above
/// it, its own rows and the rows below it, then the share of the width to
/// its left, its own share and the share to its right, in percent.
#[derive(Clone, Copy, Debug, PartialEq, Eq, Structural)]
pub struct Centered {
    pub above: u16,
    pub height: u16,
    pub below: u16,
    pub left: u16,
    pub width: u16,
    pub right: u16,
}

/// Centres an overlay of `height` rows and `percent_x` percent of the width
/// on a screen of `rows` rows: what is left of the rows and of the width is
/// halved, rounding down, and put on either side.
pub fn centered_rect(percent_x: u16, height: u16, rows: u16) -> (centered: Centered)
    requires
        percent_x <= 100,
    ensures
        centered.height == height,
        centered.width == percent_x,
        centered.above == centered.below,
        centered.left == centered.right,
        centered.above == (if rows >= height {
            rows - height
        } else {
            0
        }) / 2,
        centered.left == (100 - percent_x) / 2,
{
    let spare: u16 = if rows >= height {
        rows - height
    } else {
        0
    };
    let margin: u16 = (100 - percent_x) / 2;
    Centered {
        above: spare / 2,
        height,
        below: spare / 2,
        left: margin,
        width: percent_x,
        right: margin,
    }
}

} // verus!
