//! The texts that the session browser draws: the rows of the session list, the
//! detail line with its volume bar, and the lines of the input box.
use ratatui::layout::{Constraint, Direction, Layout, Rect};
use vstd::prelude::*;

use crate::text::{decimal_text, digit_char, digit_str, is_digit, push_decimal};
use crate::tui::EditingField;
use crate::{Session, SessionView};

verus! {

/// The number of cells of a volume bar.
pub const BAR_CELLS: u32 = 20u32;

/// `n` copies of `c`.
pub open spec fn repeated(c: char, n: nat) -> Seq<char> {
    Seq::new(n, |_i: int| c)
}

/// `s` followed by as many spaces as make it `width` characters long
/// (`{:<width}`).
pub open spec fn padded_right(s: Seq<char>, width: nat) -> Seq<char> {
    if s.len() < width {
        s + repeated(' ', (width - s.len()) as nat)
    } else {
        s
    }
}

/// The number of filled cells of the bar for a level: the level's share of
/// twenty cells, rounded to the nearest (a share of five percent never lies
/// half-way between two cells).
pub open spec fn filled_cells(volume_percent: u32) -> nat {
    ((volume_percent + 2) / 5) as nat
}

/// The bar drawn for a level (at most 102 percent, which fills all twenty cells).
pub open spec fn bar_text(volume_percent: u32) -> Seq<char> {
    "["@ + repeated('█', filled_cells(volume_percent)) + repeated(
        '░',
        (BAR_CELLS - filled_cells(volume_percent)) as nat,
    ) + "]"@
}

/// How a process id is shown: `system` for process 0.
pub open spec fn pid_text(pid: u32) -> Seq<char> {
    if pid > 0 {
        decimal_text(pid as nat)
    } else {
        "system"@
    }
}

/// How a channel count is shown.
pub open spec fn channels_text(count: u32) -> Seq<char> {
    if count <= 1 {
        "mono"@
    } else {
        "stereo"@
    }
}

/// The text of the row of session `s` at position `index` of the list.
pub open spec fn row_text(index: usize, s: SessionView) -> Seq<char> {
    padded_right(decimal_text((index + 1) as nat), 4) + " "@ + padded_right(pid_text(s.pid), 12)
        + " "@ + s.name + " (L:"@ + decimal_text(s.left_percent as nat) + "% R:"@ + decimal_text(
        s.right_percent as nat,
    ) + "% "@ + channels_text(s.channel_count) + if s.mute {
        " MUTED"@
    } else {
        ""@
    } + ")"@
}

/// The text of the detail line of session `s`.
pub open spec fn detail_text(s: SessionView) -> Seq<char> {
    "  Volume: "@ + bar_text(s.volume_percent) + "  L: "@ + decimal_text(s.left_percent as nat)
        + "%"@ + "  R: "@ + decimal_text(s.right_percent as nat) + "%"@ + "  Channels: "@
        + channels_text(s.channel_count)
}

/// The label of the input box.
pub open spec fn label_text(field: EditingField) -> Seq<char> {
    match field {
        EditingField::BalanceLeft => "Left Volume (0-100)"@,
        EditingField::BalanceRight => "Right Volume (0-100)"@,
        EditingField::Volume => "Volume (0-100)"@,
        EditingField::Idle => ""@,
    }
}

fn append_repeated(out: &mut String, piece: &str, n: u32)
    requires
        piece@.len() == 1,
    ensures
        final(out)@ == old(out)@ + repeated(piece@[0], n as nat),
{
    let mut i: u32 = 0;
    while i < n
        invariant
            i <= n,
            piece@.len() == 1,
            out@ == old(out)@ + repeated(piece@[0], i as nat),
        decreases n - i,
    {
        out.append(piece);
        i = i + 1;
        assert(out@ =~= old(out)@ + repeated(piece@[0], i as nat));
    }
}

/// Appends `piece`, then spaces up to `width` characters for `piece`.
fn append_padded(out: &mut String, piece: &str, width: u32)
    ensures
        final(out)@ == old(out)@ + padded_right(piece@, width as nat),
{
    proof {
        reveal_strlit(" ");
    }
    let len = piece.unicode_len();
    out.append(piece);
    if len < width as usize {
        let missing = width - len as u32;
        append_repeated(out, " ", missing);
    }
    assert(out@ =~= old(out)@ + padded_right(piece@, width as nat));
}

/// The bar drawn for a level.
pub fn volume_bar(volume_percent: u32) -> (text: String)
    requires
        volume_percent <= 102,
    ensures
        text@ == bar_text(volume_percent),
{
    proof {
        reveal_strlit("█");
        reveal_strlit("░");
    }
    let filled = (volume_percent + 2) / 5;
    let mut text = String::from_str("[");
    append_repeated(&mut text, "█", filled);
    append_repeated(&mut text, "░", BAR_CELLS - filled);
    text.append("]");
    text
}

/// How a channel count is shown.
pub fn channels_word(count: u32) -> (w: &'static str)
    ensures
        w@ == channels_text(count),
{
    if count <= 1 {
        "mono"
    } else {
        "stereo"
    }
}

/// The marker before a row: an arrow for the selected session.
pub fn selection_marker(selected: bool) -> (m: &'static str)
    ensures
        m@ == if selected {
            "▸ "@
        } else {
            "  "@
        },
{
    if selected {
        "▸ "
    } else {
        "  "
    }
}

/// The text of the row of session `s` at position `index` of the list.
pub fn row(index: usize, s: &Session) -> (text: String)
    requires
        index < usize::MAX,
    ensures
        text@ == row_text(index, s@),
{
    let mut text = String::new();
    let mut position = String::new();
    push_decimal(&mut position, (index + 1) as u64);
    append_padded(&mut text, position.as_str(), 4);
    text.append(" ");
    let pid = if s.pid > 0 {
        let mut p = String::new();
        push_decimal(&mut p, s.pid as u64);
        p
    } else {
        String::from_str("system")
    };
    append_padded(&mut text, pid.as_str(), 12);
    text.append(" ");
    text.append(s.name.as_str());
    text.append(" (L:");
    push_decimal(&mut text, s.left_percent as u64);
    text.append("% R:");
    push_decimal(&mut text, s.right_percent as u64);
    text.append("% ");
    text.append(channels_word(s.channel_count));
    if s.mute {
        text.append(" MUTED");
    }
    proof {
        reveal_strlit("");
    }
    text.append(")");
    assert(text@ =~= row_text(index, s@));
    text
}

/// The text of the detail line of session `s`.
pub fn detail(s: &Session) -> (text: String)
    requires
        s.volume_percent <= 102,
    ensures
        text@ == detail_text(s@),
{
    let mut text = String::from_str("  Volume: ");
    let bar = volume_bar(s.volume_percent);
    text.append(bar.as_str());
    text.append("  L: ");
    push_decimal(&mut text, s.left_percent as u64);
    text.append("%");
    text.append("  R: ");
    push_decimal(&mut text, s.right_percent as u64);
    text.append("%");
    text.append("  Channels: ");
    text.append(channels_word(s.channel_count));
    assert(text@ =~= detail_text(s@));
    text
}

/// The label of the input box.
pub fn input_label(field: EditingField) -> (l: &'static str)
    ensures
        l@ == label_text(field),
{
    match field {
        EditingField::BalanceLeft => "Left Volume (0-100)",
        EditingField::BalanceRight => "Right Volume (0-100)",
        EditingField::Volume => "Volume (0-100)",
        EditingField::Idle => "",
    }
}

/// The line of the input box that shows the selected session's levels.
pub fn current_levels(s: &Session) -> (text: String)
    ensures
        text@ == "Current: L="@ + decimal_text(s.left_percent as nat) + "% R="@ + decimal_text(
            s.right_percent as nat,
        ) + "%  |  New value:"@,
{
    let mut text = String::from_str("Current: L=");
    push_decimal(&mut text, s.left_percent as u64);
    text.append("% R=");
    push_decimal(&mut text, s.right_percent as u64);
    text.append("%  |  New value:");
    text
}

/// The line of the input box that shows what was typed: `> `, the digits, `_`.
pub fn typed_line(input: &Vec<char>) -> (text: String)
    requires
        forall|i: int| 0 <= i < input@.len() ==> is_digit(#[trigger] input@[i]),
    ensures
        text@ == "> "@ + input@ + "_"@,
{
    let mut text = String::from_str("> ");
    let mut i: usize = 0;
    while i < input.len()
        invariant
            i <= input.len(),
            forall|j: int| 0 <= j < input@.len() ==> is_digit(#[trigger] input@[j]),
            text@ == "> "@ + input@.subrange(0, i as int),
        decreases input.len() - i,
    {
        let d = input[i] as u32 - 48;
        proof {
            crate::text::lemma_digit_char(d as nat);
            assert(is_digit(input@[i as int]));
            lemma_digit_is_char(input@[i as int]);
        }
        text.append(digit_str(d));
        i = i + 1;
        assert(text@ =~= "> "@ + input@.subrange(0, i as int));
    }
    text.append("_");
    assert(input@.subrange(0, input@.len() as int) =~= input@);
    text
}

proof fn lemma_digit_is_char(c: char)
    requires
        is_digit(c),
    ensures
        digit_char((c as u32 - 48) as nat) == c,
{
    let d = c as u32 - 48;
    assert(0 <= d < 10);
    if d == 0 {
        assert(c == '0');
    } else if d == 1 {
        assert(c == '1');
    } else if d == 2 {
        assert(c == '2');
    } else if d == 3 {
        assert(c == '3');
    } else if d == 4 {
        assert(c == '4');
    } else if d == 5 {
        assert(c == '5');
    } else if d == 6 {
        assert(c == '6');
    } else if d == 7 {
        assert(c == '7');
    } else if d == 8 {
        assert(c == '8');
    } else {
        assert(c == '9');
    }
}

/// A screen area: its left column, top row, width and height.
#[derive(Debug, Clone, Copy, PartialEq, Eq)]
pub struct Area {
    pub x: u16,
    pub y: u16,
    pub width: u16,
    pub height: u16,
}

/// `a - b`, or 0 where `b` is the larger (`saturating_sub`).
pub open spec fn minus_or_zero(a: u16, b: u16) -> u16 {
    if a >= b {
        (a - b) as u16
    } else {
        0
    }
}

/// The width of the message bar for a message of `len` bytes: the length
/// taken as a `u16` (its low sixteen bits), and four cells of margin.
pub open spec fn message_width(len: usize) -> int {
    (len % 0x10000) + 4
}

/// The message bar on a screen `width` cells wide and `height` rows high:
/// one row, two rows above the bottom, centred, as wide as the message and
/// its margins.
pub fn message_area(width: u16, height: u16, message_len: usize) -> (a: Area)
    requires
        message_width(message_len) <= u16::MAX,
    ensures
        a.width == message_width(message_len),
        a.height == 1,
        a.x == minus_or_zero(width, a.width) / 2,
        a.y == minus_or_zero(height, 2),
{
    let len16: u16 = (message_len % 0x10000) as u16;
    let w: u16 = len16 + 4;
    Area { x: width.saturating_sub(w) / 2, y: height.saturating_sub(2), width: w, height: 1 }
}

/// The middle part of `area` when ratatui's `Layout` splits it, downwards when
/// `vertical` and across otherwise, into three parts of `outer`, `middle` and
/// `outer` percent.
pub uninterp spec fn layout_middle(vertical: bool, outer: u16, middle: u16, area: Area) -> Area;

/// Calls ratatui's `Layout::split` with three `Constraint::Percentage` parts,
/// `outer`, `middle` and `outer`, in the direction that `vertical` names, and
/// gives back the middle part. Its result is named, not stated: the layout
/// solver decides it from these arguments alone.
#[verifier::external_body]
fn split_middle(vertical: bool, outer: u16, middle: u16, area: Area) -> (r: Area)
    ensures
        r == layout_middle(vertical, outer, middle, area),
{
    let direction = match vertical {
        true => Direction::Vertical,
        false => Direction::Horizontal,
    };
    let parts = Layout::default().direction(direction).constraints([
        Constraint::Percentage(outer),
        Constraint::Percentage(middle),
        Constraint::Percentage(outer),
    ]).split(Rect::new(area.x, area.y, area.width, area.height));
    Area { x: parts[1].x, y: parts[1].y, width: parts[1].width, height: parts[1].height }
}

/// The middle of `r`, `percent_x` percent of it wide and `percent_y` percent
/// high: the middle band of a split downwards, then the middle of that band
/// split across, each split leaving half the rest on either side.
pub fn centered_rect(percent_x: u16, percent_y: u16, r: Area) -> (a: Area)
    requires
        percent_x <= 100,
        percent_y <= 100,
    ensures
        a == layout_middle(
            false,
            ((100 - percent_x) / 2) as u16,
            percent_x,
            layout_middle(true, ((100 - percent_y) / 2) as u16, percent_y, r),
        ),
{
    let band = split_middle(true, (100 - percent_y) / 2, percent_y, r);
    split_middle(false, (100 - percent_x) / 2, percent_x, band)
}

} // verus!
