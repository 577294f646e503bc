use audio_controller::screen::{
    channels_word, current_levels, detail, input_label, row, selection_marker, typed_line,
    volume_bar, centered_rect, message_area, Area,
};
use ratatui::layout::{Constraint, Direction, Layout, Rect};
use audio_controller::tui::EditingField;
use audio_controller::Session;

fn session(pid: u32, volume: u32, mute: bool, channels: u32) -> Session {
    Session {
        id: 4,
        name: String::from("Music"),
        pid,
        volume_percent: volume,
        left_percent: 30,
        right_percent: 70,
        mute,
        device: None,
        channel_count: channels,
    }
}

fn float_bar(volume: f32) -> String {
    let filled = (volume * 20.0).round() as usize;
    let empty = 20 - filled;
    format!("[{}{}]", "█".repeat(filled), "░".repeat(empty))
}

#[test]
fn bar_matches_the_float_rounding() {
    for p in 0u32..=102 {
        assert_eq!(volume_bar(p), float_bar(p as f32 / 100.0), "{p}");
    }
    assert_eq!(volume_bar(50), format!("[{}{}]", "█".repeat(10), "░".repeat(10)));
}

#[test]
fn rows_pad_like_format() {
    let s = session(1234, 50, false, 2);
    assert_eq!(
        row(0, &s),
        format!("{:<4} {:<12} {} (L:{}% R:{}% {}{})", 1, "1234", "Music", 30, 70, "stereo", "")
    );
    let system = session(0, 50, true, 1);
    assert_eq!(row(99999, &system), "100000 system       Music (L:30% R:70% mono MUTED)");
    assert_eq!(selection_marker(true), "▸ ");
    assert_eq!(selection_marker(false), "  ");
    assert_eq!(channels_word(0), "mono");
    assert_eq!(channels_word(6), "stereo");
}

#[test]
fn detail_line() {
    let s = session(1, 65, false, 2);
    assert_eq!(
        detail(&s),
        format!("  Volume: {}  L: 30%  R: 70%  Channels: stereo", float_bar(0.65))
    );
}

#[test]
fn input_box_lines() {
    assert_eq!(input_label(EditingField::Volume), "Volume (0-100)");
    assert_eq!(input_label(EditingField::BalanceLeft), "Left Volume (0-100)");
    assert_eq!(input_label(EditingField::BalanceRight), "Right Volume (0-100)");
    assert_eq!(input_label(EditingField::Idle), "");
    assert_eq!(current_levels(&session(1, 1, false, 2)), "Current: L=30% R=70%  |  New value:");
    assert_eq!(typed_line(&vec!['4', '0']), "> 40_");
    assert_eq!(typed_line(&Vec::new()), "> _");
}

#[test]
fn message_bar_is_centred_two_rows_from_the_bottom() {
    assert_eq!(message_area(80, 24, 10), Area { x: 33, y: 22, width: 14, height: 1 });
    assert_eq!(message_area(81, 24, 10), Area { x: 33, y: 22, width: 14, height: 1 });
    assert_eq!(message_area(10, 1, 20), Area { x: 0, y: 0, width: 24, height: 1 });
    assert_eq!(message_area(100, 10, 0x10000 + 2), Area { x: 47, y: 8, width: 6, height: 1 });
}

fn middle(direction: Direction, outer: u16, middle: u16, r: Rect) -> Rect {
    Layout::default()
        .direction(direction)
        .constraints([
            Constraint::Percentage(outer),
            Constraint::Percentage(middle),
            Constraint::Percentage(outer),
        ])
        .split(r)[1]
}

#[test]
fn centred_area_is_the_middle_of_the_middle_band() {
    let screen = Rect::new(0, 0, 100, 40);
    let band = middle(Direction::Vertical, 22, 55, screen);
    let expected = middle(Direction::Horizontal, 20, 60, band);
    let got = centered_rect(60, 55, Area { x: 0, y: 0, width: 100, height: 40 });
    assert_eq!(got, Area { x: expected.x, y: expected.y, width: expected.width, height: expected.height });
    assert_ne!(got, Area { x: 0, y: 0, width: 100, height: 40 });
    assert!(got.width < 100 && got.height < 40);
}
