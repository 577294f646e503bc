use audio_controller::tui::{App, AppMode, Command, EditingField, Key, Level, VolumeStep};
use audio_controller::{ControllerError, Session};

fn session(id: u32, mute: bool, left: u32, right: u32) -> Session {
    Session {
        id,
        name: format!("App {id}"),
        pid: id * 10,
        volume_percent: (left + right + 1) / 2,
        left_percent: left,
        right_percent: right,
        mute,
        device: None,
        channel_count: 2,
    }
}

fn three() -> Vec<Session> {
    vec![session(1, false, 50, 50), session(2, true, 100, 100), session(3, false, 20, 80)]
}

fn typed(app: &App) -> String {
    app.input().iter().collect()
}

#[test]
fn navigation_wraps_both_ways() {
    let mut app = App::new(three());
    assert_eq!(app.on_key(Key::Up), Command::Nothing);
    assert_eq!(app.selected(), 2);
    app.on_key(Key::Down);
    assert_eq!(app.selected(), 0);
    app.on_key(Key::Char('j'));
    app.on_key(Key::Char('j'));
    assert_eq!(app.selected(), 2);
    app.on_key(Key::Char('k'));
    assert_eq!(app.selected(), 1);
}

#[test]
fn navigation_on_empty_list_does_nothing() {
    let mut app = App::new(Vec::new());
    app.on_key(Key::Down);
    app.on_key(Key::Up);
    assert_eq!(app.selected(), 0);
    assert_eq!(app.on_key(Key::Char('m')), Command::Nothing);
    app.on_key(Key::Char('v'));
    assert_eq!(app.mode(), AppMode::Normal);
}

#[test]
fn quit_and_help() {
    let mut app = App::new(three());
    app.on_key(Key::Char('?'));
    assert_eq!(app.mode(), AppMode::Help);
    assert_eq!(app.on_key(Key::Char('q')), Command::Nothing);
    assert_eq!(app.mode(), AppMode::Normal);
    assert!(app.running());
    app.on_key(Key::Char('q'));
    assert!(!app.running());
}

#[test]
fn mute_toggles_the_selected_session() {
    let mut app = App::new(three());
    app.on_key(Key::Down);
    assert_eq!(app.on_key(Key::Char('m')), Command::SetMute { id: 2, mute: false });
    app.mute_done(Ok(()), vec![session(1, false, 50, 50)]);
    assert_eq!(app.message(), "Mute toggled");
    assert_eq!(app.sessions().len(), 1);
    app.mute_done(Err(ControllerError::NotFound), Vec::new());
    assert_eq!(app.message(), "Mute failed: Session not found");
}

#[test]
fn refresh_reports_and_clamps() {
    let mut app = App::new(three());
    app.on_key(Key::Up);
    assert_eq!(app.on_key(Key::Char('r')), Command::Refresh);
    app.refresh_done(Ok(vec![session(9, false, 1, 1)]));
    assert_eq!(app.message(), "Sessions refreshed");
    assert_eq!(app.selected(), 0);
    app.refresh_done(Err(ControllerError::Other(String::from("boom"))));
    assert_eq!(app.message(), "Refresh failed: Error: boom");
    assert_eq!(app.sessions().len(), 1);
    app.refresh_done(Ok(Vec::new()));
    assert_eq!(app.selected(), 0);
}

#[test]
fn volume_input_flow() {
    let mut app = App::new(three());
    app.on_key(Key::Char('v'));
    assert_eq!(app.mode(), AppMode::Editing);
    assert_eq!(app.editing(), EditingField::Volume);
    assert_eq!(app.on_key(Key::Enter), Command::Nothing);
    assert_eq!(app.message(), "Enter a value");
    for c in ['1', 'x', '2', '3', '4'] {
        app.on_key(Key::Char(c));
    }
    assert_eq!(typed(&app), "123");
    assert_eq!(app.on_key(Key::Enter), Command::Nothing);
    assert_eq!(app.message(), "Value must be 0-100");
    app.on_key(Key::Backspace);
    let c = app.on_key(Key::Enter);
    assert_eq!(
        c,
        Command::SetVolume {
            id: 1,
            left: Level::Percent(12),
            right: Level::Percent(12),
            step: VolumeStep::Volume { value: 12 }
        }
    );
    app.volume_done(VolumeStep::Volume { value: 12 }, Ok(()), three());
    assert_eq!(app.message(), "Volume set to 12%");
    assert_eq!(app.mode(), AppMode::Normal);
    assert_eq!(app.editing(), EditingField::Idle);
    assert_eq!(typed(&app), "");
}

#[test]
fn failed_volume_reports_the_error() {
    let mut app = App::new(three());
    app.on_key(Key::Char('v'));
    app.on_key(Key::Char('5'));
    let c = app.on_key(Key::Enter);
    assert!(matches!(c, Command::SetVolume { .. }));
    app.volume_done(VolumeStep::Volume { value: 5 }, Err(ControllerError::InvalidParameter), three());
    assert_eq!(app.message(), "Volume failed: Invalid parameter");
    assert_eq!(app.mode(), AppMode::Normal);
}

#[test]
fn balance_flow_sets_left_then_right() {
    let mut app = App::new(three());
    app.on_key(Key::Down);
    app.on_key(Key::Down);
    app.on_key(Key::Char('b'));
    app.on_key(Key::Char('3'));
    app.on_key(Key::Char('0'));
    let c = app.on_key(Key::Enter);
    assert_eq!(c, Command::SetVolume {
            id: 3,
            left: Level::Percent(30),
            right: Level::ListedRight,
            step: VolumeStep::BalanceLeft
        });
    let after_left = vec![session(1, false, 50, 50), session(2, true, 100, 100), session(3, false, 30, 80)];
    app.volume_done(VolumeStep::BalanceLeft, Ok(()), after_left.clone());
    assert_eq!(app.message(), "Enter Right (0-100)");
    assert_eq!(app.mode(), AppMode::Editing);
    assert_eq!(app.editing(), EditingField::BalanceRight);
    app.on_key(Key::Char('6'));
    app.on_key(Key::Char('0'));
    assert_eq!(app.on_key(Key::Enter), Command::ReloadForBalance { value: 60 });
    let c = app.balance_reloaded(after_left.clone(), 60);
    assert_eq!(
        c,
        Command::SetVolume {
            id: 3,
            left: Level::ListedLeft,
            right: Level::Percent(60),
            step: VolumeStep::BalanceRight { left: 30, right: 60 }
        }
    );
    app.volume_done(VolumeStep::BalanceRight { left: 30, right: 60 }, Ok(()), after_left);
    assert_eq!(app.message(), "Balance set: L=30%% R=60%");
    assert_eq!(app.mode(), AppMode::Normal);
}

#[test]
fn escape_discards_input() {
    let mut app = App::new(three());
    app.on_key(Key::Char('b'));
    app.on_key(Key::Char('7'));
    app.on_key(Key::Esc);
    assert_eq!(app.mode(), AppMode::Normal);
    assert_eq!(app.editing(), EditingField::Idle);
    assert_eq!(typed(&app), "");
}

#[test]
fn enter_on_emptied_list_closes_input() {
    let mut app = App::new(three());
    app.on_key(Key::Char('v'));
    app.mute_done(Ok(()), Vec::new());
    app.on_key(Key::Char('4'));
    assert_eq!(app.on_key(Key::Enter), Command::Nothing);
    assert_eq!(app.mode(), AppMode::Normal);
}

#[test]
fn message_expires_after_eight_ticks() {
    let mut app = App::new(three());
    app.on_key(Key::Char('r'));
    app.refresh_done(Ok(three()));
    for _ in 0..7 {
        app.tick();
        assert_eq!(app.message(), "Sessions refreshed");
    }
    app.tick();
    assert_eq!(app.message(), "");
    app.tick();
    assert_eq!(app.message(), "");
}
