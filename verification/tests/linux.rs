use audio_controller::linux::{parse_sessions, pactl_failure, LinuxController};
use audio_controller::ControllerError;

const LISTING: &str = "Ignored line before any session\n\
Sink Input #42\n\
\tDriver: protocol-native.c\n\
\tMute: no\n\
\tvolume: front-left: 65536 / 100% / 0.00 dB,   front-right: 65536 / 100% / 0.00 dB\n\
\tProperties:\n\
\t\tapplication.name = \"Firefox\"\n\
\t\tapplication.process.id = \"1234\"\n\
\t\tsink = alsa_output.pci \n\
Sink Input #43\r\n\
\tMute: YES\n\
\tvolume: mono: 32768 /  50% / -18.06 dB\n\
\tapplication.process.id = 777\n\
Sink Input #abc\n\
\tapplication.name = \"dropped\"\n";

fn args(c: &audio_controller::linux::PactlCommand) -> Vec<&str> {
    c.args.iter().map(|s| s.as_str()).collect()
}

#[test]
fn parse_reads_each_session_block() {
    let s = parse_sessions(LISTING);
    assert_eq!(s.len(), 2);
    assert_eq!(s[0].id, 42);
    // The name keeps the space after `=` and so its opening quote, as `trim_matches` leaves it.
    assert_eq!(s[0].name, " \"Firefox");
    let reference = " \"Firefox\"".trim_matches('"');
    assert_eq!(s[0].name, reference);
    assert_eq!(s[0].pid, 0);
    assert_eq!(s[0].volume_percent, 100);
    assert_eq!(s[0].left_percent, 100);
    assert_eq!(s[0].right_percent, 100);
    assert_eq!(s[0].channel_count, 2);
    assert!(!s[0].mute);
    assert_eq!(s[0].device.as_deref(), Some("alsa_output.pci"));
    assert_eq!(s[1].id, 43);
    assert_eq!(s[1].name, "");
    assert_eq!(s[1].pid, 777);
    assert_eq!(s[1].volume_percent, 50);
    assert_eq!(s[1].channel_count, 1);
    assert!(s[1].mute);
    assert_eq!(s[1].device, None);
}

#[test]
fn parse_of_empty_output_is_empty() {
    assert!(parse_sessions("").is_empty());
    assert!(parse_sessions("\n\n   \n").is_empty());
    assert!(parse_sessions("Sink Input #0\n\tMute: yes\n").is_empty());
}

#[test]
fn parse_keeps_default_volume_without_number() {
    let s = parse_sessions("Sink Input #7\nvolume: front-left: 100,\n");
    assert_eq!(s.len(), 1);
    assert_eq!(s[0].volume_percent, 100);
    assert_eq!(s[0].channel_count, 2);
}

#[test]
fn refresh_files_sessions_by_id_later_wins() {
    let mut c = LinuxController::new_checked(true).unwrap();
    c.refresh_from_output("Sink Input #5\nMute: yes\nSink Input #5\nMute: no\nSink Input #9\n");
    let mut list = c.list_sessions();
    list.sort_by_key(|s| s.id);
    assert_eq!(list.len(), 2);
    assert_eq!(list[0].id, 5);
    assert!(!list[0].mute);
    assert_eq!(list[1].id, 9);
}

#[test]
fn refresh_replaces_previous_sessions() {
    let mut c = LinuxController::new_checked(true).unwrap();
    c.refresh_from_output(LISTING);
    assert_eq!(c.list_sessions().len(), 2);
    c.refresh_from_output("Sink Input #1\n");
    let list = c.list_sessions();
    assert_eq!(list.len(), 1);
    assert_eq!(list[0].id, 1);
}

#[test]
fn missing_pactl_is_a_platform_error() {
    match LinuxController::new_checked(false) {
        Err(ControllerError::PlatformError(m)) => {
            assert_eq!(m, "pactl not found. Install pulseaudio-utils")
        }
        _ => panic!("expected an error"),
    }
    assert!(LinuxController::new_checked(true).unwrap().list_sessions().is_empty());
}

#[test]
fn list_command_lists_sink_inputs() {
    assert_eq!(args(&LinuxController::list_command()), ["list", "sink-inputs"]);
}

#[test]
fn volume_command_names_the_level() {
    let c = LinuxController::new_checked(true).unwrap();
    let cmd = c.volume_command(12, 80).unwrap();
    assert_eq!(args(&cmd), ["set-sink-input-volume", "12", "80%"]);
    assert_eq!(args(&c.volume_command(3, 0).unwrap()), ["set-sink-input-volume", "3", "0%"]);
    assert!(matches!(c.volume_command(0, 50), Err(ControllerError::InvalidParameter)));
}

#[test]
fn mute_command_skips_a_state_already_shown() {
    let mut c = LinuxController::new_checked(true).unwrap();
    c.refresh_from_output(LISTING);
    assert!(matches!(c.mute_command(0, true), Err(ControllerError::InvalidParameter)));
    assert!(c.mute_command(43, true).unwrap().is_none());
    let cmd = c.mute_command(42, true).unwrap().unwrap();
    assert_eq!(args(&cmd), ["set-sink-input-mute", "42", "1"]);
    let cmd = c.mute_command(99, false).unwrap().unwrap();
    assert_eq!(args(&cmd), ["set-sink-input-mute", "99", "0"]);
}

#[test]
fn recorded_mute_is_shown_and_then_skipped() {
    let mut c = LinuxController::new_checked(true).unwrap();
    c.refresh_from_output(LISTING);
    c.record_mute(42, true);
    assert!(c.mute_command(42, true).unwrap().is_none());
    let list = c.list_sessions();
    let s = list.iter().find(|s| s.id == 42).unwrap();
    assert!(s.mute);
    c.record_mute(1000, true);
    assert_eq!(c.list_sessions().len(), 2);
}

#[test]
fn recorded_volume_is_shown() {
    let mut c = LinuxController::new_checked(true).unwrap();
    c.refresh_from_output(LISTING);
    c.record_volume(43, 80);
    let list = c.list_sessions();
    let s = list.iter().find(|s| s.id == 43).unwrap();
    assert_eq!((s.volume_percent, s.left_percent, s.right_percent), (80, 80, 80));
    let other = list.iter().find(|s| s.id == 42).unwrap();
    assert_eq!(other.volume_percent, 100);
}

#[test]
fn pactl_failure_trims_stderr() {
    match pactl_failure("  Failure: No such entity\n") {
        ControllerError::PlatformError(m) => assert_eq!(m, "pactl error: Failure: No such entity"),
        _ => panic!("expected a platform error"),
    }
}

#[test]
fn parsing_a_concatenation_concatenates() {
    let a = "noise before\nSink Input #1\nMute: yes\n";
    let b = "  Sink Input #2\nvolume: x: 1 / 30% / 0 dB\n";
    let joined = format!("{a}{b}");
    let whole = parse_sessions(&joined);
    let mut parts = parse_sessions(a);
    parts.extend(parse_sessions(b));
    assert_eq!(whole, parts);
    assert_eq!(parse_sessions(&format!("junk\nmore junk\n{b}")), parse_sessions(b));
}

#[test]
fn refresh_keeps_the_last_block_of_each_id() {
    let mut c = LinuxController::new_checked(true).unwrap();
    c.refresh_from_output("Sink Input #5\nMute: yes\nSink Input #6\nSink Input #5\nvolume: a: 1 / 40%\n");
    let mut list = c.list_sessions();
    list.sort_by_key(|s| s.id);
    assert_eq!(list.len(), 2);
    assert_eq!((list[0].id, list[0].mute, list[0].volume_percent), (5, false, 40));
    assert_eq!(list[1].id, 6);
}
