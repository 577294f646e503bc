use audio_controller::windows::enumerator::{E_COMMUNICATIONS, E_CONSOLE, E_MULTIMEDIA};
use audio_controller::windows::error::{
    AUDCLNT_E_DEVICE_INVALIDATED, AUDCLNT_E_ENDPOINT_CREATE_FAILED, AUDCLNT_E_NOT_STOPPED,
    AUDCLNT_E_SERVICE_NOT_RUNNING, E_ACCESSDENIED, E_INVALIDARG, E_NOINTERFACE, E_NOTIMPL,
};
use audio_controller::windows::session::{session_name, volume_plan};
use audio_controller::windows::{
    ChannelLevel, ComError, ComGuard, DeviceRole, Discovery, EnumeratorConfig, SessionEnumerator,
    VolumePlan, WindowsController, WindowsError, HRESULT,
};
use audio_controller::windows::utils::{
    device_display_name, module_name_units, process_display_name, variant_text_kind,
    ProcessLookup, VariantText,
};
use audio_controller::{ControllerError, Session};
use windows_sys::Win32::Foundation as Foundation;
use windows_sys::Win32::Media::Audio;

fn com(code: i32) -> ComError {
    ComError { code: HRESULT(code), text: String::from("details") }
}

fn session(id: u32, pid: u32, volume: u32) -> Session {
    Session {
        id,
        name: String::from("app"),
        pid,
        volume_percent: volume,
        left_percent: volume,
        right_percent: volume,
        mute: false,
        device: Some(String::from("Speakers")),
        channel_count: 2,
    }
}

#[test]
fn test_device_role_conversion() {
    assert_eq!(DeviceRole::Console.as_erole(), Audio::eConsole);

    assert_eq!(DeviceRole::Multimedia.as_erole(), Audio::eMultimedia);

    assert_eq!(
        DeviceRole::Communications.as_erole(),
        Audio::eCommunications
    );
}

#[test]
fn role_constants_match_core_audio() {
    assert_eq!(E_CONSOLE, Audio::eConsole);
    assert_eq!(E_MULTIMEDIA, Audio::eMultimedia);
    assert_eq!(E_COMMUNICATIONS, Audio::eCommunications);
}

#[test]
fn error_codes_match_the_windows_headers() {
    assert_eq!(E_ACCESSDENIED, Foundation::E_ACCESSDENIED);
    assert_eq!(E_INVALIDARG, Foundation::E_INVALIDARG);
    assert_eq!(E_NOINTERFACE, Foundation::E_NOINTERFACE);
    assert_eq!(E_NOTIMPL, Foundation::E_NOTIMPL);
    assert_eq!(AUDCLNT_E_DEVICE_INVALIDATED, Audio::AUDCLNT_E_DEVICE_INVALIDATED);
    assert_eq!(AUDCLNT_E_NOT_STOPPED, Audio::AUDCLNT_E_NOT_STOPPED);
    assert_eq!(AUDCLNT_E_ENDPOINT_CREATE_FAILED, Audio::AUDCLNT_E_ENDPOINT_CREATE_FAILED);
    assert_eq!(AUDCLNT_E_SERVICE_NOT_RUNNING, Audio::AUDCLNT_E_SERVICE_NOT_RUNNING);
}

#[test]
fn test_default_config() {
    let config = EnumeratorConfig::default();

    assert!(matches!(config.device_role, DeviceRole::Console));

    assert!(config.include_system);

    assert_eq!(config.min_volume_percent, 0);
}

#[test]
fn config_threshold_must_be_a_percentage() {
    let mut config = EnumeratorConfig::default();
    assert!(config.validate().is_ok());
    config.min_volume_percent = 100;
    assert!(config.validate().is_ok());
    config.min_volume_percent = 101;
    assert!(matches!(config.validate(), Err(WindowsError::InvalidParameter)));
}

#[test]
fn enumeration_filter() {
    let config = EnumeratorConfig {
        device_role: DeviceRole::Console,
        include_system: false,
        min_volume_percent: 10,
    };
    assert!(config.should_include_session(&session(1, 50, 10)));
    assert!(!config.should_include_session(&session(1, 50, 9)));
    assert!(!config.should_include_session(&session(1, 0, 90)));
    assert!(EnumeratorConfig::default().should_include_session(&session(1, 0, 0)));
}

#[test]
fn known_codes_are_classified() {
    assert_eq!(WindowsError::from_com_error(com(E_ACCESSDENIED)), WindowsError::PermissionDenied);
    assert_eq!(WindowsError::from_com_error(com(E_INVALIDARG)), WindowsError::InvalidParameter);
    assert_eq!(
        WindowsError::from_com_error(com(AUDCLNT_E_DEVICE_INVALIDATED)),
        WindowsError::SessionExpired
    );
    assert_eq!(WindowsError::from_com_error(com(AUDCLNT_E_NOT_STOPPED)), WindowsError::NotFound);
    assert_eq!(
        WindowsError::from_com_error(com(AUDCLNT_E_ENDPOINT_CREATE_FAILED)),
        WindowsError::DeviceError(String::from("Failed to create audio endpoint"))
    );
    assert_eq!(
        WindowsError::from_com_error(com(AUDCLNT_E_SERVICE_NOT_RUNNING)),
        WindowsError::DeviceError(String::from("Windows Audio service is not running"))
    );
    assert_eq!(
        WindowsError::from_com_error(com(E_NOINTERFACE)),
        WindowsError::Unsupported(String::from("Required interface not available"))
    );
    assert_eq!(
        WindowsError::from_com_error(com(E_NOTIMPL)),
        WindowsError::Unsupported(String::from("Operation not implemented"))
    );
    assert_eq!(WindowsError::from_com_error(com(-5)), WindowsError::Com(com(-5)));
}

#[test]
fn core_errors_are_classified_by_their_code() {
    let denied = windows_result::Error::from_hresult(windows_result::HRESULT(E_ACCESSDENIED));
    assert_eq!(WindowsError::from_core_error(denied), WindowsError::PermissionDenied);
    let gone = windows_result::Error::from_hresult(windows_result::HRESULT(
        AUDCLNT_E_DEVICE_INVALIDATED,
    ));
    assert_eq!(WindowsError::from_core_error(gone), WindowsError::SessionExpired);
    let other_code = 0x8000_1234u32 as i32;
    let other = windows_result::Error::from_hresult(windows_result::HRESULT(other_code));
    let expected_text = other.to_string();
    match WindowsError::from_core_error(other) {
        WindowsError::Com(c) => {
            assert_eq!(c.code, HRESULT(other_code));
            assert_eq!(c.text, expected_text);
        }
        e => panic!("unexpected {:?}", e),
    }
}

#[test]
fn hresult_and_code() {
    let e = WindowsError::Com(com(0x8889_0042u32 as i32));
    assert_eq!(e.hresult(), Some(HRESULT(0x8889_0042u32 as i32)));
    assert_eq!(e.code(), Some(0x8889_0042));
    assert_eq!(WindowsError::Com(com(7)).code(), Some(7));
    assert_eq!(WindowsError::NotFound.hresult(), None);
    assert_eq!(WindowsError::NotFound.code(), None);
}

#[test]
fn predicates() {
    assert!(WindowsError::SessionExpired.is_session_expired());
    assert!(WindowsError::Com(com(AUDCLNT_E_DEVICE_INVALIDATED)).is_session_expired());
    assert!(WindowsError::Com(com(AUDCLNT_E_SERVICE_NOT_RUNNING)).is_session_expired());
    assert!(!WindowsError::NotFound.is_session_expired());
    assert!(!WindowsError::Com(com(E_ACCESSDENIED)).is_session_expired());
    assert!(WindowsError::PermissionDenied.is_permission_denied());
    assert!(WindowsError::Com(com(E_ACCESSDENIED)).is_permission_denied());
    assert!(WindowsError::Com(com(E_NOINTERFACE)).is_permission_denied());
    assert!(!WindowsError::InvalidParameter.is_permission_denied());
    assert!(!WindowsError::from_com_error(com(E_NOINTERFACE)).is_permission_denied());
}

#[test]
fn constructors_keep_the_message() {
    assert_eq!(WindowsError::device_error("dev"), WindowsError::DeviceError(String::from("dev")));
    assert_eq!(
        WindowsError::unsupported(&String::from("u")),
        WindowsError::Unsupported(String::from("u"))
    );
    assert_eq!(WindowsError::other("o"), WindowsError::Other(String::from("o")));
}

#[test]
fn messages() {
    assert_eq!(
        WindowsError::Com(com(AUDCLNT_E_DEVICE_INVALIDATED)).message(),
        "Audio device was removed or became invalid"
    );
    assert_eq!(
        WindowsError::Com(com(E_ACCESSDENIED)).message(),
        "Access denied. Run as administrator or adjust permissions"
    );
    assert_eq!(
        WindowsError::Com(com(E_INVALIDARG)).message(),
        "Invalid parameter passed to COM function"
    );
    assert_eq!(
        WindowsError::Com(com(0x8000_00FFu32 as i32)).message(),
        "COM error (0x800000FF): details"
    );
    assert_eq!(WindowsError::Com(com(26)).message(), "COM error (0x1A): details");
    assert_eq!(WindowsError::NotFound.message(), "Audio session not found");
    assert_eq!(
        WindowsError::PermissionDenied.message(),
        "Permission denied. Run as administrator or adjust ACLs"
    );
    assert_eq!(
        WindowsError::InvalidParameter.message(),
        "Invalid parameter (volume must be 0.0-1.0, session ID must be valid)"
    );
    assert_eq!(WindowsError::SessionExpired.message(), "Audio session has ended");
    assert_eq!(WindowsError::device_error("x").message(), "Audio device error: x");
    assert_eq!(WindowsError::unsupported("y").message(), "Unsupported operation: y");
    assert_eq!(WindowsError::other("z").message(), "Audio controller error: z");
}

#[test]
fn windows_errors_at_the_interface() {
    assert_eq!(
        ControllerError::from(WindowsError::Com(com(3))),
        ControllerError::PlatformError(String::from("details"))
    );
    assert_eq!(ControllerError::from(WindowsError::NotFound), ControllerError::NotFound);
    assert_eq!(
        ControllerError::from(WindowsError::PermissionDenied),
        ControllerError::PermissionDenied
    );
    assert_eq!(
        ControllerError::from(WindowsError::InvalidParameter),
        ControllerError::InvalidParameter
    );
    assert_eq!(ControllerError::from(WindowsError::SessionExpired), ControllerError::SessionExpired);
    assert_eq!(
        ControllerError::from(WindowsError::device_error("d")),
        ControllerError::PlatformError(String::from("d"))
    );
    assert_eq!(
        ControllerError::from(WindowsError::unsupported("u")),
        ControllerError::UnsupportedOperation
    );
    assert_eq!(
        ControllerError::from(WindowsError::other("o")),
        ControllerError::Other(String::from("o"))
    );
}

#[test]
fn volume_plans() {
    assert_eq!(volume_plan(0, true), VolumePlan::Master);
    assert_eq!(volume_plan(2, false), VolumePlan::Master);
    assert_eq!(volume_plan(1, true), VolumePlan::Channels(vec![ChannelLevel::Mean]));
    assert_eq!(
        volume_plan(2, true),
        VolumePlan::Channels(vec![ChannelLevel::Left, ChannelLevel::Right])
    );
    assert_eq!(
        volume_plan(4, true),
        VolumePlan::Channels(vec![
            ChannelLevel::Left,
            ChannelLevel::Right,
            ChannelLevel::Mean,
            ChannelLevel::Mean
        ])
    );
}

#[test]
fn system_sessions_are_named() {
    assert_eq!(session_name(0, String::from("svchost.exe")), "System Sounds");
    assert_eq!(session_name(12, String::from("firefox.exe")), "firefox.exe");
}

#[test]
fn com_guard_follows_the_init_result() {
    assert!(ComGuard::from_init_result(HRESULT(0)).unwrap().initialized());
    assert!(!ComGuard::from_init_result(HRESULT(1)).unwrap().initialized());
    let err = ComGuard::from_init_result(HRESULT(E_INVALIDARG)).err().unwrap();
    assert_eq!(err.code().0, E_INVALIDARG);
}

#[test]
fn test_clone_safety() {
    let original = session(3, 99, 40);
    let copy = original.clone();
    assert_eq!(copy, original);
    drop(original);
    assert_eq!(copy.device.as_deref(), Some("Speakers"));
}

#[test]
fn test_enumerator_creation() {
    let enumerator = SessionEnumerator::new();

    assert!(enumerator.is_ok());
}

#[test]
fn enumerator_rejects_bad_threshold() {
    let config = EnumeratorConfig {
        device_role: DeviceRole::Multimedia,
        include_system: false,
        min_volume_percent: 150,
    };
    assert!(matches!(SessionEnumerator::with_config(config), Err(WindowsError::InvalidParameter)));
    let e = SessionEnumerator::default();
    assert!(e.is_empty());
    assert_eq!(e.device_name(), "");
}

#[test]
fn discovery_keeps_what_the_filter_accepts() {
    let config = EnumeratorConfig {
        device_role: DeviceRole::Console,
        include_system: false,
        min_volume_percent: 10,
    };
    let mut e = SessionEnumerator::with_config(config).unwrap();
    let found = vec![
        Ok(Some(session(1, 100, 50))),
        Err(WindowsError::NotFound),
        Ok(None),
        Ok(Some(session(2, 0, 50))),
        Ok(Some(session(3, 300, 5))),
        Ok(Some(session(1, 101, 60))),
    ];
    let (count, failures) = e.record_discovery(String::from("Speakers"), found);
    assert_eq!(count, 1);
    assert_eq!(failures, vec![1]);
    assert_eq!(e.len(), 1);
    assert_eq!(e.device_name(), "Speakers");
    assert_eq!(e.get_session(1).unwrap().pid, 101);
    assert!(e.get_session(2).is_none());
    assert_eq!(e.sessions().len(), 1);
}

#[test]
fn target_checks_id_and_presence() {
    let mut e = SessionEnumerator::new().unwrap();
    e.record_discovery(String::from("d"), vec![Ok(Some(session(4, 1, 1)))]);
    assert!(matches!(e.target(0), Err(ControllerError::InvalidParameter)));
    assert!(matches!(e.target(5), Err(ControllerError::NotFound)));
    assert_eq!(e.target(4).unwrap().id, 4);
}

#[test]
fn next_session_hands_one_out_and_empties() {
    let mut e = SessionEnumerator::new().unwrap();
    assert!(e.next_session().is_none());
    e.record_discovery(
        String::from("d"),
        vec![Ok(Some(session(4, 1, 1))), Ok(Some(session(5, 2, 2)))],
    );
    let s = e.next_session().unwrap();
    assert!(s.id == 4 || s.id == 5);
    assert!(e.is_empty());
    assert!(e.next_session().is_none());
    e.record_discovery(String::from("d"), vec![Ok(Some(session(6, 1, 1)))]);
    e.clear();
    assert_eq!(e.len(), 0);
}

fn nothing_found() -> Discovery {
    Discovery::Found { friendly_name: Some(String::from("Speakers")), lookups: Vec::new() }
}

fn controller() -> WindowsController {
    WindowsController::new(ComGuard::from_init_result(HRESULT(0)), nothing_found()).unwrap()
}

#[test]
fn assembly_reports_the_failed_step() {
    let failed_com = ComGuard::from_init_result(HRESULT(E_INVALIDARG));
    match WindowsController::new(failed_com, nothing_found()) {
        Err(ControllerError::PlatformError(m)) => {
            assert!(m.starts_with("COM initialization failed: "), "{m}");
            assert!(m.ends_with("(0x80070057)"), "{m}")
        }
        _ => panic!("expected a platform error"),
    }
    let bad = EnumeratorConfig {
        device_role: DeviceRole::Console,
        include_system: true,
        min_volume_percent: 200,
    };
    match WindowsController::with_config(ComGuard::from_init_result(HRESULT(1)), bad, nothing_found()) {
        Err(ControllerError::PlatformError(m)) => assert_eq!(
            m,
            "Failed to create enumerator: Invalid parameter (volume must be 0.0-1.0, session ID must be valid)"
        ),
        _ => panic!("expected a platform error"),
    }
    let failed_refresh = Discovery::Failed {
        endpoint_found: false,
        friendly_name: None,
        error: WindowsError::PermissionDenied,
    };
    assert_eq!(
        WindowsController::new(ComGuard::from_init_result(HRESULT(0)), failed_refresh).err(),
        Some(ControllerError::PermissionDenied)
    );
    let c = controller();
    assert!(c.owns_com());
    assert_eq!(c.device_name(), "Speakers");
    assert_eq!(c.session_count(), 0);
}

#[test]
fn refresh_caches_the_endpoint_name() {
    let mut c = controller();
    let found = Discovery::Found {
        friendly_name: Some(String::from("Speakers (Realtek)")),
        lookups: vec![Ok(Some(session(8, 4, 30))), Err(WindowsError::NotFound)],
    };
    assert!(c.record_refresh(found).is_ok());
    assert_eq!(c.device_name(), "Speakers (Realtek)");
    assert_eq!(c.session_count(), 1);
    assert_eq!(c.list_sessions().unwrap()[0].id, 8);
    assert_eq!(c.windows_sessions().len(), 1);
    let failed = Discovery::Failed {
        endpoint_found: true,
        friendly_name: Some(String::from("Headset")),
        error: WindowsError::Com(com(-9)),
    };
    assert_eq!(
        c.record_refresh(failed),
        Err(ControllerError::PlatformError(String::from("details")))
    );
    assert_eq!(c.device_name(), "Speakers (Realtek)");
    assert_eq!(c.session_count(), 1);
    let unnamed = Discovery::Found { friendly_name: Some(String::new()), lookups: Vec::new() };
    c.record_refresh(unnamed).unwrap();
    assert_eq!(c.device_name(), "Default Device");
    assert_eq!(c.session_count(), 0);
}

#[test]
fn controller_target_checks() {
    let c = WindowsController::new(
        ComGuard::from_init_result(HRESULT(0)),
        Discovery::Found { friendly_name: None, lookups: vec![Ok(Some(session(8, 4, 30)))] },
    )
    .unwrap();
    assert!(matches!(c.target(0), Err(ControllerError::InvalidParameter)));
    assert!(matches!(c.target(9), Err(ControllerError::NotFound)));
    assert_eq!(c.target(8).unwrap().pid, 4);
}

#[test]
fn test_controller_creation() {
    let result = WindowsController::new(ComGuard::from_init_result(HRESULT(0)), nothing_found());

    assert!(result.is_ok());

    let controller = result.unwrap();

    assert_eq!(controller.session_count(), 0);
}

#[test]
fn test_controller_with_config() {
    let config = EnumeratorConfig {
        device_role: DeviceRole::Console,

        include_system: false,

        min_volume_percent: 10,
    };

    let result =
        WindowsController::with_config(ComGuard::from_init_result(HRESULT(0)), config, nothing_found());

    assert!(result.is_ok());
}

#[test]
fn test_device_name() {
    let discovery = Discovery::Found { friendly_name: None, lookups: Vec::new() };
    let controller = WindowsController::new(ComGuard::from_init_result(HRESULT(0)), discovery).unwrap();

    let name = controller.device_name();

    assert!(!name.is_empty());
}

#[test]
fn display_names() {
    assert_eq!(process_display_name(ProcessLookup::NotOpened), "System/Protected");
    assert_eq!(process_display_name(ProcessLookup::Opened(None)), "Unknown");
    assert_eq!(
        process_display_name(ProcessLookup::Opened(Some(String::from("chrome.exe")))),
        "chrome.exe"
    );
    assert_eq!(module_name_units(12, 260), 12);
    assert_eq!(module_name_units(260, 260), 260);
    assert_eq!(module_name_units(300, 260), 260);
    assert_eq!(variant_text_kind(8), VariantText::Bstr);
    assert_eq!(variant_text_kind(31), VariantText::Narrow);
    assert_eq!(variant_text_kind(0), VariantText::NoText);
    assert_eq!(device_display_name(None), "Default Device");
    assert_eq!(device_display_name(Some(String::new())), "Default Device");
    assert_eq!(device_display_name(Some(String::from("Headphones"))), "Headphones");
}

#[test]
fn core_error_text_ends_with_the_code() {
    let other_code = 0x8000_1234u32 as i32;
    let err = windows_result::Error::from_hresult(windows_result::HRESULT(other_code));
    match WindowsError::from_core_error(err) {
        WindowsError::Com(c) => assert!(c.text.ends_with("(0x80001234)"), "{}", c.text),
        e => panic!("unexpected {:?}", e),
    }
    let small = windows_result::Error::from_hresult(windows_result::HRESULT(5));
    match WindowsError::from_core_error(small) {
        WindowsError::Com(c) => assert!(c.text.ends_with("(0x00000005)"), "{}", c.text),
        e => panic!("unexpected {:?}", e),
    }
}

#[test]
fn next_session_on_an_empty_enumerator_changes_nothing() {
    let mut e = SessionEnumerator::new().unwrap();
    e.set_device_name(String::from("Speakers"));
    assert!(e.next_session().is_none());
    assert_eq!(e.device_name(), "Speakers");
    assert_eq!(e.len(), 0);
}

#[test]
fn both_listings_hold_the_same_sessions() {
    let mut c = controller();
    let found = vec![Ok(Some(session(4, 1, 10))), Ok(Some(session(9, 2, 20))), Ok(Some(session(4, 3, 30)))];
    c.record_refresh(Discovery::Found { friendly_name: None, lookups: found }).unwrap();
    let mut listed = c.list_sessions().unwrap();
    let mut windows = c.windows_sessions();
    listed.sort_by_key(|s| s.id);
    windows.sort_by_key(|s| s.id);
    assert_eq!(listed, windows);
    assert_eq!(listed.len(), 2);
    assert_eq!(listed[0].pid, 3);
    assert_eq!(listed[1].pid, 2);
}

#[test]
fn constructors_take_the_text_given() {
    let text = String::from("made up");
    assert_eq!(WindowsError::device_error(&text), WindowsError::DeviceError(text.clone()));
    assert_eq!(WindowsError::other(""), WindowsError::Other(String::new()));
}
