use audio_controller::android::AndroidController;
use audio_controller::ControllerError;

#[test]
fn test_android_controller_creation() {
    let result = AndroidController::new();
    assert!(result.is_err());
    assert!(matches!(
        result.unwrap_err(),
        ControllerError::PlatformError(_)
    ));
}

#[test]
fn android_error_names_the_platform() {
    match AndroidController::new() {
        Err(ControllerError::PlatformError(m)) => {
            assert_eq!(m, "Android implementation not ready")
        }
        other => panic!("unexpected {:?}", other),
    }
}

#[test]
fn jni_binding_succeeds_but_operations_fail() {
    let mut c = AndroidController::from_jni().unwrap();
    assert!(matches!(c.list_sessions(), Err(ControllerError::PlatformError(_))));
    assert!(matches!(c.set_volume(1, 50, 50), Err(ControllerError::PlatformError(_))));
    assert!(matches!(c.set_mute(1, true), Err(ControllerError::PlatformError(_))));
}
