use ficha::stealth::{is_valid_name, PlatformAnswer, StealthError, StealthMode};

#[test]
fn names_of_the_two_modes() {
    assert_eq!(StealthMode::decoy(), "systemd-resolve");
    assert_eq!(StealthMode::original(), "ficha-app");
    assert!(is_valid_name(StealthMode::decoy()));
    assert!(is_valid_name(StealthMode::original()));
}

#[test]
fn new_controller_has_set_no_name() {
    assert_eq!(StealthMode::new().shown_name(), None);
}

#[test]
fn enable_and_disable_put_the_accepted_name_on_record() {
    let mut stealth = StealthMode::new();
    assert_eq!(stealth.enable(PlatformAnswer::Status(0)), Ok(()));
    assert_eq!(stealth.shown_name(), Some("systemd-resolve".to_string()));
    assert_eq!(stealth.disable(PlatformAnswer::Status(0)), Ok(()));
    assert_eq!(stealth.shown_name(), Some("ficha-app".to_string()));
}

#[test]
fn enabling_twice_leaves_the_name_as_after_the_first_time() {
    let mut stealth = StealthMode::new();
    assert_eq!(stealth.enable(PlatformAnswer::Status(0)), Ok(()));
    let after_first = stealth.shown_name();
    assert_eq!(stealth.enable(PlatformAnswer::Status(0)), Ok(()));
    assert_eq!(stealth.shown_name(), after_first);
    assert_eq!(stealth.enable(PlatformAnswer::Status(-1)), Err(StealthError::Refused(-1)));
    assert_eq!(stealth.shown_name(), after_first);
    assert_eq!(stealth.disable(PlatformAnswer::Status(0)), Ok(()));
    let after_disable = stealth.shown_name();
    assert_eq!(stealth.disable(PlatformAnswer::Status(0)), Ok(()));
    assert_eq!(stealth.shown_name(), after_disable);
}

#[test]
fn unsupported_platform_is_an_error_and_changes_nothing() {
    let mut stealth = StealthMode::new();
    assert_eq!(stealth.enable(PlatformAnswer::Unsupported), Err(StealthError::Unsupported));
    assert_eq!(stealth.disable(PlatformAnswer::Unsupported), Err(StealthError::Unsupported));
    assert_eq!(stealth.shown_name(), None);
    assert_eq!(
        stealth.set_process_name("bad\0name", PlatformAnswer::Unsupported),
        Err(StealthError::Unsupported)
    );
}

#[test]
fn refusal_is_an_error_with_the_status_and_changes_nothing() {
    let mut stealth = StealthMode::new();
    assert_eq!(stealth.enable(PlatformAnswer::Status(0)), Ok(()));
    assert_eq!(stealth.disable(PlatformAnswer::Status(-1)), Err(StealthError::Refused(-1)));
    assert_eq!(stealth.disable(PlatformAnswer::Status(22)), Err(StealthError::Refused(22)));
    assert_eq!(stealth.shown_name(), Some("systemd-resolve".to_string()));
}

#[test]
fn name_with_a_nul_character_is_invalid() {
    let mut stealth = StealthMode::new();
    assert!(!is_valid_name("bad\0name"));
    assert!(!is_valid_name("\0"));
    assert!(is_valid_name(""));
    assert!(is_valid_name("any other name"));
    assert_eq!(
        stealth.set_process_name("bad\0name", PlatformAnswer::Status(0)),
        Err(StealthError::InvalidName)
    );
    assert_eq!(stealth.shown_name(), None);
    assert_eq!(stealth.set_process_name("worker", PlatformAnswer::Status(0)), Ok(()));
    assert_eq!(stealth.shown_name(), Some("worker".to_string()));
}

#[test]
fn errors_say_what_went_wrong() {
    assert_eq!(StealthError::Unsupported.message(), "Stealth mode only supported on Linux");
    assert_eq!(StealthError::InvalidName.message(), "Invalid process name");
    assert_eq!(StealthError::Refused(-1).message(), "Failed to set process name: -1");
    assert_eq!(StealthError::Refused(22).message(), "Failed to set process name: 22");
    assert_eq!(StealthError::Refused(0).message(), "Failed to set process name: 0");
    assert_eq!(
        StealthError::Refused(i32::MIN).message(),
        "Failed to set process name: -2147483648"
    );
    assert_eq!(
        StealthError::Refused(i32::MAX).message(),
        "Failed to set process name: 2147483647"
    );
}
