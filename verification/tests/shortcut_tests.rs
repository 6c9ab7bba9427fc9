use miserarenaiyo::shortcut::{
    is_cmd_b_hotkey_event, registration_result, registration_step, HotKeyId, RegistrationAction,
    RegistrationEvent, RegistrationState, ShortcutError, CMD_B_HOTKEY_ID, CMD_B_HOTKEY_SIGNATURE,
    CMD_KEY_MASK, KEY_CODE_B, K_EVENT_CLASS_KEYBOARD, K_EVENT_HOT_KEY_PRESSED,
    K_EVENT_PARAM_DIRECT_OBJECT, TYPE_EVENT_HOT_KEY_ID,
};

#[test]
fn four_character_codes() {
    assert_eq!(CMD_B_HOTKEY_SIGNATURE, u32::from_be_bytes(*b"MRNY"));
    assert_eq!(K_EVENT_CLASS_KEYBOARD, u32::from_be_bytes(*b"keyb"));
    assert_eq!(K_EVENT_PARAM_DIRECT_OBJECT, u32::from_be_bytes(*b"----"));
    assert_eq!(TYPE_EVENT_HOT_KEY_ID, u32::from_be_bytes(*b"hkid"));
    assert_eq!(CMD_KEY_MASK, 1 << 8);
    assert_eq!(KEY_CODE_B, 11);
}

#[test]
fn hotkey_event_recognised() {
    let ours = HotKeyId { signature: CMD_B_HOTKEY_SIGNATURE, id: CMD_B_HOTKEY_ID };
    assert!(is_cmd_b_hotkey_event(0, ours, true));
    assert!(!is_cmd_b_hotkey_event(-9870, ours, true));
    assert!(!is_cmd_b_hotkey_event(0, ours, false));
    assert!(!is_cmd_b_hotkey_event(0, HotKeyId { signature: CMD_B_HOTKEY_SIGNATURE, id: 2 }, true));
    assert!(!is_cmd_b_hotkey_event(0, HotKeyId { signature: 0, id: CMD_B_HOTKEY_ID }, true));
}

#[test]
fn registration_succeeds() {
    let (s, a) = registration_step(
        RegistrationState::Idle,
        RegistrationEvent::Requested { already_registered: false },
    );
    assert_eq!(s, RegistrationState::Installing);
    assert_eq!(
        a,
        vec![RegistrationAction::InstallHandler {
            event_class: K_EVENT_CLASS_KEYBOARD,
            event_kind: K_EVENT_HOT_KEY_PRESSED
        }]
    );
    assert_eq!(registration_result(s), None);
    let (s, a) = registration_step(s, RegistrationEvent::HandlerInstalled { status: 0 });
    assert_eq!(s, RegistrationState::Registering);
    assert_eq!(
        a,
        vec![RegistrationAction::RegisterHotKey {
            key_code: 0x0B,
            modifiers: 0x100,
            signature: 0x4D52_4E59,
            id: 1,
            options: 0
        }]
    );
    let (s, a) = registration_step(s, RegistrationEvent::HotKeyRegistered { status: 0 });
    assert_eq!(s, RegistrationState::Registered);
    assert_eq!(a, vec![RegistrationAction::KeepRegistration]);
    assert_eq!(registration_result(s), Some(Ok(())));
}

#[test]
fn registration_is_idempotent() {
    let (s, a) = registration_step(
        RegistrationState::Idle,
        RegistrationEvent::Requested { already_registered: true },
    );
    assert_eq!(s, RegistrationState::Registered);
    assert!(a.is_empty());
    assert_eq!(registration_result(s), Some(Ok(())));
}

#[test]
fn install_failure_frees_context() {
    let (s, a) = registration_step(
        RegistrationState::Installing,
        RegistrationEvent::HandlerInstalled { status: -50 },
    );
    assert_eq!(s, RegistrationState::Failed(ShortcutError::InstallHandler(-50)));
    assert_eq!(a, vec![RegistrationAction::ReleaseContext]);
    assert_eq!(registration_result(s), Some(Err(ShortcutError::InstallHandler(-50))));
}

#[test]
fn register_failure_removes_handler_then_frees_context() {
    let (s, a) = registration_step(
        RegistrationState::Registering,
        RegistrationEvent::HotKeyRegistered { status: -9878 },
    );
    assert_eq!(s, RegistrationState::Failed(ShortcutError::RegisterHotKey(-9878)));
    assert_eq!(a, vec![RegistrationAction::RemoveHandler, RegistrationAction::ReleaseContext]);
    assert_eq!(registration_result(s), Some(Err(ShortcutError::RegisterHotKey(-9878))));
}

#[test]
fn unexpected_events_change_nothing() {
    let (s, a) = registration_step(
        RegistrationState::Registered,
        RegistrationEvent::HandlerInstalled { status: 0 },
    );
    assert_eq!(s, RegistrationState::Registered);
    assert!(a.is_empty());
    let (s, a) = registration_step(
        RegistrationState::Idle,
        RegistrationEvent::HotKeyRegistered { status: 0 },
    );
    assert_eq!(s, RegistrationState::Idle);
    assert!(a.is_empty());
}
