use cbos::util::ps2_scancodes::{parse_ibm_xt, Key, KeyEvent, KeyState, SpecialKey};

#[test]
fn parse_ibm_xt_finds_characters() {
    assert_eq!(
        parse_ibm_xt(0x1e),
        Some(KeyEvent { key: Key::Char('A'), state: KeyState::Pressed })
    );
    assert_eq!(
        parse_ibm_xt(0x02),
        Some(KeyEvent { key: Key::Char('1'), state: KeyState::Pressed })
    );
    assert_eq!(
        parse_ibm_xt(0x39),
        Some(KeyEvent { key: Key::Char(' '), state: KeyState::Pressed })
    );
    assert_eq!(
        parse_ibm_xt(0x2b),
        Some(KeyEvent { key: Key::Char('\\'), state: KeyState::Pressed })
    );
}

#[test]
fn parse_ibm_xt_finds_keypad_and_special_keys() {
    assert_eq!(
        parse_ibm_xt(0x37),
        Some(KeyEvent { key: Key::Keypad('*'), state: KeyState::Pressed })
    );
    assert_eq!(
        parse_ibm_xt(0x53),
        Some(KeyEvent { key: Key::Keypad('.'), state: KeyState::Pressed })
    );
    assert_eq!(
        parse_ibm_xt(0x1c),
        Some(KeyEvent { key: Key::Special(SpecialKey::Enter), state: KeyState::Pressed })
    );
    assert_eq!(
        parse_ibm_xt(0x58),
        Some(KeyEvent { key: Key::Special(SpecialKey::F12), state: KeyState::Pressed })
    );
    assert_eq!(
        parse_ibm_xt(0x57),
        Some(KeyEvent { key: Key::Special(SpecialKey::F11), state: KeyState::Pressed })
    );
}

#[test]
fn parse_ibm_xt_rejects_what_the_table_lacks() {
    assert_eq!(parse_ibm_xt(0x00), None);
    assert_eq!(parse_ibm_xt(0x54), None);
    assert_eq!(parse_ibm_xt(0x56), None);
    assert_eq!(parse_ibm_xt(0x59), None);
    assert_eq!(parse_ibm_xt(0x7f), None);
    // Break codes are looked up as they stand and are not in the table.
    assert_eq!(parse_ibm_xt(0x9e), None);
    assert_eq!(parse_ibm_xt(0xff), None);
}

#[test]
fn parse_ibm_xt_knows_eighty_five_keys() {
    let found = (0..=255u8).filter(|code| parse_ibm_xt(*code).is_some()).count();
    assert_eq!(found, 85);
}

#[test]
fn special_key_classes() {
    assert!(SpecialKey::ShiftLeft.is_shift());
    assert!(SpecialKey::ShiftRight.is_shift());
    assert!(!SpecialKey::ControlLeft.is_shift());
    assert!(SpecialKey::ControlLeft.is_control());
    assert!(SpecialKey::ControlRight.is_control());
    assert!(!SpecialKey::AltLeft.is_control());
    assert!(SpecialKey::AltLeft.is_alt());
    assert!(SpecialKey::AltRight.is_alt());
    assert!(!SpecialKey::Enter.is_alt());
    assert!(SpecialKey::F1.is_function_key());
    assert!(SpecialKey::F12.is_function_key());
    assert!(!SpecialKey::Escape.is_function_key());
    assert!(!SpecialKey::ScrollLock.is_function_key());
}

#[test]
fn key_state_is_pressed() {
    assert!(KeyState::Pressed.is_pressed());
    assert!(!KeyState::Released.is_pressed());
}
