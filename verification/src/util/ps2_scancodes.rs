//! The scancodes of the IBM XT keyboard, by table.

use vstd::prelude::*;

verus! {

/// Whether a key went down or came up.
#[derive(Copy, Clone, Debug, PartialEq, Eq, Structural)]
pub enum KeyState {
    Pressed,
    Released,
}

impl KeyState {
    pub fn is_pressed(&self) -> (pressed: bool)
        ensures
            pressed == (*self == KeyState::Pressed),
    {
        match self {
            KeyState::Pressed => true,
            KeyState::Released => false,
        }
    }
}

/// The keys of an IBM XT keyboard that produce no character.
#[derive(Copy, Clone, Debug, PartialEq, Eq, Structural)]
pub enum SpecialKey {
    Escape,
    Backspace,
    Enter,
    Tab,
    ShiftLeft,
    ShiftRight,
    ControlLeft,
    ControlRight,
    AltLeft,
    AltRight,
    CapsLock,
    NumberLock,
    ScrollLock,
    F1,
    F2,
    F3,
    F4,
    F5,
    F6,
    F7,
    F8,
    F9,
    F10,
    F11,
    F12,
}

impl SpecialKey {
    pub fn is_shift(&self) -> (shift: bool)
        ensures
            shift == (*self == SpecialKey::ShiftLeft || *self == SpecialKey::ShiftRight),
    {
        match self {
            SpecialKey::ShiftLeft | SpecialKey::ShiftRight => true,
            _ => false,
        }
    }

    pub fn is_control(&self) -> (control: bool)
        ensures
            control == (*self == SpecialKey::ControlLeft || *self == SpecialKey::ControlRight),
    {
        match self {
            SpecialKey::ControlLeft | SpecialKey::ControlRight => true,
            _ => false,
        }
    }

    pub fn is_alt(&self) -> (alt: bool)
        ensures
            alt == (*self == SpecialKey::AltLeft || *self == SpecialKey::AltRight),
    {
        match self {
            SpecialKey::AltLeft | SpecialKey::AltRight => true,
            _ => false,
        }
    }

    /// The function keys are the twelve variants `F1` to `F12`.
    pub open spec fn function_key(self) -> bool {
        self == SpecialKey::F1 || self == SpecialKey::F2 || self == SpecialKey::F3
            || self == SpecialKey::F4 || self == SpecialKey::F5 || self == SpecialKey::F6
            || self == SpecialKey::F7 || self == SpecialKey::F8 || self == SpecialKey::F9
            || self == SpecialKey::F10 || self == SpecialKey::F11 || self == SpecialKey::F12
    }

    pub fn is_function_key(&self) -> (function: bool)
        ensures
            function == self.function_key(),
    {
        match self {
            SpecialKey::F1
            | SpecialKey::F2
            | SpecialKey::F3
            | SpecialKey::F4
            | SpecialKey::F5
            | SpecialKey::F6
            | SpecialKey::F7
            | SpecialKey::F8
            | SpecialKey::F9
            | SpecialKey::F10
            | SpecialKey::F11
            | SpecialKey::F12 => true,
            _ => false,
        }
    }
}

#[derive(Copy, Clone, Debug, PartialEq, Eq, Structural)]
pub enum Key {
    Char(char),
    Keypad(char),
    Special(SpecialKey),
}

#[derive(Copy, Clone, Debug, PartialEq, Eq, Structural)]
pub struct KeyEvent {
    pub key: Key,
    pub state: KeyState,
}

/// The key that the IBM XT scancode table assigns to a byte. The table has
/// entries for make codes only, so every byte with the top bit set is unassigned.
pub open spec fn ibm_xt_key(scancode: u8) -> Option<Key> {
    match scancode {
        0x01 => Some(Key::Special(SpecialKey::Escape)),
        0x02 => Some(Key::Char('1')),
        0x03 => Some(Key::Char('2')),
        0x04 => Some(Key::Char('3')),
        0x05 => Some(Key::Char('4')),
        0x06 => Some(Key::Char('5')),
        0x07 => Some(Key::Char('6')),
        0x08 => Some(Key::Char('7')),
        0x09 => Some(Key::Char('8')),
        0x0a => Some(Key::Char('9')),
        0x0b => Some(Key::Char('0')),
        0x0c => Some(Key::Char('-')),
        0x0d => Some(Key::Char('=')),
        0x0e => Some(Key::Special(SpecialKey::Backspace)),
        0x0f => Some(Key::Special(SpecialKey::Tab)),
        0x10 => Some(Key::Char('Q')),
        0x11 => Some(Key::Char('W')),
        0x12 => Some(Key::Char('E')),
        0x13 => Some(Key::Char('R')),
        0x14 => Some(Key::Char('T')),
        0x15 => Some(Key::Char('Y')),
        0x16 => Some(Key::Char('U')),
        0x17 => Some(Key::Char('I')),
        0x18 => Some(Key::Char('O')),
        0x19 => Some(Key::Char('P')),
        0x1a => Some(Key::Char('[')),
        0x1b => Some(Key::Char(']')),
        0x1c => Some(Key::Special(SpecialKey::Enter)),
        0x1d => Some(Key::Special(SpecialKey::ControlLeft)),
        0x1e => Some(Key::Char('A')),
        0x1f => Some(Key::Char('S')),
        0x20 => Some(Key::Char('D')),
        0x21 => Some(Key::Char('F')),
        0x22 => Some(Key::Char('G')),
        0x23 => Some(Key::Char('H')),
        0x24 => Some(Key::Char('J')),
        0x25 => Some(Key::Char('K')),
        0x26 => Some(Key::Char('L')),
        0x27 => Some(Key::Char(';')),
        0x28 => Some(Key::Char('\'')),
        0x29 => Some(Key::Char('`')),
        0x2a => Some(Key::Special(SpecialKey::ShiftLeft)),
        0x2b => Some(Key::Char('\\')),
        0x2c => Some(Key::Char('Z')),
        0x2d => Some(Key::Char('X')),
        0x2e => Some(Key::Char('C')),
        0x2f => Some(Key::Char('V')),
        0x30 => Some(Key::Char('B')),
        0x31 => Some(Key::Char('N')),
        0x32 => Some(Key::Char('M')),
        0x33 => Some(Key::Char(',')),
        0x34 => Some(Key::Char('.')),
        0x35 => Some(Key::Char('/')),
        0x36 => Some(Key::Special(SpecialKey::ShiftRight)),
        0x37 => Some(Key::Keypad('*')),
        0x38 => Some(Key::Special(SpecialKey::AltLeft)),
        0x39 => Some(Key::Char(' ')),
        0x3a => Some(Key::Special(SpecialKey::CapsLock)),
        0x3b => Some(Key::Special(SpecialKey::F1)),
        0x3c => Some(Key::Special(SpecialKey::F2)),
        0x3d => Some(Key::Special(SpecialKey::F3)),
        0x3e => Some(Key::Special(SpecialKey::F4)),
        0x3f => Some(Key::Special(SpecialKey::F5)),
        0x40 => Some(Key::Special(SpecialKey::F6)),
        0x41 => Some(Key::Special(SpecialKey::F7)),
        0x42 => Some(Key::Special(SpecialKey::F8)),
        0x43 => Some(Key::Special(SpecialKey::F9)),
        0x44 => Some(Key::Special(SpecialKey::F10)),
        0x45 => Some(Key::Special(SpecialKey::NumberLock)),
        0x46 => Some(Key::Special(SpecialKey::ScrollLock)),
        0x47 => Some(Key::Keypad('7')),
        0x48 => Some(Key::Keypad('8')),
        0x49 => Some(Key::Keypad('9')),
        0x4a => Some(Key::Keypad('-')),
        0x4b => Some(Key::Keypad('4')),
        0x4c => Some(Key::Keypad('5')),
        0x4d => Some(Key::Keypad('6')),
        0x4e => Some(Key::Keypad('+')),
        0x4f => Some(Key::Keypad('1')),
        0x50 => Some(Key::Keypad('2')),
        0x51 => Some(Key::Keypad('3')),
        0x52 => Some(Key::Keypad('0')),
        0x53 => Some(Key::Keypad('.')),
        0x57 => Some(Key::Special(SpecialKey::F11)),
        0x58 => Some(Key::Special(SpecialKey::F12)),
        _ => None,
    }
}

/// The state that a scancode's top bit announces.
pub open spec fn ibm_xt_state(scancode: u8) -> KeyState {
    if scancode & 0x80 == 0 {
        KeyState::Pressed
    } else {
        KeyState::Released
    }
}

/// Every byte that the table assigns a key to is below `0x59`.
pub proof fn lemma_ibm_xt_key_is_make_code(scancode: u8)
    requires
        ibm_xt_key(scancode) is Some,
    ensures
        0x01 <= scancode <= 0x58,
        ibm_xt_state(scancode) == KeyState::Pressed,
{
    assert(scancode <= 0x58 ==> scancode & 0x80 == 0) by (bit_vector);
}

/// Looks a scancode up in the IBM XT table. The byte is looked up as it
/// stands, so only make codes are found and every event reports a pressed key.
pub fn parse_ibm_xt(scancode: u8) -> (event: Option<KeyEvent>)
    ensures
        event == match ibm_xt_key(scancode) {
            Some(key) => Some(KeyEvent { key, state: ibm_xt_state(scancode) }),
            None => None,
        },
        event is Some ==> event->0.state == KeyState::Pressed,
{
    let state = if scancode & 0x80 == 0 {
        KeyState::Pressed
    } else {
        KeyState::Released
    };
    let found: Option<Key> = match scancode {
        0x01 => Some(Key::Special(SpecialKey::Escape)),
        0x02 => Some(Key::Char('1')),
        0x03 => Some(Key::Char('2')),
        0x04 => Some(Key::Char('3')),
        0x05 => Some(Key::Char('4')),
        0x06 => Some(Key::Char('5')),
        0x07 => Some(Key::Char('6')),
        0x08 => Some(Key::Char('7')),
        0x09 => Some(Key::Char('8')),
        0x0a => Some(Key::Char('9')),
        0x0b => Some(Key::Char('0')),
        0x0c => Some(Key::Char('-')),
        0x0d => Some(Key::Char('=')),
        0x0e => Some(Key::Special(SpecialKey::Backspace)),
        0x0f => Some(Key::Special(SpecialKey::Tab)),
        0x10 => Some(Key::Char('Q')),
        0x11 => Some(Key::Char('W')),
        0x12 => Some(Key::Char('E')),
        0x13 => Some(Key::Char('R')),
        0x14 => Some(Key::Char('T')),
        0x15 => Some(Key::Char('Y')),
        0x16 => Some(Key::Char('U')),
        0x17 => Some(Key::Char('I')),
        0x18 => Some(Key::Char('O')),
        0x19 => Some(Key::Char('P')),
        0x1a => Some(Key::Char('[')),
        0x1b => Some(Key::Char(']')),
        0x1c => Some(Key::Special(SpecialKey::Enter)),
        0x1d => Some(Key::Special(SpecialKey::ControlLeft)),
        0x1e => Some(Key::Char('A')),
        0x1f => Some(Key::Char('S')),
        0x20 => Some(Key::Char('D')),
        0x21 => Some(Key::Char('F')),
        0x22 => Some(Key::Char('G')),
        0x23 => Some(Key::Char('H')),
        0x24 => Some(Key::Char('J')),
        0x25 => Some(Key::Char('K')),
        0x26 => Some(Key::Char('L')),
        0x27 => Some(Key::Char(';')),
        0x28 => Some(Key::Char('\'')),
        0x29 => Some(Key::Char('`')),
        0x2a => Some(Key::Special(SpecialKey::ShiftLeft)),
        0x2b => Some(Key::Char('\\')),
        0x2c => Some(Key::Char('Z')),
        0x2d => Some(Key::Char('X')),
        0x2e => Some(Key::Char('C')),
        0x2f => Some(Key::Char('V')),
        0x30 => Some(Key::Char('B')),
        0x31 => Some(Key::Char('N')),
        0x32 => Some(Key::Char('M')),
        0x33 => Some(Key::Char(',')),
        0x34 => Some(Key::Char('.')),
        0x35 => Some(Key::Char('/')),
        0x36 => Some(Key::Special(SpecialKey::ShiftRight)),
        0x37 => Some(Key::Keypad('*')),
        0x38 => Some(Key::Special(SpecialKey::AltLeft)),
        0x39 => Some(Key::Char(' ')),
        0x3a => Some(Key::Special(SpecialKey::CapsLock)),
        0x3b => Some(Key::Special(SpecialKey::F1)),
        0x3c => Some(Key::Special(SpecialKey::F2)),
        0x3d => Some(Key::Special(SpecialKey::F3)),
        0x3e => Some(Key::Special(SpecialKey::F4)),
        0x3f => Some(Key::Special(SpecialKey::F5)),
        0x40 => Some(Key::Special(SpecialKey::F6)),
        0x41 => Some(Key::Special(SpecialKey::F7)),
        0x42 => Some(Key::Special(SpecialKey::F8)),
        0x43 => Some(Key::Special(SpecialKey::F9)),
        0x44 => Some(Key::Special(SpecialKey::F10)),
        0x45 => Some(Key::Special(SpecialKey::NumberLock)),
        0x46 => Some(Key::Special(SpecialKey::ScrollLock)),
        0x47 => Some(Key::Keypad('7')),
        0x48 => Some(Key::Keypad('8')),
        0x49 => Some(Key::Keypad('9')),
        0x4a => Some(Key::Keypad('-')),
        0x4b => Some(Key::Keypad('4')),
        0x4c => Some(Key::Keypad('5')),
        0x4d => Some(Key::Keypad('6')),
        0x4e => Some(Key::Keypad('+')),
        0x4f => Some(Key::Keypad('1')),
        0x50 => Some(Key::Keypad('2')),
        0x51 => Some(Key::Keypad('3')),
        0x52 => Some(Key::Keypad('0')),
        0x53 => Some(Key::Keypad('.')),
        0x57 => Some(Key::Special(SpecialKey::F11)),
        0x58 => Some(Key::Special(SpecialKey::F12)),
        _ => None,
    };
    proof {
        if found is Some {
            lemma_ibm_xt_key_is_make_code(scancode);
        }
    }
    match found {
        Some(key) => Some(KeyEvent { key, state }),
        None => None,
    }
}

} // verus!
