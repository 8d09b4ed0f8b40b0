use vstd::prelude::*;

verus! {

/// One of the sixteen keys of the hexadecimal keypad.
#[derive(Debug, Clone, Copy, PartialEq, Eq, Structural)]
pub enum Key {
    Key0,
    Key1,
    Key2,
    Key3,
    Key4,
    Key5,
    Key6,
    Key7,
    Key8,
    Key9,
    KeyA,
    KeyB,
    KeyC,
    KeyD,
    KeyE,
    KeyF,
}

/// The code of a key: its hexadecimal label as a number.
pub open spec fn key_code(k: Key) -> u8 {
    match k {
        Key::Key0 => 0,
        Key::Key1 => 1,
        Key::Key2 => 2,
        Key::Key3 => 3,
        Key::Key4 => 4,
        Key::Key5 => 5,
        Key::Key6 => 6,
        Key::Key7 => 7,
        Key::Key8 => 8,
        Key::Key9 => 9,
        Key::KeyA => 10,
        Key::KeyB => 11,
        Key::KeyC => 12,
        Key::KeyD => 13,
        Key::KeyE => 14,
        Key::KeyF => 15,
    }
}

impl Key {
    /// The code of this key, `0..=15`.
    pub fn code(&self) -> (r: u8)
        ensures
            r == key_code(*self),
            r < 16,
    {
        match self {
            Key::Key0 => 0,
            Key::Key1 => 1,
            Key::Key2 => 2,
            Key::Key3 => 3,
            Key::Key4 => 4,
            Key::Key5 => 5,
            Key::Key6 => 6,
            Key::Key7 => 7,
            Key::Key8 => 8,
            Key::Key9 => 9,
            Key::KeyA => 10,
            Key::KeyB => 11,
            Key::KeyC => 12,
            Key::KeyD => 13,
            Key::KeyE => 14,
            Key::KeyF => 15,
        }
    }

    /// The key with the given code; `None` for a code above 15.
    pub fn from_code(code: u8) -> (r: Option<Key>)
        ensures
            code < 16 <==> r.is_some(),
            r matches Some(k) ==> key_code(k) == code,
    {
        match code {
            0 => Some(Key::Key0),
            1 => Some(Key::Key1),
            2 => Some(Key::Key2),
            3 => Some(Key::Key3),
            4 => Some(Key::Key4),
            5 => Some(Key::Key5),
            6 => Some(Key::Key6),
            7 => Some(Key::Key7),
            8 => Some(Key::Key8),
            9 => Some(Key::Key9),
            10 => Some(Key::KeyA),
            11 => Some(Key::KeyB),
            12 => Some(Key::KeyC),
            13 => Some(Key::KeyD),
            14 => Some(Key::KeyE),
            15 => Some(Key::KeyF),
            _ => None,
        }
    }
}

/// The host's answer to "is this key held down right now".
///
/// The machine asks it for the key-pressed and key-released skips; it makes
/// no promise, since the answer depends on the host's input devices.
pub trait KeyPad {
    fn is_key_down(&self, key: Key) -> bool;
}

} // verus!
