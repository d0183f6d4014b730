//! The 16-key hexadecimal keypad and the fixed layout that maps physical
//! keys onto it.

use vstd::prelude::*;

verus! {

/// A physical key: the sixteen keys of the layout, and `Other` for every
/// key outside it.
#[derive(Clone, Copy, Debug, PartialEq, Eq, Structural)]
pub enum Key {
    Key1,
    Key2,
    Key3,
    Key4,
    Q,
    W,
    E,
    R,
    A,
    S,
    D,
    F,
    Z,
    X,
    C,
    V,
    Other,
}

/// The logical key that a physical key stands for. The four rows of the
/// layout read `1 2 3 C`, `4 5 6 D`, `7 8 9 E`, `A 0 B F`.
pub open spec fn key_code(key: Key) -> Option<u8> {
    match key {
        Key::Key1 => Some(0x1u8),
        Key::Key2 => Some(0x2u8),
        Key::Key3 => Some(0x3u8),
        Key::Key4 => Some(0xCu8),
        Key::Q => Some(0x4u8),
        Key::W => Some(0x5u8),
        Key::E => Some(0x6u8),
        Key::R => Some(0xDu8),
        Key::A => Some(0x7u8),
        Key::S => Some(0x8u8),
        Key::D => Some(0x9u8),
        Key::F => Some(0xEu8),
        Key::Z => Some(0xAu8),
        Key::X => Some(0x0u8),
        Key::C => Some(0xBu8),
        Key::V => Some(0xFu8),
        Key::Other => None,
    }
}

/// The logical key, if any, of the first physical key in a list of pressed
/// keys. Only the first key counts.
pub open spec fn first_key_code(keys: Seq<Key>) -> Option<u8> {
    if keys.len() > 0 {
        key_code(keys[0])
    } else {
        None
    }
}

/// The physical key that stands for a hexadecimal digit.
pub open spec fn key_for(code: u8) -> Key {
    if code == 0x0 {
        Key::X
    } else if code == 0x1 {
        Key::Key1
    } else if code == 0x2 {
        Key::Key2
    } else if code == 0x3 {
        Key::Key3
    } else if code == 0x4 {
        Key::Q
    } else if code == 0x5 {
        Key::W
    } else if code == 0x6 {
        Key::E
    } else if code == 0x7 {
        Key::A
    } else if code == 0x8 {
        Key::S
    } else if code == 0x9 {
        Key::D
    } else if code == 0xA {
        Key::Z
    } else if code == 0xB {
        Key::C
    } else if code == 0xC {
        Key::Key4
    } else if code == 0xD {
        Key::R
    } else if code == 0xE {
        Key::F
    } else {
        Key::V
    }
}

/// Every logical key is a hexadecimal digit, every digit has a physical
/// key, and no two physical keys share a digit.
pub proof fn lemma_keypad_layout()
    ensures
        forall|key: Key| #[trigger] key_code(key) matches Some(code) ==> code < 16,
        forall|code: u8| code < 16 ==> key_code(#[trigger] key_for(code)) == Some(code),
        forall|key: Key| #[trigger] key_code(key) matches Some(code) ==> key_for(code) == key,
{
}

} // verus!
