//! The two tables between the hexadecimal keypad and the host keyboard.
//!
//! The key tests (`EX9E`, `EXA1`) and the key wait (`FX0A`) use different
//! tables; both are kept as they are.

use vstd::prelude::*;
use crate::state::HostKey;

verus! {

/// The host key that a key test looks at for keypad value `value`.
pub open spec fn keypad_key(value: u8) -> Option<HostKey> {
    match value {
        0x1 => Some(HostKey::Key1),
        0x2 => Some(HostKey::Key2),
        0x3 => Some(HostKey::Key3),
        0xC => Some(HostKey::Key4),
        0x4 => Some(HostKey::Q),
        0x5 => Some(HostKey::W),
        0x6 => Some(HostKey::E),
        0xD => Some(HostKey::R),
        0x7 => Some(HostKey::A),
        0x8 => Some(HostKey::S),
        0x9 => Some(HostKey::D),
        0xE => Some(HostKey::F),
        0xA => Some(HostKey::Z),
        0x0 => Some(HostKey::X),
        0xB => Some(HostKey::C),
        0xF => Some(HostKey::V),
        _ => None,
    }
}

/// The value that a key wait stores when host key `key` goes down.
pub open spec fn pressed_value(key: HostKey) -> Option<u8> {
    match key {
        HostKey::Key1 => Some(0x1u8),
        HostKey::Key2 => Some(0x2u8),
        HostKey::Key3 => Some(0x3u8),
        HostKey::Key4 => Some(0x4u8),
        HostKey::Q => Some(0x5u8),
        HostKey::W => Some(0x6u8),
        HostKey::E => Some(0x7u8),
        HostKey::R => Some(0x8u8),
        HostKey::A => Some(0x9u8),
        HostKey::S => Some(0xAu8),
        HostKey::D => Some(0xBu8),
        HostKey::F => Some(0xCu8),
        HostKey::Z => Some(0xDu8),
        HostKey::X => Some(0xEu8),
        HostKey::C => Some(0xFu8),
        _ => None,
    }
}

/// Host key for keypad value `value`, or `None` when `value` is above `0xF`.
pub fn keypad_host_key(value: u8) -> (k: Option<HostKey>)
    ensures
        k == keypad_key(value),
{
    match value {
        0x1 => Some(HostKey::Key1),
        0x2 => Some(HostKey::Key2),
        0x3 => Some(HostKey::Key3),
        0xC => Some(HostKey::Key4),
        0x4 => Some(HostKey::Q),
        0x5 => Some(HostKey::W),
        0x6 => Some(HostKey::E),
        0xD => Some(HostKey::R),
        0x7 => Some(HostKey::A),
        0x8 => Some(HostKey::S),
        0x9 => Some(HostKey::D),
        0xE => Some(HostKey::F),
        0xA => Some(HostKey::Z),
        0x0 => Some(HostKey::X),
        0xB => Some(HostKey::C),
        0xF => Some(HostKey::V),
        _ => None,
    }
}

/// Value stored by a key wait for `key`, or `None` when the key stands for no digit.
pub fn pressed_key_value(key: HostKey) -> (r: Option<u8>)
    ensures
        r == pressed_value(key),
{
    match key {
        HostKey::Key1 => Some(0x1),
        HostKey::Key2 => Some(0x2),
        HostKey::Key3 => Some(0x3),
        HostKey::Key4 => Some(0x4),
        HostKey::Q => Some(0x5),
        HostKey::W => Some(0x6),
        HostKey::E => Some(0x7),
        HostKey::R => Some(0x8),
        HostKey::A => Some(0x9),
        HostKey::S => Some(0xA),
        HostKey::D => Some(0xB),
        HostKey::F => Some(0xC),
        HostKey::Z => Some(0xD),
        HostKey::X => Some(0xE),
        HostKey::C => Some(0xF),
        _ => None,
    }
}

/// Whether `key` is among `keys`.
pub fn key_is_down(keys: &Vec<HostKey>, key: HostKey) -> (b: bool)
    ensures
        b == keys@.contains(key),
{
    let mut i: usize = 0;
    while i < keys.len()
        invariant
            i <= keys.len(),
            forall|j: int| 0 <= j < i ==> keys@[j] != key,
        decreases keys.len() - i,
    {
        if keys[i] == key {
            assert(keys@[i as int] == key);
            return true;
        }
        i = i + 1;
    }
    false
}

} // verus!
