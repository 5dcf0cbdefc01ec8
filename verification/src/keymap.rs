//! The fixed keyboard layout: sixteen host key characters mapped to the
//! hexadecimal key codes 0x0..=0xF. The host event backend supplies the
//! raw character; the engine consumes the mapped code.
use vstd::prelude::*;

verus! {

/// The hexadecimal key code for a host key character: the rows
/// `1 2 3 4`, `q w e r`, `a s d f`, `z x c v` map to 0x0..=0xF in
/// row-major order; any other character has no code.
pub open spec fn hex_key_code(key: char) -> Option<u8> {
    if key == '1' {
        Some(0x0)
    } else if key == '2' {
        Some(0x1)
    } else if key == '3' {
        Some(0x2)
    } else if key == '4' {
        Some(0x3)
    } else if key == 'q' {
        Some(0x4)
    } else if key == 'w' {
        Some(0x5)
    } else if key == 'e' {
        Some(0x6)
    } else if key == 'r' {
        Some(0x7)
    } else if key == 'a' {
        Some(0x8)
    } else if key == 's' {
        Some(0x9)
    } else if key == 'd' {
        Some(0xA)
    } else if key == 'f' {
        Some(0xB)
    } else if key == 'z' {
        Some(0xC)
    } else if key == 'x' {
        Some(0xD)
    } else if key == 'c' {
        Some(0xE)
    } else if key == 'v' {
        Some(0xF)
    } else {
        None
    }
}

/// The table from host key characters to hexadecimal key codes.
#[derive(Debug, Clone, Copy)]
pub struct HexKeyMap;

impl HexKeyMap {
    /// Looks up the hexadecimal key code of a host key character.
    pub fn get(&self, key: char) -> (r: Option<u8>)
        ensures
            r == hex_key_code(key),
    {
        match key {
            '1' => Some(0x0),
            '2' => Some(0x1),
            '3' => Some(0x2),
            '4' => Some(0x3),
            'q' => Some(0x4),
            'w' => Some(0x5),
            'e' => Some(0x6),
            'r' => Some(0x7),
            'a' => Some(0x8),
            's' => Some(0x9),
            'd' => Some(0xA),
            'f' => Some(0xB),
            'z' => Some(0xC),
            'x' => Some(0xD),
            'c' => Some(0xE),
            'v' => Some(0xF),
            _ => None,
        }
    }
}

impl Default for HexKeyMap {
    /// The one fixed layout.
    fn default() -> (r: Self)
        ensures
            r == (HexKeyMap),
    {
        HexKeyMap
    }
}

} // verus!
