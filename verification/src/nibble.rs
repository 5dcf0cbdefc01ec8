//! The nibble codec: a byte split into two 4-bit halves, and the
//! conversions between nibbles, bytes and hexadecimal digit characters.
use vstd::prelude::*;

verus! {

/// One 4-bit value, named by its binary digits.
#[derive(Debug, Copy, Clone, PartialEq, Eq, Structural)]
pub enum Nibble {
    B0000,
    B0001,
    B0010,
    B0011,
    B0100,
    B0101,
    B0110,
    B0111,
    B1000,
    B1001,
    B1010,
    B1011,
    B1100,
    B1101,
    B1110,
    B1111,
}

/// The numeric value of a nibble, in [0, 15].
pub open spec fn nibble_value(n: Nibble) -> u8 {
    match n {
        Nibble::B0000 => 0,
        Nibble::B0001 => 1,
        Nibble::B0010 => 2,
        Nibble::B0011 => 3,
        Nibble::B0100 => 4,
        Nibble::B0101 => 5,
        Nibble::B0110 => 6,
        Nibble::B0111 => 7,
        Nibble::B1000 => 8,
        Nibble::B1001 => 9,
        Nibble::B1010 => 10,
        Nibble::B1011 => 11,
        Nibble::B1100 => 12,
        Nibble::B1101 => 13,
        Nibble::B1110 => 14,
        Nibble::B1111 => 15,
    }
}

/// The nibble whose numeric value is `v`; meaningful only for `v < 16`.
pub open spec fn nibble_of_value(v: u8) -> Nibble
    recommends
        v < 16,
{
    if v == 0 {
        Nibble::B0000
    } else if v == 1 {
        Nibble::B0001
    } else if v == 2 {
        Nibble::B0010
    } else if v == 3 {
        Nibble::B0011
    } else if v == 4 {
        Nibble::B0100
    } else if v == 5 {
        Nibble::B0101
    } else if v == 6 {
        Nibble::B0110
    } else if v == 7 {
        Nibble::B0111
    } else if v == 8 {
        Nibble::B1000
    } else if v == 9 {
        Nibble::B1001
    } else if v == 10 {
        Nibble::B1010
    } else if v == 11 {
        Nibble::B1011
    } else if v == 12 {
        Nibble::B1100
    } else if v == 13 {
        Nibble::B1101
    } else if v == 14 {
        Nibble::B1110
    } else {
        Nibble::B1111
    }
}

/// The upper-case hexadecimal digit character that names a nibble.
pub open spec fn nibble_hex_char(n: Nibble) -> char {
    match n {
        Nibble::B0000 => '0',
        Nibble::B0001 => '1',
        Nibble::B0010 => '2',
        Nibble::B0011 => '3',
        Nibble::B0100 => '4',
        Nibble::B0101 => '5',
        Nibble::B0110 => '6',
        Nibble::B0111 => '7',
        Nibble::B1000 => '8',
        Nibble::B1001 => '9',
        Nibble::B1010 => 'A',
        Nibble::B1011 => 'B',
        Nibble::B1100 => 'C',
        Nibble::B1101 => 'D',
        Nibble::B1110 => 'E',
        Nibble::B1111 => 'F',
    }
}

/// Whether `c` is an upper-case hexadecimal digit character.
pub open spec fn is_upper_hex_char(c: char) -> bool {
    exists|n: Nibble| nibble_hex_char(n) == c
}

/// The numeric value of a hexadecimal digit character, upper or lower
/// case, as a register identifier names one; `None` for any other character.
pub open spec fn hex_digit_value(c: char) -> Option<u8> {
    if c == '0' {
        Some(0)
    } else if c == '1' {
        Some(1)
    } else if c == '2' {
        Some(2)
    } else if c == '3' {
        Some(3)
    } else if c == '4' {
        Some(4)
    } else if c == '5' {
        Some(5)
    } else if c == '6' {
        Some(6)
    } else if c == '7' {
        Some(7)
    } else if c == '8' {
        Some(8)
    } else if c == '9' {
        Some(9)
    } else if c == 'A' || c == 'a' {
        Some(10)
    } else if c == 'B' || c == 'b' {
        Some(11)
    } else if c == 'C' || c == 'c' {
        Some(12)
    } else if c == 'D' || c == 'd' {
        Some(13)
    } else if c == 'E' || c == 'e' {
        Some(14)
    } else if c == 'F' || c == 'f' {
        Some(15)
    } else {
        None
    }
}

/// Parses one hexadecimal digit character, either case, into its value.
pub fn parse_hex_digit(c: char) -> (r: Option<u8>)
    ensures
        r == hex_digit_value(c),
{
    match c {
        '0' => Some(0),
        '1' => Some(1),
        '2' => Some(2),
        '3' => Some(3),
        '4' => Some(4),
        '5' => Some(5),
        '6' => Some(6),
        '7' => Some(7),
        '8' => Some(8),
        '9' => Some(9),
        'A' | 'a' => Some(10),
        'B' | 'b' => Some(11),
        'C' | 'c' => Some(12),
        'D' | 'd' => Some(13),
        'E' | 'e' => Some(14),
        'F' | 'f' => Some(15),
        _ => None,
    }
}

impl Nibble {
    /// The upper-case hexadecimal digit character for this nibble.
    pub fn to_hex_char(&self) -> (r: char)
        ensures
            r == nibble_hex_char(*self),
    {
        match self {
            Self::B0000 => '0',
            Self::B0001 => '1',
            Self::B0010 => '2',
            Self::B0011 => '3',
            Self::B0100 => '4',
            Self::B0101 => '5',
            Self::B0110 => '6',
            Self::B0111 => '7',
            Self::B1000 => '8',
            Self::B1001 => '9',
            Self::B1010 => 'A',
            Self::B1011 => 'B',
            Self::B1100 => 'C',
            Self::B1101 => 'D',
            Self::B1110 => 'E',
            Self::B1111 => 'F',
        }
    }

    /// The numeric value of this nibble.
    pub fn to_u8(&self) -> (r: u8)
        ensures
            r == nibble_value(*self),
            r < 16,
    {
        match self {
            Self::B0000 => 0,
            Self::B0001 => 1,
            Self::B0010 => 2,
            Self::B0011 => 3,
            Self::B0100 => 4,
            Self::B0101 => 5,
            Self::B0110 => 6,
            Self::B0111 => 7,
            Self::B1000 => 8,
            Self::B1001 => 9,
            Self::B1010 => 10,
            Self::B1011 => 11,
            Self::B1100 => 12,
            Self::B1101 => 13,
            Self::B1110 => 14,
            Self::B1111 => 15,
        }
    }

    /// The nibble named by an upper-case hexadecimal digit character.
    /// Operand fields are 4-bit values, so a caller never holds any other
    /// character.
    pub fn from_hex_char(hex_char: char) -> (r: Self)
        requires
            is_upper_hex_char(hex_char),
        ensures
            nibble_hex_char(r) == hex_char,
    {
        match hex_char {
            '0' => Self::B0000,
            '1' => Self::B0001,
            '2' => Self::B0010,
            '3' => Self::B0011,
            '4' => Self::B0100,
            '5' => Self::B0101,
            '6' => Self::B0110,
            '7' => Self::B0111,
            '8' => Self::B1000,
            '9' => Self::B1001,
            'A' => Self::B1010,
            'B' => Self::B1011,
            'C' => Self::B1100,
            'D' => Self::B1101,
            'E' => Self::B1110,
            _ => {
                proof {
                    let n = choose|n: Nibble| nibble_hex_char(n) == hex_char;
                    assert(nibble_hex_char(n) == hex_char);
                }
                Self::B1111
            },
        }
    }

    /// The nibble's four binary digits as a string of '0' and '1'
    /// characters, most significant first.
    pub fn to_bit_string(&self) -> (r: String)
        ensures
            r@ == nibble_bit_chars(*self),
    {
        let s: &str = match self {
            Self::B0000 => "0000",
            Self::B0001 => "0001",
            Self::B0010 => "0010",
            Self::B0011 => "0011",
            Self::B0100 => "0100",
            Self::B0101 => "0101",
            Self::B0110 => "0110",
            Self::B0111 => "0111",
            Self::B1000 => "1000",
            Self::B1001 => "1001",
            Self::B1010 => "1010",
            Self::B1011 => "1011",
            Self::B1100 => "1100",
            Self::B1101 => "1101",
            Self::B1110 => "1110",
            Self::B1111 => "1111",
        };
        proof {
            reveal_strlit("0000");
            reveal_strlit("0001");
            reveal_strlit("0010");
            reveal_strlit("0011");
            reveal_strlit("0100");
            reveal_strlit("0101");
            reveal_strlit("0110");
            reveal_strlit("0111");
            reveal_strlit("1000");
            reveal_strlit("1001");
            reveal_strlit("1010");
            reveal_strlit("1011");
            reveal_strlit("1100");
            reveal_strlit("1101");
            reveal_strlit("1110");
            reveal_strlit("1111");
        }
        s.to_owned()
    }
}

/// The character for one binary digit of a nibble's value.
pub open spec fn bit_char(b: u8) -> char {
    if b == 0 {
        '0'
    } else {
        '1'
    }
}

/// A nibble's four binary digits as characters, most significant first.
pub open spec fn nibble_bit_chars(n: Nibble) -> Seq<char> {
    let v = nibble_value(n);
    seq![
        bit_char(v / 8),
        bit_char((v / 4) % 2),
        bit_char((v / 2) % 2),
        bit_char(v % 2),
    ]
}

/// A byte as its two nibbles: `high * 16 + low` reproduces the byte.
#[derive(Debug, Copy, Clone, PartialEq, Eq, Structural)]
pub struct NibblePair {
    pub low: Nibble,
    pub high: Nibble,
}

/// The byte that a pair of nibbles stands for.
pub open spec fn pair_value(p: NibblePair) -> u8 {
    (nibble_value(p.high) * 16 + nibble_value(p.low)) as u8
}

impl NibblePair {
    /// Splits a byte into its high and low nibbles.
    pub fn from_byte(full_byte: u8) -> (r: Self)
        ensures
            r.high == nibble_of_value(full_byte / 16),
            r.low == nibble_of_value(full_byte % 16),
            pair_value(r) == full_byte,
    {
        let high_val = full_byte / 16;
        let low_val = full_byte % 16;
        NibblePair { high: Nibble::from_value(high_val), low: Nibble::from_value(low_val) }
    }

    /// Recombines the two nibbles into the byte they came from.
    pub fn to_byte(&self) -> (r: u8)
        ensures
            r == pair_value(*self),
    {
        self.high.to_u8() * 16 + self.low.to_u8()
    }
}

impl Nibble {
    /// The nibble whose numeric value is `value`.
    pub fn from_value(value: u8) -> (r: Self)
        requires
            value < 16,
        ensures
            r == nibble_of_value(value),
            nibble_value(r) == value,
    {
        match value {
            0 => Self::B0000,
            1 => Self::B0001,
            2 => Self::B0010,
            3 => Self::B0011,
            4 => Self::B0100,
            5 => Self::B0101,
            6 => Self::B0110,
            7 => Self::B0111,
            8 => Self::B1000,
            9 => Self::B1001,
            10 => Self::B1010,
            11 => Self::B1011,
            12 => Self::B1100,
            13 => Self::B1101,
            14 => Self::B1110,
            _ => Self::B1111,
        }
    }
}

/// Splitting a byte into nibbles and recombining them reproduces the byte.
pub proof fn lemma_split_recombine(b: u8)
    ensures
        pair_value(
            NibblePair { high: nibble_of_value(b / 16), low: nibble_of_value(b % 16) },
        ) == b,
{
    lemma_nibble_value_of(b / 16);
    lemma_nibble_value_of(b % 16);
}

/// `nibble_of_value` inverts `nibble_value` on the 4-bit range.
pub proof fn lemma_nibble_value_of(v: u8)
    requires
        v < 16,
    ensures
        nibble_value(nibble_of_value(v)) == v,
{
}

} // verus!
