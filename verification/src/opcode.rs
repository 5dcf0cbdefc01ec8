//! The opcode decoder: classifies a 16-bit instruction word into one of
//! the 35 named instruction forms, or reports an unknown word.
use vstd::prelude::*;
use crate::nibble::{NibblePair, lemma_nibble_value_of};

verus! {

/// The coarse category of an instruction form, used for classification
/// only, never for dispatch.
#[derive(Debug, Copy, Clone, PartialEq, Eq, Structural)]
pub enum OpKind {
    Assig,
    BCD,
    BitOp,
    Call,
    Cond,
    Const,
    Display,
    Flow,
    KeyOp,
    Math,
    MEM,
    Rand,
    Sound,
    Timer,
}

/// The 35 instruction forms, named by their nibble pattern:
/// - NNN: a 12-bit address
/// - NN: an 8-bit constant
/// - N: a 4-bit constant
/// - X and Y: 4-bit register identifiers
#[derive(Debug, Copy, Clone, PartialEq, Eq, Structural)]
pub enum OpLiteral {
    _0NNN,
    _00E0,
    _00EE,
    _1NNN,
    _2NNN,
    _3XNN,
    _4XNN,
    _5XY0,
    _6XNN,
    _7XNN,
    _8XY0,
    _8XY1,
    _8XY2,
    _8XY3,
    _8XY4,
    _8XY5,
    _8XY6,
    _8XY7,
    _8XYE,
    _9XY0,
    _ANNN,
    _BNNN,
    _CXNN,
    _DXYN,
    _EX9E,
    _EXA1,
    _FX07,
    _FX0A,
    _FX15,
    _FX18,
    _FX1E,
    _FX29,
    _FX33,
    _FX55,
    _FX65,
}

/// A decoded instruction: the raw word together with its form and category.
#[derive(Debug, Copy, Clone, PartialEq, Eq, Structural)]
pub struct OpCode {
    pub value: u16,
    pub literal: OpLiteral,
    pub kind: OpKind,
}

/// The one decode failure: a word that matches none of the 35 forms.
#[derive(Debug, Copy, Clone, PartialEq, Eq, Structural)]
pub enum OpCodeError {
    Unknown(u16),
}

/// The first (most significant) hexadecimal digit of an instruction word.
pub open spec fn op_digit_1(w: u16) -> u8 {
    (((w / 256) as u8) / 16) as u8
}

/// The second hexadecimal digit of an instruction word.
pub open spec fn op_digit_2(w: u16) -> u8 {
    (((w / 256) as u8) % 16) as u8
}

/// The third hexadecimal digit of an instruction word.
pub open spec fn op_digit_3(w: u16) -> u8 {
    (((w % 256) as u8) / 16) as u8
}

/// The fourth (least significant) hexadecimal digit of an instruction word.
pub open spec fn op_digit_4(w: u16) -> u8 {
    (((w % 256) as u8) % 16) as u8
}

/// The decode table: the form and category of a word, or `None` where the
/// word matches none of the 35 nibble patterns. Matching is keyed on the
/// first digit; where that is ambiguous, on the remaining digits.
pub open spec fn spec_decode(w: u16) -> Option<(OpLiteral, OpKind)> {
    let d1 = op_digit_1(w);
    let d2 = op_digit_2(w);
    let d3 = op_digit_3(w);
    let d4 = op_digit_4(w);
    if d1 == 0 && d2 == 0 && d3 == 0xE && d4 == 0 {
        Some((OpLiteral::_00E0, OpKind::Display))
    } else if d1 == 0 && d2 == 0 && d3 == 0xE && d4 == 0xE {
        Some((OpLiteral::_00EE, OpKind::Flow))
    } else if d1 == 0 {
        Some((OpLiteral::_0NNN, OpKind::Call))
    } else if d1 == 1 {
        Some((OpLiteral::_1NNN, OpKind::Flow))
    } else if d1 == 2 {
        Some((OpLiteral::_2NNN, OpKind::Flow))
    } else if d1 == 3 {
        Some((OpLiteral::_3XNN, OpKind::Cond))
    } else if d1 == 4 {
        Some((OpLiteral::_4XNN, OpKind::Cond))
    } else if d1 == 5 {
        Some((OpLiteral::_5XY0, OpKind::Cond))
    } else if d1 == 6 {
        Some((OpLiteral::_6XNN, OpKind::Const))
    } else if d1 == 7 {
        Some((OpLiteral::_7XNN, OpKind::Const))
    } else if d1 == 8 && d4 == 0 {
        Some((OpLiteral::_8XY0, OpKind::Assig))
    } else if d1 == 8 && d4 == 1 {
        Some((OpLiteral::_8XY1, OpKind::BitOp))
    } else if d1 == 8 && d4 == 2 {
        Some((OpLiteral::_8XY2, OpKind::BitOp))
    } else if d1 == 8 && d4 == 3 {
        Some((OpLiteral::_8XY3, OpKind::BitOp))
    } else if d1 == 8 && d4 == 4 {
        Some((OpLiteral::_8XY4, OpKind::Math))
    } else if d1 == 8 && d4 == 5 {
        Some((OpLiteral::_8XY5, OpKind::Math))
    } else if d1 == 8 && d4 == 6 {
        Some((OpLiteral::_8XY6, OpKind::BitOp))
    } else if d1 == 8 && d4 == 7 {
        Some((OpLiteral::_8XY7, OpKind::Math))
    } else if d1 == 8 && d4 == 0xE {
        Some((OpLiteral::_8XYE, OpKind::BitOp))
    } else if d1 == 9 && d4 == 0 {
        Some((OpLiteral::_9XY0, OpKind::Cond))
    } else if d1 == 0xA {
        Some((OpLiteral::_ANNN, OpKind::MEM))
    } else if d1 == 0xB {
        Some((OpLiteral::_BNNN, OpKind::Flow))
    } else if d1 == 0xC {
        Some((OpLiteral::_CXNN, OpKind::Rand))
    } else if d1 == 0xD {
        Some((OpLiteral::_DXYN, OpKind::Display))
    } else if d1 == 0xE && d3 == 9 && d4 == 0xE {
        Some((OpLiteral::_EX9E, OpKind::KeyOp))
    } else if d1 == 0xE && d3 == 0xA && d4 == 1 {
        Some((OpLiteral::_EXA1, OpKind::KeyOp))
    } else if d1 == 0xF && d3 == 0 && d4 == 7 {
        Some((OpLiteral::_FX07, OpKind::Timer))
    } else if d1 == 0xF && d3 == 0 && d4 == 0xA {
        Some((OpLiteral::_FX0A, OpKind::KeyOp))
    } else if d1 == 0xF && d3 == 1 && d4 == 5 {
        Some((OpLiteral::_FX15, OpKind::Timer))
    } else if d1 == 0xF && d3 == 1 && d4 == 8 {
        Some((OpLiteral::_FX18, OpKind::Sound))
    } else if d1 == 0xF && d3 == 1 && d4 == 0xE {
        Some((OpLiteral::_FX1E, OpKind::MEM))
    } else if d1 == 0xF && d3 == 2 && d4 == 9 {
        Some((OpLiteral::_FX29, OpKind::MEM))
    } else if d1 == 0xF && d3 == 3 && d4 == 3 {
        Some((OpLiteral::_FX33, OpKind::MEM))
    } else if d1 == 0xF && d3 == 5 && d4 == 5 {
        Some((OpLiteral::_FX55, OpKind::MEM))
    } else if d1 == 0xF && d3 == 6 && d4 == 5 {
        Some((OpLiteral::_FX65, OpKind::MEM))
    } else {
        None
    }
}

impl OpCode {
    /// Decodes an instruction word. Returns the tagged form and category
    /// exactly where the decode table names one, and `Unknown` otherwise.
    /// Decoding is pure and total: every word yields exactly one outcome.
    pub fn decode(value: u16) -> (r: Result<OpCode, OpCodeError>)
        ensures
            match spec_decode(value) {
                Some(fk) => (r == Ok::<OpCode, OpCodeError>(
                    OpCode { value, literal: fk.0, kind: fk.1 },
                )),
                None => (r == Err::<OpCode, OpCodeError>(OpCodeError::Unknown(value))),
            },
    {
        let high_byte = (value / 256) as u8;
        let low_byte = (value % 256) as u8;

        let high_pair = NibblePair::from_byte(high_byte);
        let low_pair = NibblePair::from_byte(low_byte);

        let first = high_pair.high.to_u8();
        let second = high_pair.low.to_u8();
        let third = low_pair.high.to_u8();
        let fourth = low_pair.low.to_u8();

        proof {
            lemma_nibble_value_of(high_byte / 16);
            lemma_nibble_value_of(high_byte % 16);
            lemma_nibble_value_of(low_byte / 16);
            lemma_nibble_value_of(low_byte % 16);
        }

        match (first, second, third, fourth) {
            (0, 0, 0xE, 0) => Ok(OpCode { value, literal: OpLiteral::_00E0, kind: OpKind::Display }),
            (0, 0, 0xE, 0xE) => Ok(OpCode { value, literal: OpLiteral::_00EE, kind: OpKind::Flow }),
            (0, _, _, _) => Ok(OpCode { value, literal: OpLiteral::_0NNN, kind: OpKind::Call }),
            (1, _, _, _) => Ok(OpCode { value, literal: OpLiteral::_1NNN, kind: OpKind::Flow }),
            (2, _, _, _) => Ok(OpCode { value, literal: OpLiteral::_2NNN, kind: OpKind::Flow }),
            (3, _, _, _) => Ok(OpCode { value, literal: OpLiteral::_3XNN, kind: OpKind::Cond }),
            (4, _, _, _) => Ok(OpCode { value, literal: OpLiteral::_4XNN, kind: OpKind::Cond }),
            (5, _, _, _) => Ok(OpCode { value, literal: OpLiteral::_5XY0, kind: OpKind::Cond }),
            (6, _, _, _) => Ok(OpCode { value, literal: OpLiteral::_6XNN, kind: OpKind::Const }),
            (7, _, _, _) => Ok(OpCode { value, literal: OpLiteral::_7XNN, kind: OpKind::Const }),
            (8, _, _, 0) => Ok(OpCode { value, literal: OpLiteral::_8XY0, kind: OpKind::Assig }),
            (8, _, _, 1) => Ok(OpCode { value, literal: OpLiteral::_8XY1, kind: OpKind::BitOp }),
            (8, _, _, 2) => Ok(OpCode { value, literal: OpLiteral::_8XY2, kind: OpKind::BitOp }),
            (8, _, _, 3) => Ok(OpCode { value, literal: OpLiteral::_8XY3, kind: OpKind::BitOp }),
            (8, _, _, 4) => Ok(OpCode { value, literal: OpLiteral::_8XY4, kind: OpKind::Math }),
            (8, _, _, 5) => Ok(OpCode { value, literal: OpLiteral::_8XY5, kind: OpKind::Math }),
            (8, _, _, 6) => Ok(OpCode { value, literal: OpLiteral::_8XY6, kind: OpKind::BitOp }),
            (8, _, _, 7) => Ok(OpCode { value, literal: OpLiteral::_8XY7, kind: OpKind::Math }),
            (8, _, _, 0xE) => Ok(OpCode { value, literal: OpLiteral::_8XYE, kind: OpKind::BitOp }),
            (9, _, _, 0) => Ok(OpCode { value, literal: OpLiteral::_9XY0, kind: OpKind::Cond }),
            (0xA, _, _, _) => Ok(OpCode { value, literal: OpLiteral::_ANNN, kind: OpKind::MEM }),
            (0xB, _, _, _) => Ok(OpCode { value, literal: OpLiteral::_BNNN, kind: OpKind::Flow }),
            (0xC, _, _, _) => Ok(OpCode { value, literal: OpLiteral::_CXNN, kind: OpKind::Rand }),
            (0xD, _, _, _) => Ok(OpCode { value, literal: OpLiteral::_DXYN, kind: OpKind::Display }),
            (0xE, _, 9, 0xE) => Ok(OpCode { value, literal: OpLiteral::_EX9E, kind: OpKind::KeyOp }),
            (0xE, _, 0xA, 1) => Ok(OpCode { value, literal: OpLiteral::_EXA1, kind: OpKind::KeyOp }),
            (0xF, _, 0, 7) => Ok(OpCode { value, literal: OpLiteral::_FX07, kind: OpKind::Timer }),
            (0xF, _, 0, 0xA) => Ok(OpCode { value, literal: OpLiteral::_FX0A, kind: OpKind::KeyOp }),
            (0xF, _, 1, 5) => Ok(OpCode { value, literal: OpLiteral::_FX15, kind: OpKind::Timer }),
            (0xF, _, 1, 8) => Ok(OpCode { value, literal: OpLiteral::_FX18, kind: OpKind::Sound }),
            (0xF, _, 1, 0xE) => Ok(OpCode { value, literal: OpLiteral::_FX1E, kind: OpKind::MEM }),
            (0xF, _, 2, 9) => Ok(OpCode { value, literal: OpLiteral::_FX29, kind: OpKind::MEM }),
            (0xF, _, 3, 3) => Ok(OpCode { value, literal: OpLiteral::_FX33, kind: OpKind::MEM }),
            (0xF, _, 5, 5) => Ok(OpCode { value, literal: OpLiteral::_FX55, kind: OpKind::MEM }),
            (0xF, _, 6, 5) => Ok(OpCode { value, literal: OpLiteral::_FX65, kind: OpKind::MEM }),
            _ => Err(OpCodeError::Unknown(value)),
        }
    }
}

} // verus!
