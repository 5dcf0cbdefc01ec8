//! The laws of the instruction set: carry and borrow flags, shift flag
//! capture, conditional-skip displacement, and the call/return round
//! trip, each proved of the execution table for every machine state.
use vstd::prelude::*;
use vstd::arithmetic::div_mod::lemma_small_mod;
use crate::chip8::{VmState, spec_apply, wrap8, flag};
use crate::opcode::{OpLiteral, spec_decode, op_digit_2, op_digit_3};

verus! {

/// Whether an instruction form is one of the conditional skips.
pub open spec fn skip_form(lit: OpLiteral) -> bool {
    ||| lit == OpLiteral::_3XNN
    ||| lit == OpLiteral::_4XNN
    ||| lit == OpLiteral::_5XY0
    ||| lit == OpLiteral::_9XY0
    ||| lit == OpLiteral::_EX9E
    ||| lit == OpLiteral::_EXA1
}

/// The predicate a conditional skip tests against `pre`.
pub open spec fn skip_predicate(pre: VmState, w: u16) -> bool {
    let x = op_digit_2(w) as int;
    let y = op_digit_3(w) as int;
    let nn = (w % 256) as u8;
    let vx = pre.regs[x];
    let vy = pre.regs[y];
    match spec_decode(w) {
        Some(fk) => match fk.0 {
            OpLiteral::_3XNN => vx == nn,
            OpLiteral::_4XNN => vx != nn,
            OpLiteral::_5XY0 => vx == vy,
            OpLiteral::_9XY0 => vx != vy,
            OpLiteral::_EX9E => pre.keys[(vx % 16) as int],
            OpLiteral::_EXA1 => !pre.keys[(vx % 16) as int],
            _ => false,
        },
        None => false,
    }
}

/// The add-reg form sets the flag register to 1 exactly when the
/// unmodulated sum exceeds 255, and the result register always holds the
/// mod-256 sum. The flag claim asks that the target register is not the
/// flag register itself, which the sum would overwrite.
pub proof fn lemma_add_reg_carry(pre: VmState, w: u16, rand_byte: u8, key: Option<u8>)
    requires
        pre.wf(),
        (spec_decode(w) matches Some(fk) && fk.0 == OpLiteral::_8XY4),
    ensures
        ({
            let x = op_digit_2(w) as int;
            let vx = pre.regs[x];
            let vy = pre.regs[op_digit_3(w) as int];
            spec_apply(pre, w, rand_byte, key) matches Ok(post) && post.regs[x] == wrap8(vx + vy)
                && (x != 15 ==> post.regs[15] == flag(vx + vy > 255))
        }),
{
}

/// The sub-reg form sets the flag register to 1 exactly when no borrow
/// occurs, that is when the minuend register is at least the subtrahend,
/// and the result register always holds the mod-256 difference. The flag
/// claim asks that the target register is not the flag register itself.
pub proof fn lemma_sub_reg_borrow(pre: VmState, w: u16, rand_byte: u8, key: Option<u8>)
    requires
        pre.wf(),
        (spec_decode(w) matches Some(fk) && fk.0 == OpLiteral::_8XY5),
    ensures
        ({
            let x = op_digit_2(w) as int;
            let vx = pre.regs[x];
            let vy = pre.regs[op_digit_3(w) as int];
            spec_apply(pre, w, rand_byte, key) matches Ok(post) && post.regs[x] == wrap8(vx - vy)
                && (x != 15 ==> post.regs[15] == flag(vx >= vy))
        }),
{
}

/// The shr form stores the pre-shift least significant bit in the flag
/// register before shifting the target right by one. The flag claim asks
/// that the target register is not the flag register itself.
pub proof fn lemma_shr_flag(pre: VmState, w: u16, rand_byte: u8, key: Option<u8>)
    requires
        pre.wf(),
        (spec_decode(w) matches Some(fk) && fk.0 == OpLiteral::_8XY6),
    ensures
        ({
            let x = op_digit_2(w) as int;
            let vx = pre.regs[x];
            spec_apply(pre, w, rand_byte, key) matches Ok(post) && post.regs[x] == vx / 2 && (x
                != 15 ==> post.regs[15] == vx % 2)
        }),
{
}

/// The shl form stores the pre-shift most significant bit in the flag
/// register before shifting the target left by one, mod 256. The flag
/// claim asks that the target register is not the flag register itself.
pub proof fn lemma_shl_flag(pre: VmState, w: u16, rand_byte: u8, key: Option<u8>)
    requires
        pre.wf(),
        (spec_decode(w) matches Some(fk) && fk.0 == OpLiteral::_8XYE),
    ensures
        ({
            let x = op_digit_2(w) as int;
            let vx = pre.regs[x];
            spec_apply(pre, w, rand_byte, key) matches Ok(post) && post.regs[x] == wrap8(vx * 2)
                && (x != 15 ==> post.regs[15] == vx / 128)
        }),
{
}

/// Every conditional-skip form advances the program counter by exactly 2
/// when its predicate is false and by exactly 4 when it is true, as long
/// as neither advance wraps the 12-bit counter.
pub proof fn lemma_skip_displacement(pre: VmState, w: u16, rand_byte: u8, key: Option<u8>)
    requires
        pre.wf(),
        (spec_decode(w) matches Some(fk) && skip_form(fk.0)),
        pre.pc + 4 < 4096,
    ensures
        ({
            spec_apply(pre, w, rand_byte, key) matches Ok(post) && post.pc == (if skip_predicate(
                pre,
                w,
            ) {
                pre.pc + 4
            } else {
                pre.pc + 2
            })
        }),
{
    lemma_small_mod((pre.pc + 2) as nat, 4096);
    lemma_small_mod((pre.pc + 4) as nat, 4096);
}

/// Executing a call and then, at the called address, a return leaves the
/// program counter exactly 2 past where the call stood and the stack
/// pointer at its pre-call value, as long as the call had a free slot and
/// the advance does not wrap the 12-bit counter.
pub proof fn lemma_call_return_round_trip(
    pre: VmState,
    w_call: u16,
    rb1: u8,
    key1: Option<u8>,
    rb2: u8,
    key2: Option<u8>,
)
    requires
        pre.wf(),
        (spec_decode(w_call) matches Some(fk) && fk.0 == OpLiteral::_2NNN),
        pre.sp < 16,
        pre.pc + 2 < 4096,
    ensures
        ({
            spec_apply(pre, w_call, rb1, key1) matches Ok(called) && spec_apply(
                called,
                0x00EE,
                rb2,
                key2,
            ) matches Ok(returned) && returned.pc == pre.pc + 2 && returned.sp == pre.sp
        }),
{
    lemma_small_mod(pre.pc as nat, 4096);
    lemma_small_mod((pre.pc + 2) as nat, 4096);
}

} // verus!
