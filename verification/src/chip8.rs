//! The engine: owns one instance of every component and drives the
//! fetch-decode-execute-tick cycle. The whole per-opcode semantics is
//! written down once, as a transition function on the abstract machine
//! state, and every executable path is proved against it.
use vstd::prelude::*;
use crate::memory::{Memory, MEMORY_SIZE, PROGRAM_OFFSET};
use crate::register::{
    DataRegisters, AddressRegister, ProgramCounter, Screen, Timer, Keypad, Stack, StackPointer,
    SCREEN_SIZE, SCREEN_WIDTH, SCREEN_HEIGHT,
};
use crate::fonts::{FontSet, FONT_SET_SIZE, font_data};
use crate::opcode::{OpCode, OpLiteral, op_digit_2, op_digit_3, op_digit_4, spec_decode};
use vstd::arithmetic::div_mod::lemma_mod_multiples_vanish;

verus! {

/// The base of the font glyph region that the font-address opcode points
/// into: the top 80 bytes of memory.
pub const FONT_SPRITE_BASE: u16 = 4016;

/// A fatal execution error: an instruction word outside the decode table,
/// a call past the 16-slot stack, a return from an empty stack, or a
/// memory opcode whose addresses would leave the 4096-byte space.
#[derive(Debug, Copy, Clone, PartialEq, Eq, Structural)]
pub enum Chip8Error {
    UnknownOpcode(u16),
    StackOverflow,
    StackUnderflow,
    MemoryOutOfBounds,
}

impl Chip8Error {
    /// A short description of the error.
    pub fn describe(&self) -> &'static str {
        match self {
            Chip8Error::UnknownOpcode(_) => "failed to convert the word to a known opcode",
            Chip8Error::StackOverflow => "call with the 16-slot stack already full",
            Chip8Error::StackUnderflow => "return with the stack empty",
            Chip8Error::MemoryOutOfBounds => "memory opcode past the 4096-byte address space",
        }
    }
}

/// The abstract machine state: the mathematical value of every component
/// the engine owns.
#[verifier::ext_equal]
pub ghost struct VmState {
    pub mem: Seq<u8>,
    pub regs: Seq<u8>,
    pub i: u16,
    pub pc: u16,
    pub stack: Seq<u16>,
    pub sp: u16,
    pub should_draw: bool,
    pub keys: Seq<bool>,
    pub delay: u8,
    pub sound: u8,
    pub screen: Seq<bool>,
}

impl VmState {
    /// Well-formedness: the component sizes, and the 12-bit and stack
    /// pointer ranges that every operation maintains.
    pub open spec fn wf(self) -> bool {
        &&& self.mem.len() == MEMORY_SIZE
        &&& self.regs.len() == 16
        &&& self.stack.len() == 16
        &&& self.keys.len() == 16
        &&& self.screen.len() == SCREEN_SIZE
        &&& self.i <= 0xFFF
        &&& self.pc <= 0xFFF
        &&& self.sp <= 16
    }
}

/// A value masked to 12 bits, as every address register write masks it.
pub open spec fn mask12(v: int) -> u16 {
    (v % 4096) as u16
}

/// A value reduced modulo 256, as 8-bit register arithmetic wraps.
pub open spec fn wrap8(v: int) -> u8 {
    (v % 256) as u8
}

/// The flag value for a condition: 1 where it holds, else 0.
pub open spec fn flag(b: bool) -> u8 {
    if b {
        1
    } else {
        0
    }
}

/// One sprite pixel XOR-blitted at column `x`, row `y`: a set sprite bit
/// toggles the target pixel and raises the collision flag where the pixel
/// goes from set to unset; pixels outside the 64x32 grid are clipped.
pub open spec fn blit_pixel(screen: Seq<bool>, coll: bool, x: int, y: int, on: bool) -> (
    Seq<bool>,
    bool,
) {
    if on && 0 <= x < SCREEN_WIDTH && 0 <= y < SCREEN_HEIGHT {
        let idx = x + y * SCREEN_WIDTH;
        (screen.update(idx, !screen[idx]), coll || screen[idx])
    } else {
        (screen, coll)
    }
}

/// One 8-pixel sprite row blitted at column `x`, row `y`, most significant
/// bit leftmost.
pub open spec fn blit_row(screen: Seq<bool>, coll: bool, x: int, y: int, bits: u8) -> (
    Seq<bool>,
    bool,
) {
    let s0 = blit_pixel(screen, coll, x, y, (bits / 128) % 2 == 1);
    let s1 = blit_pixel(s0.0, s0.1, x + 1, y, (bits / 64) % 2 == 1);
    let s2 = blit_pixel(s1.0, s1.1, x + 2, y, (bits / 32) % 2 == 1);
    let s3 = blit_pixel(s2.0, s2.1, x + 3, y, (bits / 16) % 2 == 1);
    let s4 = blit_pixel(s3.0, s3.1, x + 4, y, (bits / 8) % 2 == 1);
    let s5 = blit_pixel(s4.0, s4.1, x + 5, y, (bits / 4) % 2 == 1);
    let s6 = blit_pixel(s5.0, s5.1, x + 6, y, (bits / 2) % 2 == 1);
    blit_pixel(s6.0, s6.1, x + 7, y, bits % 2 == 1)
}

/// The first `rows` sprite rows blitted at column `x`, row `y`, the row
/// bytes read from memory starting at address `base`.
pub open spec fn blit_rows(
    mem: Seq<u8>,
    screen: Seq<bool>,
    coll: bool,
    x: int,
    y: int,
    base: int,
    rows: nat,
) -> (Seq<bool>, bool)
    decreases rows,
{
    if rows == 0 {
        (screen, coll)
    } else {
        let prev = blit_rows(mem, screen, coll, x, y, base, (rows - 1) as nat);
        blit_row(prev.0, prev.1, x, y + rows - 1, mem[base + rows - 1])
    }
}

/// Memory after registers 0 up to `count - 1` are stored at `base`
/// onwards, one address per register.
pub open spec fn store_regs(mem: Seq<u8>, regs: Seq<u8>, base: int, count: nat) -> Seq<u8>
    decreases count,
{
    if count == 0 {
        mem
    } else {
        store_regs(mem, regs, base, (count - 1) as nat).update(
            base + count - 1,
            regs[count - 1],
        )
    }
}

/// Registers after 0 up to `count - 1` are filled from memory at `base`
/// onwards, one address per register.
pub open spec fn load_regs(regs: Seq<u8>, mem: Seq<u8>, base: int, count: nat) -> Seq<u8>
    decreases count,
{
    if count == 0 {
        regs
    } else {
        load_regs(regs, mem, base, (count - 1) as nat).update(
            count - 1,
            mem[base + count - 1],
        )
    }
}

/// The execution table: the state after one decoded instruction runs
/// against `pre`, or the fatal error it raises, with `pre` untouched.
/// `rand_byte` stands for the byte the random source produced and `key`
/// for the key event the host delivered, where the form consumes one.
///
/// Every form advances the program counter by 2 for itself; conditional
/// skips advance a further 2 when their predicate holds; jump, call and
/// return assign the counter directly. The legacy machine-code call is
/// otherwise a no-op. Sprite rows whose addresses would leave memory are
/// rejected before anything changes; sprite pixels outside the grid are
/// clipped.
pub open spec fn spec_apply(pre: VmState, w: u16, rand_byte: u8, key: Option<u8>) -> Result<
    VmState,
    Chip8Error,
>
    recommends
        pre.wf(),
{
    let x = op_digit_2(w) as int;
    let y = op_digit_3(w) as int;
    let n = op_digit_4(w);
    let nn = (w % 256) as u8;
    let nnn = (w % 4096) as u16;
    let vx = pre.regs[x];
    let vy = pre.regs[y];
    let pc2 = mask12(pre.pc + 2);
    match spec_decode(w) {
        None => Err(Chip8Error::UnknownOpcode(w)),
        Some(fk) => match fk.0 {
            OpLiteral::_0NNN => Ok(VmState { pc: pc2, ..pre }),
            OpLiteral::_00E0 => Ok(
                VmState { screen: Seq::new(SCREEN_SIZE as nat, |i: int| false), pc: pc2, ..pre },
            ),
            OpLiteral::_00EE => {
                if pre.sp == 0 {
                    Err(Chip8Error::StackUnderflow)
                } else {
                    let popped = pre.stack[pre.sp - 1];
                    Ok(
                        VmState {
                            sp: (pre.sp - 1) as u16,
                            stack: pre.stack.update(pre.sp - 1, 0),
                            pc: mask12(mask12(popped as int) + 2),
                            ..pre
                        },
                    )
                }
            },
            OpLiteral::_1NNN => Ok(VmState { pc: mask12(nnn as int), ..pre }),
            OpLiteral::_2NNN => {
                if pre.sp >= 16 {
                    Err(Chip8Error::StackOverflow)
                } else {
                    Ok(
                        VmState {
                            stack: pre.stack.update(pre.sp as int, pre.pc),
                            sp: (pre.sp + 1) as u16,
                            pc: mask12(nnn as int),
                            ..pre
                        },
                    )
                }
            },
            OpLiteral::_3XNN => Ok(
                VmState {
                    pc: if vx == nn {
                        mask12(pc2 + 2)
                    } else {
                        pc2
                    },
                    ..pre
                },
            ),
            OpLiteral::_4XNN => Ok(
                VmState {
                    pc: if vx != nn {
                        mask12(pc2 + 2)
                    } else {
                        pc2
                    },
                    ..pre
                },
            ),
            OpLiteral::_5XY0 => Ok(
                VmState {
                    pc: if vx == vy {
                        mask12(pc2 + 2)
                    } else {
                        pc2
                    },
                    ..pre
                },
            ),
            OpLiteral::_6XNN => Ok(VmState { regs: pre.regs.update(x, nn), pc: pc2, ..pre }),
            OpLiteral::_7XNN => Ok(
                VmState { regs: pre.regs.update(x, wrap8(vx + nn)), pc: pc2, ..pre },
            ),
            OpLiteral::_8XY0 => Ok(VmState { regs: pre.regs.update(x, vy), pc: pc2, ..pre }),
            OpLiteral::_8XY1 => Ok(
                VmState { regs: pre.regs.update(x, vx | vy), pc: pc2, ..pre },
            ),
            OpLiteral::_8XY2 => Ok(
                VmState { regs: pre.regs.update(x, vx & vy), pc: pc2, ..pre },
            ),
            OpLiteral::_8XY3 => Ok(
                VmState { regs: pre.regs.update(x, vx ^ vy), pc: pc2, ..pre },
            ),
            OpLiteral::_8XY4 => Ok(
                VmState {
                    regs: pre.regs.update(15, flag(vx + vy > 255)).update(x, wrap8(vx + vy)),
                    pc: pc2,
                    ..pre
                },
            ),
            OpLiteral::_8XY5 => Ok(
                VmState {
                    regs: pre.regs.update(15, flag(vx >= vy)).update(x, wrap8(vx - vy)),
                    pc: pc2,
                    ..pre
                },
            ),
            OpLiteral::_8XY6 => Ok(
                VmState {
                    regs: pre.regs.update(15, (vx % 2) as u8).update(x, (vx / 2) as u8),
                    pc: pc2,
                    ..pre
                },
            ),
            OpLiteral::_8XY7 => Ok(
                VmState {
                    regs: pre.regs.update(15, flag(vy >= vx)).update(x, wrap8(vy - vx)),
                    pc: pc2,
                    ..pre
                },
            ),
            OpLiteral::_8XYE => Ok(
                VmState {
                    regs: pre.regs.update(15, (vx / 128) as u8).update(x, wrap8(vx * 2)),
                    pc: pc2,
                    ..pre
                },
            ),
            OpLiteral::_9XY0 => Ok(
                VmState {
                    pc: if vx != vy {
                        mask12(pc2 + 2)
                    } else {
                        pc2
                    },
                    ..pre
                },
            ),
            OpLiteral::_ANNN => Ok(VmState { i: mask12(nnn as int), pc: pc2, ..pre }),
            OpLiteral::_BNNN => Ok(VmState { pc: mask12(nnn + pre.regs[0]), ..pre }),
            OpLiteral::_CXNN => Ok(
                VmState { regs: pre.regs.update(x, nn & rand_byte), pc: pc2, ..pre },
            ),
            OpLiteral::_DXYN => {
                if pre.i + n > MEMORY_SIZE {
                    Err(Chip8Error::MemoryOutOfBounds)
                } else {
                    let blit = blit_rows(
                        pre.mem,
                        pre.screen,
                        false,
                        vx as int,
                        vy as int,
                        pre.i as int,
                        n as nat,
                    );
                    Ok(
                        VmState {
                            screen: blit.0,
                            regs: pre.regs.update(15, flag(blit.1)),
                            should_draw: true,
                            pc: pc2,
                            ..pre
                        },
                    )
                }
            },
            OpLiteral::_EX9E => Ok(
                VmState {
                    pc: if pre.keys[(vx % 16) as int] {
                        mask12(pc2 + 2)
                    } else {
                        pc2
                    },
                    ..pre
                },
            ),
            OpLiteral::_EXA1 => Ok(
                VmState {
                    pc: if !pre.keys[(vx % 16) as int] {
                        mask12(pc2 + 2)
                    } else {
                        pc2
                    },
                    ..pre
                },
            ),
            OpLiteral::_FX07 => Ok(
                VmState { regs: pre.regs.update(x, pre.delay), pc: pc2, ..pre },
            ),
            OpLiteral::_FX0A => Ok(
                VmState {
                    regs: match key {
                        Some(k) => pre.regs.update(x, (k % 16) as u8),
                        None => pre.regs,
                    },
                    pc: pc2,
                    ..pre
                },
            ),
            OpLiteral::_FX15 => Ok(VmState { delay: vx, pc: pc2, ..pre }),
            OpLiteral::_FX18 => Ok(VmState { sound: vx, pc: pc2, ..pre }),
            OpLiteral::_FX1E => Ok(VmState { i: mask12(pre.i + vx), pc: pc2, ..pre }),
            OpLiteral::_FX29 => Ok(
                VmState { i: mask12(FONT_SPRITE_BASE + (vx % 16) * 5), pc: pc2, ..pre },
            ),
            OpLiteral::_FX33 => {
                if pre.i + 3 > MEMORY_SIZE {
                    Err(Chip8Error::MemoryOutOfBounds)
                } else {
                    let d = (vx % 16) as u8;
                    Ok(
                        VmState {
                            mem: pre.mem.update(pre.i as int, (d / 100) as u8).update(
                                pre.i + 1,
                                ((d / 10) % 10) as u8,
                            ).update(pre.i + 2, (d % 10) as u8),
                            pc: pc2,
                            ..pre
                        },
                    )
                }
            },
            OpLiteral::_FX55 => {
                if pre.i + x + 1 > MEMORY_SIZE {
                    Err(Chip8Error::MemoryOutOfBounds)
                } else {
                    Ok(
                        VmState {
                            mem: store_regs(pre.mem, pre.regs, pre.i as int, (x + 1) as nat),
                            pc: pc2,
                            ..pre
                        },
                    )
                }
            },
            OpLiteral::_FX65 => {
                if pre.i + x + 1 > MEMORY_SIZE {
                    Err(Chip8Error::MemoryOutOfBounds)
                } else {
                    Ok(
                        VmState {
                            regs: load_regs(pre.regs, pre.mem, pre.i as int, (x + 1) as nat),
                            pc: pc2,
                            ..pre
                        },
                    )
                }
            },
        },
    }
}

/// The instruction word fetched at the program counter: two bytes
/// concatenated big-endian.
pub open spec fn fetch_word(s: VmState) -> u16
    recommends
        s.wf(),
        s.pc + 1 < MEMORY_SIZE,
{
    (s.mem[s.pc as int] * 256 + s.mem[s.pc as int + 1]) as u16
}

/// One whole cycle against `pre`: fetch, decode and execute, then tick
/// both timers. The boolean is the audible cue: it fires when the sound
/// timer stands at exactly 1 before its final decrement. On a fatal error
/// nothing changes, the timers included.
pub open spec fn spec_cycle(pre: VmState, rand_byte: u8, key: Option<u8>) -> Result<
    (VmState, bool),
    Chip8Error,
>
    recommends
        pre.wf(),
        pre.pc + 1 < MEMORY_SIZE,
{
    match spec_apply(pre, fetch_word(pre), rand_byte, key) {
        Err(e) => Err(e),
        Ok(s) => Ok(
            (
                VmState {
                    delay: if s.delay > 0 {
                        (s.delay - 1) as u8
                    } else {
                        0
                    },
                    sound: if s.sound > 0 {
                        (s.sound - 1) as u8
                    } else {
                        0
                    },
                    ..s
                },
                s.sound == 1,
            ),
        ),
    }
}

/// The machine state a fresh engine starts from: everything zero but the
/// program counter, which points at the program load offset.
pub open spec fn initial_state() -> VmState {
    VmState {
        mem: Seq::new(MEMORY_SIZE as nat, |i: int| 0u8),
        regs: Seq::new(16, |i: int| 0u8),
        i: 0,
        pc: 0x200,
        stack: Seq::new(16, |i: int| 0u16),
        sp: 0,
        should_draw: false,
        keys: Seq::new(16, |i: int| false),
        delay: 0,
        sound: 0,
        screen: Seq::new(SCREEN_SIZE as nat, |i: int| false),
    }
}

/// Memory with the 80 font glyph bytes overlaid at `offset`.
pub open spec fn with_font(mem: Seq<u8>, offset: int) -> Seq<u8> {
    Seq::new(
        mem.len(),
        |a: int|
            if offset <= a < offset + FONT_SET_SIZE {
                font_data()[a - offset]
            } else {
                mem[a]
            },
    )
}

/// Memory with a program image overlaid at the program load offset.
pub open spec fn with_program(mem: Seq<u8>, program: Seq<u8>) -> Seq<u8> {
    Seq::new(
        mem.len(),
        |a: int|
            if PROGRAM_OFFSET <= a < PROGRAM_OFFSET + program.len() {
                program[a - PROGRAM_OFFSET]
            } else {
                mem[a]
            },
    )
}

/// The render sink seam: presenting the framebuffer belongs to the host,
/// so the library's part of it does nothing.
pub fn draw_graphics() {
}

/// The virtual machine engine: the sole owner and sole mutator of its
/// components.
#[derive(Debug)]
pub struct Chip8 {
    pub memory: Memory,
    pub data_registers: DataRegisters,
    pub address_register: AddressRegister,
    pub program_counter: ProgramCounter,
    pub stack: Stack,
    pub stack_pointer: StackPointer,
    pub should_draw: bool,
    pub keypad: Keypad,
    pub delay_timer: Timer,
    pub sound_timer: Timer,
    pub screen: Screen,
}

impl Default for Chip8 {
    /// A fresh engine in the initial state.
    fn default() -> (r: Self)
        ensures
            r@ == initial_state(),
            r@.wf(),
    {
        Chip8::new()
    }
}

impl View for Chip8 {
    type V = VmState;

    open spec fn view(&self) -> VmState {
        VmState {
            mem: self.memory.bytes@,
            regs: self.data_registers.0@,
            i: self.address_register.0,
            pc: self.program_counter.0.0,
            stack: self.stack@,
            sp: self.stack_pointer,
            should_draw: self.should_draw,
            keys: self.keypad.keys@,
            delay: self.delay_timer.0,
            sound: self.sound_timer.0,
            screen: self.screen.0@,
        }
    }
}

/// Relies on rand::random: one byte from the thread-local random
/// generator. Nothing is promised of the value.
#[verifier::external_body]
fn random_byte() -> u8 {
    rand::random::<u8>()
}

impl Chip8 {
    /// A fresh engine in the initial state.
    pub fn new() -> (r: Self)
        ensures
            r@ == initial_state(),
            r@.wf(),
    {
        let r = Chip8 {
            memory: Memory::new(),
            data_registers: DataRegisters([0u8; 16]),
            address_register: AddressRegister(0),
            program_counter: ProgramCounter(AddressRegister(0x200)),
            stack: [0u16; 16],
            stack_pointer: 0,
            should_draw: false,
            keypad: Keypad { keys: [false; 16] },
            delay_timer: Timer(0),
            sound_timer: Timer(0),
            screen: Screen([false; SCREEN_SIZE]),
        };
        proof {
            assert(r@ =~= initial_state());
        }
        r
    }

    /// Points the program counter at the program load offset and copies
    /// the font glyphs into the bottom of memory; everything else keeps
    /// its value.
    pub fn initialize(&mut self)
        requires
            old(self)@.wf(),
        ensures
            final(self)@ == (VmState {
                pc: 0x200,
                mem: with_font(old(self)@.mem, 0),
                ..old(self)@
            }),
            final(self)@.wf(),
    {
        let _ = self.program_counter.write(0x200);
        self.memory.load_font_data(&FontSet::default(), 0);
        proof {
            assert(self@.mem =~= with_font(old(self)@.mem, 0));
            assert(self@ =~= (VmState {
                pc: 0x200,
                mem: with_font(old(self)@.mem, 0),
                ..old(self)@
            }));
        }
    }

    /// Copies a program image into memory at the load offset, byte for
    /// byte; everything else keeps its value. The host loader hands the
    /// bytes over; a missing image is simply never handed in.
    pub fn load_program(&mut self, program: &[u8])
        requires
            program@.len() + PROGRAM_OFFSET <= MEMORY_SIZE,
        ensures
            final(self)@ == (VmState { mem: with_program(old(self)@.mem, program@), ..old(self)@ }),
            final(self)@.wf() == old(self)@.wf(),
    {
        let mut idx: usize = 0;
        let len = program.len();
        while idx < len
            invariant
                idx <= len,
                len == program@.len(),
                len + PROGRAM_OFFSET <= MEMORY_SIZE,
                forall|a: int|
                    PROGRAM_OFFSET <= a < PROGRAM_OFFSET + idx ==> self.memory.bytes@[a]
                        == program@[a - PROGRAM_OFFSET],
                forall|a: int|
                    0 <= a < MEMORY_SIZE && !(PROGRAM_OFFSET <= a < PROGRAM_OFFSET + idx)
                        ==> self.memory.bytes@[a] == old(self).memory.bytes@[a],
                self.data_registers == old(self).data_registers,
                self.address_register == old(self).address_register,
                self.program_counter == old(self).program_counter,
                self.stack == old(self).stack,
                self.stack_pointer == old(self).stack_pointer,
                self.should_draw == old(self).should_draw,
                self.keypad == old(self).keypad,
                self.delay_timer == old(self).delay_timer,
                self.sound_timer == old(self).sound_timer,
                self.screen == old(self).screen,
            decreases len - idx,
        {
            self.memory.write(PROGRAM_OFFSET + idx, program[idx]);
            idx += 1;
        }
        proof {
            assert(self@.mem =~= with_program(old(self)@.mem, program@));
            assert(self@ =~= (VmState {
                mem: with_program(old(self)@.mem, program@),
                ..old(self)@
            }));
        }
    }

    /// Reads the two bytes at the program counter, concatenated
    /// big-endian into one instruction word.
    pub fn fetch_opcode(&self) -> (r: u16)
        requires
            self@.wf(),
            self@.pc + 1 < MEMORY_SIZE,
        ensures
            r == fetch_word(self@),
    {
        let current_pc = self.program_counter.read() as usize;
        let high = self.memory.read(current_pc);
        let low = self.memory.read(current_pc + 1);
        (high as u16) * 256 + (low as u16)
    }
}


/// One sprite pixel XOR-blitted onto the screen; returns the updated
/// collision flag.
fn blit_pixel_exec(screen: &mut Screen, coll: bool, x: usize, y: usize, on: bool) -> (r: bool)
    ensures
        final(screen).0@ == blit_pixel(old(screen).0@, coll, x as int, y as int, on).0,
        r == blit_pixel(old(screen).0@, coll, x as int, y as int, on).1,
{
    if on && x < SCREEN_WIDTH && y < SCREEN_HEIGHT {
        let idx = x + y * SCREEN_WIDTH;
        let cur = screen.get(idx);
        screen.set(idx, !cur);
        coll || cur
    } else {
        coll
    }
}

/// One 8-pixel sprite row XOR-blitted onto the screen, most significant
/// bit leftmost; returns the updated collision flag.
fn draw_row(screen: &mut Screen, coll: bool, x: u8, y: usize, bits: u8) -> (r: bool)
    requires
        y < usize::MAX,
    ensures
        final(screen).0@ == blit_row(old(screen).0@, coll, x as int, y as int, bits).0,
        r == blit_row(old(screen).0@, coll, x as int, y as int, bits).1,
{
    let xb = x as usize;
    let f0 = blit_pixel_exec(screen, coll, xb, y, (bits / 128) % 2 == 1);
    let f1 = blit_pixel_exec(screen, f0, xb + 1, y, (bits / 64) % 2 == 1);
    let f2 = blit_pixel_exec(screen, f1, xb + 2, y, (bits / 32) % 2 == 1);
    let f3 = blit_pixel_exec(screen, f2, xb + 3, y, (bits / 16) % 2 == 1);
    let f4 = blit_pixel_exec(screen, f3, xb + 4, y, (bits / 8) % 2 == 1);
    let f5 = blit_pixel_exec(screen, f4, xb + 5, y, (bits / 4) % 2 == 1);
    let f6 = blit_pixel_exec(screen, f5, xb + 6, y, (bits / 2) % 2 == 1);
    blit_pixel_exec(screen, f6, xb + 7, y, bits % 2 == 1)
}

impl Chip8 {
    /// Executes one instruction word against the owned state, with the
    /// random byte and the key event handed in from outside. The result
    /// and the new state follow the execution table exactly; on a fatal
    /// error nothing changes.
    #[verifier::loop_isolation(false)]
    #[verifier::rlimit(100)]
    pub fn execute(&mut self, word: u16, rand_byte: u8, key: Option<u8>) -> (r: Result<
        (),
        Chip8Error,
    >)
        requires
            old(self)@.wf(),
        ensures
            match spec_apply(old(self)@, word, rand_byte, key) {
                Ok(s) => r == Ok::<(), Chip8Error>(()) && final(self)@ == s,
                Err(e) => r == Err::<(), Chip8Error>(e) && final(self)@ == old(self)@,
            },
            final(self)@.wf(),
    {
        let ghost pre = self@;
        let opcode = match OpCode::decode(word) {
            Ok(op) => op,
            Err(_) => {
                return Err(Chip8Error::UnknownOpcode(word));
            },
        };
        let high_byte = (word / 256) as u8;
        let low_byte = (word % 256) as u8;
        let x = (high_byte % 16) as usize;
        let y = ((low_byte / 16) % 16) as usize;
        let n = low_byte % 16;
        let nn = low_byte;
        let nnn = word % 4096;
        let vx = self.data_registers.0[x];
        let vy = self.data_registers.0[y];
        match opcode.literal {
            OpLiteral::_0NNN => {
                // The legacy machine-code call: a no-op on this machine,
                // past the base advance of the program counter.
                let _ = self.program_counter.step(2);
                Ok(())
            },
            OpLiteral::_00E0 => {
                self.screen.clear();
                let _ = self.program_counter.step(2);
                proof {
                    assert(self.screen.0@ =~= Seq::new(SCREEN_SIZE as nat, |i: int| false));
                }
                Ok(())
            },
            OpLiteral::_00EE => {
                if self.stack_pointer == 0 {
                    return Err(Chip8Error::StackUnderflow);
                }
                self.stack_pointer = self.stack_pointer - 1;
                let previous_program_counter = self.stack[self.stack_pointer as usize];
                self.stack[self.stack_pointer as usize] = 0;
                let _ = self.program_counter.write(previous_program_counter);
                let _ = self.program_counter.step(2);
                Ok(())
            },
            OpLiteral::_1NNN => {
                let _ = self.program_counter.write(nnn);
                Ok(())
            },
            OpLiteral::_2NNN => {
                if self.stack_pointer >= 16 {
                    return Err(Chip8Error::StackOverflow);
                }
                self.stack[self.stack_pointer as usize] = self.program_counter.read();
                self.stack_pointer = self.stack_pointer + 1;
                let _ = self.program_counter.write(nnn);
                Ok(())
            },
            OpLiteral::_3XNN => {
                let _ = self.program_counter.step(2);
                if vx == nn {
                    let _ = self.program_counter.step(2);
                }
                Ok(())
            },
            OpLiteral::_4XNN => {
                let _ = self.program_counter.step(2);
                if vx != nn {
                    let _ = self.program_counter.step(2);
                }
                Ok(())
            },
            OpLiteral::_5XY0 => {
                let _ = self.program_counter.step(2);
                if vx == vy {
                    let _ = self.program_counter.step(2);
                }
                Ok(())
            },
            OpLiteral::_6XNN => {
                self.data_registers.0[x] = nn;
                let _ = self.program_counter.step(2);
                Ok(())
            },
            OpLiteral::_7XNN => {
                let sum = vx as u16 + nn as u16;
                self.data_registers.0[x] = (sum % 256) as u8;
                let _ = self.program_counter.step(2);
                Ok(())
            },
            OpLiteral::_8XY0 => {
                self.data_registers.0[x] = vy;
                let _ = self.program_counter.step(2);
                Ok(())
            },
            OpLiteral::_8XY1 => {
                self.data_registers.0[x] = vx | vy;
                let _ = self.program_counter.step(2);
                Ok(())
            },
            OpLiteral::_8XY2 => {
                self.data_registers.0[x] = vx & vy;
                let _ = self.program_counter.step(2);
                Ok(())
            },
            OpLiteral::_8XY3 => {
                self.data_registers.0[x] = vx ^ vy;
                let _ = self.program_counter.step(2);
                Ok(())
            },
            OpLiteral::_8XY4 => {
                let sum = vx as u16 + vy as u16;
                self.data_registers.0[15] = if sum > 255 {
                    1
                } else {
                    0
                };
                self.data_registers.0[x] = (sum % 256) as u8;
                let _ = self.program_counter.step(2);
                Ok(())
            },
            OpLiteral::_8XY5 => {
                self.data_registers.0[15] = if vx >= vy {
                    1
                } else {
                    0
                };
                let diff = 256u16 + vx as u16 - vy as u16;
                self.data_registers.0[x] = (diff % 256) as u8;
                let _ = self.program_counter.step(2);
                proof {
                    lemma_mod_multiples_vanish(1, vx as int - vy as int, 256);
                }
                Ok(())
            },
            OpLiteral::_8XY6 => {
                self.data_registers.0[15] = vx % 2;
                self.data_registers.0[x] = vx / 2;
                let _ = self.program_counter.step(2);
                Ok(())
            },
            OpLiteral::_8XY7 => {
                self.data_registers.0[15] = if vy >= vx {
                    1
                } else {
                    0
                };
                let diff = 256u16 + vy as u16 - vx as u16;
                self.data_registers.0[x] = (diff % 256) as u8;
                let _ = self.program_counter.step(2);
                proof {
                    lemma_mod_multiples_vanish(1, vy as int - vx as int, 256);
                }
                Ok(())
            },
            OpLiteral::_8XYE => {
                self.data_registers.0[15] = vx / 128;
                let doubled = vx as u16 * 2;
                self.data_registers.0[x] = (doubled % 256) as u8;
                let _ = self.program_counter.step(2);
                Ok(())
            },
            OpLiteral::_9XY0 => {
                let _ = self.program_counter.step(2);
                if vx != vy {
                    let _ = self.program_counter.step(2);
                }
                Ok(())
            },
            OpLiteral::_ANNN => {
                let _ = self.address_register.write(nnn);
                let _ = self.program_counter.step(2);
                Ok(())
            },
            OpLiteral::_BNNN => {
                let v0 = self.data_registers.0[0];
                let _ = self.program_counter.write(nnn + v0 as u16);
                Ok(())
            },
            OpLiteral::_CXNN => {
                self.data_registers.0[x] = nn & rand_byte;
                let _ = self.program_counter.step(2);
                Ok(())
            },
            OpLiteral::_DXYN => {
                let n_us = n as usize;
                let i_val = self.address_register.read() as usize;
                if i_val + n_us > MEMORY_SIZE {
                    return Err(Chip8Error::MemoryOutOfBounds);
                }
                let mut coll = false;
                let mut row: usize = 0;
                while row < n_us
                    invariant
                        row <= n_us,
                        self.screen.0@ == blit_rows(
                            pre.mem,
                            pre.screen,
                            false,
                            vx as int,
                            vy as int,
                            i_val as int,
                            row as nat,
                        ).0,
                        coll == blit_rows(
                            pre.mem,
                            pre.screen,
                            false,
                            vx as int,
                            vy as int,
                            i_val as int,
                            row as nat,
                        ).1,
                        self.memory.bytes@ == pre.mem,
                        self.data_registers.0@ == pre.regs,
                        self.address_register.0 == pre.i,
                        self.program_counter.0.0 == pre.pc,
                        self.stack@ == pre.stack,
                        self.stack_pointer == pre.sp,
                        self.should_draw == pre.should_draw,
                        self.keypad.keys@ == pre.keys,
                        self.delay_timer.0 == pre.delay,
                        self.sound_timer.0 == pre.sound,
                    decreases n_us - row,
                {
                    let bits = self.memory.read(i_val + row);
                    coll = draw_row(&mut self.screen, coll, vx, vy as usize + row, bits);
                    row += 1;
                }
                self.data_registers.0[15] = if coll {
                    1
                } else {
                    0
                };
                self.should_draw = true;
                let _ = self.program_counter.step(2);
                Ok(())
            },
            OpLiteral::_EX9E => {
                let pressed = self.keypad.is_pressed(vx);
                let _ = self.program_counter.step(2);
                if pressed {
                    let _ = self.program_counter.step(2);
                }
                Ok(())
            },
            OpLiteral::_EXA1 => {
                let pressed = self.keypad.is_pressed(vx);
                let _ = self.program_counter.step(2);
                if !pressed {
                    let _ = self.program_counter.step(2);
                }
                Ok(())
            },
            OpLiteral::_FX07 => {
                self.data_registers.0[x] = self.delay_timer.value();
                let _ = self.program_counter.step(2);
                Ok(())
            },
            OpLiteral::_FX0A => {
                // The host blocks for the key event; the engine consumes
                // what it delivered, or nothing where none was mapped.
                if let Some(key_event) = key {
                    self.data_registers.0[x] = key_event % 16;
                }
                let _ = self.program_counter.step(2);
                Ok(())
            },
            OpLiteral::_FX15 => {
                self.delay_timer.reset(vx);
                let _ = self.program_counter.step(2);
                Ok(())
            },
            OpLiteral::_FX18 => {
                self.sound_timer.reset(vx);
                let _ = self.program_counter.step(2);
                Ok(())
            },
            OpLiteral::_FX1E => {
                let i_val = self.address_register.read();
                let _ = self.address_register.write(i_val + vx as u16);
                let _ = self.program_counter.step(2);
                Ok(())
            },
            OpLiteral::_FX29 => {
                let _ = self.address_register.write(FONT_SPRITE_BASE + (vx % 16) as u16 * 5);
                let _ = self.program_counter.step(2);
                Ok(())
            },
            OpLiteral::_FX33 => {
                let i_val = self.address_register.read() as usize;
                if i_val + 3 > MEMORY_SIZE {
                    return Err(Chip8Error::MemoryOutOfBounds);
                }
                let d = vx % 16;
                self.memory.write(i_val, d / 100);
                self.memory.write(i_val + 1, (d / 10) % 10);
                self.memory.write(i_val + 2, d % 10);
                let _ = self.program_counter.step(2);
                Ok(())
            },
            OpLiteral::_FX55 => {
                let i_val = self.address_register.read() as usize;
                if i_val + x + 1 > MEMORY_SIZE {
                    return Err(Chip8Error::MemoryOutOfBounds);
                }
                let mut reg_idx: usize = 0;
                while reg_idx <= x
                    invariant
                        reg_idx <= x + 1,
                        self.memory.bytes@ == store_regs(
                            pre.mem,
                            pre.regs,
                            i_val as int,
                            reg_idx as nat,
                        ),
                        self.data_registers.0@ == pre.regs,
                        self.address_register.0 == pre.i,
                        self.program_counter.0.0 == pre.pc,
                        self.stack@ == pre.stack,
                        self.stack_pointer == pre.sp,
                        self.should_draw == pre.should_draw,
                        self.keypad.keys@ == pre.keys,
                        self.delay_timer.0 == pre.delay,
                        self.sound_timer.0 == pre.sound,
                        self.screen.0@ == pre.screen,
                    decreases x + 1 - reg_idx,
                {
                    let to_store = self.data_registers.0[reg_idx];
                    self.memory.write(i_val + reg_idx, to_store);
                    reg_idx += 1;
                }
                let _ = self.program_counter.step(2);
                Ok(())
            },
            OpLiteral::_FX65 => {
                let i_val = self.address_register.read() as usize;
                if i_val + x + 1 > MEMORY_SIZE {
                    return Err(Chip8Error::MemoryOutOfBounds);
                }
                let mut reg_idx: usize = 0;
                while reg_idx <= x
                    invariant
                        reg_idx <= x + 1,
                        self.data_registers.0@ == load_regs(
                            pre.regs,
                            pre.mem,
                            i_val as int,
                            reg_idx as nat,
                        ),
                        self.memory.bytes@ == pre.mem,
                        self.address_register.0 == pre.i,
                        self.program_counter.0.0 == pre.pc,
                        self.stack@ == pre.stack,
                        self.stack_pointer == pre.sp,
                        self.should_draw == pre.should_draw,
                        self.keypad.keys@ == pre.keys,
                        self.delay_timer.0 == pre.delay,
                        self.sound_timer.0 == pre.sound,
                        self.screen.0@ == pre.screen,
                    decreases x + 1 - reg_idx,
                {
                    let to_fill = self.memory.read(i_val + reg_idx);
                    self.data_registers.0[reg_idx] = to_fill;
                    reg_idx += 1;
                }
                let _ = self.program_counter.step(2);
                Ok(())
            },
        }
    }

    /// Executes one instruction word, drawing the byte the rand form
    /// consumes from the host's random generator. Whatever byte came
    /// back, the result and the new state follow the execution table for
    /// that byte.
    pub fn apply_opcode(&mut self, word: u16, key: Option<u8>) -> (r: Result<(), Chip8Error>)
        requires
            old(self)@.wf(),
        ensures
            exists|rb: u8|
                match #[trigger] spec_apply(old(self)@, word, rb, key) {
                    Ok(s) => r == Ok::<(), Chip8Error>(()) && final(self)@ == s,
                    Err(e) => r == Err::<(), Chip8Error>(e) && final(self)@ == old(self)@,
                },
            final(self)@.wf(),
    {
        let rand_byte = random_byte();
        let r = self.execute(word, rand_byte, key);
        proof {
            assert(match spec_apply(old(self)@, word, rand_byte, key) {
                Ok(s) => r == Ok::<(), Chip8Error>(()) && self@ == s,
                Err(e) => r == Err::<(), Chip8Error>(e) && self@ == old(self)@,
            });
        }
        r
    }

    /// One cycle: fetch at the program counter, decode and execute with a
    /// freshly drawn random byte and the host's key event, then tick both
    /// timers. Returns the audible cue, true exactly when the sound timer
    /// stood at 1 before its final decrement. On a fatal error nothing
    /// changes and the error is handed up; retrying cannot help, so the
    /// engine never does.
    pub fn step(&mut self, key: Option<u8>) -> (r: Result<bool, Chip8Error>)
        requires
            old(self)@.wf(),
            old(self)@.pc + 1 < MEMORY_SIZE,
        ensures
            exists|rb: u8|
                match #[trigger] spec_cycle(old(self)@, rb, key) {
                    Ok(sb) => r == Ok::<bool, Chip8Error>(sb.1) && final(self)@ == sb.0,
                    Err(e) => r == Err::<bool, Chip8Error>(e) && final(self)@ == old(self)@,
                },
            final(self)@.wf(),
    {
        let word = self.fetch_opcode();
        let rand_byte = random_byte();
        match self.execute(word, rand_byte, key) {
            Err(e) => {
                proof {
                    assert(spec_cycle(old(self)@, rand_byte, key) == Err::<
                        (VmState, bool),
                        Chip8Error,
                    >(e));
                }
                Err(e)
            },
            Ok(_) => {
                let beep = self.sound_timer.value() == 1;
                self.delay_timer.tick();
                self.sound_timer.tick();
                proof {
                    assert(match spec_cycle(old(self)@, rand_byte, key) {
                        Ok(sb) => self@ == sb.0 && beep == sb.1,
                        Err(_) => false,
                    });
                }
                Ok(beep)
            },
        }
    }
}


} // verus!
