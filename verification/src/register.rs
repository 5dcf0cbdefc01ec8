//! The register-level data model: sixteen 8-bit data registers, the 12-bit
//! address register and program counter, the call stack slots, the 64x32
//! framebuffer, the saturating countdown timers and the keypad state.
use vstd::prelude::*;
use crate::nibble::{hex_digit_value, parse_hex_digit};

verus! {

/// The number of pixels in the framebuffer: 64 columns by 32 rows.
pub const SCREEN_SIZE: usize = 2048;

/// The width of the framebuffer in pixels.
pub const SCREEN_WIDTH: usize = 64;

/// The height of the framebuffer in pixels.
pub const SCREEN_HEIGHT: usize = 32;

/// An error in register access: a register identifier that is not a
/// hexadecimal digit, or an index outside the sixteen registers.
#[derive(Debug, Copy, Clone, PartialEq, Eq, Structural)]
pub enum RegisterError {
    UnknownIdentifier(char),
    AddressValueLargerThan12Bits,
    RegisterIndexOutOfBounds,
}

impl RegisterError {
    /// A short description of the error.
    pub fn describe(&self) -> &'static str {
        match self {
            RegisterError::UnknownIdentifier(_) => "unknown register identifier, expected one hexadecimal digit",
            RegisterError::AddressValueLargerThan12Bits => "address value larger than 12 bits",
            RegisterError::RegisterIndexOutOfBounds => "register index out of bounds",
        }
    }
}

/// An error in keypad input: a host key with no hexadecimal key code.
#[derive(Debug, Copy, Clone, PartialEq, Eq, Structural)]
pub enum KeyError {
    UnknownKeyInput(char),
}

impl KeyError {
    /// A short description of the error.
    pub fn describe(&self) -> &'static str {
        match self {
            KeyError::UnknownKeyInput(_) => "unable to recognize key input",
        }
    }
}

/// The sixteen 8-bit data registers, addressed by a hexadecimal digit or
/// by its index. Register 0xF conventionally holds the flag output of
/// arithmetic, bit and draw operations.
#[derive(Debug, Clone, Copy)]
pub struct DataRegisters(pub [u8; 16]);

impl DataRegisters {
    /// Writes a register named by a hexadecimal digit character (either
    /// case); returns the previous value, or `UnknownIdentifier` for any
    /// other character, changing nothing.
    pub fn write(&mut self, register_identifier: char, value: u8) -> (r: Result<u8, RegisterError>)
        ensures
            match hex_digit_value(register_identifier) {
                Some(idx) => (r == Ok::<u8, RegisterError>(old(self).0@[idx as int]))
                    && final(self).0@ == old(self).0@.update(idx as int, value),
                None => (r == Err::<u8, RegisterError>(
                    RegisterError::UnknownIdentifier(register_identifier),
                )) && final(self).0@ == old(self).0@,
            },
    {
        match parse_hex_digit(register_identifier) {
            Some(index) => self.write_idx(index as usize, value),
            None => Err(RegisterError::UnknownIdentifier(register_identifier)),
        }
    }

    /// Reads a register named by a hexadecimal digit character (either
    /// case); `UnknownIdentifier` for any other character.
    pub fn read(&self, register_identifier: char) -> (r: Result<u8, RegisterError>)
        ensures
            match hex_digit_value(register_identifier) {
                Some(idx) => (r == Ok::<u8, RegisterError>(self.0@[idx as int])),
                None => (r == Err::<u8, RegisterError>(
                    RegisterError::UnknownIdentifier(register_identifier),
                )),
            },
    {
        match parse_hex_digit(register_identifier) {
            Some(index) => self.read_idx(index as usize),
            None => Err(RegisterError::UnknownIdentifier(register_identifier)),
        }
    }

    /// Reads the register at `register_idx`; an index past 15 is a
    /// reported error, never an unchecked access.
    pub fn read_idx(&self, register_idx: usize) -> (r: Result<u8, RegisterError>)
        ensures
            register_idx < 16 ==> (r == Ok::<u8, RegisterError>(self.0@[register_idx as int])),
            register_idx >= 16 ==> (r == Err::<u8, RegisterError>(
                RegisterError::RegisterIndexOutOfBounds,
            )),
    {
        if register_idx >= 16 {
            return Err(RegisterError::RegisterIndexOutOfBounds);
        }
        Ok(self.0[register_idx])
    }

    /// Writes the register at `register_idx` and returns its previous
    /// value; an index past 15 is a reported error, changing nothing.
    pub fn write_idx(&mut self, register_idx: usize, value: u8) -> (r: Result<u8, RegisterError>)
        ensures
            register_idx < 16 ==> (r == Ok::<u8, RegisterError>(old(self).0@[register_idx as int]))
                && final(self).0@ == old(self).0@.update(register_idx as int, value),
            register_idx >= 16 ==> (r == Err::<u8, RegisterError>(
                RegisterError::RegisterIndexOutOfBounds,
            )) && final(self).0@ == old(self).0@,
    {
        if register_idx >= 16 {
            return Err(RegisterError::RegisterIndexOutOfBounds);
        }
        let previous_value = self.0[register_idx];
        self.0[register_idx] = value;
        Ok(previous_value)
    }
}

impl Default for DataRegisters {
    /// All sixteen registers start at zero.
    fn default() -> (r: Self)
        ensures
            forall|i: int| 0 <= i < 16 ==> r.0@[i] == 0u8,
    {
        DataRegisters([0u8; 16])
    }
}

/// A 12-bit address register: every write is masked to 12 bits.
#[derive(Debug, Clone, Copy)]
pub struct AddressRegister(pub u16);

impl AddressRegister {
    /// The 12-bit range invariant that every write maintains.
    pub open spec fn inv(&self) -> bool {
        self.0 <= 0xFFF
    }

    /// Stores `value` masked to 12 bits.
    pub fn write(&mut self, value: u16) -> (r: Result<(), RegisterError>)
        ensures
            final(self).0 == value % 4096,
            final(self).inv(),
            r == Ok::<(), RegisterError>(()),
    {
        self.0 = value % 4096;
        Ok(())
    }

    /// Advances the register by `size`, masked to 12 bits.
    pub fn step(&mut self, size: usize) -> (r: Result<(), RegisterError>)
        requires
            old(self).inv(),
            size <= usize::MAX - 0xFFF,
        ensures
            final(self).0 == (old(self).0 + size) % 4096,
            final(self).inv(),
            r == Ok::<(), RegisterError>(()),
    {
        let prev_value = self.0 as usize;
        self.write(((prev_value + size) % 4096) as u16)
    }

    /// The current value.
    pub fn read(&self) -> (r: u16)
        ensures
            r == self.0,
    {
        self.0
    }
}

impl Default for AddressRegister {
    /// An address register starts at zero.
    fn default() -> (r: Self)
        ensures
            r.0 == 0,
            r.inv(),
    {
        AddressRegister(0)
    }
}

/// The program counter: a 12-bit address register that drives instruction
/// fetch, advancing in units of 2 unless an opcode assigns it directly.
#[derive(Debug, Clone, Copy)]
pub struct ProgramCounter(pub AddressRegister);

impl ProgramCounter {
    /// The 12-bit range invariant.
    pub open spec fn inv(&self) -> bool {
        self.0.inv()
    }

    /// Stores `value` masked to 12 bits.
    pub fn write(&mut self, value: u16) -> (r: Result<(), RegisterError>)
        ensures
            final(self).0.0 == value % 4096,
            final(self).inv(),
            r == Ok::<(), RegisterError>(()),
    {
        self.0.write(value)
    }

    /// Advances the counter by `size`, masked to 12 bits.
    pub fn step(&mut self, size: usize) -> (r: Result<(), RegisterError>)
        requires
            old(self).inv(),
            size <= usize::MAX - 0xFFF,
        ensures
            final(self).0.0 == (old(self).0.0 + size) % 4096,
            final(self).inv(),
            r == Ok::<(), RegisterError>(()),
    {
        self.0.step(size)
    }

    /// The current value.
    pub fn read(&self) -> (r: u16)
        ensures
            r == self.0.0,
    {
        self.0.read()
    }
}

impl Default for ProgramCounter {
    /// The program counter starts at 0x200, where program images load.
    fn default() -> (r: Self)
        ensures
            r.0.0 == 0x200,
            r.inv(),
    {
        ProgramCounter(AddressRegister(0x200))
    }
}

/// The 64x32 monochrome framebuffer, row-major: the pixel at column `x`
/// and row `y` sits at index `x + y * 64`.
#[derive(Debug, Clone, Copy)]
pub struct Screen(pub [bool; SCREEN_SIZE]);

impl Screen {
    /// Turns every pixel off.
    pub fn clear(&mut self)
        ensures
            forall|i: int| 0 <= i < SCREEN_SIZE ==> final(self).0@[i] == false,
    {
        let mut i: usize = 0;
        while i < SCREEN_SIZE
            invariant
                i <= SCREEN_SIZE,
                forall|j: int| 0 <= j < i ==> self.0@[j] == false,
            decreases SCREEN_SIZE - i,
        {
            self.0[i] = false;
            i += 1;
        }
    }

    /// Reads the pixel at `index`.
    pub fn get(&self, index: usize) -> (r: bool)
        requires
            index < SCREEN_SIZE,
        ensures
            r == self.0@[index as int],
    {
        self.0[index]
    }

    /// Writes the pixel at `index`.
    pub fn set(&mut self, index: usize, value: bool)
        requires
            index < SCREEN_SIZE,
        ensures
            final(self).0@ == old(self).0@.update(index as int, value),
    {
        self.0[index] = value;
    }
}

impl Default for Screen {
    /// Every pixel starts off.
    fn default() -> (r: Self)
        ensures
            forall|i: int| 0 <= i < SCREEN_SIZE ==> r.0@[i] == false,
    {
        Screen([false; SCREEN_SIZE])
    }
}

/// An 8-bit countdown timer: decremented by at most 1 per cycle and
/// floors at zero, never underflowing.
#[derive(Debug, Clone, Copy)]
pub struct Timer(pub u8);

impl Timer {
    /// A timer starting at `value`.
    pub fn new(value: u8) -> (r: Self)
        ensures
            r.0 == value,
    {
        Timer(value)
    }

    /// Restarts the countdown at `value`.
    pub fn reset(&mut self, value: u8)
        ensures
            final(self).0 == value,
    {
        self.0 = value;
    }

    /// The current count.
    pub fn value(&self) -> (r: u8)
        ensures
            r == self.0,
    {
        self.0
    }

    /// Counts down one step, guarding the zero case explicitly so the
    /// count never underflows.
    pub fn tick(&mut self)
        ensures
            final(self).0 == (if old(self).0 > 0 {
                (old(self).0 - 1) as u8
            } else {
                0u8
            }),
    {
        if self.0 > 0 {
            self.0 = self.0 - 1;
        }
    }
}

impl Default for Timer {
    /// A timer starts at zero.
    fn default() -> (r: Self)
        ensures
            r.0 == 0,
    {
        Timer(0)
    }
}

/// The 16-slot return-address array of the call stack.
pub type Stack = [u16; 16];

/// The call stack pointer; 0 means empty, 16 means full.
pub type StackPointer = u16;

/// The sixteen boolean key states. The blocking host read that feeds key
/// events lives outside the library; the engine consumes the mapped codes.
#[derive(Debug, Clone, Copy)]
pub struct Keypad {
    pub keys: [bool; 16],
}

impl Keypad {
    /// Marks the key named by a hexadecimal digit character as pressed;
    /// any other character changes nothing.
    pub fn press(&mut self, key_identifier: char)
        ensures
            match hex_digit_value(key_identifier) {
                Some(idx) => final(self).keys@ == old(self).keys@.update(idx as int, true),
                None => final(self).keys@ == old(self).keys@,
            },
    {
        if let Some(index) = parse_hex_digit(key_identifier) {
            self.keys[index as usize] = true;
        }
    }

    /// Marks the key named by a hexadecimal digit character as released;
    /// any other character changes nothing.
    pub fn unpress(&mut self, key_identifier: char)
        ensures
            match hex_digit_value(key_identifier) {
                Some(idx) => final(self).keys@ == old(self).keys@.update(idx as int, false),
                None => final(self).keys@ == old(self).keys@,
            },
    {
        if let Some(index) = parse_hex_digit(key_identifier) {
            self.keys[index as usize] = false;
        }
    }

    /// Whether the key with code `key`, taken modulo 16, is pressed.
    pub fn is_pressed(&self, key: u8) -> (r: bool)
        ensures
            r == self.keys@[(key % 16) as int],
    {
        let key = (key % 16) as usize;
        self.keys[key]
    }
}

impl Default for Keypad {
    /// Every key starts released.
    fn default() -> (r: Self)
        ensures
            forall|i: int| 0 <= i < 16 ==> r.keys@[i] == false,
    {
        Keypad { keys: [false; 16] }
    }
}

} // verus!
