//! The 4096-byte flat address space: font glyphs live in a fixed 80-byte
//! region, the program image loads at offset 0x200.
use vstd::prelude::*;
use crate::fonts::{FontSet, FONT_SET_SIZE};

verus! {

/// The size of the address space in bytes.
pub const MEMORY_SIZE: usize = 4096;

/// The offset at which program images load.
pub const PROGRAM_OFFSET: usize = 0x200;

/// The 4096-byte flat memory.
#[derive(Debug, Clone, Copy)]
pub struct Memory {
    pub bytes: [u8; MEMORY_SIZE],
}

impl Memory {
    /// A fresh memory with every byte zero.
    pub fn new() -> (r: Self)
        ensures
            forall|i: int| 0 <= i < MEMORY_SIZE ==> r.bytes@[i] == 0u8,
    {
        Memory { bytes: [0u8; MEMORY_SIZE] }
    }

    /// Copies the 80 font glyph bytes into memory starting at `offset`,
    /// leaving every other byte unchanged.
    pub fn load_font_data(&mut self, fontset: &FontSet, offset: usize)
        requires
            offset + FONT_SET_SIZE <= MEMORY_SIZE,
        ensures
            forall|i: int|
                0 <= i < FONT_SET_SIZE ==> final(self).bytes@[offset + i] == fontset.0@[i],
            forall|i: int|
                0 <= i < MEMORY_SIZE && !(offset <= i < offset + FONT_SET_SIZE)
                    ==> final(self).bytes@[i] == old(self).bytes@[i],
    {
        let mut idx: usize = 0;
        while idx < FONT_SET_SIZE
            invariant
                idx <= FONT_SET_SIZE,
                offset + FONT_SET_SIZE <= MEMORY_SIZE,
                forall|i: int| 0 <= i < idx ==> self.bytes@[offset + i] == fontset.0@[i],
                forall|i: int|
                    0 <= i < MEMORY_SIZE && !(offset <= i < offset + idx)
                        ==> self.bytes@[i] == old(self).bytes@[i],
            decreases FONT_SET_SIZE - idx,
        {
            self.bytes[offset + idx] = fontset.0[idx];
            idx += 1;
        }
    }

    /// Reads the byte at `address`.
    pub fn read(&self, address: usize) -> (r: u8)
        requires
            address < MEMORY_SIZE,
        ensures
            r == self.bytes@[address as int],
    {
        self.bytes[address]
    }

    /// Writes the byte at `address`.
    pub fn write(&mut self, address: usize, value: u8)
        requires
            address < MEMORY_SIZE,
        ensures
            final(self).bytes@ == old(self).bytes@.update(address as int, value),
    {
        self.bytes[address] = value;
    }
}

impl Default for Memory {
    /// A fresh memory with every byte zero.
    fn default() -> (r: Self)
        ensures
            forall|i: int| 0 <= i < MEMORY_SIZE ==> r.bytes@[i] == 0u8,
    {
        Memory { bytes: [0u8; MEMORY_SIZE] }
    }
}

} // verus!
