//! A CHIP-8 virtual machine: nibble codec, opcode decoder, register,
//! stack and memory model, framebuffer, timers, and the
//! fetch-decode-execute engine, each with a proved contract.
pub mod nibble;
pub mod opcode;
pub mod register;
pub mod memory;
pub mod fonts;
pub mod keymap;
pub mod chip8;
pub mod laws;
