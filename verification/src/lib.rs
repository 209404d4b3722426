//! An emulator core for an 8-bit accumulator machine of the 6502 family.

pub mod cpu;
pub mod debugger;
pub mod memory;
pub mod text;
