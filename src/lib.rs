//! Emulator core for the 16-bit Hack computer: ALU, instruction decode,
//! CPU state machine, memory map and the fetch/execute loop.

pub mod alu;
pub mod instruction;
pub mod program_counter;
pub mod cpu;
pub mod memory;
pub mod stall;
pub mod emulator;
