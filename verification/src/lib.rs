//! Instruction-execution core of a cycle-counted 6502-class processor:
//! registers and flags, addressing modes, the opcode table, and the
//! reset and interrupt sequences, over a flat 64 KiB memory bus.

pub mod bus;
pub mod cpu;
pub mod state;
pub mod table;
pub mod semantics;
pub mod opcode;
pub mod laws;
