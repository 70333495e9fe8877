//! An emulator of the 6502 processor as the NES has it, without decimal
//! arithmetic: the registers and flags, a flat 64 KiB memory, the decode
//! table of all 256 opcodes, the addressing modes, the instructions with
//! their cycle counts, the interrupts, and a disassembler.
//!
//! Every function states what it does to the machine as a function on
//! `cpu::state::CpuState`, the view of a `cpu::CPU`.

pub mod bus;
pub mod cpu;
