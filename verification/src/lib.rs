//! Instruction-level emulator of the MOS 6502 microprocessor together with
//! the flat 64 KiB memory bus it drives.
//!
//! The bus, the status flags, the addressing modes, the operations, the
//! per-tick execution loop, the hardware control signals and the
//! disassembler are all verified against a specification-level model of the
//! processor state.
#![allow(non_snake_case)]
#![allow(non_camel_case_types)]

pub mod addressing;
pub mod bus;
pub mod cpu;
pub mod disasm;
pub mod flags;
pub mod hex;
pub mod isa;
pub mod laws;
pub mod model;
pub mod ops;
pub mod step;
pub mod text;
