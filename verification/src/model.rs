//! The specification-level model of the processor: the architectural
//! registers, the instruction scratch state, and the 64 KiB memory, as pure
//! mathematical values. Every executable routine of the emulator is proved
//! to transform the model exactly as the corresponding `spec` function
//! says.
use vstd::prelude::*;
use vstd::wrapping::u16_specs;
use vstd::wrapping::u8_specs;
use crate::flags::FLAGS6502;
use crate::flags::spec_set_flag;

verus! {

/// The whole observable state of the processor and its bus.
pub ghost struct CpuModel {
    /// Accumulator.
    pub a: u8,
    /// X index register.
    pub x: u8,
    /// Y index register.
    pub y: u8,
    /// Stack pointer: low byte of an address in the stack page 0x0100-0x01FF.
    pub stkp: u8,
    /// Program counter.
    pub pc: u16,
    /// Status register P.
    pub status: u8,
    /// Last operand byte actually read.
    pub fetched: u8,
    /// Resolved effective address of the current instruction.
    pub addr_abs: u16,
    /// Sign-extended 16-bit branch displacement.
    pub addr_rel: u16,
    /// Current opcode byte.
    pub opcode: u8,
    /// Cycles until the current instruction completes.
    pub cycles: u8,
    /// Monotonically increasing tick counter, informational only.
    pub clock_count: u32,
    /// 16-bit intermediate for carry/overflow calculations.
    pub temp: u16,
    /// The 65 536 bytes of bus memory.
    pub ram: Seq<u8>,
}

impl CpuModel {
    /// The model is well formed when its memory covers the whole 16-bit
    /// address space.
    pub open spec fn wf(&self) -> bool {
        self.ram.len() == 0x10000
    }
}

/// The byte of memory at `addr`.
pub open spec fn m_read(m: CpuModel, addr: u16) -> u8 {
    m.ram[addr as int]
}

/// The model with the byte at `addr` replaced by `v`.
pub open spec fn m_write(m: CpuModel, addr: u16, v: u8) -> CpuModel {
    CpuModel { ram: m.ram.update(addr as int, v), ..m }
}

/// 16-bit address arithmetic wraps modulo 2^16.
pub open spec fn wadd16(x: u16, y: u16) -> u16 {
    u16_specs::wrapping_add(x, y)
}

/// 16-bit address arithmetic wraps modulo 2^16.
pub open spec fn wsub16(x: u16, y: u16) -> u16 {
    u16_specs::wrapping_sub(x, y)
}

/// 8-bit register arithmetic wraps modulo 2^8.
pub open spec fn wadd8(x: u8, y: u8) -> u8 {
    u8_specs::wrapping_add(x, y)
}

/// 8-bit register arithmetic wraps modulo 2^8.
pub open spec fn wsub8(x: u8, y: u8) -> u8 {
    u8_specs::wrapping_sub(x, y)
}

/// Pushing a byte: write it to the stack page at the stack pointer, then
/// decrement the stack pointer with wrap.
pub open spec fn spec_push(m: CpuModel, v: u8) -> CpuModel {
    let m1 = m_write(m, (0x100 + m.stkp) as u16, v);
    CpuModel { stkp: wsub8(m.stkp, 1), ..m1 }
}

/// Popping a byte: increment the stack pointer with wrap, then read from
/// the stack page at the stack pointer.
pub open spec fn spec_pop(m: CpuModel) -> (CpuModel, u8) {
    let sp = wadd8(m.stkp, 1);
    let v = m_read(m, (0x100 + sp) as u16);
    (CpuModel { stkp: sp, ..m }, v)
}

/// The model with one flag of the status word changed.
pub open spec fn m_set_flag(m: CpuModel, f: FLAGS6502, v: bool) -> CpuModel {
    CpuModel { status: spec_set_flag(m.status, f, v), ..m }
}

/// The status word with Z set from `v == 0` and N from bit 7 of `v`; the
/// shared flag derivation of the arithmetic, logical, load and transfer
/// operations.
pub open spec fn spec_set_zn(p: u8, v: u8) -> u8 {
    let p1 = spec_set_flag(p, FLAGS6502::Z, v == 0);
    spec_set_flag(p1, FLAGS6502::N, v & 0x80 != 0)
}

} // verus!
