//! The twelve addressing-mode routines. Each decodes the operand of the
//! current instruction starting at PC, advances PC past it, computes the
//! resolved effective address (and, for the relative mode, the sign-
//! extended displacement), and returns its possible extra-cycle
//! contribution: 1 exactly when an indexed address computation crossed a
//! page boundary.
use vstd::prelude::*;
use crate::cpu::cpu6502;
use crate::model::CpuModel;
use crate::model::m_read;
use crate::model::wadd16;

verus! {

/// Implied: no operand bytes; the implied operand is the accumulator.
pub open spec fn spec_imp(m: CpuModel) -> (CpuModel, u8) {
    (CpuModel { fetched: m.a, ..m }, 0u8)
}

/// Immediate: the operand byte sits at PC; the effective address is PC
/// itself, and PC advances past it.
pub open spec fn spec_imm(m: CpuModel) -> (CpuModel, u8) {
    (CpuModel { addr_abs: m.pc, pc: wadd16(m.pc, 1), ..m }, 0u8)
}

/// Zero page: one operand byte addresses page 0x00.
pub open spec fn spec_zp0(m: CpuModel) -> (CpuModel, u8) {
    let v = m_read(m, m.pc);
    (CpuModel { addr_abs: (v as u16) & 0x00FF, pc: wadd16(m.pc, 1), ..m }, 0u8)
}

/// Zero page, X-indexed: the operand byte plus X, wrapped within page 0.
pub open spec fn spec_zpx(m: CpuModel) -> (CpuModel, u8) {
    let v = m_read(m, m.pc);
    (
        CpuModel { addr_abs: ((v + m.x) as u16) & 0x00FF, pc: wadd16(m.pc, 1), ..m },
        0u8,
    )
}

/// Zero page, Y-indexed: the operand byte plus Y, wrapped within page 0.
pub open spec fn spec_zpy(m: CpuModel) -> (CpuModel, u8) {
    let v = m_read(m, m.pc);
    (
        CpuModel { addr_abs: ((v + m.y) as u16) & 0x00FF, pc: wadd16(m.pc, 1), ..m },
        0u8,
    )
}

/// Relative: one operand byte, sign-extended to a 16-bit branch
/// displacement.
pub open spec fn spec_rel(m: CpuModel) -> (CpuModel, u8) {
    let v = m_read(m, m.pc);
    let rel = if v & 0x80 != 0 {
        (v as u16) | 0xFF00
    } else {
        v as u16
    };
    (CpuModel { addr_rel: rel, pc: wadd16(m.pc, 1), ..m }, 0u8)
}

/// Absolute: two operand bytes, low then high.
pub open spec fn spec_abs(m: CpuModel) -> (CpuModel, u8) {
    let lo = m_read(m, m.pc) as u16;
    let hi = m_read(m, wadd16(m.pc, 1)) as u16;
    (
        CpuModel { addr_abs: (hi << 8) | lo, pc: wadd16(m.pc, 2), ..m },
        0u8,
    )
}

/// Absolute, X-indexed: extra cycle exactly when adding X crosses a page.
pub open spec fn spec_abx(m: CpuModel) -> (CpuModel, u8) {
    let lo = m_read(m, m.pc) as u16;
    let hi = m_read(m, wadd16(m.pc, 1)) as u16;
    let addr = wadd16((hi << 8) | lo, m.x as u16);
    let extra: u8 = if (addr & 0xFF00) != (hi << 8) {
        1u8
    } else {
        0u8
    };
    (CpuModel { addr_abs: addr, pc: wadd16(m.pc, 2), ..m }, extra)
}

/// Absolute, Y-indexed: extra cycle exactly when adding Y crosses a page.
pub open spec fn spec_aby(m: CpuModel) -> (CpuModel, u8) {
    let lo = m_read(m, m.pc) as u16;
    let hi = m_read(m, wadd16(m.pc, 1)) as u16;
    let addr = wadd16((hi << 8) | lo, m.y as u16);
    let extra: u8 = if (addr & 0xFF00) != (hi << 8) {
        1u8
    } else {
        0u8
    };
    (CpuModel { addr_abs: addr, pc: wadd16(m.pc, 2), ..m }, extra)
}

/// Indirect: a two-byte pointer to the effective address, with the
/// hardware bug: when the pointer's low byte is 0xFF the high byte of the
/// target is fetched from the start of the pointer's page rather than
/// from the following page.
pub open spec fn spec_ind(m: CpuModel) -> (CpuModel, u8) {
    let ptr_lo = m_read(m, m.pc) as u16;
    let ptr_hi = m_read(m, wadd16(m.pc, 1)) as u16;
    let ptr = (ptr_hi << 8) | ptr_lo;
    let addr = if ptr_lo == 0x00FF {
        ((m_read(m, ptr & 0xFF00) as u16) << 8) | (m_read(m, ptr) as u16)
    } else {
        ((m_read(m, (ptr + 1) as u16) as u16) << 8) | (m_read(m, ptr) as u16)
    };
    (CpuModel { addr_abs: addr, pc: wadd16(m.pc, 2), ..m }, 0u8)
}

/// Indirect, X-indexed: the operand byte plus X selects a two-byte
/// pointer in page 0 (wrapped); its target is the effective address.
pub open spec fn spec_izx(m: CpuModel) -> (CpuModel, u8) {
    let t = m_read(m, m.pc) as u16;
    let lo = m_read(m, ((t + m.x) as u16) & 0x00FF) as u16;
    let hi = m_read(m, ((t + m.x + 1) as u16) & 0x00FF) as u16;
    (
        CpuModel { addr_abs: (hi << 8) | lo, pc: wadd16(m.pc, 1), ..m },
        0u8,
    )
}

/// Indirect, Y-indexed: the operand byte selects a two-byte pointer in
/// page 0 (wrapped); Y is added to its target; extra cycle exactly when
/// that addition crosses a page.
pub open spec fn spec_izy(m: CpuModel) -> (CpuModel, u8) {
    let t = m_read(m, m.pc) as u16;
    let lo = m_read(m, t & 0x00FF) as u16;
    let hi = m_read(m, ((t + 1) as u16) & 0x00FF) as u16;
    let addr = wadd16((hi << 8) | lo, m.y as u16);
    let extra: u8 = if (addr & 0xFF00) != (hi << 8) {
        1u8
    } else {
        0u8
    };
    (CpuModel { addr_abs: addr, pc: wadd16(m.pc, 1), ..m }, extra)
}

impl cpu6502 {
    /// Implied addressing.
    pub fn IMP(cpu: &mut cpu6502) -> (r: u8)
        requires
            old(cpu).wf(),
        ensures
            final(cpu).wf(),
            (final(cpu)@, r) == spec_imp(old(cpu)@),
    {
        cpu.fetched = cpu.a;
        0
    }

    /// Immediate addressing.
    pub fn IMM(cpu: &mut cpu6502) -> (r: u8)
        requires
            old(cpu).wf(),
        ensures
            final(cpu).wf(),
            (final(cpu)@, r) == spec_imm(old(cpu)@),
    {
        cpu.addr_abs = cpu.pc;
        cpu.pc = cpu.pc.wrapping_add(1);
        0
    }

    /// Zero-page addressing.
    pub fn ZP0(cpu: &mut cpu6502) -> (r: u8)
        requires
            old(cpu).wf(),
        ensures
            final(cpu).wf(),
            (final(cpu)@, r) == spec_zp0(old(cpu)@),
    {
        cpu.addr_abs = cpu.read(cpu.pc) as u16;
        cpu.pc = cpu.pc.wrapping_add(1);
        cpu.addr_abs = cpu.addr_abs & 0x00FF;
        0
    }

    /// Zero-page, X-indexed addressing.
    pub fn ZPX(cpu: &mut cpu6502) -> (r: u8)
        requires
            old(cpu).wf(),
        ensures
            final(cpu).wf(),
            (final(cpu)@, r) == spec_zpx(old(cpu)@),
    {
        let v = cpu.read(cpu.pc);
        cpu.addr_abs = (v as u16 + cpu.x as u16) & 0x00FF;
        cpu.pc = cpu.pc.wrapping_add(1);
        0
    }

    /// Zero-page, Y-indexed addressing.
    pub fn ZPY(cpu: &mut cpu6502) -> (r: u8)
        requires
            old(cpu).wf(),
        ensures
            final(cpu).wf(),
            (final(cpu)@, r) == spec_zpy(old(cpu)@),
    {
        let v = cpu.read(cpu.pc);
        cpu.addr_abs = (v as u16 + cpu.y as u16) & 0x00FF;
        cpu.pc = cpu.pc.wrapping_add(1);
        0
    }

    /// Relative addressing, for the branch instructions.
    pub fn REL(cpu: &mut cpu6502) -> (r: u8)
        requires
            old(cpu).wf(),
        ensures
            final(cpu).wf(),
            (final(cpu)@, r) == spec_rel(old(cpu)@),
    {
        let v = cpu.read(cpu.pc);
        cpu.pc = cpu.pc.wrapping_add(1);
        if v & 0x80 != 0 {
            cpu.addr_rel = (v as u16) | 0xFF00;
        } else {
            cpu.addr_rel = v as u16;
        }
        0
    }

    /// Absolute addressing.
    pub fn ABS(cpu: &mut cpu6502) -> (r: u8)
        requires
            old(cpu).wf(),
        ensures
            final(cpu).wf(),
            (final(cpu)@, r) == spec_abs(old(cpu)@),
    {
        let lo = cpu.read(cpu.pc) as u16;
        cpu.pc = cpu.pc.wrapping_add(1);
        let hi = cpu.read(cpu.pc) as u16;
        cpu.pc = cpu.pc.wrapping_add(1);
        cpu.addr_abs = (hi << 8) | lo;
        0
    }

    /// Absolute, X-indexed addressing.
    pub fn ABX(cpu: &mut cpu6502) -> (r: u8)
        requires
            old(cpu).wf(),
        ensures
            final(cpu).wf(),
            (final(cpu)@, r) == spec_abx(old(cpu)@),
    {
        let lo = cpu.read(cpu.pc) as u16;
        cpu.pc = cpu.pc.wrapping_add(1);
        let hi = cpu.read(cpu.pc) as u16;
        cpu.pc = cpu.pc.wrapping_add(1);
        cpu.addr_abs = ((hi << 8) | lo).wrapping_add(cpu.x as u16);
        if (cpu.addr_abs & 0xFF00) != (hi << 8) {
            1
        } else {
            0
        }
    }

    /// Absolute, Y-indexed addressing.
    pub fn ABY(cpu: &mut cpu6502) -> (r: u8)
        requires
            old(cpu).wf(),
        ensures
            final(cpu).wf(),
            (final(cpu)@, r) == spec_aby(old(cpu)@),
    {
        let lo = cpu.read(cpu.pc) as u16;
        cpu.pc = cpu.pc.wrapping_add(1);
        let hi = cpu.read(cpu.pc) as u16;
        cpu.pc = cpu.pc.wrapping_add(1);
        cpu.addr_abs = ((hi << 8) | lo).wrapping_add(cpu.y as u16);
        if (cpu.addr_abs & 0xFF00) != (hi << 8) {
            1
        } else {
            0
        }
    }

    /// Indirect addressing, reproducing the page-boundary hardware bug.
    pub fn IND(cpu: &mut cpu6502) -> (r: u8)
        requires
            old(cpu).wf(),
        ensures
            final(cpu).wf(),
            (final(cpu)@, r) == spec_ind(old(cpu)@),
    {
        let ptr_lo = cpu.read(cpu.pc) as u16;
        cpu.pc = cpu.pc.wrapping_add(1);
        let ptr_hi = cpu.read(cpu.pc) as u16;
        cpu.pc = cpu.pc.wrapping_add(1);
        let ptr = (ptr_hi << 8) | ptr_lo;
        if ptr_lo == 0x00FF {
            let hi = cpu.read(ptr & 0xFF00) as u16;
            let lo = cpu.read(ptr) as u16;
            cpu.addr_abs = (hi << 8) | lo;
        } else {
            assert(ptr < 0xFFFF) by (bit_vector)
                requires
                    ptr == (ptr_hi << 8) | ptr_lo,
                    ptr_lo != 0x00FF,
                    ptr_hi < 0x100,
                    ptr_lo < 0x100,
            ;
            let hi = cpu.read(ptr + 1) as u16;
            let lo = cpu.read(ptr) as u16;
            cpu.addr_abs = (hi << 8) | lo;
        }
        0
    }

    /// Indirect, X-indexed addressing.
    pub fn IZX(cpu: &mut cpu6502) -> (r: u8)
        requires
            old(cpu).wf(),
        ensures
            final(cpu).wf(),
            (final(cpu)@, r) == spec_izx(old(cpu)@),
    {
        let t = cpu.read(cpu.pc) as u16;
        cpu.pc = cpu.pc.wrapping_add(1);
        let lo = cpu.read((t + cpu.x as u16) & 0x00FF) as u16;
        let hi = cpu.read((t + cpu.x as u16 + 1) & 0x00FF) as u16;
        cpu.addr_abs = (hi << 8) | lo;
        0
    }

    /// Indirect, Y-indexed addressing.
    pub fn IZY(cpu: &mut cpu6502) -> (r: u8)
        requires
            old(cpu).wf(),
        ensures
            final(cpu).wf(),
            (final(cpu)@, r) == spec_izy(old(cpu)@),
    {
        let t = cpu.read(cpu.pc) as u16;
        cpu.pc = cpu.pc.wrapping_add(1);
        let lo = cpu.read(t & 0x00FF) as u16;
        let hi = cpu.read((t + 1) & 0x00FF) as u16;
        cpu.addr_abs = ((hi << 8) | lo).wrapping_add(cpu.y as u16);
        if (cpu.addr_abs & 0xFF00) != (hi << 8) {
            1
        } else {
            0
        }
    }
}

} // verus!
