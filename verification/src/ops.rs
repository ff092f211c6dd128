//! The fifty-six operations, plus the placeholder under which the
//! undocumented opcodes behave as no-ops. Each operation fetches its
//! operand (when not implied) via the resolved effective address, performs
//! its work, updates its subset of the status flags, and returns its
//! possible extra-cycle contribution. The Decimal flag never affects
//! arithmetic; it is only stored and cleared by SED and CLD.
use vstd::prelude::*;
use vstd::wrapping::u16_specs;
use crate::cpu::cpu6502;
use crate::cpu::spec_fetch;
use crate::flags::FLAGS6502;
use crate::flags::flag_mask;
use crate::flags::spec_get_flag;
use crate::flags::spec_set_flag;
use crate::isa::Mode;
use crate::isa::lookup;
use crate::isa::spec_instr;
use crate::model::CpuModel;
use crate::model::m_read;
use crate::model::m_set_flag;
use crate::model::m_write;
use crate::model::spec_pop;
use crate::model::spec_push;
use crate::model::spec_set_zn;
use crate::model::wadd16;
use crate::model::wadd8;
use crate::model::wsub16;
use crate::model::wsub8;

verus! {
/// ADC: add the operand and the carry to the accumulator in a 16-bit
/// intermediate; C, Z, V and N derive from that intermediate.
pub open spec fn spec_adc(m0: CpuModel) -> (CpuModel, u8) {
    let (m, v) = spec_fetch(m0);
    let t = (m.a + v + spec_get_flag(m.status, FLAGS6502::C)) as u16;
    let s1 = spec_set_flag(m.status, FLAGS6502::C, t > 255);
    let s2 = spec_set_flag(s1, FLAGS6502::Z, (t & 0x00FF) == 0);
    let s3 = spec_set_flag(
        s2,
        FLAGS6502::V,
        (!((m.a as u16) ^ (v as u16)) & ((m.a as u16) ^ t)) & 0x0080 != 0,
    );
    let s4 = spec_set_flag(s3, FLAGS6502::N, t & 0x0080 != 0);
    (CpuModel { a: (t & 0x00FF) as u8, status: s4, temp: t, ..m }, 1u8)
}

/// SBC: subtract the operand from the accumulator by adding its
/// bitwise inverse plus the carry, in a 16-bit intermediate.
pub open spec fn spec_sbc(m0: CpuModel) -> (CpuModel, u8) {
    let (m, v) = spec_fetch(m0);
    let value = (v as u16) ^ 0x00FF;
    let t = (m.a + value + spec_get_flag(m.status, FLAGS6502::C)) as u16;
    let s1 = spec_set_flag(m.status, FLAGS6502::C, t & 0xFF00 != 0);
    let s2 = spec_set_flag(s1, FLAGS6502::Z, (t & 0x00FF) == 0);
    let s3 = spec_set_flag(s2, FLAGS6502::V, (t ^ (m.a as u16)) & (t ^ value) & 0x0080 != 0);
    let s4 = spec_set_flag(s3, FLAGS6502::N, t & 0x0080 != 0);
    (CpuModel { a: (t & 0x00FF) as u8, status: s4, temp: t, ..m }, 1u8)
}

/// AND: bitwise combine the accumulator with the operand; Z and N
/// derive from the result.
pub open spec fn spec_and_op(m0: CpuModel) -> (CpuModel, u8) {
    let (m, v) = spec_fetch(m0);
    let a = m.a & v;
    (CpuModel { a: a, status: spec_set_zn(m.status, a), ..m }, 1u8)
}

/// ORA: bitwise combine the accumulator with the operand; Z and N
/// derive from the result.
pub open spec fn spec_ora(m0: CpuModel) -> (CpuModel, u8) {
    let (m, v) = spec_fetch(m0);
    let a = m.a | v;
    (CpuModel { a: a, status: spec_set_zn(m.status, a), ..m }, 1u8)
}

/// EOR: bitwise combine the accumulator with the operand; Z and N
/// derive from the result.
pub open spec fn spec_eor(m0: CpuModel) -> (CpuModel, u8) {
    let (m, v) = spec_fetch(m0);
    let a = m.a ^ v;
    (CpuModel { a: a, status: spec_set_zn(m.status, a), ..m }, 0u8)
}

/// BIT: Z from the accumulator AND the operand, but N and V copy
/// bits 7 and 6 of the operand itself.
pub open spec fn spec_bit(m0: CpuModel) -> (CpuModel, u8) {
    let (m, v) = spec_fetch(m0);
    let t = (m.a & v) as u16;
    let s1 = spec_set_flag(m.status, FLAGS6502::Z, (t & 0x00FF) == 0);
    let s2 = spec_set_flag(s1, FLAGS6502::N, v & (1u8 << 7) != 0);
    let s3 = spec_set_flag(s2, FLAGS6502::V, v & (1u8 << 6) != 0);
    (CpuModel { status: s3, temp: t, ..m }, 0u8)
}

/// ASL: shift left one bit; C receives the bit shifted out; the
/// result goes to the accumulator under implied addressing, else to
/// memory.
pub open spec fn spec_asl(m0: CpuModel) -> (CpuModel, u8) {
    let (m, v) = spec_fetch(m0);
    let t = (v as u16) << 1;
    let s1 = spec_set_flag(m.status, FLAGS6502::C, (t & 0xFF00) > 0);
    let s2 = spec_set_flag(s1, FLAGS6502::Z, (t & 0x00FF) == 0);
    let s3 = spec_set_flag(s2, FLAGS6502::N, t & 0x0080 != 0);
    let res = (t & 0x00FF) as u8;
    if spec_instr(m.opcode).mode == Mode::IMP {
        (CpuModel { a: res, status: s3, temp: t, ..m }, 0u8)
    } else {
        (m_write(CpuModel { status: s3, temp: t, ..m }, m.addr_abs, res), 0u8)
    }
}

/// LSR: shift right one bit; C receives the bit shifted out.
pub open spec fn spec_lsr(m0: CpuModel) -> (CpuModel, u8) {
    let (m, v) = spec_fetch(m0);
    let s1 = spec_set_flag(m.status, FLAGS6502::C, (v & 0x01) != 0);
    let t = (v >> 1) as u16;
    let s2 = spec_set_flag(s1, FLAGS6502::Z, (t & 0x00FF) == 0);
    let s3 = spec_set_flag(s2, FLAGS6502::N, t & 0x0080 != 0);
    let res = (t & 0x00FF) as u8;
    if spec_instr(m.opcode).mode == Mode::IMP {
        (CpuModel { a: res, status: s3, temp: t, ..m }, 0u8)
    } else {
        (m_write(CpuModel { status: s3, temp: t, ..m }, m.addr_abs, res), 0u8)
    }
}

/// ROL: rotate left through the carry: the old carry enters bit 0
/// and C receives bit 7 of the operand.
pub open spec fn spec_rol(m0: CpuModel) -> (CpuModel, u8) {
    let (m, v) = spec_fetch(m0);
    let t = ((v as u16) << 1) | (spec_get_flag(m.status, FLAGS6502::C) as u16);
    let s1 = spec_set_flag(m.status, FLAGS6502::C, (v & 0x80) != 0);
    let s2 = spec_set_flag(s1, FLAGS6502::Z, (t & 0x00FF) == 0);
    let s3 = spec_set_flag(s2, FLAGS6502::N, t & 0x0080 != 0);
    let res = (t & 0x00FF) as u8;
    if spec_instr(m.opcode).mode == Mode::IMP {
        (CpuModel { a: res, status: s3, temp: t, ..m }, 0u8)
    } else {
        (m_write(CpuModel { status: s3, temp: t, ..m }, m.addr_abs, res), 0u8)
    }
}

/// ROR: rotate right through the carry: the old carry enters bit 7
/// and C receives bit 0 of the operand.
pub open spec fn spec_ror(m0: CpuModel) -> (CpuModel, u8) {
    let (m, v) = spec_fetch(m0);
    let t = ((spec_get_flag(m.status, FLAGS6502::C) << 7) | (v >> 1)) as u16;
    let s1 = spec_set_flag(m.status, FLAGS6502::C, (v & 0x01) != 0);
    let s2 = spec_set_flag(s1, FLAGS6502::Z, (t & 0x00FF) == 0);
    let s3 = spec_set_flag(s2, FLAGS6502::N, t & 0x0080 != 0);
    let res = (t & 0x00FF) as u8;
    if spec_instr(m.opcode).mode == Mode::IMP {
        (CpuModel { a: res, status: s3, temp: t, ..m }, 0u8)
    } else {
        (m_write(CpuModel { status: s3, temp: t, ..m }, m.addr_abs, res), 0u8)
    }
}

/// CMP: subtract the operand from the accumulator in a 16-bit intermediate;
/// C is set when the register is at least the operand; Z and N derive
/// from the low byte.
pub open spec fn spec_cmp(m0: CpuModel) -> (CpuModel, u8) {
    let (m, v) = spec_fetch(m0);
    let t = u16_specs::wrapping_sub(m.a as u16, v as u16);
    let s1 = spec_set_flag(m.status, FLAGS6502::C, m.a >= v);
    let s2 = spec_set_flag(s1, FLAGS6502::Z, (t & 0x00FF) == 0);
    let s3 = spec_set_flag(s2, FLAGS6502::N, (t & 0x0080) != 0);
    (CpuModel { status: s3, temp: t, ..m }, 0u8)
}

/// CPX: subtract the operand from X in a 16-bit intermediate;
/// C is set when the register is at least the operand; Z and N derive
/// from the low byte.
pub open spec fn spec_cpx(m0: CpuModel) -> (CpuModel, u8) {
    let (m, v) = spec_fetch(m0);
    let t = u16_specs::wrapping_sub(m.x as u16, v as u16);
    let s1 = spec_set_flag(m.status, FLAGS6502::C, m.x >= v);
    let s2 = spec_set_flag(s1, FLAGS6502::Z, (t & 0x00FF) == 0);
    let s3 = spec_set_flag(s2, FLAGS6502::N, (t & 0x0080) != 0);
    (CpuModel { status: s3, temp: t, ..m }, 0u8)
}

/// CPY: subtract the operand from Y in a 16-bit intermediate;
/// C is set when the register is at least the operand; Z and N derive
/// from the low byte.
pub open spec fn spec_cpy(m0: CpuModel) -> (CpuModel, u8) {
    let (m, v) = spec_fetch(m0);
    let t = u16_specs::wrapping_sub(m.y as u16, v as u16);
    let s1 = spec_set_flag(m.status, FLAGS6502::C, m.y >= v);
    let s2 = spec_set_flag(s1, FLAGS6502::Z, (t & 0x00FF) == 0);
    let s3 = spec_set_flag(s2, FLAGS6502::N, (t & 0x0080) != 0);
    (CpuModel { status: s3, temp: t, ..m }, 0u8)
}

/// DEC: decrement the byte at the effective address, with wrap; Z
/// and N derive from the result.
pub open spec fn spec_dec(m0: CpuModel) -> (CpuModel, u8) {
    let (m, v) = spec_fetch(m0);
    let t = wsub8(v, 1) as u16;
    let m1 = m_write(CpuModel { temp: t, ..m }, m.addr_abs, (t & 0x00FF) as u8);
    let s1 = spec_set_flag(m1.status, FLAGS6502::Z, (t & 0x00FF) == 0);
    let s2 = spec_set_flag(s1, FLAGS6502::N, (t & 0x0080) != 0);
    (CpuModel { status: s2, ..m1 }, 0u8)
}

/// INC: increment the byte at the effective address, with wrap; Z
/// and N derive from the result.
pub open spec fn spec_inc(m0: CpuModel) -> (CpuModel, u8) {
    let (m, v) = spec_fetch(m0);
    let t = wadd8(v, 1) as u16;
    let m1 = m_write(CpuModel { temp: t, ..m }, m.addr_abs, (t & 0x00FF) as u8);
    let s1 = spec_set_flag(m1.status, FLAGS6502::Z, (t & 0x00FF) == 0);
    let s2 = spec_set_flag(s1, FLAGS6502::N, (t & 0x0080) != 0);
    (CpuModel { status: s2, ..m1 }, 0u8)
}

/// DEX: decrement the X register with wrap; Z and N derive from
/// the result.
pub open spec fn spec_dex(m0: CpuModel) -> (CpuModel, u8) {
    let r = wsub8(m0.x, 1);
    (CpuModel { x: r, status: spec_set_zn(m0.status, r), ..m0 }, 0u8)
}

/// DEY: decrement the Y register with wrap; Z and N derive from
/// the result.
pub open spec fn spec_dey(m0: CpuModel) -> (CpuModel, u8) {
    let r = wsub8(m0.y, 1);
    (CpuModel { y: r, status: spec_set_zn(m0.status, r), ..m0 }, 0u8)
}

/// INX: increment the X register with wrap; Z and N derive from
/// the result.
pub open spec fn spec_inx(m0: CpuModel) -> (CpuModel, u8) {
    let r = wadd8(m0.x, 1);
    (CpuModel { x: r, status: spec_set_zn(m0.status, r), ..m0 }, 0u8)
}

/// INY: increment the Y register with wrap; Z and N derive from
/// the result.
pub open spec fn spec_iny(m0: CpuModel) -> (CpuModel, u8) {
    let r = wadd8(m0.y, 1);
    (CpuModel { y: r, status: spec_set_zn(m0.status, r), ..m0 }, 0u8)
}

/// LDA: load the operand into A; Z and N derive from it; may
/// pay a page-crossing penalty cycle.
pub open spec fn spec_lda(m0: CpuModel) -> (CpuModel, u8) {
    let (m, v) = spec_fetch(m0);
    (CpuModel { a: v, status: spec_set_zn(m.status, v), ..m }, 1u8)
}

/// LDX: load the operand into X; Z and N derive from it; may
/// pay a page-crossing penalty cycle.
pub open spec fn spec_ldx(m0: CpuModel) -> (CpuModel, u8) {
    let (m, v) = spec_fetch(m0);
    (CpuModel { x: v, status: spec_set_zn(m.status, v), ..m }, 1u8)
}

/// LDY: load the operand into Y; Z and N derive from it; may
/// pay a page-crossing penalty cycle.
pub open spec fn spec_ldy(m0: CpuModel) -> (CpuModel, u8) {
    let (m, v) = spec_fetch(m0);
    (CpuModel { y: v, status: spec_set_zn(m.status, v), ..m }, 1u8)
}

/// STA: store A at the effective address.
pub open spec fn spec_sta(m0: CpuModel) -> (CpuModel, u8) {
    (m_write(m0, m0.addr_abs, m0.a), 0u8)
}

/// STX: store X at the effective address.
pub open spec fn spec_stx(m0: CpuModel) -> (CpuModel, u8) {
    (m_write(m0, m0.addr_abs, m0.x), 0u8)
}

/// STY: store Y at the effective address.
pub open spec fn spec_sty(m0: CpuModel) -> (CpuModel, u8) {
    (m_write(m0, m0.addr_abs, m0.y), 0u8)
}

/// TAX: copy A to X; Z and N derive from the value moved.
pub open spec fn spec_tax(m0: CpuModel) -> (CpuModel, u8) {
    let r = m0.a;
    (CpuModel { x: r, status: spec_set_zn(m0.status, r), ..m0 }, 0u8)
}

/// TAY: copy A to Y; Z and N derive from the value moved.
pub open spec fn spec_tay(m0: CpuModel) -> (CpuModel, u8) {
    let r = m0.a;
    (CpuModel { y: r, status: spec_set_zn(m0.status, r), ..m0 }, 0u8)
}

/// TXA: copy X to A; Z and N derive from the value moved.
pub open spec fn spec_txa(m0: CpuModel) -> (CpuModel, u8) {
    let r = m0.x;
    (CpuModel { a: r, status: spec_set_zn(m0.status, r), ..m0 }, 0u8)
}

/// TYA: copy Y to A; Z and N derive from the value moved.
pub open spec fn spec_tya(m0: CpuModel) -> (CpuModel, u8) {
    let r = m0.y;
    (CpuModel { a: r, status: spec_set_zn(m0.status, r), ..m0 }, 0u8)
}

/// TSX: copy the stack pointer to X; Z and N derive from the value moved.
pub open spec fn spec_tsx(m0: CpuModel) -> (CpuModel, u8) {
    let r = m0.stkp;
    (CpuModel { x: r, status: spec_set_zn(m0.status, r), ..m0 }, 0u8)
}

/// TXS: copy X to the stack pointer; no flags change.
pub open spec fn spec_txs(m0: CpuModel) -> (CpuModel, u8) {
    (CpuModel { stkp: m0.x, ..m0 }, 0u8)
}

/// CLC: clear the C flag.
pub open spec fn spec_clc(m0: CpuModel) -> (CpuModel, u8) {
    (m_set_flag(m0, FLAGS6502::C, false), 0u8)
}

/// CLD: clear the D flag.
pub open spec fn spec_cld(m0: CpuModel) -> (CpuModel, u8) {
    (m_set_flag(m0, FLAGS6502::D, false), 0u8)
}

/// CLI: clear the I flag.
pub open spec fn spec_cli(m0: CpuModel) -> (CpuModel, u8) {
    (m_set_flag(m0, FLAGS6502::I, false), 0u8)
}

/// CLV: clear the V flag.
pub open spec fn spec_clv(m0: CpuModel) -> (CpuModel, u8) {
    (m_set_flag(m0, FLAGS6502::V, false), 0u8)
}

/// SEC: set the C flag.
pub open spec fn spec_sec(m0: CpuModel) -> (CpuModel, u8) {
    (m_set_flag(m0, FLAGS6502::C, true), 0u8)
}

/// SED: set the D flag.
pub open spec fn spec_sed(m0: CpuModel) -> (CpuModel, u8) {
    (m_set_flag(m0, FLAGS6502::D, true), 0u8)
}

/// SEI: set the I flag.
pub open spec fn spec_sei(m0: CpuModel) -> (CpuModel, u8) {
    (m_set_flag(m0, FLAGS6502::I, true), 0u8)
}

/// A taken branch: add the displacement to PC with 16-bit wrap, charge
/// one extra cycle, and a further one when the destination lies on a
/// different page than PC.
pub open spec fn spec_branch_taken(m: CpuModel) -> CpuModel {
    let dest = wadd16(m.pc, m.addr_rel);
    let c1 = wadd8(m.cycles, 1);
    let cyc = if (dest & 0xFF00) != (m.pc & 0xFF00) {
        wadd8(c1, 1)
    } else {
        c1
    };
    CpuModel { cycles: cyc, addr_abs: dest, pc: dest, ..m }
}

/// BCC: branch when the carry flag is clear.
pub open spec fn spec_bcc(m0: CpuModel) -> (CpuModel, u8) {
    if spec_get_flag(m0.status, FLAGS6502::C) == 0 {
        (spec_branch_taken(m0), 0u8)
    } else {
        (m0, 0u8)
    }
}

/// BCS: branch when the carry flag is set.
pub open spec fn spec_bcs(m0: CpuModel) -> (CpuModel, u8) {
    if spec_get_flag(m0.status, FLAGS6502::C) == 1 {
        (spec_branch_taken(m0), 0u8)
    } else {
        (m0, 0u8)
    }
}

/// BEQ: branch when the zero flag is set.
pub open spec fn spec_beq(m0: CpuModel) -> (CpuModel, u8) {
    if spec_get_flag(m0.status, FLAGS6502::Z) == 1 {
        (spec_branch_taken(m0), 0u8)
    } else {
        (m0, 0u8)
    }
}

/// BNE: branch when the zero flag is clear.
pub open spec fn spec_bne(m0: CpuModel) -> (CpuModel, u8) {
    if spec_get_flag(m0.status, FLAGS6502::Z) == 0 {
        (spec_branch_taken(m0), 0u8)
    } else {
        (m0, 0u8)
    }
}

/// BMI: branch when the negative flag is set.
pub open spec fn spec_bmi(m0: CpuModel) -> (CpuModel, u8) {
    if spec_get_flag(m0.status, FLAGS6502::N) == 1 {
        (spec_branch_taken(m0), 0u8)
    } else {
        (m0, 0u8)
    }
}

/// BPL: branch when the negative flag is clear.
pub open spec fn spec_bpl(m0: CpuModel) -> (CpuModel, u8) {
    if spec_get_flag(m0.status, FLAGS6502::N) == 0 {
        (spec_branch_taken(m0), 0u8)
    } else {
        (m0, 0u8)
    }
}

/// BVS: branch when the overflow flag is set.
pub open spec fn spec_bvs(m0: CpuModel) -> (CpuModel, u8) {
    if spec_get_flag(m0.status, FLAGS6502::V) == 1 {
        (spec_branch_taken(m0), 0u8)
    } else {
        (m0, 0u8)
    }
}

/// BVC: branch when the overflow flag is clear.
pub open spec fn spec_bvc(m0: CpuModel) -> (CpuModel, u8) {
    if spec_get_flag(m0.status, FLAGS6502::V) == 0 {
        (spec_branch_taken(m0), 0u8)
    } else {
        (m0, 0u8)
    }
}

/// JMP: set PC to the effective address.
pub open spec fn spec_jmp(m0: CpuModel) -> (CpuModel, u8) {
    (CpuModel { pc: m0.addr_abs, ..m0 }, 0u8)
}

/// JSR: push the address of the last byte of this instruction
/// (PC minus one), high byte then low, and jump to the effective
/// address.
pub open spec fn spec_jsr(m0: CpuModel) -> (CpuModel, u8) {
    let pc1 = wsub16(m0.pc, 1);
    let m1 = CpuModel { pc: pc1, ..m0 };
    let m2 = spec_push(m1, ((pc1 >> 8) & 0x00FF) as u8);
    let m3 = spec_push(m2, (pc1 & 0x00FF) as u8);
    (CpuModel { pc: m3.addr_abs, ..m3 }, 0u8)
}

/// RTS: pop the return address, low byte then high, and resume one
/// past it.
pub open spec fn spec_rts(m0: CpuModel) -> (CpuModel, u8) {
    let (m1, lo) = spec_pop(m0);
    let (m2, hi) = spec_pop(m1);
    let pc = ((hi as u16) << 8) | (lo as u16);
    (CpuModel { pc: wadd16(pc, 1), ..m2 }, 0u8)
}

/// RTI: pop the status register, clearing B and U on the popped
/// value, then pop PC.
pub open spec fn spec_rti(m0: CpuModel) -> (CpuModel, u8) {
    let (m1, s) = spec_pop(m0);
    let s1 = s & !0x10u8 & !0x20u8;
    let (m2, lo) = spec_pop(CpuModel { status: s1, ..m1 });
    let (m3, hi) = spec_pop(m2);
    (CpuModel { pc: ((hi as u16) << 8) | (lo as u16), ..m3 }, 0u8)
}

/// BRK: advance PC past the padding byte, set I, push PC high then
/// low, push the status with B set (clearing B again afterwards), and
/// load PC from the IRQ vector.
pub open spec fn spec_brk(m0: CpuModel) -> (CpuModel, u8) {
    let pc1 = wadd16(m0.pc, 1);
    let m1 = m_set_flag(CpuModel { pc: pc1, ..m0 }, FLAGS6502::I, true);
    let m2 = spec_push(m1, ((pc1 >> 8) & 0x00FF) as u8);
    let m3 = spec_push(m2, (pc1 & 0x00FF) as u8);
    let m4 = m_set_flag(m3, FLAGS6502::B, true);
    let m5 = spec_push(m4, m4.status);
    let m6 = m_set_flag(m5, FLAGS6502::B, false);
    let pc2 = (m_read(m6, 0xFFFE) as u16) | ((m_read(m6, 0xFFFF) as u16) << 8);
    (CpuModel { pc: pc2, ..m6 }, 0u8)
}

/// PHA: push the accumulator.
pub open spec fn spec_pha(m0: CpuModel) -> (CpuModel, u8) {
    (spec_push(m0, m0.a), 0u8)
}

/// PHP: push the status with B and U set, then clear B and U in the
/// live status.
pub open spec fn spec_php(m0: CpuModel) -> (CpuModel, u8) {
    let m1 = spec_push(m0, m0.status | 0x10 | 0x20);
    let m2 = m_set_flag(m1, FLAGS6502::B, false);
    (m_set_flag(m2, FLAGS6502::U, false), 0u8)
}

/// PLA: pop into the accumulator; Z and N derive from it.
pub open spec fn spec_pla(m0: CpuModel) -> (CpuModel, u8) {
    let (m1, v) = spec_pop(m0);
    (CpuModel { a: v, status: spec_set_zn(m1.status, v), ..m1 }, 0u8)
}

/// PLP: pop into the status register, then force U to 1.
pub open spec fn spec_plp(m0: CpuModel) -> (CpuModel, u8) {
    let (m1, v) = spec_pop(m0);
    (m_set_flag(CpuModel { status: v, ..m1 }, FLAGS6502::U, true), 0u8)
}

/// NOP: no state change; the unofficial NOP slots whose addressing
/// mode is absolute-X report a possible extra cycle.
pub open spec fn spec_nop(m0: CpuModel) -> (CpuModel, u8) {
    if m0.opcode == 0x1C || m0.opcode == 0x3C || m0.opcode == 0x5C || m0.opcode == 0x7C
        || m0.opcode == 0xDC || m0.opcode == 0xFC {
        (m0, 1u8)
    } else {
        (m0, 0u8)
    }
}

/// XXX: the placeholder for undocumented opcodes; behaves as a
/// no-op.
pub open spec fn spec_xxx(m0: CpuModel) -> (CpuModel, u8) {
    (m0, 0u8)
}

impl cpu6502 {
    /// Sets Z from `v == 0` and N from bit 7 of `v`.
    fn set_zn(&mut self, v: u8)
        ensures
            final(self)@ == (CpuModel { status: spec_set_zn(old(self)@.status, v), ..old(self)@ }),
            final(self).wf() == old(self).wf(),
    {
        self.set_flag(FLAGS6502::Z, v == 0x00);
        self.set_flag(FLAGS6502::N, (v & 0x80) != 0);
    }

    /// Takes a branch: adds the displacement to PC and charges the branch
    /// penalty cycles.
    fn branch(&mut self)
        ensures
            final(self)@ == spec_branch_taken(old(self)@),
            final(self).wf() == old(self).wf(),
    {
        self.cycles = self.cycles.wrapping_add(1);
        self.addr_abs = self.pc.wrapping_add(self.addr_rel);
        if (self.addr_abs & 0xFF00) != (self.pc & 0xFF00) {
            self.cycles = self.cycles.wrapping_add(1);
        }
        self.pc = self.addr_abs;
    }

    /// See [`spec_adc`].
    pub fn ADC(cpu: &mut cpu6502) -> (r: u8)
        requires
            old(cpu).wf(),
        ensures
            final(cpu).wf(),
            (final(cpu)@, r) == spec_adc(old(cpu)@),
    {
        cpu.fetch();
        let c = cpu.get_flag(FLAGS6502::C);
        cpu.temp = cpu.a as u16 + cpu.fetched as u16 + c as u16;
        cpu.set_flag(FLAGS6502::C, cpu.temp > 255);
        cpu.set_flag(FLAGS6502::Z, (cpu.temp & 0x00FF) == 0);
        cpu.set_flag(
            FLAGS6502::V,
            (!((cpu.a as u16) ^ (cpu.fetched as u16)) & ((cpu.a as u16) ^ cpu.temp)) & 0x0080
                != 0,
        );
        cpu.set_flag(FLAGS6502::N, cpu.temp & 0x0080 != 0);
        cpu.a = (cpu.temp & 0x00FF) as u8;
        1
    }

    /// See [`spec_sbc`].
    pub fn SBC(cpu: &mut cpu6502) -> (r: u8)
        requires
            old(cpu).wf(),
        ensures
            final(cpu).wf(),
            (final(cpu)@, r) == spec_sbc(old(cpu)@),
    {
        cpu.fetch();
        let f = cpu.fetched;
        let value = (f as u16) ^ 0x00FF;
        assert(value <= 0xFF) by (bit_vector)
            requires
                value == (f as u16) ^ 0x00FF,
        ;
        let c = cpu.get_flag(FLAGS6502::C);
        cpu.temp = cpu.a as u16 + value + c as u16;
        cpu.set_flag(FLAGS6502::C, cpu.temp & 0xFF00 != 0);
        cpu.set_flag(FLAGS6502::Z, (cpu.temp & 0x00FF) == 0);
        cpu.set_flag(FLAGS6502::V, (cpu.temp ^ (cpu.a as u16)) & (cpu.temp ^ value) & 0x0080 != 0);
        cpu.set_flag(FLAGS6502::N, cpu.temp & 0x0080 != 0);
        cpu.a = (cpu.temp & 0x00FF) as u8;
        1
    }

    /// See [`spec_and_op`].
    pub fn AND(cpu: &mut cpu6502) -> (r: u8)
        requires
            old(cpu).wf(),
        ensures
            final(cpu).wf(),
            (final(cpu)@, r) == spec_and_op(old(cpu)@),
    {
        cpu.fetch();
        cpu.a = cpu.a & cpu.fetched;
        cpu.set_zn(cpu.a);
        1
    }

    /// See [`spec_ora`].
    pub fn ORA(cpu: &mut cpu6502) -> (r: u8)
        requires
            old(cpu).wf(),
        ensures
            final(cpu).wf(),
            (final(cpu)@, r) == spec_ora(old(cpu)@),
    {
        cpu.fetch();
        cpu.a = cpu.a | cpu.fetched;
        cpu.set_zn(cpu.a);
        1
    }

    /// See [`spec_eor`].
    pub fn EOR(cpu: &mut cpu6502) -> (r: u8)
        requires
            old(cpu).wf(),
        ensures
            final(cpu).wf(),
            (final(cpu)@, r) == spec_eor(old(cpu)@),
    {
        cpu.fetch();
        cpu.a = cpu.a ^ cpu.fetched;
        cpu.set_zn(cpu.a);
        0
    }

    /// See [`spec_bit`].
    pub fn BIT(cpu: &mut cpu6502) -> (r: u8)
        requires
            old(cpu).wf(),
        ensures
            final(cpu).wf(),
            (final(cpu)@, r) == spec_bit(old(cpu)@),
    {
        cpu.fetch();
        cpu.temp = (cpu.a & cpu.fetched) as u16;
        cpu.set_flag(FLAGS6502::Z, (cpu.temp & 0x00FF) == 0);
        cpu.set_flag(FLAGS6502::N, cpu.fetched & (1u8 << 7) != 0);
        cpu.set_flag(FLAGS6502::V, cpu.fetched & (1u8 << 6) != 0);
        0
    }

    /// See [`spec_asl`].
    pub fn ASL(cpu: &mut cpu6502) -> (r: u8)
        requires
            old(cpu).wf(),
        ensures
            final(cpu).wf(),
            (final(cpu)@, r) == spec_asl(old(cpu)@),
    {
        cpu.fetch();
        cpu.temp = (cpu.fetched as u16) << 1;
        cpu.set_flag(FLAGS6502::C, (cpu.temp & 0xFF00) > 0);
        cpu.set_flag(FLAGS6502::Z, (cpu.temp & 0x00FF) == 0);
        cpu.set_flag(FLAGS6502::N, cpu.temp & 0x0080 != 0);
        if lookup(cpu.opcode).mode == Mode::IMP {
            cpu.a = (cpu.temp & 0x00FF) as u8;
        } else {
            let res = (cpu.temp & 0x00FF) as u8;
            cpu.write(cpu.addr_abs, res);
        }
        0
    }

    /// See [`spec_lsr`].
    pub fn LSR(cpu: &mut cpu6502) -> (r: u8)
        requires
            old(cpu).wf(),
        ensures
            final(cpu).wf(),
            (final(cpu)@, r) == spec_lsr(old(cpu)@),
    {
        cpu.fetch();
        cpu.set_flag(FLAGS6502::C, (cpu.fetched & 0x01) != 0);
        cpu.temp = (cpu.fetched >> 1) as u16;
        cpu.set_flag(FLAGS6502::Z, (cpu.temp & 0x00FF) == 0);
        cpu.set_flag(FLAGS6502::N, cpu.temp & 0x0080 != 0);
        if lookup(cpu.opcode).mode == Mode::IMP {
            cpu.a = (cpu.temp & 0x00FF) as u8;
        } else {
            let res = (cpu.temp & 0x00FF) as u8;
            cpu.write(cpu.addr_abs, res);
        }
        0
    }

    /// See [`spec_rol`].
    pub fn ROL(cpu: &mut cpu6502) -> (r: u8)
        requires
            old(cpu).wf(),
        ensures
            final(cpu).wf(),
            (final(cpu)@, r) == spec_rol(old(cpu)@),
    {
        cpu.fetch();
        let c = cpu.get_flag(FLAGS6502::C);
        cpu.temp = ((cpu.fetched as u16) << 1) | (c as u16);
        cpu.set_flag(FLAGS6502::C, (cpu.fetched & 0x80) != 0);
        cpu.set_flag(FLAGS6502::Z, (cpu.temp & 0x00FF) == 0);
        cpu.set_flag(FLAGS6502::N, cpu.temp & 0x0080 != 0);
        if lookup(cpu.opcode).mode == Mode::IMP {
            cpu.a = (cpu.temp & 0x00FF) as u8;
        } else {
            let res = (cpu.temp & 0x00FF) as u8;
            cpu.write(cpu.addr_abs, res);
        }
        0
    }

    /// See [`spec_ror`].
    pub fn ROR(cpu: &mut cpu6502) -> (r: u8)
        requires
            old(cpu).wf(),
        ensures
            final(cpu).wf(),
            (final(cpu)@, r) == spec_ror(old(cpu)@),
    {
        cpu.fetch();
        let c = cpu.get_flag(FLAGS6502::C);
        cpu.temp = ((c << 7) | (cpu.fetched >> 1)) as u16;
        cpu.set_flag(FLAGS6502::C, (cpu.fetched & 0x01) != 0);
        cpu.set_flag(FLAGS6502::Z, (cpu.temp & 0x00FF) == 0);
        cpu.set_flag(FLAGS6502::N, cpu.temp & 0x0080 != 0);
        if lookup(cpu.opcode).mode == Mode::IMP {
            cpu.a = (cpu.temp & 0x00FF) as u8;
        } else {
            let res = (cpu.temp & 0x00FF) as u8;
            cpu.write(cpu.addr_abs, res);
        }
        0
    }

    /// See [`spec_cmp`].
    pub fn CMP(cpu: &mut cpu6502) -> (r: u8)
        requires
            old(cpu).wf(),
        ensures
            final(cpu).wf(),
            (final(cpu)@, r) == spec_cmp(old(cpu)@),
    {
        cpu.fetch();
        cpu.temp = (cpu.a as u16).wrapping_sub(cpu.fetched as u16);
        cpu.set_flag(FLAGS6502::C, cpu.a >= cpu.fetched);
        cpu.set_flag(FLAGS6502::Z, (cpu.temp & 0x00FF) == 0);
        cpu.set_flag(FLAGS6502::N, (cpu.temp & 0x0080) != 0);
        0
    }

    /// See [`spec_cpx`].
    pub fn CPX(cpu: &mut cpu6502) -> (r: u8)
        requires
            old(cpu).wf(),
        ensures
            final(cpu).wf(),
            (final(cpu)@, r) == spec_cpx(old(cpu)@),
    {
        cpu.fetch();
        cpu.temp = (cpu.x as u16).wrapping_sub(cpu.fetched as u16);
        cpu.set_flag(FLAGS6502::C, cpu.x >= cpu.fetched);
        cpu.set_flag(FLAGS6502::Z, (cpu.temp & 0x00FF) == 0);
        cpu.set_flag(FLAGS6502::N, (cpu.temp & 0x0080) != 0);
        0
    }

    /// See [`spec_cpy`].
    pub fn CPY(cpu: &mut cpu6502) -> (r: u8)
        requires
            old(cpu).wf(),
        ensures
            final(cpu).wf(),
            (final(cpu)@, r) == spec_cpy(old(cpu)@),
    {
        cpu.fetch();
        cpu.temp = (cpu.y as u16).wrapping_sub(cpu.fetched as u16);
        cpu.set_flag(FLAGS6502::C, cpu.y >= cpu.fetched);
        cpu.set_flag(FLAGS6502::Z, (cpu.temp & 0x00FF) == 0);
        cpu.set_flag(FLAGS6502::N, (cpu.temp & 0x0080) != 0);
        0
    }

    /// See [`spec_dec`].
    pub fn DEC(cpu: &mut cpu6502) -> (r: u8)
        requires
            old(cpu).wf(),
        ensures
            final(cpu).wf(),
            (final(cpu)@, r) == spec_dec(old(cpu)@),
    {
        cpu.fetch();
        cpu.temp = cpu.fetched.wrapping_sub(1) as u16;
        let res = (cpu.temp & 0x00FF) as u8;
        cpu.write(cpu.addr_abs, res);
        cpu.set_flag(FLAGS6502::Z, (cpu.temp & 0x00FF) == 0);
        cpu.set_flag(FLAGS6502::N, (cpu.temp & 0x0080) != 0);
        0
    }

    /// See [`spec_inc`].
    pub fn INC(cpu: &mut cpu6502) -> (r: u8)
        requires
            old(cpu).wf(),
        ensures
            final(cpu).wf(),
            (final(cpu)@, r) == spec_inc(old(cpu)@),
    {
        cpu.fetch();
        cpu.temp = cpu.fetched.wrapping_add(1) as u16;
        let res = (cpu.temp & 0x00FF) as u8;
        cpu.write(cpu.addr_abs, res);
        cpu.set_flag(FLAGS6502::Z, (cpu.temp & 0x00FF) == 0);
        cpu.set_flag(FLAGS6502::N, (cpu.temp & 0x0080) != 0);
        0
    }

    /// See [`spec_dex`].
    pub fn DEX(cpu: &mut cpu6502) -> (r: u8)
        requires
            old(cpu).wf(),
        ensures
            final(cpu).wf(),
            (final(cpu)@, r) == spec_dex(old(cpu)@),
    {
        cpu.x = cpu.x.wrapping_sub(1);
        cpu.set_zn(cpu.x);
        0
    }

    /// See [`spec_dey`].
    pub fn DEY(cpu: &mut cpu6502) -> (r: u8)
        requires
            old(cpu).wf(),
        ensures
            final(cpu).wf(),
            (final(cpu)@, r) == spec_dey(old(cpu)@),
    {
        cpu.y = cpu.y.wrapping_sub(1);
        cpu.set_zn(cpu.y);
        0
    }

    /// See [`spec_inx`].
    pub fn INX(cpu: &mut cpu6502) -> (r: u8)
        requires
            old(cpu).wf(),
        ensures
            final(cpu).wf(),
            (final(cpu)@, r) == spec_inx(old(cpu)@),
    {
        cpu.x = cpu.x.wrapping_add(1);
        cpu.set_zn(cpu.x);
        0
    }

    /// See [`spec_iny`].
    pub fn INY(cpu: &mut cpu6502) -> (r: u8)
        requires
            old(cpu).wf(),
        ensures
            final(cpu).wf(),
            (final(cpu)@, r) == spec_iny(old(cpu)@),
    {
        cpu.y = cpu.y.wrapping_add(1);
        cpu.set_zn(cpu.y);
        0
    }

    /// See [`spec_lda`].
    pub fn LDA(cpu: &mut cpu6502) -> (r: u8)
        requires
            old(cpu).wf(),
        ensures
            final(cpu).wf(),
            (final(cpu)@, r) == spec_lda(old(cpu)@),
    {
        cpu.fetch();
        cpu.a = cpu.fetched;
        cpu.set_zn(cpu.a);
        1
    }

    /// See [`spec_ldx`].
    pub fn LDX(cpu: &mut cpu6502) -> (r: u8)
        requires
            old(cpu).wf(),
        ensures
            final(cpu).wf(),
            (final(cpu)@, r) == spec_ldx(old(cpu)@),
    {
        cpu.fetch();
        cpu.x = cpu.fetched;
        cpu.set_zn(cpu.x);
        1
    }

    /// See [`spec_ldy`].
    pub fn LDY(cpu: &mut cpu6502) -> (r: u8)
        requires
            old(cpu).wf(),
        ensures
            final(cpu).wf(),
            (final(cpu)@, r) == spec_ldy(old(cpu)@),
    {
        cpu.fetch();
        cpu.y = cpu.fetched;
        cpu.set_zn(cpu.y);
        1
    }

    /// See [`spec_sta`].
    pub fn STA(cpu: &mut cpu6502) -> (r: u8)
        requires
            old(cpu).wf(),
        ensures
            final(cpu).wf(),
            (final(cpu)@, r) == spec_sta(old(cpu)@),
    {
        let v = cpu.a;
        cpu.write(cpu.addr_abs, v);
        0
    }

    /// See [`spec_stx`].
    pub fn STX(cpu: &mut cpu6502) -> (r: u8)
        requires
            old(cpu).wf(),
        ensures
            final(cpu).wf(),
            (final(cpu)@, r) == spec_stx(old(cpu)@),
    {
        let v = cpu.x;
        cpu.write(cpu.addr_abs, v);
        0
    }

    /// See [`spec_sty`].
    pub fn STY(cpu: &mut cpu6502) -> (r: u8)
        requires
            old(cpu).wf(),
        ensures
            final(cpu).wf(),
            (final(cpu)@, r) == spec_sty(old(cpu)@),
    {
        let v = cpu.y;
        cpu.write(cpu.addr_abs, v);
        0
    }

    /// See [`spec_tax`].
    pub fn TAX(cpu: &mut cpu6502) -> (r: u8)
        requires
            old(cpu).wf(),
        ensures
            final(cpu).wf(),
            (final(cpu)@, r) == spec_tax(old(cpu)@),
    {
        cpu.x = cpu.a;
        cpu.set_zn(cpu.x);
        0
    }

    /// See [`spec_tay`].
    pub fn TAY(cpu: &mut cpu6502) -> (r: u8)
        requires
            old(cpu).wf(),
        ensures
            final(cpu).wf(),
            (final(cpu)@, r) == spec_tay(old(cpu)@),
    {
        cpu.y = cpu.a;
        cpu.set_zn(cpu.y);
        0
    }

    /// See [`spec_txa`].
    pub fn TXA(cpu: &mut cpu6502) -> (r: u8)
        requires
            old(cpu).wf(),
        ensures
            final(cpu).wf(),
            (final(cpu)@, r) == spec_txa(old(cpu)@),
    {
        cpu.a = cpu.x;
        cpu.set_zn(cpu.a);
        0
    }

    /// See [`spec_tya`].
    pub fn TYA(cpu: &mut cpu6502) -> (r: u8)
        requires
            old(cpu).wf(),
        ensures
            final(cpu).wf(),
            (final(cpu)@, r) == spec_tya(old(cpu)@),
    {
        cpu.a = cpu.y;
        cpu.set_zn(cpu.a);
        0
    }

    /// See [`spec_tsx`].
    pub fn TSX(cpu: &mut cpu6502) -> (r: u8)
        requires
            old(cpu).wf(),
        ensures
            final(cpu).wf(),
            (final(cpu)@, r) == spec_tsx(old(cpu)@),
    {
        cpu.x = cpu.stkp;
        cpu.set_zn(cpu.x);
        0
    }

    /// See [`spec_txs`].
    pub fn TXS(cpu: &mut cpu6502) -> (r: u8)
        requires
            old(cpu).wf(),
        ensures
            final(cpu).wf(),
            (final(cpu)@, r) == spec_txs(old(cpu)@),
    {
        cpu.stkp = cpu.x;
        0
    }

    /// See [`spec_clc`].
    pub fn CLC(cpu: &mut cpu6502) -> (r: u8)
        requires
            old(cpu).wf(),
        ensures
            final(cpu).wf(),
            (final(cpu)@, r) == spec_clc(old(cpu)@),
    {
        cpu.set_flag(FLAGS6502::C, false);
        0
    }

    /// See [`spec_cld`].
    pub fn CLD(cpu: &mut cpu6502) -> (r: u8)
        requires
            old(cpu).wf(),
        ensures
            final(cpu).wf(),
            (final(cpu)@, r) == spec_cld(old(cpu)@),
    {
        cpu.set_flag(FLAGS6502::D, false);
        0
    }

    /// See [`spec_cli`].
    pub fn CLI(cpu: &mut cpu6502) -> (r: u8)
        requires
            old(cpu).wf(),
        ensures
            final(cpu).wf(),
            (final(cpu)@, r) == spec_cli(old(cpu)@),
    {
        cpu.set_flag(FLAGS6502::I, false);
        0
    }

    /// See [`spec_clv`].
    pub fn CLV(cpu: &mut cpu6502) -> (r: u8)
        requires
            old(cpu).wf(),
        ensures
            final(cpu).wf(),
            (final(cpu)@, r) == spec_clv(old(cpu)@),
    {
        cpu.set_flag(FLAGS6502::V, false);
        0
    }

    /// See [`spec_sec`].
    pub fn SEC(cpu: &mut cpu6502) -> (r: u8)
        requires
            old(cpu).wf(),
        ensures
            final(cpu).wf(),
            (final(cpu)@, r) == spec_sec(old(cpu)@),
    {
        cpu.set_flag(FLAGS6502::C, true);
        0
    }

    /// See [`spec_sed`].
    pub fn SED(cpu: &mut cpu6502) -> (r: u8)
        requires
            old(cpu).wf(),
        ensures
            final(cpu).wf(),
            (final(cpu)@, r) == spec_sed(old(cpu)@),
    {
        cpu.set_flag(FLAGS6502::D, true);
        0
    }

    /// See [`spec_sei`].
    pub fn SEI(cpu: &mut cpu6502) -> (r: u8)
        requires
            old(cpu).wf(),
        ensures
            final(cpu).wf(),
            (final(cpu)@, r) == spec_sei(old(cpu)@),
    {
        cpu.set_flag(FLAGS6502::I, true);
        0
    }

    /// See [`spec_bcc`].
    pub fn BCC(cpu: &mut cpu6502) -> (r: u8)
        requires
            old(cpu).wf(),
        ensures
            final(cpu).wf(),
            (final(cpu)@, r) == spec_bcc(old(cpu)@),
    {
        if cpu.get_flag(FLAGS6502::C) == 0 {
            cpu.branch();
        }
        0
    }

    /// See [`spec_bcs`].
    pub fn BCS(cpu: &mut cpu6502) -> (r: u8)
        requires
            old(cpu).wf(),
        ensures
            final(cpu).wf(),
            (final(cpu)@, r) == spec_bcs(old(cpu)@),
    {
        if cpu.get_flag(FLAGS6502::C) == 1 {
            cpu.branch();
        }
        0
    }

    /// See [`spec_beq`].
    pub fn BEQ(cpu: &mut cpu6502) -> (r: u8)
        requires
            old(cpu).wf(),
        ensures
            final(cpu).wf(),
            (final(cpu)@, r) == spec_beq(old(cpu)@),
    {
        if cpu.get_flag(FLAGS6502::Z) == 1 {
            cpu.branch();
        }
        0
    }

    /// See [`spec_bne`].
    pub fn BNE(cpu: &mut cpu6502) -> (r: u8)
        requires
            old(cpu).wf(),
        ensures
            final(cpu).wf(),
            (final(cpu)@, r) == spec_bne(old(cpu)@),
    {
        if cpu.get_flag(FLAGS6502::Z) == 0 {
            cpu.branch();
        }
        0
    }

    /// See [`spec_bmi`].
    pub fn BMI(cpu: &mut cpu6502) -> (r: u8)
        requires
            old(cpu).wf(),
        ensures
            final(cpu).wf(),
            (final(cpu)@, r) == spec_bmi(old(cpu)@),
    {
        if cpu.get_flag(FLAGS6502::N) == 1 {
            cpu.branch();
        }
        0
    }

    /// See [`spec_bpl`].
    pub fn BPL(cpu: &mut cpu6502) -> (r: u8)
        requires
            old(cpu).wf(),
        ensures
            final(cpu).wf(),
            (final(cpu)@, r) == spec_bpl(old(cpu)@),
    {
        if cpu.get_flag(FLAGS6502::N) == 0 {
            cpu.branch();
        }
        0
    }

    /// See [`spec_bvs`].
    pub fn BVS(cpu: &mut cpu6502) -> (r: u8)
        requires
            old(cpu).wf(),
        ensures
            final(cpu).wf(),
            (final(cpu)@, r) == spec_bvs(old(cpu)@),
    {
        if cpu.get_flag(FLAGS6502::V) == 1 {
            cpu.branch();
        }
        0
    }

    /// See [`spec_bvc`].
    pub fn BVC(cpu: &mut cpu6502) -> (r: u8)
        requires
            old(cpu).wf(),
        ensures
            final(cpu).wf(),
            (final(cpu)@, r) == spec_bvc(old(cpu)@),
    {
        if cpu.get_flag(FLAGS6502::V) == 0 {
            cpu.branch();
        }
        0
    }

    /// See [`spec_jmp`].
    pub fn JMP(cpu: &mut cpu6502) -> (r: u8)
        requires
            old(cpu).wf(),
        ensures
            final(cpu).wf(),
            (final(cpu)@, r) == spec_jmp(old(cpu)@),
    {
        cpu.pc = cpu.addr_abs;
        0
    }

    /// See [`spec_jsr`].
    pub fn JSR(cpu: &mut cpu6502) -> (r: u8)
        requires
            old(cpu).wf(),
        ensures
            final(cpu).wf(),
            (final(cpu)@, r) == spec_jsr(old(cpu)@),
    {
        cpu.pc = cpu.pc.wrapping_sub(1);
        let hi = ((cpu.pc >> 8) & 0x00FF) as u8;
        cpu.stack_push(hi);
        let lo = (cpu.pc & 0x00FF) as u8;
        cpu.stack_push(lo);
        cpu.pc = cpu.addr_abs;
        0
    }

    /// See [`spec_rts`].
    pub fn RTS(cpu: &mut cpu6502) -> (r: u8)
        requires
            old(cpu).wf(),
        ensures
            final(cpu).wf(),
            (final(cpu)@, r) == spec_rts(old(cpu)@),
    {
        let lo = cpu.stack_pop();
        let hi = cpu.stack_pop();
        cpu.pc = ((hi as u16) << 8) | (lo as u16);
        cpu.pc = cpu.pc.wrapping_add(1);
        0
    }

    /// See [`spec_rti`].
    pub fn RTI(cpu: &mut cpu6502) -> (r: u8)
        requires
            old(cpu).wf(),
        ensures
            final(cpu).wf(),
            (final(cpu)@, r) == spec_rti(old(cpu)@),
    {
        let s = cpu.stack_pop();
        cpu.status = s & !0x10u8 & !0x20u8;
        let lo = cpu.stack_pop();
        let hi = cpu.stack_pop();
        cpu.pc = ((hi as u16) << 8) | (lo as u16);
        0
    }

    /// See [`spec_brk`].
    pub fn BRK(cpu: &mut cpu6502) -> (r: u8)
        requires
            old(cpu).wf(),
        ensures
            final(cpu).wf(),
            (final(cpu)@, r) == spec_brk(old(cpu)@),
    {
        cpu.pc = cpu.pc.wrapping_add(1);
        cpu.set_flag(FLAGS6502::I, true);
        let hi = ((cpu.pc >> 8) & 0x00FF) as u8;
        cpu.stack_push(hi);
        let lo = (cpu.pc & 0x00FF) as u8;
        cpu.stack_push(lo);
        cpu.set_flag(FLAGS6502::B, true);
        let s = cpu.status;
        cpu.stack_push(s);
        cpu.set_flag(FLAGS6502::B, false);
        let vlo = cpu.read(0xFFFE);
        let vhi = cpu.read(0xFFFF);
        cpu.pc = (vlo as u16) | ((vhi as u16) << 8);
        0
    }

    /// See [`spec_pha`].
    pub fn PHA(cpu: &mut cpu6502) -> (r: u8)
        requires
            old(cpu).wf(),
        ensures
            final(cpu).wf(),
            (final(cpu)@, r) == spec_pha(old(cpu)@),
    {
        let v = cpu.a;
        cpu.stack_push(v);
        0
    }

    /// See [`spec_php`].
    pub fn PHP(cpu: &mut cpu6502) -> (r: u8)
        requires
            old(cpu).wf(),
        ensures
            final(cpu).wf(),
            (final(cpu)@, r) == spec_php(old(cpu)@),
    {
        let v = cpu.status | flag_mask(FLAGS6502::B) | flag_mask(FLAGS6502::U);
        cpu.stack_push(v);
        cpu.set_flag(FLAGS6502::B, false);
        cpu.set_flag(FLAGS6502::U, false);
        0
    }

    /// See [`spec_pla`].
    pub fn PLA(cpu: &mut cpu6502) -> (r: u8)
        requires
            old(cpu).wf(),
        ensures
            final(cpu).wf(),
            (final(cpu)@, r) == spec_pla(old(cpu)@),
    {
        cpu.a = cpu.stack_pop();
        cpu.set_zn(cpu.a);
        0
    }

    /// See [`spec_plp`].
    pub fn PLP(cpu: &mut cpu6502) -> (r: u8)
        requires
            old(cpu).wf(),
        ensures
            final(cpu).wf(),
            (final(cpu)@, r) == spec_plp(old(cpu)@),
    {
        cpu.status = cpu.stack_pop();
        cpu.set_flag(FLAGS6502::U, true);
        0
    }

    /// See [`spec_nop`].
    pub fn NOP(cpu: &mut cpu6502) -> (r: u8)
        requires
            old(cpu).wf(),
        ensures
            final(cpu).wf(),
            (final(cpu)@, r) == spec_nop(old(cpu)@),
    {
        if cpu.opcode == 0x1C || cpu.opcode == 0x3C || cpu.opcode == 0x5C || cpu.opcode == 0x7C
            || cpu.opcode == 0xDC || cpu.opcode == 0xFC {
            1
        } else {
            0
        }
    }

    /// See [`spec_xxx`].
    pub fn XXX(cpu: &mut cpu6502) -> (r: u8)
        requires
            old(cpu).wf(),
        ensures
            final(cpu).wf(),
            (final(cpu)@, r) == spec_xxx(old(cpu)@),
    {
        0
    }

}

} // verus!
