//! Laws of the emulator: the invariants and round-trip properties that
//! hold of the processor model, proved from the specification functions
//! that the executable routines are verified against.
use vstd::prelude::*;
use crate::flags::FLAGS6502;
use crate::flags::spec_flag_set;
use crate::model::CpuModel;
use crate::model::m_read;
use crate::model::spec_pop;
use crate::model::spec_push;
use crate::model::wadd16;
use crate::step::spec_clock;
use crate::step::spec_step_instr;

verus! {

/// The architectural registers are 8-bit and PC is 16-bit, and the cycle
/// counter is never negative: these bounds hold of every reachable state
/// by the very types of the model.
pub proof fn lemma_register_widths(m: CpuModel)
    ensures
        0 <= m.a < 0x100,
        0 <= m.x < 0x100,
        0 <= m.y < 0x100,
        0 <= m.stkp < 0x100,
        0 <= m.status < 0x100,
        0 <= m.pc < 0x10000,
        m.cycles >= 0,
{
}

proof fn lemma_or_keeps_bit20(x: u8)
    by (bit_vector)
    ensures
        (x | 0x20) & 0x20u8 != 0,
{
}

/// After every tick the unused status bit U is 1: a tick that starts an
/// instruction forces it on as the instruction retires, and a tick that
/// only burns a cycle leaves the status word alone.
pub proof fn lemma_unused_flag_after_clock(m: CpuModel)
    requires
        m.cycles == 0 || spec_flag_set(m.status, FLAGS6502::U),
    ensures
        spec_flag_set(spec_clock(m).status, FLAGS6502::U),
{
    if m.cycles == 0 {
        let opcode = m_read(m, m.pc);
        let instr = crate::isa::spec_instr(opcode);
        let m1 = CpuModel {
            opcode: opcode,
            status: crate::flags::spec_set_flag(m.status, FLAGS6502::U, true),
            pc: wadd16(m.pc, 1),
            cycles: instr.cycles,
            ..m
        };
        let (m2, e1) = crate::step::spec_apply_mode(instr.mode, m1);
        let (m3, e2) = crate::step::spec_apply_op(instr.op, m2);
        lemma_or_keeps_bit20(m3.status);
    }
}

/// A tick in the middle of an instruction only counts the tick and
/// consumes one cycle: the architectural state does not change.
pub proof fn lemma_tick_mid_instruction(m: CpuModel)
    requires
        m.cycles != 0,
    ensures
        spec_clock(m).a == m.a,
        spec_clock(m).x == m.x,
        spec_clock(m).y == m.y,
        spec_clock(m).stkp == m.stkp,
        spec_clock(m).pc == m.pc,
        spec_clock(m).status == m.status,
        spec_clock(m).ram == m.ram,
        spec_clock(m).cycles == m.cycles - 1,
{
}

/// Push then pop on the hardware stack returns the same byte and
/// restores the stack pointer, and the rest of the registers never
/// moved.
pub proof fn lemma_stack_push_pop(m: CpuModel, v: u8)
    requires
        m.wf(),
    ensures
        ({
            let m1 = spec_push(m, v);
            let (m2, r) = spec_pop(m1);
            r == v && m2.stkp == m.stkp && m2.pc == m.pc && m2.a == m.a
                && m2.status == m.status
        }),
{
}

proof fn lemma_split16(p: u16)
    by (bit_vector)
    ensures
        (((((p >> 8) & 0x00FF) as u8) as u16) << 8) | (((p & 0x00FF) as u8) as u16) == p,
{
}

/// JSR followed by executing RTS at its target restores PC to the
/// address just past the three bytes of the JSR instruction: JSR pushes
/// the address of its own last byte, and RTS resumes one past what it
/// pops.
pub proof fn lemma_jsr_rts_round_trip(m0: CpuModel)
    requires
        m0.wf(),
        m_read(m0, m0.pc) == 0x20,
        m_read(spec_step_instr(m0), spec_step_instr(m0).pc) == 0x60,
    ensures
        spec_step_instr(spec_step_instr(m0)).pc == wadd16(m0.pc, 3),
{
    let m1 = spec_step_instr(m0);
    let pc_after = wadd16(wadd16(m0.pc, 1), 2);
    let ret = crate::model::wsub16(pc_after, 1);
    assert(ret == wadd16(m0.pc, 2));
    lemma_split16(ret);
    let m2 = spec_step_instr(m1);
    assert(m2.pc == wadd16(ret, 1));
    assert(wadd16(ret, 1) == wadd16(m0.pc, 3));
}

proof fn lemma_php_plp_status_bits(s: u8, t: u8)
    by (bit_vector)
    requires
        t == ((((s | 0x20) | 0x10) | 0x20) | 0x20) | 0x20,
    ensures
        t & 0x01 == s & 0x01,
        t & 0x02 == s & 0x02,
        t & 0x04 == s & 0x04,
        t & 0x08 == s & 0x08,
        t & 0x40 == s & 0x40,
        t & 0x80 == s & 0x80,
        t & 0x20u8 != 0,
        t & 0x10u8 != 0,
{
}

/// PHP followed by PLP restores every status flag except B and U: C, Z,
/// I, D, V and N come back exactly, and U is forced to 1 on the pop.
/// (The byte PHP pushes carries B set, and PLP restores it as pushed, so
/// B reads back 1 whatever it was before.)
pub proof fn lemma_php_plp_round_trip(m0: CpuModel)
    requires
        m0.wf(),
        m_read(m0, m0.pc) == 0x08,
        m_read(spec_step_instr(m0), spec_step_instr(m0).pc) == 0x28,
    ensures
        ({
            let m2 = spec_step_instr(spec_step_instr(m0));
            spec_flag_set(m2.status, FLAGS6502::C) == spec_flag_set(m0.status, FLAGS6502::C)
                && spec_flag_set(m2.status, FLAGS6502::Z) == spec_flag_set(
                m0.status,
                FLAGS6502::Z,
            )
                && spec_flag_set(m2.status, FLAGS6502::I) == spec_flag_set(
                m0.status,
                FLAGS6502::I,
            )
                && spec_flag_set(m2.status, FLAGS6502::D) == spec_flag_set(
                m0.status,
                FLAGS6502::D,
            )
                && spec_flag_set(m2.status, FLAGS6502::V) == spec_flag_set(
                m0.status,
                FLAGS6502::V,
            )
                && spec_flag_set(m2.status, FLAGS6502::N) == spec_flag_set(
                m0.status,
                FLAGS6502::N,
            )
                && spec_flag_set(m2.status, FLAGS6502::U)
        }),
{
    let m1 = spec_step_instr(m0);
    let m2 = spec_step_instr(m1);
    lemma_php_plp_status_bits(m0.status, m2.status);
}

proof fn lemma_zn_bits(p: u8, z: bool, nb: bool)
    by (bit_vector)
    ensures
        ({
            let s1 = if z {
                p | 0x02u8
            } else {
                p & !0x02u8
            };
            let s2 = if nb {
                s1 | 0x80u8
            } else {
                s1 & !0x80u8
            };
            ((s2 & 0x02u8 != 0) <==> z) && ((s2 & 0x80u8 != 0) <==> nb)
        }),
{
}

/// Flag derivation: wherever an operation derives Z and N from a
/// result byte, Z reads back as "the result is zero" and N as bit 7 of
/// the result, whatever the rest of the status word held.
pub proof fn lemma_flag_derivation(p: u8, v: u8)
    ensures
        spec_flag_set(crate::model::spec_set_zn(p, v), FLAGS6502::Z) == (v == 0),
        spec_flag_set(crate::model::spec_set_zn(p, v), FLAGS6502::N) == (v & 0x80 != 0),
{
    lemma_zn_bits(p, v == 0, v & 0x80 != 0);
}

proof fn lemma_adc_bits(a: u8, v: u8, c: u8, p: u8)
    by (bit_vector)
    requires
        c <= 1,
    ensures
        ({
            let t = (a + v + c) as u16;
            let r = (t & 0x00FF) as u8;
            let s1 = if t > 255 {
                p | 0x01u8
            } else {
                p & !0x01u8
            };
            let s2 = if (t & 0x00FF) == 0 {
                s1 | 0x02u8
            } else {
                s1 & !0x02u8
            };
            let s3 = if (!((a as u16) ^ (v as u16)) & ((a as u16) ^ t)) & 0x0080 != 0 {
                s2 | 0x40u8
            } else {
                s2 & !0x40u8
            };
            let s4 = if t & 0x0080 != 0 {
                s3 | 0x80u8
            } else {
                s3 & !0x80u8
            };
            r == (a + v + c) % 256 && ((s4 & 0x01u8 != 0) <==> (a + v + c > 255)) && ((s4
                & 0x40u8 != 0) <==> ((a ^ r) & (v ^ r) & 0x80u8 != 0)) && ((s4 & 0x02u8 != 0)
                <==> (r == 0)) && ((s4 & 0x80u8 != 0) <==> (r & 0x80u8 != 0))
        }),
{
}

/// ADC arithmetic: for every accumulator value, operand and incoming
/// carry, the add leaves `(A + M + C) mod 256` in the accumulator, sets
/// the carry exactly when the sum exceeds 255, sets overflow exactly by
/// the signed-overflow formula over the result, and derives Z and N
/// from the result byte.
pub proof fn lemma_adc_carry_overflow(m: CpuModel)
    requires
        m.wf(),
    ensures
        ({
            let (m1, e) = crate::ops::spec_adc(m);
            let v = crate::cpu::spec_fetch(m).1;
            let c = crate::flags::spec_get_flag(m.status, FLAGS6502::C);
            let sum = m.a + v + c;
            m1.a == sum % 256 && spec_flag_set(m1.status, FLAGS6502::C) == (sum > 255)
                && spec_flag_set(m1.status, FLAGS6502::V) == ((m.a ^ m1.a) & (v ^ m1.a) & 0x80
                != 0) && spec_flag_set(m1.status, FLAGS6502::Z) == (m1.a == 0) && spec_flag_set(
                m1.status,
                FLAGS6502::N,
            ) == (m1.a & 0x80 != 0)
        }),
{
    let v = crate::cpu::spec_fetch(m).1;
    let c = crate::flags::spec_get_flag(m.status, FLAGS6502::C);
    lemma_adc_bits(m.a, v, c, crate::cpu::spec_fetch(m).0.status);
}

proof fn lemma_or20_keeps_low_flags(s: u8)
    by (bit_vector)
    ensures
        (s | 0x20) & 0x01u8 == s & 0x01u8,
        (s | 0x20) & 0x02u8 == s & 0x02u8,
        (s | 0x20) & 0x40u8 == s & 0x40u8,
        (s | 0x20) & 0x80u8 == s & 0x80u8,
{
}

proof fn lemma_and_01(x: u8, y: u8)
    by (bit_vector)
    requires
        x <= 1,
        y <= 1,
    ensures
        x & y == (if x == 1 && y == 1 {
            1u8
        } else {
            0u8
        }),
{
}

/// Whether an opcode byte is one of the eight conditional branches.
pub open spec fn spec_is_branch_opcode(op: u8) -> bool {
    op == 0x10 || op == 0x30 || op == 0x50 || op == 0x70 || op == 0x90 || op == 0xB0 || op == 0xD0
        || op == 0xF0
}

/// Whether the branch at PC takes, given the flag it tests.
pub open spec fn spec_branch_takes(m: CpuModel) -> bool {
    let op = m_read(m, m.pc);
    if op == 0x10 {
        !spec_flag_set(m.status, FLAGS6502::N)
    } else if op == 0x30 {
        spec_flag_set(m.status, FLAGS6502::N)
    } else if op == 0x50 {
        !spec_flag_set(m.status, FLAGS6502::V)
    } else if op == 0x70 {
        spec_flag_set(m.status, FLAGS6502::V)
    } else if op == 0x90 {
        !spec_flag_set(m.status, FLAGS6502::C)
    } else if op == 0xB0 {
        spec_flag_set(m.status, FLAGS6502::C)
    } else if op == 0xD0 {
        !spec_flag_set(m.status, FLAGS6502::Z)
    } else {
        spec_flag_set(m.status, FLAGS6502::Z)
    }
}

/// The destination of the branch at PC: the address past the two-byte
/// instruction plus the sign-extended displacement, with 16-bit wrap.
pub open spec fn spec_branch_dest(m: CpuModel) -> u16 {
    let v = m_read(m, wadd16(m.pc, 1));
    let rel = if v & 0x80 != 0 {
        (v as u16) | 0xFF00
    } else {
        v as u16
    };
    wadd16(wadd16(m.pc, 2), rel)
}

/// Branch cycle accounting: a branch instruction schedules 2 cycles
/// when its condition is false, 3 when it takes to the same page, and
/// 4 when it takes across a page boundary.
pub proof fn lemma_branch_cycle_accounting(m: CpuModel)
    requires
        m.wf(),
        spec_is_branch_opcode(m_read(m, m.pc)),
    ensures
        !spec_branch_takes(m) ==> spec_step_instr(m).cycles == 2,
        spec_branch_takes(m) && (spec_branch_dest(m) & 0xFF00) == (wadd16(m.pc, 2) & 0xFF00)
            ==> spec_step_instr(m).cycles == 3,
        spec_branch_takes(m) && (spec_branch_dest(m) & 0xFF00) != (wadd16(m.pc, 2) & 0xFF00)
            ==> spec_step_instr(m).cycles == 4,
{
    lemma_or20_keeps_low_flags(m.status);
    lemma_and_01(0, 0);
    assert(wadd16(wadd16(m.pc, 1), 1) == wadd16(m.pc, 2));
}

/// The indirect-JMP hardware bug: when the pointer operand of an
/// indirect jump has low byte 0xFF, the high byte of the target is
/// read from the start of the pointer's own page, not from the next
/// page.
pub proof fn lemma_indirect_jmp_bug(m: CpuModel)
    requires
        m.wf(),
        m_read(m, m.pc) == 0x6C,
        m_read(m, wadd16(m.pc, 1)) == 0xFF,
    ensures
        ({
            let ptr_hi = m_read(m, wadd16(m.pc, 2)) as u16;
            let ptr = (ptr_hi << 8) | 0x00FF;
            spec_step_instr(m).pc == ((m_read(m, ptr & 0xFF00) as u16) << 8) | (m_read(
                m,
                ptr,
            ) as u16)
        }),
{
    assert(wadd16(wadd16(m.pc, 1), 1) == wadd16(m.pc, 2));
}

} // verus!
