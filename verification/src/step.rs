//! The per-tick execution loop and the three hardware control signals.
//! Each tick either starts a new instruction, dispatching its addressing
//! mode and operation from the instruction table, or burns one remaining
//! cycle of the instruction in flight.
use vstd::prelude::*;
use vstd::wrapping::u32_specs;
use crate::addressing::spec_imp;
use crate::addressing::spec_imm;
use crate::addressing::spec_zp0;
use crate::addressing::spec_zpx;
use crate::addressing::spec_zpy;
use crate::addressing::spec_rel;
use crate::addressing::spec_abs;
use crate::addressing::spec_abx;
use crate::addressing::spec_aby;
use crate::addressing::spec_ind;
use crate::addressing::spec_izx;
use crate::addressing::spec_izy;
use crate::cpu::cpu6502;
use crate::flags::FLAGS6502;
use crate::flags::spec_get_flag;
use crate::isa::Instr;
use crate::isa::Mode;
use crate::isa::Op;
use crate::isa::lookup;
use crate::isa::spec_instr;
use crate::model::CpuModel;
use crate::model::m_read;
use crate::model::m_set_flag;
use crate::model::spec_push;
use crate::model::wadd16;
use crate::model::wadd8;
use crate::model::wsub8;
use crate::ops::spec_adc;
use crate::ops::spec_and_op;
use crate::ops::spec_asl;
use crate::ops::spec_bcc;
use crate::ops::spec_bcs;
use crate::ops::spec_beq;
use crate::ops::spec_bit;
use crate::ops::spec_bmi;
use crate::ops::spec_bne;
use crate::ops::spec_bpl;
use crate::ops::spec_brk;
use crate::ops::spec_bvc;
use crate::ops::spec_bvs;
use crate::ops::spec_clc;
use crate::ops::spec_cld;
use crate::ops::spec_cli;
use crate::ops::spec_clv;
use crate::ops::spec_cmp;
use crate::ops::spec_cpx;
use crate::ops::spec_cpy;
use crate::ops::spec_dec;
use crate::ops::spec_dex;
use crate::ops::spec_dey;
use crate::ops::spec_eor;
use crate::ops::spec_inc;
use crate::ops::spec_inx;
use crate::ops::spec_iny;
use crate::ops::spec_jmp;
use crate::ops::spec_jsr;
use crate::ops::spec_lda;
use crate::ops::spec_ldx;
use crate::ops::spec_ldy;
use crate::ops::spec_lsr;
use crate::ops::spec_nop;
use crate::ops::spec_ora;
use crate::ops::spec_pha;
use crate::ops::spec_php;
use crate::ops::spec_pla;
use crate::ops::spec_plp;
use crate::ops::spec_rol;
use crate::ops::spec_ror;
use crate::ops::spec_rti;
use crate::ops::spec_rts;
use crate::ops::spec_sbc;
use crate::ops::spec_sec;
use crate::ops::spec_sed;
use crate::ops::spec_sei;
use crate::ops::spec_sta;
use crate::ops::spec_stx;
use crate::ops::spec_sty;
use crate::ops::spec_tax;
use crate::ops::spec_tay;
use crate::ops::spec_tsx;
use crate::ops::spec_txa;
use crate::ops::spec_txs;
use crate::ops::spec_tya;
use crate::ops::spec_xxx;

verus! {

/// Dispatches an addressing mode on the model.
pub open spec fn spec_apply_mode(mode: Mode, m: CpuModel) -> (CpuModel, u8) {
    match mode {
        Mode::IMP => spec_imp(m),
        Mode::IMM => spec_imm(m),
        Mode::ZP0 => spec_zp0(m),
        Mode::ZPX => spec_zpx(m),
        Mode::ZPY => spec_zpy(m),
        Mode::REL => spec_rel(m),
        Mode::ABS => spec_abs(m),
        Mode::ABX => spec_abx(m),
        Mode::ABY => spec_aby(m),
        Mode::IND => spec_ind(m),
        Mode::IZX => spec_izx(m),
        Mode::IZY => spec_izy(m),
    }
}

/// Dispatches an operation on the model.
pub open spec fn spec_apply_op(op: Op, m: CpuModel) -> (CpuModel, u8) {
    match op {
        Op::ADC => spec_adc(m),
        Op::AND => spec_and_op(m),
        Op::ASL => spec_asl(m),
        Op::BCC => spec_bcc(m),
        Op::BCS => spec_bcs(m),
        Op::BEQ => spec_beq(m),
        Op::BIT => spec_bit(m),
        Op::BMI => spec_bmi(m),
        Op::BNE => spec_bne(m),
        Op::BPL => spec_bpl(m),
        Op::BRK => spec_brk(m),
        Op::BVC => spec_bvc(m),
        Op::BVS => spec_bvs(m),
        Op::CLC => spec_clc(m),
        Op::CLD => spec_cld(m),
        Op::CLI => spec_cli(m),
        Op::CLV => spec_clv(m),
        Op::CMP => spec_cmp(m),
        Op::CPX => spec_cpx(m),
        Op::CPY => spec_cpy(m),
        Op::DEC => spec_dec(m),
        Op::DEX => spec_dex(m),
        Op::DEY => spec_dey(m),
        Op::EOR => spec_eor(m),
        Op::INC => spec_inc(m),
        Op::INX => spec_inx(m),
        Op::INY => spec_iny(m),
        Op::JMP => spec_jmp(m),
        Op::JSR => spec_jsr(m),
        Op::LDA => spec_lda(m),
        Op::LDX => spec_ldx(m),
        Op::LDY => spec_ldy(m),
        Op::LSR => spec_lsr(m),
        Op::NOP => spec_nop(m),
        Op::ORA => spec_ora(m),
        Op::PHA => spec_pha(m),
        Op::PHP => spec_php(m),
        Op::PLA => spec_pla(m),
        Op::PLP => spec_plp(m),
        Op::ROL => spec_rol(m),
        Op::ROR => spec_ror(m),
        Op::RTI => spec_rti(m),
        Op::RTS => spec_rts(m),
        Op::SBC => spec_sbc(m),
        Op::SEC => spec_sec(m),
        Op::SED => spec_sed(m),
        Op::SEI => spec_sei(m),
        Op::STA => spec_sta(m),
        Op::STX => spec_stx(m),
        Op::STY => spec_sty(m),
        Op::TAX => spec_tax(m),
        Op::TAY => spec_tay(m),
        Op::TSX => spec_tsx(m),
        Op::TXA => spec_txa(m),
        Op::TXS => spec_txs(m),
        Op::TYA => spec_tya(m),
        Op::XXX => spec_xxx(m),
    }
}

/// One whole instruction, as performed by the tick that starts it: fetch
/// the opcode at PC, set the unused flag, schedule the base cycle count,
/// run the addressing mode and then the operation, and charge the extra
/// cycle exactly when both agree one may be needed (the bitwise AND of
/// the two 0/1 returns), setting the unused flag once more.
pub open spec fn spec_step_instr(m: CpuModel) -> CpuModel {
    let opcode = m_read(m, m.pc);
    let instr = spec_instr(opcode);
    let m1 = CpuModel {
        opcode: opcode,
        status: crate::flags::spec_set_flag(m.status, FLAGS6502::U, true),
        pc: wadd16(m.pc, 1),
        cycles: instr.cycles,
        ..m
    };
    let (m2, extra_mode) = spec_apply_mode(instr.mode, m1);
    let (m3, extra_op) = spec_apply_op(instr.op, m2);
    CpuModel {
        cycles: wadd8(m3.cycles, extra_mode & extra_op),
        status: crate::flags::spec_set_flag(m3.status, FLAGS6502::U, true),
        ..m3
    }
}

/// One master clock tick: start a new instruction when none is in
/// flight, then count the tick and consume one cycle.
pub open spec fn spec_clock(m: CpuModel) -> CpuModel {
    let mm = if m.cycles == 0 {
        spec_step_instr(m)
    } else {
        m
    };
    CpuModel {
        clock_count: u32_specs::wrapping_add(mm.clock_count, 1),
        cycles: wsub8(mm.cycles, 1),
        ..mm
    }
}

/// The reset signal: load PC from the reset vector, clear the registers
/// and the instruction scratch state, set the stack pointer to 0xFD and
/// the status to just the unused flag, and impose an 8-cycle delay.
pub open spec fn spec_reset(m: CpuModel) -> CpuModel {
    let lo = m_read(m, 0xFFFC) as u16;
    let hi = m_read(m, 0xFFFD) as u16;
    CpuModel {
        pc: (hi << 8) | lo,
        a: 0,
        x: 0,
        y: 0,
        stkp: 0xFD,
        status: crate::flags::spec_flag_mask(FLAGS6502::U),
        addr_rel: 0,
        addr_abs: 0,
        fetched: 0,
        cycles: 8,
        ..m
    }
}

/// The maskable interrupt request: ignored while I is set; otherwise
/// push PC high then low, push the status with B clear and U and I set,
/// and load PC from the IRQ vector, taking 7 cycles.
pub open spec fn spec_irq(m: CpuModel) -> CpuModel {
    if spec_get_flag(m.status, FLAGS6502::I) == 0 {
        let m1 = spec_push(m, ((m.pc >> 8) & 0x00FF) as u8);
        let m2 = spec_push(m1, (m.pc & 0x00FF) as u8);
        let m3 = m_set_flag(m2, FLAGS6502::B, false);
        let m4 = m_set_flag(m3, FLAGS6502::U, true);
        let m5 = m_set_flag(m4, FLAGS6502::I, true);
        let m6 = spec_push(m5, m5.status);
        let lo = m_read(m6, 0xFFFE) as u16;
        let hi = m_read(m6, 0xFFFF) as u16;
        CpuModel { pc: (hi << 8) | lo, addr_abs: 0xFFFE, cycles: 7, ..m6 }
    } else {
        m
    }
}

/// The non-maskable interrupt: never masked; the same push sequence as
/// IRQ, vectoring through 0xFFFA and taking 8 cycles.
pub open spec fn spec_nmi(m: CpuModel) -> CpuModel {
    let m1 = spec_push(m, ((m.pc >> 8) & 0x00FF) as u8);
    let m2 = spec_push(m1, (m.pc & 0x00FF) as u8);
    let m3 = m_set_flag(m2, FLAGS6502::B, false);
    let m4 = m_set_flag(m3, FLAGS6502::U, true);
    let m5 = m_set_flag(m4, FLAGS6502::I, true);
    let m6 = spec_push(m5, m5.status);
    let lo = m_read(m6, 0xFFFA) as u16;
    let hi = m_read(m6, 0xFFFB) as u16;
    CpuModel { pc: (hi << 8) | lo, addr_abs: 0xFFFA, cycles: 8, ..m6 }
}

impl cpu6502 {
    /// Advances the emulation by one master clock tick.
    #[verifier::rlimit(60)]
    pub fn clock(&mut self)
        requires
            old(self).wf(),
        ensures
            final(self).wf(),
            final(self)@ == spec_clock(old(self)@),
    {
        if self.cycles == 0 {
            self.opcode = self.read(self.pc);
            self.set_flag(FLAGS6502::U, true);
            self.pc = self.pc.wrapping_add(1);
            let instr = lookup(self.opcode);
            self.cycles = instr.cycles;
            let additional_cycle1: u8 = match instr.mode {
                Mode::IMP => cpu6502::IMP(self),
                Mode::IMM => cpu6502::IMM(self),
                Mode::ZP0 => cpu6502::ZP0(self),
                Mode::ZPX => cpu6502::ZPX(self),
                Mode::ZPY => cpu6502::ZPY(self),
                Mode::REL => cpu6502::REL(self),
                Mode::ABS => cpu6502::ABS(self),
                Mode::ABX => cpu6502::ABX(self),
                Mode::ABY => cpu6502::ABY(self),
                Mode::IND => cpu6502::IND(self),
                Mode::IZX => cpu6502::IZX(self),
                Mode::IZY => cpu6502::IZY(self),
            };
            let additional_cycle2: u8 = match instr.op {
                Op::ADC => cpu6502::ADC(self),
                Op::AND => cpu6502::AND(self),
                Op::ASL => cpu6502::ASL(self),
                Op::BCC => cpu6502::BCC(self),
                Op::BCS => cpu6502::BCS(self),
                Op::BEQ => cpu6502::BEQ(self),
                Op::BIT => cpu6502::BIT(self),
                Op::BMI => cpu6502::BMI(self),
                Op::BNE => cpu6502::BNE(self),
                Op::BPL => cpu6502::BPL(self),
                Op::BRK => cpu6502::BRK(self),
                Op::BVC => cpu6502::BVC(self),
                Op::BVS => cpu6502::BVS(self),
                Op::CLC => cpu6502::CLC(self),
                Op::CLD => cpu6502::CLD(self),
                Op::CLI => cpu6502::CLI(self),
                Op::CLV => cpu6502::CLV(self),
                Op::CMP => cpu6502::CMP(self),
                Op::CPX => cpu6502::CPX(self),
                Op::CPY => cpu6502::CPY(self),
                Op::DEC => cpu6502::DEC(self),
                Op::DEX => cpu6502::DEX(self),
                Op::DEY => cpu6502::DEY(self),
                Op::EOR => cpu6502::EOR(self),
                Op::INC => cpu6502::INC(self),
                Op::INX => cpu6502::INX(self),
                Op::INY => cpu6502::INY(self),
                Op::JMP => cpu6502::JMP(self),
                Op::JSR => cpu6502::JSR(self),
                Op::LDA => cpu6502::LDA(self),
                Op::LDX => cpu6502::LDX(self),
                Op::LDY => cpu6502::LDY(self),
                Op::LSR => cpu6502::LSR(self),
                Op::NOP => cpu6502::NOP(self),
                Op::ORA => cpu6502::ORA(self),
                Op::PHA => cpu6502::PHA(self),
                Op::PHP => cpu6502::PHP(self),
                Op::PLA => cpu6502::PLA(self),
                Op::PLP => cpu6502::PLP(self),
                Op::ROL => cpu6502::ROL(self),
                Op::ROR => cpu6502::ROR(self),
                Op::RTI => cpu6502::RTI(self),
                Op::RTS => cpu6502::RTS(self),
                Op::SBC => cpu6502::SBC(self),
                Op::SEC => cpu6502::SEC(self),
                Op::SED => cpu6502::SED(self),
                Op::SEI => cpu6502::SEI(self),
                Op::STA => cpu6502::STA(self),
                Op::STX => cpu6502::STX(self),
                Op::STY => cpu6502::STY(self),
                Op::TAX => cpu6502::TAX(self),
                Op::TAY => cpu6502::TAY(self),
                Op::TSX => cpu6502::TSX(self),
                Op::TXA => cpu6502::TXA(self),
                Op::TXS => cpu6502::TXS(self),
                Op::TYA => cpu6502::TYA(self),
                Op::XXX => cpu6502::XXX(self),
            };
            self.cycles = self.cycles.wrapping_add(additional_cycle1 & additional_cycle2);
            self.set_flag(FLAGS6502::U, true);
        }
        self.clock_count = self.clock_count.wrapping_add(1);
        self.cycles = self.cycles.wrapping_sub(1);
    }

    /// Services the reset signal.
    pub fn reset(&mut self)
        requires
            old(self).wf(),
        ensures
            final(self).wf(),
            final(self)@ == spec_reset(old(self)@),
    {
        self.addr_abs = 0xFFFC;
        let lo = self.read(self.addr_abs) as u16;
        let hi = self.read(self.addr_abs + 1) as u16;
        self.pc = (hi << 8) | lo;
        self.a = 0;
        self.x = 0;
        self.y = 0;
        self.stkp = 0xFD;
        self.status = crate::flags::flag_mask(FLAGS6502::U);
        self.addr_rel = 0x0000;
        self.addr_abs = 0x0000;
        self.fetched = 0x00;
        self.cycles = 8;
    }

    /// Services a maskable interrupt request.
    pub fn irq(&mut self)
        requires
            old(self).wf(),
        ensures
            final(self).wf(),
            final(self)@ == spec_irq(old(self)@),
    {
        if self.get_flag(FLAGS6502::I) == 0 {
            let hi = ((self.pc >> 8) & 0x00FF) as u8;
            self.stack_push(hi);
            let lo = (self.pc & 0x00FF) as u8;
            self.stack_push(lo);
            self.set_flag(FLAGS6502::B, false);
            self.set_flag(FLAGS6502::U, true);
            self.set_flag(FLAGS6502::I, true);
            let s = self.status;
            self.stack_push(s);
            self.addr_abs = 0xFFFE;
            let lo2 = self.read(self.addr_abs) as u16;
            let hi2 = self.read(self.addr_abs + 1) as u16;
            self.pc = (hi2 << 8) | lo2;
            self.cycles = 7;
        }
    }

    /// Services a non-maskable interrupt.
    pub fn nmi(&mut self)
        requires
            old(self).wf(),
        ensures
            final(self).wf(),
            final(self)@ == spec_nmi(old(self)@),
    {
        let hi = ((self.pc >> 8) & 0x00FF) as u8;
        self.stack_push(hi);
        let lo = (self.pc & 0x00FF) as u8;
        self.stack_push(lo);
        self.set_flag(FLAGS6502::B, false);
        self.set_flag(FLAGS6502::U, true);
        self.set_flag(FLAGS6502::I, true);
        let s = self.status;
        self.stack_push(s);
        self.addr_abs = 0xFFFA;
        let lo2 = self.read(self.addr_abs) as u16;
        let hi2 = self.read(self.addr_abs + 1) as u16;
        self.pc = (hi2 << 8) | lo2;
        self.cycles = 8;
    }
}

} // verus!
