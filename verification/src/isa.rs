//! The 256-entry instruction table: one record per opcode byte, naming the
//! operation, the addressing mode and the base cycle count of the
//! instruction, exactly as on the reference 6502 (official opcodes), with
//! the conventional treatment of the unofficial slots.
use vstd::prelude::*;

verus! {

/// The twelve addressing modes of the 6502.
#[derive(Clone, Copy, PartialEq, Eq, Structural, Debug)]
pub enum Mode {
    IMP,
    IMM,
    ZP0,
    ZPX,
    ZPY,
    REL,
    ABS,
    ABX,
    ABY,
    IND,
    IZX,
    IZY,
}

/// The operations: the fifty-six documented ones plus `XXX`, the
/// placeholder under which the remaining undocumented opcodes behave as a
/// no-op.
#[derive(Clone, Copy, PartialEq, Eq, Structural, Debug)]
pub enum Op {
    ADC,
    AND,
    ASL,
    BCC,
    BCS,
    BEQ,
    BIT,
    BMI,
    BNE,
    BPL,
    BRK,
    BVC,
    BVS,
    CLC,
    CLD,
    CLI,
    CLV,
    CMP,
    CPX,
    CPY,
    DEC,
    DEX,
    DEY,
    EOR,
    INC,
    INX,
    INY,
    JMP,
    JSR,
    LDA,
    LDX,
    LDY,
    LSR,
    NOP,
    ORA,
    PHA,
    PHP,
    PLA,
    PLP,
    ROL,
    ROR,
    RTI,
    RTS,
    SBC,
    SEC,
    SED,
    SEI,
    STA,
    STX,
    STY,
    TAX,
    TAY,
    TSX,
    TXA,
    TXS,
    TYA,
    XXX,
}

/// One entry of the instruction table.
#[derive(Clone, Copy, PartialEq, Eq, Structural, Debug)]
pub struct Instr {
    pub op: Op,
    pub mode: Mode,
    pub cycles: u8,
}

/// The instruction table as a specification-level function of the opcode
/// byte.
pub open spec fn spec_instr(opcode: u8) -> Instr {
    match opcode {
        0x00u8 => Instr { op: Op::BRK, mode: Mode::IMM, cycles: 7 },
        0x01u8 => Instr { op: Op::ORA, mode: Mode::IZX, cycles: 6 },
        0x02u8 => Instr { op: Op::XXX, mode: Mode::IMP, cycles: 2 },
        0x03u8 => Instr { op: Op::XXX, mode: Mode::IMP, cycles: 8 },
        0x04u8 => Instr { op: Op::NOP, mode: Mode::IMP, cycles: 3 },
        0x05u8 => Instr { op: Op::ORA, mode: Mode::ZP0, cycles: 3 },
        0x06u8 => Instr { op: Op::ASL, mode: Mode::ZP0, cycles: 5 },
        0x07u8 => Instr { op: Op::XXX, mode: Mode::IMP, cycles: 5 },
        0x08u8 => Instr { op: Op::PHP, mode: Mode::IMP, cycles: 3 },
        0x09u8 => Instr { op: Op::ORA, mode: Mode::IMM, cycles: 2 },
        0x0Au8 => Instr { op: Op::ASL, mode: Mode::IMP, cycles: 2 },
        0x0Bu8 => Instr { op: Op::XXX, mode: Mode::IMP, cycles: 2 },
        0x0Cu8 => Instr { op: Op::NOP, mode: Mode::IMP, cycles: 4 },
        0x0Du8 => Instr { op: Op::ORA, mode: Mode::ABS, cycles: 4 },
        0x0Eu8 => Instr { op: Op::ASL, mode: Mode::ABS, cycles: 6 },
        0x0Fu8 => Instr { op: Op::XXX, mode: Mode::IMP, cycles: 6 },
        0x10u8 => Instr { op: Op::BPL, mode: Mode::REL, cycles: 2 },
        0x11u8 => Instr { op: Op::ORA, mode: Mode::IZY, cycles: 5 },
        0x12u8 => Instr { op: Op::XXX, mode: Mode::IMP, cycles: 2 },
        0x13u8 => Instr { op: Op::XXX, mode: Mode::IMP, cycles: 8 },
        0x14u8 => Instr { op: Op::NOP, mode: Mode::IMP, cycles: 4 },
        0x15u8 => Instr { op: Op::ORA, mode: Mode::ZPX, cycles: 4 },
        0x16u8 => Instr { op: Op::ASL, mode: Mode::ZPX, cycles: 6 },
        0x17u8 => Instr { op: Op::XXX, mode: Mode::IMP, cycles: 6 },
        0x18u8 => Instr { op: Op::CLC, mode: Mode::IMP, cycles: 2 },
        0x19u8 => Instr { op: Op::ORA, mode: Mode::ABY, cycles: 4 },
        0x1Au8 => Instr { op: Op::NOP, mode: Mode::IMP, cycles: 2 },
        0x1Bu8 => Instr { op: Op::XXX, mode: Mode::IMP, cycles: 7 },
        0x1Cu8 => Instr { op: Op::NOP, mode: Mode::IMP, cycles: 4 },
        0x1Du8 => Instr { op: Op::ORA, mode: Mode::ABX, cycles: 4 },
        0x1Eu8 => Instr { op: Op::ASL, mode: Mode::ABX, cycles: 7 },
        0x1Fu8 => Instr { op: Op::XXX, mode: Mode::IMP, cycles: 7 },
        0x20u8 => Instr { op: Op::JSR, mode: Mode::ABS, cycles: 6 },
        0x21u8 => Instr { op: Op::AND, mode: Mode::IZX, cycles: 6 },
        0x22u8 => Instr { op: Op::XXX, mode: Mode::IMP, cycles: 2 },
        0x23u8 => Instr { op: Op::XXX, mode: Mode::IMP, cycles: 8 },
        0x24u8 => Instr { op: Op::BIT, mode: Mode::ZP0, cycles: 3 },
        0x25u8 => Instr { op: Op::AND, mode: Mode::ZP0, cycles: 3 },
        0x26u8 => Instr { op: Op::ROL, mode: Mode::ZP0, cycles: 5 },
        0x27u8 => Instr { op: Op::XXX, mode: Mode::IMP, cycles: 5 },
        0x28u8 => Instr { op: Op::PLP, mode: Mode::IMP, cycles: 4 },
        0x29u8 => Instr { op: Op::AND, mode: Mode::IMM, cycles: 2 },
        0x2Au8 => Instr { op: Op::ROL, mode: Mode::IMP, cycles: 2 },
        0x2Bu8 => Instr { op: Op::XXX, mode: Mode::IMP, cycles: 2 },
        0x2Cu8 => Instr { op: Op::BIT, mode: Mode::ABS, cycles: 4 },
        0x2Du8 => Instr { op: Op::AND, mode: Mode::ABS, cycles: 4 },
        0x2Eu8 => Instr { op: Op::ROL, mode: Mode::ABS, cycles: 6 },
        0x2Fu8 => Instr { op: Op::XXX, mode: Mode::IMP, cycles: 6 },
        0x30u8 => Instr { op: Op::BMI, mode: Mode::REL, cycles: 2 },
        0x31u8 => Instr { op: Op::AND, mode: Mode::IZY, cycles: 5 },
        0x32u8 => Instr { op: Op::XXX, mode: Mode::IMP, cycles: 2 },
        0x33u8 => Instr { op: Op::XXX, mode: Mode::IMP, cycles: 8 },
        0x34u8 => Instr { op: Op::NOP, mode: Mode::IMP, cycles: 4 },
        0x35u8 => Instr { op: Op::AND, mode: Mode::ZPX, cycles: 4 },
        0x36u8 => Instr { op: Op::ROL, mode: Mode::ZPX, cycles: 6 },
        0x37u8 => Instr { op: Op::XXX, mode: Mode::IMP, cycles: 6 },
        0x38u8 => Instr { op: Op::SEC, mode: Mode::IMP, cycles: 2 },
        0x39u8 => Instr { op: Op::AND, mode: Mode::ABY, cycles: 4 },
        0x3Au8 => Instr { op: Op::NOP, mode: Mode::IMP, cycles: 2 },
        0x3Bu8 => Instr { op: Op::XXX, mode: Mode::IMP, cycles: 7 },
        0x3Cu8 => Instr { op: Op::NOP, mode: Mode::IMP, cycles: 4 },
        0x3Du8 => Instr { op: Op::AND, mode: Mode::ABX, cycles: 4 },
        0x3Eu8 => Instr { op: Op::ROL, mode: Mode::ABX, cycles: 7 },
        0x3Fu8 => Instr { op: Op::XXX, mode: Mode::IMP, cycles: 7 },
        0x40u8 => Instr { op: Op::RTI, mode: Mode::IMP, cycles: 6 },
        0x41u8 => Instr { op: Op::EOR, mode: Mode::IZX, cycles: 6 },
        0x42u8 => Instr { op: Op::XXX, mode: Mode::IMP, cycles: 2 },
        0x43u8 => Instr { op: Op::XXX, mode: Mode::IMP, cycles: 8 },
        0x44u8 => Instr { op: Op::NOP, mode: Mode::IMP, cycles: 3 },
        0x45u8 => Instr { op: Op::EOR, mode: Mode::ZP0, cycles: 3 },
        0x46u8 => Instr { op: Op::LSR, mode: Mode::ZP0, cycles: 5 },
        0x47u8 => Instr { op: Op::XXX, mode: Mode::IMP, cycles: 5 },
        0x48u8 => Instr { op: Op::PHA, mode: Mode::IMP, cycles: 3 },
        0x49u8 => Instr { op: Op::EOR, mode: Mode::IMM, cycles: 2 },
        0x4Au8 => Instr { op: Op::LSR, mode: Mode::IMP, cycles: 2 },
        0x4Bu8 => Instr { op: Op::XXX, mode: Mode::IMP, cycles: 2 },
        0x4Cu8 => Instr { op: Op::JMP, mode: Mode::ABS, cycles: 3 },
        0x4Du8 => Instr { op: Op::EOR, mode: Mode::ABS, cycles: 4 },
        0x4Eu8 => Instr { op: Op::LSR, mode: Mode::ABS, cycles: 6 },
        0x4Fu8 => Instr { op: Op::XXX, mode: Mode::IMP, cycles: 6 },
        0x50u8 => Instr { op: Op::BVC, mode: Mode::REL, cycles: 2 },
        0x51u8 => Instr { op: Op::EOR, mode: Mode::IZY, cycles: 5 },
        0x52u8 => Instr { op: Op::XXX, mode: Mode::IMP, cycles: 2 },
        0x53u8 => Instr { op: Op::XXX, mode: Mode::IMP, cycles: 8 },
        0x54u8 => Instr { op: Op::NOP, mode: Mode::IMP, cycles: 4 },
        0x55u8 => Instr { op: Op::EOR, mode: Mode::ZPX, cycles: 4 },
        0x56u8 => Instr { op: Op::LSR, mode: Mode::ZPX, cycles: 6 },
        0x57u8 => Instr { op: Op::XXX, mode: Mode::IMP, cycles: 6 },
        0x58u8 => Instr { op: Op::CLI, mode: Mode::IMP, cycles: 2 },
        0x59u8 => Instr { op: Op::EOR, mode: Mode::ABY, cycles: 4 },
        0x5Au8 => Instr { op: Op::NOP, mode: Mode::IMP, cycles: 2 },
        0x5Bu8 => Instr { op: Op::XXX, mode: Mode::IMP, cycles: 7 },
        0x5Cu8 => Instr { op: Op::NOP, mode: Mode::IMP, cycles: 4 },
        0x5Du8 => Instr { op: Op::EOR, mode: Mode::ABX, cycles: 4 },
        0x5Eu8 => Instr { op: Op::LSR, mode: Mode::ABX, cycles: 7 },
        0x5Fu8 => Instr { op: Op::XXX, mode: Mode::IMP, cycles: 7 },
        0x60u8 => Instr { op: Op::RTS, mode: Mode::IMP, cycles: 6 },
        0x61u8 => Instr { op: Op::ADC, mode: Mode::IZX, cycles: 6 },
        0x62u8 => Instr { op: Op::XXX, mode: Mode::IMP, cycles: 2 },
        0x63u8 => Instr { op: Op::XXX, mode: Mode::IMP, cycles: 8 },
        0x64u8 => Instr { op: Op::NOP, mode: Mode::IMP, cycles: 3 },
        0x65u8 => Instr { op: Op::ADC, mode: Mode::ZP0, cycles: 3 },
        0x66u8 => Instr { op: Op::ROR, mode: Mode::ZP0, cycles: 5 },
        0x67u8 => Instr { op: Op::XXX, mode: Mode::IMP, cycles: 5 },
        0x68u8 => Instr { op: Op::PLA, mode: Mode::IMP, cycles: 4 },
        0x69u8 => Instr { op: Op::ADC, mode: Mode::IMM, cycles: 2 },
        0x6Au8 => Instr { op: Op::ROR, mode: Mode::IMP, cycles: 2 },
        0x6Bu8 => Instr { op: Op::XXX, mode: Mode::IMP, cycles: 2 },
        0x6Cu8 => Instr { op: Op::JMP, mode: Mode::IND, cycles: 5 },
        0x6Du8 => Instr { op: Op::ADC, mode: Mode::ABS, cycles: 4 },
        0x6Eu8 => Instr { op: Op::ROR, mode: Mode::ABS, cycles: 6 },
        0x6Fu8 => Instr { op: Op::XXX, mode: Mode::IMP, cycles: 6 },
        0x70u8 => Instr { op: Op::BVS, mode: Mode::REL, cycles: 2 },
        0x71u8 => Instr { op: Op::ADC, mode: Mode::IZY, cycles: 5 },
        0x72u8 => Instr { op: Op::XXX, mode: Mode::IMP, cycles: 2 },
        0x73u8 => Instr { op: Op::XXX, mode: Mode::IMP, cycles: 8 },
        0x74u8 => Instr { op: Op::NOP, mode: Mode::IMP, cycles: 4 },
        0x75u8 => Instr { op: Op::ADC, mode: Mode::ZPX, cycles: 4 },
        0x76u8 => Instr { op: Op::ROR, mode: Mode::ZPX, cycles: 6 },
        0x77u8 => Instr { op: Op::XXX, mode: Mode::IMP, cycles: 6 },
        0x78u8 => Instr { op: Op::SEI, mode: Mode::IMP, cycles: 2 },
        0x79u8 => Instr { op: Op::ADC, mode: Mode::ABY, cycles: 4 },
        0x7Au8 => Instr { op: Op::NOP, mode: Mode::IMP, cycles: 2 },
        0x7Bu8 => Instr { op: Op::XXX, mode: Mode::IMP, cycles: 7 },
        0x7Cu8 => Instr { op: Op::NOP, mode: Mode::IMP, cycles: 4 },
        0x7Du8 => Instr { op: Op::ADC, mode: Mode::ABX, cycles: 4 },
        0x7Eu8 => Instr { op: Op::ROR, mode: Mode::ABX, cycles: 7 },
        0x7Fu8 => Instr { op: Op::XXX, mode: Mode::IMP, cycles: 7 },
        0x80u8 => Instr { op: Op::NOP, mode: Mode::IMP, cycles: 2 },
        0x81u8 => Instr { op: Op::STA, mode: Mode::IZX, cycles: 6 },
        0x82u8 => Instr { op: Op::NOP, mode: Mode::IMP, cycles: 2 },
        0x83u8 => Instr { op: Op::XXX, mode: Mode::IMP, cycles: 6 },
        0x84u8 => Instr { op: Op::STY, mode: Mode::ZP0, cycles: 3 },
        0x85u8 => Instr { op: Op::STA, mode: Mode::ZP0, cycles: 3 },
        0x86u8 => Instr { op: Op::STX, mode: Mode::ZP0, cycles: 3 },
        0x87u8 => Instr { op: Op::XXX, mode: Mode::IMP, cycles: 3 },
        0x88u8 => Instr { op: Op::DEY, mode: Mode::IMP, cycles: 2 },
        0x89u8 => Instr { op: Op::NOP, mode: Mode::IMP, cycles: 2 },
        0x8Au8 => Instr { op: Op::TXA, mode: Mode::IMP, cycles: 2 },
        0x8Bu8 => Instr { op: Op::XXX, mode: Mode::IMP, cycles: 2 },
        0x8Cu8 => Instr { op: Op::STY, mode: Mode::ABS, cycles: 4 },
        0x8Du8 => Instr { op: Op::STA, mode: Mode::ABS, cycles: 4 },
        0x8Eu8 => Instr { op: Op::STX, mode: Mode::ABS, cycles: 4 },
        0x8Fu8 => Instr { op: Op::XXX, mode: Mode::IMP, cycles: 4 },
        0x90u8 => Instr { op: Op::BCC, mode: Mode::REL, cycles: 2 },
        0x91u8 => Instr { op: Op::STA, mode: Mode::IZY, cycles: 6 },
        0x92u8 => Instr { op: Op::XXX, mode: Mode::IMP, cycles: 2 },
        0x93u8 => Instr { op: Op::XXX, mode: Mode::IMP, cycles: 6 },
        0x94u8 => Instr { op: Op::STY, mode: Mode::ZPX, cycles: 4 },
        0x95u8 => Instr { op: Op::STA, mode: Mode::ZPX, cycles: 4 },
        0x96u8 => Instr { op: Op::STX, mode: Mode::ZPY, cycles: 4 },
        0x97u8 => Instr { op: Op::XXX, mode: Mode::IMP, cycles: 4 },
        0x98u8 => Instr { op: Op::TYA, mode: Mode::IMP, cycles: 2 },
        0x99u8 => Instr { op: Op::STA, mode: Mode::ABY, cycles: 5 },
        0x9Au8 => Instr { op: Op::TXS, mode: Mode::IMP, cycles: 2 },
        0x9Bu8 => Instr { op: Op::XXX, mode: Mode::IMP, cycles: 5 },
        0x9Cu8 => Instr { op: Op::NOP, mode: Mode::IMP, cycles: 5 },
        0x9Du8 => Instr { op: Op::STA, mode: Mode::ABX, cycles: 5 },
        0x9Eu8 => Instr { op: Op::XXX, mode: Mode::IMP, cycles: 5 },
        0x9Fu8 => Instr { op: Op::XXX, mode: Mode::IMP, cycles: 5 },
        0xA0u8 => Instr { op: Op::LDY, mode: Mode::IMM, cycles: 2 },
        0xA1u8 => Instr { op: Op::LDA, mode: Mode::IZX, cycles: 6 },
        0xA2u8 => Instr { op: Op::LDX, mode: Mode::IMM, cycles: 2 },
        0xA3u8 => Instr { op: Op::XXX, mode: Mode::IMP, cycles: 6 },
        0xA4u8 => Instr { op: Op::LDY, mode: Mode::ZP0, cycles: 3 },
        0xA5u8 => Instr { op: Op::LDA, mode: Mode::ZP0, cycles: 3 },
        0xA6u8 => Instr { op: Op::LDX, mode: Mode::ZP0, cycles: 3 },
        0xA7u8 => Instr { op: Op::XXX, mode: Mode::IMP, cycles: 3 },
        0xA8u8 => Instr { op: Op::TAY, mode: Mode::IMP, cycles: 2 },
        0xA9u8 => Instr { op: Op::LDA, mode: Mode::IMM, cycles: 2 },
        0xAAu8 => Instr { op: Op::TAX, mode: Mode::IMP, cycles: 2 },
        0xABu8 => Instr { op: Op::XXX, mode: Mode::IMP, cycles: 2 },
        0xACu8 => Instr { op: Op::LDY, mode: Mode::ABS, cycles: 4 },
        0xADu8 => Instr { op: Op::LDA, mode: Mode::ABS, cycles: 4 },
        0xAEu8 => Instr { op: Op::LDX, mode: Mode::ABS, cycles: 4 },
        0xAFu8 => Instr { op: Op::XXX, mode: Mode::IMP, cycles: 4 },
        0xB0u8 => Instr { op: Op::BCS, mode: Mode::REL, cycles: 2 },
        0xB1u8 => Instr { op: Op::LDA, mode: Mode::IZY, cycles: 5 },
        0xB2u8 => Instr { op: Op::XXX, mode: Mode::IMP, cycles: 2 },
        0xB3u8 => Instr { op: Op::XXX, mode: Mode::IMP, cycles: 5 },
        0xB4u8 => Instr { op: Op::LDY, mode: Mode::ZPX, cycles: 4 },
        0xB5u8 => Instr { op: Op::LDA, mode: Mode::ZPX, cycles: 4 },
        0xB6u8 => Instr { op: Op::LDX, mode: Mode::ZPY, cycles: 4 },
        0xB7u8 => Instr { op: Op::XXX, mode: Mode::IMP, cycles: 4 },
        0xB8u8 => Instr { op: Op::CLV, mode: Mode::IMP, cycles: 2 },
        0xB9u8 => Instr { op: Op::LDA, mode: Mode::ABY, cycles: 4 },
        0xBAu8 => Instr { op: Op::TSX, mode: Mode::IMP, cycles: 2 },
        0xBBu8 => Instr { op: Op::XXX, mode: Mode::IMP, cycles: 4 },
        0xBCu8 => Instr { op: Op::LDY, mode: Mode::ABX, cycles: 4 },
        0xBDu8 => Instr { op: Op::LDA, mode: Mode::ABX, cycles: 4 },
        0xBEu8 => Instr { op: Op::LDX, mode: Mode::ABY, cycles: 4 },
        0xBFu8 => Instr { op: Op::XXX, mode: Mode::IMP, cycles: 4 },
        0xC0u8 => Instr { op: Op::CPY, mode: Mode::IMM, cycles: 2 },
        0xC1u8 => Instr { op: Op::CMP, mode: Mode::IZX, cycles: 6 },
        0xC2u8 => Instr { op: Op::NOP, mode: Mode::IMP, cycles: 2 },
        0xC3u8 => Instr { op: Op::XXX, mode: Mode::IMP, cycles: 8 },
        0xC4u8 => Instr { op: Op::CPY, mode: Mode::ZP0, cycles: 3 },
        0xC5u8 => Instr { op: Op::CMP, mode: Mode::ZP0, cycles: 3 },
        0xC6u8 => Instr { op: Op::DEC, mode: Mode::ZP0, cycles: 5 },
        0xC7u8 => Instr { op: Op::XXX, mode: Mode::IMP, cycles: 5 },
        0xC8u8 => Instr { op: Op::INY, mode: Mode::IMP, cycles: 2 },
        0xC9u8 => Instr { op: Op::CMP, mode: Mode::IMM, cycles: 2 },
        0xCAu8 => Instr { op: Op::DEX, mode: Mode::IMP, cycles: 2 },
        0xCBu8 => Instr { op: Op::XXX, mode: Mode::IMP, cycles: 2 },
        0xCCu8 => Instr { op: Op::CPY, mode: Mode::ABS, cycles: 4 },
        0xCDu8 => Instr { op: Op::CMP, mode: Mode::ABS, cycles: 4 },
        0xCEu8 => Instr { op: Op::DEC, mode: Mode::ABS, cycles: 6 },
        0xCFu8 => Instr { op: Op::XXX, mode: Mode::IMP, cycles: 6 },
        0xD0u8 => Instr { op: Op::BNE, mode: Mode::REL, cycles: 2 },
        0xD1u8 => Instr { op: Op::CMP, mode: Mode::IZY, cycles: 5 },
        0xD2u8 => Instr { op: Op::XXX, mode: Mode::IMP, cycles: 2 },
        0xD3u8 => Instr { op: Op::XXX, mode: Mode::IMP, cycles: 8 },
        0xD4u8 => Instr { op: Op::NOP, mode: Mode::IMP, cycles: 4 },
        0xD5u8 => Instr { op: Op::CMP, mode: Mode::ZPX, cycles: 4 },
        0xD6u8 => Instr { op: Op::DEC, mode: Mode::ZPX, cycles: 6 },
        0xD7u8 => Instr { op: Op::XXX, mode: Mode::IMP, cycles: 6 },
        0xD8u8 => Instr { op: Op::CLD, mode: Mode::IMP, cycles: 2 },
        0xD9u8 => Instr { op: Op::CMP, mode: Mode::ABY, cycles: 4 },
        0xDAu8 => Instr { op: Op::NOP, mode: Mode::IMP, cycles: 2 },
        0xDBu8 => Instr { op: Op::XXX, mode: Mode::IMP, cycles: 7 },
        0xDCu8 => Instr { op: Op::NOP, mode: Mode::IMP, cycles: 4 },
        0xDDu8 => Instr { op: Op::CMP, mode: Mode::ABX, cycles: 4 },
        0xDEu8 => Instr { op: Op::DEC, mode: Mode::ABX, cycles: 7 },
        0xDFu8 => Instr { op: Op::XXX, mode: Mode::IMP, cycles: 7 },
        0xE0u8 => Instr { op: Op::CPX, mode: Mode::IMM, cycles: 2 },
        0xE1u8 => Instr { op: Op::SBC, mode: Mode::IZX, cycles: 6 },
        0xE2u8 => Instr { op: Op::NOP, mode: Mode::IMP, cycles: 2 },
        0xE3u8 => Instr { op: Op::XXX, mode: Mode::IMP, cycles: 8 },
        0xE4u8 => Instr { op: Op::CPX, mode: Mode::ZP0, cycles: 3 },
        0xE5u8 => Instr { op: Op::SBC, mode: Mode::ZP0, cycles: 3 },
        0xE6u8 => Instr { op: Op::INC, mode: Mode::ZP0, cycles: 5 },
        0xE7u8 => Instr { op: Op::XXX, mode: Mode::IMP, cycles: 5 },
        0xE8u8 => Instr { op: Op::INX, mode: Mode::IMP, cycles: 2 },
        0xE9u8 => Instr { op: Op::SBC, mode: Mode::IMM, cycles: 2 },
        0xEAu8 => Instr { op: Op::NOP, mode: Mode::IMP, cycles: 2 },
        0xEBu8 => Instr { op: Op::SBC, mode: Mode::IMP, cycles: 2 },
        0xECu8 => Instr { op: Op::CPX, mode: Mode::ABS, cycles: 4 },
        0xEDu8 => Instr { op: Op::SBC, mode: Mode::ABS, cycles: 4 },
        0xEEu8 => Instr { op: Op::INC, mode: Mode::ABS, cycles: 6 },
        0xEFu8 => Instr { op: Op::XXX, mode: Mode::IMP, cycles: 6 },
        0xF0u8 => Instr { op: Op::BEQ, mode: Mode::REL, cycles: 2 },
        0xF1u8 => Instr { op: Op::SBC, mode: Mode::IZY, cycles: 5 },
        0xF2u8 => Instr { op: Op::XXX, mode: Mode::IMP, cycles: 2 },
        0xF3u8 => Instr { op: Op::XXX, mode: Mode::IMP, cycles: 8 },
        0xF4u8 => Instr { op: Op::NOP, mode: Mode::IMP, cycles: 4 },
        0xF5u8 => Instr { op: Op::SBC, mode: Mode::ZPX, cycles: 4 },
        0xF6u8 => Instr { op: Op::INC, mode: Mode::ZPX, cycles: 6 },
        0xF7u8 => Instr { op: Op::XXX, mode: Mode::IMP, cycles: 6 },
        0xF8u8 => Instr { op: Op::SED, mode: Mode::IMP, cycles: 2 },
        0xF9u8 => Instr { op: Op::SBC, mode: Mode::ABY, cycles: 4 },
        0xFAu8 => Instr { op: Op::NOP, mode: Mode::IMP, cycles: 2 },
        0xFBu8 => Instr { op: Op::XXX, mode: Mode::IMP, cycles: 7 },
        0xFCu8 => Instr { op: Op::NOP, mode: Mode::IMP, cycles: 4 },
        0xFDu8 => Instr { op: Op::SBC, mode: Mode::ABX, cycles: 4 },
        0xFEu8 => Instr { op: Op::INC, mode: Mode::ABX, cycles: 7 },
        _ => Instr { op: Op::XXX, mode: Mode::IMP, cycles: 7 },
    }
}

/// Looks an opcode up in the instruction table.
pub fn lookup(opcode: u8) -> (r: Instr)
    ensures
        r == spec_instr(opcode),
{
    match opcode {
        0x00u8 => Instr { op: Op::BRK, mode: Mode::IMM, cycles: 7 },
        0x01u8 => Instr { op: Op::ORA, mode: Mode::IZX, cycles: 6 },
        0x02u8 => Instr { op: Op::XXX, mode: Mode::IMP, cycles: 2 },
        0x03u8 => Instr { op: Op::XXX, mode: Mode::IMP, cycles: 8 },
        0x04u8 => Instr { op: Op::NOP, mode: Mode::IMP, cycles: 3 },
        0x05u8 => Instr { op: Op::ORA, mode: Mode::ZP0, cycles: 3 },
        0x06u8 => Instr { op: Op::ASL, mode: Mode::ZP0, cycles: 5 },
        0x07u8 => Instr { op: Op::XXX, mode: Mode::IMP, cycles: 5 },
        0x08u8 => Instr { op: Op::PHP, mode: Mode::IMP, cycles: 3 },
        0x09u8 => Instr { op: Op::ORA, mode: Mode::IMM, cycles: 2 },
        0x0Au8 => Instr { op: Op::ASL, mode: Mode::IMP, cycles: 2 },
        0x0Bu8 => Instr { op: Op::XXX, mode: Mode::IMP, cycles: 2 },
        0x0Cu8 => Instr { op: Op::NOP, mode: Mode::IMP, cycles: 4 },
        0x0Du8 => Instr { op: Op::ORA, mode: Mode::ABS, cycles: 4 },
        0x0Eu8 => Instr { op: Op::ASL, mode: Mode::ABS, cycles: 6 },
        0x0Fu8 => Instr { op: Op::XXX, mode: Mode::IMP, cycles: 6 },
        0x10u8 => Instr { op: Op::BPL, mode: Mode::REL, cycles: 2 },
        0x11u8 => Instr { op: Op::ORA, mode: Mode::IZY, cycles: 5 },
        0x12u8 => Instr { op: Op::XXX, mode: Mode::IMP, cycles: 2 },
        0x13u8 => Instr { op: Op::XXX, mode: Mode::IMP, cycles: 8 },
        0x14u8 => Instr { op: Op::NOP, mode: Mode::IMP, cycles: 4 },
        0x15u8 => Instr { op: Op::ORA, mode: Mode::ZPX, cycles: 4 },
        0x16u8 => Instr { op: Op::ASL, mode: Mode::ZPX, cycles: 6 },
        0x17u8 => Instr { op: Op::XXX, mode: Mode::IMP, cycles: 6 },
        0x18u8 => Instr { op: Op::CLC, mode: Mode::IMP, cycles: 2 },
        0x19u8 => Instr { op: Op::ORA, mode: Mode::ABY, cycles: 4 },
        0x1Au8 => Instr { op: Op::NOP, mode: Mode::IMP, cycles: 2 },
        0x1Bu8 => Instr { op: Op::XXX, mode: Mode::IMP, cycles: 7 },
        0x1Cu8 => Instr { op: Op::NOP, mode: Mode::IMP, cycles: 4 },
        0x1Du8 => Instr { op: Op::ORA, mode: Mode::ABX, cycles: 4 },
        0x1Eu8 => Instr { op: Op::ASL, mode: Mode::ABX, cycles: 7 },
        0x1Fu8 => Instr { op: Op::XXX, mode: Mode::IMP, cycles: 7 },
        0x20u8 => Instr { op: Op::JSR, mode: Mode::ABS, cycles: 6 },
        0x21u8 => Instr { op: Op::AND, mode: Mode::IZX, cycles: 6 },
        0x22u8 => Instr { op: Op::XXX, mode: Mode::IMP, cycles: 2 },
        0x23u8 => Instr { op: Op::XXX, mode: Mode::IMP, cycles: 8 },
        0x24u8 => Instr { op: Op::BIT, mode: Mode::ZP0, cycles: 3 },
        0x25u8 => Instr { op: Op::AND, mode: Mode::ZP0, cycles: 3 },
        0x26u8 => Instr { op: Op::ROL, mode: Mode::ZP0, cycles: 5 },
        0x27u8 => Instr { op: Op::XXX, mode: Mode::IMP, cycles: 5 },
        0x28u8 => Instr { op: Op::PLP, mode: Mode::IMP, cycles: 4 },
        0x29u8 => Instr { op: Op::AND, mode: Mode::IMM, cycles: 2 },
        0x2Au8 => Instr { op: Op::ROL, mode: Mode::IMP, cycles: 2 },
        0x2Bu8 => Instr { op: Op::XXX, mode: Mode::IMP, cycles: 2 },
        0x2Cu8 => Instr { op: Op::BIT, mode: Mode::ABS, cycles: 4 },
        0x2Du8 => Instr { op: Op::AND, mode: Mode::ABS, cycles: 4 },
        0x2Eu8 => Instr { op: Op::ROL, mode: Mode::ABS, cycles: 6 },
        0x2Fu8 => Instr { op: Op::XXX, mode: Mode::IMP, cycles: 6 },
        0x30u8 => Instr { op: Op::BMI, mode: Mode::REL, cycles: 2 },
        0x31u8 => Instr { op: Op::AND, mode: Mode::IZY, cycles: 5 },
        0x32u8 => Instr { op: Op::XXX, mode: Mode::IMP, cycles: 2 },
        0x33u8 => Instr { op: Op::XXX, mode: Mode::IMP, cycles: 8 },
        0x34u8 => Instr { op: Op::NOP, mode: Mode::IMP, cycles: 4 },
        0x35u8 => Instr { op: Op::AND, mode: Mode::ZPX, cycles: 4 },
        0x36u8 => Instr { op: Op::ROL, mode: Mode::ZPX, cycles: 6 },
        0x37u8 => Instr { op: Op::XXX, mode: Mode::IMP, cycles: 6 },
        0x38u8 => Instr { op: Op::SEC, mode: Mode::IMP, cycles: 2 },
        0x39u8 => Instr { op: Op::AND, mode: Mode::ABY, cycles: 4 },
        0x3Au8 => Instr { op: Op::NOP, mode: Mode::IMP, cycles: 2 },
        0x3Bu8 => Instr { op: Op::XXX, mode: Mode::IMP, cycles: 7 },
        0x3Cu8 => Instr { op: Op::NOP, mode: Mode::IMP, cycles: 4 },
        0x3Du8 => Instr { op: Op::AND, mode: Mode::ABX, cycles: 4 },
        0x3Eu8 => Instr { op: Op::ROL, mode: Mode::ABX, cycles: 7 },
        0x3Fu8 => Instr { op: Op::XXX, mode: Mode::IMP, cycles: 7 },
        0x40u8 => Instr { op: Op::RTI, mode: Mode::IMP, cycles: 6 },
        0x41u8 => Instr { op: Op::EOR, mode: Mode::IZX, cycles: 6 },
        0x42u8 => Instr { op: Op::XXX, mode: Mode::IMP, cycles: 2 },
        0x43u8 => Instr { op: Op::XXX, mode: Mode::IMP, cycles: 8 },
        0x44u8 => Instr { op: Op::NOP, mode: Mode::IMP, cycles: 3 },
        0x45u8 => Instr { op: Op::EOR, mode: Mode::ZP0, cycles: 3 },
        0x46u8 => Instr { op: Op::LSR, mode: Mode::ZP0, cycles: 5 },
        0x47u8 => Instr { op: Op::XXX, mode: Mode::IMP, cycles: 5 },
        0x48u8 => Instr { op: Op::PHA, mode: Mode::IMP, cycles: 3 },
        0x49u8 => Instr { op: Op::EOR, mode: Mode::IMM, cycles: 2 },
        0x4Au8 => Instr { op: Op::LSR, mode: Mode::IMP, cycles: 2 },
        0x4Bu8 => Instr { op: Op::XXX, mode: Mode::IMP, cycles: 2 },
        0x4Cu8 => Instr { op: Op::JMP, mode: Mode::ABS, cycles: 3 },
        0x4Du8 => Instr { op: Op::EOR, mode: Mode::ABS, cycles: 4 },
        0x4Eu8 => Instr { op: Op::LSR, mode: Mode::ABS, cycles: 6 },
        0x4Fu8 => Instr { op: Op::XXX, mode: Mode::IMP, cycles: 6 },
        0x50u8 => Instr { op: Op::BVC, mode: Mode::REL, cycles: 2 },
        0x51u8 => Instr { op: Op::EOR, mode: Mode::IZY, cycles: 5 },
        0x52u8 => Instr { op: Op::XXX, mode: Mode::IMP, cycles: 2 },
        0x53u8 => Instr { op: Op::XXX, mode: Mode::IMP, cycles: 8 },
        0x54u8 => Instr { op: Op::NOP, mode: Mode::IMP, cycles: 4 },
        0x55u8 => Instr { op: Op::EOR, mode: Mode::ZPX, cycles: 4 },
        0x56u8 => Instr { op: Op::LSR, mode: Mode::ZPX, cycles: 6 },
        0x57u8 => Instr { op: Op::XXX, mode: Mode::IMP, cycles: 6 },
        0x58u8 => Instr { op: Op::CLI, mode: Mode::IMP, cycles: 2 },
        0x59u8 => Instr { op: Op::EOR, mode: Mode::ABY, cycles: 4 },
        0x5Au8 => Instr { op: Op::NOP, mode: Mode::IMP, cycles: 2 },
        0x5Bu8 => Instr { op: Op::XXX, mode: Mode::IMP, cycles: 7 },
        0x5Cu8 => Instr { op: Op::NOP, mode: Mode::IMP, cycles: 4 },
        0x5Du8 => Instr { op: Op::EOR, mode: Mode::ABX, cycles: 4 },
        0x5Eu8 => Instr { op: Op::LSR, mode: Mode::ABX, cycles: 7 },
        0x5Fu8 => Instr { op: Op::XXX, mode: Mode::IMP, cycles: 7 },
        0x60u8 => Instr { op: Op::RTS, mode: Mode::IMP, cycles: 6 },
        0x61u8 => Instr { op: Op::ADC, mode: Mode::IZX, cycles: 6 },
        0x62u8 => Instr { op: Op::XXX, mode: Mode::IMP, cycles: 2 },
        0x63u8 => Instr { op: Op::XXX, mode: Mode::IMP, cycles: 8 },
        0x64u8 => Instr { op: Op::NOP, mode: Mode::IMP, cycles: 3 },
        0x65u8 => Instr { op: Op::ADC, mode: Mode::ZP0, cycles: 3 },
        0x66u8 => Instr { op: Op::ROR, mode: Mode::ZP0, cycles: 5 },
        0x67u8 => Instr { op: Op::XXX, mode: Mode::IMP, cycles: 5 },
        0x68u8 => Instr { op: Op::PLA, mode: Mode::IMP, cycles: 4 },
        0x69u8 => Instr { op: Op::ADC, mode: Mode::IMM, cycles: 2 },
        0x6Au8 => Instr { op: Op::ROR, mode: Mode::IMP, cycles: 2 },
        0x6Bu8 => Instr { op: Op::XXX, mode: Mode::IMP, cycles: 2 },
        0x6Cu8 => Instr { op: Op::JMP, mode: Mode::IND, cycles: 5 },
        0x6Du8 => Instr { op: Op::ADC, mode: Mode::ABS, cycles: 4 },
        0x6Eu8 => Instr { op: Op::ROR, mode: Mode::ABS, cycles: 6 },
        0x6Fu8 => Instr { op: Op::XXX, mode: Mode::IMP, cycles: 6 },
        0x70u8 => Instr { op: Op::BVS, mode: Mode::REL, cycles: 2 },
        0x71u8 => Instr { op: Op::ADC, mode: Mode::IZY, cycles: 5 },
        0x72u8 => Instr { op: Op::XXX, mode: Mode::IMP, cycles: 2 },
        0x73u8 => Instr { op: Op::XXX, mode: Mode::IMP, cycles: 8 },
        0x74u8 => Instr { op: Op::NOP, mode: Mode::IMP, cycles: 4 },
        0x75u8 => Instr { op: Op::ADC, mode: Mode::ZPX, cycles: 4 },
        0x76u8 => Instr { op: Op::ROR, mode: Mode::ZPX, cycles: 6 },
        0x77u8 => Instr { op: Op::XXX, mode: Mode::IMP, cycles: 6 },
        0x78u8 => Instr { op: Op::SEI, mode: Mode::IMP, cycles: 2 },
        0x79u8 => Instr { op: Op::ADC, mode: Mode::ABY, cycles: 4 },
        0x7Au8 => Instr { op: Op::NOP, mode: Mode::IMP, cycles: 2 },
        0x7Bu8 => Instr { op: Op::XXX, mode: Mode::IMP, cycles: 7 },
        0x7Cu8 => Instr { op: Op::NOP, mode: Mode::IMP, cycles: 4 },
        0x7Du8 => Instr { op: Op::ADC, mode: Mode::ABX, cycles: 4 },
        0x7Eu8 => Instr { op: Op::ROR, mode: Mode::ABX, cycles: 7 },
        0x7Fu8 => Instr { op: Op::XXX, mode: Mode::IMP, cycles: 7 },
        0x80u8 => Instr { op: Op::NOP, mode: Mode::IMP, cycles: 2 },
        0x81u8 => Instr { op: Op::STA, mode: Mode::IZX, cycles: 6 },
        0x82u8 => Instr { op: Op::NOP, mode: Mode::IMP, cycles: 2 },
        0x83u8 => Instr { op: Op::XXX, mode: Mode::IMP, cycles: 6 },
        0x84u8 => Instr { op: Op::STY, mode: Mode::ZP0, cycles: 3 },
        0x85u8 => Instr { op: Op::STA, mode: Mode::ZP0, cycles: 3 },
        0x86u8 => Instr { op: Op::STX, mode: Mode::ZP0, cycles: 3 },
        0x87u8 => Instr { op: Op::XXX, mode: Mode::IMP, cycles: 3 },
        0x88u8 => Instr { op: Op::DEY, mode: Mode::IMP, cycles: 2 },
        0x89u8 => Instr { op: Op::NOP, mode: Mode::IMP, cycles: 2 },
        0x8Au8 => Instr { op: Op::TXA, mode: Mode::IMP, cycles: 2 },
        0x8Bu8 => Instr { op: Op::XXX, mode: Mode::IMP, cycles: 2 },
        0x8Cu8 => Instr { op: Op::STY, mode: Mode::ABS, cycles: 4 },
        0x8Du8 => Instr { op: Op::STA, mode: Mode::ABS, cycles: 4 },
        0x8Eu8 => Instr { op: Op::STX, mode: Mode::ABS, cycles: 4 },
        0x8Fu8 => Instr { op: Op::XXX, mode: Mode::IMP, cycles: 4 },
        0x90u8 => Instr { op: Op::BCC, mode: Mode::REL, cycles: 2 },
        0x91u8 => Instr { op: Op::STA, mode: Mode::IZY, cycles: 6 },
        0x92u8 => Instr { op: Op::XXX, mode: Mode::IMP, cycles: 2 },
        0x93u8 => Instr { op: Op::XXX, mode: Mode::IMP, cycles: 6 },
        0x94u8 => Instr { op: Op::STY, mode: Mode::ZPX, cycles: 4 },
        0x95u8 => Instr { op: Op::STA, mode: Mode::ZPX, cycles: 4 },
        0x96u8 => Instr { op: Op::STX, mode: Mode::ZPY, cycles: 4 },
        0x97u8 => Instr { op: Op::XXX, mode: Mode::IMP, cycles: 4 },
        0x98u8 => Instr { op: Op::TYA, mode: Mode::IMP, cycles: 2 },
        0x99u8 => Instr { op: Op::STA, mode: Mode::ABY, cycles: 5 },
        0x9Au8 => Instr { op: Op::TXS, mode: Mode::IMP, cycles: 2 },
        0x9Bu8 => Instr { op: Op::XXX, mode: Mode::IMP, cycles: 5 },
        0x9Cu8 => Instr { op: Op::NOP, mode: Mode::IMP, cycles: 5 },
        0x9Du8 => Instr { op: Op::STA, mode: Mode::ABX, cycles: 5 },
        0x9Eu8 => Instr { op: Op::XXX, mode: Mode::IMP, cycles: 5 },
        0x9Fu8 => Instr { op: Op::XXX, mode: Mode::IMP, cycles: 5 },
        0xA0u8 => Instr { op: Op::LDY, mode: Mode::IMM, cycles: 2 },
        0xA1u8 => Instr { op: Op::LDA, mode: Mode::IZX, cycles: 6 },
        0xA2u8 => Instr { op: Op::LDX, mode: Mode::IMM, cycles: 2 },
        0xA3u8 => Instr { op: Op::XXX, mode: Mode::IMP, cycles: 6 },
        0xA4u8 => Instr { op: Op::LDY, mode: Mode::ZP0, cycles: 3 },
        0xA5u8 => Instr { op: Op::LDA, mode: Mode::ZP0, cycles: 3 },
        0xA6u8 => Instr { op: Op::LDX, mode: Mode::ZP0, cycles: 3 },
        0xA7u8 => Instr { op: Op::XXX, mode: Mode::IMP, cycles: 3 },
        0xA8u8 => Instr { op: Op::TAY, mode: Mode::IMP, cycles: 2 },
        0xA9u8 => Instr { op: Op::LDA, mode: Mode::IMM, cycles: 2 },
        0xAAu8 => Instr { op: Op::TAX, mode: Mode::IMP, cycles: 2 },
        0xABu8 => Instr { op: Op::XXX, mode: Mode::IMP, cycles: 2 },
        0xACu8 => Instr { op: Op::LDY, mode: Mode::ABS, cycles: 4 },
        0xADu8 => Instr { op: Op::LDA, mode: Mode::ABS, cycles: 4 },
        0xAEu8 => Instr { op: Op::LDX, mode: Mode::ABS, cycles: 4 },
        0xAFu8 => Instr { op: Op::XXX, mode: Mode::IMP, cycles: 4 },
        0xB0u8 => Instr { op: Op::BCS, mode: Mode::REL, cycles: 2 },
        0xB1u8 => Instr { op: Op::LDA, mode: Mode::IZY, cycles: 5 },
        0xB2u8 => Instr { op: Op::XXX, mode: Mode::IMP, cycles: 2 },
        0xB3u8 => Instr { op: Op::XXX, mode: Mode::IMP, cycles: 5 },
        0xB4u8 => Instr { op: Op::LDY, mode: Mode::ZPX, cycles: 4 },
        0xB5u8 => Instr { op: Op::LDA, mode: Mode::ZPX, cycles: 4 },
        0xB6u8 => Instr { op: Op::LDX, mode: Mode::ZPY, cycles: 4 },
        0xB7u8 => Instr { op: Op::XXX, mode: Mode::IMP, cycles: 4 },
        0xB8u8 => Instr { op: Op::CLV, mode: Mode::IMP, cycles: 2 },
        0xB9u8 => Instr { op: Op::LDA, mode: Mode::ABY, cycles: 4 },
        0xBAu8 => Instr { op: Op::TSX, mode: Mode::IMP, cycles: 2 },
        0xBBu8 => Instr { op: Op::XXX, mode: Mode::IMP, cycles: 4 },
        0xBCu8 => Instr { op: Op::LDY, mode: Mode::ABX, cycles: 4 },
        0xBDu8 => Instr { op: Op::LDA, mode: Mode::ABX, cycles: 4 },
        0xBEu8 => Instr { op: Op::LDX, mode: Mode::ABY, cycles: 4 },
        0xBFu8 => Instr { op: Op::XXX, mode: Mode::IMP, cycles: 4 },
        0xC0u8 => Instr { op: Op::CPY, mode: Mode::IMM, cycles: 2 },
        0xC1u8 => Instr { op: Op::CMP, mode: Mode::IZX, cycles: 6 },
        0xC2u8 => Instr { op: Op::NOP, mode: Mode::IMP, cycles: 2 },
        0xC3u8 => Instr { op: Op::XXX, mode: Mode::IMP, cycles: 8 },
        0xC4u8 => Instr { op: Op::CPY, mode: Mode::ZP0, cycles: 3 },
        0xC5u8 => Instr { op: Op::CMP, mode: Mode::ZP0, cycles: 3 },
        0xC6u8 => Instr { op: Op::DEC, mode: Mode::ZP0, cycles: 5 },
        0xC7u8 => Instr { op: Op::XXX, mode: Mode::IMP, cycles: 5 },
        0xC8u8 => Instr { op: Op::INY, mode: Mode::IMP, cycles: 2 },
        0xC9u8 => Instr { op: Op::CMP, mode: Mode::IMM, cycles: 2 },
        0xCAu8 => Instr { op: Op::DEX, mode: Mode::IMP, cycles: 2 },
        0xCBu8 => Instr { op: Op::XXX, mode: Mode::IMP, cycles: 2 },
        0xCCu8 => Instr { op: Op::CPY, mode: Mode::ABS, cycles: 4 },
        0xCDu8 => Instr { op: Op::CMP, mode: Mode::ABS, cycles: 4 },
        0xCEu8 => Instr { op: Op::DEC, mode: Mode::ABS, cycles: 6 },
        0xCFu8 => Instr { op: Op::XXX, mode: Mode::IMP, cycles: 6 },
        0xD0u8 => Instr { op: Op::BNE, mode: Mode::REL, cycles: 2 },
        0xD1u8 => Instr { op: Op::CMP, mode: Mode::IZY, cycles: 5 },
        0xD2u8 => Instr { op: Op::XXX, mode: Mode::IMP, cycles: 2 },
        0xD3u8 => Instr { op: Op::XXX, mode: Mode::IMP, cycles: 8 },
        0xD4u8 => Instr { op: Op::NOP, mode: Mode::IMP, cycles: 4 },
        0xD5u8 => Instr { op: Op::CMP, mode: Mode::ZPX, cycles: 4 },
        0xD6u8 => Instr { op: Op::DEC, mode: Mode::ZPX, cycles: 6 },
        0xD7u8 => Instr { op: Op::XXX, mode: Mode::IMP, cycles: 6 },
        0xD8u8 => Instr { op: Op::CLD, mode: Mode::IMP, cycles: 2 },
        0xD9u8 => Instr { op: Op::CMP, mode: Mode::ABY, cycles: 4 },
        0xDAu8 => Instr { op: Op::NOP, mode: Mode::IMP, cycles: 2 },
        0xDBu8 => Instr { op: Op::XXX, mode: Mode::IMP, cycles: 7 },
        0xDCu8 => Instr { op: Op::NOP, mode: Mode::IMP, cycles: 4 },
        0xDDu8 => Instr { op: Op::CMP, mode: Mode::ABX, cycles: 4 },
        0xDEu8 => Instr { op: Op::DEC, mode: Mode::ABX, cycles: 7 },
        0xDFu8 => Instr { op: Op::XXX, mode: Mode::IMP, cycles: 7 },
        0xE0u8 => Instr { op: Op::CPX, mode: Mode::IMM, cycles: 2 },
        0xE1u8 => Instr { op: Op::SBC, mode: Mode::IZX, cycles: 6 },
        0xE2u8 => Instr { op: Op::NOP, mode: Mode::IMP, cycles: 2 },
        0xE3u8 => Instr { op: Op::XXX, mode: Mode::IMP, cycles: 8 },
        0xE4u8 => Instr { op: Op::CPX, mode: Mode::ZP0, cycles: 3 },
        0xE5u8 => Instr { op: Op::SBC, mode: Mode::ZP0, cycles: 3 },
        0xE6u8 => Instr { op: Op::INC, mode: Mode::ZP0, cycles: 5 },
        0xE7u8 => Instr { op: Op::XXX, mode: Mode::IMP, cycles: 5 },
        0xE8u8 => Instr { op: Op::INX, mode: Mode::IMP, cycles: 2 },
        0xE9u8 => Instr { op: Op::SBC, mode: Mode::IMM, cycles: 2 },
        0xEAu8 => Instr { op: Op::NOP, mode: Mode::IMP, cycles: 2 },
        0xEBu8 => Instr { op: Op::SBC, mode: Mode::IMP, cycles: 2 },
        0xECu8 => Instr { op: Op::CPX, mode: Mode::ABS, cycles: 4 },
        0xEDu8 => Instr { op: Op::SBC, mode: Mode::ABS, cycles: 4 },
        0xEEu8 => Instr { op: Op::INC, mode: Mode::ABS, cycles: 6 },
        0xEFu8 => Instr { op: Op::XXX, mode: Mode::IMP, cycles: 6 },
        0xF0u8 => Instr { op: Op::BEQ, mode: Mode::REL, cycles: 2 },
        0xF1u8 => Instr { op: Op::SBC, mode: Mode::IZY, cycles: 5 },
        0xF2u8 => Instr { op: Op::XXX, mode: Mode::IMP, cycles: 2 },
        0xF3u8 => Instr { op: Op::XXX, mode: Mode::IMP, cycles: 8 },
        0xF4u8 => Instr { op: Op::NOP, mode: Mode::IMP, cycles: 4 },
        0xF5u8 => Instr { op: Op::SBC, mode: Mode::ZPX, cycles: 4 },
        0xF6u8 => Instr { op: Op::INC, mode: Mode::ZPX, cycles: 6 },
        0xF7u8 => Instr { op: Op::XXX, mode: Mode::IMP, cycles: 6 },
        0xF8u8 => Instr { op: Op::SED, mode: Mode::IMP, cycles: 2 },
        0xF9u8 => Instr { op: Op::SBC, mode: Mode::ABY, cycles: 4 },
        0xFAu8 => Instr { op: Op::NOP, mode: Mode::IMP, cycles: 2 },
        0xFBu8 => Instr { op: Op::XXX, mode: Mode::IMP, cycles: 7 },
        0xFCu8 => Instr { op: Op::NOP, mode: Mode::IMP, cycles: 4 },
        0xFDu8 => Instr { op: Op::SBC, mode: Mode::ABX, cycles: 4 },
        0xFEu8 => Instr { op: Op::INC, mode: Mode::ABX, cycles: 7 },
        _ => Instr { op: Op::XXX, mode: Mode::IMP, cycles: 7 },
    }
}

/// The display name of each opcode: the mnemonic for the documented
/// slots, and `???` for the undocumented ones, as a specification-level
/// character sequence.
pub open spec fn spec_opcode_name(opcode: u8) -> Seq<char> {
    match opcode {
        0x00u8 => "BRK"@,
        0x01u8 => "ORA"@,
        0x02u8 => "???"@,
        0x03u8 => "???"@,
        0x04u8 => "???"@,
        0x05u8 => "ORA"@,
        0x06u8 => "ASL"@,
        0x07u8 => "???"@,
        0x08u8 => "PHP"@,
        0x09u8 => "ORA"@,
        0x0Au8 => "ASL"@,
        0x0Bu8 => "???"@,
        0x0Cu8 => "???"@,
        0x0Du8 => "ORA"@,
        0x0Eu8 => "ASL"@,
        0x0Fu8 => "???"@,
        0x10u8 => "BPL"@,
        0x11u8 => "ORA"@,
        0x12u8 => "???"@,
        0x13u8 => "???"@,
        0x14u8 => "???"@,
        0x15u8 => "ORA"@,
        0x16u8 => "ASL"@,
        0x17u8 => "???"@,
        0x18u8 => "CLC"@,
        0x19u8 => "ORA"@,
        0x1Au8 => "???"@,
        0x1Bu8 => "???"@,
        0x1Cu8 => "???"@,
        0x1Du8 => "ORA"@,
        0x1Eu8 => "ASL"@,
        0x1Fu8 => "???"@,
        0x20u8 => "JSR"@,
        0x21u8 => "AND"@,
        0x22u8 => "???"@,
        0x23u8 => "???"@,
        0x24u8 => "BIT"@,
        0x25u8 => "AND"@,
        0x26u8 => "ROL"@,
        0x27u8 => "???"@,
        0x28u8 => "PLP"@,
        0x29u8 => "AND"@,
        0x2Au8 => "ROL"@,
        0x2Bu8 => "???"@,
        0x2Cu8 => "BIT"@,
        0x2Du8 => "AND"@,
        0x2Eu8 => "ROL"@,
        0x2Fu8 => "???"@,
        0x30u8 => "BMI"@,
        0x31u8 => "AND"@,
        0x32u8 => "???"@,
        0x33u8 => "???"@,
        0x34u8 => "???"@,
        0x35u8 => "AND"@,
        0x36u8 => "ROL"@,
        0x37u8 => "???"@,
        0x38u8 => "SEC"@,
        0x39u8 => "AND"@,
        0x3Au8 => "???"@,
        0x3Bu8 => "???"@,
        0x3Cu8 => "???"@,
        0x3Du8 => "AND"@,
        0x3Eu8 => "ROL"@,
        0x3Fu8 => "???"@,
        0x40u8 => "RTI"@,
        0x41u8 => "EOR"@,
        0x42u8 => "???"@,
        0x43u8 => "???"@,
        0x44u8 => "???"@,
        0x45u8 => "EOR"@,
        0x46u8 => "LSR"@,
        0x47u8 => "???"@,
        0x48u8 => "PHA"@,
        0x49u8 => "EOR"@,
        0x4Au8 => "LSR"@,
        0x4Bu8 => "???"@,
        0x4Cu8 => "JMP"@,
        0x4Du8 => "EOR"@,
        0x4Eu8 => "LSR"@,
        0x4Fu8 => "???"@,
        0x50u8 => "BVC"@,
        0x51u8 => "EOR"@,
        0x52u8 => "???"@,
        0x53u8 => "???"@,
        0x54u8 => "???"@,
        0x55u8 => "EOR"@,
        0x56u8 => "LSR"@,
        0x57u8 => "???"@,
        0x58u8 => "CLI"@,
        0x59u8 => "EOR"@,
        0x5Au8 => "???"@,
        0x5Bu8 => "???"@,
        0x5Cu8 => "???"@,
        0x5Du8 => "EOR"@,
        0x5Eu8 => "LSR"@,
        0x5Fu8 => "???"@,
        0x60u8 => "RTS"@,
        0x61u8 => "ADC"@,
        0x62u8 => "???"@,
        0x63u8 => "???"@,
        0x64u8 => "???"@,
        0x65u8 => "ADC"@,
        0x66u8 => "ROR"@,
        0x67u8 => "???"@,
        0x68u8 => "PLA"@,
        0x69u8 => "ADC"@,
        0x6Au8 => "ROR"@,
        0x6Bu8 => "???"@,
        0x6Cu8 => "JMP"@,
        0x6Du8 => "ADC"@,
        0x6Eu8 => "ROR"@,
        0x6Fu8 => "???"@,
        0x70u8 => "BVS"@,
        0x71u8 => "ADC"@,
        0x72u8 => "???"@,
        0x73u8 => "???"@,
        0x74u8 => "???"@,
        0x75u8 => "ADC"@,
        0x76u8 => "ROR"@,
        0x77u8 => "???"@,
        0x78u8 => "SEI"@,
        0x79u8 => "ADC"@,
        0x7Au8 => "???"@,
        0x7Bu8 => "???"@,
        0x7Cu8 => "???"@,
        0x7Du8 => "ADC"@,
        0x7Eu8 => "ROR"@,
        0x7Fu8 => "???"@,
        0x80u8 => "???"@,
        0x81u8 => "STA"@,
        0x82u8 => "???"@,
        0x83u8 => "???"@,
        0x84u8 => "STY"@,
        0x85u8 => "STA"@,
        0x86u8 => "STX"@,
        0x87u8 => "???"@,
        0x88u8 => "DEY"@,
        0x89u8 => "???"@,
        0x8Au8 => "TXA"@,
        0x8Bu8 => "???"@,
        0x8Cu8 => "STY"@,
        0x8Du8 => "STA"@,
        0x8Eu8 => "STX"@,
        0x8Fu8 => "???"@,
        0x90u8 => "BCC"@,
        0x91u8 => "STA"@,
        0x92u8 => "???"@,
        0x93u8 => "???"@,
        0x94u8 => "STY"@,
        0x95u8 => "STA"@,
        0x96u8 => "STX"@,
        0x97u8 => "???"@,
        0x98u8 => "TYA"@,
        0x99u8 => "STA"@,
        0x9Au8 => "TXS"@,
        0x9Bu8 => "???"@,
        0x9Cu8 => "???"@,
        0x9Du8 => "STA"@,
        0x9Eu8 => "???"@,
        0x9Fu8 => "???"@,
        0xA0u8 => "LDY"@,
        0xA1u8 => "LDA"@,
        0xA2u8 => "LDX"@,
        0xA3u8 => "???"@,
        0xA4u8 => "LDY"@,
        0xA5u8 => "LDA"@,
        0xA6u8 => "LDX"@,
        0xA7u8 => "???"@,
        0xA8u8 => "TAY"@,
        0xA9u8 => "LDA"@,
        0xAAu8 => "TAX"@,
        0xABu8 => "???"@,
        0xACu8 => "LDY"@,
        0xADu8 => "LDA"@,
        0xAEu8 => "LDX"@,
        0xAFu8 => "???"@,
        0xB0u8 => "BCS"@,
        0xB1u8 => "LDA"@,
        0xB2u8 => "???"@,
        0xB3u8 => "???"@,
        0xB4u8 => "LDY"@,
        0xB5u8 => "LDA"@,
        0xB6u8 => "LDX"@,
        0xB7u8 => "???"@,
        0xB8u8 => "CLV"@,
        0xB9u8 => "LDA"@,
        0xBAu8 => "TSX"@,
        0xBBu8 => "???"@,
        0xBCu8 => "LDY"@,
        0xBDu8 => "LDA"@,
        0xBEu8 => "LDX"@,
        0xBFu8 => "???"@,
        0xC0u8 => "CPY"@,
        0xC1u8 => "CMP"@,
        0xC2u8 => "???"@,
        0xC3u8 => "???"@,
        0xC4u8 => "CPY"@,
        0xC5u8 => "CMP"@,
        0xC6u8 => "DEC"@,
        0xC7u8 => "???"@,
        0xC8u8 => "INY"@,
        0xC9u8 => "CMP"@,
        0xCAu8 => "DEX"@,
        0xCBu8 => "???"@,
        0xCCu8 => "CPY"@,
        0xCDu8 => "CMP"@,
        0xCEu8 => "DEC"@,
        0xCFu8 => "???"@,
        0xD0u8 => "BNE"@,
        0xD1u8 => "CMP"@,
        0xD2u8 => "???"@,
        0xD3u8 => "???"@,
        0xD4u8 => "???"@,
        0xD5u8 => "CMP"@,
        0xD6u8 => "DEC"@,
        0xD7u8 => "???"@,
        0xD8u8 => "CLD"@,
        0xD9u8 => "CMP"@,
        0xDAu8 => "NOP"@,
        0xDBu8 => "???"@,
        0xDCu8 => "???"@,
        0xDDu8 => "CMP"@,
        0xDEu8 => "DEC"@,
        0xDFu8 => "???"@,
        0xE0u8 => "CPX"@,
        0xE1u8 => "SBC"@,
        0xE2u8 => "???"@,
        0xE3u8 => "???"@,
        0xE4u8 => "CPX"@,
        0xE5u8 => "SBC"@,
        0xE6u8 => "INC"@,
        0xE7u8 => "???"@,
        0xE8u8 => "INX"@,
        0xE9u8 => "SBC"@,
        0xEAu8 => "NOP"@,
        0xEBu8 => "???"@,
        0xECu8 => "CPX"@,
        0xEDu8 => "SBC"@,
        0xEEu8 => "INC"@,
        0xEFu8 => "???"@,
        0xF0u8 => "BEQ"@,
        0xF1u8 => "SBC"@,
        0xF2u8 => "???"@,
        0xF3u8 => "???"@,
        0xF4u8 => "???"@,
        0xF5u8 => "SBC"@,
        0xF6u8 => "INC"@,
        0xF7u8 => "???"@,
        0xF8u8 => "SED"@,
        0xF9u8 => "SBC"@,
        0xFAu8 => "NOP"@,
        0xFBu8 => "???"@,
        0xFCu8 => "???"@,
        0xFDu8 => "SBC"@,
        0xFEu8 => "INC"@,
        _ => "???"@,
    }
}

/// The display name of each opcode.
pub fn opcode_name(opcode: u8) -> (r: &'static str)
    ensures
        r@ == spec_opcode_name(opcode),
{
    match opcode {
        0x00u8 => "BRK",
        0x01u8 => "ORA",
        0x02u8 => "???",
        0x03u8 => "???",
        0x04u8 => "???",
        0x05u8 => "ORA",
        0x06u8 => "ASL",
        0x07u8 => "???",
        0x08u8 => "PHP",
        0x09u8 => "ORA",
        0x0Au8 => "ASL",
        0x0Bu8 => "???",
        0x0Cu8 => "???",
        0x0Du8 => "ORA",
        0x0Eu8 => "ASL",
        0x0Fu8 => "???",
        0x10u8 => "BPL",
        0x11u8 => "ORA",
        0x12u8 => "???",
        0x13u8 => "???",
        0x14u8 => "???",
        0x15u8 => "ORA",
        0x16u8 => "ASL",
        0x17u8 => "???",
        0x18u8 => "CLC",
        0x19u8 => "ORA",
        0x1Au8 => "???",
        0x1Bu8 => "???",
        0x1Cu8 => "???",
        0x1Du8 => "ORA",
        0x1Eu8 => "ASL",
        0x1Fu8 => "???",
        0x20u8 => "JSR",
        0x21u8 => "AND",
        0x22u8 => "???",
        0x23u8 => "???",
        0x24u8 => "BIT",
        0x25u8 => "AND",
        0x26u8 => "ROL",
        0x27u8 => "???",
        0x28u8 => "PLP",
        0x29u8 => "AND",
        0x2Au8 => "ROL",
        0x2Bu8 => "???",
        0x2Cu8 => "BIT",
        0x2Du8 => "AND",
        0x2Eu8 => "ROL",
        0x2Fu8 => "???",
        0x30u8 => "BMI",
        0x31u8 => "AND",
        0x32u8 => "???",
        0x33u8 => "???",
        0x34u8 => "???",
        0x35u8 => "AND",
        0x36u8 => "ROL",
        0x37u8 => "???",
        0x38u8 => "SEC",
        0x39u8 => "AND",
        0x3Au8 => "???",
        0x3Bu8 => "???",
        0x3Cu8 => "???",
        0x3Du8 => "AND",
        0x3Eu8 => "ROL",
        0x3Fu8 => "???",
        0x40u8 => "RTI",
        0x41u8 => "EOR",
        0x42u8 => "???",
        0x43u8 => "???",
        0x44u8 => "???",
        0x45u8 => "EOR",
        0x46u8 => "LSR",
        0x47u8 => "???",
        0x48u8 => "PHA",
        0x49u8 => "EOR",
        0x4Au8 => "LSR",
        0x4Bu8 => "???",
        0x4Cu8 => "JMP",
        0x4Du8 => "EOR",
        0x4Eu8 => "LSR",
        0x4Fu8 => "???",
        0x50u8 => "BVC",
        0x51u8 => "EOR",
        0x52u8 => "???",
        0x53u8 => "???",
        0x54u8 => "???",
        0x55u8 => "EOR",
        0x56u8 => "LSR",
        0x57u8 => "???",
        0x58u8 => "CLI",
        0x59u8 => "EOR",
        0x5Au8 => "???",
        0x5Bu8 => "???",
        0x5Cu8 => "???",
        0x5Du8 => "EOR",
        0x5Eu8 => "LSR",
        0x5Fu8 => "???",
        0x60u8 => "RTS",
        0x61u8 => "ADC",
        0x62u8 => "???",
        0x63u8 => "???",
        0x64u8 => "???",
        0x65u8 => "ADC",
        0x66u8 => "ROR",
        0x67u8 => "???",
        0x68u8 => "PLA",
        0x69u8 => "ADC",
        0x6Au8 => "ROR",
        0x6Bu8 => "???",
        0x6Cu8 => "JMP",
        0x6Du8 => "ADC",
        0x6Eu8 => "ROR",
        0x6Fu8 => "???",
        0x70u8 => "BVS",
        0x71u8 => "ADC",
        0x72u8 => "???",
        0x73u8 => "???",
        0x74u8 => "???",
        0x75u8 => "ADC",
        0x76u8 => "ROR",
        0x77u8 => "???",
        0x78u8 => "SEI",
        0x79u8 => "ADC",
        0x7Au8 => "???",
        0x7Bu8 => "???",
        0x7Cu8 => "???",
        0x7Du8 => "ADC",
        0x7Eu8 => "ROR",
        0x7Fu8 => "???",
        0x80u8 => "???",
        0x81u8 => "STA",
        0x82u8 => "???",
        0x83u8 => "???",
        0x84u8 => "STY",
        0x85u8 => "STA",
        0x86u8 => "STX",
        0x87u8 => "???",
        0x88u8 => "DEY",
        0x89u8 => "???",
        0x8Au8 => "TXA",
        0x8Bu8 => "???",
        0x8Cu8 => "STY",
        0x8Du8 => "STA",
        0x8Eu8 => "STX",
        0x8Fu8 => "???",
        0x90u8 => "BCC",
        0x91u8 => "STA",
        0x92u8 => "???",
        0x93u8 => "???",
        0x94u8 => "STY",
        0x95u8 => "STA",
        0x96u8 => "STX",
        0x97u8 => "???",
        0x98u8 => "TYA",
        0x99u8 => "STA",
        0x9Au8 => "TXS",
        0x9Bu8 => "???",
        0x9Cu8 => "???",
        0x9Du8 => "STA",
        0x9Eu8 => "???",
        0x9Fu8 => "???",
        0xA0u8 => "LDY",
        0xA1u8 => "LDA",
        0xA2u8 => "LDX",
        0xA3u8 => "???",
        0xA4u8 => "LDY",
        0xA5u8 => "LDA",
        0xA6u8 => "LDX",
        0xA7u8 => "???",
        0xA8u8 => "TAY",
        0xA9u8 => "LDA",
        0xAAu8 => "TAX",
        0xABu8 => "???",
        0xACu8 => "LDY",
        0xADu8 => "LDA",
        0xAEu8 => "LDX",
        0xAFu8 => "???",
        0xB0u8 => "BCS",
        0xB1u8 => "LDA",
        0xB2u8 => "???",
        0xB3u8 => "???",
        0xB4u8 => "LDY",
        0xB5u8 => "LDA",
        0xB6u8 => "LDX",
        0xB7u8 => "???",
        0xB8u8 => "CLV",
        0xB9u8 => "LDA",
        0xBAu8 => "TSX",
        0xBBu8 => "???",
        0xBCu8 => "LDY",
        0xBDu8 => "LDA",
        0xBEu8 => "LDX",
        0xBFu8 => "???",
        0xC0u8 => "CPY",
        0xC1u8 => "CMP",
        0xC2u8 => "???",
        0xC3u8 => "???",
        0xC4u8 => "CPY",
        0xC5u8 => "CMP",
        0xC6u8 => "DEC",
        0xC7u8 => "???",
        0xC8u8 => "INY",
        0xC9u8 => "CMP",
        0xCAu8 => "DEX",
        0xCBu8 => "???",
        0xCCu8 => "CPY",
        0xCDu8 => "CMP",
        0xCEu8 => "DEC",
        0xCFu8 => "???",
        0xD0u8 => "BNE",
        0xD1u8 => "CMP",
        0xD2u8 => "???",
        0xD3u8 => "???",
        0xD4u8 => "???",
        0xD5u8 => "CMP",
        0xD6u8 => "DEC",
        0xD7u8 => "???",
        0xD8u8 => "CLD",
        0xD9u8 => "CMP",
        0xDAu8 => "NOP",
        0xDBu8 => "???",
        0xDCu8 => "???",
        0xDDu8 => "CMP",
        0xDEu8 => "DEC",
        0xDFu8 => "???",
        0xE0u8 => "CPX",
        0xE1u8 => "SBC",
        0xE2u8 => "???",
        0xE3u8 => "???",
        0xE4u8 => "CPX",
        0xE5u8 => "SBC",
        0xE6u8 => "INC",
        0xE7u8 => "???",
        0xE8u8 => "INX",
        0xE9u8 => "SBC",
        0xEAu8 => "NOP",
        0xEBu8 => "???",
        0xECu8 => "CPX",
        0xEDu8 => "SBC",
        0xEEu8 => "INC",
        0xEFu8 => "???",
        0xF0u8 => "BEQ",
        0xF1u8 => "SBC",
        0xF2u8 => "???",
        0xF3u8 => "???",
        0xF4u8 => "???",
        0xF5u8 => "SBC",
        0xF6u8 => "INC",
        0xF7u8 => "???",
        0xF8u8 => "SED",
        0xF9u8 => "SBC",
        0xFAu8 => "NOP",
        0xFBu8 => "???",
        0xFCu8 => "???",
        0xFDu8 => "SBC",
        0xFEu8 => "INC",
        _ => "???",
    }
}

} // verus!
