use mos6502::cpu::cpu6502;

#[test]
fn disassemble_immediate_and_absolute() {
    let mut cpu = cpu6502::new();
    let program = [0xA9, 0x05, 0x8D, 0x00, 0x02];
    let mut addr: u16 = 0x8000;
    for &b in &program {
        cpu.bus.write(addr, b);
        addr += 1;
    }
    let map = cpu.disassemble(0x8000, 0x8004);
    assert_eq!(map.len(), 2);
    assert_eq!(map.get(&0x8000).unwrap(), "$8000: LDA #$05 {IMM}");
    assert_eq!(map.get(&0x8002).unwrap(), "$8002: STA $0200 {ABS}");
}

#[test]
fn disassemble_modes() {
    let mut cpu = cpu6502::new();
    // DEX (implied), BNE -3 (relative), JMP ($10FF) (indirect),
    // LDA $40,X (zero page indexed).
    let program = [0xCA, 0xD0, 0xFD, 0x6C, 0xFF, 0x10, 0xB5, 0x40];
    let mut addr: u16 = 0x0600;
    for &b in &program {
        cpu.bus.write(addr, b);
        addr += 1;
    }
    let map = cpu.disassemble(0x0600, 0x0607);
    assert_eq!(map.get(&0x0600).unwrap(), "$0600: DEX  {IMP}");
    // The relative target prints the unsigned operand byte added to
    // the following address: 0x0603 + 0x00FD.
    assert_eq!(map.get(&0x0601).unwrap(), "$0601: BNE $[0700] {REL}");
    assert_eq!(map.get(&0x0603).unwrap(), "$0603: JMP $(10ff) {IND}");
    assert_eq!(map.get(&0x0606).unwrap(), "$0606: LDA $40 {ZPX}");
}

#[test]
fn disassemble_unofficial_slot() {
    let mut cpu = cpu6502::new();
    cpu.bus.write(0x0000, 0x02);
    let map = cpu.disassemble(0x0000, 0x0000);
    assert_eq!(map.get(&0x0000).unwrap(), "$0000: ???  {IMP}");
}

#[test]
fn disassemble_does_not_touch_state() {
    let mut cpu = cpu6502::new();
    cpu.bus.write(0xFFFC, 0x00);
    cpu.bus.write(0xFFFD, 0x80);
    cpu.reset();
    let pc = cpu.pc;
    let cycles = cpu.cycles;
    let _ = cpu.disassemble(0x0000, 0x00FF);
    assert_eq!(cpu.pc, pc);
    assert_eq!(cpu.cycles, cycles);
}

#[test]
fn disassemble_keys_are_instruction_starts() {
    let mut cpu = cpu6502::new();
    // Three-byte, two-byte and one-byte instructions in a row.
    let program = [0x4C, 0x00, 0x90, 0xA2, 0x03, 0xEA];
    let mut addr: u16 = 0x1000;
    for &b in &program {
        cpu.bus.write(addr, b);
        addr += 1;
    }
    let map = cpu.disassemble(0x1000, 0x1005);
    let keys: Vec<u16> = map.keys().copied().collect();
    assert_eq!(keys, vec![0x1000, 0x1003, 0x1005]);
}
