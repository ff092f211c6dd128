use mos6502::cpu::cpu6502;
use mos6502::flags::FLAGS6502;

/// Loads a program at 0x8000, points the reset vector at it, resets the
/// processor and burns the reset delay.
fn setup(program: &[u8]) -> cpu6502 {
    let mut cpu = cpu6502::new();
    let mut addr: u16 = 0x8000;
    for &b in program {
        cpu.bus.write(addr, b);
        addr += 1;
    }
    cpu.bus.write(0xFFFC, 0x00);
    cpu.bus.write(0xFFFD, 0x80);
    cpu.reset();
    while !cpu.complete() {
        cpu.clock();
    }
    cpu
}

/// Ticks until the next instruction has fully retired, returning the
/// number of ticks it took.
fn step(cpu: &mut cpu6502) -> u32 {
    let mut ticks = 0;
    loop {
        cpu.clock();
        ticks += 1;
        if cpu.complete() {
            break;
        }
    }
    ticks
}

#[test]
fn immediate_load() {
    let mut cpu = setup(&[0xA9, 0x14]);
    step(&mut cpu);
    assert_eq!(cpu.a, 0x14);
    assert_eq!(cpu.get_flag(FLAGS6502::Z), 0);
    assert_eq!(cpu.get_flag(FLAGS6502::N), 0);
}

#[test]
fn load_store_add() {
    let mut cpu = setup(&[0xA9, 0x05, 0x8D, 0x00, 0x02, 0x69, 0x03]);
    step(&mut cpu);
    step(&mut cpu);
    step(&mut cpu);
    assert_eq!(cpu.a, 0x08);
    assert_eq!(cpu.bus.read(0x0200, true), 0x05);
    assert_eq!(cpu.get_flag(FLAGS6502::C), 0);
    assert_eq!(cpu.get_flag(FLAGS6502::Z), 0);
    assert_eq!(cpu.get_flag(FLAGS6502::V), 0);
    assert_eq!(cpu.get_flag(FLAGS6502::N), 0);
}

#[test]
fn loop_with_decrement() {
    // LDX #$03; loop: DEX; BNE loop; BRK
    let mut cpu = setup(&[0xA2, 0x03, 0xCA, 0xD0, 0xFD, 0x00]);
    // 1 LDX + 3 DEX + 3 BNE (taken twice, not taken once) + 1 BRK
    for _ in 0..8 {
        step(&mut cpu);
    }
    assert_eq!(cpu.opcode, 0x00, "the eighth instruction is the BRK");
    assert_eq!(cpu.x, 0x00);
    assert_eq!(cpu.get_flag(FLAGS6502::Z), 1);
}

#[test]
fn stack_round_trip() {
    let mut cpu = setup(&[0xA9, 0x42, 0x48, 0xA9, 0x00, 0x68]);
    let sp0 = cpu.stkp;
    for _ in 0..4 {
        step(&mut cpu);
    }
    assert_eq!(cpu.a, 0x42);
    assert_eq!(cpu.stkp, sp0);
}

#[test]
fn indirect_jmp_bug() {
    let mut cpu = setup(&[0x6C, 0xFF, 0x10]);
    cpu.bus.write(0x10FF, 0x34);
    cpu.bus.write(0x1000, 0x12);
    cpu.bus.write(0x1100, 0xCD);
    step(&mut cpu);
    assert_eq!(cpu.pc, 0x1234, "high byte comes from the start of the pointer page");
}

#[test]
fn abx_page_penalty() {
    // LDA $00FF,X without a page crossing: 4 cycles.
    let mut cpu = setup(&[0xBD, 0xFF, 0x00]);
    cpu.x = 0;
    assert_eq!(step(&mut cpu), 4);

    // With X=1 the address becomes 0x0100 and the page crossing costs
    // one extra cycle.
    let mut cpu = setup(&[0xBD, 0xFF, 0x00]);
    cpu.x = 1;
    assert_eq!(step(&mut cpu), 5);
}

#[test]
fn jsr_rts_round_trip() {
    // JSR $8005; (filler); RTS at $8005.
    let mut cpu = setup(&[0x20, 0x05, 0x80, 0xEA, 0xEA, 0x60]);
    step(&mut cpu);
    assert_eq!(cpu.pc, 0x8005);
    step(&mut cpu);
    assert_eq!(cpu.pc, 0x8003, "RTS resumes just past the three-byte JSR");
}

#[test]
fn php_plp_round_trip() {
    // SEC; SED; PHP; PLP.
    let mut cpu = setup(&[0x38, 0xF8, 0x08, 0x28]);
    step(&mut cpu);
    step(&mut cpu);
    assert_eq!(cpu.status, 0x29);
    step(&mut cpu);
    step(&mut cpu);
    // C and D come back exactly; U is forced on; the pushed copy
    // carried B set, and the pop restores it as pushed.
    assert_eq!(cpu.get_flag(FLAGS6502::C), 1);
    assert_eq!(cpu.get_flag(FLAGS6502::D), 1);
    assert_eq!(cpu.get_flag(FLAGS6502::U), 1);
    assert_eq!(cpu.status, 0x39);
}

#[test]
fn adc_carry_and_overflow() {
    // LDA #$80; ADC #$80: 0x80 + 0x80 = 0x100.
    let mut cpu = setup(&[0xA9, 0x80, 0x69, 0x80]);
    step(&mut cpu);
    step(&mut cpu);
    assert_eq!(cpu.a, 0x00);
    assert_eq!(cpu.get_flag(FLAGS6502::C), 1);
    assert_eq!(cpu.get_flag(FLAGS6502::V), 1);
    assert_eq!(cpu.get_flag(FLAGS6502::Z), 1);
    assert_eq!(cpu.get_flag(FLAGS6502::N), 0);
}

#[test]
fn sbc_with_borrow_clear() {
    // SEC; LDA #$05; SBC #$03.
    let mut cpu = setup(&[0x38, 0xA9, 0x05, 0xE9, 0x03]);
    step(&mut cpu);
    step(&mut cpu);
    step(&mut cpu);
    assert_eq!(cpu.a, 0x02);
    assert_eq!(cpu.get_flag(FLAGS6502::C), 1);
}

#[test]
fn branch_cycle_accounting() {
    // Condition false: LDA #$01 clears Z, so BEQ is not taken: 2 cycles.
    let mut cpu = setup(&[0xA9, 0x01, 0xF0, 0x02]);
    step(&mut cpu);
    assert_eq!(step(&mut cpu), 2);

    // Condition true, destination on the same page: 3 cycles.
    let mut cpu = setup(&[0xA9, 0x01, 0xD0, 0x00]);
    step(&mut cpu);
    assert_eq!(step(&mut cpu), 3);

    // Condition true, destination on another page: 4 cycles.
    let mut cpu = setup(&[0xA9, 0x01, 0xD0, 0xFB]);
    step(&mut cpu);
    assert_eq!(step(&mut cpu), 4);
    assert_eq!(cpu.pc, 0x7FFF);
}

#[test]
fn unused_flag_always_set_after_ticks() {
    let mut cpu = setup(&[0xA9, 0x00, 0x08, 0x28, 0xEA]);
    for _ in 0..5 {
        cpu.clock();
        assert_eq!(cpu.get_flag(FLAGS6502::U), 1);
    }
}

#[test]
fn reset_state() {
    let mut cpu = cpu6502::new();
    cpu.bus.write(0xFFFC, 0x34);
    cpu.bus.write(0xFFFD, 0x12);
    cpu.reset();
    assert_eq!(cpu.pc, 0x1234);
    assert_eq!(cpu.a, 0);
    assert_eq!(cpu.x, 0);
    assert_eq!(cpu.y, 0);
    assert_eq!(cpu.stkp, 0xFD);
    assert_eq!(cpu.status, 0x20);
    assert_eq!(cpu.cycles, 8);
}

#[test]
fn irq_vectors_and_masking() {
    let mut cpu = setup(&[0xEA]);
    cpu.bus.write(0xFFFE, 0x00);
    cpu.bus.write(0xFFFF, 0x90);
    let sp0 = cpu.stkp;
    cpu.irq();
    assert_eq!(cpu.pc, 0x9000);
    assert_eq!(cpu.stkp, sp0.wrapping_sub(3));
    assert_eq!(cpu.get_flag(FLAGS6502::I), 1);
    assert_eq!(cpu.cycles, 7);

    // With I set, a second request is ignored.
    let pc = cpu.pc;
    cpu.irq();
    assert_eq!(cpu.pc, pc);
    assert_eq!(cpu.stkp, sp0.wrapping_sub(3));
}

#[test]
fn nmi_never_masked() {
    let mut cpu = setup(&[0xEA]);
    cpu.bus.write(0xFFFA, 0x00);
    cpu.bus.write(0xFFFB, 0xA0);
    cpu.set_flag(FLAGS6502::I, true);
    let sp0 = cpu.stkp;
    cpu.nmi();
    assert_eq!(cpu.pc, 0xA000);
    assert_eq!(cpu.stkp, sp0.wrapping_sub(3));
    assert_eq!(cpu.cycles, 8);
}

#[test]
fn rti_restores_interrupted_context() {
    let mut cpu = setup(&[0xEA, 0xEA]);
    cpu.bus.write(0xFFFE, 0x00);
    cpu.bus.write(0xFFFF, 0x90);
    // RTI at the IRQ handler.
    cpu.bus.write(0x9000, 0x40);
    let pc0 = cpu.pc;
    cpu.irq();
    while !cpu.complete() {
        cpu.clock();
    }
    step(&mut cpu);
    assert_eq!(cpu.pc, pc0);
    assert_eq!(cpu.get_flag(FLAGS6502::B), 0);
}

#[test]
fn sp_wraps_on_overflowing_push() {
    let mut cpu = setup(&[0x48, 0x48, 0x48]);
    cpu.stkp = 0x01;
    step(&mut cpu);
    step(&mut cpu);
    assert_eq!(cpu.stkp, 0xFF, "the stack pointer wraps within the stack page");
    step(&mut cpu);
    assert_eq!(cpu.stkp, 0xFE);
}

#[test]
fn illegal_opcode_is_a_nop_with_table_cycles() {
    // 0x02 is an undocumented slot: 2 cycles, no architectural effect.
    let mut cpu = setup(&[0x02]);
    let a0 = cpu.a;
    let ticks = step(&mut cpu);
    assert_eq!(ticks, 2);
    assert_eq!(cpu.a, a0);
    assert_eq!(cpu.pc, 0x8001);

    // 0xEB aliases to SBC with 2 cycles.
    let mut cpu = setup(&[0x38, 0xA9, 0x05, 0xEB]);
    step(&mut cpu);
    step(&mut cpu);
    assert_eq!(step(&mut cpu), 2);
}

#[test]
fn multiply_by_repeated_addition() {
    // The demo program: store 10 and 3, then add 3 ten times and store
    // the product at 0x0002.
    let program = [
        0xA2, 0x0A, 0x8E, 0x00, 0x00, 0xA2, 0x03, 0x8E, 0x01, 0x00, 0xAC, 0x00, 0x00, 0xA9,
        0x00, 0x18, 0x6D, 0x01, 0x00, 0x88, 0xD0, 0xFA, 0x8D, 0x02, 0x00, 0xEA, 0xEA, 0xEA,
    ];
    let mut cpu = setup(&program);
    // 7 setup instructions, 10 rounds of ADC/DEY/BNE, and the store.
    for _ in 0..38 {
        step(&mut cpu);
    }
    assert_eq!(cpu.bus.read(0x0000, true), 10);
    assert_eq!(cpu.bus.read(0x0001, true), 3);
    assert_eq!(cpu.bus.read(0x0002, true), 30);
    assert_eq!(cpu.a, 30);
}
