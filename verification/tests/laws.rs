use nes_emu::bus::Bus;
use nes_emu::cartridge::Cartridge;
use nes_emu::cpu::{Cpu, Flag, Stack};

fn boot(code: &[u8]) -> (Cpu, Bus) {
    let mut bus = Bus::load(code, 0x0600);
    bus.write_u16(0xFFFC, 0x0600);
    let mut cpu = Cpu::new();
    cpu.reset(&mut bus);
    cpu.cycles = 0;
    (cpu, bus)
}

// Runs one whole instruction.
fn step(cpu: &mut Cpu, bus: &mut Bus) {
    cpu.clock(bus);
    while cpu.cycles > 0 {
        cpu.clock(bus);
    }
}

#[test]
fn law_read_after_write() {
    let mut bus = Bus::new();
    bus.write(0x0123, 0xAB);
    assert_eq!(bus.read(0x0123), 0xAB);
    bus.write(0x0124, 0xCD);
    assert_eq!(bus.read(0x0123), 0xAB);
}

#[test]
fn law_ram_mirrored_every_2k() {
    let mut bus = Bus::new();
    bus.write(0x0042, 0x99);
    assert_eq!(bus.read(0x0842), 0x99);
    assert_eq!(bus.read(0x1042), 0x99);
    assert_eq!(bus.read(0x1842), 0x99);
    bus.write(0x1FFF, 0x11);
    assert_eq!(bus.read(0x07FF), 0x11);
}

#[test]
fn law_word_roundtrip_little_endian() {
    let mut bus = Bus::new();
    bus.write_u16(0x0300, 0xBEEF);
    assert_eq!(bus.read(0x0300), 0xEF);
    assert_eq!(bus.read(0x0301), 0xBE);
    assert_eq!(bus.read_u16(0x0300), 0xBEEF);
}

#[test]
fn law_word_wraps_at_top_of_memory() {
    let mut bus = Bus::new();
    bus.write_u16(0xFFFF, 0x1234);
    assert_eq!(bus.read(0xFFFF), 0x34);
    assert_eq!(bus.read(0x0000), 0x12);
    assert_eq!(bus.read_u16(0xFFFF), 0x1234);
}

#[test]
fn law_load_reads_back() {
    let bus = Bus::load(&[1, 2, 3], 0x07FF);
    assert_eq!(bus.read(0x07FF), 1);
    assert_eq!(bus.read(0x0800), 2);
    assert_eq!(bus.read(0x0000), 2);
    assert_eq!(bus.read(0x0001), 3);
}

#[test]
fn law_cartridge_write_does_not_reach_rom() {
    let mut rom = vec![0x4E, 0x45, 0x53, 0x1A, 1, 1, 0, 0, 0, 0, 0, 0, 0, 0, 0, 0];
    rom.extend(vec![0x77u8; 16384]);
    rom.extend(vec![0u8; 8192]);
    let mut bus = Bus::new();
    bus.insert_cartridge(Cartridge::from_bytes(&rom).unwrap());
    bus.write(0x8000, 0x12);
    assert_eq!(bus.read(0x8000), 0x77);
    assert_eq!(bus.read(0xC000), 0x77);
    bus.write(0x0800, 0x12);
    assert_eq!(bus.read(0x0000), 0x12);
    assert_eq!(bus.read(0x2000), 0);
    assert_eq!(bus.read(0x4020), 0);
}

#[test]
fn law_stack_push_then_pop() {
    let mut bus = Bus::new();
    let mut stack = Stack { ptr: 0xFD };
    stack.push(0x42, &mut bus);
    assert_eq!(stack.ptr, 0xFC);
    assert_eq!(bus.read(0x01FD), 0x42);
    assert_eq!(stack.pop(&mut bus), 0x42);
    assert_eq!(stack.ptr, 0xFD);
}

#[test]
fn law_stack_wraps_within_page_one() {
    let mut bus = Bus::new();
    let mut stack = Stack { ptr: 0x00 };
    stack.push(0x55, &mut bus);
    assert_eq!(stack.ptr, 0xFF);
    assert_eq!(bus.read(0x0100), 0x55);
    assert_eq!(stack.pop(&mut bus), 0x55);
    assert_eq!(stack.ptr, 0x00);
}

#[test]
fn law_jsr_then_rts_returns_after_call() {
    // JSR $0610 ... at $0610: RTS
    let mut code = vec![0x20, 0x10, 0x06];
    code.resize(0x10, 0xEA);
    code.push(0x60);
    let (mut cpu, mut bus) = boot(&code);
    let sp = cpu.stack.ptr;
    step(&mut cpu, &mut bus);
    assert_eq!(cpu.pc, 0x0610);
    step(&mut cpu, &mut bus);
    assert_eq!(cpu.pc, 0x0603);
    assert_eq!(cpu.stack.ptr, sp);
}

#[test]
fn law_brk_then_rti_restores_state() {
    // BRK at $0600 with IRQ vector at $0700: RTI.
    let (mut cpu, mut bus) = boot(&[0x00, 0x00]);
    bus.write(0x0700, 0x40);
    bus.write_u16(0xFFFE, 0x0700);
    cpu.set_flag(Flag::C, true);
    let status = cpu.status;
    let sp = cpu.stack.ptr;
    step(&mut cpu, &mut bus);
    assert_eq!(cpu.pc, 0x0700);
    assert!(cpu.get_flag(Flag::I));
    step(&mut cpu, &mut bus);
    // The operand byte is skipped, and BRK itself steps one further.
    assert_eq!(cpu.pc, 0x0603);
    assert_eq!(cpu.stack.ptr, sp);
    assert_eq!(cpu.status, status);
}

#[test]
fn law_irq_then_rti_restores_state() {
    let (mut cpu, mut bus) = boot(&[0xEA]);
    bus.write(0x0700, 0x40);
    bus.write_u16(0xFFFE, 0x0700);
    cpu.set_flag(Flag::N, true);
    let status = cpu.status;
    cpu.irq(&mut bus);
    assert_eq!(cpu.pc, 0x0700);
    assert_eq!(cpu.cycles, 7);
    cpu.cycles = 0;
    step(&mut cpu, &mut bus);
    assert_eq!(cpu.pc, 0x0600);
    // The saved status had I set (and B clear).
    assert_eq!(cpu.status, status | 0x04);
    assert_eq!(cpu.stack.ptr, 0xFD);
}

#[test]
fn law_sbc_is_adc_of_inverted_operand() {
    // SEC; LDA #$50; SBC #$F0  versus  SEC; LDA #$50; ADC #$0F
    let (mut c1, mut b1) = boot(&[0x38, 0xA9, 0x50, 0xE9, 0xF0]);
    let (mut c2, mut b2) = boot(&[0x38, 0xA9, 0x50, 0x69, 0x0F]);
    for _ in 0..3 {
        step(&mut c1, &mut b1);
        step(&mut c2, &mut b2);
    }
    assert_eq!(c1.a, 0x60);
    assert_eq!(c1.a, c2.a);
    assert_eq!(c1.status, c2.status);
    assert!(!c1.get_flag(Flag::C));
}

#[test]
fn law_adc_signed_overflow() {
    // CLC; LDA #$50; ADC #$50 -> 0xA0, V and N set, C clear.
    let (mut cpu, mut bus) = boot(&[0x18, 0xA9, 0x50, 0x69, 0x50]);
    for _ in 0..3 {
        step(&mut cpu, &mut bus);
    }
    assert_eq!(cpu.a, 0xA0);
    assert!(cpu.get_flag(Flag::V));
    assert!(cpu.get_flag(Flag::N));
    assert!(!cpu.get_flag(Flag::C));
    assert!(!cpu.get_flag(Flag::Z));
}

#[test]
fn law_compare_sets_flags_like_subtraction() {
    // LDA #$40; CMP #$41 -> borrow: C clear, N set (0xFF), Z clear.
    let (mut cpu, mut bus) = boot(&[0xA9, 0x40, 0xC9, 0x41]);
    step(&mut cpu, &mut bus);
    step(&mut cpu, &mut bus);
    assert!(!cpu.get_flag(Flag::C));
    assert!(cpu.get_flag(Flag::N));
    assert!(!cpu.get_flag(Flag::Z));
    assert_eq!(cpu.a, 0x40);
}

#[test]
fn law_set_flag_touches_only_that_flag() {
    let mut cpu = Cpu::new();
    cpu.status = 0b1010_0101;
    cpu.set_flag(Flag::Z, true);
    assert_eq!(cpu.status, 0b1010_0111);
    cpu.set_flag(Flag::N, false);
    assert_eq!(cpu.status, 0b0010_0111);
    cpu.set_flag(Flag::N, false);
    assert_eq!(cpu.status, 0b0010_0111);
    assert!(cpu.get_flag(Flag::Z));
    assert!(!cpu.get_flag(Flag::N));
}

#[test]
fn law_zero_page_indexed_wraps_in_page_zero() {
    // LDX #$FF; LDA $80,X reads $007F, not $017F.
    let (mut cpu, mut bus) = boot(&[0xA2, 0xFF, 0xB5, 0x80]);
    bus.write(0x007F, 0x11);
    bus.write(0x017F, 0x22);
    step(&mut cpu, &mut bus);
    step(&mut cpu, &mut bus);
    assert_eq!(cpu.a, 0x11);
}

#[test]
fn law_page_cross_costs_a_cycle() {
    // LDX #$01; LDA $06FF,X crosses into page 7: 4 + 1 cycles.
    let (mut cpu, mut bus) = boot(&[0xA2, 0x01, 0xBD, 0xFF, 0x06]);
    step(&mut cpu, &mut bus);
    cpu.clock(&mut bus);
    assert_eq!(cpu.cycles, 4);
    let (mut cpu, mut bus) = boot(&[0xA2, 0x01, 0xBD, 0x00, 0x06]);
    step(&mut cpu, &mut bus);
    cpu.clock(&mut bus);
    assert_eq!(cpu.cycles, 3);
}

#[test]
fn law_can_clock_refuses_rts_to_end_of_memory() {
    let (mut cpu, mut bus) = boot(&[0x60]);
    assert!(cpu.can_clock(&bus));
    cpu.stack.push(0xFF, &mut bus);
    cpu.stack.push(0xFF, &mut bus);
    assert!(!cpu.can_clock(&bus));
    cpu.cycles = 1;
    assert!(cpu.can_clock(&bus));
}

#[test]
fn new_cpu_is_zeroed_until_reset() {
    let cpu = Cpu::new();
    assert_eq!(cpu.stack.ptr, 0);
    assert_eq!(cpu.status, 0x20);
    let mut bus = Bus::new();
    let mut cpu = Cpu::new();
    cpu.reset(&mut bus);
    assert_eq!(cpu.stack.ptr, 0xFD);
}
