use nes_emu::bus::Bus;
use nes_emu::cpu::{Cpu, Flag, IRQ_VECTOR};

fn make() -> (Cpu, Bus) {
    (Cpu::new(), Bus::new())
}

fn setup(pc: u16, mem: &[(u16, u8)]) -> (Cpu, Bus) {
    let (mut cpu, mut bus) = make();
    cpu.pc = pc;
    for &(addr, val) in mem {
        bus.write(addr, val);
    }
    (cpu, bus)
}

// --- reset ---

#[test]
fn reset_loads_pc_from_reset_vector() {
    let (mut cpu, mut bus) = make();
    bus.write(0xFFFC, 0x00);
    bus.write(0xFFFD, 0x80);
    cpu.reset(&mut bus);
    assert_eq!(cpu.pc, 0x8000);
}

#[test]
fn reset_clears_registers() {
    let (mut cpu, mut bus) = make();
    cpu.a = 0xFF;
    cpu.x = 0xFF;
    cpu.y = 0xFF;
    bus.write(0xFFFC, 0x00);
    bus.write(0xFFFD, 0x80);
    cpu.reset(&mut bus);
    assert_eq!(cpu.a, 0);
    assert_eq!(cpu.x, 0);
    assert_eq!(cpu.y, 0);
}

#[test]
fn reset_sets_stack_ptr_to_fd() {
    let (mut cpu, mut bus) = make();
    bus.write(0xFFFC, 0x00);
    bus.write(0xFFFD, 0x80);
    cpu.reset(&mut bus);
    assert_eq!(cpu.stack.ptr, 0xFD);
}

#[test]
fn reset_sets_u_flag_only() {
    let (mut cpu, mut bus) = make();
    bus.write(0xFFFC, 0x00);
    bus.write(0xFFFD, 0x80);
    cpu.reset(&mut bus);
    assert_eq!(cpu.status, Flag::U.mask());
}

#[test]
fn reset_takes_8_cycles() {
    let (mut cpu, mut bus) = make();
    cpu.reset(&mut bus);
    assert_eq!(cpu.cycles, 8);
}

// --- irq ---

#[test]
fn irq_does_nothing_when_interrupt_disabled() {
    let (mut cpu, mut bus) = make();
    bus.write(0xFFFC, 0x00);
    bus.write(0xFFFD, 0x80);
    cpu.reset(&mut bus);
    cpu.set_flag(Flag::I, true);
    let pc_before = cpu.pc;
    let sp_before = cpu.stack.ptr;
    cpu.irq(&mut bus);
    assert_eq!(cpu.pc, pc_before);
    assert_eq!(cpu.stack.ptr, sp_before);
}

#[test]
fn irq_jumps_to_irq_vector() {
    let (mut cpu, mut bus) = make();
    bus.write(0xFFFC, 0x00);
    bus.write(0xFFFD, 0x80);
    cpu.reset(&mut bus);
    cpu.set_flag(Flag::I, false);
    bus.write(0xFFFE, 0x00);
    bus.write(0xFFFF, 0x90);
    cpu.irq(&mut bus);
    assert_eq!(cpu.pc, 0x9000);
}

#[test]
fn irq_pushes_three_bytes_to_stack() {
    let (mut cpu, mut bus) = make();
    bus.write(0xFFFC, 0x00);
    bus.write(0xFFFD, 0x80);
    cpu.reset(&mut bus);
    cpu.set_flag(Flag::I, false);
    let sp_before = cpu.stack.ptr;
    cpu.irq(&mut bus);
    assert_eq!(cpu.stack.ptr, sp_before.wrapping_sub(3));
}

#[test]
fn irq_takes_7_cycles() {
    let (mut cpu, mut bus) = make();
    bus.write(0xFFFC, 0x00);
    bus.write(0xFFFD, 0x80);
    cpu.reset(&mut bus);
    cpu.set_flag(Flag::I, false);
    cpu.irq(&mut bus);
    assert_eq!(cpu.cycles, 7);
}

// --- nmi ---

#[test]
fn nmi_fires_even_when_interrupt_disabled() {
    let (mut cpu, mut bus) = make();
    bus.write(0xFFFC, 0x00);
    bus.write(0xFFFD, 0x80);
    cpu.reset(&mut bus);
    cpu.set_flag(Flag::I, true);
    bus.write(0xFFFA, 0x00);
    bus.write(0xFFFB, 0xA0);
    cpu.nmi(&mut bus);
    assert_eq!(cpu.pc, 0xA000);
}

#[test]
fn nmi_pushes_three_bytes_to_stack() {
    let (mut cpu, mut bus) = make();
    bus.write(0xFFFC, 0x00);
    bus.write(0xFFFD, 0x80);
    cpu.reset(&mut bus);
    let sp_before = cpu.stack.ptr;
    cpu.nmi(&mut bus);
    assert_eq!(cpu.stack.ptr, sp_before.wrapping_sub(3));
}

#[test]
fn nmi_takes_8_cycles() {
    let (mut cpu, mut bus) = make();
    cpu.nmi(&mut bus);
    assert_eq!(cpu.cycles, 8);
}

// --- addressing modes ---

#[test]
fn imp_stores_accumulator_in_fetched() {
    let (mut cpu, mut bus) = make();
    cpu.a = 0x42;
    cpu.imp(&mut bus);
    assert_eq!(cpu.fetched, 0x42);
}

#[test]
fn imm_sets_addr_abs_to_pc_and_advances() {
    let (mut cpu, mut bus) = setup(0x0200, &[]);
    cpu.imm(&mut bus);
    assert_eq!(cpu.addr_abs, 0x0200);
    assert_eq!(cpu.pc, 0x0201);
}

#[test]
fn zp0_reads_one_byte_address() {
    let (mut cpu, mut bus) = setup(0x0200, &[(0x0200, 0x42)]);
    cpu.zp0(&mut bus);
    assert_eq!(cpu.addr_abs, 0x0042);
    assert_eq!(cpu.pc, 0x0201);
}

#[test]
fn zpx_adds_x_and_wraps_in_zero_page() {
    let (mut cpu, mut bus) = setup(0x0200, &[(0x0200, 0xF0)]);
    cpu.x = 0x20;
    cpu.zpx(&mut bus);
    assert_eq!(cpu.addr_abs, 0x0010); // 0xF0 + 0x20 = 0x110, masked to 0x0010
}

#[test]
fn zpy_adds_y_and_wraps_in_zero_page() {
    let (mut cpu, mut bus) = setup(0x0200, &[(0x0200, 0xF0)]);
    cpu.y = 0x10;
    cpu.zpy(&mut bus);
    assert_eq!(cpu.addr_abs, 0x0000); // 0xF0 + 0x10 = 0x100, masked to 0x00
}

#[test]
fn rel_positive_offset_unchanged() {
    let (mut cpu, mut bus) = setup(0x0200, &[(0x0200, 0x10)]);
    cpu.rel(&mut bus);
    assert_eq!(cpu.addr_rel, 0x0010);
}

#[test]
fn rel_negative_offset_sign_extends() {
    let (mut cpu, mut bus) = setup(0x0200, &[(0x0200, 0x80)]); // -128 as i8
    cpu.rel(&mut bus);
    assert_eq!(cpu.addr_rel, 0xFF80);
}

#[test]
fn abs_reads_little_endian_16bit_address() {
    let (mut cpu, mut bus) = setup(0x0200, &[(0x0200, 0x34), (0x0201, 0x12)]);
    cpu.abs(&mut bus);
    assert_eq!(cpu.addr_abs, 0x1234);
    assert_eq!(cpu.pc, 0x0202);
}

#[test]
fn abx_no_page_cross_returns_0() {
    let (mut cpu, mut bus) = setup(0x0200, &[(0x0200, 0x00), (0x0201, 0x20)]);
    cpu.x = 0x01;
    let extra = cpu.abx(&mut bus);
    assert_eq!(cpu.addr_abs, 0x2001);
    assert_eq!(extra, 0);
}

#[test]
fn abx_page_cross_returns_1() {
    let (mut cpu, mut bus) = setup(0x0200, &[(0x0200, 0xFF), (0x0201, 0x20)]);
    cpu.x = 0x01;
    let extra = cpu.abx(&mut bus);
    assert_eq!(cpu.addr_abs, 0x2100);
    assert_eq!(extra, 1);
}

#[test]
fn aby_no_page_cross_returns_0() {
    let (mut cpu, mut bus) = setup(0x0200, &[(0x0200, 0x00), (0x0201, 0x20)]);
    cpu.y = 0x10;
    let extra = cpu.aby(&mut bus);
    assert_eq!(cpu.addr_abs, 0x2010);
    assert_eq!(extra, 0);
}

#[test]
fn aby_page_cross_returns_1() {
    let (mut cpu, mut bus) = setup(0x0200, &[(0x0200, 0xFE), (0x0201, 0x20)]);
    cpu.y = 0x02;
    let extra = cpu.aby(&mut bus);
    assert_eq!(cpu.addr_abs, 0x2100);
    assert_eq!(extra, 1);
}

#[test]
fn ind_reads_address_from_pointer() {
    let (mut cpu, mut bus) = setup(
        0x0200,
        &[
            (0x0200, 0x00),
            (0x0201, 0x30), // pointer stored at 0x3000
            (0x3000, 0x78),
            (0x3001, 0x56), // actual address: 0x5678
        ],
    );
    cpu.ind(&mut bus);
    assert_eq!(cpu.addr_abs, 0x5678);
}

#[test]
fn ind_page_boundary_bug_wraps_hi_byte() {
    // pointer lo is 0xFF → hi byte wraps to start of same page, not next page
    let (mut cpu, mut bus) = setup(
        0x0200,
        &[
            (0x0200, 0xFF),
            (0x0201, 0x30), // pointer at 0x30FF
            (0x30FF, 0x80), // lo byte of target
            (0x3000, 0x50), // hi byte comes from 0x3000 (bug), not 0x3100
        ],
    );
    cpu.ind(&mut bus);
    assert_eq!(cpu.addr_abs, 0x5080);
}

#[test]
fn izx_indexes_into_zero_page_by_x() {
    let (mut cpu, mut bus) = setup(
        0x0200,
        &[
            (0x0200, 0x20), // base zero-page offset
            (0x0024, 0xCD), // lo at (0x20 + x=4) = 0x24
            (0x0025, 0xAB), // hi at 0x25
        ],
    );
    cpu.x = 0x04;
    cpu.izx(&mut bus);
    assert_eq!(cpu.addr_abs, 0xABCD);
}

#[test]
fn izy_no_page_cross_returns_0() {
    let (mut cpu, mut bus) = setup(
        0x0200,
        &[
            (0x0200, 0x40), // zero-page pointer address
            (0x0040, 0x00), // lo byte → base = 0x3000
            (0x0041, 0x30),
        ],
    );
    cpu.y = 0x10;
    let extra = cpu.izy(&mut bus);
    assert_eq!(cpu.addr_abs, 0x3010);
    assert_eq!(extra, 0);
}

#[test]
fn izy_page_cross_returns_1() {
    let (mut cpu, mut bus) = setup(
        0x0200,
        &[
            (0x0200, 0x40),
            (0x0040, 0xFF), // lo byte → base = 0x30FF
            (0x0041, 0x30),
        ],
    );
    cpu.y = 0x01;
    let extra = cpu.izy(&mut bus);
    assert_eq!(cpu.addr_abs, 0x3100);
    assert_eq!(extra, 1);
}

// --- zp0 edge cases ---

#[test]
fn zp0_max_address_stays_in_zero_page() {
    let (mut cpu, mut bus) = setup(0x0200, &[(0x0200, 0xFF)]);
    cpu.zp0(&mut bus);
    assert_eq!(cpu.addr_abs, 0x00FF);
}

// --- zpx edge cases ---

#[test]
fn zpx_result_at_top_of_zero_page_no_wrap() {
    // 0xFE + 0x01 = 0xFF — max zero-page address, no wrap
    let (mut cpu, mut bus) = setup(0x0200, &[(0x0200, 0xFE)]);
    cpu.x = 0x01;
    cpu.zpx(&mut bus);
    assert_eq!(cpu.addr_abs, 0x00FF);
}

#[test]
fn zpx_wraps_from_ff_to_zero() {
    // 0xFF + 0x01 = 0x100, masked to 0x00
    let (mut cpu, mut bus) = setup(0x0200, &[(0x0200, 0xFF)]);
    cpu.x = 0x01;
    cpu.zpx(&mut bus);
    assert_eq!(cpu.addr_abs, 0x0000);
}

// --- zpy edge cases ---

#[test]
fn zpy_wraps_from_ff_to_zero() {
    // 0xFF + 0x01 = 0x100, masked to 0x00
    let (mut cpu, mut bus) = setup(0x0200, &[(0x0200, 0xFF)]);
    cpu.y = 0x01;
    cpu.zpy(&mut bus);
    assert_eq!(cpu.addr_abs, 0x0000);
}

// --- rel edge cases ---

#[test]
fn rel_max_positive_offset() {
    // 0x7F = +127, maximum positive branch range
    let (mut cpu, mut bus) = setup(0x0200, &[(0x0200, 0x7F)]);
    cpu.rel(&mut bus);
    assert_eq!(cpu.addr_rel, 0x007F);
}

#[test]
fn rel_minus_one() {
    // 0xFF = -1 as i8, sign-extends to 0xFFFF
    let (mut cpu, mut bus) = setup(0x0200, &[(0x0200, 0xFF)]);
    cpu.rel(&mut bus);
    assert_eq!(cpu.addr_rel, 0xFFFF);
}

// --- abs edge cases ---

#[test]
fn abs_top_of_address_space() {
    let (mut cpu, mut bus) = setup(0x0200, &[(0x0200, 0xFF), (0x0201, 0xFF)]);
    cpu.abs(&mut bus);
    assert_eq!(cpu.addr_abs, 0xFFFF);
}

// --- abx edge cases ---

#[test]
fn abx_last_byte_of_page_no_cross() {
    // 0x20FE + 1 = 0x20FF — still on same page, no extra cycle
    let (mut cpu, mut bus) = setup(0x0200, &[(0x0200, 0xFE), (0x0201, 0x20)]);
    cpu.x = 0x01;
    let extra = cpu.abx(&mut bus);
    assert_eq!(cpu.addr_abs, 0x20FF);
    assert_eq!(extra, 0);
}

// --- aby edge cases ---

#[test]
fn aby_last_byte_of_page_no_cross() {
    // 0x20FE + 1 = 0x20FF — still on same page, no extra cycle
    let (mut cpu, mut bus) = setup(0x0200, &[(0x0200, 0xFE), (0x0201, 0x20)]);
    cpu.y = 0x01;
    let extra = cpu.aby(&mut bus);
    assert_eq!(cpu.addr_abs, 0x20FF);
    assert_eq!(extra, 0);
}

// --- ind edge cases ---

#[test]
fn ind_page_boundary_bug_in_page_zero() {
    // pointer at 0x00FF: hi byte wraps to 0x0000, not 0x0100
    let (mut cpu, mut bus) = setup(
        0x0200,
        &[
            (0x0200, 0xFF),
            (0x0201, 0x00), // pointer = 0x00FF
            (0x00FF, 0x34), // lo byte of target
            (0x0000, 0x12), // hi byte (bug: 0x0000, not 0x0100)
        ],
    );
    cpu.ind(&mut bus);
    assert_eq!(cpu.addr_abs, 0x1234);
}

// --- izx edge cases ---

#[test]
fn izx_pointer_wraps_at_ff() {
    // base = (0xFB + x=4) & 0xFF = 0xFF; hi must come from 0x0000, not 0x0100
    let (mut cpu, mut bus) = setup(
        0x0200,
        &[
            (0x0200, 0xFB),
            (0x00FF, 0xCD), // lo byte at 0xFF
            (0x0000, 0xAB), // hi byte wraps to 0x0000
        ],
    );
    cpu.x = 0x04;
    cpu.izx(&mut bus);
    assert_eq!(cpu.addr_abs, 0xABCD);
}

// --- izy edge cases ---

#[test]
fn izy_pointer_address_at_ff() {
    // pointer lives at 0xFF; hi byte must come from 0x0000, not 0x0100
    let (mut cpu, mut bus) = setup(
        0x0200,
        &[
            (0x0200, 0xFF), // zero-page pointer address
            (0x00FF, 0x00), // lo byte of base → base = 0x3000
            (0x0000, 0x30), // hi byte wraps to 0x0000
        ],
    );
    cpu.y = 0x05;
    let extra = cpu.izy(&mut bus);
    assert_eq!(cpu.addr_abs, 0x3005);
    assert_eq!(extra, 0);
}

// --- flag ops ---

#[test]
fn clc_clears_carry() {
    let (mut cpu, mut bus) = make();
    cpu.set_flag(Flag::C, true);
    cpu.clc(&mut bus);
    assert!(!cpu.get_flag(Flag::C));
}

#[test]
fn sec_sets_carry() {
    let (mut cpu, mut bus) = make();
    cpu.set_flag(Flag::C, false);
    cpu.sec(&mut bus);
    assert!(cpu.get_flag(Flag::C));
}

#[test]
fn cld_clears_decimal() {
    let (mut cpu, mut bus) = make();
    cpu.set_flag(Flag::D, true);
    cpu.cld(&mut bus);
    assert!(!cpu.get_flag(Flag::D));
}

#[test]
fn sed_sets_decimal() {
    let (mut cpu, mut bus) = make();
    cpu.set_flag(Flag::D, false);
    cpu.sed(&mut bus);
    assert!(cpu.get_flag(Flag::D));
}

#[test]
fn cli_clears_interrupt_disable() {
    let (mut cpu, mut bus) = make();
    cpu.set_flag(Flag::I, true);
    cpu.cli(&mut bus);
    assert!(!cpu.get_flag(Flag::I));
}

#[test]
fn sei_sets_interrupt_disable() {
    let (mut cpu, mut bus) = make();
    cpu.set_flag(Flag::I, false);
    cpu.sei(&mut bus);
    assert!(cpu.get_flag(Flag::I));
}

#[test]
fn clv_clears_overflow() {
    let (mut cpu, mut bus) = make();
    cpu.set_flag(Flag::V, true);
    cpu.clv(&mut bus);
    assert!(!cpu.get_flag(Flag::V));
}

#[test]
fn flag_ops_dont_touch_other_flags() {
    let (mut cpu, mut bus) = make();
    cpu.status = 0xFF; // all flags set
    cpu.clc(&mut bus);
    // only C cleared, everything else untouched
    assert_eq!(cpu.status, 0xFF & !Flag::C.mask());
}

// --- load / store ---

fn load_setup(val: u8) -> (Cpu, Bus) {
    let (mut cpu, mut bus) = make();
    bus.write(0x0042, val);
    cpu.addr_abs = 0x0042;
    (cpu, bus)
}

#[test]
fn lda_loads_value_into_a() {
    let (mut cpu, mut bus) = load_setup(0x37);
    cpu.lda(&mut bus);
    assert_eq!(cpu.a, 0x37);
}

#[test]
fn lda_sets_zero_flag() {
    let (mut cpu, mut bus) = load_setup(0x00);
    cpu.lda(&mut bus);
    assert!(cpu.get_flag(Flag::Z));
    assert!(!cpu.get_flag(Flag::N));
}

#[test]
fn lda_sets_negative_flag() {
    let (mut cpu, mut bus) = load_setup(0x80);
    cpu.lda(&mut bus);
    assert!(cpu.get_flag(Flag::N));
    assert!(!cpu.get_flag(Flag::Z));
}

#[test]
fn lda_returns_1() {
    let (mut cpu, mut bus) = load_setup(0x01);
    assert_eq!(cpu.lda(&mut bus), 1);
}

#[test]
fn ldx_loads_value_into_x() {
    let (mut cpu, mut bus) = load_setup(0x55);
    cpu.ldx(&mut bus);
    assert_eq!(cpu.x, 0x55);
}

#[test]
fn ldx_sets_zero_and_negative_flags() {
    let (mut cpu, mut bus) = load_setup(0x00);
    cpu.ldx(&mut bus);
    assert!(cpu.get_flag(Flag::Z));

    let (mut cpu, mut bus) = load_setup(0xFF);
    cpu.ldx(&mut bus);
    assert!(cpu.get_flag(Flag::N));
}

#[test]
fn ldy_loads_value_into_y() {
    let (mut cpu, mut bus) = load_setup(0xAB);
    cpu.ldy(&mut bus);
    assert_eq!(cpu.y, 0xAB);
}

#[test]
fn ldy_sets_zero_and_negative_flags() {
    let (mut cpu, mut bus) = load_setup(0x00);
    cpu.ldy(&mut bus);
    assert!(cpu.get_flag(Flag::Z));

    let (mut cpu, mut bus) = load_setup(0x80);
    cpu.ldy(&mut bus);
    assert!(cpu.get_flag(Flag::N));
}

#[test]
fn sta_writes_a_to_addr_abs() {
    let (mut cpu, mut bus) = make();
    cpu.a = 0x42;
    cpu.addr_abs = 0x0300;
    cpu.sta(&mut bus);
    assert_eq!(bus.read(0x0300), 0x42);
}

#[test]
fn sta_does_not_change_flags() {
    let (mut cpu, mut bus) = make();
    cpu.a = 0x00; // would set Z if flags were touched
    cpu.addr_abs = 0x0300;
    let status_before = cpu.status;
    cpu.sta(&mut bus);
    assert_eq!(cpu.status, status_before);
}

#[test]
fn sta_returns_0() {
    let (mut cpu, mut bus) = make();
    cpu.addr_abs = 0x0300;
    assert_eq!(cpu.sta(&mut bus), 0);
}

#[test]
fn stx_writes_x_to_addr_abs() {
    let (mut cpu, mut bus) = make();
    cpu.x = 0x77;
    cpu.addr_abs = 0x0300;
    cpu.stx(&mut bus);
    assert_eq!(bus.read(0x0300), 0x77);
}

#[test]
fn sty_writes_y_to_addr_abs() {
    let (mut cpu, mut bus) = make();
    cpu.y = 0xBB;
    cpu.addr_abs = 0x0300;
    cpu.sty(&mut bus);
    assert_eq!(bus.read(0x0300), 0xBB);
}

// --- register transfers ---

#[test]
fn tax_copies_a_to_x() {
    let (mut cpu, mut bus) = make();
    cpu.a = 0x42;
    cpu.tax(&mut bus);
    assert_eq!(cpu.x, 0x42);
}

#[test]
fn tax_sets_n_z_flags() {
    let (mut cpu, mut bus) = make();
    cpu.a = 0x00;
    cpu.tax(&mut bus);
    assert!(cpu.get_flag(Flag::Z));
    assert!(!cpu.get_flag(Flag::N));

    cpu.a = 0x80;
    cpu.tax(&mut bus);
    assert!(cpu.get_flag(Flag::N));
    assert!(!cpu.get_flag(Flag::Z));
}

#[test]
fn tay_copies_a_to_y() {
    let (mut cpu, mut bus) = make();
    cpu.a = 0x55;
    cpu.tay(&mut bus);
    assert_eq!(cpu.y, 0x55);
}

#[test]
fn tay_sets_n_z_flags() {
    let (mut cpu, mut bus) = make();
    cpu.a = 0x00;
    cpu.tay(&mut bus);
    assert!(cpu.get_flag(Flag::Z));

    cpu.a = 0xFF;
    cpu.tay(&mut bus);
    assert!(cpu.get_flag(Flag::N));
}

#[test]
fn txa_copies_x_to_a() {
    let (mut cpu, mut bus) = make();
    cpu.x = 0x33;
    cpu.txa(&mut bus);
    assert_eq!(cpu.a, 0x33);
}

#[test]
fn txa_sets_n_z_flags() {
    let (mut cpu, mut bus) = make();
    cpu.x = 0x00;
    cpu.txa(&mut bus);
    assert!(cpu.get_flag(Flag::Z));

    cpu.x = 0x90;
    cpu.txa(&mut bus);
    assert!(cpu.get_flag(Flag::N));
}

#[test]
fn tya_copies_y_to_a() {
    let (mut cpu, mut bus) = make();
    cpu.y = 0x77;
    cpu.tya(&mut bus);
    assert_eq!(cpu.a, 0x77);
}

#[test]
fn tsx_copies_stack_ptr_to_x() {
    let (mut cpu, mut bus) = make();
    cpu.stack.ptr = 0xFD;
    cpu.tsx(&mut bus);
    assert_eq!(cpu.x, 0xFD);
}

#[test]
fn tsx_sets_n_z_flags() {
    let (mut cpu, mut bus) = make();
    cpu.stack.ptr = 0x00;
    cpu.tsx(&mut bus);
    assert!(cpu.get_flag(Flag::Z));

    cpu.stack.ptr = 0x80;
    cpu.tsx(&mut bus);
    assert!(cpu.get_flag(Flag::N));
}

#[test]
fn txs_copies_x_to_stack_ptr() {
    let (mut cpu, mut bus) = make();
    cpu.x = 0xAB;
    cpu.txs(&mut bus);
    assert_eq!(cpu.stack.ptr, 0xAB);
}

#[test]
fn txs_does_not_change_flags() {
    let (mut cpu, mut bus) = make();
    cpu.x = 0x00; // would set Z if flags were touched
    let status_before = cpu.status;
    cpu.txs(&mut bus);
    assert_eq!(cpu.status, status_before);
}

// --- stack ---

#[test]
fn pha_pushes_a_to_stack() {
    let (mut cpu, mut bus) = make();
    cpu.a = 0x42;
    let sp_before = cpu.stack.ptr;
    cpu.pha(&mut bus);
    assert_eq!(bus.read(0x0100 + sp_before as u16), 0x42);
    assert_eq!(cpu.stack.ptr, sp_before.wrapping_sub(1));
}

#[test]
fn pha_does_not_change_flags() {
    let (mut cpu, mut bus) = make();
    cpu.a = 0x00;
    let status_before = cpu.status;
    cpu.pha(&mut bus);
    assert_eq!(cpu.status, status_before);
}

#[test]
fn php_pushes_status_with_b_and_u_set() {
    let (mut cpu, mut bus) = make();
    cpu.status = 0b0000_0000; // all clear
    let sp_before = cpu.stack.ptr;
    cpu.php(&mut bus);
    let pushed = bus.read(0x0100 + sp_before as u16);
    assert!(pushed & Flag::B.mask() != 0);
    assert!(pushed & Flag::U.mask() != 0);
}

#[test]
fn php_does_not_modify_cpu_status() {
    let (mut cpu, mut bus) = make();
    cpu.status = 0b0000_0000;
    cpu.php(&mut bus);
    assert_eq!(cpu.status, 0b0000_0000);
}

#[test]
fn pla_pops_into_a() {
    let (mut cpu, mut bus) = make();
    cpu.pha(&mut bus); // push 0 (a is 0 from new())
    cpu.a = 0xFF; // change A so we can verify it's overwritten
    bus.write(0x0100 + cpu.stack.ptr.wrapping_add(1) as u16, 0x42);
    cpu.pla(&mut bus);
    assert_eq!(cpu.a, 0x42);
}

#[test]
fn pla_sets_n_z_flags() {
    let (mut cpu, mut bus) = make();
    bus.write(0x0100 + cpu.stack.ptr.wrapping_add(1) as u16, 0x00);
    cpu.pla(&mut bus);
    assert!(cpu.get_flag(Flag::Z));
    assert!(!cpu.get_flag(Flag::N));

    bus.write(0x0100 + cpu.stack.ptr.wrapping_add(1) as u16, 0x80);
    cpu.pla(&mut bus);
    assert!(cpu.get_flag(Flag::N));
    assert!(!cpu.get_flag(Flag::Z));
}

#[test]
fn plp_restores_status_clears_b_sets_u() {
    let (mut cpu, mut bus) = make();
    cpu.status = 0x00; // clear everything so initial state can't cause a false pass
    // place value with B set, U clear on the stack
    bus.write(0x0100 + cpu.stack.ptr.wrapping_add(1) as u16, 0b1101_1111);
    cpu.plp(&mut bus);
    assert!(!cpu.get_flag(Flag::B)); // B must be cleared
    assert!(cpu.get_flag(Flag::U)); // U must be set
    assert!(cpu.get_flag(Flag::N)); // N was set in pushed byte, must survive
    assert!(cpu.get_flag(Flag::C)); // C was set in pushed byte, must survive
}

// --- increment / decrement ---

#[test]
fn inx_increments_x() {
    let (mut cpu, mut bus) = make();
    cpu.x = 0x41;
    cpu.inx(&mut bus);
    assert_eq!(cpu.x, 0x42);
}

#[test]
fn inx_wraps_at_ff() {
    let (mut cpu, mut bus) = make();
    cpu.x = 0xFF;
    cpu.inx(&mut bus);
    assert_eq!(cpu.x, 0x00);
    assert!(cpu.get_flag(Flag::Z));
}

#[test]
fn inx_sets_negative_flag() {
    let (mut cpu, mut bus) = make();
    cpu.x = 0x7F;
    cpu.inx(&mut bus);
    assert_eq!(cpu.x, 0x80);
    assert!(cpu.get_flag(Flag::N));
}

#[test]
fn iny_increments_y() {
    let (mut cpu, mut bus) = make();
    cpu.y = 0x10;
    cpu.iny(&mut bus);
    assert_eq!(cpu.y, 0x11);
}

#[test]
fn iny_wraps_at_ff() {
    let (mut cpu, mut bus) = make();
    cpu.y = 0xFF;
    cpu.iny(&mut bus);
    assert_eq!(cpu.y, 0x00);
    assert!(cpu.get_flag(Flag::Z));
}

#[test]
fn dex_decrements_x() {
    let (mut cpu, mut bus) = make();
    cpu.x = 0x05;
    cpu.dex(&mut bus);
    assert_eq!(cpu.x, 0x04);
}

#[test]
fn dex_wraps_at_zero() {
    let (mut cpu, mut bus) = make();
    cpu.x = 0x00;
    cpu.dex(&mut bus);
    assert_eq!(cpu.x, 0xFF);
    assert!(cpu.get_flag(Flag::N));
}

#[test]
fn dey_decrements_y() {
    let (mut cpu, mut bus) = make();
    cpu.y = 0x03;
    cpu.dey(&mut bus);
    assert_eq!(cpu.y, 0x02);
}

#[test]
fn dey_wraps_at_zero() {
    let (mut cpu, mut bus) = make();
    cpu.x = 0x10; // x != 0 so wrong register would give wrong N flag
    cpu.y = 0x00;
    cpu.dey(&mut bus);
    assert_eq!(cpu.y, 0xFF);
    assert!(cpu.get_flag(Flag::N));
}

#[test]
fn dey_sets_zero_flag() {
    let (mut cpu, mut bus) = make();
    cpu.y = 0x01;
    cpu.dey(&mut bus);
    assert_eq!(cpu.y, 0x00);
    assert!(cpu.get_flag(Flag::Z));
}

#[test]
fn inc_increments_memory() {
    let (mut cpu, mut bus) = setup(0x0200, &[(0x0042, 0x10)]);
    cpu.addr_abs = 0x0042;
    cpu.inc(&mut bus);
    assert_eq!(bus.read(0x0042), 0x11);
}

#[test]
fn inc_wraps_memory_at_ff() {
    let (mut cpu, mut bus) = setup(0x0200, &[(0x0042, 0xFF)]);
    cpu.addr_abs = 0x0042;
    cpu.inc(&mut bus);
    assert_eq!(bus.read(0x0042), 0x00);
    assert!(cpu.get_flag(Flag::Z));
}

#[test]
fn dec_decrements_memory() {
    let (mut cpu, mut bus) = setup(0x0200, &[(0x0042, 0x10)]);
    cpu.addr_abs = 0x0042;
    cpu.dec(&mut bus);
    assert_eq!(bus.read(0x0042), 0x0F);
}

#[test]
fn dec_wraps_memory_at_zero() {
    let (mut cpu, mut bus) = setup(0x0200, &[(0x0042, 0x00)]);
    cpu.addr_abs = 0x0042;
    cpu.dec(&mut bus);
    assert_eq!(bus.read(0x0042), 0xFF);
    assert!(cpu.get_flag(Flag::N));
}

// --- logical ---

#[test]
fn and_ands_into_a() {
    let (mut cpu, mut bus) = load_setup(0b1010_1010);
    cpu.a = 0b1111_0000;
    cpu.and(&mut bus);
    assert_eq!(cpu.a, 0b1010_0000);
}

#[test]
fn and_sets_zero_flag_when_result_zero() {
    let (mut cpu, mut bus) = load_setup(0b0000_1111);
    cpu.a = 0b1111_0000;
    cpu.and(&mut bus);
    assert!(cpu.get_flag(Flag::Z));
}

#[test]
fn and_sets_negative_flag() {
    let (mut cpu, mut bus) = load_setup(0b1100_0000);
    cpu.a = 0b1111_1111;
    cpu.and(&mut bus);
    assert!(cpu.get_flag(Flag::N));
}

#[test]
fn and_returns_1() {
    let (mut cpu, mut bus) = load_setup(0xFF);
    assert_eq!(cpu.and(&mut bus), 1);
}

#[test]
fn ora_ors_into_a() {
    let (mut cpu, mut bus) = load_setup(0b0000_1111);
    cpu.a = 0b1111_0000;
    cpu.ora(&mut bus);
    assert_eq!(cpu.a, 0b1111_1111);
}

#[test]
fn ora_sets_zero_flag_when_both_zero() {
    let (mut cpu, mut bus) = load_setup(0x00);
    cpu.a = 0x00;
    cpu.ora(&mut bus);
    assert!(cpu.get_flag(Flag::Z));
}

#[test]
fn ora_returns_1() {
    let (mut cpu, mut bus) = load_setup(0x00);
    assert_eq!(cpu.ora(&mut bus), 1);
}

#[test]
fn eor_xors_into_a() {
    let (mut cpu, mut bus) = load_setup(0b1010_1010);
    cpu.a = 0b1111_1111;
    cpu.eor(&mut bus);
    assert_eq!(cpu.a, 0b0101_0101);
}

#[test]
fn eor_same_value_gives_zero() {
    let (mut cpu, mut bus) = load_setup(0x42);
    cpu.a = 0x42;
    cpu.eor(&mut bus);
    assert_eq!(cpu.a, 0x00);
    assert!(cpu.get_flag(Flag::Z));
}

#[test]
fn eor_returns_1() {
    let (mut cpu, mut bus) = load_setup(0x00);
    assert_eq!(cpu.eor(&mut bus), 1);
}

#[test]
fn bit_sets_z_when_a_and_val_is_zero() {
    let (mut cpu, mut bus) = load_setup(0b0000_1111);
    cpu.a = 0b1111_0000;
    cpu.bit(&mut bus);
    assert!(cpu.get_flag(Flag::Z));
}

#[test]
fn bit_sets_n_from_bit7_of_memory_not_result() {
    let (mut cpu, mut bus) = load_setup(0b1000_0000); // bit 7 set
    cpu.a = 0b0000_0000; // A & val = 0, but N comes from val
    cpu.bit(&mut bus);
    assert!(cpu.get_flag(Flag::N));
}

#[test]
fn bit_sets_v_from_bit6_of_memory() {
    let (mut cpu, mut bus) = load_setup(0b0100_0000); // bit 6 set
    cpu.a = 0b0000_0000;
    cpu.bit(&mut bus);
    assert!(cpu.get_flag(Flag::V));
}

#[test]
fn bit_clears_v_when_bit6_clear() {
    let (mut cpu, mut bus) = load_setup(0b1000_0000); // bit 6 clear
    cpu.set_flag(Flag::V, true);
    cpu.bit(&mut bus);
    assert!(!cpu.get_flag(Flag::V));
}

// --- shifts and rotates ---

// For imp mode tests, set opcode to a known imp instruction (0xEA = NOP/imp)
// so fetch() returns fetched (which imp() set to A) rather than reading memory.
fn imp_mode_setup() -> (Cpu, Bus) {
    let (mut cpu, bus) = make();
    cpu.opcode = 0xEA; // NOP — imp addressing
    (cpu, bus)
}

#[test]
fn asl_shifts_memory_left() {
    let (mut cpu, mut bus) = load_setup(0b0100_0010);
    cpu.asl(&mut bus);
    assert_eq!(bus.read(0x0042), 0b1000_0100);
    assert!(!cpu.get_flag(Flag::C));
}

#[test]
fn asl_puts_old_bit7_in_carry() {
    let (mut cpu, mut bus) = load_setup(0b1000_0001);
    cpu.asl(&mut bus);
    assert!(cpu.get_flag(Flag::C));
    assert_eq!(bus.read(0x0042), 0b0000_0010);
}

#[test]
fn asl_accumulator_mode() {
    let (mut cpu, mut bus) = imp_mode_setup();
    cpu.a = 0b0000_0011;
    cpu.fetched = cpu.a;
    cpu.asl(&mut bus);
    assert_eq!(cpu.a, 0b0000_0110);
}

#[test]
fn lsr_shifts_memory_right() {
    let (mut cpu, mut bus) = load_setup(0b1000_0100);
    cpu.lsr(&mut bus);
    assert_eq!(bus.read(0x0042), 0b0100_0010);
    assert!(!cpu.get_flag(Flag::C));
    assert!(!cpu.get_flag(Flag::N)); // N always 0 after LSR
}

#[test]
fn lsr_puts_old_bit0_in_carry() {
    let (mut cpu, mut bus) = load_setup(0b0000_0011);
    cpu.lsr(&mut bus);
    assert!(cpu.get_flag(Flag::C));
    assert_eq!(bus.read(0x0042), 0b0000_0001);
}

#[test]
fn lsr_accumulator_mode() {
    let (mut cpu, mut bus) = imp_mode_setup();
    cpu.a = 0b1000_0000;
    cpu.fetched = cpu.a;
    cpu.lsr(&mut bus);
    assert_eq!(cpu.a, 0b0100_0000);
    assert!(!cpu.get_flag(Flag::N));
}

#[test]
fn rol_rotates_carry_into_bit0() {
    let (mut cpu, mut bus) = load_setup(0b0000_0001);
    cpu.set_flag(Flag::C, true);
    cpu.rol(&mut bus);
    assert_eq!(bus.read(0x0042), 0b0000_0011); // shifted left + carry in
    assert!(!cpu.get_flag(Flag::C)); // old bit 7 was 0
}

#[test]
fn rol_puts_old_bit7_in_carry() {
    let (mut cpu, mut bus) = load_setup(0b1000_0000);
    cpu.set_flag(Flag::C, false);
    cpu.rol(&mut bus);
    assert!(cpu.get_flag(Flag::C));
    assert_eq!(bus.read(0x0042), 0b0000_0000);
}

#[test]
fn rol_accumulator_mode() {
    let (mut cpu, mut bus) = imp_mode_setup();
    cpu.a = 0b0100_0000;
    cpu.fetched = cpu.a;
    cpu.set_flag(Flag::C, true);
    cpu.rol(&mut bus);
    assert_eq!(cpu.a, 0b1000_0001);
}

#[test]
fn ror_rotates_carry_into_bit7() {
    let (mut cpu, mut bus) = load_setup(0b0000_0010);
    cpu.set_flag(Flag::C, true);
    cpu.ror(&mut bus);
    assert_eq!(bus.read(0x0042), 0b1000_0001); // carry into bit 7
    assert!(!cpu.get_flag(Flag::C)); // old bit 0 was 0
}

#[test]
fn ror_puts_old_bit0_in_carry() {
    let (mut cpu, mut bus) = load_setup(0b0000_0001);
    cpu.set_flag(Flag::C, false);
    cpu.ror(&mut bus);
    assert!(cpu.get_flag(Flag::C));
    assert_eq!(bus.read(0x0042), 0b0000_0000);
}

#[test]
fn ror_accumulator_mode() {
    let (mut cpu, mut bus) = imp_mode_setup();
    cpu.a = 0b0000_0010;
    cpu.fetched = cpu.a;
    cpu.set_flag(Flag::C, true);
    cpu.ror(&mut bus);
    assert_eq!(cpu.a, 0b1000_0001);
}

// --- compare ---

#[test]
fn cmp_equal_sets_z_and_c() {
    let (mut cpu, mut bus) = load_setup(0x42);
    cpu.a = 0x42;
    cpu.cmp(&mut bus);
    assert!(cpu.get_flag(Flag::Z));
    assert!(cpu.get_flag(Flag::C));
    assert!(!cpu.get_flag(Flag::N));
}

#[test]
fn cmp_greater_sets_c_clears_z() {
    let (mut cpu, mut bus) = load_setup(0x10);
    cpu.a = 0x20;
    cpu.cmp(&mut bus);
    assert!(cpu.get_flag(Flag::C));
    assert!(!cpu.get_flag(Flag::Z));
}

#[test]
fn cmp_less_clears_c_sets_n() {
    let (mut cpu, mut bus) = load_setup(0x20);
    cpu.a = 0x10;
    cpu.cmp(&mut bus);
    assert!(!cpu.get_flag(Flag::C));
    assert!(cpu.get_flag(Flag::N));
}

#[test]
fn cmp_n_flag_uses_bit7_not_bit11() {
    // A=0x7F, mem=0x80 → tmp = 0xFF → bit 7 set → N=1
    // 0xFF & 0x0800 == 0, so this test would fail with the wrong mask
    let (mut cpu, mut bus) = load_setup(0x80);
    cpu.a = 0x7F;
    cpu.cmp(&mut bus);
    assert!(cpu.get_flag(Flag::N));
}

#[test]
fn cmp_returns_1() {
    let (mut cpu, mut bus) = load_setup(0x00);
    assert_eq!(cpu.cmp(&mut bus), 1);
}

#[test]
fn cpx_compares_x() {
    let (mut cpu, mut bus) = load_setup(0x42);
    cpu.x = 0x42;
    cpu.cpx(&mut bus);
    assert!(cpu.get_flag(Flag::Z));
    assert!(cpu.get_flag(Flag::C));
}

#[test]
fn cpx_less_clears_c() {
    let (mut cpu, mut bus) = load_setup(0x50);
    cpu.x = 0x30;
    cpu.cpx(&mut bus);
    assert!(!cpu.get_flag(Flag::C));
}

#[test]
fn cpx_returns_0() {
    let (mut cpu, mut bus) = load_setup(0x00);
    assert_eq!(cpu.cpx(&mut bus), 0);
}

#[test]
fn cpy_compares_y() {
    let (mut cpu, mut bus) = load_setup(0x42);
    cpu.y = 0x42;
    cpu.cpy(&mut bus);
    assert!(cpu.get_flag(Flag::Z));
    assert!(cpu.get_flag(Flag::C));
}

#[test]
fn cpy_less_clears_c() {
    let (mut cpu, mut bus) = load_setup(0x50);
    cpu.y = 0x30;
    cpu.cpy(&mut bus);
    assert!(!cpu.get_flag(Flag::C));
}

#[test]
fn cpy_returns_0() {
    let (mut cpu, mut bus) = load_setup(0x00);
    assert_eq!(cpu.cpy(&mut bus), 0);
}

// --- adc ---

#[test]
fn adc_basic_no_carry_in() {
    // 0x10 + 0x20 = 0x30, no carry in, no carry out, no overflow
    let (mut cpu, mut bus) = load_setup(0x20);
    cpu.a = 0x10;
    cpu.set_flag(Flag::C, false);
    cpu.adc(&mut bus);
    assert_eq!(cpu.a, 0x30);
    assert!(!cpu.get_flag(Flag::C));
    assert!(!cpu.get_flag(Flag::Z));
    assert!(!cpu.get_flag(Flag::N));
    assert!(!cpu.get_flag(Flag::V));
}

#[test]
fn adc_with_carry_in() {
    // 0x10 + 0x20 + C=1 = 0x31
    let (mut cpu, mut bus) = load_setup(0x20);
    cpu.a = 0x10;
    cpu.set_flag(Flag::C, true);
    cpu.adc(&mut bus);
    assert_eq!(cpu.a, 0x31);
}

#[test]
fn adc_sets_carry_on_overflow() {
    // 0xFF + 0x01 = 0x100, carry out
    let (mut cpu, mut bus) = load_setup(0x01);
    cpu.a = 0xFF;
    cpu.set_flag(Flag::C, false);
    cpu.adc(&mut bus);
    assert_eq!(cpu.a, 0x00);
    assert!(cpu.get_flag(Flag::C));
    assert!(cpu.get_flag(Flag::Z));
}

#[test]
fn adc_sets_z_when_result_zero() {
    // 0x00 + 0x00 = 0x00
    let (mut cpu, mut bus) = load_setup(0x00);
    cpu.a = 0x00;
    cpu.set_flag(Flag::C, false);
    cpu.adc(&mut bus);
    assert!(cpu.get_flag(Flag::Z));
    assert!(!cpu.get_flag(Flag::N));
}

#[test]
fn adc_sets_n_when_result_negative() {
    // 0x40 + 0x40 = 0x80, bit 7 set → N=1
    let (mut cpu, mut bus) = load_setup(0x40);
    cpu.a = 0x40;
    cpu.set_flag(Flag::C, false);
    cpu.adc(&mut bus);
    assert_eq!(cpu.a, 0x80);
    assert!(cpu.get_flag(Flag::N));
}

#[test]
fn adc_sets_v_positive_overflow() {
    // +64 + +64 = 0x80 (−128 in signed) → signed overflow → V=1
    let (mut cpu, mut bus) = load_setup(0x40);
    cpu.a = 0x40;
    cpu.set_flag(Flag::C, false);
    cpu.adc(&mut bus);
    assert!(cpu.get_flag(Flag::V));
}

#[test]
fn adc_sets_v_negative_overflow() {
    // −1 (0xFF) + −1 (0xFF) = 0xFE (−2, no overflow — both negative, result negative)
    // but −128 (0x80) + −128 (0x80) = 0x00 → signed overflow → V=1
    let (mut cpu, mut bus) = load_setup(0x80);
    cpu.a = 0x80;
    cpu.set_flag(Flag::C, false);
    cpu.adc(&mut bus);
    assert!(cpu.get_flag(Flag::V));
}

#[test]
fn adc_no_v_when_signs_differ() {
    // +127 (0x7F) + −1 (0xFF) = 0x7E (+126) — different input signs, never overflow
    let (mut cpu, mut bus) = load_setup(0xFF);
    cpu.a = 0x7F;
    cpu.set_flag(Flag::C, false);
    cpu.adc(&mut bus);
    assert_eq!(cpu.a, 0x7E);
    assert!(!cpu.get_flag(Flag::V));
}

#[test]
fn adc_returns_1() {
    let (mut cpu, mut bus) = load_setup(0x00);
    assert_eq!(cpu.adc(&mut bus), 1);
}

// --- sbc ---

#[test]
fn sbc_basic_no_borrow() {
    // 0x30 - 0x10 = 0x20, C=1 (no borrow in), result no borrow out → C=1
    let (mut cpu, mut bus) = load_setup(0x10);
    cpu.a = 0x30;
    cpu.set_flag(Flag::C, true);
    cpu.sbc(&mut bus);
    assert_eq!(cpu.a, 0x20);
    assert!(cpu.get_flag(Flag::C));
    assert!(!cpu.get_flag(Flag::V));
}

#[test]
fn sbc_with_borrow_in() {
    // 0x30 - 0x10 - borrow(1) = 0x1F
    let (mut cpu, mut bus) = load_setup(0x10);
    cpu.a = 0x30;
    cpu.set_flag(Flag::C, false);
    cpu.sbc(&mut bus);
    assert_eq!(cpu.a, 0x1F);
}

#[test]
fn sbc_clears_carry_on_borrow() {
    // 0x10 - 0x20 → borrow, C=0
    let (mut cpu, mut bus) = load_setup(0x20);
    cpu.a = 0x10;
    cpu.set_flag(Flag::C, true);
    cpu.sbc(&mut bus);
    assert!(!cpu.get_flag(Flag::C));
}

#[test]
fn sbc_sets_z_when_equal() {
    // 0x42 - 0x42 = 0x00 → Z=1
    let (mut cpu, mut bus) = load_setup(0x42);
    cpu.a = 0x42;
    cpu.set_flag(Flag::C, true);
    cpu.sbc(&mut bus);
    assert_eq!(cpu.a, 0x00);
    assert!(cpu.get_flag(Flag::Z));
}

#[test]
fn sbc_sets_v_negative_minus_positive() {
    // −128 (0x80) - +1 (0x01) = −129, wraps to 0x7F → sign changed → V=1
    let (mut cpu, mut bus) = load_setup(0x01);
    cpu.a = 0x80;
    cpu.set_flag(Flag::C, true);
    cpu.sbc(&mut bus);
    assert!(cpu.get_flag(Flag::V));
}

#[test]
fn sbc_no_v_when_no_signed_overflow() {
    // +5 - +3 = +2, no signed overflow
    let (mut cpu, mut bus) = load_setup(0x03);
    cpu.a = 0x05;
    cpu.set_flag(Flag::C, true);
    cpu.sbc(&mut bus);
    assert_eq!(cpu.a, 0x02);
    assert!(!cpu.get_flag(Flag::V));
}

#[test]
fn sbc_returns_1() {
    let (mut cpu, mut bus) = load_setup(0x00);
    cpu.set_flag(Flag::C, true);
    assert_eq!(cpu.sbc(&mut bus), 1);
}

// --- branches ---
//
// Branch tests need pc and addr_rel set directly — no full clock() setup needed.
// addr_rel is a u16 holding the sign-extended 8-bit offset (set by rel() addressing mode).
// Positive offset example: addr_rel = 0x0004  → pc advances forward 4 bytes.
// Negative offset example: addr_rel = 0xFFFC  → pc steps back 4 bytes (wraps correctly in u16).
//
// Three outcomes to test per branch:
//   1. condition false  → pc unchanged, cycles unchanged, returns 0
//   2. condition true, same page  → pc = pc + addr_rel, cycles += 1, returns 0
//   3. condition true, page cross  → pc crosses 0xXX00 boundary, cycles += 2, returns 0

fn branch_setup(pc: u16, addr_rel: u16) -> (Cpu, Bus) {
    let (mut cpu, bus) = make();
    cpu.pc = pc;
    cpu.addr_rel = addr_rel;
    (cpu, bus)
}

#[test]
fn bcc_not_taken_when_carry_set() {
    let (mut cpu, mut bus) = branch_setup(0x0200, 0x0010);
    cpu.set_flag(Flag::C, true);
    let before_pc = cpu.pc;
    let before_cycles = cpu.cycles;
    cpu.bcc(&mut bus);
    assert_eq!(cpu.pc, before_pc);
    assert_eq!(cpu.cycles, before_cycles);
}

#[test]
fn bcc_taken_same_page() {
    let (mut cpu, mut bus) = branch_setup(0x0200, 0x0010);
    cpu.set_flag(Flag::C, false);
    cpu.cycles = 0;
    cpu.bcc(&mut bus);
    assert_eq!(cpu.pc, 0x0210);
    assert_eq!(cpu.cycles, 1);
}

#[test]
fn bcc_taken_page_cross() {
    // pc=0x02F0 + offset=0x20 = 0x0310 — crosses page boundary (0x02xx → 0x03xx)
    let (mut cpu, mut bus) = branch_setup(0x02F0, 0x0020);
    cpu.set_flag(Flag::C, false);
    cpu.cycles = 0;
    cpu.bcc(&mut bus);
    assert_eq!(cpu.pc, 0x0310);
    assert_eq!(cpu.cycles, 2);
}

#[test]
fn bcc_taken_negative_offset() {
    // addr_rel = 0xFFFC = -4 in sign-extended u16; pc=0x0210 → 0x020C
    let (mut cpu, mut bus) = branch_setup(0x0210, 0xFFFC);
    cpu.set_flag(Flag::C, false);
    cpu.cycles = 0;
    cpu.bcc(&mut bus);
    assert_eq!(cpu.pc, 0x020C);
}

#[test]
fn bcc_returns_0() {
    let (mut cpu, mut bus) = branch_setup(0x0200, 0x0010);
    cpu.set_flag(Flag::C, false);
    assert_eq!(cpu.bcc(&mut bus), 0);
}

#[test]
fn bcs_taken_when_carry_set() {
    let (mut cpu, mut bus) = branch_setup(0x0200, 0x0010);
    cpu.set_flag(Flag::C, true);
    cpu.cycles = 0;
    cpu.bcs(&mut bus);
    assert_eq!(cpu.pc, 0x0210);
    assert_eq!(cpu.cycles, 1);
}

#[test]
fn bcs_not_taken_when_carry_clear() {
    let (mut cpu, mut bus) = branch_setup(0x0200, 0x0010);
    cpu.set_flag(Flag::C, false);
    let before_pc = cpu.pc;
    cpu.bcs(&mut bus);
    assert_eq!(cpu.pc, before_pc);
}

#[test]
fn beq_taken_when_zero_set() {
    let (mut cpu, mut bus) = branch_setup(0x0200, 0x0008);
    cpu.set_flag(Flag::Z, true);
    cpu.cycles = 0;
    cpu.beq(&mut bus);
    assert_eq!(cpu.pc, 0x0208);
    assert_eq!(cpu.cycles, 1);
}

#[test]
fn bne_taken_when_zero_clear() {
    let (mut cpu, mut bus) = branch_setup(0x0200, 0x0008);
    cpu.set_flag(Flag::Z, false);
    cpu.cycles = 0;
    cpu.bne(&mut bus);
    assert_eq!(cpu.pc, 0x0208);
    assert_eq!(cpu.cycles, 1);
}

#[test]
fn bmi_taken_when_negative_set() {
    let (mut cpu, mut bus) = branch_setup(0x0200, 0x0004);
    cpu.set_flag(Flag::N, true);
    cpu.cycles = 0;
    cpu.bmi(&mut bus);
    assert_eq!(cpu.pc, 0x0204);
    assert_eq!(cpu.cycles, 1);
}

#[test]
fn bpl_taken_when_negative_clear() {
    let (mut cpu, mut bus) = branch_setup(0x0200, 0x0004);
    cpu.set_flag(Flag::N, false);
    cpu.cycles = 0;
    cpu.bpl(&mut bus);
    assert_eq!(cpu.pc, 0x0204);
    assert_eq!(cpu.cycles, 1);
}

#[test]
fn bvc_taken_when_overflow_clear() {
    let (mut cpu, mut bus) = branch_setup(0x0200, 0x0006);
    cpu.set_flag(Flag::V, false);
    cpu.cycles = 0;
    cpu.bvc(&mut bus);
    assert_eq!(cpu.pc, 0x0206);
    assert_eq!(cpu.cycles, 1);
}

#[test]
fn bvs_taken_when_overflow_set() {
    let (mut cpu, mut bus) = branch_setup(0x0200, 0x0006);
    cpu.set_flag(Flag::V, true);
    cpu.cycles = 0;
    cpu.bvs(&mut bus);
    assert_eq!(cpu.pc, 0x0206);
    assert_eq!(cpu.cycles, 1);
}

// --- control flow ---

// Helper: set up cpu with a known stack pointer and program counter.
fn ctrl_setup(pc: u16) -> (Cpu, Bus) {
    let (mut cpu, bus) = make();
    cpu.pc = pc;
    cpu.stack.ptr = 0xFF; // full stack
    (cpu, bus)
}

// --- jmp ---

#[test]
fn jmp_sets_pc_to_addr_abs() {
    let (mut cpu, mut bus) = ctrl_setup(0x0300);
    cpu.addr_abs = 0x1234;
    cpu.jmp(&mut bus);
    assert_eq!(cpu.pc, 0x1234);
}

#[test]
fn jmp_returns_0() {
    let (mut cpu, mut bus) = ctrl_setup(0x0300);
    cpu.addr_abs = 0x1234;
    assert_eq!(cpu.jmp(&mut bus), 0);
}

// --- jsr / rts ---

#[test]
fn jsr_pushes_pc_minus_1_and_jumps() {
    // pc = 0x0303 (one past the full 3-byte JSR instruction)
    // jsr should push 0x0302 (hi=0x03, lo=0x02) and jump to addr_abs
    let (mut cpu, mut bus) = ctrl_setup(0x0303);
    cpu.addr_abs = 0x1000;
    cpu.jsr(&mut bus);
    assert_eq!(cpu.pc, 0x1000);
    // stack should hold the return address (pc - 1 = 0x0302)
    let lo = cpu.stack.pop(&mut bus);
    let hi = cpu.stack.pop(&mut bus);
    assert_eq!((hi as u16) << 8 | lo as u16, 0x0302);
}

#[test]
fn jsr_returns_0() {
    let (mut cpu, mut bus) = ctrl_setup(0x0303);
    cpu.addr_abs = 0x1000;
    assert_eq!(cpu.jsr(&mut bus), 0);
}

#[test]
fn rts_restores_pc_from_stack() {
    // push return address 0x0302; rts should set pc to 0x0303
    let (mut cpu, mut bus) = ctrl_setup(0x1000);
    cpu.stack.push(0x03, &mut bus); // hi
    cpu.stack.push(0x02, &mut bus); // lo
    cpu.rts(&mut bus);
    assert_eq!(cpu.pc, 0x0303);
}

#[test]
fn jsr_rts_roundtrip() {
    let (mut cpu, mut bus) = ctrl_setup(0x0303);
    cpu.addr_abs = 0x1000;
    cpu.jsr(&mut bus);
    assert_eq!(cpu.pc, 0x1000);
    cpu.rts(&mut bus);
    assert_eq!(cpu.pc, 0x0303);
}

#[test]
fn rts_returns_0() {
    let (mut cpu, mut bus) = ctrl_setup(0x1000);
    cpu.stack.push(0x03, &mut bus);
    cpu.stack.push(0x02, &mut bus);
    assert_eq!(cpu.rts(&mut bus), 0);
}

// --- rti ---

#[test]
fn rti_restores_status_and_pc() {
    let (mut cpu, mut bus) = ctrl_setup(0x1000);
    // push in reverse order: pc hi, pc lo, status
    cpu.stack.push(0x03, &mut bus); // pc hi
    cpu.stack.push(0x00, &mut bus); // pc lo
    cpu.stack.push(0b1100_1111, &mut bus); // status with B set
    cpu.rti(&mut bus);
    assert_eq!(cpu.pc, 0x0300);
    assert!(!cpu.get_flag(Flag::B)); // B cleared
    assert!(cpu.get_flag(Flag::U)); // U set
}

#[test]
fn rti_no_plus_one_on_pc() {
    // unlike RTS, RTI restores the exact saved address (no +1)
    let (mut cpu, mut bus) = ctrl_setup(0x1000);
    cpu.stack.push(0x04, &mut bus); // pc hi
    cpu.stack.push(0x00, &mut bus); // pc lo
    cpu.stack.push(0x00, &mut bus); // status
    cpu.rti(&mut bus);
    assert_eq!(cpu.pc, 0x0400);
}

#[test]
fn rti_returns_0() {
    let (mut cpu, mut bus) = ctrl_setup(0x1000);
    cpu.stack.push(0x03, &mut bus);
    cpu.stack.push(0x00, &mut bus);
    cpu.stack.push(0x00, &mut bus);
    assert_eq!(cpu.rti(&mut bus), 0);
}

// --- brk ---

#[test]
fn brk_pushes_pc_and_status_jumps_to_irq_vector() {
    let (mut cpu, mut bus) = ctrl_setup(0x0201);
    // set IRQ vector to 0xBEEF
    bus.write(IRQ_VECTOR, 0xEF);
    bus.write(IRQ_VECTOR + 1, 0xBE);
    cpu.status = 0b0000_0000;
    cpu.brk(&mut bus);
    assert_eq!(cpu.pc, 0xBEEF);
    assert!(cpu.get_flag(Flag::I)); // I set
}

#[test]
fn brk_pushed_status_has_b_and_u_set() {
    let (mut cpu, mut bus) = ctrl_setup(0x0201);
    bus.write(IRQ_VECTOR, 0x00);
    bus.write(IRQ_VECTOR + 1, 0x10);
    cpu.status = 0x00;
    cpu.brk(&mut bus);
    // stack (top to bottom): status, pc lo, pc hi — pop all three
    let pushed_status = cpu.stack.pop(&mut bus);
    assert!(pushed_status & Flag::B.mask() != 0);
    assert!(pushed_status & Flag::U.mask() != 0);
}

#[test]
fn brk_returns_0() {
    let (mut cpu, mut bus) = ctrl_setup(0x0201);
    bus.write(IRQ_VECTOR, 0x00);
    bus.write(IRQ_VECTOR + 1, 0x10);
    assert_eq!(cpu.brk(&mut bus), 0);
}

// --- clock ---

#[test]
fn clock_advances_pc_past_opcode() {
    // NOP = 0xEA, IMP addressing, 2 cycles
    let (mut cpu, mut bus) = setup(0x0200, &[(0x0200, 0xEA)]);
    cpu.clock(&mut bus);
    assert_eq!(cpu.pc, 0x0201);
}

#[test]
fn clock_counts_down_cycles_for_nop() {
    let (mut cpu, mut bus) = setup(0x0200, &[(0x0200, 0xEA)]);
    cpu.clock(&mut bus); // execute: cycles set to 2, then decremented → 1
    assert_eq!(cpu.cycles, 1);
    cpu.clock(&mut bus); // just ticks: cycles → 0
    assert_eq!(cpu.cycles, 0);
}

#[test]
fn clock_does_not_execute_until_cycles_zero() {
    // Two NOPs back to back
    let (mut cpu, mut bus) = setup(0x0200, &[(0x0200, 0xEA), (0x0201, 0xEA)]);
    cpu.clock(&mut bus); // executes first NOP, cycles = 1
    cpu.clock(&mut bus); // ticks down, cycles = 0, PC still at 0x0201
    assert_eq!(cpu.pc, 0x0201);
    cpu.clock(&mut bus); // executes second NOP
    assert_eq!(cpu.pc, 0x0202);
}
