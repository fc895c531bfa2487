use nes_emu::bus::Bus;
use nes_emu::cpu::Cpu;

fn disassemble(bytes: &[u8]) -> String {
    let bus = Bus::load(bytes, 0x0600);
    let cpu = Cpu::new();
    cpu.disassemble(0x0600, &bus)
}

#[test]
fn disassemble_implied() {
    assert_eq!(disassemble(&[0xEA]), "NOP");
    assert_eq!(disassemble(&[0x60]), "RTS");
}

#[test]
fn disassemble_immediate() {
    assert_eq!(disassemble(&[0xA9, 0x04]), "LDA #$04");
    assert_eq!(disassemble(&[0x00, 0x05]), "BRK #$05");
}

#[test]
fn disassemble_zero_page_modes() {
    assert_eq!(disassemble(&[0x85, 0x02]), "STA $02");
    assert_eq!(disassemble(&[0xB5, 0x10]), "LDA $10,X");
    assert_eq!(disassemble(&[0xB6, 0x10]), "LDX $10,Y");
}

#[test]
fn disassemble_absolute_modes() {
    assert_eq!(disassemble(&[0x4C, 0x38, 0x06]), "JMP $0638");
    assert_eq!(disassemble(&[0xBD, 0x34, 0x12]), "LDA $1234,X");
    assert_eq!(disassemble(&[0xB9, 0xCD, 0xAB]), "LDA $ABCD,Y");
}

#[test]
fn disassemble_indirect_modes() {
    assert_eq!(disassemble(&[0x6C, 0x34, 0x12]), "JMP ($1234)");
    assert_eq!(disassemble(&[0x81, 0x20]), "STA ($20,X)");
    assert_eq!(disassemble(&[0x91, 0x00]), "STA ($00),Y");
}

#[test]
fn disassemble_branch_shows_target() {
    assert_eq!(disassemble(&[0xD0, 0x05]), "BNE $0607");
    assert_eq!(disassemble(&[0xD0, 0xFB]), "BNE $05FD");
}

#[test]
fn disassemble_illegal_opcode() {
    assert_eq!(disassemble(&[0x02]), "???");
}

#[test]
fn disassemble_at_other_address() {
    let bus = Bus::load(&[0xEA, 0xA2, 0x7F], 0x0600);
    let cpu = Cpu::new();
    assert_eq!(cpu.disassemble(0x0601, &bus), "LDX #$7F");
}
