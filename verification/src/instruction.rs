use vstd::prelude::*;

verus! {

/// The operation an opcode performs.
#[derive(Clone, Copy, Debug, PartialEq, Eq, Structural)]
pub enum Op {
    Adc,
    And,
    Asl,
    Bcc,
    Bcs,
    Beq,
    Bit,
    Bmi,
    Bne,
    Bpl,
    Brk,
    Bvc,
    Bvs,
    Clc,
    Cld,
    Cli,
    Clv,
    Cmp,
    Cpx,
    Cpy,
    Dec,
    Dex,
    Dey,
    Eor,
    Inc,
    Inx,
    Iny,
    Jmp,
    Jsr,
    Lda,
    Ldx,
    Ldy,
    Lsr,
    /// No operation (also the harmless illegal opcodes).
    Nop,
    Ora,
    Pha,
    Php,
    Pla,
    Plp,
    Rol,
    Ror,
    Rti,
    Rts,
    Sbc,
    Sec,
    Sed,
    Sei,
    Sta,
    Stx,
    Sty,
    Tax,
    Tay,
    Tsx,
    Txa,
    Txs,
    Tya,
    /// Illegal opcode with undefined behaviour: does nothing.
    Xxx,
}

/// The twelve 6502 addressing modes.
#[derive(Clone, Copy, Debug, PartialEq, Eq, Structural)]
pub enum AddrMode {
    /// Implied / accumulator: no operand.
    Imp,
    /// Immediate: the operand is the next byte.
    Imm,
    /// Zero page.
    Zp0,
    /// Zero page indexed by X, wrapping within page zero.
    Zpx,
    /// Zero page indexed by Y, wrapping within page zero.
    Zpy,
    /// Relative: signed 8-bit branch offset.
    Rel,
    /// Absolute 16-bit address.
    Abs,
    /// Absolute indexed by X.
    Abx,
    /// Absolute indexed by Y.
    Aby,
    /// Indirect (JMP only), with the page-wrap hardware bug.
    Ind,
    /// Indexed indirect: (zero page + X) holds the pointer.
    Izx,
    /// Indirect indexed: the zero-page pointer plus Y.
    Izy,
}

/// One entry of the opcode table.
#[derive(Clone, Copy)]
pub struct Instruction {
    /// Mnemonic, "???" for illegal opcodes.
    pub name: &'static str,
    pub operate: Op,
    pub addr_mode: AddrMode,
    /// Base cycle count.
    pub cycles: u8,
}

/// The 6502 opcode table: what each of the 256 opcode bytes decodes to.
pub open spec fn instruction_spec(opcode: u8) -> Instruction {
    match opcode {
        0x00 => Instruction { name: "BRK", operate: Op::Brk, addr_mode: AddrMode::Imm, cycles: 7 },
        0x01 => Instruction { name: "ORA", operate: Op::Ora, addr_mode: AddrMode::Izx, cycles: 6 },
        0x02 => Instruction { name: "???", operate: Op::Xxx, addr_mode: AddrMode::Imp, cycles: 2 },
        0x03 => Instruction { name: "???", operate: Op::Xxx, addr_mode: AddrMode::Imp, cycles: 8 },
        0x04 => Instruction { name: "???", operate: Op::Nop, addr_mode: AddrMode::Imp, cycles: 3 },
        0x05 => Instruction { name: "ORA", operate: Op::Ora, addr_mode: AddrMode::Zp0, cycles: 3 },
        0x06 => Instruction { name: "ASL", operate: Op::Asl, addr_mode: AddrMode::Zp0, cycles: 5 },
        0x07 => Instruction { name: "???", operate: Op::Xxx, addr_mode: AddrMode::Imp, cycles: 5 },
        0x08 => Instruction { name: "PHP", operate: Op::Php, addr_mode: AddrMode::Imp, cycles: 3 },
        0x09 => Instruction { name: "ORA", operate: Op::Ora, addr_mode: AddrMode::Imm, cycles: 2 },
        0x0A => Instruction { name: "ASL", operate: Op::Asl, addr_mode: AddrMode::Imp, cycles: 2 },
        0x0B => Instruction { name: "???", operate: Op::Xxx, addr_mode: AddrMode::Imp, cycles: 2 },
        0x0C => Instruction { name: "???", operate: Op::Nop, addr_mode: AddrMode::Imp, cycles: 4 },
        0x0D => Instruction { name: "ORA", operate: Op::Ora, addr_mode: AddrMode::Abs, cycles: 4 },
        0x0E => Instruction { name: "ASL", operate: Op::Asl, addr_mode: AddrMode::Abs, cycles: 6 },
        0x0F => Instruction { name: "???", operate: Op::Xxx, addr_mode: AddrMode::Imp, cycles: 6 },
        0x10 => Instruction { name: "BPL", operate: Op::Bpl, addr_mode: AddrMode::Rel, cycles: 2 },
        0x11 => Instruction { name: "ORA", operate: Op::Ora, addr_mode: AddrMode::Izy, cycles: 5 },
        0x12 => Instruction { name: "???", operate: Op::Xxx, addr_mode: AddrMode::Imp, cycles: 2 },
        0x13 => Instruction { name: "???", operate: Op::Xxx, addr_mode: AddrMode::Imp, cycles: 8 },
        0x14 => Instruction { name: "???", operate: Op::Nop, addr_mode: AddrMode::Imp, cycles: 4 },
        0x15 => Instruction { name: "ORA", operate: Op::Ora, addr_mode: AddrMode::Zpx, cycles: 4 },
        0x16 => Instruction { name: "ASL", operate: Op::Asl, addr_mode: AddrMode::Zpx, cycles: 6 },
        0x17 => Instruction { name: "???", operate: Op::Xxx, addr_mode: AddrMode::Imp, cycles: 6 },
        0x18 => Instruction { name: "CLC", operate: Op::Clc, addr_mode: AddrMode::Imp, cycles: 2 },
        0x19 => Instruction { name: "ORA", operate: Op::Ora, addr_mode: AddrMode::Aby, cycles: 4 },
        0x1A => Instruction { name: "???", operate: Op::Nop, addr_mode: AddrMode::Imp, cycles: 2 },
        0x1B => Instruction { name: "???", operate: Op::Xxx, addr_mode: AddrMode::Imp, cycles: 7 },
        0x1C => Instruction { name: "???", operate: Op::Nop, addr_mode: AddrMode::Imp, cycles: 4 },
        0x1D => Instruction { name: "ORA", operate: Op::Ora, addr_mode: AddrMode::Abx, cycles: 4 },
        0x1E => Instruction { name: "ASL", operate: Op::Asl, addr_mode: AddrMode::Abx, cycles: 7 },
        0x1F => Instruction { name: "???", operate: Op::Xxx, addr_mode: AddrMode::Imp, cycles: 7 },
        0x20 => Instruction { name: "JSR", operate: Op::Jsr, addr_mode: AddrMode::Abs, cycles: 6 },
        0x21 => Instruction { name: "AND", operate: Op::And, addr_mode: AddrMode::Izx, cycles: 6 },
        0x22 => Instruction { name: "???", operate: Op::Xxx, addr_mode: AddrMode::Imp, cycles: 2 },
        0x23 => Instruction { name: "???", operate: Op::Xxx, addr_mode: AddrMode::Imp, cycles: 8 },
        0x24 => Instruction { name: "BIT", operate: Op::Bit, addr_mode: AddrMode::Zp0, cycles: 3 },
        0x25 => Instruction { name: "AND", operate: Op::And, addr_mode: AddrMode::Zp0, cycles: 3 },
        0x26 => Instruction { name: "ROL", operate: Op::Rol, addr_mode: AddrMode::Zp0, cycles: 5 },
        0x27 => Instruction { name: "???", operate: Op::Xxx, addr_mode: AddrMode::Imp, cycles: 5 },
        0x28 => Instruction { name: "PLP", operate: Op::Plp, addr_mode: AddrMode::Imp, cycles: 4 },
        0x29 => Instruction { name: "AND", operate: Op::And, addr_mode: AddrMode::Imm, cycles: 2 },
        0x2A => Instruction { name: "ROL", operate: Op::Rol, addr_mode: AddrMode::Imp, cycles: 2 },
        0x2B => Instruction { name: "???", operate: Op::Xxx, addr_mode: AddrMode::Imp, cycles: 2 },
        0x2C => Instruction { name: "BIT", operate: Op::Bit, addr_mode: AddrMode::Abs, cycles: 4 },
        0x2D => Instruction { name: "AND", operate: Op::And, addr_mode: AddrMode::Abs, cycles: 4 },
        0x2E => Instruction { name: "ROL", operate: Op::Rol, addr_mode: AddrMode::Abs, cycles: 6 },
        0x2F => Instruction { name: "???", operate: Op::Xxx, addr_mode: AddrMode::Imp, cycles: 6 },
        0x30 => Instruction { name: "BMI", operate: Op::Bmi, addr_mode: AddrMode::Rel, cycles: 2 },
        0x31 => Instruction { name: "AND", operate: Op::And, addr_mode: AddrMode::Izy, cycles: 5 },
        0x32 => Instruction { name: "???", operate: Op::Xxx, addr_mode: AddrMode::Imp, cycles: 2 },
        0x33 => Instruction { name: "???", operate: Op::Xxx, addr_mode: AddrMode::Imp, cycles: 8 },
        0x34 => Instruction { name: "???", operate: Op::Nop, addr_mode: AddrMode::Imp, cycles: 4 },
        0x35 => Instruction { name: "AND", operate: Op::And, addr_mode: AddrMode::Zpx, cycles: 4 },
        0x36 => Instruction { name: "ROL", operate: Op::Rol, addr_mode: AddrMode::Zpx, cycles: 6 },
        0x37 => Instruction { name: "???", operate: Op::Xxx, addr_mode: AddrMode::Imp, cycles: 6 },
        0x38 => Instruction { name: "SEC", operate: Op::Sec, addr_mode: AddrMode::Imp, cycles: 2 },
        0x39 => Instruction { name: "AND", operate: Op::And, addr_mode: AddrMode::Aby, cycles: 4 },
        0x3A => Instruction { name: "???", operate: Op::Nop, addr_mode: AddrMode::Imp, cycles: 2 },
        0x3B => Instruction { name: "???", operate: Op::Xxx, addr_mode: AddrMode::Imp, cycles: 7 },
        0x3C => Instruction { name: "???", operate: Op::Nop, addr_mode: AddrMode::Imp, cycles: 4 },
        0x3D => Instruction { name: "AND", operate: Op::And, addr_mode: AddrMode::Abx, cycles: 4 },
        0x3E => Instruction { name: "ROL", operate: Op::Rol, addr_mode: AddrMode::Abx, cycles: 7 },
        0x3F => Instruction { name: "???", operate: Op::Xxx, addr_mode: AddrMode::Imp, cycles: 7 },
        0x40 => Instruction { name: "RTI", operate: Op::Rti, addr_mode: AddrMode::Imp, cycles: 6 },
        0x41 => Instruction { name: "EOR", operate: Op::Eor, addr_mode: AddrMode::Izx, cycles: 6 },
        0x42 => Instruction { name: "???", operate: Op::Xxx, addr_mode: AddrMode::Imp, cycles: 2 },
        0x43 => Instruction { name: "???", operate: Op::Xxx, addr_mode: AddrMode::Imp, cycles: 8 },
        0x44 => Instruction { name: "???", operate: Op::Nop, addr_mode: AddrMode::Imp, cycles: 3 },
        0x45 => Instruction { name: "EOR", operate: Op::Eor, addr_mode: AddrMode::Zp0, cycles: 3 },
        0x46 => Instruction { name: "LSR", operate: Op::Lsr, addr_mode: AddrMode::Zp0, cycles: 5 },
        0x47 => Instruction { name: "???", operate: Op::Xxx, addr_mode: AddrMode::Imp, cycles: 5 },
        0x48 => Instruction { name: "PHA", operate: Op::Pha, addr_mode: AddrMode::Imp, cycles: 3 },
        0x49 => Instruction { name: "EOR", operate: Op::Eor, addr_mode: AddrMode::Imm, cycles: 2 },
        0x4A => Instruction { name: "LSR", operate: Op::Lsr, addr_mode: AddrMode::Imp, cycles: 2 },
        0x4B => Instruction { name: "???", operate: Op::Xxx, addr_mode: AddrMode::Imp, cycles: 2 },
        0x4C => Instruction { name: "JMP", operate: Op::Jmp, addr_mode: AddrMode::Abs, cycles: 3 },
        0x4D => Instruction { name: "EOR", operate: Op::Eor, addr_mode: AddrMode::Abs, cycles: 4 },
        0x4E => Instruction { name: "LSR", operate: Op::Lsr, addr_mode: AddrMode::Abs, cycles: 6 },
        0x4F => Instruction { name: "???", operate: Op::Xxx, addr_mode: AddrMode::Imp, cycles: 6 },
        0x50 => Instruction { name: "BVC", operate: Op::Bvc, addr_mode: AddrMode::Rel, cycles: 2 },
        0x51 => Instruction { name: "EOR", operate: Op::Eor, addr_mode: AddrMode::Izy, cycles: 5 },
        0x52 => Instruction { name: "???", operate: Op::Xxx, addr_mode: AddrMode::Imp, cycles: 2 },
        0x53 => Instruction { name: "???", operate: Op::Xxx, addr_mode: AddrMode::Imp, cycles: 8 },
        0x54 => Instruction { name: "???", operate: Op::Nop, addr_mode: AddrMode::Imp, cycles: 4 },
        0x55 => Instruction { name: "EOR", operate: Op::Eor, addr_mode: AddrMode::Zpx, cycles: 4 },
        0x56 => Instruction { name: "LSR", operate: Op::Lsr, addr_mode: AddrMode::Zpx, cycles: 6 },
        0x57 => Instruction { name: "???", operate: Op::Xxx, addr_mode: AddrMode::Imp, cycles: 6 },
        0x58 => Instruction { name: "CLI", operate: Op::Cli, addr_mode: AddrMode::Imp, cycles: 2 },
        0x59 => Instruction { name: "EOR", operate: Op::Eor, addr_mode: AddrMode::Aby, cycles: 4 },
        0x5A => Instruction { name: "???", operate: Op::Nop, addr_mode: AddrMode::Imp, cycles: 2 },
        0x5B => Instruction { name: "???", operate: Op::Xxx, addr_mode: AddrMode::Imp, cycles: 7 },
        0x5C => Instruction { name: "???", operate: Op::Nop, addr_mode: AddrMode::Imp, cycles: 4 },
        0x5D => Instruction { name: "EOR", operate: Op::Eor, addr_mode: AddrMode::Abx, cycles: 4 },
        0x5E => Instruction { name: "LSR", operate: Op::Lsr, addr_mode: AddrMode::Abx, cycles: 7 },
        0x5F => Instruction { name: "???", operate: Op::Xxx, addr_mode: AddrMode::Imp, cycles: 7 },
        0x60 => Instruction { name: "RTS", operate: Op::Rts, addr_mode: AddrMode::Imp, cycles: 6 },
        0x61 => Instruction { name: "ADC", operate: Op::Adc, addr_mode: AddrMode::Izx, cycles: 6 },
        0x62 => Instruction { name: "???", operate: Op::Xxx, addr_mode: AddrMode::Imp, cycles: 2 },
        0x63 => Instruction { name: "???", operate: Op::Xxx, addr_mode: AddrMode::Imp, cycles: 8 },
        0x64 => Instruction { name: "???", operate: Op::Nop, addr_mode: AddrMode::Imp, cycles: 3 },
        0x65 => Instruction { name: "ADC", operate: Op::Adc, addr_mode: AddrMode::Zp0, cycles: 3 },
        0x66 => Instruction { name: "ROR", operate: Op::Ror, addr_mode: AddrMode::Zp0, cycles: 5 },
        0x67 => Instruction { name: "???", operate: Op::Xxx, addr_mode: AddrMode::Imp, cycles: 5 },
        0x68 => Instruction { name: "PLA", operate: Op::Pla, addr_mode: AddrMode::Imp, cycles: 4 },
        0x69 => Instruction { name: "ADC", operate: Op::Adc, addr_mode: AddrMode::Imm, cycles: 2 },
        0x6A => Instruction { name: "ROR", operate: Op::Ror, addr_mode: AddrMode::Imp, cycles: 2 },
        0x6B => Instruction { name: "???", operate: Op::Xxx, addr_mode: AddrMode::Imp, cycles: 2 },
        0x6C => Instruction { name: "JMP", operate: Op::Jmp, addr_mode: AddrMode::Ind, cycles: 5 },
        0x6D => Instruction { name: "ADC", operate: Op::Adc, addr_mode: AddrMode::Abs, cycles: 4 },
        0x6E => Instruction { name: "ROR", operate: Op::Ror, addr_mode: AddrMode::Abs, cycles: 6 },
        0x6F => Instruction { name: "???", operate: Op::Xxx, addr_mode: AddrMode::Imp, cycles: 6 },
        0x70 => Instruction { name: "BVS", operate: Op::Bvs, addr_mode: AddrMode::Rel, cycles: 2 },
        0x71 => Instruction { name: "ADC", operate: Op::Adc, addr_mode: AddrMode::Izy, cycles: 5 },
        0x72 => Instruction { name: "???", operate: Op::Xxx, addr_mode: AddrMode::Imp, cycles: 2 },
        0x73 => Instruction { name: "???", operate: Op::Xxx, addr_mode: AddrMode::Imp, cycles: 8 },
        0x74 => Instruction { name: "???", operate: Op::Nop, addr_mode: AddrMode::Imp, cycles: 4 },
        0x75 => Instruction { name: "ADC", operate: Op::Adc, addr_mode: AddrMode::Zpx, cycles: 4 },
        0x76 => Instruction { name: "ROR", operate: Op::Ror, addr_mode: AddrMode::Zpx, cycles: 6 },
        0x77 => Instruction { name: "???", operate: Op::Xxx, addr_mode: AddrMode::Imp, cycles: 6 },
        0x78 => Instruction { name: "SEI", operate: Op::Sei, addr_mode: AddrMode::Imp, cycles: 2 },
        0x79 => Instruction { name: "ADC", operate: Op::Adc, addr_mode: AddrMode::Aby, cycles: 4 },
        0x7A => Instruction { name: "???", operate: Op::Nop, addr_mode: AddrMode::Imp, cycles: 2 },
        0x7B => Instruction { name: "???", operate: Op::Xxx, addr_mode: AddrMode::Imp, cycles: 7 },
        0x7C => Instruction { name: "???", operate: Op::Nop, addr_mode: AddrMode::Imp, cycles: 4 },
        0x7D => Instruction { name: "ADC", operate: Op::Adc, addr_mode: AddrMode::Abx, cycles: 4 },
        0x7E => Instruction { name: "ROR", operate: Op::Ror, addr_mode: AddrMode::Abx, cycles: 7 },
        0x7F => Instruction { name: "???", operate: Op::Xxx, addr_mode: AddrMode::Imp, cycles: 7 },
        0x80 => Instruction { name: "???", operate: Op::Nop, addr_mode: AddrMode::Imp, cycles: 2 },
        0x81 => Instruction { name: "STA", operate: Op::Sta, addr_mode: AddrMode::Izx, cycles: 6 },
        0x82 => Instruction { name: "???", operate: Op::Nop, addr_mode: AddrMode::Imp, cycles: 2 },
        0x83 => Instruction { name: "???", operate: Op::Xxx, addr_mode: AddrMode::Imp, cycles: 6 },
        0x84 => Instruction { name: "STY", operate: Op::Sty, addr_mode: AddrMode::Zp0, cycles: 3 },
        0x85 => Instruction { name: "STA", operate: Op::Sta, addr_mode: AddrMode::Zp0, cycles: 3 },
        0x86 => Instruction { name: "STX", operate: Op::Stx, addr_mode: AddrMode::Zp0, cycles: 3 },
        0x87 => Instruction { name: "???", operate: Op::Xxx, addr_mode: AddrMode::Imp, cycles: 3 },
        0x88 => Instruction { name: "DEY", operate: Op::Dey, addr_mode: AddrMode::Imp, cycles: 2 },
        0x89 => Instruction { name: "???", operate: Op::Nop, addr_mode: AddrMode::Imp, cycles: 2 },
        0x8A => Instruction { name: "TXA", operate: Op::Txa, addr_mode: AddrMode::Imp, cycles: 2 },
        0x8B => Instruction { name: "???", operate: Op::Xxx, addr_mode: AddrMode::Imp, cycles: 2 },
        0x8C => Instruction { name: "STY", operate: Op::Sty, addr_mode: AddrMode::Abs, cycles: 4 },
        0x8D => Instruction { name: "STA", operate: Op::Sta, addr_mode: AddrMode::Abs, cycles: 4 },
        0x8E => Instruction { name: "STX", operate: Op::Stx, addr_mode: AddrMode::Abs, cycles: 4 },
        0x8F => Instruction { name: "???", operate: Op::Xxx, addr_mode: AddrMode::Imp, cycles: 4 },
        0x90 => Instruction { name: "BCC", operate: Op::Bcc, addr_mode: AddrMode::Rel, cycles: 2 },
        0x91 => Instruction { name: "STA", operate: Op::Sta, addr_mode: AddrMode::Izy, cycles: 6 },
        0x92 => Instruction { name: "???", operate: Op::Xxx, addr_mode: AddrMode::Imp, cycles: 2 },
        0x93 => Instruction { name: "???", operate: Op::Xxx, addr_mode: AddrMode::Imp, cycles: 6 },
        0x94 => Instruction { name: "STY", operate: Op::Sty, addr_mode: AddrMode::Zpx, cycles: 4 },
        0x95 => Instruction { name: "STA", operate: Op::Sta, addr_mode: AddrMode::Zpx, cycles: 4 },
        0x96 => Instruction { name: "STX", operate: Op::Stx, addr_mode: AddrMode::Zpy, cycles: 4 },
        0x97 => Instruction { name: "???", operate: Op::Xxx, addr_mode: AddrMode::Imp, cycles: 4 },
        0x98 => Instruction { name: "TYA", operate: Op::Tya, addr_mode: AddrMode::Imp, cycles: 2 },
        0x99 => Instruction { name: "STA", operate: Op::Sta, addr_mode: AddrMode::Aby, cycles: 5 },
        0x9A => Instruction { name: "TXS", operate: Op::Txs, addr_mode: AddrMode::Imp, cycles: 2 },
        0x9B => Instruction { name: "???", operate: Op::Xxx, addr_mode: AddrMode::Imp, cycles: 5 },
        0x9C => Instruction { name: "???", operate: Op::Nop, addr_mode: AddrMode::Imp, cycles: 5 },
        0x9D => Instruction { name: "STA", operate: Op::Sta, addr_mode: AddrMode::Abx, cycles: 5 },
        0x9E => Instruction { name: "???", operate: Op::Xxx, addr_mode: AddrMode::Imp, cycles: 5 },
        0x9F => Instruction { name: "???", operate: Op::Xxx, addr_mode: AddrMode::Imp, cycles: 5 },
        0xA0 => Instruction { name: "LDY", operate: Op::Ldy, addr_mode: AddrMode::Imm, cycles: 2 },
        0xA1 => Instruction { name: "LDA", operate: Op::Lda, addr_mode: AddrMode::Izx, cycles: 6 },
        0xA2 => Instruction { name: "LDX", operate: Op::Ldx, addr_mode: AddrMode::Imm, cycles: 2 },
        0xA3 => Instruction { name: "???", operate: Op::Xxx, addr_mode: AddrMode::Imp, cycles: 6 },
        0xA4 => Instruction { name: "LDY", operate: Op::Ldy, addr_mode: AddrMode::Zp0, cycles: 3 },
        0xA5 => Instruction { name: "LDA", operate: Op::Lda, addr_mode: AddrMode::Zp0, cycles: 3 },
        0xA6 => Instruction { name: "LDX", operate: Op::Ldx, addr_mode: AddrMode::Zp0, cycles: 3 },
        0xA7 => Instruction { name: "???", operate: Op::Xxx, addr_mode: AddrMode::Imp, cycles: 3 },
        0xA8 => Instruction { name: "TAY", operate: Op::Tay, addr_mode: AddrMode::Imp, cycles: 2 },
        0xA9 => Instruction { name: "LDA", operate: Op::Lda, addr_mode: AddrMode::Imm, cycles: 2 },
        0xAA => Instruction { name: "TAX", operate: Op::Tax, addr_mode: AddrMode::Imp, cycles: 2 },
        0xAB => Instruction { name: "???", operate: Op::Xxx, addr_mode: AddrMode::Imp, cycles: 2 },
        0xAC => Instruction { name: "LDY", operate: Op::Ldy, addr_mode: AddrMode::Abs, cycles: 4 },
        0xAD => Instruction { name: "LDA", operate: Op::Lda, addr_mode: AddrMode::Abs, cycles: 4 },
        0xAE => Instruction { name: "LDX", operate: Op::Ldx, addr_mode: AddrMode::Abs, cycles: 4 },
        0xAF => Instruction { name: "???", operate: Op::Xxx, addr_mode: AddrMode::Imp, cycles: 4 },
        0xB0 => Instruction { name: "BCS", operate: Op::Bcs, addr_mode: AddrMode::Rel, cycles: 2 },
        0xB1 => Instruction { name: "LDA", operate: Op::Lda, addr_mode: AddrMode::Izy, cycles: 5 },
        0xB2 => Instruction { name: "???", operate: Op::Xxx, addr_mode: AddrMode::Imp, cycles: 2 },
        0xB3 => Instruction { name: "???", operate: Op::Xxx, addr_mode: AddrMode::Imp, cycles: 5 },
        0xB4 => Instruction { name: "LDY", operate: Op::Ldy, addr_mode: AddrMode::Zpx, cycles: 4 },
        0xB5 => Instruction { name: "LDA", operate: Op::Lda, addr_mode: AddrMode::Zpx, cycles: 4 },
        0xB6 => Instruction { name: "LDX", operate: Op::Ldx, addr_mode: AddrMode::Zpy, cycles: 4 },
        0xB7 => Instruction { name: "???", operate: Op::Xxx, addr_mode: AddrMode::Imp, cycles: 4 },
        0xB8 => Instruction { name: "CLV", operate: Op::Clv, addr_mode: AddrMode::Imp, cycles: 2 },
        0xB9 => Instruction { name: "LDA", operate: Op::Lda, addr_mode: AddrMode::Aby, cycles: 4 },
        0xBA => Instruction { name: "TSX", operate: Op::Tsx, addr_mode: AddrMode::Imp, cycles: 2 },
        0xBB => Instruction { name: "???", operate: Op::Xxx, addr_mode: AddrMode::Imp, cycles: 4 },
        0xBC => Instruction { name: "LDY", operate: Op::Ldy, addr_mode: AddrMode::Abx, cycles: 4 },
        0xBD => Instruction { name: "LDA", operate: Op::Lda, addr_mode: AddrMode::Abx, cycles: 4 },
        0xBE => Instruction { name: "LDX", operate: Op::Ldx, addr_mode: AddrMode::Aby, cycles: 4 },
        0xBF => Instruction { name: "???", operate: Op::Xxx, addr_mode: AddrMode::Imp, cycles: 4 },
        0xC0 => Instruction { name: "CPY", operate: Op::Cpy, addr_mode: AddrMode::Imm, cycles: 2 },
        0xC1 => Instruction { name: "CMP", operate: Op::Cmp, addr_mode: AddrMode::Izx, cycles: 6 },
        0xC2 => Instruction { name: "???", operate: Op::Nop, addr_mode: AddrMode::Imp, cycles: 2 },
        0xC3 => Instruction { name: "???", operate: Op::Xxx, addr_mode: AddrMode::Imp, cycles: 8 },
        0xC4 => Instruction { name: "CPY", operate: Op::Cpy, addr_mode: AddrMode::Zp0, cycles: 3 },
        0xC5 => Instruction { name: "CMP", operate: Op::Cmp, addr_mode: AddrMode::Zp0, cycles: 3 },
        0xC6 => Instruction { name: "DEC", operate: Op::Dec, addr_mode: AddrMode::Zp0, cycles: 5 },
        0xC7 => Instruction { name: "???", operate: Op::Xxx, addr_mode: AddrMode::Imp, cycles: 5 },
        0xC8 => Instruction { name: "INY", operate: Op::Iny, addr_mode: AddrMode::Imp, cycles: 2 },
        0xC9 => Instruction { name: "CMP", operate: Op::Cmp, addr_mode: AddrMode::Imm, cycles: 2 },
        0xCA => Instruction { name: "DEX", operate: Op::Dex, addr_mode: AddrMode::Imp, cycles: 2 },
        0xCB => Instruction { name: "???", operate: Op::Xxx, addr_mode: AddrMode::Imp, cycles: 2 },
        0xCC => Instruction { name: "CPY", operate: Op::Cpy, addr_mode: AddrMode::Abs, cycles: 4 },
        0xCD => Instruction { name: "CMP", operate: Op::Cmp, addr_mode: AddrMode::Abs, cycles: 4 },
        0xCE => Instruction { name: "DEC", operate: Op::Dec, addr_mode: AddrMode::Abs, cycles: 6 },
        0xCF => Instruction { name: "???", operate: Op::Xxx, addr_mode: AddrMode::Imp, cycles: 6 },
        0xD0 => Instruction { name: "BNE", operate: Op::Bne, addr_mode: AddrMode::Rel, cycles: 2 },
        0xD1 => Instruction { name: "CMP", operate: Op::Cmp, addr_mode: AddrMode::Izy, cycles: 5 },
        0xD2 => Instruction { name: "???", operate: Op::Xxx, addr_mode: AddrMode::Imp, cycles: 2 },
        0xD3 => Instruction { name: "???", operate: Op::Xxx, addr_mode: AddrMode::Imp, cycles: 8 },
        0xD4 => Instruction { name: "???", operate: Op::Nop, addr_mode: AddrMode::Imp, cycles: 4 },
        0xD5 => Instruction { name: "CMP", operate: Op::Cmp, addr_mode: AddrMode::Zpx, cycles: 4 },
        0xD6 => Instruction { name: "DEC", operate: Op::Dec, addr_mode: AddrMode::Zpx, cycles: 6 },
        0xD7 => Instruction { name: "???", operate: Op::Xxx, addr_mode: AddrMode::Imp, cycles: 6 },
        0xD8 => Instruction { name: "CLD", operate: Op::Cld, addr_mode: AddrMode::Imp, cycles: 2 },
        0xD9 => Instruction { name: "CMP", operate: Op::Cmp, addr_mode: AddrMode::Aby, cycles: 4 },
        0xDA => Instruction { name: "NOP", operate: Op::Nop, addr_mode: AddrMode::Imp, cycles: 2 },
        0xDB => Instruction { name: "???", operate: Op::Xxx, addr_mode: AddrMode::Imp, cycles: 7 },
        0xDC => Instruction { name: "???", operate: Op::Nop, addr_mode: AddrMode::Imp, cycles: 4 },
        0xDD => Instruction { name: "CMP", operate: Op::Cmp, addr_mode: AddrMode::Abx, cycles: 4 },
        0xDE => Instruction { name: "DEC", operate: Op::Dec, addr_mode: AddrMode::Abx, cycles: 7 },
        0xDF => Instruction { name: "???", operate: Op::Xxx, addr_mode: AddrMode::Imp, cycles: 7 },
        0xE0 => Instruction { name: "CPX", operate: Op::Cpx, addr_mode: AddrMode::Imm, cycles: 2 },
        0xE1 => Instruction { name: "SBC", operate: Op::Sbc, addr_mode: AddrMode::Izx, cycles: 6 },
        0xE2 => Instruction { name: "???", operate: Op::Nop, addr_mode: AddrMode::Imp, cycles: 2 },
        0xE3 => Instruction { name: "???", operate: Op::Xxx, addr_mode: AddrMode::Imp, cycles: 8 },
        0xE4 => Instruction { name: "CPX", operate: Op::Cpx, addr_mode: AddrMode::Zp0, cycles: 3 },
        0xE5 => Instruction { name: "SBC", operate: Op::Sbc, addr_mode: AddrMode::Zp0, cycles: 3 },
        0xE6 => Instruction { name: "INC", operate: Op::Inc, addr_mode: AddrMode::Zp0, cycles: 5 },
        0xE7 => Instruction { name: "???", operate: Op::Xxx, addr_mode: AddrMode::Imp, cycles: 5 },
        0xE8 => Instruction { name: "INX", operate: Op::Inx, addr_mode: AddrMode::Imp, cycles: 2 },
        0xE9 => Instruction { name: "SBC", operate: Op::Sbc, addr_mode: AddrMode::Imm, cycles: 2 },
        0xEA => Instruction { name: "NOP", operate: Op::Nop, addr_mode: AddrMode::Imp, cycles: 2 },
        0xEB => Instruction { name: "???", operate: Op::Sbc, addr_mode: AddrMode::Imp, cycles: 2 },
        0xEC => Instruction { name: "CPX", operate: Op::Cpx, addr_mode: AddrMode::Abs, cycles: 4 },
        0xED => Instruction { name: "SBC", operate: Op::Sbc, addr_mode: AddrMode::Abs, cycles: 4 },
        0xEE => Instruction { name: "INC", operate: Op::Inc, addr_mode: AddrMode::Abs, cycles: 6 },
        0xEF => Instruction { name: "???", operate: Op::Xxx, addr_mode: AddrMode::Imp, cycles: 6 },
        0xF0 => Instruction { name: "BEQ", operate: Op::Beq, addr_mode: AddrMode::Rel, cycles: 2 },
        0xF1 => Instruction { name: "SBC", operate: Op::Sbc, addr_mode: AddrMode::Izy, cycles: 5 },
        0xF2 => Instruction { name: "???", operate: Op::Xxx, addr_mode: AddrMode::Imp, cycles: 2 },
        0xF3 => Instruction { name: "???", operate: Op::Xxx, addr_mode: AddrMode::Imp, cycles: 8 },
        0xF4 => Instruction { name: "???", operate: Op::Nop, addr_mode: AddrMode::Imp, cycles: 4 },
        0xF5 => Instruction { name: "SBC", operate: Op::Sbc, addr_mode: AddrMode::Zpx, cycles: 4 },
        0xF6 => Instruction { name: "INC", operate: Op::Inc, addr_mode: AddrMode::Zpx, cycles: 6 },
        0xF7 => Instruction { name: "???", operate: Op::Xxx, addr_mode: AddrMode::Imp, cycles: 6 },
        0xF8 => Instruction { name: "SED", operate: Op::Sed, addr_mode: AddrMode::Imp, cycles: 2 },
        0xF9 => Instruction { name: "SBC", operate: Op::Sbc, addr_mode: AddrMode::Aby, cycles: 4 },
        0xFA => Instruction { name: "NOP", operate: Op::Nop, addr_mode: AddrMode::Imp, cycles: 2 },
        0xFB => Instruction { name: "???", operate: Op::Xxx, addr_mode: AddrMode::Imp, cycles: 7 },
        0xFC => Instruction { name: "???", operate: Op::Nop, addr_mode: AddrMode::Imp, cycles: 4 },
        0xFD => Instruction { name: "SBC", operate: Op::Sbc, addr_mode: AddrMode::Abx, cycles: 4 },
        0xFE => Instruction { name: "INC", operate: Op::Inc, addr_mode: AddrMode::Abx, cycles: 7 },
        _ => Instruction { name: "???", operate: Op::Xxx, addr_mode: AddrMode::Imp, cycles: 7 },
    }
}

/// Decodes an opcode byte through the opcode table.
pub fn lookup(opcode: u8) -> (ins: Instruction)
    ensures
        ins == instruction_spec(opcode),
{
    match opcode {
        0x00 => Instruction { name: "BRK", operate: Op::Brk, addr_mode: AddrMode::Imm, cycles: 7 },
        0x01 => Instruction { name: "ORA", operate: Op::Ora, addr_mode: AddrMode::Izx, cycles: 6 },
        0x02 => Instruction { name: "???", operate: Op::Xxx, addr_mode: AddrMode::Imp, cycles: 2 },
        0x03 => Instruction { name: "???", operate: Op::Xxx, addr_mode: AddrMode::Imp, cycles: 8 },
        0x04 => Instruction { name: "???", operate: Op::Nop, addr_mode: AddrMode::Imp, cycles: 3 },
        0x05 => Instruction { name: "ORA", operate: Op::Ora, addr_mode: AddrMode::Zp0, cycles: 3 },
        0x06 => Instruction { name: "ASL", operate: Op::Asl, addr_mode: AddrMode::Zp0, cycles: 5 },
        0x07 => Instruction { name: "???", operate: Op::Xxx, addr_mode: AddrMode::Imp, cycles: 5 },
        0x08 => Instruction { name: "PHP", operate: Op::Php, addr_mode: AddrMode::Imp, cycles: 3 },
        0x09 => Instruction { name: "ORA", operate: Op::Ora, addr_mode: AddrMode::Imm, cycles: 2 },
        0x0A => Instruction { name: "ASL", operate: Op::Asl, addr_mode: AddrMode::Imp, cycles: 2 },
        0x0B => Instruction { name: "???", operate: Op::Xxx, addr_mode: AddrMode::Imp, cycles: 2 },
        0x0C => Instruction { name: "???", operate: Op::Nop, addr_mode: AddrMode::Imp, cycles: 4 },
        0x0D => Instruction { name: "ORA", operate: Op::Ora, addr_mode: AddrMode::Abs, cycles: 4 },
        0x0E => Instruction { name: "ASL", operate: Op::Asl, addr_mode: AddrMode::Abs, cycles: 6 },
        0x0F => Instruction { name: "???", operate: Op::Xxx, addr_mode: AddrMode::Imp, cycles: 6 },
        0x10 => Instruction { name: "BPL", operate: Op::Bpl, addr_mode: AddrMode::Rel, cycles: 2 },
        0x11 => Instruction { name: "ORA", operate: Op::Ora, addr_mode: AddrMode::Izy, cycles: 5 },
        0x12 => Instruction { name: "???", operate: Op::Xxx, addr_mode: AddrMode::Imp, cycles: 2 },
        0x13 => Instruction { name: "???", operate: Op::Xxx, addr_mode: AddrMode::Imp, cycles: 8 },
        0x14 => Instruction { name: "???", operate: Op::Nop, addr_mode: AddrMode::Imp, cycles: 4 },
        0x15 => Instruction { name: "ORA", operate: Op::Ora, addr_mode: AddrMode::Zpx, cycles: 4 },
        0x16 => Instruction { name: "ASL", operate: Op::Asl, addr_mode: AddrMode::Zpx, cycles: 6 },
        0x17 => Instruction { name: "???", operate: Op::Xxx, addr_mode: AddrMode::Imp, cycles: 6 },
        0x18 => Instruction { name: "CLC", operate: Op::Clc, addr_mode: AddrMode::Imp, cycles: 2 },
        0x19 => Instruction { name: "ORA", operate: Op::Ora, addr_mode: AddrMode::Aby, cycles: 4 },
        0x1A => Instruction { name: "???", operate: Op::Nop, addr_mode: AddrMode::Imp, cycles: 2 },
        0x1B => Instruction { name: "???", operate: Op::Xxx, addr_mode: AddrMode::Imp, cycles: 7 },
        0x1C => Instruction { name: "???", operate: Op::Nop, addr_mode: AddrMode::Imp, cycles: 4 },
        0x1D => Instruction { name: "ORA", operate: Op::Ora, addr_mode: AddrMode::Abx, cycles: 4 },
        0x1E => Instruction { name: "ASL", operate: Op::Asl, addr_mode: AddrMode::Abx, cycles: 7 },
        0x1F => Instruction { name: "???", operate: Op::Xxx, addr_mode: AddrMode::Imp, cycles: 7 },
        0x20 => Instruction { name: "JSR", operate: Op::Jsr, addr_mode: AddrMode::Abs, cycles: 6 },
        0x21 => Instruction { name: "AND", operate: Op::And, addr_mode: AddrMode::Izx, cycles: 6 },
        0x22 => Instruction { name: "???", operate: Op::Xxx, addr_mode: AddrMode::Imp, cycles: 2 },
        0x23 => Instruction { name: "???", operate: Op::Xxx, addr_mode: AddrMode::Imp, cycles: 8 },
        0x24 => Instruction { name: "BIT", operate: Op::Bit, addr_mode: AddrMode::Zp0, cycles: 3 },
        0x25 => Instruction { name: "AND", operate: Op::And, addr_mode: AddrMode::Zp0, cycles: 3 },
        0x26 => Instruction { name: "ROL", operate: Op::Rol, addr_mode: AddrMode::Zp0, cycles: 5 },
        0x27 => Instruction { name: "???", operate: Op::Xxx, addr_mode: AddrMode::Imp, cycles: 5 },
        0x28 => Instruction { name: "PLP", operate: Op::Plp, addr_mode: AddrMode::Imp, cycles: 4 },
        0x29 => Instruction { name: "AND", operate: Op::And, addr_mode: AddrMode::Imm, cycles: 2 },
        0x2A => Instruction { name: "ROL", operate: Op::Rol, addr_mode: AddrMode::Imp, cycles: 2 },
        0x2B => Instruction { name: "???", operate: Op::Xxx, addr_mode: AddrMode::Imp, cycles: 2 },
        0x2C => Instruction { name: "BIT", operate: Op::Bit, addr_mode: AddrMode::Abs, cycles: 4 },
        0x2D => Instruction { name: "AND", operate: Op::And, addr_mode: AddrMode::Abs, cycles: 4 },
        0x2E => Instruction { name: "ROL", operate: Op::Rol, addr_mode: AddrMode::Abs, cycles: 6 },
        0x2F => Instruction { name: "???", operate: Op::Xxx, addr_mode: AddrMode::Imp, cycles: 6 },
        0x30 => Instruction { name: "BMI", operate: Op::Bmi, addr_mode: AddrMode::Rel, cycles: 2 },
        0x31 => Instruction { name: "AND", operate: Op::And, addr_mode: AddrMode::Izy, cycles: 5 },
        0x32 => Instruction { name: "???", operate: Op::Xxx, addr_mode: AddrMode::Imp, cycles: 2 },
        0x33 => Instruction { name: "???", operate: Op::Xxx, addr_mode: AddrMode::Imp, cycles: 8 },
        0x34 => Instruction { name: "???", operate: Op::Nop, addr_mode: AddrMode::Imp, cycles: 4 },
        0x35 => Instruction { name: "AND", operate: Op::And, addr_mode: AddrMode::Zpx, cycles: 4 },
        0x36 => Instruction { name: "ROL", operate: Op::Rol, addr_mode: AddrMode::Zpx, cycles: 6 },
        0x37 => Instruction { name: "???", operate: Op::Xxx, addr_mode: AddrMode::Imp, cycles: 6 },
        0x38 => Instruction { name: "SEC", operate: Op::Sec, addr_mode: AddrMode::Imp, cycles: 2 },
        0x39 => Instruction { name: "AND", operate: Op::And, addr_mode: AddrMode::Aby, cycles: 4 },
        0x3A => Instruction { name: "???", operate: Op::Nop, addr_mode: AddrMode::Imp, cycles: 2 },
        0x3B => Instruction { name: "???", operate: Op::Xxx, addr_mode: AddrMode::Imp, cycles: 7 },
        0x3C => Instruction { name: "???", operate: Op::Nop, addr_mode: AddrMode::Imp, cycles: 4 },
        0x3D => Instruction { name: "AND", operate: Op::And, addr_mode: AddrMode::Abx, cycles: 4 },
        0x3E => Instruction { name: "ROL", operate: Op::Rol, addr_mode: AddrMode::Abx, cycles: 7 },
        0x3F => Instruction { name: "???", operate: Op::Xxx, addr_mode: AddrMode::Imp, cycles: 7 },
        0x40 => Instruction { name: "RTI", operate: Op::Rti, addr_mode: AddrMode::Imp, cycles: 6 },
        0x41 => Instruction { name: "EOR", operate: Op::Eor, addr_mode: AddrMode::Izx, cycles: 6 },
        0x42 => Instruction { name: "???", operate: Op::Xxx, addr_mode: AddrMode::Imp, cycles: 2 },
        0x43 => Instruction { name: "???", operate: Op::Xxx, addr_mode: AddrMode::Imp, cycles: 8 },
        0x44 => Instruction { name: "???", operate: Op::Nop, addr_mode: AddrMode::Imp, cycles: 3 },
        0x45 => Instruction { name: "EOR", operate: Op::Eor, addr_mode: AddrMode::Zp0, cycles: 3 },
        0x46 => Instruction { name: "LSR", operate: Op::Lsr, addr_mode: AddrMode::Zp0, cycles: 5 },
        0x47 => Instruction { name: "???", operate: Op::Xxx, addr_mode: AddrMode::Imp, cycles: 5 },
        0x48 => Instruction { name: "PHA", operate: Op::Pha, addr_mode: AddrMode::Imp, cycles: 3 },
        0x49 => Instruction { name: "EOR", operate: Op::Eor, addr_mode: AddrMode::Imm, cycles: 2 },
        0x4A => Instruction { name: "LSR", operate: Op::Lsr, addr_mode: AddrMode::Imp, cycles: 2 },
        0x4B => Instruction { name: "???", operate: Op::Xxx, addr_mode: AddrMode::Imp, cycles: 2 },
        0x4C => Instruction { name: "JMP", operate: Op::Jmp, addr_mode: AddrMode::Abs, cycles: 3 },
        0x4D => Instruction { name: "EOR", operate: Op::Eor, addr_mode: AddrMode::Abs, cycles: 4 },
        0x4E => Instruction { name: "LSR", operate: Op::Lsr, addr_mode: AddrMode::Abs, cycles: 6 },
        0x4F => Instruction { name: "???", operate: Op::Xxx, addr_mode: AddrMode::Imp, cycles: 6 },
        0x50 => Instruction { name: "BVC", operate: Op::Bvc, addr_mode: AddrMode::Rel, cycles: 2 },
        0x51 => Instruction { name: "EOR", operate: Op::Eor, addr_mode: AddrMode::Izy, cycles: 5 },
        0x52 => Instruction { name: "???", operate: Op::Xxx, addr_mode: AddrMode::Imp, cycles: 2 },
        0x53 => Instruction { name: "???", operate: Op::Xxx, addr_mode: AddrMode::Imp, cycles: 8 },
        0x54 => Instruction { name: "???", operate: Op::Nop, addr_mode: AddrMode::Imp, cycles: 4 },
        0x55 => Instruction { name: "EOR", operate: Op::Eor, addr_mode: AddrMode::Zpx, cycles: 4 },
        0x56 => Instruction { name: "LSR", operate: Op::Lsr, addr_mode: AddrMode::Zpx, cycles: 6 },
        0x57 => Instruction { name: "???", operate: Op::Xxx, addr_mode: AddrMode::Imp, cycles: 6 },
        0x58 => Instruction { name: "CLI", operate: Op::Cli, addr_mode: AddrMode::Imp, cycles: 2 },
        0x59 => Instruction { name: "EOR", operate: Op::Eor, addr_mode: AddrMode::Aby, cycles: 4 },
        0x5A => Instruction { name: "???", operate: Op::Nop, addr_mode: AddrMode::Imp, cycles: 2 },
        0x5B => Instruction { name: "???", operate: Op::Xxx, addr_mode: AddrMode::Imp, cycles: 7 },
        0x5C => Instruction { name: "???", operate: Op::Nop, addr_mode: AddrMode::Imp, cycles: 4 },
        0x5D => Instruction { name: "EOR", operate: Op::Eor, addr_mode: AddrMode::Abx, cycles: 4 },
        0x5E => Instruction { name: "LSR", operate: Op::Lsr, addr_mode: AddrMode::Abx, cycles: 7 },
        0x5F => Instruction { name: "???", operate: Op::Xxx, addr_mode: AddrMode::Imp, cycles: 7 },
        0x60 => Instruction { name: "RTS", operate: Op::Rts, addr_mode: AddrMode::Imp, cycles: 6 },
        0x61 => Instruction { name: "ADC", operate: Op::Adc, addr_mode: AddrMode::Izx, cycles: 6 },
        0x62 => Instruction { name: "???", operate: Op::Xxx, addr_mode: AddrMode::Imp, cycles: 2 },
        0x63 => Instruction { name: "???", operate: Op::Xxx, addr_mode: AddrMode::Imp, cycles: 8 },
        0x64 => Instruction { name: "???", operate: Op::Nop, addr_mode: AddrMode::Imp, cycles: 3 },
        0x65 => Instruction { name: "ADC", operate: Op::Adc, addr_mode: AddrMode::Zp0, cycles: 3 },
        0x66 => Instruction { name: "ROR", operate: Op::Ror, addr_mode: AddrMode::Zp0, cycles: 5 },
        0x67 => Instruction { name: "???", operate: Op::Xxx, addr_mode: AddrMode::Imp, cycles: 5 },
        0x68 => Instruction { name: "PLA", operate: Op::Pla, addr_mode: AddrMode::Imp, cycles: 4 },
        0x69 => Instruction { name: "ADC", operate: Op::Adc, addr_mode: AddrMode::Imm, cycles: 2 },
        0x6A => Instruction { name: "ROR", operate: Op::Ror, addr_mode: AddrMode::Imp, cycles: 2 },
        0x6B => Instruction { name: "???", operate: Op::Xxx, addr_mode: AddrMode::Imp, cycles: 2 },
        0x6C => Instruction { name: "JMP", operate: Op::Jmp, addr_mode: AddrMode::Ind, cycles: 5 },
        0x6D => Instruction { name: "ADC", operate: Op::Adc, addr_mode: AddrMode::Abs, cycles: 4 },
        0x6E => Instruction { name: "ROR", operate: Op::Ror, addr_mode: AddrMode::Abs, cycles: 6 },
        0x6F => Instruction { name: "???", operate: Op::Xxx, addr_mode: AddrMode::Imp, cycles: 6 },
        0x70 => Instruction { name: "BVS", operate: Op::Bvs, addr_mode: AddrMode::Rel, cycles: 2 },
        0x71 => Instruction { name: "ADC", operate: Op::Adc, addr_mode: AddrMode::Izy, cycles: 5 },
        0x72 => Instruction { name: "???", operate: Op::Xxx, addr_mode: AddrMode::Imp, cycles: 2 },
        0x73 => Instruction { name: "???", operate: Op::Xxx, addr_mode: AddrMode::Imp, cycles: 8 },
        0x74 => Instruction { name: "???", operate: Op::Nop, addr_mode: AddrMode::Imp, cycles: 4 },
        0x75 => Instruction { name: "ADC", operate: Op::Adc, addr_mode: AddrMode::Zpx, cycles: 4 },
        0x76 => Instruction { name: "ROR", operate: Op::Ror, addr_mode: AddrMode::Zpx, cycles: 6 },
        0x77 => Instruction { name: "???", operate: Op::Xxx, addr_mode: AddrMode::Imp, cycles: 6 },
        0x78 => Instruction { name: "SEI", operate: Op::Sei, addr_mode: AddrMode::Imp, cycles: 2 },
        0x79 => Instruction { name: "ADC", operate: Op::Adc, addr_mode: AddrMode::Aby, cycles: 4 },
        0x7A => Instruction { name: "???", operate: Op::Nop, addr_mode: AddrMode::Imp, cycles: 2 },
        0x7B => Instruction { name: "???", operate: Op::Xxx, addr_mode: AddrMode::Imp, cycles: 7 },
        0x7C => Instruction { name: "???", operate: Op::Nop, addr_mode: AddrMode::Imp, cycles: 4 },
        0x7D => Instruction { name: "ADC", operate: Op::Adc, addr_mode: AddrMode::Abx, cycles: 4 },
        0x7E => Instruction { name: "ROR", operate: Op::Ror, addr_mode: AddrMode::Abx, cycles: 7 },
        0x7F => Instruction { name: "???", operate: Op::Xxx, addr_mode: AddrMode::Imp, cycles: 7 },
        0x80 => Instruction { name: "???", operate: Op::Nop, addr_mode: AddrMode::Imp, cycles: 2 },
        0x81 => Instruction { name: "STA", operate: Op::Sta, addr_mode: AddrMode::Izx, cycles: 6 },
        0x82 => Instruction { name: "???", operate: Op::Nop, addr_mode: AddrMode::Imp, cycles: 2 },
        0x83 => Instruction { name: "???", operate: Op::Xxx, addr_mode: AddrMode::Imp, cycles: 6 },
        0x84 => Instruction { name: "STY", operate: Op::Sty, addr_mode: AddrMode::Zp0, cycles: 3 },
        0x85 => Instruction { name: "STA", operate: Op::Sta, addr_mode: AddrMode::Zp0, cycles: 3 },
        0x86 => Instruction { name: "STX", operate: Op::Stx, addr_mode: AddrMode::Zp0, cycles: 3 },
        0x87 => Instruction { name: "???", operate: Op::Xxx, addr_mode: AddrMode::Imp, cycles: 3 },
        0x88 => Instruction { name: "DEY", operate: Op::Dey, addr_mode: AddrMode::Imp, cycles: 2 },
        0x89 => Instruction { name: "???", operate: Op::Nop, addr_mode: AddrMode::Imp, cycles: 2 },
        0x8A => Instruction { name: "TXA", operate: Op::Txa, addr_mode: AddrMode::Imp, cycles: 2 },
        0x8B => Instruction { name: "???", operate: Op::Xxx, addr_mode: AddrMode::Imp, cycles: 2 },
        0x8C => Instruction { name: "STY", operate: Op::Sty, addr_mode: AddrMode::Abs, cycles: 4 },
        0x8D => Instruction { name: "STA", operate: Op::Sta, addr_mode: AddrMode::Abs, cycles: 4 },
        0x8E => Instruction { name: "STX", operate: Op::Stx, addr_mode: AddrMode::Abs, cycles: 4 },
        0x8F => Instruction { name: "???", operate: Op::Xxx, addr_mode: AddrMode::Imp, cycles: 4 },
        0x90 => Instruction { name: "BCC", operate: Op::Bcc, addr_mode: AddrMode::Rel, cycles: 2 },
        0x91 => Instruction { name: "STA", operate: Op::Sta, addr_mode: AddrMode::Izy, cycles: 6 },
        0x92 => Instruction { name: "???", operate: Op::Xxx, addr_mode: AddrMode::Imp, cycles: 2 },
        0x93 => Instruction { name: "???", operate: Op::Xxx, addr_mode: AddrMode::Imp, cycles: 6 },
        0x94 => Instruction { name: "STY", operate: Op::Sty, addr_mode: AddrMode::Zpx, cycles: 4 },
        0x95 => Instruction { name: "STA", operate: Op::Sta, addr_mode: AddrMode::Zpx, cycles: 4 },
        0x96 => Instruction { name: "STX", operate: Op::Stx, addr_mode: AddrMode::Zpy, cycles: 4 },
        0x97 => Instruction { name: "???", operate: Op::Xxx, addr_mode: AddrMode::Imp, cycles: 4 },
        0x98 => Instruction { name: "TYA", operate: Op::Tya, addr_mode: AddrMode::Imp, cycles: 2 },
        0x99 => Instruction { name: "STA", operate: Op::Sta, addr_mode: AddrMode::Aby, cycles: 5 },
        0x9A => Instruction { name: "TXS", operate: Op::Txs, addr_mode: AddrMode::Imp, cycles: 2 },
        0x9B => Instruction { name: "???", operate: Op::Xxx, addr_mode: AddrMode::Imp, cycles: 5 },
        0x9C => Instruction { name: "???", operate: Op::Nop, addr_mode: AddrMode::Imp, cycles: 5 },
        0x9D => Instruction { name: "STA", operate: Op::Sta, addr_mode: AddrMode::Abx, cycles: 5 },
        0x9E => Instruction { name: "???", operate: Op::Xxx, addr_mode: AddrMode::Imp, cycles: 5 },
        0x9F => Instruction { name: "???", operate: Op::Xxx, addr_mode: AddrMode::Imp, cycles: 5 },
        0xA0 => Instruction { name: "LDY", operate: Op::Ldy, addr_mode: AddrMode::Imm, cycles: 2 },
        0xA1 => Instruction { name: "LDA", operate: Op::Lda, addr_mode: AddrMode::Izx, cycles: 6 },
        0xA2 => Instruction { name: "LDX", operate: Op::Ldx, addr_mode: AddrMode::Imm, cycles: 2 },
        0xA3 => Instruction { name: "???", operate: Op::Xxx, addr_mode: AddrMode::Imp, cycles: 6 },
        0xA4 => Instruction { name: "LDY", operate: Op::Ldy, addr_mode: AddrMode::Zp0, cycles: 3 },
        0xA5 => Instruction { name: "LDA", operate: Op::Lda, addr_mode: AddrMode::Zp0, cycles: 3 },
        0xA6 => Instruction { name: "LDX", operate: Op::Ldx, addr_mode: AddrMode::Zp0, cycles: 3 },
        0xA7 => Instruction { name: "???", operate: Op::Xxx, addr_mode: AddrMode::Imp, cycles: 3 },
        0xA8 => Instruction { name: "TAY", operate: Op::Tay, addr_mode: AddrMode::Imp, cycles: 2 },
        0xA9 => Instruction { name: "LDA", operate: Op::Lda, addr_mode: AddrMode::Imm, cycles: 2 },
        0xAA => Instruction { name: "TAX", operate: Op::Tax, addr_mode: AddrMode::Imp, cycles: 2 },
        0xAB => Instruction { name: "???", operate: Op::Xxx, addr_mode: AddrMode::Imp, cycles: 2 },
        0xAC => Instruction { name: "LDY", operate: Op::Ldy, addr_mode: AddrMode::Abs, cycles: 4 },
        0xAD => Instruction { name: "LDA", operate: Op::Lda, addr_mode: AddrMode::Abs, cycles: 4 },
        0xAE => Instruction { name: "LDX", operate: Op::Ldx, addr_mode: AddrMode::Abs, cycles: 4 },
        0xAF => Instruction { name: "???", operate: Op::Xxx, addr_mode: AddrMode::Imp, cycles: 4 },
        0xB0 => Instruction { name: "BCS", operate: Op::Bcs, addr_mode: AddrMode::Rel, cycles: 2 },
        0xB1 => Instruction { name: "LDA", operate: Op::Lda, addr_mode: AddrMode::Izy, cycles: 5 },
        0xB2 => Instruction { name: "???", operate: Op::Xxx, addr_mode: AddrMode::Imp, cycles: 2 },
        0xB3 => Instruction { name: "???", operate: Op::Xxx, addr_mode: AddrMode::Imp, cycles: 5 },
        0xB4 => Instruction { name: "LDY", operate: Op::Ldy, addr_mode: AddrMode::Zpx, cycles: 4 },
        0xB5 => Instruction { name: "LDA", operate: Op::Lda, addr_mode: AddrMode::Zpx, cycles: 4 },
        0xB6 => Instruction { name: "LDX", operate: Op::Ldx, addr_mode: AddrMode::Zpy, cycles: 4 },
        0xB7 => Instruction { name: "???", operate: Op::Xxx, addr_mode: AddrMode::Imp, cycles: 4 },
        0xB8 => Instruction { name: "CLV", operate: Op::Clv, addr_mode: AddrMode::Imp, cycles: 2 },
        0xB9 => Instruction { name: "LDA", operate: Op::Lda, addr_mode: AddrMode::Aby, cycles: 4 },
        0xBA => Instruction { name: "TSX", operate: Op::Tsx, addr_mode: AddrMode::Imp, cycles: 2 },
        0xBB => Instruction { name: "???", operate: Op::Xxx, addr_mode: AddrMode::Imp, cycles: 4 },
        0xBC => Instruction { name: "LDY", operate: Op::Ldy, addr_mode: AddrMode::Abx, cycles: 4 },
        0xBD => Instruction { name: "LDA", operate: Op::Lda, addr_mode: AddrMode::Abx, cycles: 4 },
        0xBE => Instruction { name: "LDX", operate: Op::Ldx, addr_mode: AddrMode::Aby, cycles: 4 },
        0xBF => Instruction { name: "???", operate: Op::Xxx, addr_mode: AddrMode::Imp, cycles: 4 },
        0xC0 => Instruction { name: "CPY", operate: Op::Cpy, addr_mode: AddrMode::Imm, cycles: 2 },
        0xC1 => Instruction { name: "CMP", operate: Op::Cmp, addr_mode: AddrMode::Izx, cycles: 6 },
        0xC2 => Instruction { name: "???", operate: Op::Nop, addr_mode: AddrMode::Imp, cycles: 2 },
        0xC3 => Instruction { name: "???", operate: Op::Xxx, addr_mode: AddrMode::Imp, cycles: 8 },
        0xC4 => Instruction { name: "CPY", operate: Op::Cpy, addr_mode: AddrMode::Zp0, cycles: 3 },
        0xC5 => Instruction { name: "CMP", operate: Op::Cmp, addr_mode: AddrMode::Zp0, cycles: 3 },
        0xC6 => Instruction { name: "DEC", operate: Op::Dec, addr_mode: AddrMode::Zp0, cycles: 5 },
        0xC7 => Instruction { name: "???", operate: Op::Xxx, addr_mode: AddrMode::Imp, cycles: 5 },
        0xC8 => Instruction { name: "INY", operate: Op::Iny, addr_mode: AddrMode::Imp, cycles: 2 },
        0xC9 => Instruction { name: "CMP", operate: Op::Cmp, addr_mode: AddrMode::Imm, cycles: 2 },
        0xCA => Instruction { name: "DEX", operate: Op::Dex, addr_mode: AddrMode::Imp, cycles: 2 },
        0xCB => Instruction { name: "???", operate: Op::Xxx, addr_mode: AddrMode::Imp, cycles: 2 },
        0xCC => Instruction { name: "CPY", operate: Op::Cpy, addr_mode: AddrMode::Abs, cycles: 4 },
        0xCD => Instruction { name: "CMP", operate: Op::Cmp, addr_mode: AddrMode::Abs, cycles: 4 },
        0xCE => Instruction { name: "DEC", operate: Op::Dec, addr_mode: AddrMode::Abs, cycles: 6 },
        0xCF => Instruction { name: "???", operate: Op::Xxx, addr_mode: AddrMode::Imp, cycles: 6 },
        0xD0 => Instruction { name: "BNE", operate: Op::Bne, addr_mode: AddrMode::Rel, cycles: 2 },
        0xD1 => Instruction { name: "CMP", operate: Op::Cmp, addr_mode: AddrMode::Izy, cycles: 5 },
        0xD2 => Instruction { name: "???", operate: Op::Xxx, addr_mode: AddrMode::Imp, cycles: 2 },
        0xD3 => Instruction { name: "???", operate: Op::Xxx, addr_mode: AddrMode::Imp, cycles: 8 },
        0xD4 => Instruction { name: "???", operate: Op::Nop, addr_mode: AddrMode::Imp, cycles: 4 },
        0xD5 => Instruction { name: "CMP", operate: Op::Cmp, addr_mode: AddrMode::Zpx, cycles: 4 },
        0xD6 => Instruction { name: "DEC", operate: Op::Dec, addr_mode: AddrMode::Zpx, cycles: 6 },
        0xD7 => Instruction { name: "???", operate: Op::Xxx, addr_mode: AddrMode::Imp, cycles: 6 },
        0xD8 => Instruction { name: "CLD", operate: Op::Cld, addr_mode: AddrMode::Imp, cycles: 2 },
        0xD9 => Instruction { name: "CMP", operate: Op::Cmp, addr_mode: AddrMode::Aby, cycles: 4 },
        0xDA => Instruction { name: "NOP", operate: Op::Nop, addr_mode: AddrMode::Imp, cycles: 2 },
        0xDB => Instruction { name: "???", operate: Op::Xxx, addr_mode: AddrMode::Imp, cycles: 7 },
        0xDC => Instruction { name: "???", operate: Op::Nop, addr_mode: AddrMode::Imp, cycles: 4 },
        0xDD => Instruction { name: "CMP", operate: Op::Cmp, addr_mode: AddrMode::Abx, cycles: 4 },
        0xDE => Instruction { name: "DEC", operate: Op::Dec, addr_mode: AddrMode::Abx, cycles: 7 },
        0xDF => Instruction { name: "???", operate: Op::Xxx, addr_mode: AddrMode::Imp, cycles: 7 },
        0xE0 => Instruction { name: "CPX", operate: Op::Cpx, addr_mode: AddrMode::Imm, cycles: 2 },
        0xE1 => Instruction { name: "SBC", operate: Op::Sbc, addr_mode: AddrMode::Izx, cycles: 6 },
        0xE2 => Instruction { name: "???", operate: Op::Nop, addr_mode: AddrMode::Imp, cycles: 2 },
        0xE3 => Instruction { name: "???", operate: Op::Xxx, addr_mode: AddrMode::Imp, cycles: 8 },
        0xE4 => Instruction { name: "CPX", operate: Op::Cpx, addr_mode: AddrMode::Zp0, cycles: 3 },
        0xE5 => Instruction { name: "SBC", operate: Op::Sbc, addr_mode: AddrMode::Zp0, cycles: 3 },
        0xE6 => Instruction { name: "INC", operate: Op::Inc, addr_mode: AddrMode::Zp0, cycles: 5 },
        0xE7 => Instruction { name: "???", operate: Op::Xxx, addr_mode: AddrMode::Imp, cycles: 5 },
        0xE8 => Instruction { name: "INX", operate: Op::Inx, addr_mode: AddrMode::Imp, cycles: 2 },
        0xE9 => Instruction { name: "SBC", operate: Op::Sbc, addr_mode: AddrMode::Imm, cycles: 2 },
        0xEA => Instruction { name: "NOP", operate: Op::Nop, addr_mode: AddrMode::Imp, cycles: 2 },
        0xEB => Instruction { name: "???", operate: Op::Sbc, addr_mode: AddrMode::Imp, cycles: 2 },
        0xEC => Instruction { name: "CPX", operate: Op::Cpx, addr_mode: AddrMode::Abs, cycles: 4 },
        0xED => Instruction { name: "SBC", operate: Op::Sbc, addr_mode: AddrMode::Abs, cycles: 4 },
        0xEE => Instruction { name: "INC", operate: Op::Inc, addr_mode: AddrMode::Abs, cycles: 6 },
        0xEF => Instruction { name: "???", operate: Op::Xxx, addr_mode: AddrMode::Imp, cycles: 6 },
        0xF0 => Instruction { name: "BEQ", operate: Op::Beq, addr_mode: AddrMode::Rel, cycles: 2 },
        0xF1 => Instruction { name: "SBC", operate: Op::Sbc, addr_mode: AddrMode::Izy, cycles: 5 },
        0xF2 => Instruction { name: "???", operate: Op::Xxx, addr_mode: AddrMode::Imp, cycles: 2 },
        0xF3 => Instruction { name: "???", operate: Op::Xxx, addr_mode: AddrMode::Imp, cycles: 8 },
        0xF4 => Instruction { name: "???", operate: Op::Nop, addr_mode: AddrMode::Imp, cycles: 4 },
        0xF5 => Instruction { name: "SBC", operate: Op::Sbc, addr_mode: AddrMode::Zpx, cycles: 4 },
        0xF6 => Instruction { name: "INC", operate: Op::Inc, addr_mode: AddrMode::Zpx, cycles: 6 },
        0xF7 => Instruction { name: "???", operate: Op::Xxx, addr_mode: AddrMode::Imp, cycles: 6 },
        0xF8 => Instruction { name: "SED", operate: Op::Sed, addr_mode: AddrMode::Imp, cycles: 2 },
        0xF9 => Instruction { name: "SBC", operate: Op::Sbc, addr_mode: AddrMode::Aby, cycles: 4 },
        0xFA => Instruction { name: "NOP", operate: Op::Nop, addr_mode: AddrMode::Imp, cycles: 2 },
        0xFB => Instruction { name: "???", operate: Op::Xxx, addr_mode: AddrMode::Imp, cycles: 7 },
        0xFC => Instruction { name: "???", operate: Op::Nop, addr_mode: AddrMode::Imp, cycles: 4 },
        0xFD => Instruction { name: "SBC", operate: Op::Sbc, addr_mode: AddrMode::Abx, cycles: 4 },
        0xFE => Instruction { name: "INC", operate: Op::Inc, addr_mode: AddrMode::Abx, cycles: 7 },
        _ => Instruction { name: "???", operate: Op::Xxx, addr_mode: AddrMode::Imp, cycles: 7 },
    }
}

/// Every instruction of the table takes between two and eight cycles.
pub proof fn lemma_instruction_cycles(opcode: u8)
    ensures
        2 <= instruction_spec(opcode).cycles <= 8,
{
}

/// RTS appears in the table only with implied addressing.
pub proof fn lemma_rts_is_implied(opcode: u8)
    ensures
        instruction_spec(opcode).operate == Op::Rts ==> instruction_spec(opcode).addr_mode
            == AddrMode::Imp,
{
}

} // verus!
