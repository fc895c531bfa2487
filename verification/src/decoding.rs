use vstd::prelude::*;

use crate::instruction::{instruction_spec, AddrMode, Op};

verus! {

// ---------------------------------------------------------------------------
// The 6502 instruction encoding, from the bit fields of an opcode `aaabbbcc`,
// and laws tying the opcode table to it.
// ---------------------------------------------------------------------------

/// The assembler mnemonic of an operation.
pub open spec fn mnemonic(op: Op) -> Seq<char> {
    match op {
        Op::Adc => "ADC"@,
        Op::And => "AND"@,
        Op::Asl => "ASL"@,
        Op::Bcc => "BCC"@,
        Op::Bcs => "BCS"@,
        Op::Beq => "BEQ"@,
        Op::Bit => "BIT"@,
        Op::Bmi => "BMI"@,
        Op::Bne => "BNE"@,
        Op::Bpl => "BPL"@,
        Op::Brk => "BRK"@,
        Op::Bvc => "BVC"@,
        Op::Bvs => "BVS"@,
        Op::Clc => "CLC"@,
        Op::Cld => "CLD"@,
        Op::Cli => "CLI"@,
        Op::Clv => "CLV"@,
        Op::Cmp => "CMP"@,
        Op::Cpx => "CPX"@,
        Op::Cpy => "CPY"@,
        Op::Dec => "DEC"@,
        Op::Dex => "DEX"@,
        Op::Dey => "DEY"@,
        Op::Eor => "EOR"@,
        Op::Inc => "INC"@,
        Op::Inx => "INX"@,
        Op::Iny => "INY"@,
        Op::Jmp => "JMP"@,
        Op::Jsr => "JSR"@,
        Op::Lda => "LDA"@,
        Op::Ldx => "LDX"@,
        Op::Ldy => "LDY"@,
        Op::Lsr => "LSR"@,
        Op::Nop => "NOP"@,
        Op::Ora => "ORA"@,
        Op::Pha => "PHA"@,
        Op::Php => "PHP"@,
        Op::Pla => "PLA"@,
        Op::Plp => "PLP"@,
        Op::Rol => "ROL"@,
        Op::Ror => "ROR"@,
        Op::Rti => "RTI"@,
        Op::Rts => "RTS"@,
        Op::Sbc => "SBC"@,
        Op::Sec => "SEC"@,
        Op::Sed => "SED"@,
        Op::Sei => "SEI"@,
        Op::Sta => "STA"@,
        Op::Stx => "STX"@,
        Op::Sty => "STY"@,
        Op::Tax => "TAX"@,
        Op::Tay => "TAY"@,
        Op::Tsx => "TSX"@,
        Op::Txa => "TXA"@,
        Op::Txs => "TXS"@,
        Op::Tya => "TYA"@,
        Op::Xxx => "???"@,
    }
}

/// Column `cc = 01`: the eight accumulator operations, by `aaa`.
pub open spec fn alu_op(a: int) -> Op {
    if a == 0 {
        Op::Ora
    } else if a == 1 {
        Op::And
    } else if a == 2 {
        Op::Eor
    } else if a == 3 {
        Op::Adc
    } else if a == 4 {
        Op::Sta
    } else if a == 5 {
        Op::Lda
    } else if a == 6 {
        Op::Cmp
    } else {
        Op::Sbc
    }
}

/// Column `cc = 01`: the addressing mode, by `bbb`.
pub open spec fn alu_mode(b: int) -> AddrMode {
    if b == 0 {
        AddrMode::Izx
    } else if b == 1 {
        AddrMode::Zp0
    } else if b == 2 {
        AddrMode::Imm
    } else if b == 3 {
        AddrMode::Abs
    } else if b == 4 {
        AddrMode::Izy
    } else if b == 5 {
        AddrMode::Zpx
    } else if b == 6 {
        AddrMode::Aby
    } else {
        AddrMode::Abx
    }
}

/// Column `cc = 10`: shifts, rotates, DEC and INC, by `aaa`.
pub open spec fn shift_op(a: int) -> Op {
    if a == 0 {
        Op::Asl
    } else if a == 1 {
        Op::Rol
    } else if a == 2 {
        Op::Lsr
    } else if a == 3 {
        Op::Ror
    } else if a == 6 {
        Op::Dec
    } else {
        Op::Inc
    }
}

/// Memory addressing of the `cc = 10` and `cc = 00` columns, by `bbb`; the
/// indexed forms use `index_y` in place of X.
pub open spec fn memory_mode(b: int, index_y: bool) -> AddrMode {
    if b == 0 {
        AddrMode::Imm
    } else if b == 1 {
        AddrMode::Zp0
    } else if b == 3 {
        AddrMode::Abs
    } else if b == 5 {
        if index_y {
            AddrMode::Zpy
        } else {
            AddrMode::Zpx
        }
    } else if index_y {
        AddrMode::Aby
    } else {
        AddrMode::Abx
    }
}

/// The branches `xxy10000`, by `aaa`: the flag tested and the value sought.
pub open spec fn branch_op(a: int) -> Op {
    if a == 0 {
        Op::Bpl
    } else if a == 1 {
        Op::Bmi
    } else if a == 2 {
        Op::Bvc
    } else if a == 3 {
        Op::Bvs
    } else if a == 4 {
        Op::Bcc
    } else if a == 5 {
        Op::Bcs
    } else if a == 6 {
        Op::Bne
    } else {
        Op::Beq
    }
}

/// The one-byte instructions `aaa01000`.
pub open spec fn row8_op(a: int) -> Op {
    if a == 0 {
        Op::Php
    } else if a == 1 {
        Op::Plp
    } else if a == 2 {
        Op::Pha
    } else if a == 3 {
        Op::Pla
    } else if a == 4 {
        Op::Dey
    } else if a == 5 {
        Op::Tay
    } else if a == 6 {
        Op::Iny
    } else {
        Op::Inx
    }
}

/// The one-byte instructions `aaa11000`.
pub open spec fn row18_op(a: int) -> Op {
    if a == 0 {
        Op::Clc
    } else if a == 1 {
        Op::Sec
    } else if a == 2 {
        Op::Cli
    } else if a == 3 {
        Op::Sei
    } else if a == 4 {
        Op::Tya
    } else if a == 5 {
        Op::Clv
    } else if a == 6 {
        Op::Cld
    } else {
        Op::Sed
    }
}

/// The documented instruction an opcode `aaabbbcc` encodes, with its
/// addressing mode, or `None` for an undocumented opcode.
pub open spec fn documented(opcode: u8) -> Option<(Op, AddrMode)> {
    let a = opcode as int / 32;
    let b = (opcode as int / 4) % 8;
    let cc = opcode as int % 4;
    if cc == 1 {
        if opcode == 0x89 {
            None
        } else {
            Some((alu_op(a), alu_mode(b)))
        }
    } else if cc == 2 {
        if b == 2 {
            if a <= 3 {
                Some((shift_op(a), AddrMode::Imp))
            } else if a == 4 {
                Some((Op::Txa, AddrMode::Imp))
            } else if a == 5 {
                Some((Op::Tax, AddrMode::Imp))
            } else if a == 6 {
                Some((Op::Dex, AddrMode::Imp))
            } else {
                Some((Op::Nop, AddrMode::Imp))
            }
        } else if b == 6 && a == 4 {
            Some((Op::Txs, AddrMode::Imp))
        } else if b == 6 && a == 5 {
            Some((Op::Tsx, AddrMode::Imp))
        } else if a == 4 && (b == 1 || b == 3 || b == 5) {
            Some((Op::Stx, memory_mode(b, true)))
        } else if a == 5 && (b == 0 || b == 1 || b == 3 || b == 5 || b == 7) {
            Some((Op::Ldx, memory_mode(b, true)))
        } else if a != 4 && a != 5 && (b == 1 || b == 3 || b == 5 || b == 7) {
            Some((shift_op(a), memory_mode(b, false)))
        } else {
            None
        }
    } else if cc == 0 {
        if b == 4 {
            Some((branch_op(a), AddrMode::Rel))
        } else if b == 2 {
            Some((row8_op(a), AddrMode::Imp))
        } else if b == 6 {
            Some((row18_op(a), AddrMode::Imp))
        } else if opcode == 0x00 {
            Some((Op::Brk, AddrMode::Imm))
        } else if opcode == 0x20 {
            Some((Op::Jsr, AddrMode::Abs))
        } else if opcode == 0x40 {
            Some((Op::Rti, AddrMode::Imp))
        } else if opcode == 0x60 {
            Some((Op::Rts, AddrMode::Imp))
        } else if opcode == 0x4C {
            Some((Op::Jmp, AddrMode::Abs))
        } else if opcode == 0x6C {
            Some((Op::Jmp, AddrMode::Ind))
        } else if a == 1 && (b == 1 || b == 3) {
            Some((Op::Bit, memory_mode(b, false)))
        } else if a == 4 && (b == 1 || b == 3 || b == 5) {
            Some((Op::Sty, memory_mode(b, false)))
        } else if a == 5 && (b == 0 || b == 1 || b == 3 || b == 5 || b == 7) {
            Some((Op::Ldy, memory_mode(b, false)))
        } else if (a == 6 || a == 7) && (b == 0 || b == 1 || b == 3) {
            Some((
                if a == 6 {
                    Op::Cpy
                } else {
                    Op::Cpx
                },
                memory_mode(b, false),
            ))
        } else {
            None
        }
    } else {
        None
    }
}

/// The base cycle count of a documented instruction: read-modify-write
/// instructions on memory take two more than a read, stores never save the
/// indexed cycle, and the stack and control instructions have their own counts.
pub open spec fn documented_cycles(op: Op, mode: AddrMode) -> int {
    match op {
        Op::Brk => 7,
        Op::Jsr | Op::Rti | Op::Rts => 6,
        Op::Jmp => if mode == AddrMode::Ind {
            5
        } else {
            3
        },
        Op::Pha | Op::Php => 3,
        Op::Pla | Op::Plp => 4,
        Op::Asl | Op::Rol | Op::Lsr | Op::Ror | Op::Dec | Op::Inc => match mode {
            AddrMode::Imp => 2,
            AddrMode::Zp0 => 5,
            AddrMode::Abs | AddrMode::Zpx => 6,
            _ => 7,
        },
        Op::Sta => match mode {
            AddrMode::Zp0 => 3,
            AddrMode::Abs | AddrMode::Zpx => 4,
            AddrMode::Abx | AddrMode::Aby => 5,
            _ => 6,
        },
        _ => match mode {
            AddrMode::Imp | AddrMode::Imm | AddrMode::Rel => 2,
            AddrMode::Zp0 => 3,
            AddrMode::Izx => 6,
            AddrMode::Izy => 5,
            _ => 4,
        },
    }
}

/// Every documented opcode decodes to the operation and addressing mode its
/// bit fields encode, under that operation's mnemonic and with its base
/// cycle count.
pub proof fn lemma_documented_opcodes(opcode: u8)
    ensures
        documented(opcode) matches Some((op, mode)) ==> {
            &&& instruction_spec(opcode).operate == op
            &&& instruction_spec(opcode).addr_mode == mode
            &&& instruction_spec(opcode).name@ == mnemonic(op)
            &&& instruction_spec(opcode).cycles == documented_cycles(op, mode)
        },
{
}

/// Every table entry is named by the mnemonic of the operation it runs, or
/// `???` for an undocumented opcode.
pub proof fn lemma_names_match_operations(opcode: u8)
    ensures
        instruction_spec(opcode).name@ == mnemonic(instruction_spec(opcode).operate)
            || (documented(opcode) is None && instruction_spec(opcode).name@ == "???"@),
{
}

} // verus!
