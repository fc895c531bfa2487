use vstd::prelude::*;

use crate::addressing::sign_extend;
use crate::bits::{lemma_byte_bits, lemma_join_bytes, lemma_word_bits};
use crate::bus::{next_addr, word, Bus, BusView};
use crate::cpu::{add16, Cpu};
use crate::decoding::{lemma_names_match_operations, mnemonic};
use crate::instruction::{instruction_spec, lookup, AddrMode};
use crate::program::{hex_byte_text, hex_digit};

verus! {

/// A 16-bit value as four upper-case hexadecimal digits.
pub open spec fn hex_word_text(w: u16) -> Seq<char> {
    hex_byte_text((w as int / 256) as u8) + hex_byte_text((w as int % 256) as u8)
}

/// The operand of an instruction in the notation of its addressing mode
/// (`#$nn`, `$nn`, `$nn,X`, `$nnnn`, `($nnnn)`, `($nn,X)`, `($nn),Y`, ...),
/// given its first operand byte, its two operand bytes as a word, and the
/// target a branch would reach.
pub open spec fn operand_syntax(mode: AddrMode, b1: u8, w: u16, target: u16) -> Seq<char> {
    match mode {
        AddrMode::Imp => Seq::empty(),
        AddrMode::Imm => seq![' ', '#', '$'] + hex_byte_text(b1),
        AddrMode::Zp0 => seq![' ', '$'] + hex_byte_text(b1),
        AddrMode::Zpx => seq![' ', '$'] + hex_byte_text(b1) + seq![',', 'X'],
        AddrMode::Zpy => seq![' ', '$'] + hex_byte_text(b1) + seq![',', 'Y'],
        AddrMode::Abs => seq![' ', '$'] + hex_word_text(w),
        AddrMode::Abx => seq![' ', '$'] + hex_word_text(w) + seq![',', 'X'],
        AddrMode::Aby => seq![' ', '$'] + hex_word_text(w) + seq![',', 'Y'],
        AddrMode::Ind => seq![' ', '(', '$'] + hex_word_text(w) + seq![')'],
        AddrMode::Izx => seq![' ', '(', '$'] + hex_byte_text(b1) + seq![',', 'X', ')'],
        AddrMode::Izy => seq![' ', '(', '$'] + hex_byte_text(b1) + seq![')', ',', 'Y'],
        AddrMode::Rel => seq![' ', '$'] + hex_word_text(target),
    }
}

/// The assembly text of the instruction at `addr`: its mnemonic and operand;
/// a branch shows the address it would jump to.
pub open spec fn disassembly(m: BusView, addr: u16) -> Seq<char> {
    let ins = instruction_spec(m.read(addr));
    let b1 = m.read(next_addr(addr));
    let b2 = m.read(next_addr(next_addr(addr)));
    ins.name@ + operand_syntax(
        ins.addr_mode,
        b1,
        word(b1, b2),
        add16(add16(addr, 2), sign_extend(b1) as int),
    )
}

fn push_hex_byte(text: &mut String, b: u8)
    ensures
        final(text)@ == old(text)@ + hex_byte_text(b),
{
    proof {
        lemma_byte_bits(b);
    }
    text.append(hex_digit(b >> 4));
    text.append(hex_digit(b & 0x0F));
}

fn push_hex_word(text: &mut String, w: u16)
    ensures
        final(text)@ == old(text)@ + hex_word_text(w),
{
    proof {
        lemma_word_bits(w);
    }
    push_hex_byte(text, (w >> 8) as u8);
    push_hex_byte(text, w as u8);
}

fn push_operand(text: &mut String, mode: AddrMode, b1: u8, w: u16, target: u16)
    ensures
        final(text)@ == old(text)@ + operand_syntax(mode, b1, w, target),
{
    proof {
        reveal_strlit(" #$");
        reveal_strlit(" $");
        reveal_strlit(",X");
        reveal_strlit(",Y");
        reveal_strlit(" ($");
        reveal_strlit(")");
        reveal_strlit(",X)");
        reveal_strlit("),Y");
    }
    let ghost start = text@;
    match mode {
        AddrMode::Imp => {},
        AddrMode::Imm => {
            text.append(" #$");
            push_hex_byte(text, b1);
        },
        AddrMode::Zp0 => {
            text.append(" $");
            push_hex_byte(text, b1);
        },
        AddrMode::Zpx => {
            text.append(" $");
            push_hex_byte(text, b1);
            text.append(",X");
        },
        AddrMode::Zpy => {
            text.append(" $");
            push_hex_byte(text, b1);
            text.append(",Y");
        },
        AddrMode::Abs => {
            text.append(" $");
            push_hex_word(text, w);
        },
        AddrMode::Abx => {
            text.append(" $");
            push_hex_word(text, w);
            text.append(",X");
        },
        AddrMode::Aby => {
            text.append(" $");
            push_hex_word(text, w);
            text.append(",Y");
        },
        AddrMode::Ind => {
            text.append(" ($");
            push_hex_word(text, w);
            text.append(")");
        },
        AddrMode::Izx => {
            text.append(" ($");
            push_hex_byte(text, b1);
            text.append(",X)");
        },
        AddrMode::Izy => {
            text.append(" ($");
            push_hex_byte(text, b1);
            text.append("),Y");
        },
        AddrMode::Rel => {
            text.append(" $");
            push_hex_word(text, target);
        },
    }
    assert(text@ =~= start + operand_syntax(mode, b1, w, target));
}

/// The disassembly of an instruction begins with the name of the operation
/// that the CPU runs for it: its mnemonic, or `???` for an undocumented opcode.
pub proof fn lemma_disassembly_names_operation(m: BusView, addr: u16)
    ensures
        ({
            let ins = instruction_spec(m.read(addr));
            &&& disassembly(m, addr).subrange(0, ins.name@.len() as int) == ins.name@
            &&& (ins.name@ == mnemonic(ins.operate) || ins.name@ == "???"@)
        }),
{
    let ins = instruction_spec(m.read(addr));
    lemma_names_match_operations(m.read(addr));
    assert(disassembly(m, addr).subrange(0, ins.name@.len() as int) =~= ins.name@);
}

impl Cpu {
    /// Disassembles the instruction stored at `addr`.
    pub fn disassemble(&self, addr: u16, bus: &Bus) -> (text: String)
        ensures
            text@ == disassembly(bus@, addr),
    {
        let ins = lookup(bus.read(addr));
        let b1 = bus.read(addr.wrapping_add(1));
        let b2 = bus.read(addr.wrapping_add(1).wrapping_add(1));
        let w = (b2 as u16) << 8 | b1 as u16;
        proof {
            lemma_join_bytes(b1 as u16, b2 as u16);
            lemma_byte_bits(b1);
        }
        let target = addr.wrapping_add(2).wrapping_add(b1 as i8 as u16);
        let mut text = String::new();
        text.append(ins.name);
        let ghost named = text@;
        push_operand(&mut text, ins.addr_mode, b1, w, target);
        proof {
            let m = bus@;
            assert(addr.wrapping_add(1) == next_addr(addr));
            assert(addr.wrapping_add(1).wrapping_add(1) == next_addr(next_addr(addr)));
            assert(w == word(b1, b2));
            assert(target == add16(add16(addr, 2), sign_extend(b1) as int));
            assert(named == instruction_spec(m.read(addr)).name@);
        }
        text
    }
}

} // verus!
