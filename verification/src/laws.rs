use vstd::prelude::*;

use crate::addressing::{mode_zp0, mode_zpx, mode_zpy};
use crate::bus::{word, BusView};
use crate::cpu::{
    add16, dec8, hi_byte, inc8, interrupt_spec, lo_byte, operand, pop_spec, push_spec, stack_addr,
    Cpu,
};
use crate::flags::{
    flag, lemma_flag_after_set, lemma_other_flags_kept, lemma_set_flag_unchanged, signed,
    with_flag, Flag,
};
use crate::instruction::Op;
use crate::opcodes::{
    add_with_carry, compare_status, op_allowed, op_brk, op_flag, op_jsr, op_lsr, op_rti, op_rts,
    signed_overflow, subtract_with_borrow,
};

verus! {

// ---------------------------------------------------------------------------
// Laws that relate several operations of the CPU.
// ---------------------------------------------------------------------------

proof fn lemma_stack_slots(p: u8)
    ensures
        stack_addr(p) <= 0x1FF,
        stack_addr(p) as int % 2048 == 0x100 + p,
        inc8(dec8(p)) == p,
        dec8(p) != p,
{
}

/// A byte pushed on the stack is what the next pop returns, and the pop puts
/// the stack pointer back where it was.
pub proof fn lemma_push_pop(c: Cpu, m: BusView, v: u8)
    requires
        m.ram.len() == 2048,
    ensures
        ({
            let (c1, m1) = push_spec(c, m, v);
            let (c2, r) = pop_spec(c1, m1);
            r == v && c2.stack.ptr == c.stack.ptr
        }),
{
    lemma_stack_slots(c.stack.ptr);
}

proof fn lemma_word_bytes(v: u16)
    ensures
        word(lo_byte(v), hi_byte(v)) == v,
{
}

/// Two bytes pushed high-first come back low-first as the same 16-bit word,
/// and the stack pointer is restored.
proof fn lemma_push_word_pop_word(c: Cpu, m: BusView, v: u16)
    requires
        m.ram.len() == 2048,
    ensures
        ({
            let (c1, m1) = push_spec(c, m, hi_byte(v));
            let (c2, m2) = push_spec(c1, m1, lo_byte(v));
            let (c3, lo) = pop_spec(c2, m2);
            let (c4, hi) = pop_spec(c3, m2);
            &&& word(lo, hi) == v
            &&& c4.stack.ptr == c.stack.ptr
            &&& m2.ram.len() == 2048
        }),
{
    let p = c.stack.ptr;
    lemma_stack_slots(p);
    lemma_stack_slots(dec8(p));
    lemma_word_bytes(v);
}

/// JSR followed by RTS returns to the instruction after the JSR (the program
/// counter JSR found) with the stack pointer restored, as long as that
/// program counter is not 0 (RTS cannot return to 0x0000).
pub proof fn lemma_jsr_rts_roundtrip(c: Cpu, m: BusView)
    requires
        m.ram.len() == 2048,
        c.pc != 0,
    ensures
        ({
            let (c1, m1, _r) = op_jsr(c, m);
            &&& op_allowed(Op::Rts, c1, m1)
            &&& op_rts(c1, m1).0.pc == c.pc
            &&& op_rts(c1, m1).0.stack.ptr == c.stack.ptr
            &&& op_rts(c1, m1).1 == m1
        }),
{
    let ret = add16(c.pc, -1);
    lemma_push_word_pop_word(c, m, ret);
}

/// The status an interrupt saves: B clear, U and I set.
pub open spec fn interrupt_status(status: u8) -> u8 {
    with_flag(with_flag(with_flag(status, Flag::B, false), Flag::U, true), Flag::I, true)
}

proof fn lemma_rti_restores_saved_status(s: u8)
    ensures
        with_flag(with_flag(interrupt_status(s), Flag::B, false), Flag::U, true) == interrupt_status(
            s,
        ),
{
    let s1 = with_flag(s, Flag::B, false);
    let s2 = with_flag(s1, Flag::U, true);
    let s3 = with_flag(s2, Flag::I, true);
    lemma_flag_after_set(s, Flag::B, false);
    lemma_other_flags_kept(s1, Flag::U, Flag::B, true);
    lemma_other_flags_kept(s2, Flag::I, Flag::B, true);
    lemma_set_flag_unchanged(s3, Flag::B, false);
    lemma_flag_after_set(s1, Flag::U, true);
    lemma_other_flags_kept(s2, Flag::I, Flag::U, true);
    lemma_set_flag_unchanged(s3, Flag::U, true);
}

/// An interrupt (IRQ or NMI) followed by RTI resumes at the interrupted
/// program counter, with the stack pointer restored and the status that the
/// interrupt saved (the old flags with B clear, U and I set).
pub proof fn lemma_interrupt_rti_roundtrip(c: Cpu, m: BusView, vector: u16, cycles: u8)
    requires
        m.ram.len() == 2048,
    ensures
        ({
            let (c1, m1) = interrupt_spec(c, m, vector, cycles);
            let (c2, m2, _r) = op_rti(c1, m1);
            &&& c2.pc == c.pc
            &&& c2.stack.ptr == c.stack.ptr
            &&& c2.status == interrupt_status(c.status)
            &&& m2 == m1
        }),
{
    let p = c.stack.ptr;
    lemma_stack_slots(p);
    lemma_stack_slots(dec8(p));
    lemma_stack_slots(dec8(dec8(p)));
    lemma_word_bytes(c.pc);
    lemma_rti_restores_saved_status(c.status);
}

/// BRK followed by RTI resumes one byte past the program counter BRK found
/// (BRK skips a padding byte), with the stack pointer restored.
pub proof fn lemma_brk_rti_roundtrip(c: Cpu, m: BusView)
    requires
        m.ram.len() == 2048,
    ensures
        ({
            let (c1, m1, _r) = op_brk(c, m);
            let (c2, m2, _r2) = op_rti(c1, m1);
            &&& c2.pc == add16(c.pc, 1)
            &&& c2.stack.ptr == c.stack.ptr
        }),
{
    let p = c.stack.ptr;
    lemma_stack_slots(p);
    lemma_stack_slots(dec8(p));
    lemma_stack_slots(dec8(dec8(p)));
    lemma_word_bytes(add16(c.pc, 1));
}

/// SBC is ADC with the operand inverted.
pub proof fn lemma_sbc_is_adc_of_inverted(status: u8, a: u8, v: u8)
    ensures
        subtract_with_borrow(status, a, v) == add_with_carry(status, a, (255 - v) as u8),
{
}

/// A comparison sets C, Z and N as a subtraction without borrow would, and
/// leaves every other flag alone.
pub proof fn lemma_compare_is_subtraction(status: u8, reg: u8, v: u8)
    ensures
        ({
            let cs = compare_status(status, reg, v);
            let ss = subtract_with_borrow(with_flag(status, Flag::C, true), reg, v).1;
            &&& flag(cs, Flag::C) == flag(ss, Flag::C)
            &&& flag(cs, Flag::Z) == flag(ss, Flag::Z)
            &&& flag(cs, Flag::N) == flag(ss, Flag::N)
            &&& forall|g: Flag|
                g != Flag::C && g != Flag::Z && g != Flag::N ==> flag(cs, g) == flag(status, g)
        }),
{
    let s0 = with_flag(status, Flag::C, true);
    lemma_flag_after_set(status, Flag::C, true);
    let diff = reg as int - v as int;
    let r = ((diff + 256) % 256) as u8;
    // the three flags of the comparison
    let c1 = with_flag(status, Flag::C, reg >= v);
    let c2 = with_flag(c1, Flag::Z, reg == v);
    let c3 = with_flag(c2, Flag::N, (reg as int - v as int + 256) % 256 >= 0x80);
    // the four flags of the subtraction
    let t1 = with_flag(s0, Flag::C, diff >= 0);
    let t2 = with_flag(t1, Flag::Z, r == 0);
    let t3 = with_flag(t2, Flag::N, r >= 0x80);
    let ov = signed_overflow(signed(reg) - signed(v));
    lemma_flag_after_set(c2, Flag::N, (reg as int - v as int + 256) % 256 >= 0x80);
    lemma_flag_after_set(t3, Flag::V, ov);
    lemma_other_flags_kept(t3, Flag::V, Flag::N, ov);
    lemma_flag_after_set(t2, Flag::N, r >= 0x80);
    lemma_other_flags_kept(c2, Flag::N, Flag::Z, (reg as int - v as int + 256) % 256 >= 0x80);
    lemma_flag_after_set(c1, Flag::Z, reg == v);
    lemma_other_flags_kept(t3, Flag::V, Flag::Z, ov);
    lemma_other_flags_kept(t2, Flag::N, Flag::Z, r >= 0x80);
    lemma_flag_after_set(t1, Flag::Z, r == 0);
    lemma_other_flags_kept(c2, Flag::N, Flag::C, (reg as int - v as int + 256) % 256 >= 0x80);
    lemma_other_flags_kept(c1, Flag::Z, Flag::C, reg == v);
    lemma_flag_after_set(status, Flag::C, reg >= v);
    lemma_other_flags_kept(t3, Flag::V, Flag::C, ov);
    lemma_other_flags_kept(t2, Flag::N, Flag::C, r >= 0x80);
    lemma_other_flags_kept(t1, Flag::Z, Flag::C, r == 0);
    lemma_flag_after_set(s0, Flag::C, diff >= 0);
    assert forall|g: Flag| g != Flag::C && g != Flag::Z && g != Flag::N implies flag(c3, g) == flag(
        status,
        g,
    ) by {
        lemma_other_flags_kept(c2, Flag::N, g, (reg as int - v as int + 256) % 256 >= 0x80);
        lemma_other_flags_kept(c1, Flag::Z, g, reg == v);
        lemma_other_flags_kept(status, Flag::C, g, reg >= v);
    }
}

/// LSR always clears N: a zero shifts into bit 7.
pub proof fn lemma_lsr_clears_negative(c: Cpu, m: BusView)
    ensures
        !flag(op_lsr(c, m).0.status, Flag::N),
{
    let v = operand(c, m);
    let r = (v as int / 2) as u8;
    let s = with_flag(c.status, Flag::C, v as int % 2 == 1);
    lemma_flag_after_set(with_flag(s, Flag::Z, r == 0), Flag::N, r >= 0x80);
}

/// A flag instruction sets its flag to the given value and leaves every other
/// flag as it was.
pub proof fn lemma_flag_op_touches_one_flag(c: Cpu, m: BusView, f: Flag, v: bool)
    ensures
        flag(op_flag(c, m, f, v).0.status, f) == v,
        forall|g: Flag| g != f ==> flag(op_flag(c, m, f, v).0.status, g) == flag(c.status, g),
{
    lemma_flag_after_set(c.status, f, v);
    assert forall|g: Flag| g != f implies flag(op_flag(c, m, f, v).0.status, g) == flag(
        c.status,
        g,
    ) by {
        lemma_other_flags_kept(c.status, f, g, v);
    }
}

/// Zero-page addressing, indexed or not, never leaves page zero.
pub proof fn lemma_zero_page_stays_in_page_zero(c: Cpu, m: BusView)
    ensures
        mode_zp0(c, m).0.addr_abs <= 0xFF,
        mode_zpx(c, m).0.addr_abs <= 0xFF,
        mode_zpy(c, m).0.addr_abs <= 0xFF,
{
}

} // verus!
