use vstd::prelude::*;

use crate::addressing::mode_spec;
use crate::bus::BusView;
use crate::cpu::{clock_spec, decode_spec, interrupt_spec, operand, uses_implied, Cpu};
use crate::flags::{
    carry, flag, lemma_flag_after_set, lemma_other_flags_kept, signed, with_flag, with_nz, Flag,
};
use crate::instruction::{instruction_spec, AddrMode, Op};
use crate::opcodes::{branch_condition, op_spec, signed_overflow};

verus! {

// ---------------------------------------------------------------------------
// What each operation computes, stated over registers, memory and single
// flags: the results an operation must produce, whatever way it is written.
// ---------------------------------------------------------------------------

/// After an operation with result `r`: Z tells whether `r` is zero, N is its
/// bit 7, and every other flag of `before` is kept.
pub open spec fn nz_of(before: u8, after: u8, r: u8) -> bool {
    &&& flag(after, Flag::Z) == (r == 0)
    &&& flag(after, Flag::N) == (r >= 0x80)
    &&& forall|g: Flag| g != Flag::Z && g != Flag::N ==> #[trigger] flag(after, g) == flag(before, g)
}

/// The program counter, the stack pointer and the cycle count are untouched.
pub open spec fn keeps_flow(before: Cpu, after: Cpu) -> bool {
    &&& after.pc == before.pc
    &&& after.stack == before.stack
    &&& after.cycles == before.cycles
}

/// Setting Z and N from a value describes that value and keeps the rest.
proof fn lemma_with_nz(s: u8, r: u8)
    ensures
        nz_of(s, with_nz(s, r), r),
{
    let s1 = with_flag(s, Flag::Z, r == 0);
    lemma_flag_after_set(s, Flag::Z, r == 0);
    lemma_other_flags_kept(s1, Flag::N, Flag::Z, r >= 0x80);
    lemma_flag_after_set(s1, Flag::N, r >= 0x80);
    assert forall|g: Flag| g != Flag::Z && g != Flag::N implies #[trigger] flag(
        with_nz(s, r),
        g,
    ) == flag(s, g) by {
        lemma_other_flags_kept(s1, Flag::N, g, r >= 0x80);
        lemma_other_flags_kept(s, Flag::Z, g, r == 0);
    }
}

/// Setting one flag to `v` leaves it `v` and keeps the others.
proof fn lemma_one_flag(s: u8, f: Flag, v: bool)
    ensures
        flag(with_flag(s, f, v), f) == v,
        forall|g: Flag| g != f ==> #[trigger] flag(with_flag(s, f, v), g) == flag(s, g),
{
    lemma_flag_after_set(s, f, v);
    assert forall|g: Flag| g != f implies #[trigger] flag(with_flag(s, f, v), g) == flag(s, g) by {
        lemma_other_flags_kept(s, f, g, v);
    }
}

/// Loads put the operand in their register; transfers copy one register into
/// another. Z and N then describe the value moved (TXS touches no flag); no
/// other register, flag, nor memory changes.
#[verifier::spinoff_prover]
pub proof fn lemma_loads_and_transfers(c: Cpu, m: BusView)
    ensures
        ({
            let v = operand(c, m);
            let (c1, m1, _e) = op_spec(Op::Lda, c, m);
            c1.a == v && c1.x == c.x && c1.y == c.y && nz_of(c.status, c1.status, v) && keeps_flow(c, c1) && m1 == m
        }),
        ({
            let v = operand(c, m);
            let (c1, m1, _e) = op_spec(Op::Ldx, c, m);
            c1.x == v && c1.a == c.a && c1.y == c.y && nz_of(c.status, c1.status, v) && keeps_flow(c, c1) && m1 == m
        }),
        ({
            let v = operand(c, m);
            let (c1, m1, _e) = op_spec(Op::Ldy, c, m);
            c1.y == v && c1.a == c.a && c1.x == c.x && nz_of(c.status, c1.status, v) && keeps_flow(c, c1) && m1 == m
        }),
        ({
            let (c1, m1, _e) = op_spec(Op::Tax, c, m);
            c1.x == c.a && c1.a == c.a && c1.y == c.y && nz_of(c.status, c1.status, c.a) && keeps_flow(c, c1) && m1 == m
        }),
        ({
            let (c1, m1, _e) = op_spec(Op::Tay, c, m);
            c1.y == c.a && c1.a == c.a && c1.x == c.x && nz_of(c.status, c1.status, c.a) && keeps_flow(c, c1) && m1 == m
        }),
        ({
            let (c1, m1, _e) = op_spec(Op::Txa, c, m);
            c1.a == c.x && c1.x == c.x && c1.y == c.y && nz_of(c.status, c1.status, c.x) && keeps_flow(c, c1) && m1 == m
        }),
        ({
            let (c1, m1, _e) = op_spec(Op::Tya, c, m);
            c1.a == c.y && c1.x == c.x && c1.y == c.y && nz_of(c.status, c1.status, c.y) && keeps_flow(c, c1) && m1 == m
        }),
        ({
            let (c1, m1, _e) = op_spec(Op::Tsx, c, m);
            c1.x == c.stack.ptr && c1.a == c.a && c1.y == c.y && nz_of(c.status, c1.status, c.stack.ptr)
                && keeps_flow(c, c1) && m1 == m
        }),
        ({
            let (c1, m1, _e) = op_spec(Op::Txs, c, m);
            c1.stack.ptr == c.x && c1.a == c.a && c1.x == c.x && c1.y == c.y && c1.status == c.status
                && c1.pc == c.pc && m1 == m
        }),
{
    lemma_with_nz(c.status, operand(c, m));
    lemma_with_nz(c.status, c.a);
    lemma_with_nz(c.status, c.x);
    lemma_with_nz(c.status, c.y);
    lemma_with_nz(c.status, c.stack.ptr);
}

/// INC and DEC store the byte at the effective address plus or minus one
/// (wrapping), INX, INY, DEX and DEY do the same to their register; Z and N
/// describe the new value.
#[verifier::spinoff_prover]
pub proof fn lemma_increments(c: Cpu, m: BusView)
    ensures
        ({
            let v = m.read(c.addr_abs);
            let (c1, m1, _e) = op_spec(Op::Inc, c, m);
            exists|r: u8|
                r as int == (v as int + 1) % 256 && m1 == m.write(c.addr_abs, r) && nz_of(c.status, c1.status, r)
                    && c1.a == c.a && c1.x == c.x && c1.y == c.y && keeps_flow(c, c1)
        }),
        ({
            let v = m.read(c.addr_abs);
            let (c1, m1, _e) = op_spec(Op::Dec, c, m);
            exists|r: u8|
                r as int == (v as int - 1 + 256) % 256 && m1 == m.write(c.addr_abs, r) && nz_of(c.status, c1.status, r)
                    && c1.a == c.a && c1.x == c.x && c1.y == c.y && keeps_flow(c, c1)
        }),
        ({
            let (c1, m1, _e) = op_spec(Op::Inx, c, m);
            c1.x as int == (c.x as int + 1) % 256 && nz_of(c.status, c1.status, c1.x) && c1.a == c.a && c1.y == c.y
                && keeps_flow(c, c1) && m1 == m
        }),
        ({
            let (c1, m1, _e) = op_spec(Op::Iny, c, m);
            c1.y as int == (c.y as int + 1) % 256 && nz_of(c.status, c1.status, c1.y) && c1.a == c.a && c1.x == c.x
                && keeps_flow(c, c1) && m1 == m
        }),
        ({
            let (c1, m1, _e) = op_spec(Op::Dex, c, m);
            c1.x as int == (c.x as int - 1 + 256) % 256 && nz_of(c.status, c1.status, c1.x) && c1.a == c.a
                && c1.y == c.y && keeps_flow(c, c1) && m1 == m
        }),
        ({
            let (c1, m1, _e) = op_spec(Op::Dey, c, m);
            c1.y as int == (c.y as int - 1 + 256) % 256 && nz_of(c.status, c1.status, c1.y) && c1.a == c.a
                && c1.x == c.x && keeps_flow(c, c1) && m1 == m
        }),
{
    let v = m.read(c.addr_abs);
    let up = ((v as int + 1) % 256) as u8;
    let down = ((v as int + 255) % 256) as u8;
    lemma_with_nz(c.status, up);
    lemma_with_nz(c.status, down);
    lemma_with_nz(c.status, ((c.x as int + 1) % 256) as u8);
    lemma_with_nz(c.status, ((c.y as int + 1) % 256) as u8);
    lemma_with_nz(c.status, ((c.x as int + 255) % 256) as u8);
    lemma_with_nz(c.status, ((c.y as int + 255) % 256) as u8);
    let (c1, m1, _e) = op_spec(Op::Inc, c, m);
    assert(m1 == m.write(c.addr_abs, up));
    let (c2, m2, _e2) = op_spec(Op::Dec, c, m);
    assert(m2 == m.write(c.addr_abs, down));
}

/// AND, ORA and EOR combine A with the operand bit by bit; BIT leaves A and
/// sets Z when A AND the operand is zero, N and V from bits 7 and 6 of the
/// operand.
#[verifier::spinoff_prover]
pub proof fn lemma_logic(c: Cpu, m: BusView)
    ensures
        ({
            let v = operand(c, m);
            let (c1, m1, _e) = op_spec(Op::And, c, m);
            c1.a == c.a & v && nz_of(c.status, c1.status, c1.a) && c1.x == c.x && c1.y == c.y && keeps_flow(c, c1)
                && m1 == m
        }),
        ({
            let v = operand(c, m);
            let (c1, m1, _e) = op_spec(Op::Ora, c, m);
            c1.a == c.a | v && nz_of(c.status, c1.status, c1.a) && c1.x == c.x && c1.y == c.y && keeps_flow(c, c1)
                && m1 == m
        }),
        ({
            let v = operand(c, m);
            let (c1, m1, _e) = op_spec(Op::Eor, c, m);
            c1.a == c.a ^ v && nz_of(c.status, c1.status, c1.a) && c1.x == c.x && c1.y == c.y && keeps_flow(c, c1)
                && m1 == m
        }),
        ({
            let v = operand(c, m);
            let (c1, m1, _e) = op_spec(Op::Bit, c, m);
            &&& flag(c1.status, Flag::Z) == (c.a & v == 0)
            &&& flag(c1.status, Flag::N) == (v & 0x80 != 0)
            &&& flag(c1.status, Flag::V) == (v & 0x40 != 0)
            &&& forall|g: Flag|
                g != Flag::Z && g != Flag::N && g != Flag::V ==> #[trigger] flag(c1.status, g) == flag(c.status, g)
            &&& c1.a == c.a && c1.x == c.x && c1.y == c.y && keeps_flow(c, c1) && m1 == m
        }),
{
    let v = operand(c, m);
    lemma_with_nz(c.status, c.a & v);
    lemma_with_nz(c.status, c.a | v);
    lemma_with_nz(c.status, c.a ^ v);
    let s1 = with_flag(c.status, Flag::Z, c.a & v == 0);
    let s2 = with_flag(s1, Flag::N, v >= 0x80);
    let b6 = (v as int / 64) % 2 == 1;
    lemma_one_flag(c.status, Flag::Z, c.a & v == 0);
    lemma_one_flag(s1, Flag::N, v >= 0x80);
    lemma_one_flag(s2, Flag::V, b6);
    assert((v & 0x80 != 0) == (v >= 0x80) && (v & 0x40 != 0) == ((v as int / 64) % 2 == 1))
        by (bit_vector);
}

/// `after` is `before` with flag `f` made `v`: the other flags, the
/// registers and the control state are kept.
pub open spec fn sets_only(before: Cpu, after: Cpu, f: Flag, v: bool) -> bool {
    &&& flag(after.status, f) == v
    &&& forall|g: Flag| g != f ==> #[trigger] flag(after.status, g) == flag(before.status, g)
    &&& after.a == before.a && after.x == before.x && after.y == before.y
    &&& keeps_flow(before, after)
}

/// Each flag instruction sets or clears its own flag and keeps the others.
#[verifier::spinoff_prover]
pub proof fn lemma_flag_instructions(c: Cpu, m: BusView)
    ensures
        sets_only(c, op_spec(Op::Clc, c, m).0, Flag::C, false),
        sets_only(c, op_spec(Op::Sec, c, m).0, Flag::C, true),
        sets_only(c, op_spec(Op::Cli, c, m).0, Flag::I, false),
        sets_only(c, op_spec(Op::Sei, c, m).0, Flag::I, true),
        sets_only(c, op_spec(Op::Cld, c, m).0, Flag::D, false),
        sets_only(c, op_spec(Op::Sed, c, m).0, Flag::D, true),
        sets_only(c, op_spec(Op::Clv, c, m).0, Flag::V, false),
        op_spec(Op::Clc, c, m).1 == m && op_spec(Op::Sec, c, m).1 == m && op_spec(Op::Cli, c, m).1 == m
            && op_spec(Op::Sei, c, m).1 == m && op_spec(Op::Cld, c, m).1 == m && op_spec(Op::Sed, c, m).1 == m
            && op_spec(Op::Clv, c, m).1 == m,
{
    lemma_one_flag(c.status, Flag::C, false);
    lemma_one_flag(c.status, Flag::C, true);
    lemma_one_flag(c.status, Flag::I, false);
    lemma_one_flag(c.status, Flag::I, true);
    lemma_one_flag(c.status, Flag::D, false);
    lemma_one_flag(c.status, Flag::D, true);
    lemma_one_flag(c.status, Flag::V, false);
}

/// The carry flag as 0 or 1.
pub open spec fn carry_in(status: u8) -> int {
    if flag(status, Flag::C) {
        1
    } else {
        0
    }
}

/// Four flags set in turn (C, Z, N, V) read back as set, the others as before.
proof fn lemma_cznv(s: u8, fc: bool, fz: bool, fn_: bool, fv: bool)
    ensures
        ({
            let t = with_flag(
                with_flag(with_flag(with_flag(s, Flag::C, fc), Flag::Z, fz), Flag::N, fn_),
                Flag::V,
                fv,
            );
            &&& flag(t, Flag::C) == fc
            &&& flag(t, Flag::Z) == fz
            &&& flag(t, Flag::N) == fn_
            &&& flag(t, Flag::V) == fv
            &&& forall|g: Flag|
                g != Flag::C && g != Flag::Z && g != Flag::N && g != Flag::V ==> #[trigger] flag(t, g) == flag(
                    s,
                    g,
                )
        }),
{
    let s1 = with_flag(s, Flag::C, fc);
    let s2 = with_flag(s1, Flag::Z, fz);
    let s3 = with_flag(s2, Flag::N, fn_);
    lemma_one_flag(s, Flag::C, fc);
    lemma_one_flag(s1, Flag::Z, fz);
    lemma_one_flag(s2, Flag::N, fn_);
    lemma_one_flag(s3, Flag::V, fv);
}

/// Three flags set in turn (C, Z, N) read back as set, the others as before.
proof fn lemma_czn(s: u8, fc: bool, fz: bool, fn_: bool)
    ensures
        ({
            let t = with_flag(with_flag(with_flag(s, Flag::C, fc), Flag::Z, fz), Flag::N, fn_);
            &&& flag(t, Flag::C) == fc
            &&& flag(t, Flag::Z) == fz
            &&& flag(t, Flag::N) == fn_
            &&& forall|g: Flag|
                g != Flag::C && g != Flag::Z && g != Flag::N ==> #[trigger] flag(t, g) == flag(s, g)
        }),
{
    let s1 = with_flag(s, Flag::C, fc);
    let s2 = with_flag(s1, Flag::Z, fz);
    lemma_one_flag(s, Flag::C, fc);
    lemma_one_flag(s1, Flag::Z, fz);
    lemma_one_flag(s2, Flag::N, fn_);
}

/// ADC adds the operand and the carry to A: C reports a sum above 0xFF, V a
/// sum of two same-signed bytes whose sign differs, Z and N describe the new A.
/// SBC subtracts the operand and the borrow (1 - C) from A: C reports that no
/// borrow was needed, V a difference of two differently signed bytes whose
/// sign differs from A's. The other flags, registers and memory are kept.
#[verifier::spinoff_prover]
pub proof fn lemma_arithmetic(c: Cpu, m: BusView)
    ensures
        ({
            let v = operand(c, m);
            let (c1, m1, _e) = op_spec(Op::Adc, c, m);
            let sum = c.a as int + v as int + carry_in(c.status);
            &&& c1.a as int == sum % 256
            &&& flag(c1.status, Flag::C) == (sum > 255)
            &&& flag(c1.status, Flag::Z) == (c1.a == 0)
            &&& flag(c1.status, Flag::N) == (c1.a >= 0x80)
            &&& flag(c1.status, Flag::V) == ((c.a >= 0x80) == (v >= 0x80) && (c1.a >= 0x80) != (c.a >= 0x80))
            &&& forall|g: Flag|
                g != Flag::C && g != Flag::Z && g != Flag::N && g != Flag::V ==> #[trigger] flag(c1.status, g)
                    == flag(c.status, g)
            &&& c1.x == c.x && c1.y == c.y && keeps_flow(c, c1) && m1 == m
        }),
        ({
            let v = operand(c, m);
            let (c1, m1, _e) = op_spec(Op::Sbc, c, m);
            let diff = c.a as int - v as int - (1 - carry_in(c.status));
            &&& c1.a as int == (diff + 256) % 256
            &&& flag(c1.status, Flag::C) == (diff >= 0)
            &&& flag(c1.status, Flag::Z) == (c1.a == 0)
            &&& flag(c1.status, Flag::N) == (c1.a >= 0x80)
            &&& flag(c1.status, Flag::V) == ((c.a >= 0x80) != (v >= 0x80) && (c1.a >= 0x80) != (c.a >= 0x80))
            &&& forall|g: Flag|
                g != Flag::C && g != Flag::Z && g != Flag::N && g != Flag::V ==> #[trigger] flag(c1.status, g)
                    == flag(c.status, g)
            &&& c1.x == c.x && c1.y == c.y && keeps_flow(c, c1) && m1 == m
        }),
{
    let v = operand(c, m);
    let cin = carry_in(c.status);
    let sum = c.a as int + v as int + cin;
    let r = (sum % 256) as u8;
    lemma_cznv(
        c.status,
        sum > 255,
        r == 0,
        r >= 0x80,
        signed_overflow(signed(c.a) + signed(v) + carry(c.status)),
    );
    let diff = c.a as int - v as int - (1 - cin);
    let d = ((diff + 256) % 256) as u8;
    lemma_cznv(
        c.status,
        diff >= 0,
        d == 0,
        d >= 0x80,
        signed_overflow(signed(c.a) - signed(v) - (1 - carry(c.status))),
    );
}

/// CMP, CPX and CPY compare a register with the operand: C when the register
/// is at least the operand, Z when they are equal, N from bit 7 of their
/// difference; nothing else changes.
#[verifier::spinoff_prover]
pub proof fn lemma_compares(c: Cpu, m: BusView)
    ensures
        forall|op: Op|
            #![trigger op_spec(op, c, m)]
            op == Op::Cmp || op == Op::Cpx || op == Op::Cpy ==> {
                let v = operand(c, m);
                let reg = if op == Op::Cmp {
                    c.a
                } else if op == Op::Cpx {
                    c.x
                } else {
                    c.y
                };
                let (c1, m1, _e) = op_spec(op, c, m);
                &&& flag(c1.status, Flag::C) == (reg >= v)
                &&& flag(c1.status, Flag::Z) == (reg == v)
                &&& flag(c1.status, Flag::N) == ((reg as int - v as int + 256) % 256 >= 0x80)
                &&& forall|g: Flag|
                    g != Flag::C && g != Flag::Z && g != Flag::N ==> #[trigger] flag(c1.status, g) == flag(
                        c.status,
                        g,
                    )
                &&& c1.a == c.a && c1.x == c.x && c1.y == c.y && keeps_flow(c, c1) && m1 == m
            },
{
    let v = operand(c, m);
    lemma_czn(c.status, c.a >= v, c.a == v, (c.a as int - v as int + 256) % 256 >= 0x80);
    lemma_czn(c.status, c.x >= v, c.x == v, (c.x as int - v as int + 256) % 256 >= 0x80);
    lemma_czn(c.status, c.y >= v, c.y == v, (c.y as int - v as int + 256) % 256 >= 0x80);
}

/// A shift or rotate with result `r` and carry out `cout`: C is `cout`, Z and
/// N describe `r`, the other flags are kept, and `r` goes to A under implied
/// addressing, otherwise to the effective address.
pub open spec fn shifted(c: Cpu, m: BusView, c1: Cpu, m1: BusView, r: u8, cout: bool) -> bool {
    &&& flag(c1.status, Flag::C) == cout
    &&& flag(c1.status, Flag::Z) == (r == 0)
    &&& flag(c1.status, Flag::N) == (r >= 0x80)
    &&& forall|g: Flag|
        g != Flag::C && g != Flag::Z && g != Flag::N ==> #[trigger] flag(c1.status, g) == flag(c.status, g)
    &&& c1.x == c.x && c1.y == c.y && keeps_flow(c, c1)
    &&& uses_implied(c.opcode) ==> c1.a == r && m1 == m
    &&& !uses_implied(c.opcode) ==> c1.a == c.a && m1 == m.write(c.addr_abs, r)
}

/// ASL doubles the operand (bit 7 to C), LSR halves it (bit 0 to C); ROL and
/// ROR do the same with the old carry shifted into the freed bit.
#[verifier::spinoff_prover]
pub proof fn lemma_shifts(c: Cpu, m: BusView)
    ensures
        ({
            let v = operand(c, m);
            let (c1, m1, _e) = op_spec(Op::Asl, c, m);
            shifted(c, m, c1, m1, ((v as int * 2) % 256) as u8, v >= 0x80)
        }),
        ({
            let v = operand(c, m);
            let (c1, m1, _e) = op_spec(Op::Lsr, c, m);
            shifted(c, m, c1, m1, (v as int / 2) as u8, v as int % 2 == 1)
        }),
        ({
            let v = operand(c, m);
            let (c1, m1, _e) = op_spec(Op::Rol, c, m);
            shifted(c, m, c1, m1, ((v as int * 2 + carry_in(c.status)) % 256) as u8, v >= 0x80)
        }),
        ({
            let v = operand(c, m);
            let (c1, m1, _e) = op_spec(Op::Ror, c, m);
            shifted(c, m, c1, m1, (v as int / 2 + 128 * carry_in(c.status)) as u8, v as int % 2 == 1)
        }),
{
    let v = operand(c, m);
    let cin = carry_in(c.status);
    lemma_czn(c.status, v >= 0x80, ((v as int * 2) % 256) as u8 == 0, ((v as int * 2) % 256) as u8 >= 0x80);
    lemma_czn(c.status, v as int % 2 == 1, (v as int / 2) as u8 == 0, (v as int / 2) as u8 >= 0x80);
    let rl = ((v as int * 2) % 256 + cin) as u8;
    assert(rl == ((v as int * 2 + cin) % 256) as u8);
    lemma_czn(c.status, v >= 0x80, rl == 0, rl >= 0x80);
    let rr = (v as int / 2 + 128 * cin) as u8;
    lemma_czn(c.status, v as int % 2 == 1, rr == 0, rr >= 0x80);
    lemma_with_nz(with_flag(c.status, Flag::C, v >= 0x80), ((v as int * 2) % 256) as u8);
}

/// The flag condition under which each branch is taken.
pub open spec fn branch_taken(op: Op, status: u8) -> bool {
    match op {
        Op::Bcc => !flag(status, Flag::C),
        Op::Bcs => flag(status, Flag::C),
        Op::Bne => !flag(status, Flag::Z),
        Op::Beq => flag(status, Flag::Z),
        Op::Bpl => !flag(status, Flag::N),
        Op::Bmi => flag(status, Flag::N),
        Op::Bvc => !flag(status, Flag::V),
        _ => flag(status, Flag::V),
    }
}

/// A branch taken moves the program counter by the signed offset (wrapping)
/// and costs one more cycle, two when it lands in another page; a branch not
/// taken changes nothing. Registers, flags and memory are kept either way.
#[verifier::spinoff_prover]
pub proof fn lemma_branches(c: Cpu, m: BusView)
    ensures
        forall|op: Op|
            #![trigger op_spec(op, c, m)]
            op == Op::Bcc || op == Op::Bcs || op == Op::Bne || op == Op::Beq || op == Op::Bpl || op == Op::Bmi
                || op == Op::Bvc || op == Op::Bvs ==> {
                let (c1, m1, _e) = op_spec(op, c, m);
                let target = ((c.pc as int + c.addr_rel as int) % 0x10000) as u16;
                &&& branch_taken(op, c.status) ==> c1.pc == target
                &&& branch_taken(op, c.status) && c.cycles < 254 ==> c1.cycles == c.cycles + 1 + (
                if c.pc as int / 256 != target as int / 256 {
                    1int
                } else {
                    0
                })
                &&& !branch_taken(op, c.status) ==> c1.pc == c.pc && c1.cycles == c.cycles
                &&& c1.a == c.a && c1.x == c.x && c1.y == c.y && c1.status == c.status && c1.stack == c.stack
                &&& m1 == m
            },
{
    assert forall|op: Op|
        #![trigger op_spec(op, c, m)]
        op == Op::Bcc || op == Op::Bcs || op == Op::Bne || op == Op::Beq || op == Op::Bpl || op == Op::Bmi
            || op == Op::Bvc || op == Op::Bvs implies {
            let (c1, m1, _e) = op_spec(op, c, m);
            let target = ((c.pc as int + c.addr_rel as int) % 0x10000) as u16;
            &&& branch_taken(op, c.status) ==> c1.pc == target
            &&& branch_taken(op, c.status) && c.cycles < 254 ==> c1.cycles == c.cycles + 1 + (
            if c.pc as int / 256 != target as int / 256 {
                1int
            } else {
                0
            })
            &&& !branch_taken(op, c.status) ==> c1.pc == c.pc && c1.cycles == c.cycles
            &&& c1.a == c.a && c1.x == c.x && c1.y == c.y && c1.status == c.status && c1.stack == c.stack
            &&& m1 == m
        } by {
        assert(branch_taken(op, c.status) == branch_condition(op, c.status));
    }
}

/// The bus address of stack slot `p` (page one).
pub open spec fn slot(p: int) -> u16 {
    (0x100 + p % 256) as u16
}

/// A status byte with flag `f1` made `v1` and `f2` made `v2`, and every other
/// flag of `s`.
pub open spec fn status_with_two(t: u8, s: u8, f1: Flag, v1: bool, f2: Flag, v2: bool) -> bool {
    &&& flag(t, f1) == v1
    &&& flag(t, f2) == v2
    &&& forall|g: Flag| g != f1 && g != f2 ==> #[trigger] flag(t, g) == flag(s, g)
}

proof fn lemma_two_flags(s: u8, f1: Flag, v1: bool, f2: Flag, v2: bool)
    requires
        f1 != f2,
    ensures
        status_with_two(with_flag(with_flag(s, f1, v1), f2, v2), s, f1, v1, f2, v2),
{
    let s1 = with_flag(s, f1, v1);
    lemma_one_flag(s, f1, v1);
    lemma_one_flag(s1, f2, v2);
}

/// PHA and PHP write A, or the status with B and U set, to the stack slot and
/// move the pointer down; PLA and PLP move it up and take the byte of the new
/// slot into A (Z and N describing it) or into the status (with B clear and U
/// set). Nothing else changes.
#[verifier::spinoff_prover]
pub proof fn lemma_stack_operations(c: Cpu, m: BusView)
    ensures
        ({
            let sp = c.stack.ptr as int;
            let (c1, m1, _e) = op_spec(Op::Pha, c, m);
            &&& m1 == m.write(slot(sp), c.a)
            &&& c1.stack.ptr as int == (sp + 255) % 256
            &&& c1.a == c.a && c1.x == c.x && c1.y == c.y && c1.status == c.status && c1.pc == c.pc
        }),
        ({
            let sp = c.stack.ptr as int;
            let (c1, m1, _e) = op_spec(Op::Php, c, m);
            &&& exists|p: u8|
                m1 == m.write(slot(sp), p) && status_with_two(p, c.status, Flag::B, true, Flag::U, true)
            &&& c1.stack.ptr as int == (sp + 255) % 256
            &&& c1.a == c.a && c1.x == c.x && c1.y == c.y && c1.status == c.status && c1.pc == c.pc
        }),
        ({
            let sp = c.stack.ptr as int;
            let (c1, m1, _e) = op_spec(Op::Pla, c, m);
            &&& c1.a == m.read(slot(sp + 1))
            &&& nz_of(c.status, c1.status, c1.a)
            &&& c1.stack.ptr as int == (sp + 1) % 256
            &&& c1.x == c.x && c1.y == c.y && c1.pc == c.pc && m1 == m
        }),
        ({
            let sp = c.stack.ptr as int;
            let (c1, m1, _e) = op_spec(Op::Plp, c, m);
            &&& status_with_two(c1.status, m.read(slot(sp + 1)), Flag::U, true, Flag::B, false)
            &&& c1.stack.ptr as int == (sp + 1) % 256
            &&& c1.a == c.a && c1.x == c.x && c1.y == c.y && c1.pc == c.pc && m1 == m
        }),
{
    let sp = c.stack.ptr as int;
    lemma_with_nz(c.status, m.read(slot(sp + 1)));
    lemma_two_flags(c.status, Flag::B, true, Flag::U, true);
    lemma_two_flags(m.read(slot(sp + 1)), Flag::U, true, Flag::B, false);
    let p = with_flag(with_flag(c.status, Flag::B, true), Flag::U, true);
    assert(op_spec(Op::Php, c, m).1 == m.write(slot(sp), p));
}

/// JMP continues at the effective address. JSR pushes the address of its
/// own last byte (the program counter less one), high byte first, and
/// continues at the effective address. RTS pulls an address, low byte first,
/// and continues one past it. RTI pulls the status (B clear, U set) and then
/// the exact address to continue at.
#[verifier::spinoff_prover]
#[verifier::rlimit(40)]
pub proof fn lemma_jumps_and_returns(c: Cpu, m: BusView)
    ensures
        ({
            let (c1, m1, _e) = op_spec(Op::Jmp, c, m);
            c1.pc == c.addr_abs && c1.a == c.a && c1.x == c.x && c1.y == c.y && c1.status == c.status
                && c1.stack == c.stack && m1 == m
        }),
        ({
            let sp = c.stack.ptr as int;
            let ret = (c.pc as int + 0xFFFF) % 0x10000;
            let (c1, m1, _e) = op_spec(Op::Jsr, c, m);
            &&& m1 == m.write(slot(sp), (ret / 256) as u8).write(slot(sp + 255), (ret % 256) as u8)
            &&& c1.stack.ptr as int == (sp + 254) % 256
            &&& c1.pc == c.addr_abs
            &&& c1.a == c.a && c1.x == c.x && c1.y == c.y && c1.status == c.status
        }),
        ({
            let sp = c.stack.ptr as int;
            let lo = m.read(slot(sp + 1));
            let hi = m.read(slot(sp + 2));
            let (c1, m1, _e) = op_spec(Op::Rts, c, m);
            &&& hi as int * 256 + lo as int != 0xFFFF ==> c1.pc as int == hi as int * 256 + lo as int + 1
            &&& c1.stack.ptr as int == (sp + 2) % 256
            &&& c1.a == c.a && c1.x == c.x && c1.y == c.y && c1.status == c.status && m1 == m
        }),
        ({
            let sp = c.stack.ptr as int;
            let p = m.read(slot(sp + 1));
            let lo = m.read(slot(sp + 2));
            let hi = m.read(slot(sp + 3));
            let (c1, m1, _e) = op_spec(Op::Rti, c, m);
            &&& c1.pc as int == hi as int * 256 + lo as int
            &&& status_with_two(c1.status, p, Flag::B, false, Flag::U, true)
            &&& c1.stack.ptr as int == (sp + 3) % 256
            &&& c1.a == c.a && c1.x == c.x && c1.y == c.y && m1 == m
        }),
{
    let sp = c.stack.ptr as int;
    lemma_two_flags(m.read(slot(sp + 1)), Flag::B, false, Flag::U, true);
    assert(((sp + 255) % 256 + 255) % 256 == (sp + 254) % 256);
    assert(((sp + 1) % 256 + 1) % 256 == (sp + 2) % 256);
    assert((((sp + 1) % 256 + 1) % 256 + 1) % 256 == (sp + 3) % 256);
}

/// Taking an interrupt through `vector` pushes the program counter, high byte
/// first, then the status with B clear and U and I set; the CPU keeps running
/// with that same status (so further IRQs are masked), from the address held
/// at `vector`, with `cycles` cycles to count.
#[verifier::spinoff_prover]
pub proof fn lemma_interrupt_entry(c: Cpu, m: BusView, vector: u16, cycles: u8)
    requires
        vector < 0xFFFF,
    ensures
        ({
            let sp = c.stack.ptr as int;
            let (c1, m1) = interrupt_spec(c, m, vector, cycles);
            &&& flag(c1.status, Flag::I)
            &&& !flag(c1.status, Flag::B)
            &&& flag(c1.status, Flag::U)
            &&& forall|g: Flag|
                g != Flag::I && g != Flag::B && g != Flag::U ==> #[trigger] flag(c1.status, g) == flag(
                    c.status,
                    g,
                )
            &&& m1 == m.write(slot(sp), (c.pc as int / 256) as u8).write(
                slot(sp + 255),
                (c.pc as int % 256) as u8,
            ).write(slot(sp + 254), c1.status)
            &&& c1.pc as int == m1.read((vector + 1) as u16) as int * 256 + m1.read(vector) as int
            &&& c1.stack.ptr as int == (sp + 253) % 256
            &&& c1.cycles == cycles
            &&& c1.a == c.a && c1.x == c.x && c1.y == c.y
        }),
{
    let sp = c.stack.ptr as int;
    let s1 = with_flag(c.status, Flag::B, false);
    let s2 = with_flag(s1, Flag::U, true);
    lemma_one_flag(c.status, Flag::B, false);
    lemma_one_flag(s1, Flag::U, true);
    lemma_one_flag(s2, Flag::I, true);
    assert(((sp + 255) % 256 + 255) % 256 == (sp + 254) % 256);
    assert((((sp + 255) % 256 + 255) % 256 + 255) % 256 == (sp + 253) % 256);
}

/// BRK pushes the program counter plus one, high byte first, then the status
/// with B and U set; the CPU continues with I set as well, from the address
/// held at the IRQ vector 0xFFFE.
#[verifier::spinoff_prover]
pub proof fn lemma_brk_entry(c: Cpu, m: BusView)
    ensures
        ({
            let sp = c.stack.ptr as int;
            let ret = (c.pc as int + 1) % 0x10000;
            let (c1, m1, _e) = op_spec(Op::Brk, c, m);
            &&& flag(c1.status, Flag::I) && flag(c1.status, Flag::B) && flag(c1.status, Flag::U)
            &&& forall|g: Flag|
                g != Flag::I && g != Flag::B && g != Flag::U ==> #[trigger] flag(c1.status, g) == flag(
                    c.status,
                    g,
                )
            &&& exists|p: u8|
                m1 == m.write(slot(sp), (ret / 256) as u8).write(slot(sp + 255), (ret % 256) as u8).write(
                    slot(sp + 254),
                    p,
                ) && status_with_two(p, c.status, Flag::B, true, Flag::U, true)
            &&& c1.pc as int == m1.read(0xFFFF) as int * 256 + m1.read(0xFFFE) as int
            &&& c1.stack.ptr as int == (sp + 253) % 256
            &&& c1.a == c.a && c1.x == c.x && c1.y == c.y
        }),
{
    let sp = c.stack.ptr as int;
    let s1 = with_flag(c.status, Flag::B, true);
    let s2 = with_flag(s1, Flag::U, true);
    lemma_one_flag(c.status, Flag::B, true);
    lemma_one_flag(s1, Flag::U, true);
    lemma_one_flag(s2, Flag::I, true);
    lemma_two_flags(c.status, Flag::B, true, Flag::U, true);
    assert(((sp + 255) % 256 + 255) % 256 == (sp + 254) % 256);
    assert((((sp + 255) % 256 + 255) % 256 + 255) % 256 == (sp + 253) % 256);
    let ret = (c.pc as int + 1) % 0x10000;
    let (c1, m1, _e) = op_spec(Op::Brk, c, m);
    assert(m1 == m.write(slot(sp), (ret / 256) as u8).write(slot(sp + 255), (ret % 256) as u8).write(
        slot(sp + 254),
        s2,
    ));
}

/// Addressing leaves A, X, Y, the status and the stack pointer alone.
pub open spec fn keeps_registers(before: Cpu, after: Cpu) -> bool {
    &&& after.a == before.a && after.x == before.x && after.y == before.y
    &&& after.status == before.status && after.stack == before.stack
}

/// Where each addressing mode finds its operand, with `b1` and `b2` the bytes
/// after the opcode: immediate at the program counter, zero page at `b1`
/// (plus X or Y, wrapping in page zero), absolute at `b2 b1` (plus X or Y,
/// wrapping at 0xFFFF, with an extra cycle when that crosses a page),
/// indirect through the pointer `b2 b1` (whose high byte comes from the start
/// of its page when `b1` is 0xFF), indexed indirect through the zero-page
/// pointer at `b1 + X`, indirect indexed through the one at `b1` plus Y.
/// The program counter steps past the operand bytes.
#[verifier::spinoff_prover]
pub proof fn lemma_addressing_modes(c: Cpu, m: BusView)
    ensures
        ({
            let pc1 = (c.pc as int + 1) % 0x10000;
            let pc2 = (c.pc as int + 2) % 0x10000;
            let b1 = m.read(c.pc) as int;
            let b2 = m.read(pc1 as u16) as int;
            let w = b2 * 256 + b1;
            let abx = (w + c.x as int) % 0x10000;
            let aby = (w + c.y as int) % 0x10000;
            let zx = (b1 + c.x as int) % 256;
            let t = m.read(b1 as u16) as int + 256 * m.read(((b1 + 1) % 256) as u16) as int;
            let ty = (t + c.y as int) % 0x10000;
            let hi_at = if b1 == 0xFF {
                b2 * 256
            } else {
                (w + 1) % 0x10000
            };
            &&& mode_spec(AddrMode::Imp, c, m).0.fetched == c.a && mode_spec(AddrMode::Imp, c, m).0.pc == c.pc
            &&& mode_spec(AddrMode::Imm, c, m).0.addr_abs == c.pc && mode_spec(AddrMode::Imm, c, m).0.pc == pc1
            &&& mode_spec(AddrMode::Zp0, c, m).0.addr_abs == b1 && mode_spec(AddrMode::Zp0, c, m).0.pc == pc1
            &&& mode_spec(AddrMode::Zpx, c, m).0.addr_abs == zx && mode_spec(AddrMode::Zpx, c, m).0.pc == pc1
            &&& mode_spec(AddrMode::Zpy, c, m).0.addr_abs == (b1 + c.y as int) % 256 && mode_spec(
                AddrMode::Zpy,
                c,
                m,
            ).0.pc == pc1
            &&& mode_spec(AddrMode::Rel, c, m).0.addr_rel == (if b1 < 0x80 {
                b1
            } else {
                b1 + 0xFF00
            }) && mode_spec(AddrMode::Rel, c, m).0.pc == pc1
            &&& mode_spec(AddrMode::Abs, c, m).0.addr_abs == w && mode_spec(AddrMode::Abs, c, m).0.pc == pc2
            &&& mode_spec(AddrMode::Abx, c, m).0.addr_abs == abx && mode_spec(AddrMode::Abx, c, m).0.pc == pc2
            &&& mode_spec(AddrMode::Abx, c, m).1 == (if w / 256 != abx / 256 {
                1u8
            } else {
                0u8
            })
            &&& mode_spec(AddrMode::Aby, c, m).0.addr_abs == aby && mode_spec(AddrMode::Aby, c, m).0.pc == pc2
            &&& mode_spec(AddrMode::Aby, c, m).1 == (if w / 256 != aby / 256 {
                1u8
            } else {
                0u8
            })
            &&& mode_spec(AddrMode::Ind, c, m).0.addr_abs == m.read(w as u16) as int + 256 * m.read(
                hi_at as u16,
            ) as int && mode_spec(AddrMode::Ind, c, m).0.pc == pc2
            &&& mode_spec(AddrMode::Izx, c, m).0.addr_abs == m.read(zx as u16) as int + 256 * m.read(
                ((zx + 1) % 256) as u16,
            ) as int && mode_spec(AddrMode::Izx, c, m).0.pc == pc1
            &&& mode_spec(AddrMode::Izy, c, m).0.addr_abs == ty && mode_spec(AddrMode::Izy, c, m).0.pc == pc1
            &&& mode_spec(AddrMode::Izy, c, m).1 == (if t / 256 != ty / 256 {
                1u8
            } else {
                0u8
            })
            &&& forall|md: AddrMode| #[trigger] keeps_registers(c, mode_spec(md, c, m).0)
            &&& forall|md: AddrMode|
                md != AddrMode::Abx && md != AddrMode::Aby && md != AddrMode::Izy ==> #[trigger] mode_spec(
                    md,
                    c,
                    m,
                ).1 == 0
        }),
{
}

/// A clock tick with cycles left only counts one down. A tick with none left
/// runs the instruction whose opcode is the byte at the program counter and
/// leaves U set.
#[verifier::spinoff_prover]
pub proof fn lemma_clock_tick(c: Cpu, m: BusView)
    ensures
        c.cycles > 0 ==> clock_spec(c, m).0 == (Cpu { cycles: (c.cycles - 1) as u8, ..c }) && clock_spec(
            c,
            m,
        ).1 == m,
        c.cycles == 0 ==> {
            let c1 = clock_spec(c, m).0;
            &&& c1.opcode == m.read(c.pc)
            &&& flag(c1.status, Flag::U)
        },
{
    if c.cycles == 0 {
        let (c3, e1) = decode_spec(c, m);
        lemma_one_flag(op_spec(instruction_spec(c3.opcode).operate, c3, m).0.status, Flag::U, true);
    }
}

} // verus!
