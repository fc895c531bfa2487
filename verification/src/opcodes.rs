use vstd::prelude::*;

use crate::addressing::page_crossed;
use crate::bits::{
    lemma_byte_bits, lemma_join_bytes, lemma_page_bits, lemma_rol_bits, lemma_ror_bits,
    lemma_shl_bits, lemma_shr_bits, lemma_word_bits,
};
use crate::bus::{word, Bus, BusView};
use crate::cpu::{
    IRQ_VECTOR, add16, dec8, hi_byte, inc8, lo_byte, operand, pop_spec, push_spec, uses_implied, Cpu, Stack,
};
use crate::flags::{carry, flag, signed, with_flag, with_nz, Flag};
use crate::instruction::{lookup, AddrMode, Op};

verus! {

// ---------------------------------------------------------------------------
// What each operation does: the CPU state and bus it leaves, and whether it
// accepts the extra cycle of a page-crossing addressing mode (1) or not (0).
// ---------------------------------------------------------------------------

/// Loads of A, X or Y: the register takes the operand, and Z and N describe it.
pub open spec fn op_lda(c: Cpu, m: BusView) -> (Cpu, BusView, u8) {
    let v = operand(c, m);
    (Cpu { a: v, fetched: v, status: with_nz(c.status, v), ..c }, m, 1)
}

pub open spec fn op_ldx(c: Cpu, m: BusView) -> (Cpu, BusView, u8) {
    let v = operand(c, m);
    (Cpu { x: v, fetched: v, status: with_nz(c.status, v), ..c }, m, 1)
}

pub open spec fn op_ldy(c: Cpu, m: BusView) -> (Cpu, BusView, u8) {
    let v = operand(c, m);
    (Cpu { y: v, fetched: v, status: with_nz(c.status, v), ..c }, m, 1)
}

/// Stores write a register to the effective address and touch no flag.
pub open spec fn op_sta(c: Cpu, m: BusView) -> (Cpu, BusView, u8) {
    (c, m.write(c.addr_abs, c.a), 0)
}

pub open spec fn op_stx(c: Cpu, m: BusView) -> (Cpu, BusView, u8) {
    (c, m.write(c.addr_abs, c.x), 0)
}

pub open spec fn op_sty(c: Cpu, m: BusView) -> (Cpu, BusView, u8) {
    (c, m.write(c.addr_abs, c.y), 0)
}

/// Register transfers set Z and N from the value moved, except TXS.
pub open spec fn op_tax(c: Cpu, m: BusView) -> (Cpu, BusView, u8) {
    (Cpu { x: c.a, status: with_nz(c.status, c.a), ..c }, m, 0)
}

pub open spec fn op_tay(c: Cpu, m: BusView) -> (Cpu, BusView, u8) {
    (Cpu { y: c.a, status: with_nz(c.status, c.a), ..c }, m, 0)
}

pub open spec fn op_txa(c: Cpu, m: BusView) -> (Cpu, BusView, u8) {
    (Cpu { a: c.x, status: with_nz(c.status, c.x), ..c }, m, 0)
}

pub open spec fn op_tya(c: Cpu, m: BusView) -> (Cpu, BusView, u8) {
    (Cpu { a: c.y, status: with_nz(c.status, c.y), ..c }, m, 0)
}

pub open spec fn op_tsx(c: Cpu, m: BusView) -> (Cpu, BusView, u8) {
    (Cpu { x: c.stack.ptr, status: with_nz(c.status, c.stack.ptr), ..c }, m, 0)
}

pub open spec fn op_txs(c: Cpu, m: BusView) -> (Cpu, BusView, u8) {
    (Cpu { stack: Stack { ptr: c.x }, ..c }, m, 0)
}

/// Flag instructions set or clear exactly one flag.
pub open spec fn op_flag(c: Cpu, m: BusView, f: Flag, v: bool) -> (Cpu, BusView, u8) {
    (Cpu { status: with_flag(c.status, f, v), ..c }, m, 0)
}

/// Stack instructions.
pub open spec fn op_pha(c: Cpu, m: BusView) -> (Cpu, BusView, u8) {
    let (c1, m1) = push_spec(c, m, c.a);
    (c1, m1, 0)
}

/// PHP pushes the status with B and U set; the status itself is unchanged.
pub open spec fn op_php(c: Cpu, m: BusView) -> (Cpu, BusView, u8) {
    let (c1, m1) = push_spec(c, m, with_flag(with_flag(c.status, Flag::B, true), Flag::U, true));
    (c1, m1, 0)
}

pub open spec fn op_pla(c: Cpu, m: BusView) -> (Cpu, BusView, u8) {
    let (c1, v) = pop_spec(c, m);
    (Cpu { a: v, status: with_nz(c.status, v), ..c1 }, m, 0)
}

/// PLP restores the status from the stack with U set and B clear.
pub open spec fn op_plp(c: Cpu, m: BusView) -> (Cpu, BusView, u8) {
    let (c1, v) = pop_spec(c, m);
    (Cpu { status: with_flag(with_flag(v, Flag::U, true), Flag::B, false), ..c1 }, m, 0)
}

/// Increments and decrements wrap at 0xFF / 0x00.
pub open spec fn op_inc(c: Cpu, m: BusView) -> (Cpu, BusView, u8) {
    let v = inc8(m.read(c.addr_abs));
    (Cpu { status: with_nz(c.status, v), ..c }, m.write(c.addr_abs, v), 0)
}

pub open spec fn op_dec(c: Cpu, m: BusView) -> (Cpu, BusView, u8) {
    let v = dec8(m.read(c.addr_abs));
    (Cpu { status: with_nz(c.status, v), ..c }, m.write(c.addr_abs, v), 0)
}

pub open spec fn op_inx(c: Cpu, m: BusView) -> (Cpu, BusView, u8) {
    (Cpu { x: inc8(c.x), status: with_nz(c.status, inc8(c.x)), ..c }, m, 0)
}

pub open spec fn op_iny(c: Cpu, m: BusView) -> (Cpu, BusView, u8) {
    (Cpu { y: inc8(c.y), status: with_nz(c.status, inc8(c.y)), ..c }, m, 0)
}

pub open spec fn op_dex(c: Cpu, m: BusView) -> (Cpu, BusView, u8) {
    (Cpu { x: dec8(c.x), status: with_nz(c.status, dec8(c.x)), ..c }, m, 0)
}

pub open spec fn op_dey(c: Cpu, m: BusView) -> (Cpu, BusView, u8) {
    (Cpu { y: dec8(c.y), status: with_nz(c.status, dec8(c.y)), ..c }, m, 0)
}

/// Bitwise operations combine A with the operand into A.
pub open spec fn op_and(c: Cpu, m: BusView) -> (Cpu, BusView, u8) {
    let v = operand(c, m);
    (Cpu { a: c.a & v, fetched: v, status: with_nz(c.status, c.a & v), ..c }, m, 1)
}

pub open spec fn op_ora(c: Cpu, m: BusView) -> (Cpu, BusView, u8) {
    let v = operand(c, m);
    (Cpu { a: c.a | v, fetched: v, status: with_nz(c.status, c.a | v), ..c }, m, 1)
}

pub open spec fn op_eor(c: Cpu, m: BusView) -> (Cpu, BusView, u8) {
    let v = operand(c, m);
    (Cpu { a: c.a ^ v, fetched: v, status: with_nz(c.status, c.a ^ v), ..c }, m, 1)
}

/// BIT: Z from A AND the operand, N and V from bits 7 and 6 of the operand.
pub open spec fn op_bit(c: Cpu, m: BusView) -> (Cpu, BusView, u8) {
    let v = operand(c, m);
    let s = with_flag(
        with_flag(with_flag(c.status, Flag::Z, c.a & v == 0), Flag::N, v >= 0x80),
        Flag::V,
        (v as int / 64) % 2 == 1,
    );
    (Cpu { fetched: v, status: s, ..c }, m, 0)
}

/// A shift or rotate result goes to A under implied addressing, otherwise
/// back to the effective address.
pub open spec fn shift_result(c: Cpu, m: BusView, v: u8, r: u8, carry_out: bool) -> (
    Cpu,
    BusView,
    u8,
) {
    let s = with_nz(with_flag(c.status, Flag::C, carry_out), r);
    if uses_implied(c.opcode) {
        (Cpu { a: r, fetched: v, status: s, ..c }, m, 0)
    } else {
        (Cpu { fetched: v, status: s, ..c }, m.write(c.addr_abs, r), 0)
    }
}

/// ASL: shift left, bit 7 into C.
pub open spec fn op_asl(c: Cpu, m: BusView) -> (Cpu, BusView, u8) {
    let v = operand(c, m);
    shift_result(c, m, v, ((v as int * 2) % 256) as u8, v >= 0x80)
}

/// LSR: shift right, bit 0 into C.
pub open spec fn op_lsr(c: Cpu, m: BusView) -> (Cpu, BusView, u8) {
    let v = operand(c, m);
    shift_result(c, m, v, (v as int / 2) as u8, v as int % 2 == 1)
}

/// ROL: shift left with C into bit 0, bit 7 into C.
pub open spec fn op_rol(c: Cpu, m: BusView) -> (Cpu, BusView, u8) {
    let v = operand(c, m);
    shift_result(c, m, v, ((v as int * 2) % 256 + carry(c.status)) as u8, v >= 0x80)
}

/// ROR: shift right with C into bit 7, bit 0 into C.
pub open spec fn op_ror(c: Cpu, m: BusView) -> (Cpu, BusView, u8) {
    let v = operand(c, m);
    shift_result(c, m, v, (v as int / 2 + 128 * carry(c.status)) as u8, v as int % 2 == 1)
}

/// Compare a register with the operand: C when no borrow, Z when equal, N from
/// bit 7 of the difference.
pub open spec fn compare_status(status: u8, reg: u8, v: u8) -> u8 {
    with_flag(
        with_flag(with_flag(status, Flag::C, reg >= v), Flag::Z, reg == v),
        Flag::N,
        (reg as int - v as int + 256) % 256 >= 0x80,
    )
}

pub open spec fn op_cmp(c: Cpu, m: BusView) -> (Cpu, BusView, u8) {
    let v = operand(c, m);
    (Cpu { fetched: v, status: compare_status(c.status, c.a, v), ..c }, m, 1)
}

pub open spec fn op_cpx(c: Cpu, m: BusView) -> (Cpu, BusView, u8) {
    let v = operand(c, m);
    (Cpu { fetched: v, status: compare_status(c.status, c.x, v), ..c }, m, 0)
}

pub open spec fn op_cpy(c: Cpu, m: BusView) -> (Cpu, BusView, u8) {
    let v = operand(c, m);
    (Cpu { fetched: v, status: compare_status(c.status, c.y, v), ..c }, m, 0)
}

/// Whether a signed result falls outside -128..=127.
pub open spec fn signed_overflow(r: int) -> bool {
    r < -128 || r > 127
}

/// A + v + C: the result byte and the status, with C reporting unsigned
/// overflow, V signed overflow, and Z and N describing the result.
pub open spec fn add_with_carry(status: u8, a: u8, v: u8) -> (u8, u8) {
    let sum = a as int + v as int + carry(status);
    let r = (sum % 256) as u8;
    (
        r,
        with_flag(
            with_flag(with_flag(with_flag(status, Flag::C, sum > 255), Flag::Z, r == 0), Flag::N, r >= 0x80),
            Flag::V,
            signed_overflow(signed(a) + signed(v) + carry(status)),
        ),
    )
}

/// A - v - (1 - C): the result byte and the status, with C set when no borrow
/// occurs, V on signed overflow, and Z and N describing the result.
pub open spec fn subtract_with_borrow(status: u8, a: u8, v: u8) -> (u8, u8) {
    let diff = a as int - v as int - (1 - carry(status));
    let r = ((diff + 256) % 256) as u8;
    (
        r,
        with_flag(
            with_flag(with_flag(with_flag(status, Flag::C, diff >= 0), Flag::Z, r == 0), Flag::N, r >= 0x80),
            Flag::V,
            signed_overflow(signed(a) - signed(v) - (1 - carry(status))),
        ),
    )
}

/// ADC: A + operand + C into A.
pub open spec fn op_adc(c: Cpu, m: BusView) -> (Cpu, BusView, u8) {
    let v = operand(c, m);
    let (r, s) = add_with_carry(c.status, c.a, v);
    (Cpu { a: r, fetched: v, status: s, ..c }, m, 1)
}

/// SBC: A - operand - (1 - C) into A.
pub open spec fn op_sbc(c: Cpu, m: BusView) -> (Cpu, BusView, u8) {
    let v = operand(c, m);
    let (r, s) = subtract_with_borrow(c.status, c.a, v);
    (Cpu { a: r, fetched: v, status: s, ..c }, m, 1)
}

/// The target of a taken branch.
pub open spec fn branch_target(c: Cpu) -> u16 {
    add16(c.pc, c.addr_rel as int)
}

/// A taken branch costs one cycle, and one more when it lands in another page.
pub open spec fn branch_cycles(c: Cpu) -> int {
    c.cycles as int + 1 + page_crossed(c.pc, branch_target(c))
}

/// A branch: when `cond` holds, jump to the target and add the cycles.
pub open spec fn branch_spec(c: Cpu, cond: bool) -> Cpu {
    if cond {
        Cpu {
            cycles: branch_cycles(c) as u8,
            addr_abs: branch_target(c),
            pc: branch_target(c),
            ..c
        }
    } else {
        c
    }
}

/// The cycle counter does not overflow when the branch is taken.
pub open spec fn branch_fits(c: Cpu, cond: bool) -> bool {
    cond ==> branch_cycles(c) <= 255
}

/// The condition each branch instruction tests.
pub open spec fn branch_condition(op: Op, status: u8) -> bool {
    match op {
        Op::Bcc => !flag(status, Flag::C),
        Op::Bcs => flag(status, Flag::C),
        Op::Beq => flag(status, Flag::Z),
        Op::Bne => !flag(status, Flag::Z),
        Op::Bmi => flag(status, Flag::N),
        Op::Bpl => !flag(status, Flag::N),
        Op::Bvc => !flag(status, Flag::V),
        Op::Bvs => flag(status, Flag::V),
        _ => false,
    }
}

pub open spec fn op_branch(c: Cpu, m: BusView, op: Op) -> (Cpu, BusView, u8) {
    (branch_spec(c, branch_condition(op, c.status)), m, 0)
}

/// JMP: continue at the effective address.
pub open spec fn op_jmp(c: Cpu, m: BusView) -> (Cpu, BusView, u8) {
    (Cpu { pc: c.addr_abs, ..c }, m, 0)
}

/// JSR: push the address of the last byte of the JSR (high byte first), then jump.
pub open spec fn op_jsr(c: Cpu, m: BusView) -> (Cpu, BusView, u8) {
    let ret = add16(c.pc, -1);
    let (c1, m1) = push_spec(c, m, hi_byte(ret));
    let (c2, m2) = push_spec(c1, m1, lo_byte(ret));
    (Cpu { pc: c.addr_abs, ..c2 }, m2, 0)
}

/// The address RTS pulls from the stack (before adding one).
pub open spec fn rts_pulled(c: Cpu, m: BusView) -> u16 {
    let (c1, lo) = pop_spec(c, m);
    let (c2, hi) = pop_spec(c1, m);
    word(lo, hi)
}

/// RTS: pull the return address and continue one byte past it.
pub open spec fn op_rts(c: Cpu, m: BusView) -> (Cpu, BusView, u8) {
    let (c1, lo) = pop_spec(c, m);
    let (c2, hi) = pop_spec(c1, m);
    (Cpu { pc: (word(lo, hi) + 1) as u16, ..c2 }, m, 0)
}

/// RTI: pull the status (B cleared, U set), then the exact return address.
pub open spec fn op_rti(c: Cpu, m: BusView) -> (Cpu, BusView, u8) {
    let (c1, p) = pop_spec(c, m);
    let (c2, lo) = pop_spec(c1, m);
    let (c3, hi) = pop_spec(c2, m);
    (
        Cpu {
            status: with_flag(with_flag(p, Flag::B, false), Flag::U, true),
            pc: word(lo, hi),
            ..c3
        },
        m,
        0,
    )
}

/// BRK: skip the padding byte, push the program counter and the status with B
/// and U set, set I, and jump through the IRQ vector.
pub open spec fn op_brk(c: Cpu, m: BusView) -> (Cpu, BusView, u8) {
    let pc = add16(c.pc, 1);
    let (c1, m1) = push_spec(Cpu { pc, ..c }, m, hi_byte(pc));
    let (c2, m2) = push_spec(c1, m1, lo_byte(pc));
    let s = with_flag(with_flag(c.status, Flag::B, true), Flag::U, true);
    let (c3, m3) = push_spec(Cpu { status: s, ..c2 }, m2, s);
    (Cpu { status: with_flag(s, Flag::I, true), pc: m3.read_u16(0xFFFE), ..c3 }, m3, 0)
}

/// NOP and the illegal opcodes change nothing.
pub open spec fn op_nop(c: Cpu, m: BusView) -> (Cpu, BusView, u8) {
    (c, m, 0)
}

/// Dispatches an operation to its semantics.
pub open spec fn op_spec(op: Op, c: Cpu, m: BusView) -> (Cpu, BusView, u8) {
    match op {
        Op::Adc => op_adc(c, m),
        Op::And => op_and(c, m),
        Op::Asl => op_asl(c, m),
        Op::Bcc | Op::Bcs | Op::Beq | Op::Bmi | Op::Bne | Op::Bpl | Op::Bvc | Op::Bvs => op_branch(
            c,
            m,
            op,
        ),
        Op::Bit => op_bit(c, m),
        Op::Brk => op_brk(c, m),
        Op::Clc => op_flag(c, m, Flag::C, false),
        Op::Cld => op_flag(c, m, Flag::D, false),
        Op::Cli => op_flag(c, m, Flag::I, false),
        Op::Clv => op_flag(c, m, Flag::V, false),
        Op::Cmp => op_cmp(c, m),
        Op::Cpx => op_cpx(c, m),
        Op::Cpy => op_cpy(c, m),
        Op::Dec => op_dec(c, m),
        Op::Dex => op_dex(c, m),
        Op::Dey => op_dey(c, m),
        Op::Eor => op_eor(c, m),
        Op::Inc => op_inc(c, m),
        Op::Inx => op_inx(c, m),
        Op::Iny => op_iny(c, m),
        Op::Jmp => op_jmp(c, m),
        Op::Jsr => op_jsr(c, m),
        Op::Lda => op_lda(c, m),
        Op::Ldx => op_ldx(c, m),
        Op::Ldy => op_ldy(c, m),
        Op::Lsr => op_lsr(c, m),
        Op::Nop => op_nop(c, m),
        Op::Ora => op_ora(c, m),
        Op::Pha => op_pha(c, m),
        Op::Php => op_php(c, m),
        Op::Pla => op_pla(c, m),
        Op::Plp => op_plp(c, m),
        Op::Rol => op_rol(c, m),
        Op::Ror => op_ror(c, m),
        Op::Rti => op_rti(c, m),
        Op::Rts => op_rts(c, m),
        Op::Sbc => op_sbc(c, m),
        Op::Sec => op_flag(c, m, Flag::C, true),
        Op::Sed => op_flag(c, m, Flag::D, true),
        Op::Sei => op_flag(c, m, Flag::I, true),
        Op::Sta => op_sta(c, m),
        Op::Stx => op_stx(c, m),
        Op::Sty => op_sty(c, m),
        Op::Tax => op_tax(c, m),
        Op::Tay => op_tay(c, m),
        Op::Tsx => op_tsx(c, m),
        Op::Txa => op_txa(c, m),
        Op::Txs => op_txs(c, m),
        Op::Tya => op_tya(c, m),
        Op::Xxx => op_nop(c, m),
    }
}

/// The inputs on which an operation can run: a taken branch must not overflow
/// the cycle counter, and RTS must not pull 0xFFFF (adding one would overflow).
pub open spec fn op_allowed(op: Op, c: Cpu, m: BusView) -> bool {
    match op {
        Op::Bcc | Op::Bcs | Op::Beq | Op::Bmi | Op::Bne | Op::Bpl | Op::Bvc | Op::Bvs => branch_fits(
            c,
            branch_condition(op, c.status),
        ),
        Op::Rts => rts_pulled(c, m) != 0xFFFF,
        _ => true,
    }
}



impl Cpu {
    /// Illegal opcode: does nothing.
    pub fn xxx(&mut self, bus: &mut Bus) -> (r: u8)
        ensures
            (*final(self), final(bus)@, r) == op_nop(*old(self), old(bus)@),
    {
        0
    }

    pub fn nop(&mut self, bus: &mut Bus) -> (r: u8)
        ensures
            (*final(self), final(bus)@, r) == op_nop(*old(self), old(bus)@),
    {
        0
    }

    pub fn adc(&mut self, bus: &mut Bus) -> (r: u8)
        ensures
            (*final(self), final(bus)@, r) == op_adc(*old(self), old(bus)@),
    {
        let c: u16 = if self.get_flag(Flag::C) { 1 } else { 0 };
        let result = (self.a as u16) + (self.fetch(bus) as u16) + c;
        let a = self.a;
        let f = self.fetched;
        proof {
            lemma_add_bits(a as u16, f as u16, c, result);
        }
        self.set_flag(Flag::C, result > 0xFF).set_flag(Flag::Z, result & 0xFF == 0).set_flag(
            Flag::N,
            result & 0x80 != 0,
        );
        let v = ((!(self.a as u16 ^ self.fetched as u16) & ((self.a as u16) ^ result)) & 0x80) > 0;
        self.set_flag(Flag::V, v);
        self.a = (result & 0xFF) as u8;
        1
    }

    pub fn and(&mut self, bus: &mut Bus) -> (r: u8)
        ensures
            (*final(self), final(bus)@, r) == op_and(*old(self), old(bus)@),
    {
        self.a = self.a & self.fetch(bus);
        self.set_n_z_flags(self.a);
        1
    }

    pub fn asl(&mut self, bus: &mut Bus) -> (r: u8)
        ensures
            (*final(self), final(bus)@, r) == op_asl(*old(self), old(bus)@),
    {
        let value = self.fetch(bus);
        let new_value = value << 1;
        proof {
            lemma_byte_bits(value);
            lemma_shl_bits(value, new_value);
        }
        self.set_flag(Flag::C, value & 0x80 > 0);
        if lookup(self.opcode).addr_mode == AddrMode::Imp {
            self.a = new_value;
        } else {
            bus.write(self.addr_abs, new_value);
        }
        self.set_n_z_flags(new_value);
        0
    }

    fn branch(&mut self, cond: bool)
        requires
            branch_fits(*old(self), cond),
        ensures
            *final(self) == branch_spec(*old(self), cond),
    {
        if cond {
            let ghost c0 = *self;
            self.cycles = self.cycles + 1;
            self.addr_abs = self.pc.wrapping_add(self.addr_rel);
            let (t, pc) = (self.addr_abs, self.pc);
            proof {
                lemma_page_bits(t, pc);
            }
            if self.addr_abs & 0xff00 != (self.pc & 0xff00) {
                self.cycles = self.cycles + 1;
            }
            self.pc = self.addr_abs;
        }
    }

    pub fn bcc(&mut self, bus: &mut Bus) -> (r: u8)
        requires
            op_allowed(Op::Bcc, *old(self), old(bus)@),
        ensures
            (*final(self), final(bus)@, r) == op_branch(*old(self), old(bus)@, Op::Bcc),
    {
        self.branch(!self.get_flag(Flag::C));
        0
    }

    pub fn bcs(&mut self, bus: &mut Bus) -> (r: u8)
        requires
            op_allowed(Op::Bcs, *old(self), old(bus)@),
        ensures
            (*final(self), final(bus)@, r) == op_branch(*old(self), old(bus)@, Op::Bcs),
    {
        self.branch(self.get_flag(Flag::C));
        0
    }

    pub fn beq(&mut self, bus: &mut Bus) -> (r: u8)
        requires
            op_allowed(Op::Beq, *old(self), old(bus)@),
        ensures
            (*final(self), final(bus)@, r) == op_branch(*old(self), old(bus)@, Op::Beq),
    {
        self.branch(self.get_flag(Flag::Z));
        0
    }

    pub fn bit(&mut self, bus: &mut Bus) -> (r: u8)
        ensures
            (*final(self), final(bus)@, r) == op_bit(*old(self), old(bus)@),
    {
        let value = self.fetch(bus);
        proof {
            lemma_byte_bits(value);
        }
        self.set_flag(Flag::Z, self.a & value == 0);
        self.set_flag(Flag::N, value & 0x80 > 0);
        self.set_flag(Flag::V, value & 0x40 > 0);
        0
    }

    pub fn bmi(&mut self, bus: &mut Bus) -> (r: u8)
        requires
            op_allowed(Op::Bmi, *old(self), old(bus)@),
        ensures
            (*final(self), final(bus)@, r) == op_branch(*old(self), old(bus)@, Op::Bmi),
    {
        self.branch(self.get_flag(Flag::N));
        0
    }

    pub fn bne(&mut self, bus: &mut Bus) -> (r: u8)
        requires
            op_allowed(Op::Bne, *old(self), old(bus)@),
        ensures
            (*final(self), final(bus)@, r) == op_branch(*old(self), old(bus)@, Op::Bne),
    {
        self.branch(!self.get_flag(Flag::Z));
        0
    }

    pub fn bpl(&mut self, bus: &mut Bus) -> (r: u8)
        requires
            op_allowed(Op::Bpl, *old(self), old(bus)@),
        ensures
            (*final(self), final(bus)@, r) == op_branch(*old(self), old(bus)@, Op::Bpl),
    {
        self.branch(!self.get_flag(Flag::N));
        0
    }

    pub fn brk(&mut self, bus: &mut Bus) -> (r: u8)
        ensures
            (*final(self), final(bus)@, r) == op_brk(*old(self), old(bus)@),
    {
        self.pc = self.pc.wrapping_add(1);
        let pc = self.pc;
        assert((pc >> 8) as u8 == pc / 256 && pc as u8 == pc % 256) by {
            lemma_word_bits(pc);
        }
        self.stack.push((self.pc >> 8) as u8, bus);
        self.stack.push(self.pc as u8, bus);
        self.set_flag(Flag::B, true).set_flag(Flag::U, true);
        self.stack.push(self.status, bus);
        self.set_flag(Flag::I, true);
        self.pc = bus.read_u16(IRQ_VECTOR);
        0
    }

    pub fn bvc(&mut self, bus: &mut Bus) -> (r: u8)
        requires
            op_allowed(Op::Bvc, *old(self), old(bus)@),
        ensures
            (*final(self), final(bus)@, r) == op_branch(*old(self), old(bus)@, Op::Bvc),
    {
        self.branch(!self.get_flag(Flag::V));
        0
    }

    pub fn bvs(&mut self, bus: &mut Bus) -> (r: u8)
        requires
            op_allowed(Op::Bvs, *old(self), old(bus)@),
        ensures
            (*final(self), final(bus)@, r) == op_branch(*old(self), old(bus)@, Op::Bvs),
    {
        self.branch(self.get_flag(Flag::V));
        0
    }

    pub fn clc(&mut self, bus: &mut Bus) -> (r: u8)
        ensures
            (*final(self), final(bus)@, r) == op_flag(*old(self), old(bus)@, Flag::C, false),
    {
        self.set_flag(Flag::C, false);
        0
    }

    pub fn cld(&mut self, bus: &mut Bus) -> (r: u8)
        ensures
            (*final(self), final(bus)@, r) == op_flag(*old(self), old(bus)@, Flag::D, false),
    {
        self.set_flag(Flag::D, false);
        0
    }

    pub fn cli(&mut self, bus: &mut Bus) -> (r: u8)
        ensures
            (*final(self), final(bus)@, r) == op_flag(*old(self), old(bus)@, Flag::I, false),
    {
        self.set_flag(Flag::I, false);
        0
    }

    pub fn clv(&mut self, bus: &mut Bus) -> (r: u8)
        ensures
            (*final(self), final(bus)@, r) == op_flag(*old(self), old(bus)@, Flag::V, false),
    {
        self.set_flag(Flag::V, false);
        0
    }

    /// Compares `reg` with the operand, setting C, Z and N.
    fn compare(&mut self, reg: u8, bus: &mut Bus)
        ensures
            *final(self) == (Cpu {
                fetched: operand(*old(self), old(bus)@),
                status: compare_status(old(self).status, reg, operand(*old(self), old(bus)@)),
                ..*old(self)
            }),
            final(bus)@ == old(bus)@,
    {
        let tmp = (reg as u16).wrapping_sub(self.fetch(bus) as u16);
        proof {
            lemma_compare_bits(reg, self.fetched, tmp);
        }
        self.set_flag(Flag::C, reg >= self.fetched).set_flag(Flag::Z, tmp & 0x00ff == 0).set_flag(
            Flag::N,
            tmp & 0x0080 != 0,
        );
    }

    pub fn cmp(&mut self, bus: &mut Bus) -> (r: u8)
        ensures
            (*final(self), final(bus)@, r) == op_cmp(*old(self), old(bus)@),
    {
        self.compare(self.a, bus);
        1
    }

    pub fn cpx(&mut self, bus: &mut Bus) -> (r: u8)
        ensures
            (*final(self), final(bus)@, r) == op_cpx(*old(self), old(bus)@),
    {
        self.compare(self.x, bus);
        0
    }

    pub fn cpy(&mut self, bus: &mut Bus) -> (r: u8)
        ensures
            (*final(self), final(bus)@, r) == op_cpy(*old(self), old(bus)@),
    {
        self.compare(self.y, bus);
        0
    }

    pub fn dec(&mut self, bus: &mut Bus) -> (r: u8)
        ensures
            (*final(self), final(bus)@, r) == op_dec(*old(self), old(bus)@),
    {
        let value = bus.read(self.addr_abs).wrapping_sub(1);
        bus.write(self.addr_abs, value);
        self.set_n_z_flags(value);
        0
    }

    pub fn dex(&mut self, bus: &mut Bus) -> (r: u8)
        ensures
            (*final(self), final(bus)@, r) == op_dex(*old(self), old(bus)@),
    {
        self.x = self.x.wrapping_sub(1);
        self.set_n_z_flags(self.x);
        0
    }

    pub fn dey(&mut self, bus: &mut Bus) -> (r: u8)
        ensures
            (*final(self), final(bus)@, r) == op_dey(*old(self), old(bus)@),
    {
        self.y = self.y.wrapping_sub(1);
        self.set_n_z_flags(self.y);
        0
    }

    pub fn eor(&mut self, bus: &mut Bus) -> (r: u8)
        ensures
            (*final(self), final(bus)@, r) == op_eor(*old(self), old(bus)@),
    {
        self.a = self.a ^ self.fetch(bus);
        self.set_n_z_flags(self.a);
        1
    }

    pub fn inc(&mut self, bus: &mut Bus) -> (r: u8)
        ensures
            (*final(self), final(bus)@, r) == op_inc(*old(self), old(bus)@),
    {
        let value = bus.read(self.addr_abs).wrapping_add(1);
        bus.write(self.addr_abs, value);
        self.set_n_z_flags(value);
        0
    }

    pub fn inx(&mut self, bus: &mut Bus) -> (r: u8)
        ensures
            (*final(self), final(bus)@, r) == op_inx(*old(self), old(bus)@),
    {
        self.x = self.x.wrapping_add(1);
        self.set_n_z_flags(self.x);
        0
    }

    pub fn iny(&mut self, bus: &mut Bus) -> (r: u8)
        ensures
            (*final(self), final(bus)@, r) == op_iny(*old(self), old(bus)@),
    {
        self.y = self.y.wrapping_add(1);
        self.set_n_z_flags(self.y);
        0
    }

    pub fn jmp(&mut self, bus: &mut Bus) -> (r: u8)
        ensures
            (*final(self), final(bus)@, r) == op_jmp(*old(self), old(bus)@),
    {
        self.pc = self.addr_abs;
        0
    }

    pub fn jsr(&mut self, bus: &mut Bus) -> (r: u8)
        ensures
            (*final(self), final(bus)@, r) == op_jsr(*old(self), old(bus)@),
    {
        let pc = self.pc.wrapping_sub(1);
        proof {
            lemma_word_bits(pc);
        }
        self.stack.push((pc >> 8) as u8, bus);
        self.stack.push(pc as u8, bus);
        self.pc = self.addr_abs;
        0
    }

    pub fn lda(&mut self, bus: &mut Bus) -> (r: u8)
        ensures
            (*final(self), final(bus)@, r) == op_lda(*old(self), old(bus)@),
    {
        self.a = self.fetch(bus);
        proof {
            lemma_byte_bits(self.a);
        }
        self.set_flag(Flag::Z, if self.a == 0 { true } else { false });
        self.set_flag(Flag::N, if (self.a as i8) < 0 { true } else { false });
        1
    }

    pub fn ldx(&mut self, bus: &mut Bus) -> (r: u8)
        ensures
            (*final(self), final(bus)@, r) == op_ldx(*old(self), old(bus)@),
    {
        self.x = self.fetch(bus);
        proof {
            lemma_byte_bits(self.x);
        }
        self.set_flag(Flag::Z, if self.x == 0 { true } else { false });
        self.set_flag(Flag::N, if (self.x as i8) < 0 { true } else { false });
        1
    }

    pub fn ldy(&mut self, bus: &mut Bus) -> (r: u8)
        ensures
            (*final(self), final(bus)@, r) == op_ldy(*old(self), old(bus)@),
    {
        self.y = self.fetch(bus);
        proof {
            lemma_byte_bits(self.y);
        }
        self.set_flag(Flag::Z, if self.y == 0 { true } else { false });
        self.set_flag(Flag::N, if (self.y as i8) < 0 { true } else { false });
        1
    }

    pub fn lsr(&mut self, bus: &mut Bus) -> (r: u8)
        ensures
            (*final(self), final(bus)@, r) == op_lsr(*old(self), old(bus)@),
    {
        let value = self.fetch(bus);
        let new_value = value >> 1;
        proof {
            lemma_byte_bits(value);
            lemma_shr_bits(value, new_value);
        }
        self.set_flag(Flag::C, value & 0x01 > 0);
        if lookup(self.opcode).addr_mode == AddrMode::Imp {
            self.a = new_value;
        } else {
            bus.write(self.addr_abs, new_value);
        }
        self.set_n_z_flags(new_value);
        0
    }

    pub fn ora(&mut self, bus: &mut Bus) -> (r: u8)
        ensures
            (*final(self), final(bus)@, r) == op_ora(*old(self), old(bus)@),
    {
        self.a = self.a | self.fetch(bus);
        self.set_n_z_flags(self.a);
        1
    }

    pub fn pha(&mut self, bus: &mut Bus) -> (r: u8)
        ensures
            (*final(self), final(bus)@, r) == op_pha(*old(self), old(bus)@),
    {
        self.stack.push(self.a, bus);
        0
    }

    pub fn php(&mut self, bus: &mut Bus) -> (r: u8)
        ensures
            (*final(self), final(bus)@, r) == op_php(*old(self), old(bus)@),
    {
        self.stack.push(self.status | Flag::B.mask() | Flag::U.mask(), bus);
        0
    }

    pub fn pla(&mut self, bus: &mut Bus) -> (r: u8)
        ensures
            (*final(self), final(bus)@, r) == op_pla(*old(self), old(bus)@),
    {
        self.a = self.stack.pop(bus);
        proof {
            lemma_byte_bits(self.a);
        }
        self.set_flag(Flag::Z, if self.a == 0 { true } else { false });
        self.set_flag(Flag::N, if (self.a as i8) < 0 { true } else { false });
        0
    }

    pub fn plp(&mut self, bus: &mut Bus) -> (r: u8)
        ensures
            (*final(self), final(bus)@, r) == op_plp(*old(self), old(bus)@),
    {
        self.status = self.stack.pop(bus);
        self.set_flag(Flag::U, true);
        self.set_flag(Flag::B, false);
        0
    }

    pub fn rol(&mut self, bus: &mut Bus) -> (r: u8)
        ensures
            (*final(self), final(bus)@, r) == op_rol(*old(self), old(bus)@),
    {
        let value = self.fetch(bus);
        let c: u8 = if self.get_flag(Flag::C) { 1 } else { 0 };
        let new_value = (value << 1) | c;
        proof {
            lemma_rol_bits(value, c, new_value);
            lemma_byte_bits(value);
        }
        self.set_flag(Flag::C, value & 0x80 > 0);
        if lookup(self.opcode).addr_mode == AddrMode::Imp {
            self.a = new_value;
        } else {
            bus.write(self.addr_abs, new_value);
        }
        self.set_n_z_flags(new_value);
        0
    }

    pub fn ror(&mut self, bus: &mut Bus) -> (r: u8)
        ensures
            (*final(self), final(bus)@, r) == op_ror(*old(self), old(bus)@),
    {
        let value = self.fetch(bus);
        let c: u8 = if self.get_flag(Flag::C) { 1 } else { 0 };
        let new_value = (value >> 1) | (c << 7);
        proof {
            lemma_ror_bits(value, c, new_value);
            lemma_byte_bits(value);
        }
        self.set_flag(Flag::C, value & 0x01 > 0);
        if lookup(self.opcode).addr_mode == AddrMode::Imp {
            self.a = new_value;
        } else {
            bus.write(self.addr_abs, new_value);
        }
        self.set_n_z_flags(new_value);
        0
    }

    pub fn rti(&mut self, bus: &mut Bus) -> (r: u8)
        ensures
            (*final(self), final(bus)@, r) == op_rti(*old(self), old(bus)@),
    {
        self.status = self.stack.pop(bus);
        self.set_flag(Flag::B, false);
        self.set_flag(Flag::U, true);
        let lo = self.stack.pop(bus) as u16;
        let high_byte = self.stack.pop(bus) as u16;
        let hi = high_byte << 8;
        proof {
            lemma_join_bytes(lo, high_byte);
            assert(hi | lo == word(lo as u8, high_byte as u8));
        }
        self.pc = hi | lo;
        0
    }

    pub fn rts(&mut self, bus: &mut Bus) -> (r: u8)
        requires
            op_allowed(Op::Rts, *old(self), old(bus)@),
        ensures
            (*final(self), final(bus)@, r) == op_rts(*old(self), old(bus)@),
    {
        let lo = self.stack.pop(bus);
        let hi = self.stack.pop(bus);
        proof {
            lemma_join_bytes(lo as u16, hi as u16);
            assert((hi as u16) << 8 | lo as u16 == word(lo, hi));
        }
        self.pc = ((hi as u16) << 8 | lo as u16) + 1;
        0
    }

    pub fn sbc(&mut self, bus: &mut Bus) -> (r: u8)
        ensures
            (*final(self), final(bus)@, r) == op_sbc(*old(self), old(bus)@),
    {
        let c: u16 = if self.get_flag(Flag::C) { 1 } else { 0 };
        let result = (self.a as u16) + (self.fetch(bus) ^ 0xff) as u16 + c;
        let a = self.a;
        let f = self.fetched;
        proof {
            lemma_byte_bits(f);
            lemma_add_bits(a as u16, (f ^ 0xff) as u16, c, result);
        }
        self.set_flag(Flag::C, result > 0xFF).set_flag(Flag::Z, result & 0xFF == 0).set_flag(
            Flag::N,
            result & 0x80 != 0,
        );
        let v = ((!(self.a as u16 ^ (self.fetched ^ 0xff) as u16) & ((self.a as u16) ^ result))
            & 0x80) > 0;
        self.set_flag(Flag::V, v);
        self.a = (result & 0xff) as u8;
        1
    }

    pub fn sec(&mut self, bus: &mut Bus) -> (r: u8)
        ensures
            (*final(self), final(bus)@, r) == op_flag(*old(self), old(bus)@, Flag::C, true),
    {
        self.set_flag(Flag::C, true);
        0
    }

    pub fn sed(&mut self, bus: &mut Bus) -> (r: u8)
        ensures
            (*final(self), final(bus)@, r) == op_flag(*old(self), old(bus)@, Flag::D, true),
    {
        self.set_flag(Flag::D, true);
        0
    }

    pub fn sei(&mut self, bus: &mut Bus) -> (r: u8)
        ensures
            (*final(self), final(bus)@, r) == op_flag(*old(self), old(bus)@, Flag::I, true),
    {
        self.set_flag(Flag::I, true);
        0
    }

    pub fn sta(&mut self, bus: &mut Bus) -> (r: u8)
        ensures
            (*final(self), final(bus)@, r) == op_sta(*old(self), old(bus)@),
    {
        bus.write(self.addr_abs, self.a);
        0
    }

    pub fn stx(&mut self, bus: &mut Bus) -> (r: u8)
        ensures
            (*final(self), final(bus)@, r) == op_stx(*old(self), old(bus)@),
    {
        bus.write(self.addr_abs, self.x);
        0
    }

    pub fn sty(&mut self, bus: &mut Bus) -> (r: u8)
        ensures
            (*final(self), final(bus)@, r) == op_sty(*old(self), old(bus)@),
    {
        bus.write(self.addr_abs, self.y);
        0
    }

    pub fn tax(&mut self, bus: &mut Bus) -> (r: u8)
        ensures
            (*final(self), final(bus)@, r) == op_tax(*old(self), old(bus)@),
    {
        self.x = self.a;
        proof {
            lemma_byte_bits(self.x);
        }
        self.set_flag(Flag::Z, if self.x == 0 { true } else { false });
        self.set_flag(Flag::N, if (self.x as i8) < 0 { true } else { false });
        0
    }

    pub fn tay(&mut self, bus: &mut Bus) -> (r: u8)
        ensures
            (*final(self), final(bus)@, r) == op_tay(*old(self), old(bus)@),
    {
        self.y = self.a;
        proof {
            lemma_byte_bits(self.y);
        }
        self.set_flag(Flag::Z, if self.y == 0 { true } else { false });
        self.set_flag(Flag::N, if (self.y as i8) < 0 { true } else { false });
        0
    }

    pub fn tsx(&mut self, bus: &mut Bus) -> (r: u8)
        ensures
            (*final(self), final(bus)@, r) == op_tsx(*old(self), old(bus)@),
    {
        self.x = self.stack.ptr;
        proof {
            lemma_byte_bits(self.x);
        }
        self.set_flag(Flag::Z, if self.x == 0 { true } else { false });
        self.set_flag(Flag::N, if (self.x as i8) < 0 { true } else { false });
        0
    }

    pub fn txa(&mut self, bus: &mut Bus) -> (r: u8)
        ensures
            (*final(self), final(bus)@, r) == op_txa(*old(self), old(bus)@),
    {
        self.a = self.x;
        proof {
            lemma_byte_bits(self.a);
        }
        self.set_flag(Flag::Z, if self.a == 0 { true } else { false });
        self.set_flag(Flag::N, if (self.a as i8) < 0 { true } else { false });
        0
    }

    pub fn txs(&mut self, bus: &mut Bus) -> (r: u8)
        ensures
            (*final(self), final(bus)@, r) == op_txs(*old(self), old(bus)@),
    {
        self.stack.ptr = self.x;
        0
    }

    pub fn tya(&mut self, bus: &mut Bus) -> (r: u8)
        ensures
            (*final(self), final(bus)@, r) == op_tya(*old(self), old(bus)@),
    {
        self.a = self.y;
        proof {
            lemma_byte_bits(self.a);
        }
        self.set_flag(Flag::Z, if self.a == 0 { true } else { false });
        self.set_flag(Flag::N, if (self.a as i8) < 0 { true } else { false });
        0
    }
}

proof fn lemma_compare_bits(reg: u8, v: u8, tmp: u16)
    by (bit_vector)
    requires
        reg >= v ==> tmp == reg as u16 - v as u16,
        reg < v ==> tmp as u32 == reg as u32 + 65536 - v as u32,
    ensures
        (tmp & 0x00ff == 0) == (reg == v),
        (tmp & 0x0080 != 0) == ((reg as u16 + 256 - v as u16) % 256 >= 0x80),
{
}

/// Bit facts behind ADC (and SBC, which adds the inverted operand): the low
/// byte of the sum, its sign bit, and the overflow formula, which holds exactly
/// when two operands of equal sign give a result of the other sign.
proof fn lemma_add_bits(a: u16, v: u16, c: u16, result: u16)
    by (bit_vector)
    requires
        a < 256,
        v < 256,
        c <= 1,
        result == a + v + c,
    ensures
        result & 0xFF == result % 256,
        (result & 0x80 != 0) == (result % 256 >= 0x80),
        (((!(a ^ v) & (a ^ result)) & 0x80) > 0) == ((a < 128 && v < 128 && result >= 128) || (
        a >= 128 && v >= 128 && result < 384)),
{
}


/// An operation asks for at most one extra cycle, and only a branch changes
/// the cycle counter, by at most two.
pub proof fn lemma_op_cycles(op: Op, c: Cpu, m: BusView)
    requires
        c.cycles <= 253,
    ensures
        op_spec(op, c, m).2 <= 1,
        op_spec(op, c, m).0.cycles == c.cycles || (c.cycles as int + 1 <= op_spec(
            op,
            c,
            m,
        ).0.cycles <= c.cycles as int + 2),
{
}

} // verus!
