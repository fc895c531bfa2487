use vstd::prelude::*;

use crate::bus::{next_addr, Bus, BusView};
use crate::flags::{flag, with_flag, with_nz};
pub use crate::flags::Flag;
pub use crate::instruction::{AddrMode, Instruction};

use crate::addressing::mode_spec;
use crate::bits::{lemma_byte_bits, lemma_word_bits};
use crate::instruction::{
    instruction_spec, lemma_instruction_cycles, lemma_rts_is_implied, lookup, Op,
};
use crate::opcodes::{lemma_op_cycles, op_allowed, op_spec, rts_pulled};

verus! {

/// Address of the 16-bit NMI handler pointer.
pub const NMI_VECTOR: u16 = 0xFFFA;

/// Address of the 16-bit reset handler pointer.
pub const RESET_VECTOR: u16 = 0xFFFC;

/// Address of the 16-bit IRQ/BRK handler pointer.
pub const IRQ_VECTOR: u16 = 0xFFFE;

/// The stack lives in page one.
pub const STACK_BASE: u16 = 0x0100;

/// The hardware stack pointer: an offset into page one that grows downward.
#[derive(Debug, Clone, Copy)]
pub struct Stack {
    pub ptr: u8,
}

/// The bus address of a stack slot.
pub open spec fn stack_addr(ptr: u8) -> u16 {
    (0x0100 + ptr as int) as u16
}

/// Byte increment, wrapping 0xFF to 0x00.
pub open spec fn inc8(v: u8) -> u8 {
    ((v as int + 1) % 256) as u8
}

/// Byte decrement, wrapping 0x00 to 0xFF.
pub open spec fn dec8(v: u8) -> u8 {
    ((v as int + 255) % 256) as u8
}

/// A 16-bit address moved by `d`, wrapping around the address space.
pub open spec fn add16(v: u16, d: int) -> u16 {
    ((v as int + d) % 0x10000) as u16
}

impl Default for Stack {
    fn default() -> (s: Self)
        ensures
            s.ptr == 0xFD,
    {
        Self { ptr: 0xfd }
    }
}

impl Stack {
    pub(crate) fn reset(&mut self)
        ensures
            final(self).ptr == 0xFD,
    {
        self.ptr = 0xfd;
    }

    /// Writes `data` at the current slot, then moves the pointer down.
    pub fn push(&mut self, data: u8, bus: &mut Bus)
        ensures
            final(bus)@ == old(bus)@.write(stack_addr(old(self).ptr), data),
            final(self).ptr == dec8(old(self).ptr),
    {
        bus.write(STACK_BASE + self.ptr as u16, data);
        self.ptr = self.ptr.wrapping_sub(1);
    }

    /// Moves the pointer up, then reads the slot it points at.
    pub fn pop(&mut self, bus: &mut Bus) -> (data: u8)
        ensures
            final(self).ptr == inc8(old(self).ptr),
            data == old(bus)@.read(stack_addr(final(self).ptr)),
            final(bus)@ == old(bus)@,
    {
        self.ptr = self.ptr.wrapping_add(1);
        bus.read(STACK_BASE + self.ptr as u16)
    }
}

/// The MOS 6502 CPU: registers, status flags and the working state of the
/// instruction in flight.
pub struct Cpu {
    pub a: u8,
    pub x: u8,
    pub y: u8,
    pub pc: u16,
    pub status: u8,
    pub stack: Stack,
    /// Operand byte of the current instruction.
    pub fetched: u8,
    /// Effective address resolved by the addressing mode.
    pub addr_abs: u16,
    /// Sign-extended branch offset resolved by relative addressing.
    pub addr_rel: u16,
    /// Opcode of the current instruction.
    pub opcode: u8,
    /// Clock ticks left before the next instruction starts.
    pub cycles: u8,
}

/// Whether the instruction with this opcode uses implied addressing
/// (its operand is the accumulator rather than memory).
pub open spec fn uses_implied(opcode: u8) -> bool {
    instruction_spec(opcode).addr_mode == AddrMode::Imp
}

/// The operand an instruction works on: the accumulator captured by implied
/// addressing, or the byte at the effective address.
pub open spec fn operand(c: Cpu, m: BusView) -> u8 {
    if uses_implied(c.opcode) {
        c.fetched
    } else {
        m.read(c.addr_abs)
    }
}

/// The stack after pushing a byte: the byte is written to the current slot
/// and the pointer moves down.
pub open spec fn push_spec(c: Cpu, m: BusView, data: u8) -> (Cpu, BusView) {
    (
        Cpu { stack: Stack { ptr: dec8(c.stack.ptr) }, ..c },
        m.write(stack_addr(c.stack.ptr), data),
    )
}

/// The stack after popping: the pointer moves up and the slot it reaches is read.
pub open spec fn pop_spec(c: Cpu, m: BusView) -> (Cpu, u8) {
    (Cpu { stack: Stack { ptr: inc8(c.stack.ptr) }, ..c }, m.read(stack_addr(inc8(c.stack.ptr))))
}

/// High byte of a 16-bit value.
pub open spec fn hi_byte(v: u16) -> u8 {
    (v as int / 256) as u8
}

/// Low byte of a 16-bit value.
pub open spec fn lo_byte(v: u16) -> u8 {
    (v as int % 256) as u8
}

/// An interrupt: push the program counter (high byte first) and the status
/// with B clear and U and I set, then jump through `vector`.
pub open spec fn interrupt_spec(c: Cpu, m: BusView, vector: u16, cycles: u8) -> (Cpu, BusView) {
    let (c1, m1) = push_spec(c, m, hi_byte(c.pc));
    let (c2, m2) = push_spec(c1, m1, lo_byte(c.pc));
    let status = with_flag(with_flag(with_flag(c.status, Flag::B, false), Flag::U, true), Flag::I, true);
    let (c3, m3) = push_spec(Cpu { status, ..c2 }, m2, status);
    (Cpu { pc: m3.read_u16(vector), cycles, ..c3 }, m3)
}

/// The state `reset` leaves the CPU in.
pub open spec fn reset_spec(c: Cpu, m: BusView) -> Cpu {
    Cpu {
        pc: m.read_u16(0xFFFC),
        a: 0,
        x: 0,
        y: 0,
        stack: Stack { ptr: 0xFD },
        status: 0x20,
        addr_abs: 0,
        addr_rel: 0,
        fetched: 0,
        cycles: 8,
        ..c
    }
}

/// The CPU after fetching and decoding the instruction at the program counter
/// and running its addressing mode, with the addressing mode's extra cycle.
pub open spec fn decode_spec(c: Cpu, m: BusView) -> (Cpu, u8) {
    let c1 = Cpu { status: with_flag(c.status, Flag::U, true), ..c };
    let opcode = m.read(c1.pc);
    let ins = instruction_spec(opcode);
    mode_spec(
        ins.addr_mode,
        Cpu { opcode, pc: next_addr(c1.pc), cycles: ins.cycles, ..c1 },
        m,
    )
}

/// One clock tick. With cycles left, the tick only counts down. Otherwise the
/// next instruction runs in full: its base cycles, plus one when both the
/// addressing mode and the operation ask for it (and whatever a branch adds),
/// less the tick itself; U is set before and after.
pub open spec fn clock_spec(c: Cpu, m: BusView) -> (Cpu, BusView) {
    if c.cycles == 0 {
        let (c3, e1) = decode_spec(c, m);
        let (c4, m4, e2) = op_spec(instruction_spec(c3.opcode).operate, c3, m);
        let extra: int = if e1 == 1 && e2 == 1 {
            1
        } else {
            0
        };
        (
            Cpu {
                cycles: (c4.cycles + extra - 1) as u8,
                status: with_flag(c4.status, Flag::U, true),
                ..c4
            },
            m4,
        )
    } else {
        (Cpu { cycles: (c.cycles - 1) as u8, ..c }, m)
    }
}

/// The states on which a clock tick can run: an instruction about to execute
/// must be allowed (in practice, RTS must not pull 0xFFFF).
pub open spec fn clock_allowed(c: Cpu, m: BusView) -> bool {
    c.cycles == 0 ==> {
        let (c3, e1) = decode_spec(c, m);
        op_allowed(instruction_spec(c3.opcode).operate, c3, m)
    }
}

impl Cpu {
    /// A powered-on CPU: every register zero (the stack pointer too; `reset`
    /// sets it to 0xFD) except the status, which holds only U.
    pub fn new() -> (cpu: Self)
        ensures
            cpu.a == 0 && cpu.x == 0 && cpu.y == 0 && cpu.pc == 0,
            cpu.status == Flag::U.spec_mask(),
            cpu.stack.ptr == 0,
            cpu.fetched == 0 && cpu.addr_abs == 0 && cpu.addr_rel == 0,
            cpu.opcode == 0 && cpu.cycles == 0,
    {
        Self {
            a: 0,
            x: 0,
            y: 0,
            status: Flag::U.mask(),
            fetched: 0,
            addr_abs: 0,
            addr_rel: 0,
            opcode: 0,
            cycles: 0,
            pc: 0,
            stack: Stack { ptr: 0 },
        }
    }

    /// Whether flag `f` is set.
    pub fn get_flag(&self, f: Flag) -> (v: bool)
        ensures
            v == flag(self.status, f),
    {
        self.status & f.mask() != 0
    }

    /// Sets flag `f` to `v`, leaving the other status bits alone.
    pub fn set_flag(&mut self, f: Flag, v: bool) -> (r: &mut Self)
        ensures
            *r == (Cpu { status: with_flag(old(self).status, f, v), ..*old(self) }),
            *final(self) == *final(r),
    {
        let mask = f.mask();
        if v {
            self.status = self.status | mask;
        } else {
            self.status = self.status & !mask;
        }
        self
    }

    /// Reads the byte at the program counter and moves past it.
    pub fn pc_read(&mut self, bus: &Bus) -> (v: u8)
        ensures
            v == bus@.read(old(self).pc),
            *final(self) == (Cpu { pc: next_addr(old(self).pc), ..*old(self) }),
    {
        let value = bus.read(self.pc);
        self.pc = self.pc.wrapping_add(1);
        value
    }

    /// Moves the program counter forward one byte, returning where it was.
    pub fn pc_advance(&mut self) -> (prev: u16)
        ensures
            prev == old(self).pc,
            *final(self) == (Cpu { pc: next_addr(old(self).pc), ..*old(self) }),
    {
        let prev = self.pc;
        self.pc = self.pc.wrapping_add(1);
        prev
    }

    /// Sets Z and N from a result byte.
    pub fn set_n_z_flags(&mut self, last_result: u8)
        ensures
            *final(self) == (Cpu { status: with_nz(old(self).status, last_result), ..*old(self) }),
    {
        proof {
            lemma_byte_bits(last_result);
        }
        self.set_flag(Flag::Z, if last_result == 0 { true } else { false });
        self.set_flag(Flag::N, if (last_result as i8) < 0 { true } else { false });
    }

    /// The operand of the current instruction: under implied addressing the
    /// accumulator that `imp` captured, otherwise the byte at the effective address.
    pub fn fetch(&mut self, bus: &mut Bus) -> (v: u8)
        ensures
            v == operand(*old(self), old(bus)@),
            *final(self) == (Cpu { fetched: v, ..*old(self) }),
            final(bus)@ == old(bus)@,
    {
        if lookup(self.opcode).addr_mode != AddrMode::Imp {
            self.fetched = bus.read(self.addr_abs);
        }
        self.fetched
    }

    /// Loads the reset vector into the program counter and clears the registers;
    /// the reset takes eight cycles.
    pub fn reset(&mut self, bus: &mut Bus)
        ensures
            *final(self) == reset_spec(*old(self), old(bus)@),
            final(bus)@ == old(bus)@,
    {
        self.pc = bus.read_u16(RESET_VECTOR);
        self.a = 0;
        self.x = 0;
        self.y = 0;
        self.stack.reset();
        self.status = Flag::U.mask();
        self.addr_abs = 0;
        self.addr_rel = 0;
        self.fetched = 0;
        self.cycles = 8;
    }

    /// Maskable interrupt: ignored while I is set; otherwise saves the program
    /// counter and status and jumps through the IRQ vector in seven cycles.
    pub fn irq(&mut self, bus: &mut Bus)
        ensures
            flag(old(self).status, Flag::I) ==> *final(self) == *old(self) && final(bus)@ == old(bus)@,
            !flag(old(self).status, Flag::I) ==> (*final(self), final(bus)@) == interrupt_spec(
                *old(self),
                old(bus)@,
                0xFFFE,
                7,
            ),
    {
        if self.get_flag(Flag::I) {
            return;
        }
        self.interrupt(bus, IRQ_VECTOR, 7);
    }

    /// Non-maskable interrupt: always saves the program counter and status and
    /// jumps through the NMI vector in eight cycles.
    pub fn nmi(&mut self, bus: &mut Bus)
        ensures
            (*final(self), final(bus)@) == interrupt_spec(*old(self), old(bus)@, 0xFFFA, 8),
    {
        self.interrupt(bus, NMI_VECTOR, 8);
    }

    fn interrupt(&mut self, bus: &mut Bus, vector: u16, cycles: u8)
        ensures
            (*final(self), final(bus)@) == interrupt_spec(*old(self), old(bus)@, vector, cycles),
    {
        proof {
            let pc = self.pc;
            lemma_word_bits(pc);
        }
        self.stack.push((self.pc >> 8) as u8, bus);
        self.stack.push((self.pc & 0xFF) as u8, bus);
        self.set_flag(Flag::B, false).set_flag(Flag::U, true).set_flag(Flag::I, true);
        self.stack.push(self.status, bus);
        self.pc = bus.read_u16(vector);
        self.cycles = cycles;
    }

    /// Runs an addressing mode.
    fn run_addr_mode(&mut self, mode: AddrMode, bus: &mut Bus) -> (extra: u8)
        ensures
            (*final(self), extra) == mode_spec(mode, *old(self), old(bus)@),
            final(bus)@ == old(bus)@,
    {
        match mode {
            AddrMode::Imp => self.imp(bus),
            AddrMode::Imm => self.imm(bus),
            AddrMode::Zp0 => self.zp0(bus),
            AddrMode::Zpx => self.zpx(bus),
            AddrMode::Zpy => self.zpy(bus),
            AddrMode::Rel => self.rel(bus),
            AddrMode::Abs => self.abs(bus),
            AddrMode::Abx => self.abx(bus),
            AddrMode::Aby => self.aby(bus),
            AddrMode::Ind => self.ind(bus),
            AddrMode::Izx => self.izx(bus),
            AddrMode::Izy => self.izy(bus),
        }
    }

    /// Runs an operation.
    fn run_operation(&mut self, op: Op, bus: &mut Bus) -> (extra: u8)
        requires
            op_allowed(op, *old(self), old(bus)@),
        ensures
            (*final(self), final(bus)@, extra) == op_spec(op, *old(self), old(bus)@),
    {
        match op {
            Op::Adc => self.adc(bus),
            Op::And => self.and(bus),
            Op::Asl => self.asl(bus),
            Op::Bcc => self.bcc(bus),
            Op::Bcs => self.bcs(bus),
            Op::Beq => self.beq(bus),
            Op::Bit => self.bit(bus),
            Op::Bmi => self.bmi(bus),
            Op::Bne => self.bne(bus),
            Op::Bpl => self.bpl(bus),
            Op::Brk => self.brk(bus),
            Op::Bvc => self.bvc(bus),
            Op::Bvs => self.bvs(bus),
            Op::Clc => self.clc(bus),
            Op::Cld => self.cld(bus),
            Op::Cli => self.cli(bus),
            Op::Clv => self.clv(bus),
            Op::Cmp => self.cmp(bus),
            Op::Cpx => self.cpx(bus),
            Op::Cpy => self.cpy(bus),
            Op::Dec => self.dec(bus),
            Op::Dex => self.dex(bus),
            Op::Dey => self.dey(bus),
            Op::Eor => self.eor(bus),
            Op::Inc => self.inc(bus),
            Op::Inx => self.inx(bus),
            Op::Iny => self.iny(bus),
            Op::Jmp => self.jmp(bus),
            Op::Jsr => self.jsr(bus),
            Op::Lda => self.lda(bus),
            Op::Ldx => self.ldx(bus),
            Op::Ldy => self.ldy(bus),
            Op::Lsr => self.lsr(bus),
            Op::Nop => self.nop(bus),
            Op::Ora => self.ora(bus),
            Op::Pha => self.pha(bus),
            Op::Php => self.php(bus),
            Op::Pla => self.pla(bus),
            Op::Plp => self.plp(bus),
            Op::Rol => self.rol(bus),
            Op::Ror => self.ror(bus),
            Op::Rti => self.rti(bus),
            Op::Rts => self.rts(bus),
            Op::Sbc => self.sbc(bus),
            Op::Sec => self.sec(bus),
            Op::Sed => self.sed(bus),
            Op::Sei => self.sei(bus),
            Op::Sta => self.sta(bus),
            Op::Stx => self.stx(bus),
            Op::Sty => self.sty(bus),
            Op::Tax => self.tax(bus),
            Op::Tay => self.tay(bus),
            Op::Tsx => self.tsx(bus),
            Op::Txa => self.txa(bus),
            Op::Txs => self.txs(bus),
            Op::Tya => self.tya(bus),
            Op::Xxx => self.xxx(bus),
        }
    }

    /// Whether `clock` can run on this CPU and bus: false only when the tick
    /// would execute an RTS whose return address on the stack is 0xFFFF.
    pub fn can_clock(&self, bus: &Bus) -> (ok: bool)
        ensures
            ok == clock_allowed(*self, bus@),
    {
        if self.cycles != 0 {
            return true;
        }
        let opcode = bus.read(self.pc);
        proof {
            lemma_instruction_cycles(opcode);
            lemma_rts_is_implied(opcode);
        }
        match lookup(opcode).operate {
            Op::Rts => {
                let lo_ptr = self.stack.ptr.wrapping_add(1);
                let hi_ptr = lo_ptr.wrapping_add(1);
                let lo = bus.read(STACK_BASE + lo_ptr as u16);
                let hi = bus.read(STACK_BASE + hi_ptr as u16);
                !(lo == 0xFF && hi == 0xFF)
            },
            _ => true,
        }
    }

    /// One tick of the CPU clock. When the previous instruction has used up its
    /// cycles, the next one is fetched, decoded and executed in full; every tick
    /// then counts one cycle down.
    #[verifier::rlimit(50)]
    #[verifier::spinoff_prover]
    pub fn clock(&mut self, bus: &mut Bus)
        requires
            clock_allowed(*old(self), old(bus)@),
        ensures
            (*final(self), final(bus)@) == clock_spec(*old(self), old(bus)@),
    {
        if self.cycles == 0 {
            self.set_flag(Flag::U, true);
            self.opcode = self.pc_read(bus);
            let instruction = lookup(self.opcode);
            proof {
                lemma_instruction_cycles(self.opcode);
            }
            self.cycles = instruction.cycles;
            let addr_mode_cycles = self.run_addr_mode(instruction.addr_mode, bus);
            let ghost after_mode = *self;
            let operate_cycles = self.run_operation(instruction.operate, bus);
            proof {
                lemma_op_cycles(instruction.operate, after_mode, bus@);
                lemma_extra_cycle(addr_mode_cycles, operate_cycles);
            }
            self.cycles = self.cycles + (operate_cycles & addr_mode_cycles);
            self.set_flag(Flag::U, true);
        }
        self.cycles = self.cycles - 1;
    }
}

proof fn lemma_extra_cycle(e1: u8, e2: u8)
    by (bit_vector)
    requires
        e1 <= 1,
        e2 <= 1,
    ensures
        e2 & e1 == (if e1 == 1 && e2 == 1 {
            1u8
        } else {
            0u8
        }),
{
}

} // verus!
