use vstd::prelude::*;

use crate::bits::{lemma_byte_bits, lemma_join_bytes, lemma_page_bits, lemma_word_bits};
use crate::bus::{next_addr, word, Bus, BusView};
use crate::cpu::{add16, Cpu};
use crate::instruction::AddrMode;

verus! {

// ---------------------------------------------------------------------------
// What each addressing mode does: the CPU state it leaves and whether it asks
// for an extra cycle (1) because indexing crossed a page boundary.
// ---------------------------------------------------------------------------

/// A signed 8-bit branch offset widened to 16 bits.
pub open spec fn sign_extend(b: u8) -> u16 {
    if b >= 0x80 {
        (b as int + 0xFF00) as u16
    } else {
        b as u16
    }
}

/// 1 when `base` and `addr` lie in different 256-byte pages, else 0.
pub open spec fn page_crossed(base: u16, addr: u16) -> u8 {
    if base as int / 256 != addr as int / 256 {
        1
    } else {
        0
    }
}

/// The two bytes after the opcode, read as a little-endian address.
pub open spec fn operand_word(c: Cpu, m: BusView) -> u16 {
    word(m.read(c.pc), m.read(next_addr(c.pc)))
}

/// The program counter after a two-byte operand.
pub open spec fn past_word(c: Cpu) -> u16 {
    next_addr(next_addr(c.pc))
}

pub open spec fn mode_imp(c: Cpu, m: BusView) -> (Cpu, u8) {
    (Cpu { fetched: c.a, ..c }, 0)
}

pub open spec fn mode_imm(c: Cpu, m: BusView) -> (Cpu, u8) {
    (Cpu { addr_abs: c.pc, pc: next_addr(c.pc), ..c }, 0)
}

pub open spec fn mode_zp0(c: Cpu, m: BusView) -> (Cpu, u8) {
    (Cpu { addr_abs: m.read(c.pc) as u16, pc: next_addr(c.pc), ..c }, 0)
}

pub open spec fn mode_zpx(c: Cpu, m: BusView) -> (Cpu, u8) {
    (Cpu { addr_abs: ((m.read(c.pc) as int + c.x as int) % 256) as u16, pc: next_addr(c.pc), ..c }, 0)
}

pub open spec fn mode_zpy(c: Cpu, m: BusView) -> (Cpu, u8) {
    (Cpu { addr_abs: ((m.read(c.pc) as int + c.y as int) % 256) as u16, pc: next_addr(c.pc), ..c }, 0)
}

pub open spec fn mode_rel(c: Cpu, m: BusView) -> (Cpu, u8) {
    (Cpu { addr_rel: sign_extend(m.read(c.pc)), pc: next_addr(c.pc), ..c }, 0)
}

pub open spec fn mode_abs(c: Cpu, m: BusView) -> (Cpu, u8) {
    (Cpu { addr_abs: operand_word(c, m), pc: past_word(c), ..c }, 0)
}

pub open spec fn mode_abx(c: Cpu, m: BusView) -> (Cpu, u8) {
    let base = operand_word(c, m);
    let addr = add16(base, c.x as int);
    (Cpu { addr_abs: addr, pc: past_word(c), ..c }, page_crossed(base, addr))
}

pub open spec fn mode_aby(c: Cpu, m: BusView) -> (Cpu, u8) {
    let base = operand_word(c, m);
    let addr = add16(base, c.y as int);
    (Cpu { addr_abs: addr, pc: past_word(c), ..c }, page_crossed(base, addr))
}

/// Indirect: the high byte of the target comes from the start of the same
/// page when the pointer's low byte is 0xFF (the 6502 page-wrap bug).
pub open spec fn mode_ind(c: Cpu, m: BusView) -> (Cpu, u8) {
    let ptr_lo = m.read(c.pc);
    let ptr_hi = m.read(next_addr(c.pc));
    let ptr = word(ptr_lo, ptr_hi);
    let hi_addr = if ptr_lo == 0xFF {
        word(0, ptr_hi)
    } else {
        next_addr(ptr)
    };
    (Cpu { addr_abs: word(m.read(ptr), m.read(hi_addr)), pc: past_word(c), ..c }, 0)
}

pub open spec fn mode_izx(c: Cpu, m: BusView) -> (Cpu, u8) {
    let base = (m.read(c.pc) as int + c.x as int) % 256;
    let lo = m.read(base as u16);
    let hi = m.read(((base + 1) % 256) as u16);
    (Cpu { addr_abs: word(lo, hi), pc: next_addr(c.pc), ..c }, 0)
}

pub open spec fn mode_izy(c: Cpu, m: BusView) -> (Cpu, u8) {
    let base = m.read(c.pc) as int;
    let lo = m.read(base as u16);
    let hi = m.read(((base + 1) % 256) as u16);
    let target = word(lo, hi);
    let addr = add16(target, c.y as int);
    (Cpu { addr_abs: addr, pc: next_addr(c.pc), ..c }, page_crossed(target, addr))
}

/// Dispatches an addressing mode to its semantics.
pub open spec fn mode_spec(mode: AddrMode, c: Cpu, m: BusView) -> (Cpu, u8) {
    match mode {
        AddrMode::Imp => mode_imp(c, m),
        AddrMode::Imm => mode_imm(c, m),
        AddrMode::Zp0 => mode_zp0(c, m),
        AddrMode::Zpx => mode_zpx(c, m),
        AddrMode::Zpy => mode_zpy(c, m),
        AddrMode::Rel => mode_rel(c, m),
        AddrMode::Abs => mode_abs(c, m),
        AddrMode::Abx => mode_abx(c, m),
        AddrMode::Aby => mode_aby(c, m),
        AddrMode::Ind => mode_ind(c, m),
        AddrMode::Izx => mode_izx(c, m),
        AddrMode::Izy => mode_izy(c, m),
    }
}

impl Cpu {
    /// Implied: captures the accumulator as the operand.
    pub fn imp(&mut self, _bus: &mut Bus) -> (extra: u8)
        ensures
            (*final(self), extra) == mode_imp(*old(self), old(_bus)@),
            final(_bus)@ == old(_bus)@,
    {
        self.fetched = self.a;
        0
    }

    /// Immediate: the operand is the byte at the program counter.
    pub fn imm(&mut self, _bus: &mut Bus) -> (extra: u8)
        ensures
            (*final(self), extra) == mode_imm(*old(self), old(_bus)@),
            final(_bus)@ == old(_bus)@,
    {
        self.addr_abs = self.pc_advance();
        0
    }

    /// Zero page: a one-byte address into page zero.
    pub fn zp0(&mut self, bus: &mut Bus) -> (extra: u8)
        ensures
            (*final(self), extra) == mode_zp0(*old(self), old(bus)@),
            final(bus)@ == old(bus)@,
    {
        let b = self.pc_read(bus);
        proof {
            lemma_word_bits(b as u16);
        }
        self.addr_abs = b as u16 & 0x00FF;
        0
    }

    /// Zero page indexed by X, wrapping within page zero.
    pub fn zpx(&mut self, bus: &mut Bus) -> (extra: u8)
        ensures
            (*final(self), extra) == mode_zpx(*old(self), old(bus)@),
            final(bus)@ == old(bus)@,
    {
        let b = self.pc_read(bus);
        let x = self.x;
        proof {
            lemma_word_bits((b as u16 + x as u16) as u16);
        }
        self.addr_abs = (b as u16 + self.x as u16) as u16 & 0x00FF;
        0
    }

    /// Zero page indexed by Y, wrapping within page zero.
    pub fn zpy(&mut self, bus: &mut Bus) -> (extra: u8)
        ensures
            (*final(self), extra) == mode_zpy(*old(self), old(bus)@),
            final(bus)@ == old(bus)@,
    {
        let b = self.pc_read(bus);
        let y = self.y;
        proof {
            lemma_word_bits((b as u16 + y as u16) as u16);
        }
        self.addr_abs = (b as u16 + self.y as u16) as u16 & 0x00FF;
        0
    }

    /// Relative: a signed offset for branches, sign-extended to 16 bits.
    pub fn rel(&mut self, bus: &mut Bus) -> (extra: u8)
        ensures
            (*final(self), extra) == mode_rel(*old(self), old(bus)@),
            final(bus)@ == old(bus)@,
    {
        let b = self.pc_read(bus);
        proof {
            lemma_byte_bits(b);
        }
        self.addr_rel = b as i8 as u16;
        0
    }

    /// Absolute: a full little-endian 16-bit address.
    pub fn abs(&mut self, bus: &mut Bus) -> (extra: u8)
        ensures
            (*final(self), extra) == mode_abs(*old(self), old(bus)@),
            final(bus)@ == old(bus)@,
    {
        let low = self.pc_read(bus) as u16;
        let high = self.pc_read(bus) as u16;
        proof {
            lemma_join_bytes(low, high);
        }
        self.addr_abs = (high << 8) | low;
        0
    }

    /// Absolute indexed by X; one extra cycle when the index crosses a page.
    pub fn abx(&mut self, bus: &mut Bus) -> (extra: u8)
        ensures
            (*final(self), extra) == mode_abx(*old(self), old(bus)@),
            final(bus)@ == old(bus)@,
    {
        let low = self.pc_read(bus) as u16;
        let high = self.pc_read(bus) as u16;
        proof {
            lemma_join_bytes(low, high);
        }
        self.addr_abs = (high << 8) | low;
        let base_page = self.addr_abs & 0xFF00;
        let base = self.addr_abs;
        self.addr_abs = self.addr_abs.wrapping_add(self.x as u16);
        proof {
            lemma_page_bits(self.addr_abs, base);
        }
        if (self.addr_abs & 0xFF00) != base_page {
            1
        } else {
            0
        }
    }

    /// Absolute indexed by Y; one extra cycle when the index crosses a page.
    pub fn aby(&mut self, bus: &mut Bus) -> (extra: u8)
        ensures
            (*final(self), extra) == mode_aby(*old(self), old(bus)@),
            final(bus)@ == old(bus)@,
    {
        let low = self.pc_read(bus) as u16;
        let high = self.pc_read(bus) as u16;
        proof {
            lemma_join_bytes(low, high);
        }
        self.addr_abs = (high << 8) | low;
        let base_page = self.addr_abs & 0xFF00;
        let base = self.addr_abs;
        self.addr_abs = self.addr_abs.wrapping_add(self.y as u16);
        proof {
            lemma_page_bits(self.addr_abs, base);
        }
        if (self.addr_abs & 0xFF00) != base_page {
            1
        } else {
            0
        }
    }

    /// Indirect: follows a 16-bit pointer, reproducing the page-wrap bug.
    pub fn ind(&mut self, bus: &mut Bus) -> (extra: u8)
        ensures
            (*final(self), extra) == mode_ind(*old(self), old(bus)@),
            final(bus)@ == old(bus)@,
    {
        let ptr_lo = self.pc_read(bus) as u16;
        let ptr_hi = self.pc_read(bus) as u16;
        proof {
            lemma_join_bytes(ptr_lo, ptr_hi);
            lemma_join_bytes(0, ptr_hi);
        }
        let ptr = (ptr_hi << 8) | ptr_lo;
        let lo = bus.read(ptr) as u16;
        let hi = if ptr_lo == 0xFF {
            proof {
                lemma_word_bits(ptr);
            }
            bus.read(ptr & 0xFF00) as u16
        } else {
            bus.read(ptr + 1) as u16
        };
        proof {
            lemma_join_bytes(lo, hi);
        }
        self.addr_abs = (hi << 8) | lo;
        0
    }

    /// Indexed indirect: X picks a pointer in page zero.
    pub fn izx(&mut self, bus: &mut Bus) -> (extra: u8)
        ensures
            (*final(self), extra) == mode_izx(*old(self), old(bus)@),
            final(bus)@ == old(bus)@,
    {
        let b = self.pc_read(bus);
        let x = self.x;
        let base = ((b as u16) + self.x as u16) & 0x00FF;
        proof {
            lemma_word_bits((b as u16 + x as u16) as u16);
            lemma_word_bits((base + 1) as u16);
        }
        let low = bus.read(base) as u16;
        let high = bus.read((base + 1) & 0x00FF) as u16;
        proof {
            lemma_join_bytes(low, high);
        }
        self.addr_abs = (high << 8) | low;
        0
    }

    /// Indirect indexed: a pointer in page zero plus Y; one extra cycle when
    /// the index crosses a page.
    pub fn izy(&mut self, bus: &mut Bus) -> (extra: u8)
        ensures
            (*final(self), extra) == mode_izy(*old(self), old(bus)@),
            final(bus)@ == old(bus)@,
    {
        let base = self.pc_read(bus) as u16;
        proof {
            lemma_word_bits((base + 1) as u16);
        }
        let low = bus.read(base) as u16;
        let high = bus.read((base + 1) & 0x00FF) as u16;
        proof {
            lemma_join_bytes(low, high);
        }
        let addr = (high << 8) | low;
        self.addr_abs = addr.wrapping_add(self.y as u16);
        proof {
            lemma_page_bits(self.addr_abs, addr);
        }
        if self.addr_abs & 0xFF00 != addr & 0xFF00 {
            1
        } else {
            0
        }
    }
}

} // verus!
