use vstd::prelude::*;

use crate::bits::{lemma_byte_bits, lemma_word_bits};

verus! {

/// The iNES magic bytes: "NES" followed by the MS-DOS end-of-file byte.
pub const INES_MAGIC: [u8; 4] = [0x4E, 0x45, 0x53, 0x1A];

/// Size of the iNES header.
pub const HEADER_SIZE: usize = 16;

/// Size of the optional trainer block that sits between the header and PRG-ROM.
pub const TRAINER_SIZE: usize = 512;

/// One PRG-ROM bank: 16 KB.
pub const PRG_BANK_SIZE: usize = 16384;

/// One CHR-ROM bank: 8 KB.
pub const CHR_BANK_SIZE: usize = 8192;

/// Nametable mirroring arrangement declared by the cartridge header.
#[derive(Clone, Copy, Debug, PartialEq, Eq, Structural)]
pub enum Mirroring {
    Horizontal,
    Vertical,
    FourScreen,
}

/// A parsed iNES cartridge using Mapper 0 (NROM).
pub struct Cartridge {
    pub mirroring: Mirroring,
    pub mapper_id: u8,
    pub prg_banks: u8,
    pub chr_banks: u8,
    pub prg_rom: Vec<u8>,
    /// CHR-ROM, or 8 KB of zeroed, writable CHR-RAM when the header declares no CHR banks.
    pub chr_rom: Vec<u8>,
}

// ---------------------------------------------------------------------------
// The iNES header, as a function of the raw bytes.
// ---------------------------------------------------------------------------

/// The first four bytes are the iNES magic.
pub open spec fn has_ines_magic(data: Seq<u8>) -> bool {
    &&& data.len() >= 4
    &&& data[0] == 0x4E
    &&& data[1] == 0x45
    &&& data[2] == 0x53
    &&& data[3] == 0x1A
}

/// Mapper number: high nibble from flags 7, low nibble from the high nibble of flags 6.
pub open spec fn ines_mapper_id(data: Seq<u8>) -> int {
    (data[7] as int / 16) * 16 + data[6] as int / 16
}

/// Flags 6, bit 2: a 512-byte trainer precedes PRG-ROM.
pub open spec fn ines_has_trainer(data: Seq<u8>) -> bool {
    (data[6] as int / 4) % 2 == 1
}

/// Flags 6, bit 3 selects four-screen VRAM; otherwise bit 0 selects vertical mirroring.
pub open spec fn ines_mirroring(data: Seq<u8>) -> Mirroring {
    if (data[6] as int / 8) % 2 == 1 {
        Mirroring::FourScreen
    } else if data[6] as int % 2 == 1 {
        Mirroring::Vertical
    } else {
        Mirroring::Horizontal
    }
}

/// Offset of PRG-ROM in the file.
pub open spec fn ines_prg_start(data: Seq<u8>) -> int {
    16 + if ines_has_trainer(data) { 512int } else { 0int }
}

/// Number of PRG-ROM bytes declared by the header.
pub open spec fn ines_prg_len(data: Seq<u8>) -> int {
    data[4] as int * 16384
}

/// Number of CHR-ROM bytes declared by the header.
pub open spec fn ines_chr_len(data: Seq<u8>) -> int {
    data[5] as int * 8192
}

/// Offset of CHR-ROM in the file.
pub open spec fn ines_chr_start(data: Seq<u8>) -> int {
    ines_prg_start(data) + ines_prg_len(data)
}

/// Number of bytes a file must hold for the ROM data its header declares.
pub open spec fn ines_needed_len(data: Seq<u8>) -> int {
    ines_chr_start(data) + ines_chr_len(data)
}

/// The CHR memory a cartridge starts with: the CHR-ROM of the file, or 8 KB of zeroed CHR-RAM.
pub open spec fn ines_chr(data: Seq<u8>) -> Seq<u8> {
    if data[5] == 0 {
        Seq::new(8192, |_i: int| 0u8)
    } else {
        data.subrange(ines_chr_start(data), ines_needed_len(data))
    }
}

/// The error `from_bytes` reports for a file, or `None` when the file is accepted.
pub open spec fn ines_error(data: Seq<u8>) -> Option<&'static str> {
    if data.len() < 16 {
        Some("too short")
    } else if !has_ines_magic(data) {
        Some("invalid magic")
    } else if ines_mapper_id(data) != 0 {
        Some("unsupported mapper")
    } else if data.len() < ines_needed_len(data) {
        Some("truncated ROM data")
    } else {
        None
    }
}

impl Cartridge {
    /// Mask that folds a CPU address into PRG-ROM: 16 KB banks mirror, 32 KB fill the window.
    pub open spec fn prg_mask(&self) -> int {
        if self.prg_banks >= 2 {
            0x7FFF
        } else {
            0x3FFF
        }
    }

    /// What the cartridge answers to a CPU read (Mapper 0).
    pub open spec fn spec_cpu_read(&self, addr: u16) -> Option<u8> {
        let offset = if self.prg_banks >= 2 {
            addr as int % 0x8000
        } else {
            addr as int % 0x4000
        };
        if addr >= 0x8000 && offset < self.prg_rom@.len() {
            Some(self.prg_rom@[offset])
        } else {
            None
        }
    }

    /// What the cartridge answers to a PPU read (Mapper 0).
    pub open spec fn spec_ppu_read(&self, addr: u16) -> Option<u8> {
        if addr <= 0x1FFF && (addr as int) < self.chr_rom@.len() {
            Some(self.chr_rom@[addr as int])
        } else {
            None
        }
    }

    /// Whether a PPU write lands: only CHR-RAM (no CHR banks) is writable.
    pub open spec fn spec_ppu_writable(&self, addr: u16) -> bool {
        self.chr_banks == 0 && addr <= 0x1FFF && (addr as int) < self.chr_rom@.len()
    }

    /// Parses an iNES file. Only Mapper 0 is supported.
    pub fn from_bytes(data: &[u8]) -> (r: Result<Self, &'static str>)
        ensures
            ines_error(data@) matches Some(e) ==> r == Err::<Self, &'static str>(e),
            ines_error(data@) is None ==> (r matches Ok(c) && {
                &&& c.prg_banks == data@[4]
                &&& c.chr_banks == data@[5]
                &&& c.mapper_id == ines_mapper_id(data@)
                &&& c.mirroring == ines_mirroring(data@)
                &&& c.prg_rom@ == data@.subrange(ines_prg_start(data@), ines_chr_start(data@))
                &&& c.chr_rom@ == ines_chr(data@)
            }),
    {
        if data.len() < HEADER_SIZE {
            return Err("too short");
        }
        if data[0] != INES_MAGIC[0] || data[1] != INES_MAGIC[1] || data[2] != INES_MAGIC[2]
            || data[3] != INES_MAGIC[3] {
            return Err("invalid magic");
        }
        let prg_banks = data[4];
        let chr_banks = data[5];
        let mapper1 = data[6];
        let mapper2 = data[7];
        let mapper_id = (mapper2 & 0xF0) | (mapper1 >> 4);
        proof {
            assert((mapper2 & 0xF0) | (mapper1 >> 4) == (mapper2 / 16) * 16 + mapper1 / 16)
                by (bit_vector);
            lemma_byte_bits(mapper1);
        }
        if mapper_id != 0 {
            return Err("unsupported mapper");
        }
        let mirroring = if mapper1 & 0x08 != 0 {
            Mirroring::FourScreen
        } else if mapper1 & 0x01 != 0 {
            Mirroring::Vertical
        } else {
            Mirroring::Horizontal
        };
        let prg_start: usize = if mapper1 & 0x04 != 0 {
            HEADER_SIZE + TRAINER_SIZE
        } else {
            HEADER_SIZE
        };
        let prg_len: usize = prg_banks as usize * PRG_BANK_SIZE;
        let chr_len: usize = chr_banks as usize * CHR_BANK_SIZE;
        if data.len() < prg_start + prg_len + chr_len {
            return Err("truncated ROM data");
        }
        let prg_rom = copy_range(data, prg_start, prg_len);
        let chr_rom = if chr_banks == 0 {
            zeroed(CHR_BANK_SIZE)
        } else {
            copy_range(data, prg_start + prg_len, chr_len)
        };
        Ok(Cartridge { mirroring, mapper_id, prg_banks, chr_banks, prg_rom, chr_rom })
    }

    /// CPU bus read, Mapper 0: 0x8000–0xFFFF map to PRG-ROM (16 KB mirrored, 32 KB not);
    /// any other address is not claimed.
    pub fn cpu_read(&self, addr: u16) -> (r: Option<u8>)
        ensures
            r == self.spec_cpu_read(addr),
    {
        if addr < 0x8000 {
            return None;
        }
        let mask: u16 = if self.prg_banks >= 2 {
            0x7FFF
        } else {
            0x3FFF
        };
        let offset = (addr & mask) as usize;
        proof {
            lemma_word_bits(addr);
        }
        if offset < self.prg_rom.len() {
            Some(self.prg_rom[offset])
        } else {
            None
        }
    }

    /// CPU bus write: Mapper 0 has no writable PRG and claims no write.
    pub fn cpu_write(&mut self, _addr: u16, _data: u8) -> (handled: bool)
        ensures
            !handled,
            *final(self) == *old(self),
    {
        false
    }

    /// PPU bus read, Mapper 0: 0x0000–0x1FFF map to CHR-ROM or CHR-RAM.
    pub fn ppu_read(&self, addr: u16) -> (r: Option<u8>)
        ensures
            r == self.spec_ppu_read(addr),
    {
        if addr <= 0x1FFF && (addr as usize) < self.chr_rom.len() {
            Some(self.chr_rom[addr as usize])
        } else {
            None
        }
    }

    /// PPU bus write: lands only in CHR-RAM (a cartridge without CHR banks).
    pub fn ppu_write(&mut self, addr: u16, data: u8) -> (handled: bool)
        ensures
            handled == old(self).spec_ppu_writable(addr),
            final(self).chr_rom@ == if handled {
                old(self).chr_rom@.update(addr as int, data)
            } else {
                old(self).chr_rom@
            },
            final(self).prg_rom == old(self).prg_rom,
            final(self).prg_banks == old(self).prg_banks,
            final(self).chr_banks == old(self).chr_banks,
            final(self).mapper_id == old(self).mapper_id,
            final(self).mirroring == old(self).mirroring,
    {
        if self.chr_banks == 0 && addr <= 0x1FFF && (addr as usize) < self.chr_rom.len() {
            self.chr_rom.set(addr as usize, data);
            true
        } else {
            false
        }
    }
}

/// A copy of `len` bytes of `data` starting at `start`.
fn copy_range(data: &[u8], start: usize, len: usize) -> (v: Vec<u8>)
    requires
        start + len <= data@.len(),
    ensures
        v@ == data@.subrange(start as int, start + len),
{
    let mut v: Vec<u8> = Vec::new();
    let mut i: usize = 0;
    while i < len
        invariant
            i <= len,
            start + len <= data.len(),
            v@ == data@.subrange(start as int, start + i),
        decreases len - i,
    {
        v.push(data[start + i]);
        i = i + 1;
        assert(v@ =~= data@.subrange(start as int, start + i));
    }
    v
}

/// `len` zero bytes.
fn zeroed(len: usize) -> (v: Vec<u8>)
    ensures
        v@ == Seq::new(len as nat, |_i: int| 0u8),
{
    let mut v: Vec<u8> = Vec::new();
    let mut i: usize = 0;
    while i < len
        invariant
            i <= len,
            v@ == Seq::new(i as nat, |_i: int| 0u8),
        decreases len - i,
    {
        v.push(0u8);
        i = i + 1;
        assert(v@ =~= Seq::new(i as nat, |_i: int| 0u8));
    }
    v
}

// ---------------------------------------------------------------------------
// Laws of the cartridge
// ---------------------------------------------------------------------------

/// With one 16 KB PRG bank, 0xC000–0xFFFF mirrors 0x8000–0xBFFF.
pub proof fn lemma_prg_16k_mirrored(cart: Cartridge, addr: u16)
    requires
        cart.prg_banks < 2,
        0x8000 <= addr <= 0xBFFF,
    ensures
        cart.spec_cpu_read(addr) == cart.spec_cpu_read((addr + 0x4000) as u16),
{
}

/// The cartridge claims no CPU address below 0x8000.
pub proof fn lemma_cpu_read_below_prg(cart: Cartridge, addr: u16)
    requires
        addr < 0x8000,
    ensures
        cart.spec_cpu_read(addr) is None,
{
}

/// A byte written to CHR-RAM reads back from the PPU side.
pub proof fn lemma_chr_ram_roundtrip(before: Cartridge, after: Cartridge, addr: u16, data: u8)
    requires
        before.spec_ppu_writable(addr),
        after.chr_rom@ == before.chr_rom@.update(addr as int, data),
    ensures
        after.spec_ppu_read(addr) == Some(data),
{
}

/// A trainer is skipped: inserting a 512-byte trainer after the header (and
/// setting its flag) leaves the verdict and every parsed field unchanged.
pub proof fn lemma_trainer_skipped(plain: Seq<u8>, with_trainer: Seq<u8>, trainer: Seq<u8>)
    requires
        plain.len() >= 16,
        !ines_has_trainer(plain),
        trainer.len() == 512,
        with_trainer == plain.subrange(0, 6).push((plain[6] + 4) as u8).add(plain.subrange(7, 16)).add(
            trainer,
        ).add(plain.subrange(16, plain.len() as int)),
    ensures
        ines_error(with_trainer) == ines_error(plain),
        ines_has_trainer(with_trainer),
        ines_mapper_id(with_trainer) == ines_mapper_id(plain),
        ines_mirroring(with_trainer) == ines_mirroring(plain),
        ines_error(plain) is None ==> {
            &&& with_trainer.subrange(ines_prg_start(with_trainer), ines_chr_start(with_trainer))
                == plain.subrange(ines_prg_start(plain), ines_chr_start(plain))
            &&& ines_chr(with_trainer) == ines_chr(plain)
        },
{
    let b = plain[6] as int;
    assert(with_trainer[6] as int == b + 4);
    assert((b + 4) / 16 == b / 16);
    assert(((b + 4) / 8) % 2 == (b / 8) % 2);
    assert((b + 4) % 2 == b % 2);
    assert(((b + 4) / 4) % 2 == 1);
    assert forall|i: int| 0 <= i < 16 && i != 6 implies with_trainer[i] == plain[i] by {}
    assert forall|i: int| 16 <= i < plain.len() implies with_trainer[i + 512] == plain[i] by {}
    if ines_error(plain) is None {
        assert(with_trainer.subrange(ines_prg_start(with_trainer), ines_chr_start(with_trainer))
            =~= plain.subrange(ines_prg_start(plain), ines_chr_start(plain)));
        if plain[5] != 0 {
            assert(with_trainer.subrange(ines_chr_start(with_trainer), ines_needed_len(with_trainer))
                =~= plain.subrange(ines_chr_start(plain), ines_needed_len(plain)));
        }
    }
}

} // verus!
