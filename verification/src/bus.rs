use vstd::prelude::*;

use crate::bits::{lemma_join_bytes, lemma_word_bits};
use crate::cartridge::Cartridge;

verus! {

/// The CPU bus: 2 KB of internal RAM, mirrored across 0x0000–0x1FFF, and an optional cartridge.
pub struct Bus {
    pub ram: [u8; 2048],
    /// `None` until a cartridge is inserted.
    pub cart: Option<Cartridge>,
}

/// The contents of a bus: its RAM as a sequence of bytes, and its cartridge.
#[verifier::ext_equal]
pub struct BusView {
    pub ram: Seq<u8>,
    pub cart: Option<Cartridge>,
}

impl View for Bus {
    type V = BusView;

    open spec fn view(&self) -> BusView {
        BusView { ram: self.ram@, cart: self.cart }
    }
}

/// The RAM cell an address reaches: internal RAM repeats every 2 KB.
pub open spec fn ram_index(addr: u16) -> int {
    addr as int % 2048
}

/// The 16-bit little-endian word made of a low and a high byte.
pub open spec fn word(lo: u8, hi: u8) -> u16 {
    (hi as int * 256 + lo as int) as u16
}

/// The address one past `addr`, wrapping at the top of the address space.
pub open spec fn next_addr(addr: u16) -> u16 {
    ((addr as int + 1) % 0x10000) as u16
}

impl BusView {
    /// What a CPU read of `addr` returns.
    ///
    /// With a cartridge, the cartridge is asked first; unclaimed addresses in
    /// 0x0000–0x1FFF read RAM and all others (PPU registers, open bus) read 0.
    /// Without a cartridge every address reads the mirrored RAM.
    pub open spec fn read(self, addr: u16) -> u8 {
        match self.cart {
            Some(cart) => match cart.spec_cpu_read(addr) {
                Some(v) => v,
                None => if addr <= 0x1FFF {
                    self.ram[ram_index(addr)]
                } else {
                    0
                },
            },
            None => self.ram[ram_index(addr)],
        }
    }

    /// Little-endian 16-bit read.
    pub open spec fn read_u16(self, addr: u16) -> u16 {
        word(self.read(addr), self.read(next_addr(addr)))
    }

    /// Whether a CPU write of `addr` lands in RAM: always without a cartridge,
    /// and in 0x0000–0x1FFF with one (a Mapper 0 cartridge claims no write).
    pub open spec fn writes_ram(self, addr: u16) -> bool {
        self.cart is None || addr <= 0x1FFF
    }

    /// The bus after a CPU write.
    pub open spec fn write(self, addr: u16, data: u8) -> BusView {
        if self.writes_ram(addr) {
            BusView { ram: self.ram.update(ram_index(addr), data), cart: self.cart }
        } else {
            self
        }
    }

    /// The bus after a little-endian 16-bit write.
    pub open spec fn write_u16(self, addr: u16, data: u16) -> BusView {
        self.write(addr, (data as int % 256) as u8).write(next_addr(addr), (data as int / 256) as u8)
    }
}

/// The RAM `Bus::load` produces: the first `n` bytes of `data` written one by one
/// from `start`, wrapping at the top of the address space and mirrored into 2 KB.
pub open spec fn loaded_ram(data: Seq<u8>, start: u16, n: nat) -> Seq<u8>
    decreases n,
{
    if n == 0 {
        Seq::new(2048, |_i: int| 0u8)
    } else {
        let i = (n - 1) as nat;
        loaded_ram(data, start, i).update((start as int + i) % 2048, data[i as int])
    }
}

impl Bus {
    /// An empty bus: zeroed RAM, no cartridge.
    pub fn new() -> (bus: Self)
        ensures
            bus@.ram == Seq::new(2048, |_i: int| 0u8),
            bus@.cart is None,
    {
        let bus = Self { ram: [0u8; 2048], cart: None };
        assert(bus@.ram =~= Seq::new(2048, |_i: int| 0u8));
        bus
    }

    /// A cartridge-less bus with `data` written into RAM from `start_addr`; addresses
    /// wrap at 0xFFFF and fold into the 2 KB of RAM.
    pub fn load(data: &[u8], start_addr: u16) -> (bus: Self)
        ensures
            bus@.ram == loaded_ram(data@, start_addr, data@.len()),
            bus@.cart is None,
    {
        let mut bus = Self::new();
        let mut i: usize = 0;
        while i < data.len()
            invariant
                i <= data.len(),
                bus@.ram == loaded_ram(data@, start_addr, i as nat),
                bus@.cart is None,
            decreases data.len() - i,
        {
            let w: u16 = #[verifier::truncate] (i as u16);
            let addr = start_addr.wrapping_add(w);
            let idx = (addr & 0x07FF) as usize;
            proof {
                assert(addr == ((start_addr as int + w as int) % 0x10000) as u16);
                assert(w as int % 2048 == i as int % 2048) by {
                    assert(w == i % 0x10000) by (bit_vector)
                        requires
                            w == #[verifier::truncate] (i as u16);
                }
                assert(addr & 0x07FF == addr % 2048) by {
                    lemma_word_bits(addr);
                }
                assert(idx as int == (start_addr as int + i as int) % 2048);
            }
            bus.ram[idx] = data[i];
            i = i + 1;
            assert(bus@.ram =~= loaded_ram(data@, start_addr, i as nat));
        }
        assert(data@.len() == data.len());
        bus
    }

    /// Inserts a cartridge; from now on it is asked first on every read and write.
    pub fn insert_cartridge(&mut self, cart: Cartridge)
        ensures
            final(self)@.ram == old(self)@.ram,
            final(self)@.cart == Some(cart),
    {
        self.cart = Some(cart);
    }

    /// CPU read of one byte.
    pub fn read(&self, addr: u16) -> (data: u8)
        ensures
            data == self@.read(addr),
    {
        proof {
            lemma_word_bits(addr);
        }
        if let Some(cart) = &self.cart {
            if let Some(data) = cart.cpu_read(addr) {
                return data;
            }
            return if addr <= 0x1FFF {
                self.ram[(addr & 0x07FF) as usize]
            } else {
                0
            };
        }
        self.ram[(addr & 0x07FF) as usize]
    }

    /// Little-endian 16-bit read: low byte at `addr`, high byte at `addr + 1` (wrapping).
    pub fn read_u16(&self, addr: u16) -> (data: u16)
        ensures
            data == self@.read_u16(addr),
    {
        let lo = self.read(addr);
        let hi = self.read(addr.wrapping_add(1));
        proof {
            lemma_join_bytes(lo as u16, hi as u16);
        }
        lo as u16 | (hi as u16) << 8
    }

    /// CPU write of one byte.
    pub fn write(&mut self, addr: u16, data: u8)
        ensures
            final(self)@ == old(self)@.write(addr, data),
    {
        proof {
            lemma_word_bits(addr);
        }
        if let Some(cart) = &mut self.cart {
            if cart.cpu_write(addr, data) {
                return;
            }
            if addr <= 0x1FFF {
                self.ram[(addr & 0x07FF) as usize] = data;
            }
            return;
        }
        self.ram[(addr & 0x07FF) as usize] = data;
    }

    /// Little-endian 16-bit write: low byte at `addr`, high byte at `addr + 1` (wrapping).
    pub fn write_u16(&mut self, addr: u16, data: u16)
        ensures
            final(self)@ == old(self)@.write_u16(addr, data),
    {
        proof {
            lemma_word_bits(data);
        }
        self.write(addr, data as u8);
        self.write(addr.wrapping_add(1), (data >> 8) as u8);
    }
}

// ---------------------------------------------------------------------------
// Laws of the bus
// ---------------------------------------------------------------------------

/// A byte written to a RAM-backed address reads back unchanged.
pub proof fn lemma_read_after_write(bus: BusView, addr: u16, data: u8)
    requires
        bus.ram.len() == 2048,
        bus.writes_ram(addr),
    ensures
        bus.write(addr, data).read(addr) == data,
{
}

/// A write leaves every address that does not share its RAM cell unchanged.
pub proof fn lemma_write_preserves_other(bus: BusView, addr: u16, data: u8, other: u16)
    requires
        bus.ram.len() == 2048,
        ram_index(addr) != ram_index(other),
    ensures
        bus.write(addr, data).read(other) == bus.read(other),
{
}

/// Internal RAM is mirrored every 2 KB across 0x0000–0x1FFF (and, without a
/// cartridge, across the whole address space).
pub proof fn lemma_ram_mirroring(bus: BusView, a: u16, b: u16)
    requires
        ram_index(a) == ram_index(b),
        (bus.cart is None || (a <= 0x1FFF && b <= 0x1FFF)),
    ensures
        bus.read(a) == bus.read(b),
{
}

/// A 16-bit word written to RAM-backed addresses reads back unchanged.
pub proof fn lemma_read_u16_after_write_u16(bus: BusView, addr: u16, data: u16)
    requires
        bus.ram.len() == 2048,
        bus.writes_ram(addr),
        bus.writes_ram(next_addr(addr)),
    ensures
        bus.write_u16(addr, data).read_u16(addr) == data,
{
    let lo = (data as int % 256) as u8;
    let hi = (data as int / 256) as u8;
    let b1 = bus.write(addr, lo);
    let b2 = b1.write(next_addr(addr), hi);
    assert(ram_index(addr) != ram_index(next_addr(addr)));
    lemma_read_after_write(b1, next_addr(addr), hi);
    lemma_write_preserves_other(b1, next_addr(addr), hi, addr);
    lemma_read_after_write(bus, addr, lo);
}

/// Bytes loaded into a cartridge-less bus read back at their addresses,
/// as long as the data fits in the 2 KB of RAM.
pub proof fn lemma_load_reads_back(data: Seq<u8>, start: u16, i: int)
    requires
        data.len() <= 2048,
        0 <= i < data.len(),
    ensures
        (BusView { ram: loaded_ram(data, start, data.len()), cart: None }).read(
            ((start as int + i) % 0x10000) as u16,
        ) == data[i],
{
    lemma_loaded_ram_cell(data, start, data.len(), i);
    assert(ram_index(((start as int + i) % 0x10000) as u16) == (start as int + i) % 2048);
}

/// After loading the first `n` bytes, the cell of byte `i < n` holds byte `i`
/// when no later byte shares that cell.
proof fn lemma_loaded_ram_cell(data: Seq<u8>, start: u16, n: nat, i: int)
    requires
        n <= data.len(),
        n <= 2048,
        0 <= i < n,
    ensures
        loaded_ram(data, start, n).len() == 2048,
        loaded_ram(data, start, n)[(start as int + i) % 2048] == data[i],
    decreases n,
{
    lemma_loaded_ram_len(data, start, n);
    let k = (n - 1) as nat;
    lemma_loaded_ram_len(data, start, k);
    if i == k {
    } else {
        lemma_loaded_ram_cell(data, start, k, i);
        assert((start as int + k) % 2048 != (start as int + i) % 2048);
    }
}

pub(crate) proof fn lemma_loaded_ram_len(data: Seq<u8>, start: u16, n: nat)
    ensures
        loaded_ram(data, start, n).len() == 2048,
    decreases n,
{
    if n > 0 {
        lemma_loaded_ram_len(data, start, (n - 1) as nat);
    }
}

} // verus!
