use vstd::prelude::*;

use rand::rngs::ThreadRng;
use rand::Rng;

use crate::bus::{
    lemma_load_reads_back, lemma_loaded_ram_len, lemma_read_u16_after_write_u16,
    lemma_write_preserves_other, loaded_ram, Bus, BusView,
};
use crate::code_text::{is_refusal, parse_code, text_bytes, ParseError};
use crate::cpu::{clock_allowed, clock_spec, reset_spec, Cpu, Stack, RESET_VECTOR};
use crate::program::{default_game_code, pixel_buffer, screen_image, PROGRAM_START, SAMPLE_PROGRAM};

verus! {

#[verifier::external_type_specification]
#[verifier::external_body]
pub struct ExThreadRng(ThreadRng);

/// `rand::rng()`: a handle to the thread-local random generator. Nothing is
/// stated of it.
#[verifier::external_body]
fn thread_rng() -> ThreadRng {
    rand::rng()
}

/// `Rng::random_range(low..high)` on the thread-local generator: the rand
/// documentation promises a value in `low..high` (and a panic when the range is
/// empty, which `requires` rules out); which value comes out is chance.
#[verifier::external_body]
fn random_in(rng: &mut ThreadRng, low: u8, high: u8) -> (r: u8)
    requires
        low < high,
    ensures
        low <= r < high,
{
    rng.random_range(low..high)
}

/// The emulated machine behind the debugger: CPU, bus, the program it boots,
/// and the run state.
pub struct Emulator {
    pub cpu: Cpu,
    pub bus: Bus,
    pub rng: ThreadRng,
    pub paused: bool,
    /// CPU clock ticks run per displayed frame.
    pub cycles_per_frame: u32,
    /// Clock ticks since the last reset.
    pub total_ticks: u64,
    pub loaded_program: Vec<u8>,
}

/// What the emulator holds, apart from its random generator.
pub struct EmulatorView {
    pub cpu: Cpu,
    pub bus: BusView,
    pub paused: bool,
    pub cycles_per_frame: u32,
    pub total_ticks: u64,
    pub loaded_program: Seq<u8>,
}

impl View for Emulator {
    type V = EmulatorView;

    open spec fn view(&self) -> EmulatorView {
        EmulatorView {
            cpu: self.cpu,
            bus: self.bus@,
            paused: self.paused,
            cycles_per_frame: self.cycles_per_frame,
            total_ticks: self.total_ticks,
            loaded_program: self.loaded_program@,
        }
    }
}

/// The power-on CPU state.
pub open spec fn fresh_cpu() -> Cpu {
    Cpu {
        a: 0,
        x: 0,
        y: 0,
        pc: 0,
        status: 0x20,
        stack: Stack { ptr: 0 },
        fetched: 0,
        addr_abs: 0,
        addr_rel: 0,
        opcode: 0,
        cycles: 0,
    }
}

/// The bus a program boots from: the program in RAM from 0x0600 and the reset
/// vector pointing there.
pub open spec fn boot_bus(code: Seq<u8>) -> BusView {
    BusView { ram: loaded_ram(code, 0x0600, code.len()), cart: None }.write_u16(0xFFFC, 0x0600)
}

/// The state a reset (re)boots into: the loaded program on a fresh bus and a
/// freshly reset CPU, counted from zero.
pub open spec fn booted(v: EmulatorView, code: Seq<u8>) -> bool {
    &&& v.bus == boot_bus(code)
    &&& v.cpu == reset_spec(fresh_cpu(), boot_bus(code))
    &&& v.total_ticks == 0
    &&& v.loaded_program == code
}

/// Where the emulator keeps the random byte the sample program reads.
pub open spec fn random_cell() -> u16 {
    0xFE
}

/// One tick with random byte `r`: the byte is written to 0xFE, then, if the
/// clock may run and the tick counter has room, the CPU clocks once and the
/// tick is counted (`true`); otherwise only the write happens (`false`).
pub open spec fn tick_spec(v: EmulatorView, r: u8) -> (EmulatorView, bool) {
    let m = v.bus.write(random_cell(), r);
    if clock_allowed(v.cpu, m) && v.total_ticks < u64::MAX {
        let (cpu, bus) = clock_spec(v.cpu, m);
        (EmulatorView { cpu, bus, total_ticks: (v.total_ticks + 1) as u64, ..v }, true)
    } else {
        (EmulatorView { bus: m, ..v }, false)
    }
}

/// Ticks with the random bytes `rs`, in order, stopping at the first tick
/// that cannot run.
pub open spec fn ticks_spec(v: EmulatorView, rs: Seq<u8>) -> (EmulatorView, bool)
    decreases rs.len(),
{
    if rs.len() == 0 {
        (v, true)
    } else {
        let (p, ok) = ticks_spec(v, rs.drop_last());
        if ok {
            tick_spec(p, rs.last())
        } else {
            (p, false)
        }
    }
}

/// Ticks leave the pause state, the frame length and the loaded program as
/// they were, and when they all run, each adds one to the tick counter.
pub proof fn lemma_ticks_count(v: EmulatorView, rs: Seq<u8>)
    ensures
        ticks_spec(v, rs).0.paused == v.paused,
        ticks_spec(v, rs).0.cycles_per_frame == v.cycles_per_frame,
        ticks_spec(v, rs).0.loaded_program == v.loaded_program,
        ticks_spec(v, rs).1 ==> ticks_spec(v, rs).0.total_ticks == v.total_ticks + rs.len(),
    decreases rs.len(),
{
    if rs.len() > 0 {
        lemma_ticks_count(v, rs.drop_last());
    }
}

/// Bytes the emulator can draw for the program: each in 1..16.
pub open spec fn random_bytes(rs: Seq<u8>) -> bool {
    forall|i: int| 0 <= i < rs.len() ==> 1 <= #[trigger] rs[i] < 16
}

/// A direction key of the sample game (W, S, A, D).
#[derive(Clone, Copy, Debug, PartialEq, Eq, Structural)]
pub enum Direction {
    Up,
    Down,
    Left,
    Right,
}

/// The byte a direction key leaves for the program: the ASCII code of its
/// letter (`w`, `s`, `a`, `d`).
pub open spec fn key_code(d: Direction) -> u8 {
    match d {
        Direction::Up => 0x77,
        Direction::Down => 0x73,
        Direction::Left => 0x61,
        Direction::Right => 0x64,
    }
}

/// Where the emulator leaves the code of the key held down.
pub open spec fn key_cell() -> u16 {
    0xFF
}

impl Direction {
    /// The key's code (see `key_code`).
    pub fn code(self) -> (c: u8)
        ensures
            c == key_code(self),
    {
        match self {
            Direction::Up => 0x77,
            Direction::Down => 0x73,
            Direction::Left => 0x61,
            Direction::Right => 0x64,
        }
    }
}

/// One displayed frame, given the input of that frame: a pause toggle, a
/// single-step request (honoured only while paused, with random byte `r`),
/// the direction key held down, and then, unless paused, a frame of ticks with
/// the random bytes `rs`. A tick that cannot run ends the frame (`false`).
pub open spec fn frame_spec(
    v: EmulatorView,
    toggle_pause: bool,
    step: bool,
    key: Option<Direction>,
    r: u8,
    rs: Seq<u8>,
) -> (EmulatorView, bool) {
    let v1 = if toggle_pause {
        EmulatorView { paused: !v.paused, ..v }
    } else {
        v
    };
    let (v2, stepped) = if step && v1.paused {
        tick_spec(v1, r)
    } else {
        (v1, true)
    };
    if !stepped {
        (v2, false)
    } else {
        let v3 = match key {
            Some(d) => EmulatorView { bus: v2.bus.write(key_cell(), key_code(d)), ..v2 },
            None => v2,
        };
        if v3.paused {
            (v3, true)
        } else {
            ticks_spec(v3, rs)
        }
    }
}

/// A booted program starts at 0x0600: the reset vector points there, and each
/// byte of a program short enough to stay clear of the vector in the 2 KB of
/// RAM reads back at its address.
pub proof fn lemma_boot_starts_program(code: Seq<u8>)
    requires
        code.len() <= 64000,
    ensures
        reset_spec(fresh_cpu(), boot_bus(code)).pc == 0x0600,
        code.len() <= 0x1FC ==> forall|i: int|
            0 <= i < code.len() ==> #[trigger] boot_bus(code).read((0x0600 + i) as u16) == code[i],
{
    let b0 = BusView { ram: loaded_ram(code, 0x0600, code.len()), cart: None };
    lemma_loaded_ram_len(code, 0x0600, code.len());
    lemma_read_u16_after_write_u16(b0, 0xFFFC, 0x0600);
    if code.len() <= 0x1FC {
        assert forall|i: int| 0 <= i < code.len() implies #[trigger] boot_bus(code).read(
            (0x0600 + i) as u16,
        ) == code[i] by {
            let a = (0x0600 + i) as u16;
            lemma_load_reads_back(code, 0x0600, i);
            assert(((0x0600 + i) % 0x10000) as u16 == a);
            let b1 = b0.write(0xFFFC, 0x00);
            lemma_write_preserves_other(b0, 0xFFFC, 0x00, a);
            lemma_write_preserves_other(b1, 0xFFFD, 0x06, a);
        }
    }
}

impl Emulator {
    /// Writes the program from 0x0600, points the reset vector there and resets
    /// a fresh CPU.
    fn boot(code: &[u8]) -> (r: (Cpu, Bus))
        ensures
            r.1@ == boot_bus(code@),
            r.0 == reset_spec(fresh_cpu(), boot_bus(code@)),
    {
        let mut bus = Bus::load(code, PROGRAM_START);
        bus.write_u16(RESET_VECTOR, PROGRAM_START);
        let mut cpu = Cpu::new();
        cpu.reset(&mut bus);
        (cpu, bus)
    }

    /// The emulator running the sample program, 100 ticks per frame.
    pub fn new() -> (e: Self)
        ensures
            booted(e@, SAMPLE_PROGRAM@),
            !e.paused,
            e.cycles_per_frame == 100,
    {
        let game_code = default_game_code();
        let (cpu, bus) = Self::boot(game_code.as_slice());
        Emulator {
            cpu,
            bus,
            rng: thread_rng(),
            paused: false,
            cycles_per_frame: 100,
            total_ticks: 0,
            loaded_program: game_code,
        }
    }

    /// Reboots the loaded program and pauses.
    pub fn reset(&mut self)
        ensures
            booted(final(self)@, old(self).loaded_program@),
            final(self).paused,
            final(self).cycles_per_frame == old(self).cycles_per_frame,
    {
        let (cpu, bus) = Self::boot(self.loaded_program.as_slice());
        self.bus = bus;
        self.cpu = cpu;
        self.total_ticks = 0;
        self.paused = true;
    }

    /// Replaces the program and reboots it, paused.
    pub fn load_program(&mut self, code: Vec<u8>)
        ensures
            booted(final(self)@, code@),
            final(self).paused,
            final(self).cycles_per_frame == old(self).cycles_per_frame,
    {
        self.loaded_program = code;
        self.reset();
    }

    /// Parses a program written as hex text and, when it is valid, loads and
    /// reboots it, returning its length; otherwise nothing changes and the
    /// refusal is returned (see `is_refusal`).
    pub fn load_code_text(&mut self, text: &str) -> (r: Result<usize, ParseError>)
        ensures
            match text_bytes(text@) {
                Ok(bytes) if 0 < bytes.len() <= 64000 => {
                    &&& r == Ok::<usize, ParseError>(bytes.len() as usize)
                    &&& booted(final(self)@, bytes)
                    &&& final(self).paused
                    &&& final(self).cycles_per_frame == old(self).cycles_per_frame
                },
                _ => r matches Err(e) && is_refusal(text@, e) && *final(self) == *old(self),
            },
    {
        match parse_code(text) {
            Ok(code) => {
                let len = code.len();
                self.load_program(code);
                Ok(len)
            },
            Err(e) => Err(e),
        }
    }

    /// One tick with a given random byte (see `tick_spec`).
    pub fn tick(&mut self, random: u8) -> (ok: bool)
        ensures
            (final(self)@, ok) == tick_spec(old(self)@, random),
    {
        self.bus.write(0xFE, random);
        if self.total_ticks < u64::MAX && self.cpu.can_clock(&self.bus) {
            self.cpu.clock(&mut self.bus);
            self.total_ticks = self.total_ticks + 1;
            true
        } else {
            false
        }
    }

    /// One tick: a random byte in 1..16 is written to 0xFE for the program to
    /// read, then the CPU clocks once. Returns false, with the CPU untouched,
    /// when the clock cannot run (an RTS would return to 0x10000) or the tick
    /// counter is full.
    pub fn clock(&mut self) -> (ok: bool)
        ensures
            exists|r: u8| 1 <= r < 16 && (final(self)@, ok) == #[trigger] tick_spec(old(self)@, r),
    {
        let random = random_in(&mut self.rng, 1, 16);
        assert(self@ == old(self)@);
        let ok = self.tick(random);
        assert((self@, ok) == tick_spec(old(self)@, random));
        ok
    }

    /// Runs one frame: `cycles_per_frame` ticks, stopping at the first tick
    /// that cannot run (then false).
    pub fn run_frame(&mut self) -> (ok: bool)
        ensures
            exists|rs: Seq<u8>|
                {
                    &&& random_bytes(rs)
                    &&& rs.len() <= old(self).cycles_per_frame
                    &&& (ok ==> rs.len() == old(self).cycles_per_frame)
                    &&& (final(self)@, ok) == #[trigger] ticks_spec(old(self)@, rs)
                },
            ok ==> final(self).total_ticks == old(self).total_ticks + old(self).cycles_per_frame,
            final(self).paused == old(self).paused,
            final(self).cycles_per_frame == old(self).cycles_per_frame,
            final(self).loaded_program@ == old(self).loaded_program@,
    {
        let n = self.cycles_per_frame;
        let mut i: u32 = 0;
        let ghost mut rs: Seq<u8> = Seq::empty();
        while i < n
            invariant
                i <= n,
                n == old(self).cycles_per_frame,
                rs.len() == i,
                random_bytes(rs),
                ticks_spec(old(self)@, rs) == (self@, true),
            decreases n - i,
        {
            let ghost before = self@;
            let ok = self.clock();
            let ghost r = choose|r: u8| 1 <= r < 16 && (self@, ok) == tick_spec(before, r);
            proof {
                assert(rs.push(r).drop_last() =~= rs);
                rs = rs.push(r);
            }
            if !ok {
                assert(ticks_spec(old(self)@, rs) == (self@, false));
                proof {
                    lemma_ticks_count(old(self)@, rs);
                }
                return false;
            }
            i = i + 1;
        }
        proof {
            lemma_ticks_count(old(self)@, rs);
        }
        true
    }

    /// Handles one displayed frame (see `frame_spec`).
    pub fn update(&mut self, toggle_pause: bool, step: bool, key: Option<Direction>) -> (ok: bool)
        ensures
            exists|r: u8, rs: Seq<u8>|
                {
                    &&& 1 <= r < 16
                    &&& random_bytes(rs)
                    &&& rs.len() <= old(self).cycles_per_frame
                    &&& (final(self)@, ok) == #[trigger] frame_spec(
                        old(self)@,
                        toggle_pause,
                        step,
                        key,
                        r,
                        rs,
                    )
                    &&& (ok && !final(self).paused ==> rs.len() == old(self).cycles_per_frame)
                },
    {
        let ghost v0 = self@;
        if toggle_pause {
            self.paused = !self.paused;
        }
        let ghost v1 = self@;
        let ghost mut r: u8 = 1;
        if step && self.paused {
            let stepped = self.clock();
            proof {
                r = choose|x: u8| 1 <= x < 16 && (self@, stepped) == tick_spec(v1, x);
            }
            if !stepped {
                assert((self@, false) == frame_spec(v0, toggle_pause, step, key, r, Seq::empty()));
                return false;
            }
        }
        let ghost v2 = self@;
        match key {
            Some(d) => self.bus.write(0xFF, d.code()),
            None => {},
        }
        let ghost v3 = self@;
        if !self.paused {
            let ok = self.run_frame();
            let ghost rs = choose|rs: Seq<u8>|
                {
                    &&& random_bytes(rs)
                    &&& rs.len() <= v3.cycles_per_frame
                    &&& (ok ==> rs.len() == v3.cycles_per_frame)
                    &&& (self@, ok) == #[trigger] ticks_spec(v3, rs)
                };
            assert((self@, ok) == frame_spec(v0, toggle_pause, step, key, r, rs));
            return ok;
        }
        assert((self@, true) == frame_spec(v0, toggle_pause, step, key, r, Seq::empty()));
        true
    }

    /// The RGB image of the screen memory.
    pub fn pixel_buffer(&self) -> (pixels: Vec<u8>)
        ensures
            pixels@ == screen_image(self.bus@),
    {
        pixel_buffer(&self.bus)
    }
}

} // verus!
