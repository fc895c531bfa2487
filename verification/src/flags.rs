use vstd::prelude::*;

verus! {

/// The eight bits of the 6502 status register.
#[derive(Clone, Copy, Debug, PartialEq, Eq, Structural)]
pub enum Flag {
    /// Carry
    C,
    /// Zero
    Z,
    /// Interrupt disable
    I,
    /// Decimal (unused on the NES)
    D,
    /// Break
    B,
    /// Unused, always read as set
    U,
    /// Overflow
    V,
    /// Negative
    N,
}

impl Flag {
    /// The bit of the status register that holds this flag.
    pub open spec fn spec_mask(self) -> u8 {
        match self {
            Flag::C => 0x01,
            Flag::Z => 0x02,
            Flag::I => 0x04,
            Flag::D => 0x08,
            Flag::B => 0x10,
            Flag::U => 0x20,
            Flag::V => 0x40,
            Flag::N => 0x80,
        }
    }

    /// The bit mask of this flag in the status byte.
    #[verifier::when_used_as_spec(spec_mask)]
    pub fn mask(self) -> (m: u8)
        ensures
            m == self.spec_mask(),
    {
        match self {
            Flag::C => 0x01,
            Flag::Z => 0x02,
            Flag::I => 0x04,
            Flag::D => 0x08,
            Flag::B => 0x10,
            Flag::U => 0x20,
            Flag::V => 0x40,
            Flag::N => 0x80,
        }
    }
}


/// Whether flag `f` is set in a status byte.
pub open spec fn flag(status: u8, f: Flag) -> bool {
    status & f.spec_mask() != 0
}

/// The status byte with flag `f` set to `v` and every other bit kept.
pub open spec fn with_flag(status: u8, f: Flag, v: bool) -> u8 {
    if v {
        status | f.spec_mask()
    } else {
        status & !f.spec_mask()
    }
}

/// The status byte with Z and N describing `value`: Z when it is zero,
/// N when its bit 7 (the sign bit) is set.
pub open spec fn with_nz(status: u8, value: u8) -> u8 {
    with_flag(with_flag(status, Flag::Z, value == 0), Flag::N, value >= 0x80)
}

/// The carry flag as a number, 0 or 1.
pub open spec fn carry(status: u8) -> int {
    if flag(status, Flag::C) {
        1
    } else {
        0
    }
}

/// A byte read as a two's-complement signed number.
pub open spec fn signed(v: u8) -> int {
    if v >= 0x80 {
        v as int - 256
    } else {
        v as int
    }
}

proof fn lemma_single_bits(m1: u8, m2: u8, s: u8)
    by (bit_vector)
    requires
        m1 == 1 || m1 == 2 || m1 == 4 || m1 == 8 || m1 == 16 || m1 == 32 || m1 == 64 || m1 == 128,
        m2 == 1 || m2 == 2 || m2 == 4 || m2 == 8 || m2 == 16 || m2 == 32 || m2 == 64 || m2 == 128,
    ensures
        (s | m1) & m1 != 0,
        (s & !m1) & m1 == 0,
        m1 != m2 ==> (((s | m1) & m2 != 0) == (s & m2 != 0)),
        m1 != m2 ==> (((s & !m1) & m2 != 0) == (s & m2 != 0)),
{
}

proof fn lemma_single_bit_noop(m: u8, s: u8)
    by (bit_vector)
    requires
        m == 1 || m == 2 || m == 4 || m == 8 || m == 16 || m == 32 || m == 64 || m == 128,
    ensures
        s & m != 0 ==> s | m == s,
        s & m == 0 ==> s & !m == s,
{
}

/// Setting a flag to the value it already has changes nothing.
pub proof fn lemma_set_flag_unchanged(status: u8, f: Flag, v: bool)
    requires
        flag(status, f) == v,
    ensures
        with_flag(status, f, v) == status,
{
    lemma_single_bit_noop(f.spec_mask(), status);
}

/// Reading a flag right after setting it gives the value it was set to.
pub proof fn lemma_flag_after_set(status: u8, f: Flag, v: bool)
    ensures
        flag(with_flag(status, f, v), f) == v,
{
    lemma_single_bits(f.spec_mask(), f.spec_mask(), status);
}

/// Setting one flag leaves every other flag as it was.
pub proof fn lemma_other_flags_kept(status: u8, f: Flag, g: Flag, v: bool)
    requires
        f != g,
    ensures
        flag(with_flag(status, f, v), g) == flag(status, g),
{
    lemma_single_bits(f.spec_mask(), g.spec_mask(), status);
}

/// A status byte is determined by its eight flags.
pub proof fn lemma_status_from_flags(s1: u8, s2: u8)
    requires
        forall|f: Flag| flag(s1, f) == flag(s2, f),
    ensures
        s1 == s2,
{
    assert(flag(s1, Flag::C) == flag(s2, Flag::C));
    assert(flag(s1, Flag::Z) == flag(s2, Flag::Z));
    assert(flag(s1, Flag::I) == flag(s2, Flag::I));
    assert(flag(s1, Flag::D) == flag(s2, Flag::D));
    assert(flag(s1, Flag::B) == flag(s2, Flag::B));
    assert(flag(s1, Flag::U) == flag(s2, Flag::U));
    assert(flag(s1, Flag::V) == flag(s2, Flag::V));
    assert(flag(s1, Flag::N) == flag(s2, Flag::N));
    assert(s1 == s2) by (bit_vector)
        requires
            (s1 & 1 != 0) == (s2 & 1 != 0),
            (s1 & 2 != 0) == (s2 & 2 != 0),
            (s1 & 4 != 0) == (s2 & 4 != 0),
            (s1 & 8 != 0) == (s2 & 8 != 0),
            (s1 & 16 != 0) == (s2 & 16 != 0),
            (s1 & 32 != 0) == (s2 & 32 != 0),
            (s1 & 64 != 0) == (s2 & 64 != 0),
            (s1 & 128 != 0) == (s2 & 128 != 0),
    ;
}

} // verus!
