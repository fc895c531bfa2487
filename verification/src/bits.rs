use vstd::prelude::*;

verus! {

// ---------------------------------------------------------------------------
// Bit-level facts that connect the shifts, masks and casts of the executable
// code with the arithmetic of the specifications.
// ---------------------------------------------------------------------------

/// Facts about the bits of a byte.
pub proof fn lemma_byte_bits(v: u8)
    by (bit_vector)
    ensures
        ((v as i8) < 0) == (v >= 0x80),
        (v & 0x80 > 0) == (v >= 0x80),
        (v & 0x40 > 0) == ((v / 64) % 2 == 1),
        (v & 0x08 != 0) == ((v / 8) % 2 == 1),
        (v & 0x04 != 0) == ((v / 4) % 2 == 1),
        (v & 0x01 > 0) == (v % 2 == 1),
        (v & 0x01 != 0) == (v % 2 == 1),
        v >> 4 == v / 16,
        v & 0x0F == v % 16,
        v ^ 0xff == 255 - v,
        v as i8 as u16 == if v >= 0x80 {
            (v as u16 + 0xFF00) as u16
        } else {
            v as u16
        },
{
}

/// Facts about the bits of a 16-bit word.
pub proof fn lemma_word_bits(w: u16)
    by (bit_vector)
    ensures
        (w >> 8) as u8 == w / 256,
        w as u8 == w % 256,
        (w & 0xFF) as u8 == w % 256,
        w & 0x00FF == w % 256,
        w & 0x07FF == w % 2048,
        w & 0x3FFF == w % 0x4000,
        w & 0x7FFF == w % 0x8000,
        w & 0xFF00 == (w / 256) * 256,
{
}

/// Joining a high and a low byte into a word.
pub proof fn lemma_join_bytes(lo: u16, hi: u16)
    by (bit_vector)
    requires
        lo < 256,
        hi < 256,
    ensures
        (hi << 8) | lo == hi * 256 + lo,
        lo | (hi << 8) == hi * 256 + lo,
{
}

/// Two addresses lie in the same page exactly when their high bytes agree.
pub proof fn lemma_page_bits(a: u16, b: u16)
    by (bit_vector)
    ensures
        ((a & 0xFF00) != (b & 0xFF00)) == (a / 256 != b / 256),
{
}

/// Shifting a byte left by one.
pub proof fn lemma_shl_bits(v: u8, r: u8)
    by (bit_vector)
    requires
        r == v << 1,
    ensures
        r as u16 == (v as u16 * 2) % 256,
{
}

/// Shifting a byte right by one.
pub proof fn lemma_shr_bits(v: u8, r: u8)
    by (bit_vector)
    requires
        r == v >> 1,
    ensures
        r == v / 2,
{
}

/// Rotating left through a carry bit.
pub proof fn lemma_rol_bits(v: u8, c: u8, r: u8)
    by (bit_vector)
    requires
        c <= 1,
        r == (v << 1) | c,
    ensures
        r as u16 == (v as u16 * 2) % 256 + c as u16,
{
}

/// Rotating right through a carry bit.
pub proof fn lemma_ror_bits(v: u8, c: u8, r: u8)
    by (bit_vector)
    requires
        c <= 1,
        r == (v >> 1) | (c << 7),
    ensures
        r as u16 == v as u16 / 2 + 128 * c as u16,
{
}

} // verus!
