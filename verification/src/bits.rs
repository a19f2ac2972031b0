//! Byte-level bit facts: each mask and shift the register logic uses, restated
//! in the division/remainder form the contracts are written in.
use vstd::prelude::*;

verus! {

/// Every single-bit mask, low-bit field and shift of a byte, as arithmetic.
pub proof fn lemma_u8_bits(b: u8)
    by (bit_vector)
    ensures
        b & 1 == b % 2,
        (b & 1 != 0) == (b % 2 == 1),
        (b & 2 != 0) == ((b / 2) % 2 == 1),
        (b & 4 != 0) == ((b / 4) % 2 == 1),
        (b & 8 != 0) == ((b / 8) % 2 == 1),
        (b & 0x10 != 0) == ((b / 16) % 2 == 1),
        (b & 0x20 != 0) == ((b / 32) % 2 == 1),
        (b & 0x40 != 0) == ((b / 64) % 2 == 1),
        (b & 0x80 != 0) == (b >= 128),
        b & 3 == b % 4,
        b & 7 == b % 8,
        b & 0x1F == b % 32,
        b & 0x3F == b % 64,
        b & 0xBF == b - (if (b / 64) % 2 == 1 { 64u8 } else { 0u8 }),
        b >> 1 == b / 2,
        b >> 2 == b / 4,
        b >> 3 == b / 8,
        b >> 4 == b / 16,
        b >> 5 == b / 32,
        b >> 6 == b / 64,
        b >> 7 == b / 128,
        (b >> 2) & 3 == (b / 4) % 4,
        (b >> 4) & 3 == (b / 16) % 4,
        (b >> 5) & 3 == (b / 32) % 4,
        (b >> 4) & 1 == (b / 16) % 2,
{
}

/// A shifted-out bit of a byte is 0 or 1.
pub proof fn lemma_bit_le1(v: u8, b: u8)
    by (bit_vector)
    ensures
        (v >> b) & 1 <= 1,
{
}

/// Raising the STAT bit (2) in an IF accumulator (0-3) sets it and keeps
/// the VBlank bit.
pub proof fn lemma_or_stat(a: u8)
    by (bit_vector)
    requires
        a < 4,
    ensures
        a | 2 < 4,
        (a | 2) & 2 != 0,
        (a | 2) & 1 == a & 1,
{
}

/// Raising the VBlank bit (1) in an IF accumulator (0-3) sets it and keeps
/// the STAT bit.
pub proof fn lemma_or_vblank(a: u8)
    by (bit_vector)
    requires
        a < 4,
    ensures
        a | 1 < 4,
        (a | 1) & 1 != 0,
        (a | 1) & 2 == a & 2,
{
}

} // verus!
