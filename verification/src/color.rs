//! 15-bit BGR555 colour words (CGB palette RAM, SGB palette commands) expanded
//! to XRGB8888 by the straight 5→8 bit fill `(c << 3) | (c >> 2)`, with no
//! colour correction.
use vstd::prelude::*;

verus! {

/// A 5-bit channel widened to 8 bits: `(c << 3) | (c >> 2)`, which for
/// `c < 32` is `8c + c/4`.
pub open spec fn expand5(c: int) -> int {
    c * 8 + c / 4
}

/// The packed BGR555 word of a little-endian byte pair.
pub open spec fn bgr555_raw(lo: u8, hi: u8) -> int {
    lo + hi * 256
}

/// XRGB8888 of a BGR555 word: red from bits 0-4, green 5-9, blue 10-14 (bit 15
/// ignored).
pub open spec fn spec_bgr555_word(raw: int) -> u32 {
    (expand5(raw % 32) * 65536 + expand5((raw / 32) % 32) * 256 + expand5((raw / 1024) % 32)) as u32
}

/// XRGB8888 of a little-endian BGR555 byte pair.
pub open spec fn spec_bgr555(lo: u8, hi: u8) -> u32 {
    spec_bgr555_word(bgr555_raw(lo, hi))
}

/// A little-endian BGR555 colour (Pan Docs "SGB Palette Commands") expanded to
/// XRGB8888, identical to the CGB palette-RAM channel expansion.
pub fn bgr555(lo: u8, hi: u8) -> (r: u32)
    ensures
        r == spec_bgr555(lo, hi),
        r <= 0xFF_FFFF,
{
    let raw: u32 = lo as u32 + (hi as u32) * 256;
    let r5: u32 = raw % 32;
    let g5: u32 = (raw / 32) % 32;
    let b5: u32 = (raw / 1024) % 32;
    let r8: u32 = r5 * 8 + r5 / 4;
    let g8: u32 = g5 * 8 + g5 / 4;
    let b8: u32 = b5 * 8 + b5 / 4;
    r8 * 65536 + g8 * 256 + b8
}

/// A packed BGR555 `u16` word expanded to XRGB8888 (the same fill as
/// [`bgr555`], from a word rather than two bytes).
pub fn bgr555_word(w: u16) -> (r: u32)
    ensures
        r == spec_bgr555_word(w as int),
{
    let lo = (w % 256) as u8;
    let hi = (w / 256) as u8;
    let r = bgr555(lo, hi);
    assert(bgr555_raw(lo, hi) == w as int);
    r
}

/// The documented ROM header title checksum: the 8-bit (wrapping) sum of the
/// title bytes.
pub open spec fn spec_title_sum(t: Seq<u8>) -> int
    decreases t.len(),
{
    if t.len() == 0 {
        0
    } else {
        spec_title_sum(t.drop_last()) + t.last()
    }
}

/// The 8-bit sum of the title bytes (the CGB boot ROM / SGB firmware hash).
pub fn title_checksum(title: &[u8]) -> (r: u8)
    ensures
        r as int == spec_title_sum(title@) % 256,
{
    let mut acc: u8 = 0;
    let mut i: usize = 0;
    while i < title.len()
        invariant
            0 <= i <= title.len(),
            acc as int == spec_title_sum(title@.subrange(0, i as int)) % 256,
        decreases title.len() - i,
    {
        let ghost prev = title@.subrange(0, i as int);
        assert(title@.subrange(0, i as int + 1).drop_last() =~= prev);
        acc = acc.wrapping_add(title[i]);
        i += 1;
    }
    assert(title@.subrange(0, i as int) =~= title@);
    acc
}

} // verus!
