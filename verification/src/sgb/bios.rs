//! The user-supplied SGB firmware seam: install the firmware's default border
//! payload and its title→palette table. Nothing firmware-derived ships with
//! the library; absent a payload the built-in default border and the neutral
//! DMG palette stand.
use vstd::prelude::*;
use super::transfer::splice;
use super::SgbView;
use crate::color::{bgr555_word, spec_bgr555_word, spec_title_sum, title_checksum};

verus! {

impl SgbView {
    /// Install a border payload: `chr0`/`chr1` are the two 4096-byte SNES 4bpp
    /// tile banks (`chr1` may be empty), `pct` the 2176-byte tilemap + border
    /// palettes. Mis-sized payloads are rejected (returns `false`, nothing
    /// changes); an accepted one marks the border ready and starts a
    /// cross-fade.
    pub fn install_border(&mut self, chr0: &[u8], chr1: &[u8], pct: &[u8]) -> (r: bool)
        requires
            old(self).wf(),
        ensures
            final(self).wf(),
            r == (chr0@.len() == 4096 && pct@.len() == 2176 && (chr1@.len() == 0 || chr1@.len() == 4096)),
            !r ==> *final(self) == *old(self),
            r ==> final(self).has_chr && final(self).has_pct && final(self).fade_pending
                && final(self).border_raw@ == pct@
                && final(self).border_tiles@.subrange(0, 4096) == chr0@
                && (chr1@.len() == 4096 ==> final(self).border_tiles@.subrange(4096, 8192) == chr1@)
                && (chr1@.len() == 0 ==> final(self).border_tiles@.subrange(4096, 8192) == old(self).border_tiles@.subrange(4096, 8192)),
    {
        if chr0.len() != 4096 || pct.len() != 2176 || (chr1.len() != 0 && chr1.len() != 4096) {
            return false;
        }
        let c0 = slice_to_vec(chr0);
        splice(&mut self.border_tiles, 0, &c0);
        if chr1.len() == 4096 {
            let c1 = slice_to_vec(chr1);
            splice(&mut self.border_tiles, 4096, &c1);
        }
        self.border_raw = slice_to_vec(pct);
        self.has_chr = true;
        self.has_pct = true;
        self.fade_pending = true;
        assert(self.border_tiles@.subrange(0, 4096) =~= chr0@);
        if chr1.len() == 4096 {
            assert(self.border_tiles@.subrange(4096, 8192) =~= chr1@);
        } else {
            assert(self.border_tiles@.subrange(4096, 8192) =~= old(self).border_tiles@.subrange(4096, 8192));
        }
        true
    }

    /// Install a title palette: entry `checksum(title) % table.len()` (four
    /// BGR555 words) becomes all four SGB palettes. An empty table is a no-op.
    pub fn apply_title_palette(&mut self, title: &[u8], table: &[[u16; 4]])
        requires
            old(self).wf(),
        ensures
            final(self).wf(),
            table@.len() == 0 ==> *final(self) == *old(self),
            table@.len() > 0 ==> forall|i: int|
                0 <= i < 16 ==> #[trigger] final(self).pal@[i] == spec_bgr555_word(
                    table@[(spec_title_sum(title@) % 256) % table@.len() as int]@[i % 4] as int,
                ),
            table@.len() > 0 ==> *final(self) == (SgbView { pal: final(self).pal, ..*old(self) }),
    {
        if table.len() == 0 {
            return;
        }
        let sum = title_checksum(title);
        let entry = table[sum as usize % table.len()];
        let mut i: usize = 0;
        while i < 16
            invariant
                0 <= i <= 16,
                self.wf(),
                *self == (SgbView { pal: self.pal, ..*old(self) }),
                table@.len() > 0,
                entry == table@[(spec_title_sum(title@) % 256) % table@.len() as int],
                forall|k: int| 0 <= k < i ==> #[trigger] self.pal@[k] == spec_bgr555_word(entry@[k % 4] as int),
            decreases 16 - i,
        {
            let c = bgr555_word(entry[i % 4]);
            self.pal.set(i, c);
            i += 1;
        }
    }
}

/// An owned copy of a byte slice.
pub fn slice_to_vec(s: &[u8]) -> (v: Vec<u8>)
    ensures
        v@ == s@,
{
    let mut v: Vec<u8> = Vec::with_capacity(s.len());
    let mut i: usize = 0;
    while i < s.len()
        invariant
            0 <= i <= s@.len(),
            v@ == s@.subrange(0, i as int),
        decreases s@.len() - i,
    {
        v.push(s[i]);
        assert(v@ =~= s@.subrange(0, i as int + 1));
        i += 1;
    }
    assert(v@ =~= s@);
    v
}

} // verus!
