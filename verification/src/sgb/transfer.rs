//! SGB VRAM transfers: the `*_TRN` commands capture the rendered Game Boy
//! screen (never VRAM) and read its 2-bit shades as 2bpp tile data — 4096
//! bytes per full-screen capture (Pan Docs "SGB Functions — VRAM Transfer").
//! A command latches a destination; the capture happens one SNES frame later.
use vstd::prelude::*;
use super::{
    SgbFlags, SgbSound, SgbView, TRN_CAPTURE_DELAY, TR_ATTR, TR_CHR0, TR_CHR1, TR_DATA, TR_OBJ,
    TR_PAL, TR_PCT, TR_SOU,
};
use crate::SCREEN_PIXELS;

verus! {

/// Bit `plane` (0 low, 1 high) of a 2-bit shade.
pub open spec fn shade_bit(px: u8, plane: int) -> int {
    if plane == 0 {
        ((px % 4) % 2) as int
    } else {
        ((px % 4) / 2) as int
    }
}

/// The first `n` pixels from `idx` packed MSB-first into one bitplane byte.
pub open spec fn plane_bits(s: Seq<u8>, idx: int, plane: int, n: int) -> int
    decreases n,
{
    if n <= 0 {
        0
    } else {
        2 * plane_bits(s, idx, plane, n - 1) + shade_bit(s[idx + n - 1], plane)
    }
}

/// Byte `k` of the captured screen read as 2bpp tiles on a 20-tile-wide grid:
/// tile `k / 16`, row `(k % 16) / 2`, plane `k % 2`.
pub open spec fn decoded(s: Seq<u8>, k: int) -> u8 {
    let t = k / 16;
    let y = (k % 16) / 2;
    let idx = (8 * (t / 20) + y) * 160 + 8 * (t % 20);
    plane_bits(s, idx, k % 2, 8) as u8
}

/// A packed bitplane fits in a byte.
pub proof fn lemma_plane_bits_bound(s: Seq<u8>, idx: int, plane: int, n: int)
    requires
        0 <= n <= 8,
    ensures
        0 <= plane_bits(s, idx, plane, n) < pow2_int(n),
    decreases n,
{
    if n > 0 {
        lemma_plane_bits_bound(s, idx, plane, n - 1);
    }
}

/// 2 to the power `n`.
pub open spec fn pow2_int(n: int) -> int
    decreases n,
{
    if n <= 0 {
        1
    } else {
        2 * pow2_int(n - 1)
    }
}

/// Powers of two up to the eighth stay at most 256.
pub proof fn lemma_pow2_le(n: int)
    requires
        0 <= n <= 8,
    ensures
        pow2_int(n) <= 256,
        pow2_int(n + 1) == 2 * pow2_int(n),
{
    reveal_with_fuel(pow2_int, 9);
}

/// Pack one 8-pixel row of shades starting at `idx` into its two bitplanes.
fn pack_row(shade: &Vec<u8>, idx: usize) -> (r: (u8, u8))
    requires
        idx + 8 <= shade@.len(),
    ensures
        r.0 as int == plane_bits(shade@, idx as int, 0, 8),
        r.1 as int == plane_bits(shade@, idx as int, 1, 8),
{
    let mut lo: u32 = 0;
    let mut hi: u32 = 0;
    let mut x: usize = 0;
    while x < 8
        invariant
            0 <= x <= 8,
            idx + 8 <= shade.len(),
            lo as int == plane_bits(shade@, idx as int, 0, x as int),
            hi as int == plane_bits(shade@, idx as int, 1, x as int),
            lo < pow2_int(x as int),
            hi < pow2_int(x as int),
        decreases 8 - x,
    {
        proof {
            lemma_plane_bits_bound(shade@, idx as int, 0, x as int);
            lemma_plane_bits_bound(shade@, idx as int, 1, x as int);
            lemma_pow2_le(x as int);
        }
        let px = shade[idx + x] % 4;
        lo = lo * 2 + (px % 2) as u32;
        hi = hi * 2 + (px / 2) as u32;
        x += 1;
    }
    assert(pow2_int(8) == 256) by {
        reveal_with_fuel(pow2_int, 9);
    }
    (lo as u8, hi as u8)
}

/// Decode `n_tiles` 8×8 tiles of the captured screen into `n_tiles * 16`
/// bytes of 2bpp tile data (each tile row → low then high bitplane, x = 0 in
/// bit 7).
pub fn decode_tiles(shade: &Vec<u8>, n_tiles: usize) -> (out: Vec<u8>)
    requires
        shade@.len() == SCREEN_PIXELS,
        n_tiles <= 360,
    ensures
        out@.len() == 16 * n_tiles,
        forall|k: int| 0 <= k < 16 * n_tiles ==> #[trigger] out@[k] == decoded(shade@, k),
{
    let mut out: Vec<u8> = Vec::new();
    let mut tile: usize = 0;
    while tile < n_tiles
        invariant
            0 <= tile <= n_tiles <= 360,
            shade@.len() == SCREEN_PIXELS,
            out@.len() == 16 * tile,
            forall|k: int| 0 <= k < 16 * tile ==> #[trigger] out@[k] == decoded(shade@, k),
        decreases n_tiles - tile,
    {
        let tx = (tile % 20) * 8;
        let ty = (tile / 20) * 8;
        let mut y: usize = 0;
        while y < 8
            invariant
                0 <= y <= 8,
                tile < n_tiles <= 360,
                tx == (tile % 20) * 8,
                ty == (tile / 20) * 8,
                shade@.len() == SCREEN_PIXELS,
                out@.len() == 16 * tile + 2 * y,
                forall|k: int| 0 <= k < 16 * tile + 2 * y ==> #[trigger] out@[k] == decoded(shade@, k),
            decreases 8 - y,
        {
            let idx = (ty + y) * 160 + tx;
            let (lo, hi) = pack_row(shade, idx);
            let ghost k0 = 16 * tile + 2 * y;
            assert(k0 / 16 == tile && (k0 % 16) / 2 == y && k0 % 2 == 0);
            assert((k0 + 1) / 16 == tile && ((k0 + 1) % 16) / 2 == y && (k0 + 1) % 2 == 1);
            out.push(lo);
            out.push(hi);
            y += 1;
        }
        tile += 1;
    }
    out
}

/// The first 4096 decoded bytes of a capture, as an owned payload.
pub fn capture4096(shade: &Vec<u8>) -> (r: Vec<u8>)
    requires
        shade@.len() == SCREEN_PIXELS,
    ensures
        r@.len() == 4096,
        forall|k: int| 0 <= k < 4096 ==> #[trigger] r@[k] == decoded(shade@, k),
{
    decode_tiles(shade, 256)
}

/// Overwrite `dst[at..at + src.len()]` with `src`.
pub fn splice(dst: &mut Vec<u8>, at: usize, src: &Vec<u8>)
    requires
        at + src@.len() <= old(dst)@.len(),
    ensures
        final(dst)@.len() == old(dst)@.len(),
        forall|j: int| 0 <= j < final(dst)@.len() ==> #[trigger] final(dst)@[j] == if at <= j < at + src@.len() {
            src@[j - at]
        } else {
            old(dst)@[j]
        },
{
    let mut k: usize = 0;
    while k < src.len()
        invariant
            0 <= k <= src@.len(),
            at + src@.len() <= dst.len(),
            dst@.len() == old(dst)@.len(),
            forall|j: int| 0 <= j < dst@.len() ==> #[trigger] dst@[j] == if at <= j < at + k {
                src@[j - at]
            } else {
                old(dst)@[j]
            },
        decreases src@.len() - k,
    {
        dst.set(at + k, src[k]);
        k += 1;
    }
}

/// A `*_TRN` capture consumed (see [`SgbView::run_pending_transfer`]): the
/// destination named by `o.pending_transfer` holds the decoded screen, the
/// pending slot is empty, and every other field is kept.
pub open spec fn spec_transfer_done(o: SgbView, n: SgbView) -> bool {
    &&& (n.pending_transfer is None)
    &&& (n.trn_countdown == o.trn_countdown)
    &&& (n.pal@ == o.pal@)
    &&& (n.attr@ == o.attr@)
    &&& (n.mask == o.mask)
    &&& (n.sound_events@ == o.sound_events@)
    &&& (n.shade_buf@ == o.shade_buf@)
    &&& (o.pending_transfer == Some(TR_PAL) ==> forall|k: int| 0 <= k < 4096 ==> #[trigger] n.ram_palettes@[k] == decoded(o.shade_buf@, k))
    &&& (o.pending_transfer == Some(TR_ATTR) ==> forall|k: int| 0 <= k < 4050 ==> #[trigger] n.attr_files@[k] == decoded(o.shade_buf@, k))
    &&& (o.pending_transfer == Some(TR_CHR0) ==> n.has_chr && n.fade_pending && forall|k: int| 0 <= k < 4096 ==> #[trigger] n.border_tiles@[k] == decoded(o.shade_buf@, k))
    &&& (o.pending_transfer == Some(TR_CHR1) ==> n.has_chr && n.fade_pending && forall|k: int| 0 <= k < 4096 ==> #[trigger] n.border_tiles@[4096 + k] == decoded(o.shade_buf@, k))
    &&& (o.pending_transfer == Some(TR_PCT) ==> n.has_pct && n.fade_pending && forall|k: int| 0 <= k < 2176 ==> #[trigger] n.border_raw@[k] == decoded(o.shade_buf@, k))
    &&& (o.pending_transfer == Some(TR_DATA) ==> n.data_trn is Some && forall|k: int| 0 <= k < 4096 ==> #[trigger] n.data_trn->Some_0@[k] == decoded(o.shade_buf@, k))
    &&& (o.pending_transfer == Some(TR_SOU) ==> n.sou_trn is Some && forall|k: int| 0 <= k < 4096 ==> #[trigger] n.sou_trn->Some_0@[k] == decoded(o.shade_buf@, k))
    &&& (o.pending_transfer == Some(TR_OBJ) ==> n.obj_data is Some && forall|k: int| 0 <= k < 4096 ==> #[trigger] n.obj_data->Some_0@[k] == decoded(o.shade_buf@, k))
    &&& (o.pending_transfer is None ==> n == o)
    &&& (n == SgbView {
        pending_transfer: None,
        ram_palettes: n.ram_palettes,
        attr_files: n.attr_files,
        border_tiles: n.border_tiles,
        border_raw: n.border_raw,
        has_chr: n.has_chr,
        has_pct: n.has_pct,
        fade_pending: n.fade_pending,
        obj_data: n.obj_data,
        sou_trn: n.sou_trn,
        data_trn: n.data_trn,
        ..o
    })
    &&& (o.pending_transfer != Some(TR_PAL) ==> n.ram_palettes == o.ram_palettes)
    &&& (o.pending_transfer != Some(TR_ATTR) ==> n.attr_files == o.attr_files)
    &&& (o.pending_transfer != Some(TR_CHR0) && o.pending_transfer != Some(TR_CHR1) ==> n.border_tiles
        == o.border_tiles && n.has_chr == o.has_chr)
    &&& (o.pending_transfer != Some(TR_PCT) ==> n.border_raw == o.border_raw && n.has_pct == o.has_pct)
    &&& (o.pending_transfer != Some(TR_CHR0) && o.pending_transfer != Some(TR_CHR1) && o.pending_transfer
        != Some(TR_PCT) ==> n.fade_pending == o.fade_pending)
    &&& (o.pending_transfer != Some(TR_DATA) ==> n.data_trn == o.data_trn)
    &&& (o.pending_transfer != Some(TR_SOU) ==> n.sou_trn == o.sou_trn)
    &&& (o.pending_transfer != Some(TR_OBJ) ==> n.obj_data == o.obj_data)
}

impl SgbView {
    /// Latch a `*_TRN` destination and open its capture window: the screen is
    /// captured [`TRN_CAPTURE_DELAY`] cycles later by [`Self::tick_trn`]. A
    /// second command inside an open window consumes the pending capture
    /// first.
    pub fn latch_transfer(&mut self, dest: u8)
        requires
            old(self).wf(),
        ensures
            final(self).wf(),
            final(self).pending_transfer == Some(dest),
            final(self).trn_countdown == TRN_CAPTURE_DELAY,
            final(self).pal@ == old(self).pal@,
            final(self).attr@ == old(self).attr@,
            final(self).mask == old(self).mask,
            final(self).sound_events@ == old(self).sound_events@,
            final(self).shade_buf@ == old(self).shade_buf@,
    {
        if self.pending_transfer.is_some() {
            self.run_pending_transfer();
        }
        self.pending_transfer = Some(dest);
        self.trn_countdown = TRN_CAPTURE_DELAY;
    }

    /// Advance the `*_TRN` capture clock by `cycles`; an expiring window
    /// captures the screen.
    pub fn tick_trn(&mut self, cycles: u32)
        requires
            old(self).wf(),
        ensures
            final(self).wf(),
            old(self).trn_countdown == 0 ==> *final(self) == *old(self),
            old(self).trn_countdown > cycles ==> final(self).trn_countdown == old(self).trn_countdown - cycles
                && final(self).pending_transfer == old(self).pending_transfer,
            old(self).trn_countdown > 0 && old(self).trn_countdown <= cycles ==> final(self).trn_countdown == 0
                && final(self).pending_transfer is None,
            old(self).trn_countdown > 0 && old(self).trn_countdown <= cycles ==> spec_transfer_done(
                SgbView { trn_countdown: 0, ..*old(self) },
                *final(self),
            ),
            old(self).trn_countdown > cycles ==> *final(self) == (SgbView {
                trn_countdown: final(self).trn_countdown,
                ..*old(self)
            }),
    {
        if self.trn_countdown > 0 {
            self.trn_countdown = self.trn_countdown.saturating_sub(cycles);
            if self.trn_countdown == 0 {
                self.run_pending_transfer();
            }
        }
    }

    /// Consume a pending `*_TRN`: decode the captured screen and route it
    /// into the destination buffer. A no-op when nothing is pending.
    pub fn run_pending_transfer(&mut self)
        requires
            old(self).wf(),
        ensures
            final(self).wf(),
            spec_transfer_done(*old(self), *final(self)),
    {
        let dest = match self.pending_transfer {
            Some(d) => d,
            None => {
                return;
            },
        };
        self.pending_transfer = None;
        if dest == TR_PAL {
            let d = decode_tiles(&self.shade_buf, 256);
            self.ram_palettes = d;
        } else if dest == TR_ATTR {
            let mut d = decode_tiles(&self.shade_buf, 254);
            d.truncate(4050);
            self.attr_files = d;
        } else if dest == TR_CHR0 || dest == TR_CHR1 {
            let d = decode_tiles(&self.shade_buf, 256);
            let bank: usize = if dest == TR_CHR1 { 4096 } else { 0 };
            splice(&mut self.border_tiles, bank, &d);
            self.has_chr = true;
            self.fade_pending = true;
        } else if dest == TR_PCT {
            let mut d = decode_tiles(&self.shade_buf, 136);
            self.border_raw = d;
            self.has_pct = true;
            self.fade_pending = true;
        } else if dest == TR_OBJ {
            self.obj_data = Some(capture4096(&self.shade_buf));
        } else if dest == TR_SOU {
            self.sou_trn = Some(capture4096(&self.shade_buf));
        } else if dest == TR_DATA {
            self.data_trn = Some(capture4096(&self.shade_buf));
        }
    }

    /// Stream one completed 8-line band (character row `band`, 0-17) of the
    /// rendered screen as 20 tiles × 16 bytes of 2bpp into the ICD2
    /// character-row queue (at most 8 rows kept, oldest dropped).
    pub fn stream_char_row(&mut self, band: u8)
        requires
            old(self).wf(),
            band < 18,
        ensures
            final(self).wf(),
            final(self).char_rows@.len() > 0,
            final(self).char_rows@.last().0 == band,
            final(self).char_rows@.last().1@.len() == 320,
            *final(self) == (SgbView { char_rows: final(self).char_rows, ..*old(self) }),
            forall|k: int| 0 <= k < 320 ==> #[trigger] final(self).char_rows@.last().1@[k] == decoded(
                old(self).shade_buf@,
                band * 320 + k,
            ),
            old(self).char_rows@.len() < 8 ==> final(self).char_rows@.len() == old(self).char_rows@.len() + 1
                && forall|k: int| 0 <= k < old(self).char_rows@.len() ==> #[trigger] final(self).char_rows@[k] == old(
                self,
            ).char_rows@[k],
            old(self).char_rows@.len() >= 8 ==> final(self).char_rows@.len() == old(self).char_rows@.len()
                && forall|k: int| 0 <= k < old(self).char_rows@.len() - 1 ==> #[trigger] final(self).char_rows@[k]
                == old(self).char_rows@[k + 1],
            final(self).pal@ == old(self).pal@,
            final(self).attr@ == old(self).attr@,
            final(self).mask == old(self).mask,
            final(self).shade_buf@ == old(self).shade_buf@,
    {
        let mut data: Vec<u8> = Vec::new();
        let y0 = band as usize * 8;
        let mut tile: usize = 0;
        while tile < 20
            invariant
                0 <= tile <= 20,
                band < 18,
                y0 == band * 8,
                self.shade_buf@.len() == SCREEN_PIXELS,
                data@.len() == 16 * tile,
                forall|k: int| 0 <= k < 16 * tile ==> #[trigger] data@[k] == decoded(self.shade_buf@, band * 320 + k),
            decreases 20 - tile,
        {
            let mut ry: usize = 0;
            while ry < 8
                invariant
                    0 <= ry <= 8,
                    tile < 20,
                    band < 18,
                    y0 == band * 8,
                    self.shade_buf@.len() == SCREEN_PIXELS,
                    data@.len() == 16 * tile + 2 * ry,
                    forall|k: int| 0 <= k < 16 * tile + 2 * ry ==> #[trigger] data@[k] == decoded(
                        self.shade_buf@,
                        band * 320 + k,
                    ),
                decreases 8 - ry,
            {
                let (lo, hi) = pack_row(&self.shade_buf, (y0 + ry) * 160 + tile * 8);
                let ghost k0 = band * 320 + 16 * tile + 2 * ry;
                assert(k0 / 16 == band * 20 + tile && (k0 % 16) / 2 == ry && k0 % 2 == 0);
                assert((k0 + 1) / 16 == band * 20 + tile && ((k0 + 1) % 16) / 2 == ry && (k0 + 1) % 2 == 1);
                assert((band * 20 + tile) / 20 == band && (band * 20 + tile) % 20 == tile);
                data.push(lo);
                data.push(hi);
                ry += 1;
            }
            tile += 1;
        }
        if self.char_rows.len() >= 8 {
            self.char_rows.remove(0);
        }
        self.char_rows.push((band, data));
    }

    /// Drain the oldest streamed character row.
    pub fn take_char_row(&mut self) -> (r: Option<(u8, Vec<u8>)>)
        requires
            old(self).wf(),
        ensures
            final(self).wf(),
            old(self).char_rows@.len() == 0 ==> r is None && final(self).char_rows@ == old(self).char_rows@,
            old(self).char_rows@.len() > 0 ==> r == Some(old(self).char_rows@[0])
                && final(self).char_rows@ == old(self).char_rows@.drop_first(),
    {
        if self.char_rows.len() == 0 {
            None
        } else {
            let r = self.char_rows.remove(0);
            assert(self.char_rows@ =~= old(self).char_rows@.drop_first());
            Some(r)
        }
    }

    /// Drain the oldest queued SOUND event.
    pub fn take_sound_event(&mut self) -> (r: Option<SgbSound>)
        requires
            old(self).wf(),
        ensures
            final(self).wf(),
            old(self).sound_events@.len() == 0 ==> r is None && final(self).sound_events@ == old(self).sound_events@,
            old(self).sound_events@.len() > 0 ==> r == Some(old(self).sound_events@[0])
                && final(self).sound_events@ == old(self).sound_events@.drop_first(),
    {
        if self.sound_events.len() == 0 {
            None
        } else {
            let r = self.sound_events.remove(0);
            assert(self.sound_events@ =~= old(self).sound_events@.drop_first());
            Some(r)
        }
    }

    /// Drain the oldest queued DATA_SND packet.
    pub fn take_data_snd(&mut self) -> (r: Option<Vec<u8>>)
        requires
            old(self).wf(),
        ensures
            final(self).wf(),
            old(self).data_snd@.len() == 0 ==> r is None && final(self).data_snd@ == old(self).data_snd@,
            old(self).data_snd@.len() > 0 ==> r == Some(old(self).data_snd@[0])
                && final(self).data_snd@ == old(self).data_snd@.drop_first(),
    {
        if self.data_snd.len() == 0 {
            None
        } else {
            let r = self.data_snd.remove(0);
            assert(self.data_snd@ =~= old(self).data_snd@.drop_first());
            Some(r)
        }
    }

    /// The most recent SOU_TRN payload.
    pub fn sou_trn_data(&self) -> (r: Option<&[u8]>)
        ensures
            r is Some <==> self.sou_trn is Some,
            r is Some ==> r->Some_0@ == self.sou_trn->Some_0@,
    {
        match &self.sou_trn {
            Some(b) => Some(b.as_slice()),
            None => None,
        }
    }

    /// The most recent OBJ_TRN payload.
    pub fn obj_data(&self) -> (r: Option<&[u8]>)
        ensures
            r is Some <==> self.obj_data is Some,
            r is Some ==> r->Some_0@ == self.obj_data->Some_0@,
    {
        match &self.obj_data {
            Some(b) => Some(b.as_slice()),
            None => None,
        }
    }

    /// The most recent DATA_TRN payload.
    pub fn data_trn_data(&self) -> (r: Option<&[u8]>)
        ensures
            r is Some <==> self.data_trn is Some,
            r is Some ==> r->Some_0@ == self.data_trn->Some_0@,
    {
        match &self.data_trn {
            Some(b) => Some(b.as_slice()),
            None => None,
        }
    }

    /// The flag commands' state and the JUMP target.
    pub fn flags(&self) -> (r: SgbFlags)
        ensures
            r == (SgbFlags {
                atrc_en: self.atrc_en,
                test_en: self.test_en,
                icon_en: self.icon_en,
                pal_pri: self.pal_pri,
                jump: self.jump,
            }),
    {
        SgbFlags {
            atrc_en: self.atrc_en,
            test_en: self.test_en,
            icon_en: self.icon_en,
            pal_pri: self.pal_pri,
            jump: self.jump,
        }
    }
}

} // verus!
