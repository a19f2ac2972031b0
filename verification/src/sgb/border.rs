//! SGB border composite: the 256×224 SNES surface (32×28 tiles of 8×8) with
//! the colorized 160×144 Game Boy screen as an inset at (48, 40), and the
//! boot-intro / cross-fade blend. Border tiles with color 0 are transparent
//! over the Game Boy area and the SGB backdrop (palette-0 color 0) elsewhere.
use vstd::prelude::*;
use super::defaults::{default_frame, in_inset};
use super::transfer::spec_transfer_done;
use super::{SgbView, BORDER_PIXELS, BORDER_W, FADE_LEN, INSET_X, INSET_Y};
use crate::bits::lemma_bit_le1;
use crate::color::{bgr555, spec_bgr555};
use crate::{SCREEN_PIXELS, SCREEN_W};

verus! {

/// Bit `b` of byte `v`.
pub open spec fn bit_of(v: u8, b: u8) -> u8 {
    (v >> b) & 1
}

/// The 4bpp color of pixel `(x, y)` of SNES tile `tile` (planes 0/1 at byte
/// offset 0/1, planes 2/3 at 16/17 of each row pair), with the tile's flips.
pub open spec fn tile_color(tiles: Seq<u8>, tile: int, x: int, y: int, flip_x: bool, flip_y: bool) -> u8 {
    let srcy = if flip_y { 7 - y } else { y };
    let base = tile * 32 + srcy * 2;
    let b = (if flip_x { x } else { 7 - x }) as u8;
    (bit_of(tiles[base], b) + 2 * bit_of(tiles[base + 1], b) + 4 * bit_of(tiles[base + 16], b) + 8 * bit_of(
        tiles[base + 17],
        b,
    )) as u8
}

/// Border color `c` (0-63): palettes 4-7 of 16 BGR555 colors at raw 0x800.
pub open spec fn border_color(raw: Seq<u8>, c: int) -> u32 {
    spec_bgr555(raw[2048 + 2 * c], raw[2049 + 2 * c])
}

/// The composited border pixel `j`: the tile-map entry of its 8×8 cell (low
/// byte = tile, high byte bits 0-1 = unused flag, 2-3 = palette, 6/7 = X/Y
/// flip); unused or color-0 cells show the Game Boy inset or the backdrop.
pub open spec fn composite_pixel(s: SgbView, front: Seq<u32>, j: int) -> u32 {
    let x = j % 256;
    let y = j / 256;
    let kept = if in_inset(x, y) {
        front[(y - 40) * 160 + (x - 48)]
    } else {
        s.pal@[0]
    };
    let m = ((x / 8) + (y / 8) * 32) * 2;
    let lo = s.border_raw@[m];
    let hi = s.border_raw@[m + 1];
    if hi & 3 != 0 {
        kept
    } else {
        let c = tile_color(s.border_tiles@, lo as int, x % 8, y % 8, hi & 0x40 != 0, hi & 0x80 != 0);
        if c == 0 {
            kept
        } else {
            border_color(s.border_raw@, c + ((hi >> 2) & 3) * 16)
        }
    }
}

/// One 8-bit channel of a linear blend from `f` to `t` at step `k` of
/// [`FADE_LEN`].
pub open spec fn blend_channel(f: int, t: int, k: int) -> int {
    (f * (24 - k) + t * k) / 24
}

/// A pixel blended from `f` to `t` at step `k` of [`FADE_LEN`], per channel.
pub open spec fn blend(f: u32, t: u32, k: int) -> u32 {
    let (fr, fg, fb) = ((f / 65536) % 256, (f / 256) % 256, f % 256);
    let (tr, tg, tb) = ((t / 65536) % 256, (t / 256) % 256, t % 256);
    (blend_channel(fr as int, tr as int, k) * 65536 + blend_channel(fg as int, tg as int, k) * 256
        + blend_channel(fb as int, tb as int, k)) as u32
}

/// Blend two XRGB8888 pixels at step `k` (1-24) of the fade.
pub fn blend_pixel(f: u32, t: u32, k: u32) -> (r: u32)
    requires
        1 <= k <= 24,
    ensures
        r == blend(f, t, k as int),
{
    let (fr, fg, fb) = ((f / 65536) % 256, (f / 256) % 256, f % 256);
    let (tr, tg, tb) = ((t / 65536) % 256, (t / 256) % 256, t % 256);
    assert(fr * (24 - k) <= 6120 && fg * (24 - k) <= 6120 && fb * (24 - k) <= 6120 && tr * k <= 6120 && tg * k
        <= 6120 && tb * k <= 6120) by (nonlinear_arith)
        requires
            fr < 256,
            fg < 256,
            fb < 256,
            tr < 256,
            tg < 256,
            tb < 256,
            1 <= k <= 24,
    ;
    let r = (fr * (24 - k) + tr * k) / 24;
    let g = (fg * (24 - k) + tg * k) / 24;
    let b = (fb * (24 - k) + tb * k) / 24;
    assert(r <= 255 && g <= 255 && b <= 255) by (nonlinear_arith)
        requires
            r == (fr * (24 - k) + tr * k) / 24,
            g == (fg * (24 - k) + tg * k) / 24,
            b == (fb * (24 - k) + tb * k) / 24,
            fr < 256,
            fg < 256,
            fb < 256,
            tr < 256,
            tg < 256,
            tb < 256,
            1 <= k <= 24,
    ;
    r * 65536 + g * 256 + b
}

impl SgbView {
    /// The border is displayable once both a CHR_TRN (tiles) and a PCT_TRN
    /// (tilemap + palettes) have landed.
    pub fn border_ready(&self) -> (r: bool)
        ensures
            r == (self.has_chr && self.has_pct),
    {
        self.has_chr && self.has_pct
    }

    /// Recomposite the border surface from the tilemap, tiles and palettes
    /// around the colorized Game Boy screen `front`.
    pub fn composite(&mut self, front: &Vec<u32>)
        requires
            old(self).wf(),
            front@.len() == SCREEN_PIXELS,
        ensures
            final(self).wf(),
            forall|j: int| 0 <= j < BORDER_PIXELS ==> #[trigger] final(self).border_fb@[j] == composite_pixel(
                *old(self),
                front@,
                j,
            ),
            *final(self) == (SgbView { border_fb: final(self).border_fb, ..*old(self) }),
    {
        let ghost s0 = *old(self);
        let mut j: usize = 0;
        while j < BORDER_PIXELS
            invariant
                0 <= j <= BORDER_PIXELS,
                s0 == *old(self),
                s0.wf(),
                self.wf(),
                front@.len() == SCREEN_PIXELS,
                *self == (SgbView { border_fb: self.border_fb, ..s0 }),
                forall|k: int| 0 <= k < j ==> #[trigger] self.border_fb@[k] == composite_pixel(s0, front@, k),
            decreases BORDER_PIXELS - j,
        {
            let v = self.composite_at(front, j);
            assert(self.border_raw@ == s0.border_raw@ && self.border_tiles@ == s0.border_tiles@ && self.pal@
                == s0.pal@);
            self.border_fb.set(j, v);
            j += 1;
        }
    }

    /// The composited border pixel `j` (see [`composite_pixel`]).
    pub fn composite_at(&self, front: &Vec<u32>, j: usize) -> (v: u32)
        requires
            self.wf(),
            front@.len() == SCREEN_PIXELS,
            j < BORDER_PIXELS,
        ensures
            v == composite_pixel(*self, front@, j as int),
    {
        let backdrop = self.pal[0];
        let x = j % BORDER_W;
        let y = j / BORDER_W;
        let kept = if 48 <= x && x < 208 && 40 <= y && y < 184 {
            front[(y - INSET_Y) * SCREEN_W + (x - INSET_X)]
        } else {
            backdrop
        };
        let m = ((x / 8) + (y / 8) * 32) * 2;
        let lo = self.border_raw[m];
        let hi = self.border_raw[m + 1];
        if hi & 3 != 0 {
            kept
        } else {
            let flip_x = hi & 0x40 != 0;
            let flip_y = hi & 0x80 != 0;
            let (px, py) = (x % 8, y % 8);
            let srcy = if flip_y { 7 - py } else { py };
            let base = lo as usize * 32 + srcy * 2;
            let b = (if flip_x { px } else { 7 - px }) as u8;
            let t = &self.border_tiles;
            proof {
                lemma_bit_le1(t@[base as int], b);
                lemma_bit_le1(t@[base + 1], b);
                lemma_bit_le1(t@[base + 16], b);
                lemma_bit_le1(t@[base + 17], b);
            }
            let c = ((t[base] >> b) & 1) + 2 * ((t[base + 1] >> b) & 1) + 4 * ((t[base + 16] >> b) & 1) + 8 * ((
            t[base + 17] >> b) & 1);
            assert(c == tile_color(self.border_tiles@, lo as int, px as int, py as int, flip_x, flip_y));
            if c == 0 {
                kept
            } else {
                proof {
                    crate::bits::lemma_u8_bits(hi);
                }
                let ci = c as usize + (((hi >> 2) & 3) as usize) * 16;
                bgr555(self.border_raw[2048 + 2 * ci], self.border_raw[2049 + 2 * ci])
            }
        }
    }

    /// Advance the border boot-intro / cross-fade by one frame: blend the
    /// surface from the fade source at step `FADE_LEN - fade` (after the
    /// countdown), a no-op once settled.
    pub fn apply_fade(&mut self)
        requires
            old(self).wf(),
        ensures
            final(self).wf(),
            old(self).fade == 0 ==> *final(self) == *old(self),
            old(self).fade > 0 ==> final(self).fade == old(self).fade - 1 && forall|j: int|
                0 <= j < BORDER_PIXELS ==> #[trigger] final(self).border_fb@[j] == blend(
                    old(self).fade_from@[j],
                    old(self).border_fb@[j],
                    FADE_LEN - old(self).fade + 1,
                ),
            old(self).fade > 0 ==> *final(self) == (SgbView {
                border_fb: final(self).border_fb,
                fade: final(self).fade,
                ..*old(self)
            }),
    {
        if self.fade == 0 {
            return;
        }
        self.fade = self.fade - 1;
        let k = (FADE_LEN - self.fade) as u32;
        let mut j: usize = 0;
        while j < BORDER_PIXELS
            invariant
                0 <= j <= BORDER_PIXELS,
                self.wf(),
                1 <= k <= 24,
                k == FADE_LEN - old(self).fade + 1,
                self.fade == old(self).fade - 1,
                *self == (SgbView { border_fb: self.border_fb, fade: self.fade, ..*old(self) }),
                forall|i: int| j <= i < BORDER_PIXELS ==> #[trigger] self.border_fb@[i] == old(self).border_fb@[i],
                forall|i: int| 0 <= i < j ==> #[trigger] self.border_fb@[i] == blend(
                    old(self).fade_from@[i],
                    old(self).border_fb@[i],
                    k as int,
                ),
            decreases BORDER_PIXELS - j,
        {
            let v = blend_pixel(self.fade_from[j], self.border_fb[j], k);
            self.border_fb.set(j, v);
            j += 1;
        }
    }
}

/// The border surface pixel `j` composited around `front`: the ROM border
/// once a CHR_TRN + PCT_TRN pair has landed, else the built-in default frame
/// with the screen in its inset.
pub open spec fn border_pixel(s: SgbView, front: Seq<u32>, j: int) -> u32 {
    if s.has_chr && s.has_pct {
        composite_pixel(s, front, j)
    } else if in_inset(j % 256, j / 256) {
        front[(j / 256 - 40) * 160 + (j % 256 - 48)]
    } else {
        default_frame(j % 256, j / 256)
    }
}

impl SgbView {
    /// Recomposite the border surface around the presented frame `front`:
    /// the ROM border when ready, else the default one.
    pub fn composite_border(&mut self, front: &Vec<u32>)
        requires
            old(self).wf(),
            front@.len() == SCREEN_PIXELS,
        ensures
            final(self).wf(),
            forall|j: int|
                0 <= j < BORDER_PIXELS ==> #[trigger] final(self).border_fb@[j] == border_pixel(
                    *old(self),
                    front@,
                    j,
                ),
            *final(self) == (SgbView { border_fb: final(self).border_fb, ..*old(self) }),
    {
        if self.border_ready() {
            self.composite(front);
        } else {
            self.default_composite(Some(front));
        }
    }

    /// Start the cross-fade a border transfer asked for: the current surface
    /// becomes the fade source and the countdown restarts.
    fn start_fade(&mut self)
        requires
            old(self).wf(),
        ensures
            final(self).wf(),
            !final(self).fade_pending,
            old(self).fade_pending ==> final(self).fade == FADE_LEN && final(self).fade_from@
                == old(self).border_fb@,
            !old(self).fade_pending ==> *final(self) == *old(self),
            final(self).border_fb == old(self).border_fb,
            final(self).has_chr == old(self).has_chr && final(self).has_pct == old(self).has_pct,
            final(self).pending_transfer == old(self).pending_transfer,
            final(self).pal@ == old(self).pal@ && final(self).attr@ == old(self).attr@,
            final(self).mask == old(self).mask,
            *final(self) == (SgbView {
                fade_pending: false,
                fade: final(self).fade,
                fade_from: final(self).fade_from,
                ..*old(self)
            }),
    {
        if self.fade_pending {
            self.fade_pending = false;
            let copy = self.border_fb.clone();
            self.fade_from = copy;
            self.fade = FADE_LEN;
        }
    }

    /// The SGB work at a frame boundary: consume a pending `*_TRN` capture,
    /// start a cross-fade a border transfer asked for, recomposite the
    /// border around the presented frame and step the fade.
    pub fn frame_boundary(&mut self, front: &Vec<u32>)
        requires
            old(self).wf(),
            front@.len() == SCREEN_PIXELS,
        ensures
            final(self).wf(),
            final(self).pending_transfer is None,
            !final(self).fade_pending,
            final(self).fade < FADE_LEN,
            final(self).pal@ == old(self).pal@,
            final(self).attr@ == old(self).attr@,
            final(self).mask == old(self).mask,
            old(self).pending_transfer is None && !old(self).fade_pending ==> final(self).fade == if old(
                self,
            ).fade > 0 {
                (old(self).fade - 1) as u16
            } else {
                0u16
            },
            old(self).pending_transfer is None && old(self).fade_pending ==> final(self).fade == FADE_LEN
                - 1,
            old(self).pending_transfer is None && !old(self).fade_pending && old(self).fade == 0 ==> forall|
                j: int,
            |
                0 <= j < BORDER_PIXELS ==> #[trigger] final(self).border_fb@[j] == border_pixel(
                    *old(self),
                    front@,
                    j,
                ),
            exists|t: SgbView| #![trigger spec_transfer_done(*old(self), t)]
                spec_transfer_done(*old(self), t) && *final(self) == (SgbView {
                    border_fb: final(self).border_fb,
                    fade: final(self).fade,
                    fade_from: final(self).fade_from,
                    fade_pending: false,
                    ..t
                }),
            exists|t: SgbView, u: SgbView, v: SgbView|
                #![trigger frame_boundary_path(*old(self), front@, t, u, v, *final(self))]
                frame_boundary_path(*old(self), front@, t, u, v, *final(self)),
    {
        self.run_pending_transfer();
        let ghost t = *self;
        self.start_fade();
        let ghost u = *self;
        self.composite_border(front);
        let ghost v = *self;
        self.apply_fade();
        assert(frame_boundary_path(*old(self), front@, t, u, v, *self));
    }
}

/// The SGB frame-boundary work on `s` around the presented screen `front`
/// (see [`SgbView::frame_boundary`]), through the states after the `*_TRN`
/// capture (`t`), the fade start (`u`) and the border recomposite (`v`),
/// ending at `n` after the fade step.
pub open spec fn frame_boundary_path(
    s: SgbView,
    front: Seq<u32>,
    t: SgbView,
    u: SgbView,
    v: SgbView,
    n: SgbView,
) -> bool {
    &&& spec_transfer_done(s, t)
    &&& u == (SgbView { fade_pending: false, fade: u.fade, fade_from: u.fade_from, ..t })
    &&& t.fade_pending ==> u.fade == FADE_LEN && u.fade_from@ == t.border_fb@
    &&& !t.fade_pending ==> u == t
    &&& v == (SgbView { border_fb: v.border_fb, ..u })
    &&& forall|j: int| 0 <= j < BORDER_PIXELS ==> #[trigger] v.border_fb@[j] == border_pixel(u, front, j)
    &&& v.fade == 0 ==> n == v
    &&& v.fade > 0 ==> {
        &&& n == (SgbView { border_fb: n.border_fb, fade: (v.fade - 1) as u16, ..v })
        &&& forall|j: int|
            0 <= j < BORDER_PIXELS ==> #[trigger] n.border_fb@[j] == blend(
                v.fade_from@[j],
                v.border_fb@[j],
                FADE_LEN - v.fade + 1,
            )
    }
}

} // verus!
