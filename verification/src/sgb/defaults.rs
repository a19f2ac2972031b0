//! The SGB's built-in default border: a procedurally drawn bezel of its own
//! around the Game Boy inset (no firmware artwork), shown from power-on until
//! a ROM sends its own `CHR_TRN`+`PCT_TRN`.
use vstd::prelude::*;
use super::{SgbView, BORDER_H, BORDER_PIXELS, BORDER_W, INSET_X, INSET_Y};
use crate::buf::fill_u32;
use crate::{SCREEN_H, SCREEN_PIXELS, SCREEN_W};

verus! {

/// Deep slate backdrop.
pub const BACKDROP: u32 = 0x0F_1420;
/// Near-black bevel line.
pub const FRAME_SHADOW: u32 = 0x05_0810;
/// Steel-blue frame.
pub const FRAME_ACCENT: u32 = 0x35_5A7A;
/// Dim outer edge line.
pub const FRAME_EDGE: u32 = 0x1C_2740;

/// Pixel `(x, y)` lies on the 1-pixel outline of `[x0,x1) × [y0,y1)`.
pub open spec fn on_outline(x: int, y: int, x0: int, y0: int, x1: int, y1: int) -> bool {
    x0 <= x < x1 && y0 <= y < y1 && (x == x0 || x == x1 - 1 || y == y0 || y == y1 - 1)
}

/// Pixel `(x, y)` lies inside the 160×144 Game Boy inset.
pub open spec fn in_inset(x: int, y: int) -> bool {
    48 <= x < 208 && 40 <= y < 184
}

/// The default border's frame color at `(x, y)` (later outlines drawn over
/// earlier ones), the inset not yet blitted.
pub open spec fn default_frame(x: int, y: int) -> u32 {
    if on_outline(x, y, 8, 8, 248, 216) {
        FRAME_EDGE
    } else if on_outline(x, y, 42, 34, 214, 190) {
        FRAME_SHADOW
    } else if on_outline(x, y, 44, 36, 212, 188) {
        FRAME_ACCENT
    } else if on_outline(x, y, 45, 37, 211, 187) {
        FRAME_ACCENT
    } else if on_outline(x, y, 47, 39, 209, 185) {
        FRAME_SHADOW
    } else {
        BACKDROP
    }
}

/// Blit the 160×144 screen into the border surface's inset.
pub fn blit_inset(fb: &mut Vec<u32>, front: &Vec<u32>)
    requires
        old(fb)@.len() == BORDER_PIXELS,
        front@.len() == SCREEN_PIXELS,
    ensures
        final(fb)@.len() == BORDER_PIXELS,
        forall|j: int| 0 <= j < BORDER_PIXELS ==> #[trigger] final(fb)@[j] == if in_inset(j % 256, j / 256) {
            front@[(j / 256 - 40) * 160 + (j % 256 - 48)]
        } else {
            old(fb)@[j]
        },
{
    let mut gy: usize = 0;
    while gy < SCREEN_H
        invariant
            0 <= gy <= 144,
            fb@.len() == BORDER_PIXELS,
            front@.len() == SCREEN_PIXELS,
            forall|j: int| 0 <= j < BORDER_PIXELS ==> #[trigger] fb@[j] == if in_inset(j % 256, j / 256) && j / 256
                < 40 + gy {
                front@[(j / 256 - 40) * 160 + (j % 256 - 48)]
            } else {
                old(fb)@[j]
            },
        decreases 144 - gy,
    {
        let mut gx: usize = 0;
        while gx < SCREEN_W
            invariant
                0 <= gx <= 160,
                gy < 144,
                fb@.len() == BORDER_PIXELS,
                front@.len() == SCREEN_PIXELS,
                forall|j: int| 0 <= j < BORDER_PIXELS ==> #[trigger] fb@[j] == if in_inset(j % 256, j / 256) && (j
                    / 256 < 40 + gy || (j / 256 == 40 + gy && j % 256 < 48 + gx)) {
                    front@[(j / 256 - 40) * 160 + (j % 256 - 48)]
                } else {
                    old(fb)@[j]
                },
            decreases 160 - gx,
        {
            let dst = (INSET_Y + gy) * BORDER_W + INSET_X + gx;
            let src = gy * SCREEN_W + gx;
            assert(dst / 256 == 40 + gy && dst % 256 == 48 + gx);
            fb.set(dst, front[src]);
            gx += 1;
        }
        gy += 1;
    }
}

/// Draw a 1px rectangle outline `[x0,x1) × [y0,y1)` in `color` onto the
/// border surface `fb`, clipped to the surface.
pub fn outline(fb: &mut Vec<u32>, x0: usize, y0: usize, x1: usize, y1: usize, color: u32)
    requires
        old(fb)@.len() == BORDER_PIXELS,
    ensures
        final(fb)@.len() == BORDER_PIXELS,
        forall|j: int| 0 <= j < BORDER_PIXELS ==> #[trigger] final(fb)@[j] == if on_outline(
            j % 256,
            j / 256,
            x0 as int,
            y0 as int,
            if x1 < 256 { x1 as int } else { 256 },
            if y1 < 224 { y1 as int } else { 224 },
        ) {
            color
        } else {
            old(fb)@[j]
        },
{
    let x1 = if x1 < BORDER_W { x1 } else { BORDER_W };
    let y1 = if y1 < BORDER_H { y1 } else { BORDER_H };
    if x0 >= x1 || y0 >= y1 {
        return;
    }
    let ghost o = fb@;
    let mut x = x0;
    while x < x1
        invariant
            x0 <= x <= x1 <= 256,
            y0 < y1 <= 224,
            fb@.len() == BORDER_PIXELS,
            forall|j: int| 0 <= j < BORDER_PIXELS ==> #[trigger] fb@[j] == if x0 <= j % 256 < x && (j / 256 == y0
                || j / 256 == y1 - 1) {
                color
            } else {
                o[j]
            },
        decreases x1 - x,
    {
        fb.set(y0 * BORDER_W + x, color);
        fb.set((y1 - 1) * BORDER_W + x, color);
        x += 1;
    }
    let mut y = y0;
    while y < y1
        invariant
            y0 <= y <= y1 <= 224,
            x0 < x1 <= 256,
            fb@.len() == BORDER_PIXELS,
            forall|j: int| 0 <= j < BORDER_PIXELS ==> #[trigger] fb@[j] == if (x0 <= j % 256 < x1 && (j / 256
                == y0 || j / 256 == y1 - 1)) || (y0 <= j / 256 < y && (j % 256 == x0 || j % 256 == x1 - 1)) {
                color
            } else {
                o[j]
            },
        decreases y1 - y,
    {
        fb.set(y * BORDER_W + x0, color);
        fb.set(y * BORDER_W + (x1 - 1), color);
        y += 1;
    }
}

/// Draw the default border's frame (no inset blit) onto `fb`.
pub fn draw_default_frame(fb: &mut Vec<u32>)
    requires
        old(fb)@.len() == BORDER_PIXELS,
    ensures
        final(fb)@.len() == BORDER_PIXELS,
        forall|j: int| 0 <= j < BORDER_PIXELS ==> #[trigger] final(fb)@[j] == default_frame(j % 256, j / 256),
{
    fill_u32(fb, BACKDROP);
    let (ix0, iy0) = (INSET_X, INSET_Y);
    let (ix1, iy1) = (INSET_X + SCREEN_W, INSET_Y + SCREEN_H);
    outline(fb, ix0 - 1, iy0 - 1, ix1 + 1, iy1 + 1, FRAME_SHADOW);
    outline(fb, ix0 - 3, iy0 - 3, ix1 + 3, iy1 + 3, FRAME_ACCENT);
    outline(fb, ix0 - 4, iy0 - 4, ix1 + 4, iy1 + 4, FRAME_ACCENT);
    outline(fb, ix0 - 6, iy0 - 6, ix1 + 6, iy1 + 6, FRAME_SHADOW);
    outline(fb, 8, 8, BORDER_W - 8, BORDER_H - 8, FRAME_EDGE);
}

impl SgbView {
    /// Draw the built-in default border into the border surface, blitting
    /// the live colorized Game Boy screen `front` into the inset when given.
    pub fn default_composite(&mut self, front: Option<&Vec<u32>>)
        requires
            old(self).wf(),
            front is Some ==> front->Some_0@.len() == SCREEN_PIXELS,
        ensures
            final(self).wf(),
            forall|j: int| 0 <= j < BORDER_PIXELS ==> #[trigger] final(self).border_fb@[j] == if front is Some
                && in_inset(j % 256, j / 256) {
                front->Some_0@[(j / 256 - 40) * 160 + (j % 256 - 48)]
            } else {
                default_frame(j % 256, j / 256)
            },
            *final(self) == (SgbView { border_fb: final(self).border_fb, ..*old(self) }),
    {
        draw_default_frame(&mut self.border_fb);
        if let Some(f) = front {
            blit_inset(&mut self.border_fb, f);
        }
    }
}

} // verus!
