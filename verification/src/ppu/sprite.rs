//! The OBJ pipeline: the dot-serial OAM scan (with the DMA disconnect and the
//! MGB frozen-DMA glitch sprite), the sprite fetch stall and alignment
//! penalty, the sprite-row merge into the sprite FIFO, and the pixel mix.
use vstd::prelude::*;
use super::render::{rev8, spec_rev8};
use super::{
    empty_pixel, empty_pixel_spec, Ppu, Render, Sprite, SpritePixel, LCDC_BG_ENABLE,
    LCDC_OBJ_ENABLE, LCDC_OBJ_SIZE, SCAN_OFF,
};
use crate::bits::{lemma_bit_le1, lemma_u8_bits};
use crate::color::{bgr555, spec_bgr555};
use crate::model::Model;

verus! {

/// An aligned OAM entry whose four bytes lie within `[$98-$9F, $00-$A7,
/// $09-$9F, $00-$A7]` enables the MGB frozen-DMA sprite glitch.
pub open spec fn magic_entry(o: Seq<u8>, k: int) -> bool {
    &&& 0x98 <= o[4 * k] <= 0x9F
    &&& o[4 * k + 1] <= 0xA7
    &&& 0x09 <= o[4 * k + 2] <= 0x9F
    &&& o[4 * k + 3] <= 0xA7
}

/// Some aligned entry of the 40 is a magic-enable entry.
pub open spec fn spec_magic_enable(o: Seq<u8>) -> bool {
    exists|k: int| 0 <= k < 40 && #[trigger] magic_entry(o, k)
}

/// "Magic enable" for the MGB frozen-OAM-DMA sprite glitch: sprites render
/// at all only if OAM holds at least one properly aligned 4-byte entry in
/// range; the position in OAM does not matter.
pub fn oam_glitch_magic_enable(oam: &Vec<u8>) -> (r: bool)
    requires
        oam@.len() == 0xA0,
    ensures
        r == spec_magic_enable(oam@),
{
    let mut k: usize = 0;
    while k < 40
        invariant
            0 <= k <= 40,
            oam@.len() == 0xA0,
            forall|j: int| 0 <= j < k ==> !#[trigger] magic_entry(oam@, j),
        decreases 40 - k,
    {
        let b = 4 * k;
        if 0x98 <= oam[b] && oam[b] <= 0x9F && oam[b + 1] <= 0xA7 && 0x09 <= oam[b + 2] && oam[b + 2]
            <= 0x9F && oam[b + 3] <= 0xA7 {
            assert(magic_entry(oam@, k as int));
            return true;
        }
        k += 1;
    }
    false
}

/// The OBJ fetch stall's base cost: 6 dots, 5 for the CGB's first fetch of
/// the line.
pub open spec fn spec_obj_fetch_base(cgb: bool, fetched: u16) -> u16 {
    if cgb && fetched == 0 {
        5
    } else {
        6
    }
}

/// See [`spec_obj_fetch_base`].
pub fn obj_fetch_base(cgb: bool, fetched: u16) -> (r: u16)
    ensures
        r == spec_obj_fetch_base(cgb, fetched),
{
    if cgb && fetched == 0 {
        5
    } else {
        6
    }
}

/// The first-per-BG-tile sprite alignment penalty: a sprite whose screen
/// tile (x + SCX) / 8 has not paid yet pays max(0, 5 - (x + SCX) % 8) and
/// marks the tile.
pub open spec fn spec_penalty(tiles: u64, x: u8, scx: u8) -> (u64, u16) {
    let v = x as int + scx as int;
    let bit = 1u64 << ((v / 8) as u64);
    if tiles & bit != 0 {
        (tiles, 0)
    } else {
        (
            tiles | bit,
            if 5 - v % 8 > 0 {
                (5 - v % 8) as u16
            } else {
                0
            },
        )
    }
}

/// See [`spec_penalty`].
pub fn penalty(tiles: u64, x: u8, scx: u8) -> (r: (u64, u16))
    ensures
        r == spec_penalty(tiles, x, scx),
        r.1 <= 5,
{
    let v: u16 = x as u16 + scx as u16;
    let key: u64 = (v / 8) as u64;
    let bit = 1u64 << key;
    if tiles & bit != 0 {
        (tiles, 0)
    } else {
        (tiles | bit, 5u16.saturating_sub(v % 8))
    }
}

/// The 2-bit shade a DMG palette register maps color `c` to.
pub open spec fn spec_shade(pal: u8, c: u8) -> u8 {
    ((pal as int / pow4(c as int)) % 4) as u8
}

/// 4 to the `n`, for `n` in 0..=3.
pub open spec fn pow4(n: int) -> int {
    if n <= 0 {
        1
    } else if n == 1 {
        4
    } else if n == 2 {
        16
    } else {
        64
    }
}

/// See [`spec_shade`].
pub fn shade_of(pal: u8, c: u8) -> (r: u8)
    requires
        c < 4,
    ensures
        r == spec_shade(pal, c),
        r < 4,
{
    let d: u8 = if c == 0 {
        1
    } else if c == 1 {
        4
    } else if c == 2 {
        16
    } else {
        64
    };
    (pal / d) % 4
}

/// A CGB palette RAM entry (palette 0-7, color 0-3) as XRGB8888: the
/// little-endian BGR555 word at `8 * palette + 2 * color`.
pub open spec fn spec_cgb_color(ram: Seq<u8>, palette: u8, color: u8) -> u32 {
    spec_bgr555(ram[palette * 8 + color * 2], ram[palette * 8 + color * 2 + 1])
}

/// See [`spec_cgb_color`].
pub fn cgb_color(ram: &Vec<u8>, palette: u8, color: u8) -> (r: u32)
    requires
        ram@.len() == 64,
        palette < 8,
        color < 4,
    ensures
        r == spec_cgb_color(ram@, palette, color),
{
    let i = palette as usize * 8 + color as usize * 2;
    bgr555(ram[i], ram[i + 1])
}

/// Take the sprite pixel for the output position and shift the FIFO, an
/// empty slot entering at the back.
pub fn shift_fifo(fifo: &mut Vec<SpritePixel>) -> (r: SpritePixel)
    requires
        old(fifo)@.len() == 8,
        forall|i: int| 0 <= i < 8 ==> #[trigger] old(fifo)@[i].wf(),
    ensures
        r == old(fifo)@[0],
        r.wf(),
        final(fifo)@ == old(fifo)@.subrange(1, 8).push(empty_pixel_spec()),
        forall|i: int| 0 <= i < 8 ==> #[trigger] final(fifo)@[i].wf(),
{
    let r = fifo[0];
    let mut i: usize = 0;
    while i < 7
        invariant
            0 <= i <= 7,
            fifo@.len() == 8,
            forall|j: int| 0 <= j < i ==> #[trigger] fifo@[j] == old(fifo)@[j + 1],
            forall|j: int| i <= j < 8 ==> #[trigger] fifo@[j] == old(fifo)@[j],
        decreases 7 - i,
    {
        let next = fifo[i + 1];
        fifo.set(i, next);
        i += 1;
    }
    fifo.set(7, empty_pixel());
    assert(fifo@ =~= old(fifo)@.subrange(1, 8).push(empty_pixel_spec()));
    r
}

/// The sprite row a fetch reads: the line's offset into the sprite masked
/// into the fetch-time height (8 or 16 by LCDC.2), Y-flipped by attribute
/// bit 6; 8x16 sprites ignore tile bit 0.
pub open spec fn spec_sprite_row(s: Sprite, ly: u8, tall: bool) -> (u8, u8) {
    let h: int = if tall {
        16
    } else {
        8
    };
    let row0 = ((ly as int + 16 - s.y as int) % 256) % h;
    let row = if (s.flags / 64) % 2 == 1 {
        h - 1 - row0
    } else {
        row0
    };
    let tile = if tall {
        (s.tile / 2) * 2 + row / 8
    } else {
        s.tile as int
    };
    (row as u8, tile as u8)
}

/// The two bitplane bytes of the row a fetch of sprite `s` reads on line
/// `ly` (bank 1 by attribute bit 3 on CGB), X-flipped by attribute bit 5.
pub open spec fn spec_sprite_bytes(vram: Seq<u8>, s: Sprite, ly: u8, tall: bool, cgb: bool) -> (u8, u8) {
    let (row, tile) = spec_sprite_row(s, ly, tall);
    let bank: int = if cgb && (s.flags / 8) % 2 == 1 {
        0x2000
    } else {
        0
    };
    let addr = bank + tile * 16 + (row % 8) * 2;
    let lo = vram[addr];
    let hi = vram[addr + 1];
    if (s.flags / 32) % 2 == 1 {
        (spec_rev8(lo), spec_rev8(hi))
    } else {
        (lo, hi)
    }
}

/// The 2-bit color of column `px` (0 = leftmost) of a row `(lo, hi)`.
pub open spec fn row_color(lo: u8, hi: u8, px: int) -> u8 {
    (((hi >> ((7 - px) as u8)) & 1) * 2 + ((lo >> ((7 - px) as u8)) & 1)) as u8
}

/// A FIFO slot after a sprite pixel of color `c` was offered to it: it
/// takes the pixel when transparent, or on CGB with OPRI clear when the
/// pixel is opaque and the sprite's OAM index is lower.
pub open spec fn merged_slot(e: SpritePixel, c: u8, s: Sprite, palette: u8, index_priority: bool) -> SpritePixel {
    if e.color == 0 || (index_priority && c != 0 && s.idx < e.oam_idx) {
        SpritePixel { palette, color: c, bg_priority: s.flags >= 128, oam_idx: s.idx }
    } else {
        e
    }
}

/// The sprite FIFO after sprite `s`'s row merged into it at output
/// position `lx`: slot `j` is offered the sprite's column `j + lx - (x - 8)`
/// when that column exists.
pub open spec fn spec_merged_fifo(
    fifo: Seq<SpritePixel>,
    vram: Seq<u8>,
    s: Sprite,
    ly: u8,
    lx: u8,
    lcdc: u8,
    cgb: bool,
    opri: u8,
    dmg_compat: bool,
) -> Seq<SpritePixel> {
    let (lo, hi) = spec_sprite_bytes(vram, s, ly, (lcdc / 4) % 2 == 1, cgb);
    let palette: u8 = if cgb && !dmg_compat {
        s.flags % 8
    } else {
        (s.flags / 16) % 2
    };
    Seq::new(
        8,
        |j: int|
            {
                let px = j + lx - (s.x - 8);
                if 0 <= px < 8 {
                    merged_slot(fifo[j], row_color(lo, hi, px), s, palette, cgb && opri % 2 == 0)
                } else {
                    fifo[j]
                }
            },
    )
}

/// Fetch sprite `s`'s row and merge it into the sprite FIFO: each of its 8
/// pixels that lands on a FIFO slot (screen x - output x in 0..8) replaces a
/// transparent slot, or on CGB with OPRI clear an opaque slot of a higher OAM
/// index; palette is OAM bits 0-2 on CGB (bit 4 in DMG and compat mode).
pub fn fetch_sprite_row(
    fifo: &mut Vec<SpritePixel>,
    vram: &Vec<u8>,
    s: Sprite,
    ly: u8,
    lx: u8,
    lcdc: u8,
    cgb: bool,
    opri: u8,
    dmg_compat: bool,
)
    requires
        old(fifo)@.len() == 8,
        forall|i: int| 0 <= i < 8 ==> #[trigger] old(fifo)@[i].wf(),
        vram@.len() == 0x4000,
    ensures
        final(fifo)@.len() == 8,
        forall|i: int| 0 <= i < 8 ==> #[trigger] final(fifo)@[i].wf(),
        final(fifo)@ == spec_merged_fifo(old(fifo)@, vram@, s, ly, lx, lcdc, cgb, opri, dmg_compat),
{
    proof {
        lemma_u8_bits(s.flags);
        lemma_u8_bits(lcdc);
        lemma_u8_bits(opri);
    }
    let tall = lcdc & LCDC_OBJ_SIZE != 0;
    let h: u8 = if tall {
        16
    } else {
        8
    };
    let off: u8 = ly.wrapping_add(16).wrapping_sub(s.y);
    assert(off as int == (ly as int + 16 - s.y as int) % 256);
    let mut row = off % h;
    if s.flags & 0x40 != 0 {
        row = h - 1 - row;
    }
    let tile: u8 = if tall {
        (s.tile / 2) * 2 + row / 8
    } else {
        s.tile
    };
    let bank: usize = if cgb && s.flags & 0x08 != 0 {
        0x2000
    } else {
        0
    };
    assert((row as int, tile as int) == (spec_sprite_row(s, ly, tall).0 as int, spec_sprite_row(s, ly, tall).1 as int));
    let addr = bank + tile as usize * 16 + (row % 8) as usize * 2;
    let mut lo = vram[addr];
    let mut hi = vram[addr + 1];
    if s.flags & 0x20 != 0 {
        lo = rev8(lo);
        hi = rev8(hi);
    }
    assert((lo, hi) == spec_sprite_bytes(vram@, s, ly, tall, cgb));
    let index_priority = cgb && opri & 1 == 0;
    let palette: u8 = if cgb && !dmg_compat {
        s.flags % 8
    } else {
        (s.flags / 16) % 2
    };
    let ghost target = spec_merged_fifo(old(fifo)@, vram@, s, ly, lx, lcdc, cgb, opri, dmg_compat);
    let mut px: u8 = 0;
    while px < 8
        invariant
            0 <= px <= 8,
            fifo@.len() == 8,
            forall|i: int| 0 <= i < 8 ==> #[trigger] fifo@[i].wf(),
            palette < 8,
            palette == (if cgb && !dmg_compat {
                s.flags % 8
            } else {
                (s.flags / 16) % 2
            }),
            index_priority == (cgb && opri % 2 == 0),
            (s.flags & 0x80 != 0) == (s.flags >= 128),
            (lo, hi) == spec_sprite_bytes(vram@, s, ly, (lcdc / 4) % 2 == 1, cgb),
            target == spec_merged_fifo(old(fifo)@, vram@, s, ly, lx, lcdc, cgb, opri, dmg_compat),
            old(fifo)@.len() == 8,
            forall|j: int|
                0 <= j < 8 ==> #[trigger] fifo@[j] == if 0 <= j + lx - (s.x - 8) < px {
                    target[j]
                } else {
                    old(fifo)@[j]
                },
        decreases 8 - px,
    {
        let screen: i16 = s.x as i16 - 8 + px as i16;
        let slot: i16 = screen - lx as i16;
        if 0 <= slot && slot < 8 {
            let bit: u8 = 7 - px;
            proof {
                lemma_bit_le1(hi, bit);
                lemma_bit_le1(lo, bit);
            }
            let c: u8 = ((hi >> bit) & 1) * 2 + ((lo >> bit) & 1);
            assert(c == row_color(lo, hi, px as int));
            let entry = fifo[slot as usize];
            assert(entry == old(fifo)@[slot as int]);
            let replace = if entry.color == 0 {
                true
            } else {
                index_priority && c != 0 && s.idx < entry.oam_idx
            };
            let ghost want = merged_slot(entry, c, s, palette, index_priority);
            assert(target[slot as int] == want);
            if replace {
                fifo.set(
                    slot as usize,
                    SpritePixel { palette, color: c, bg_priority: s.flags & 0x80 != 0, oam_idx: s.idx },
                );
            }
            assert(fifo@[slot as int] == want);
        }
        px += 1;
    }
    assert(fifo@ =~= target);
}

impl Ppu {
    /// The entry the scan latches for OAM slot `i`: the MGB glitch sprite
    /// while a DMA sits frozen mid-byte on MGB (`None` without the magic
    /// enable), $FF bytes while the DMA controller owns OAM, else real OAM.
    pub open spec fn spec_scan_entry(&self, i: int) -> Option<(u8, u8, u8, u8)> {
        if self.model == Model::Mgb && self.dma.freeze is Some {
            let (index, new) = self.dma.freeze->Some_0;
            let o = self.mem.oam@;
            if !spec_magic_enable(o) {
                None
            } else {
                let old_b: u8 = if (index as int) < 0xA0 {
                    o[index as int]
                } else {
                    0xFF
                };
                let next_b: u8 = if (index as int) + 1 < 0xA0 {
                    o[index as int + 1]
                } else {
                    0xFF
                };
                let y = (old_b | new) & 0xFC;
                let x = next_b | new;
                Some((y, x, y, x))
            }
        } else if self.dma.active {
            Some((0xFF, 0xFF, 0xFF, 0xFF))
        } else {
            let o = self.mem.oam@;
            Some((o[4 * i], o[4 * i + 1], o[4 * i + 2], o[4 * i + 3]))
        }
    }

    /// See [`Self::spec_scan_entry`].
    pub fn scan_entry(&self, i: u8) -> (r: Option<(u8, u8, u8, u8)>)
        requires
            self.wf(),
            i < 40,
        ensures
            r == self.spec_scan_entry(i as int),
    {
        proof {
            reveal(super::mem_ok);
        }
        if self.model == Model::Mgb && self.dma.freeze.is_some() {
            let (index, new) = match self.dma.freeze {
                Some(p) => p,
                None => (0, 0),
            };
            if !oam_glitch_magic_enable(&self.mem.oam) {
                return None;
            }
            let old_b: u8 = if (index as usize) < 0xA0 {
                self.mem.oam[index as usize]
            } else {
                0xFF
            };
            let next_b: u8 = if (index as usize) + 1 < 0xA0 {
                self.mem.oam[index as usize + 1]
            } else {
                0xFF
            };
            let y = (old_b | new) & 0xFC;
            let x = next_b | new;
            Some((y, x, y, x))
        } else if self.dma.active {
            Some((0xFF, 0xFF, 0xFF, 0xFF))
        } else {
            let b = i as usize * 4;
            Some((self.mem.oam[b], self.mem.oam[b + 1], self.mem.oam[b + 2], self.mem.oam[b + 3]))
        }
    }

    /// The selection (count and slots) after latching OAM entry `i` onto
    /// selection `(n, sprites)`: the entry is appended if its rows cover LY
    /// (rows LY+16 in [y, y+h), h by LCDC.2) and fewer than 10 are selected.
    pub open spec fn spec_select_entry(&self, n: u8, sprites: Seq<Sprite>, i: int) -> (u8, Seq<Sprite>) {
        match self.spec_scan_entry(i) {
            Some(e) => {
                let h: int = if (self.eff.lcdc / 4) % 2 == 1 {
                    16
                } else {
                    8
                };
                let row = self.ly + 16;
                if n < 10 && e.0 <= row < e.0 + h {
                    ((n + 1) as u8, sprites.update(n as int, Sprite { y: e.0, x: e.1, tile: e.2, flags: e.3, idx: i as u8 }))
                } else {
                    (n, sprites)
                }
            },
            None => (n, sprites),
        }
    }

    /// Latch OAM entry `i` and select it for this line if its Y covers LY
    /// (rows LY+16 in [y, y+h), h by LCDC.2 at the latch), in OAM order,
    /// capped at 10. X does not affect selection.
    pub fn oam_scan_entry(&mut self, i: u8)
        requires
            old(self).wf(),
            i < 40,
        ensures
            final(self).wf(),
            final(self).only_render_changed(old(self)),
            final(self).render.active == old(self).render.active,
            final(self).render.pos == old(self).render.pos,
            final(self).render.fifo == old(self).render.fifo,
            final(self).render.fetch == old(self).render.fetch,
            final(self).render.win == old(self).render.win,
            final(self).render.fetched == old(self).render.fetched,
            (final(self).render.n_sprites, final(self).render.sprites@) == old(self).spec_select_entry(
                old(self).render.n_sprites,
                old(self).render.sprites@,
                i as int,
            ),
            final(self).render == (Render {
                n_sprites: final(self).render.n_sprites,
                sprites: final(self).render.sprites,
                ..old(self).render
            }),
    {
        proof {
            reveal(Render::wf);
            lemma_u8_bits(self.eff.lcdc);
        }
        let e = match self.scan_entry(i) {
            Some(e) => e,
            None => return ,
        };
        let (y, x, tile, flags) = e;
        let h: u16 = if self.eff.lcdc & LCDC_OBJ_SIZE != 0 {
            16
        } else {
            8
        };
        let row = self.ly as u16 + 16;
        if self.render.n_sprites < 10 && row >= y as u16 && row < y as u16 + h {
            let n = self.render.n_sprites;
            self.render.sprites.set(n as usize, Sprite { y, x, tile, flags, idx: i });
            self.render.n_sprites = n + 1;
        }
    }

    /// One dot of the serial OAM scan: entry `i` latches on line dot
    /// `2i + 3` (the last on dot 81); entry 0 starts a fresh selection.
    pub fn oam_scan_step(&mut self)
        requires
            old(self).wf(),
        ensures
            final(self).wf(),
            final(self).only_render_changed(old(self)),
            final(self).render.active == old(self).render.active,
            final(self).render.pos == old(self).render.pos,
            !(old(self).dot >= SCAN_OFF && (old(self).dot - SCAN_OFF) % 2 == 0 && (old(self).dot - SCAN_OFF) / 2
                < 40) ==> final(self).render == old(self).render,
            old(self).dot >= SCAN_OFF && (old(self).dot - SCAN_OFF) % 2 == 0 && (old(self).dot - SCAN_OFF) / 2 < 40
                ==> {
                let i = (old(self).dot - SCAN_OFF) / 2;
                let n0: u8 = if i == 0 {
                    0
                } else {
                    old(self).render.n_sprites
                };
                (final(self).render.n_sprites, final(self).render.sprites@) == old(self).spec_select_entry(
                    n0,
                    old(self).render.sprites@,
                    i,
                )
            },
            final(self).render == (Render {
                n_sprites: final(self).render.n_sprites,
                sprites: final(self).render.sprites,
                ..old(self).render
            }),
    {
        if self.dot < SCAN_OFF || (self.dot - SCAN_OFF) % 2 != 0 {
            return ;
        }
        let i = (self.dot - SCAN_OFF) / 2;
        if i >= 40 {
            return ;
        }
        if i == 0 {
            self.clear_selection();
        }
        self.oam_scan_entry(i as u8);
    }

    /// Forget the line's sprite selection.
    pub fn clear_selection(&mut self)
        requires
            old(self).wf(),
        ensures
            final(self).wf(),
            final(self).only_render_changed(old(self)),
            final(self).render.n_sprites == 0,
            final(self).render.active == old(self).render.active,
            final(self).render.pos == old(self).render.pos,
            final(self).render.sprites@ == old(self).render.sprites@,
            final(self).render == (Render { n_sprites: 0, ..old(self).render }),
    {
        proof {
            reveal(Render::wf);
        }
        self.render.n_sprites = 0;
    }

    /// The line's sprite selection after the scan latched entries `0..k`:
    /// in OAM order, each entry whose rows cover LY, up to 10.
    pub open spec fn spec_scan_selection(&self, k: int) -> Seq<Sprite>
        decreases k,
    {
        if k <= 0 {
            Seq::empty()
        } else {
            let prev = self.spec_scan_selection(k - 1);
            match self.spec_scan_entry(k - 1) {
                Some(e) => {
                    let h: int = if (self.eff.lcdc / 4) % 2 == 1 {
                        16
                    } else {
                        8
                    };
                    let row = self.ly + 16;
                    if prev.len() < 10 && e.0 <= row < e.0 + h {
                        prev.push(Sprite { y: e.0, x: e.1, tile: e.2, flags: e.3, idx: (k - 1) as u8 })
                    } else {
                        prev
                    }
                },
                None => prev,
            }
        }
    }

    /// Run a whole line's scan at once: the selection the serial grid makes
    /// on an undisturbed line.
    pub fn oam_scan(&mut self)
        requires
            old(self).wf(),
        ensures
            final(self).wf(),
            final(self).only_render_changed(old(self)),
            final(self).render.n_sprites == old(self).spec_scan_selection(40).len(),
            final(self).render.sprites@.subrange(0, final(self).render.n_sprites as int) == old(
                self,
            ).spec_scan_selection(40),
    {
        proof {
            reveal(Render::wf);
        }
        self.clear_selection();
        let mut i: u8 = 0;
        while i < 40
            invariant
                0 <= i <= 40,
                self.wf(),
                self.only_render_changed(old(self)),
                self.render.n_sprites == old(self).spec_scan_selection(i as int).len(),
                forall|j: int|
                    0 <= j < self.render.n_sprites ==> #[trigger] self.render.sprites@[j] == old(
                        self,
                    ).spec_scan_selection(i as int)[j],
            decreases 40 - i,
        {
            proof {
                reveal(Render::wf);
            }
            assert(self.spec_scan_entry(i as int) == old(self).spec_scan_entry(i as int));
            self.oam_scan_entry(i);
            i += 1;
        }
        proof {
            reveal(Render::wf);
        }
        assert(self.render.sprites@.subrange(0, self.render.n_sprites as int) =~= old(self).spec_scan_selection(
            40,
        ));
    }

    /// The DMG 2-bit shade `shade` at output x `lx` as XRGB8888: through the
    /// SGB palette of the pixel's attribute cell on SGB models (unless the
    /// plain-palette option is on), else through the DMG palette.
    pub open spec fn spec_dmg_shade(&self, lx: u8, shade: u8) -> u32 {
        match self.sgb {
            Some(s) => if !self.sgb_mono {
                s.spec_pal(
                    if (self.ly / 8) * 20 + lx / 8 < 360 {
                        (s.attr@[(self.ly / 8) * 20 + lx / 8] % 4) as int
                    } else {
                        0
                    },
                    shade as int,
                )
            } else {
                self.dmg_palette[shade as int]
            },
            None => self.dmg_palette[shade as int],
        }
    }

    /// The color of an output pixel and the DMG shade it went through (see
    /// [`Self::mix`]).
    pub open spec fn spec_mix(&self, bg_c: u8, bg_attr: u8, sp0: SpritePixel) -> (u32, u8) {
        let sp = if self.eff.lcdc & LCDC_OBJ_ENABLE == 0 {
            empty_pixel_spec()
        } else {
            sp0
        };
        let cgb = self.cgb();
        let bg_off = (!cgb || self.regs.dmg_compat) && self.eff.lcdc & LCDC_BG_ENABLE == 0;
        let bgc: u8 = if bg_off {
            0
        } else {
            bg_c
        };
        let sprite_wins = sp.color != 0 && if cgb {
            bgc == 0 || self.eff.lcdc & LCDC_BG_ENABLE == 0 || !(bg_attr & 0x80 != 0 || sp.bg_priority)
        } else {
            !(sp.bg_priority && bgc != 0)
        };
        let obp = if sp.palette == 1 {
            self.eff.obp1
        } else {
            self.eff.obp0
        };
        if sprite_wins {
            if cgb {
                let c = if self.regs.dmg_compat {
                    spec_shade(obp, sp.color)
                } else {
                    sp.color
                };
                (spec_cgb_color(self.mem.obj_pal_ram@, sp.palette, c), 0)
            } else {
                let shade = spec_shade(obp, sp.color);
                (self.spec_dmg_shade(self.render.pos.lx, shade), shade)
            }
        } else if cgb {
            let c = if self.regs.dmg_compat && !bg_off {
                spec_shade(self.eff.bgp, bgc)
            } else {
                bgc
            };
            (spec_cgb_color(self.mem.bg_pal_ram@, bg_attr % 8, c), 0)
        } else if bg_off {
            (self.spec_dmg_shade(self.render.pos.lx, 0), 0)
        } else {
            let shade = spec_shade(self.eff.bgp, bgc);
            (self.spec_dmg_shade(self.render.pos.lx, shade), shade)
        }
    }

    /// See [`Self::spec_dmg_shade`].
    pub fn dmg_shade(&self, lx: u8, shade: u8) -> (r: u32)
        requires
            self.wf(),
            shade < 4,
        ensures
            r == self.spec_dmg_shade(lx, shade),
    {
        proof {
            reveal(super::sgb_ok);
        }
        match &self.sgb {
            Some(s) => if !self.sgb_mono {
                s.shade_color(lx, self.ly, shade as usize)
            } else {
                self.dmg_palette[shade as usize]
            },
            None => self.dmg_palette[shade as usize],
        }
    }

    /// The color of the output pixel from the BG color/attributes and the
    /// sprite pixel at the FIFO head, with the 2-bit DMG shade it went
    /// through (0 on CGB). LCDC.1 gates sprite pixels at the mix; LCDC.0
    /// blanks the DMG (and compat) background to color 0. A sprite pixel
    /// wins when opaque and not behind a nonzero BG color (CGB: BG color 0
    /// always loses, LCDC.0 clear strips BG priority, else BG attribute bit 7
    /// or OAM bit 7 put BG in front).
    pub fn mix(&self, bg_c: u8, bg_attr: u8, sp0: SpritePixel) -> (r: (u32, u8))
        requires
            self.wf(),
            bg_c < 4,
            sp0.wf(),
        ensures
            r.1 < 4,
            r == self.spec_mix(bg_c, bg_attr, sp0),
    {
        proof {
            reveal(super::mem_ok);
            lemma_u8_bits(self.eff.lcdc);
            lemma_u8_bits(bg_attr);
        }
        let sp = if self.eff.lcdc & LCDC_OBJ_ENABLE == 0 {
            empty_pixel()
        } else {
            sp0
        };
        let cgb = self.model.is_cgb();
        let bg_off = (!cgb || self.regs.dmg_compat) && self.eff.lcdc & LCDC_BG_ENABLE == 0;
        let bg_c = if bg_off {
            0
        } else {
            bg_c
        };
        let sprite_wins = sp.color != 0 && if cgb {
            bg_c == 0 || self.eff.lcdc & LCDC_BG_ENABLE == 0 || !(bg_attr & 0x80 != 0 || sp.bg_priority)
        } else {
            !(sp.bg_priority && bg_c != 0)
        };
        if sprite_wins {
            if cgb {
                let c = if self.regs.dmg_compat {
                    let obp = if sp.palette == 1 {
                        self.eff.obp1
                    } else {
                        self.eff.obp0
                    };
                    shade_of(obp, sp.color)
                } else {
                    sp.color
                };
                (cgb_color(&self.mem.obj_pal_ram, sp.palette, c), 0)
            } else {
                let obp = if sp.palette == 1 {
                    self.eff.obp1
                } else {
                    self.eff.obp0
                };
                let shade = shade_of(obp, sp.color);
                (self.dmg_shade(self.render.pos.lx, shade), shade)
            }
        } else if cgb {
            let c = if self.regs.dmg_compat && !bg_off {
                shade_of(self.eff.bgp, bg_c)
            } else {
                bg_c
            };
            (cgb_color(&self.mem.bg_pal_ram, bg_attr % 8, c), 0)
        } else if bg_off {
            (self.dmg_shade(self.render.pos.lx, 0), 0)
        } else {
            let shade = shade_of(self.eff.bgp, bg_c);
            (self.dmg_shade(self.render.pos.lx, shade), shade)
        }
    }
}

} // verus!
