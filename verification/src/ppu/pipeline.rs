//! The per-dot mode-3 driver: pipeline start, the stall and fetch steps, the
//! sprite fetch triggers, the pixel pop and output, and the end-of-line grid
//! (the pipe-end anchors and the projected mode-0 flip two dots earlier).
use vstd::prelude::*;
use super::render::{fetch_step, pop, prefill_hunt, spec_fetch_step, spec_pop, spec_prefill_hunt};
use super::sprite::{
    fetch_sprite_row, obj_fetch_base, penalty, shift_fifo, spec_merged_fifo, spec_obj_fetch_base,
    spec_penalty,
};
use crate::sgb::SgbView;
use crate::SCREEN_PIXELS;
use super::{
    empty_fifo, empty_pixel_spec, BgFifo, FetchPhase, Fetcher, LineFlags, PipePos, Ppu, Render,
    Sprite, SpritePixel, WinLatch, WinRender, LCDC_OBJ_ENABLE, LCDC_WIN_ENABLE,
};
use crate::bits::lemma_u8_bits;
use super::window::spec_win_start;
use crate::SCREEN_W;

verus! {

/// The line flags after the output position advanced to `lx`: pixel 159
/// raises the HBlank-DMA lead; pixel 160 ends the pipe (`render_finished`,
/// the palette unblock edge on bare lines) and fires the mode-0 flip here if
/// the projection had not already.
pub open spec fn spec_flags_after_lx(f: LineFlags, lx: u8, bare: bool) -> LineFlags {
    if lx == 159 {
        LineFlags { hdma_lead: true, ..f }
    } else if lx == 160 {
        let g = LineFlags {
            render_finished: true,
            pal_access_flip: if bare {
                Some(0i8)
            } else {
                None
            },
            ..f
        };
        if !f.m0_src {
            LineFlags { m0_src: true, m0_rise_dot: true, line_render_done: true, ..g }
        } else {
            g
        }
    } else {
        f
    }
}

/// The mode-0 flip's dots remaining: the stall, the pixels left, the dots
/// until the FIFO can pop again, each sprite fetch still ahead of the output
/// position (base cost plus its first-per-tile alignment penalty), and a
/// window start still ahead (6 dots, 2 for the DMG WX=166 aborted start).
pub open spec fn proj_phase_dots(phase: FetchPhase) -> u32 {
    match phase {
        FetchPhase::TileNoWait => 6,
        FetchPhase::TileNo => 5,
        FetchPhase::LoWait => 4,
        FetchPhase::Lo => 3,
        FetchPhase::HiWait => 2,
        FetchPhase::Hi => 1,
        FetchPhase::Push => 1,
    }
}

/// The dots the selected sprites from slot `i` on add to the flip
/// projection: each one not fetched yet (`orig`) whose left edge `x - 8`
/// lies on screen at or ahead of the output position `lx` pays its fetch
/// base (given the fetches counted so far, `acc`) and its first-per-tile
/// alignment penalty (given the tiles already paid).
pub open spec fn sprite_proj(
    s: Seq<Sprite>,
    i: int,
    n: int,
    orig: u16,
    acc: u16,
    tiles: u64,
    lx: u8,
    scx: u8,
    cgb: bool,
) -> int
    decreases n - i,
{
    if i >= n || i < 0 {
        0
    } else {
        let x = s[i].x;
        if orig & (1u16 << (i as u16)) == 0 && 8 <= x < 168 && x - 8 >= lx {
            let t = spec_penalty(tiles, x, scx);
            spec_obj_fetch_base(cgb, acc) + t.1 + sprite_proj(
                s,
                i + 1,
                n,
                orig,
                acc | (1u16 << (i as u16)),
                t.0,
                lx,
                scx,
                cgb,
            )
        } else {
            sprite_proj(s, i + 1, n, orig, acc, tiles, lx, scx, cgb)
        }
    }
}

/// Each sprite adds at most 11 dots (6 of fetch, 5 of penalty).
pub proof fn lemma_sprite_proj_bound(
    s: Seq<Sprite>,
    i: int,
    n: int,
    orig: u16,
    acc: u16,
    tiles: u64,
    lx: u8,
    scx: u8,
    cgb: bool,
)
    requires
        0 <= i <= n,
    ensures
        0 <= sprite_proj(s, i, n, orig, acc, tiles, lx, scx, cgb) <= 11 * (n - i),
    decreases n - i,
{
    if i < n {
        let x = s[i].x;
        let t = spec_penalty(tiles, x, scx);
        assert(t.1 <= 5);
        lemma_sprite_proj_bound(s, i + 1, n, orig, acc | (1u16 << (i as u16)), t.0, lx, scx, cgb);
        lemma_sprite_proj_bound(s, i + 1, n, orig, acc, tiles, lx, scx, cgb);
    }
}

/// `b` is `a` with at most the pixel at `idx` changed.
pub open spec fn only_pixel_changed(a: Seq<u32>, b: Seq<u32>, idx: int) -> bool {
    &&& b.len() == a.len()
    &&& forall|j: int| 0 <= j < a.len() && j != idx ==> #[trigger] b[j] == a[j]
}

impl Ppu {
    /// The dots until the projected mode-0 flip, and the flip's lead over
    /// the pipe end (see [`Self::flip_projection`]).
    pub open spec fn spec_flip_projection(&self) -> (int, int) {
        let r = self.render;
        let cgb = self.cgb();
        let fifo_wait: int = if r.fifo.count == 0 {
            proj_phase_dots(r.fetch.phase) as int
        } else {
            0
        };
        let spr: int = if self.eff.lcdc & LCDC_OBJ_ENABLE != 0 {
            sprite_proj(
                r.sprites@,
                0,
                r.n_sprites as int,
                r.fetched,
                r.fetched,
                r.penalty_tiles,
                r.pos.lx,
                self.eff.scx,
                cgb,
            )
        } else {
            0
        };
        let wx = self.eff.wx;
        let dmg_166 = !cgb && wx == 166;
        let win: int = if self.eff.lcdc & LCDC_WIN_ENABLE != 0 && self.window.wy_triggered && 7 <= wx <= 166
            && wx - 7 >= r.pos.lx {
            if !r.win.active {
                if dmg_166 {
                    2
                } else {
                    6
                }
            } else if dmg_166 && !self.window.start_pending {
                2
            } else {
                0
            }
        } else {
            0
        };
        let up: int = if r.fetched != 0 && !cgb {
            3
        } else {
            2
        };
        let base: int = if self.ds {
            up - 1
        } else {
            up
        };
        let down: int = (if r.win.stalled {
            1int
        } else {
            0
        }) + (if r.win.aborted {
            1int
        } else {
            0
        });
        (r.pos.stall + (160 - r.pos.lx) + fifo_wait + spr + win, if base > down {
            base - down
        } else {
            0
        })
    }

    /// The line flags once the projected mode-0 flip fires: the mode-0
    /// source rises on this dot with the visible flip, and the
    /// access/STAT flip edges mark bare and sprite lines.
    pub open spec fn spec_flip_flags(&self) -> LineFlags {
        let bare = self.render.fetched == 0 && !self.render.win.active && !self.glitch_line;
        LineFlags {
            m0_src: true,
            m0_rise_dot: true,
            line_render_done: true,
            m0_access_flip: if bare {
                Some(0i8)
            } else {
                None
            },
            m0_stat_flip: if self.render.fetched != 0 {
                Some(0i8)
            } else {
                None
            },
            ..self.flags
        }
    }
}

impl Ppu {
    /// The fetcher and FIFO after one fetcher dot on this state (the first
    /// push waits for pause-aware dot 12 unless the window restarted it).
    pub open spec fn spec_fetcher_dot(&self) -> (Fetcher, BgFifo) {
        spec_fetch_step(
            self.render.fetch,
            self.render.fifo,
            self.render.fetch.win_mode || self.render.pos.pos_dot >= 12,
            self.mem.vram@,
            self.eff.lcdc,
            self.eff.scy,
            self.eff.scx,
            self.ly,
            self.window.win_line,
            self.cgb(),
        )
    }

    /// The sprite-fetch state: the fetched mask, the tiles that paid the
    /// alignment penalty, the stall and the sprite FIFO.
    pub open spec fn fetch_state(&self) -> (u16, u64, int, Seq<SpritePixel>) {
        (self.render.fetched, self.render.penalty_tiles, self.render.pos.stall as int, self.render.sp_fifo@)
    }

    /// The sprite-fetch state after selected sprite `i` is fetched from
    /// state `st`: marked fetched, its fetch base and first-per-tile penalty
    /// added to the stall, its row merged into the FIFO.
    pub open spec fn take_step(&self, i: int, st: (u16, u64, int, Seq<SpritePixel>)) -> (
        u16,
        u64,
        int,
        Seq<SpritePixel>,
    ) {
        let sp = self.render.sprites@[i];
        let t = spec_penalty(st.1, sp.x, self.eff.scx);
        (
            st.0 | (1u16 << (i as u16)),
            t.0,
            st.2 + spec_obj_fetch_base(self.cgb(), st.0) + t.1,
            spec_merged_fifo(
                st.3,
                self.mem.vram@,
                sp,
                self.ly,
                self.render.pos.lx,
                self.eff.lcdc,
                self.cgb(),
                self.regs.opri,
                self.regs.dmg_compat,
            ),
        )
    }

    /// Whether selected sprite `i` matches the OBJ comparator: OAM X equal
    /// to the prefill position `key`, or (at the output position) on screen
    /// with its left edge at `key`.
    pub open spec fn comparator_hit(&self, i: int, at_lx: bool, key: u8) -> bool {
        let x = self.render.sprites@[i].x;
        if at_lx {
            8 <= x < 168 && x - 8 == key
        } else {
            x == key
        }
    }

    /// The sprite-fetch state after fetching, in OAM order from slot `i`
    /// on, every unfetched selected sprite the comparator matches.
    pub open spec fn fetch_run_from(&self, i: int, at_lx: bool, key: u8, st: (u16, u64, int, Seq<SpritePixel>)) -> (
        u16,
        u64,
        int,
        Seq<SpritePixel>,
    )
        decreases self.render.n_sprites - i,
    {
        if i < 0 || i >= self.render.n_sprites {
            st
        } else if st.0 & (1u16 << (i as u16)) == 0 && self.comparator_hit(i, at_lx, key) {
            self.fetch_run_from(i + 1, at_lx, key, self.take_step(i, st))
        } else {
            self.fetch_run_from(i + 1, at_lx, key, st)
        }
    }

    /// The sprite-fetch state after a comparator round (see
    /// [`Self::fetch_run_from`]).
    pub open spec fn spec_fetch_run(&self, at_lx: bool, key: u8) -> (u16, u64, int, Seq<SpritePixel>) {
        self.fetch_run_from(0, at_lx, key, self.fetch_state())
    }
}

impl Ppu {
    /// One dot of the BG/window fetcher (see [`fetch_step`]); the first push
    /// of a line waits for pause-aware dot 12 unless the window restarted it.
    pub fn fetcher_step(&mut self)
        requires
            old(self).wf(),
        ensures
            final(self).wf(),
            final(self).pipe_frame(old(self)),
            final(self).flags == old(self).flags,
            final(self).window == old(self).window,
            final(self).back == old(self).back,
            final(self).sgb == old(self).sgb,
            final(self).render.active == old(self).render.active,
            final(self).render.pos == old(self).render.pos,
            final(self).render.win == old(self).render.win,
            final(self).render.n_sprites == old(self).render.n_sprites,
            final(self).render.fetched == old(self).render.fetched,
            final(self).render.fetch.win_mode == old(self).render.fetch.win_mode,
            final(self).render.sprites == old(self).render.sprites,
            final(self).render.penalty_tiles == old(self).render.penalty_tiles,
            final(self).render.sp_fifo == old(self).render.sp_fifo,
            (final(self).render.fetch, final(self).render.fifo) == old(self).spec_fetcher_dot(),
    {
        proof {
            reveal(Render::wf);
            reveal(super::mem_ok);
        }
        let push_ok = self.render.fetch.win_mode || self.render.pos.pos_dot >= 12;
        let (f, q) = fetch_step(
            self.render.fetch,
            self.render.fifo,
            push_ok,
            &self.mem.vram,
            self.eff.lcdc,
            self.eff.scy,
            self.eff.scx,
            self.ly,
            self.window.win_line,
            self.model.is_cgb(),
        );
        self.render.fetch = f;
        self.render.fifo = q;
    }

    /// Consume one stall dot; while a sprite fetch holds the pipeline the BG
    /// fetcher keeps stepping in real time for its `fetch_run` dots.
    pub fn stall_tick(&mut self)
        requires
            old(self).wf(),
            old(self).render.pos.stall > 0,
        ensures
            final(self).wf(),
            final(self).pipe_frame(old(self)),
            final(self).flags == old(self).flags,
            final(self).window == old(self).window,
            final(self).back == old(self).back,
            final(self).sgb == old(self).sgb,
            final(self).render.active == old(self).render.active,
            final(self).render.pos.mode3_dot == old(self).render.pos.mode3_dot,
            final(self).render.pos.lx == old(self).render.pos.lx,
            final(self).render.pos.stall == old(self).render.pos.stall - 1,
            final(self).render.pos == (PipePos {
                stall: (old(self).render.pos.stall - 1) as u16,
                fetch_run: if old(self).render.pos.fetch_run > 0 {
                    (old(self).render.pos.fetch_run - 1) as u16
                } else {
                    0u16
                },
                ..old(self).render.pos
            }),
            (final(self).render.fetch, final(self).render.fifo) == if old(self).render.pos.fetch_run > 0 {
                old(self).spec_fetcher_dot()
            } else {
                (old(self).render.fetch, old(self).render.fifo)
            },
            final(self).render.win == old(self).render.win,
            final(self).render.fetched == old(self).render.fetched,
            final(self).render.sprites == old(self).render.sprites,
            final(self).render.n_sprites == old(self).render.n_sprites,
            final(self).render.penalty_tiles == old(self).render.penalty_tiles,
            final(self).render.sp_fifo == old(self).render.sp_fifo,
    {
        proof {
            reveal(Render::wf);
        }
        let p = self.render.pos;
        let run = p.fetch_run > 0;
        self.render.pos = PipePos {
            stall: p.stall - 1,
            fetch_run: if run {
                p.fetch_run - 1
            } else {
                0
            },
            ..p
        };
        if run {
            self.fetcher_step();
        }
    }

    /// A stall engaged after the mode-0 flip fired: the fetcher waking back
    /// up drops STAT back to mode 3, re-blocks OAM/VRAM and lowers the mode-0
    /// source until the projection re-fires (a latched IF bit stays).
    pub fn m0_unflip(&mut self)
        requires
            old(self).wf(),
        ensures
            final(self).wf(),
            final(self).pipe_frame(old(self)),
            final(self).render == old(self).render,
            final(self).window == old(self).window,
            final(self).back == old(self).back,
            final(self).sgb == old(self).sgb,
            final(self).flags == if old(self).flags.m0_src && old(self).render.active {
                LineFlags { m0_src: false, m0_rise_dot: false, line_render_done: false, ..old(self).flags }
            } else {
                old(self).flags
            },
    {
        if self.flags.m0_src && self.render.active {
            self.flags = LineFlags {
                m0_src: false,
                m0_rise_dot: false,
                line_render_done: false,
                ..self.flags
            };
        }
    }

    /// Advance the output position and fire the pipe-end anchors (see
    /// [`spec_flags_after_lx`]); pixel 160 ends the pipeline.
    pub fn advance_lx(&mut self)
        requires
            old(self).wf(),
            old(self).render.active,
        ensures
            final(self).wf(),
            final(self).pipe_frame(old(self)),
            final(self).window == old(self).window,
            final(self).back == old(self).back,
            final(self).sgb == old(self).sgb,
            final(self).render.pos == (PipePos { lx: (old(self).render.pos.lx + 1) as u8, ..old(self).render.pos }),
            final(self).render.active == (old(self).render.pos.lx + 1 < 160),
            final(self).render == (Render {
                pos: final(self).render.pos,
                active: final(self).render.active,
                ..old(self).render
            }),
            final(self).flags == spec_flags_after_lx(
                old(self).flags,
                (old(self).render.pos.lx + 1) as u8,
                old(self).render.fetched == 0 && !old(self).render.win.active && !old(self).glitch_line,
            ),
    {
        proof {
            reveal(Render::wf);
        }
        let lx = self.render.pos.lx + 1;
        let bare = self.render.fetched == 0 && !self.render.win.active && !self.glitch_line;
        let f = self.flags;
        let nf = if lx == 159 {
            LineFlags { hdma_lead: true, ..f }
        } else if lx == 160 {
            let g = LineFlags {
                render_finished: true,
                pal_access_flip: if bare {
                    Some(0i8)
                } else {
                    None
                },
                ..f
            };
            if !f.m0_src {
                LineFlags { m0_src: true, m0_rise_dot: true, line_render_done: true, ..g }
            } else {
                g
            }
        } else {
            f
        };
        self.render.pos = PipePos { lx, ..self.render.pos };
        self.render.active = lx < 160;
        self.flags = nf;
    }

    /// Ship one pixel: shift the sprite FIFO, mix the BG color with the
    /// sprite pixel, write the back buffer at (lx, LY), and on the DMG path
    /// record the pixel's shade for the SGB screen capture.
    pub fn output_pixel(&mut self, bg_c: u8, bg_attr: u8)
        requires
            old(self).wf(),
            old(self).render.active,
            old(self).line <= 143,
            bg_c < 4,
        ensures
            final(self).wf(),
            final(self).pipe_frame(old(self)),
            final(self).flags == old(self).flags,
            final(self).window == old(self).window,
            final(self).render.active == old(self).render.active,
            final(self).render.pos == old(self).render.pos,
            final(self).render.fifo == old(self).render.fifo,
            final(self).render.fetch == old(self).render.fetch,
            final(self).render.win == old(self).render.win,
            final(self).render.n_sprites == old(self).render.n_sprites,
            final(self).render.fetched == old(self).render.fetched,
            final(self).render.sprites == old(self).render.sprites,
            final(self).render.penalty_tiles == old(self).render.penalty_tiles,
            final(self).render.sp_fifo@ == old(self).render.sp_fifo@.subrange(1, 8).push(empty_pixel_spec()),
            final(self).back@ == old(self).back@.update(
                old(self).ly * SCREEN_W + old(self).render.pos.lx,
                old(self).spec_mix(bg_c, bg_attr, old(self).render.sp_fifo@[0]).0,
            ),
            old(self).cgb() ==> final(self).sgb == old(self).sgb,
            !old(self).cgb() ==> (old(self).sgb matches Some(s) ==> final(self).sgb->Some_0.shade_buf@
                == s.shade_buf@.update(
                old(self).ly * SCREEN_W + old(self).render.pos.lx,
                old(self).spec_mix(bg_c, bg_attr, old(self).render.sp_fifo@[0]).1 % 4,
            )),
    {
        proof {
            reveal(Render::wf);
            reveal(super::frames_ok);
            reveal(super::sgb_ok);
        }
        let sp = shift_fifo(&mut self.render.sp_fifo);
        let (color, shade) = self.mix(bg_c, bg_attr, sp);
        let idx = self.ly as usize * SCREEN_W + self.render.pos.lx as usize;
        self.back.set(idx, color);
        if !self.model.is_cgb() {
            self.record_sgb_shade(idx, shade);
        }
    }

    /// Record a rendered pixel's 2-bit shade for the SGB screen capture; a
    /// no-op off SGB.
    pub fn record_sgb_shade(&mut self, idx: usize, shade: u8)
        requires
            old(self).wf(),
        ensures
            final(self).wf(),
            final(self).pipe_frame(old(self)),
            final(self).flags == old(self).flags,
            final(self).window == old(self).window,
            final(self).render == old(self).render,
            final(self).back == old(self).back,
            final(self).sgb is Some == old(self).sgb is Some,
            old(self).sgb matches Some(s) ==> final(self).sgb->Some_0 == (SgbView {
                shade_buf: final(self).sgb->Some_0.shade_buf,
                ..s
            }) && final(self).sgb->Some_0.shade_buf@ == if idx < SCREEN_PIXELS {
                s.shade_buf@.update(idx as int, shade % 4)
            } else {
                s.shade_buf@
            },
    {
        proof {
            reveal(super::sgb_ok);
        }
        if let Some(s) = self.sgb.as_mut() {
            s.record_shade(idx, shade);
        }
    }

    /// Fetch selected sprite `i`: pay the base cost and its alignment
    /// penalty as stall dots and merge its row into the sprite FIFO.
    pub fn take_sprite(&mut self, i: usize)
        requires
            old(self).wf(),
            i < old(self).render.n_sprites,
            old(self).render.pos.stall + 11 <= u16::MAX,
        ensures
            final(self).wf(),
            final(self).pipe_frame(old(self)),
            final(self).flags == old(self).flags,
            final(self).window == old(self).window,
            final(self).back == old(self).back,
            final(self).sgb == old(self).sgb,
            final(self).render.active == old(self).render.active,
            final(self).render.pos == (PipePos { stall: final(self).render.pos.stall, ..old(self).render.pos }),
            old(self).render.pos.stall < final(self).render.pos.stall <= old(self).render.pos.stall + 11,
            final(self).render.fifo == old(self).render.fifo,
            final(self).render.fetch == old(self).render.fetch,
            final(self).render.win == old(self).render.win,
            final(self).render.n_sprites == old(self).render.n_sprites,
            final(self).render.sprites == old(self).render.sprites,
            old(self).take_step(i as int, old(self).fetch_state()) == final(self).fetch_state(),
    {
        proof {
            reveal(Render::wf);
            reveal(super::mem_ok);
        }
        let s = self.render.sprites[i];
        let base = obj_fetch_base(self.model.is_cgb(), self.render.fetched);
        let fetched = self.render.fetched | (1u16 << (i as u16));
        let (tiles, wait) = penalty(self.render.penalty_tiles, s.x, self.eff.scx);
        fetch_sprite_row(
            &mut self.render.sp_fifo,
            &self.mem.vram,
            s,
            self.ly,
            self.render.pos.lx,
            self.eff.lcdc,
            self.model.is_cgb(),
            self.regs.opri,
            self.regs.dmg_compat,
        );
        self.render.fetched = fetched;
        self.render.penalty_tiles = tiles;
        self.render.pos = PipePos { stall: self.render.pos.stall + base + wait, ..self.render.pos };
    }

    /// The prefill-phase OBJ position comparator: the sprites with OAM X
    /// equal to the prefill position `pos` are fetched, in OAM order, while
    /// the thrown-away first tile shifts out, freezing the pipeline including
    /// the SCX hunt.
    pub fn prefill_sprites(&mut self, pos: u8)
        requires
            old(self).wf(),
            old(self).render.pos.stall == 0,
        ensures
            final(self).wf(),
            final(self).pipe_frame(old(self)),
            final(self).flags == old(self).flags,
            final(self).window == old(self).window,
            final(self).back == old(self).back,
            final(self).sgb == old(self).sgb,
            final(self).render.active == old(self).render.active,
            final(self).render.pos == (PipePos { stall: final(self).render.pos.stall, ..old(self).render.pos }),
            final(self).render.fifo == old(self).render.fifo,
            final(self).render.fetch == old(self).render.fetch,
            final(self).render.win == old(self).render.win,
            final(self).render.sprites == old(self).render.sprites,
            final(self).render.n_sprites == old(self).render.n_sprites,
            old(self).spec_fetch_run(false, pos) == (
                final(self).render.fetched,
                final(self).render.penalty_tiles,
                final(self).render.pos.stall as int,
                final(self).render.sp_fifo@,
            ),
    {
        self.fetch_matching(false, pos);
    }

    /// The OBJ position comparator at the output position: the on-screen
    /// sprites whose left edge is the next pixel are fetched in OAM order
    /// (they share one X), each un-flipping an already fired mode-0 flip.
    pub fn lx_sprites(&mut self)
        requires
            old(self).wf(),
            old(self).render.pos.stall == 0,
        ensures
            final(self).wf(),
            final(self).pipe_frame(old(self)),
            final(self).window == old(self).window,
            final(self).back == old(self).back,
            final(self).sgb == old(self).sgb,
            final(self).render.active == old(self).render.active,
            final(self).render.pos == (PipePos { stall: final(self).render.pos.stall, ..old(self).render.pos }),
            final(self).render.fifo == old(self).render.fifo,
            final(self).render.fetch == old(self).render.fetch,
            final(self).render.win == old(self).render.win,
            final(self).render.sprites == old(self).render.sprites,
            final(self).render.n_sprites == old(self).render.n_sprites,
            old(self).spec_fetch_run(true, old(self).render.pos.lx) == (
                final(self).render.fetched,
                final(self).render.penalty_tiles,
                final(self).render.pos.stall as int,
                final(self).render.sp_fifo@,
            ),
            final(self).render.fetched == old(self).render.fetched ==> final(self).flags == old(self).flags,
            final(self).render.fetched != old(self).render.fetched ==> final(self).flags == if old(
                self,
            ).flags.m0_src && old(self).render.active {
                LineFlags { m0_src: false, m0_rise_dot: false, line_render_done: false, ..old(self).flags }
            } else {
                old(self).flags
            },
    {
        self.fetch_matching(true, self.render.pos.lx);
    }

    /// Fetch, in OAM order, every selected unfetched sprite the comparator
    /// matches (see [`Self::spec_fetch_run`]); at the output position each
    /// fetch also un-flips an already fired mode-0 flip.
    fn fetch_matching(&mut self, at_lx: bool, key: u8)
        requires
            old(self).wf(),
            old(self).render.pos.stall == 0,
        ensures
            final(self).wf(),
            final(self).pipe_frame(old(self)),
            final(self).window == old(self).window,
            final(self).back == old(self).back,
            final(self).sgb == old(self).sgb,
            final(self).render.active == old(self).render.active,
            final(self).render.pos == (PipePos { stall: final(self).render.pos.stall, ..old(self).render.pos }),
            final(self).render.fifo == old(self).render.fifo,
            final(self).render.fetch == old(self).render.fetch,
            final(self).render.win == old(self).render.win,
            final(self).render.sprites == old(self).render.sprites,
            final(self).render.n_sprites == old(self).render.n_sprites,
            old(self).spec_fetch_run(at_lx, key) == (
                final(self).render.fetched,
                final(self).render.penalty_tiles,
                final(self).render.pos.stall as int,
                final(self).render.sp_fifo@,
            ),
            !at_lx || final(self).render.fetched == old(self).render.fetched ==> final(self).flags == old(self).flags,
            at_lx && final(self).render.fetched != old(self).render.fetched ==> final(self).flags == if old(
                self,
            ).flags.m0_src && old(self).render.active {
                LineFlags { m0_src: false, m0_rise_dot: false, line_render_done: false, ..old(self).flags }
            } else {
                old(self).flags
            },
    {
        proof {
            reveal(Render::wf);
        }
        let n = self.render.n_sprites as usize;
        let mut i: usize = 0;
        let ghost f0 = self.render.fetched;
        proof {
            assert((f0 | f0) == f0) by (bit_vector);
        }
        while i < n
            invariant
                0 <= i <= n,
                n == old(self).render.n_sprites,
                n <= 10,
                self.wf(),
                self.pipe_frame(old(self)),
                self.window == old(self).window,
                self.back == old(self).back,
                self.sgb == old(self).sgb,
                self.render.active == old(self).render.active,
                self.render.pos == (PipePos { stall: self.render.pos.stall, ..old(self).render.pos }),
                self.render.pos.stall <= 11 * i,
                self.render.fifo == old(self).render.fifo,
                self.render.fetch == old(self).render.fetch,
                self.render.win == old(self).render.win,
                self.render.sprites == old(self).render.sprites,
                self.render.n_sprites == old(self).render.n_sprites,
                self.render.sprites@.len() == 10,
                old(self).spec_fetch_run(at_lx, key) == old(self).fetch_run_from(
                    i as int,
                    at_lx,
                    key,
                    (self.render.fetched, self.render.penalty_tiles, self.render.pos.stall as int, self.render.sp_fifo@),
                ),
                !at_lx || self.render.fetched == old(self).render.fetched ==> self.flags == old(self).flags,
                at_lx && self.render.fetched != old(self).render.fetched ==> self.flags == if old(
                    self,
                ).flags.m0_src && old(self).render.active {
                    LineFlags { m0_src: false, m0_rise_dot: false, line_render_done: false, ..old(self).flags }
                } else {
                    old(self).flags
                },
                (self.render.fetched | old(self).render.fetched) == self.render.fetched,
            decreases n - i,
        {
            let sp = self.render.sprites[i];
            let unfetched = self.render.fetched & (1u16 << (i as u16)) == 0;
            let ghost f = self.render.fetched;
            let ghost o = old(self).render.fetched;
            let ghost b: u16 = 1u16 << (i as u16);
            proof {
                let iu = i as u16;
                assert(iu < 16 ==> (1u16 << iu) != 0) by (bit_vector);
                assert(b != 0 && f & b == 0 && (f | o) == f ==> (f | b) != o && ((f | b) | o) == (f | b))
                    by (bit_vector);
            }
            let hit = if at_lx {
                8 <= sp.x && sp.x < 168 && sp.x - 8 == key
            } else {
                sp.x == key
            };
            if unfetched && hit {
                self.take_sprite(i);
                if at_lx {
                    self.m0_unflip();
                }
            }
            i += 1;
        }
    }

    /// Start mode 3: clear the pipeline (see [`Render::spec_started`]). A
    /// window-start request carried over from a DMG WX=166 match is consumed
    /// here, starting the line with the window already drawing when LCDC.5
    /// is set.
    pub fn render_init(&mut self)
        requires
            old(self).wf(),
        ensures
            final(self).wf(),
            final(self).pipe_frame(old(self)),
            final(self).flags == old(self).flags,
            final(self).back == old(self).back,
            final(self).sgb == old(self).sgb,
            final(self).render.spec_started(old(self).glitch_line),
            !final(self).window.start_pending,
            final(self).window.wy_triggered == old(self).window.wy_triggered,
            ({
                let carried = old(self).window.start_pending && old(self).eff.lcdc & LCDC_WIN_ENABLE != 0;
                &&& final(self).render.fetch == Fetcher {
                    phase: FetchPhase::TileNoWait,
                    fetch_x: if carried {
                        1u8
                    } else {
                        0u8
                    },
                    win_mode: carried,
                    first_discard: true,
                    ..old(self).render.fetch
                }
                &&& final(self).render.win == WinRender {
                    active: carried,
                    stalled: false,
                    aborted: false,
                    match_prev: false,
                    wx_match_dot: 0,
                    pending_until: 0,
                }
                &&& final(self).window == WinLatch {
                    start_pending: false,
                    win_line: if carried {
                        old(self).window.win_line.wrapping_add(1)
                    } else {
                        old(self).window.win_line
                    },
                    ..old(self).window
                }
            }),
            final(self).render.fifo == (BgFifo { count: 0, ..old(self).render.fifo }),
            final(self).render.sp_fifo@.len() == 8,
            forall|i: int| 0 <= i < 8 ==> #[trigger] final(self).render.sp_fifo@[i] == empty_pixel_spec(),
            final(self).render.sprites == old(self).render.sprites,
            !old(self).glitch_line ==> final(self).render.n_sprites == old(self).render.n_sprites,
    {
        proof {
            reveal(Render::wf);
            crate::bits::lemma_u8_bits(self.eff.lcdc);
        }
        let glitch = self.glitch_line;
        let carried = self.window.start_pending && self.eff.lcdc & LCDC_WIN_ENABLE != 0;
        self.render.active = true;
        self.render.pos = PipePos {
            lx: 0,
            discard: 0,
            mode3_dot: 0,
            pos_dot: 0,
            hunt_idx: 0,
            hunt_done: false,
            hunt_fine: 0,
            stall: if glitch {
                4
            } else {
                0
            },
            fetch_run: 0,
            prefill_pos: 0,
        };
        self.render.fifo = BgFifo { count: 0, ..self.render.fifo };
        self.render.fetch = Fetcher {
            phase: FetchPhase::TileNoWait,
            fetch_x: if carried {
                1
            } else {
                0
            },
            win_mode: carried,
            first_discard: true,
            ..self.render.fetch
        };
        self.render.fetched = 0;
        self.render.penalty_tiles = 0;
        self.render.sp_fifo = empty_fifo();
        self.render.win = WinRender {
            active: carried,
            stalled: false,
            aborted: false,
            match_prev: false,
            wx_match_dot: 0,
            pending_until: 0,
        };
        if glitch {
            self.render.n_sprites = 0;
        }
        let w = self.window;
        self.window = WinLatch {
            start_pending: false,
            win_line: if carried {
                w.win_line.wrapping_add(1)
            } else {
                w.win_line
            },
            ..w
        };
    }

    /// The dots until the projected mode-0 flip and the flip's lead over the
    /// pipe end: 2 dots on a bare line, 3 on a sprite-laden DMG line, one
    /// less in double speed, less one each after a window start stall and a
    /// DMG window abort.
    pub fn flip_projection(&self) -> (r: (u32, u32))
        requires
            self.wf(),
        ensures
            r.1 <= 3,
            r.0 <= 0x2_0000,
            r.0 == self.spec_flip_projection().0,
            r.1 == self.spec_flip_projection().1,
    {
        proof {
            reveal(Render::wf);
            crate::bits::lemma_u8_bits(self.eff.lcdc);
        }
        let r = &self.render;
        let mut proj: u32 = r.pos.stall as u32 + (160 - r.pos.lx as u32);
        if r.fifo.count == 0 {
            proj = proj + match r.fetch.phase {
                FetchPhase::TileNoWait => 6,
                FetchPhase::TileNo => 5,
                FetchPhase::LoWait => 4,
                FetchPhase::Lo => 3,
                FetchPhase::HiWait => 2,
                FetchPhase::Hi => 1,
                FetchPhase::Push => 1,
            };
        }
        let cgb = self.model.is_cgb();
        let ghost proj0 = proj;
        if self.eff.lcdc & LCDC_OBJ_ENABLE != 0 {
            let mut tiles = r.penalty_tiles;
            let mut fetched = r.fetched;
            let n = r.n_sprites as usize;
            let mut i: usize = 0;
            proof {
                lemma_sprite_proj_bound(r.sprites@, 0, n as int, r.fetched, fetched, tiles, r.pos.lx, self.eff.scx, cgb);
            }
            while i < n
                invariant
                    0 <= i <= n,
                    n <= 10,
                    n == r.n_sprites,
                    r.sprites@.len() == 10,
                    proj0 <= 0xFFFF + 166,
                    cgb == self.cgb(),
                    proj + sprite_proj(r.sprites@, i as int, n as int, r.fetched, fetched, tiles, r.pos.lx, self.eff.scx, cgb)
                        == proj0 + sprite_proj(r.sprites@, 0, n as int, r.fetched, r.fetched, r.penalty_tiles, r.pos.lx, self.eff.scx, cgb),
                    sprite_proj(r.sprites@, 0, n as int, r.fetched, r.fetched, r.penalty_tiles, r.pos.lx, self.eff.scx, cgb) <= 110,
                    0 <= sprite_proj(r.sprites@, i as int, n as int, r.fetched, fetched, tiles, r.pos.lx, self.eff.scx, cgb),
                decreases n - i,
            {
                proof {
                    lemma_sprite_proj_bound(r.sprites@, i as int + 1, n as int, r.fetched, fetched | (1u16 << (i as u16)), spec_penalty(tiles, r.sprites@[i as int].x, self.eff.scx).0, r.pos.lx, self.eff.scx, cgb);
                    lemma_sprite_proj_bound(r.sprites@, i as int + 1, n as int, r.fetched, fetched, tiles, r.pos.lx, self.eff.scx, cgb);
                }
                if r.fetched & (1u16 << (i as u16)) == 0 {
                    let x = r.sprites[i].x;
                    if 8 <= x && x < 168 && x - 8 >= r.pos.lx {
                        proj = proj + obj_fetch_base(cgb, fetched) as u32;
                        fetched = fetched | (1u16 << (i as u16));
                        let (t2, wait) = penalty(tiles, x, self.eff.scx);
                        tiles = t2;
                        proj = proj + wait as u32;
                    }
                }
                i += 1;
            }
        }
        let wx = self.eff.wx;
        if self.eff.lcdc & LCDC_WIN_ENABLE != 0 && self.window.wy_triggered && 7 <= wx && wx <= 166 && wx
            - 7 >= r.pos.lx {
            let dmg_166 = !cgb && wx == 166;
            if !r.win.active {
                proj = proj + if dmg_166 {
                    2
                } else {
                    6
                };
            } else if dmg_166 && !self.window.start_pending {
                proj = proj + 2;
            }
        }
        let up: u32 = 2 + if r.fetched != 0 && !cgb {
            1u32
        } else {
            0
        };
        let base: u32 = if self.ds {
            up - 1
        } else {
            up
        };
        let down: u32 = (if r.win.stalled {
            1u32
        } else {
            0
        }) + (if r.win.aborted {
            1u32
        } else {
            0
        });
        let lead = if base > down {
            base - down
        } else {
            0
        };
        (proj, lead)
    }

    /// The mode-0 STAT IRQ rise and the visible mode-0 flip (STAT mode 0,
    /// OAM/VRAM unblock), evaluated once per mode-3 dot after the render
    /// step: they fire together when the projected remaining dots reach the
    /// flip's lead over the pipe end (254 + SCX%8 on a bare line).
    pub fn m0_flip_events(&mut self)
        requires
            old(self).wf(),
        ensures
            final(self).wf(),
            final(self).pipe_frame(old(self)),
            final(self).render == old(self).render,
            final(self).window == old(self).window,
            final(self).back == old(self).back,
            final(self).sgb == old(self).sgb,
            old(self).flags.m0_src || !old(self).render.active ==> final(self).flags == old(self).flags,
            !old(self).flags.m0_src && old(self).render.active ==> final(self).flags == if old(
                self,
            ).spec_flip_projection().0 <= old(self).spec_flip_projection().1 {
                old(self).spec_flip_flags()
            } else {
                old(self).flags
            },
    {
        if self.flags.m0_src || !self.render.active {
            return ;
        }
        let (proj, lead) = self.flip_projection();
        if proj <= lead {
            let bare = self.render.fetched == 0 && !self.render.win.active && !self.glitch_line;
            let sprites = self.render.fetched != 0;
            self.flags = LineFlags {
                m0_src: true,
                m0_rise_dot: true,
                line_render_done: true,
                m0_access_flip: if bare {
                    Some(0i8)
                } else {
                    None
                },
                m0_stat_flip: if sprites {
                    Some(0i8)
                } else {
                    None
                },
                ..self.flags
            };
        }
    }

    /// The prefill phase of a mode-3 dot (from mode-3 dot 5 while the
    /// prefill walk lasts): the SCX fine-scroll hunt steps, and sprites with
    /// OAM X at the walk position are fetched, stalling the pipeline.
    /// Returns whether the dot ended in a stall.
    pub fn prefill_stage(&mut self) -> (ended: bool)
        requires
            old(self).wf(),
            old(self).render.active,
            old(self).render.pos.stall == 0,
            old(self).render.pos.pos_dot < old(self).render.pos.mode3_dot,
        ensures
            final(self).wf(),
            final(self).pipe_frame(old(self)),
            final(self).render.pos.mode3_dot == old(self).render.pos.mode3_dot,
            !ended ==> final(self).render.active && final(self).render.pos.stall == 0
                && final(self).render.pos.pos_dot == old(self).render.pos.pos_dot,
            final(self).render.pos.lx == old(self).render.pos.lx,
            final(self).back == old(self).back,
            final(self).window == old(self).window,
            !(old(self).render.pos.mode3_dot >= 5 && old(self).render.pos.prefill_pos < 8) ==> !ended
                && final(self).render == old(self).render && final(self).flags == old(self).flags,
            old(self).render.pos.mode3_dot >= 5 && old(self).render.pos.prefill_pos < 8 && old(self).eff.lcdc
                & LCDC_OBJ_ENABLE == 0 ==> !ended && final(self).render == (Render {
                pos: spec_prefill_hunt(old(self).render.pos, old(self).eff.scx),
                ..old(self).render
            }) && final(self).flags == old(self).flags,
            old(self).render.pos.mode3_dot >= 5 && old(self).render.pos.prefill_pos < 8 && old(self).eff.lcdc
                & LCDC_OBJ_ENABLE != 0 ==> {
                let hunted = spec_prefill_hunt(old(self).render.pos, old(self).eff.scx);
                let mid = Ppu { render: Render { pos: hunted, ..old(self).render }, ..*old(self) };
                let run = mid.spec_fetch_run(false, old(self).render.pos.prefill_pos);
                &&& ended == (run.2 > 0)
                &&& final(self).flags == old(self).flags
                &&& final(self).render.fetched == run.0
                &&& final(self).render.penalty_tiles == run.1
                &&& final(self).render.sp_fifo@ == run.3
                &&& !ended ==> final(self).render.pos == hunted && final(self).render.fetch == old(
                    self,
                ).render.fetch && final(self).render.fifo == old(self).render.fifo
                &&& ended ==> final(self).render.pos == (PipePos {
                    stall: (run.2 - 1) as u16,
                    fetch_run: (run.2 - 1) as u16,
                    ..hunted
                })
            },
            final(self).flags.render_finished == old(self).flags.render_finished,
    {
        proof {
            reveal(Render::wf);
            crate::bits::lemma_u8_bits(self.eff.lcdc);
        }
        if !(self.render.pos.mode3_dot >= 5 && self.render.pos.prefill_pos < 8) {
            return false;
        }
        let pos = self.render.pos.prefill_pos;
        self.render.pos = prefill_hunt(self.render.pos, self.eff.scx);
        if self.eff.lcdc & LCDC_OBJ_ENABLE == 0 {
            return false;
        }
        self.prefill_sprites(pos);
        if self.render.pos.stall == 0 {
            return false;
        }
        self.render.pos = PipePos { fetch_run: self.render.pos.stall, ..self.render.pos };
        self.stall_tick();
        true
    }

    /// The sprite trigger at the output position, once the pipeline is about
    /// to ship that pixel (the FIFO holds pixels, no discard left, the hunt
    /// done). Returns whether the dot ended in a stall.
    pub fn obj_stage(&mut self) -> (ended: bool)
        requires
            old(self).wf(),
            old(self).render.active,
            old(self).render.pos.stall == 0,
        ensures
            final(self).wf(),
            final(self).pipe_frame(old(self)),
            final(self).render.pos.mode3_dot == old(self).render.pos.mode3_dot,
            !ended ==> final(self).render.active && final(self).render.pos.stall == 0,
            final(self).render.pos.lx == old(self).render.pos.lx,
            final(self).back == old(self).back,
            final(self).window == old(self).window,
            !(old(self).eff.lcdc & LCDC_OBJ_ENABLE != 0 && old(self).render.fifo.count > 0
                && old(self).render.pos.discard == 0 && (old(self).render.fetch.win_mode
                || old(self).render.pos.hunt_done)) ==> !ended && final(self).render == old(self).render
                && final(self).flags == old(self).flags,
            ended ==> final(self).render.pos.stall + 1 == old(self).spec_fetch_run(true, old(self).render.pos.lx).2,
            old(self).eff.lcdc & LCDC_OBJ_ENABLE != 0 && old(self).render.fifo.count > 0
                && old(self).render.pos.discard == 0 && (old(self).render.fetch.win_mode
                || old(self).render.pos.hunt_done) ==> {
                let run = old(self).spec_fetch_run(true, old(self).render.pos.lx);
                &&& ended == (run.2 > 0)
                &&& final(self).render.fetched == run.0
                &&& final(self).render.penalty_tiles == run.1
                &&& final(self).render.sp_fifo@ == run.3
                &&& final(self).render.sprites == old(self).render.sprites
                &&& final(self).render.n_sprites == old(self).render.n_sprites
                &&& final(self).render.win == old(self).render.win
                &&& !ended ==> final(self).render.pos == old(self).render.pos && final(self).render.fetch
                    == old(self).render.fetch && final(self).render.fifo == old(self).render.fifo
                &&& ended ==> final(self).render.pos == (PipePos {
                    stall: (run.2 - 1) as u16,
                    fetch_run: (run.2 - 1) as u16,
                    ..old(self).render.pos
                })
            },
            final(self).flags.render_finished == old(self).flags.render_finished,
    {
        proof {
            reveal(Render::wf);
            crate::bits::lemma_u8_bits(self.eff.lcdc);
        }
        let fine_scrolling = !self.render.fetch.win_mode && !self.render.pos.hunt_done;
        if !(self.eff.lcdc & LCDC_OBJ_ENABLE != 0 && self.render.fifo.count > 0
            && self.render.pos.discard == 0 && !fine_scrolling) {
            return false;
        }
        self.lx_sprites();
        if self.render.pos.stall == 0 {
            return false;
        }
        self.render.pos = PipePos { fetch_run: self.render.pos.stall, ..self.render.pos };
        self.stall_tick();
        true
    }

    /// Output one pixel at the current position and advance the position;
    /// returns whether that was the line's last pixel.
    fn ship_pixel(&mut self, c: u8, attr: u8) -> (ended: bool)
        requires
            old(self).wf(),
            old(self).render.active,
            old(self).line <= 143,
            c < 4,
        ensures
            final(self).wf(),
            final(self).pipe_frame(old(self)),
            final(self).render.fifo == old(self).render.fifo,
            final(self).render.fetch == old(self).render.fetch,
            final(self).render.win == old(self).render.win,
            final(self).render.pos == (PipePos { lx: (old(self).render.pos.lx + 1) as u8, ..old(self).render.pos }),
            ended == (old(self).render.pos.lx + 1 >= 160),
            final(self).back@ == old(self).back@.update(
                old(self).ly * SCREEN_W + old(self).render.pos.lx,
                old(self).spec_mix(c, attr, old(self).render.sp_fifo@[0]).0,
            ),
            final(self).render.active == (old(self).render.pos.lx + 1 < 160),
            final(self).flags == spec_flags_after_lx(
                old(self).flags,
                (old(self).render.pos.lx + 1) as u8,
                old(self).render.fetched == 0 && !old(self).render.win.active && !old(self).glitch_line,
            ),
    {
        self.output_pixel(c, attr);
        self.advance_lx();
        !self.render.active
    }

    /// Pop one BG/window pixel (see [`spec_pop`]) and ship it unless
    /// discarded. Returns whether the pipe ended.
    #[verifier::rlimit(40)]
    pub fn pop_stage(&mut self) -> (ended: bool)
        requires
            old(self).wf(),
            old(self).render.active,
            old(self).line <= 143,
        ensures
            final(self).wf(),
            final(self).pipe_frame(old(self)),
            final(self).render.pos.mode3_dot == old(self).render.pos.mode3_dot,
            final(self).render.pos.lx == old(self).render.pos.lx ==> final(self).back == old(self).back,
            final(self).render.pos.lx != old(self).render.pos.lx ==> final(self).render.pos.lx == old(
                self,
            ).render.pos.lx + 1 && only_pixel_changed(
                old(self).back@,
                final(self).back@,
                old(self).ly * SCREEN_W + old(self).render.pos.lx,
            ),
            old(self).render.fifo.count == 0 ==> !ended && final(self).render == old(self).render
                && final(self).flags == old(self).flags && final(self).back == old(self).back,
            old(self).render.fifo.count > 0 ==> {
                let (q, p, out) = spec_pop(old(self).render.fifo, old(self).render.pos, old(self).eff.scx);
                &&& final(self).render.fifo == q
                &&& final(self).render.fetch == old(self).render.fetch
                &&& final(self).render.win == old(self).render.win
                &&& out is None ==> !ended && final(self).render.pos == p && final(self).flags
                    == old(self).flags && final(self).back == old(self).back
                &&& out matches Some(px) ==> {
                    &&& final(self).render.pos == (PipePos { lx: (p.lx + 1) as u8, ..p })
                    &&& ended == (p.lx + 1 >= 160)
                    &&& final(self).render.active == (p.lx + 1 < 160)
                    &&& final(self).flags == spec_flags_after_lx(
                        old(self).flags,
                        (p.lx + 1) as u8,
                        old(self).render.fetched == 0 && !old(self).render.win.active && !old(self).glitch_line,
                    )
                    &&& final(self).back@ == old(self).back@.update(
                        old(self).ly * SCREEN_W + old(self).render.pos.lx,
                        old(self).spec_mix(px.0, px.1, old(self).render.sp_fifo@[0]).0,
                    )
                }
            },
    {
        proof {
            reveal(Render::wf);
        }
        if self.render.fifo.count == 0 {
            return false;
        }
        let (q, p, out) = pop(self.render.fifo, self.render.pos, self.eff.scx);
        self.render.fifo = q;
        self.render.pos = p;
        match out {
            Some((c, attr)) => {
                assert(old(self).ly * SCREEN_W + old(self).render.pos.lx < old(self).back@.len()) by {
                    reveal(super::frames_ok);
                }
                let ghost mid = *self;
                assert(mid.spec_mix(c, attr, mid.render.sp_fifo@[0]) == old(self).spec_mix(
                    c,
                    attr,
                    old(self).render.sp_fifo@[0],
                ));
                self.ship_pixel(c, attr)
            },
            None => false,
        }
    }

    /// One mode-3 dot: a stalled pipeline consumes a stall dot; otherwise
    /// the prefill stage, the window trigger, the sprite trigger at the
    /// output position, one FIFO pop, and one fetcher step.
    #[verifier::rlimit(100)]
    pub fn render_step(&mut self)
        requires
            old(self).wf(),
            old(self).render.active,
            old(self).line <= 143,
            old(self).render.pos.mode3_dot < old(self).dot,
        ensures
            final(self).wf(),
            final(self).pipe_frame(old(self)),
            final(self).render.pos.mode3_dot == old(self).render.pos.mode3_dot + 1,
            old(self).render.pos.stall > 0 ==> final(self).render.pos.stall == old(self).render.pos.stall - 1
                && final(self).render.pos.lx == old(self).render.pos.lx && final(self).back == old(self).back,
            final(self).render.pos.lx == old(self).render.pos.lx || final(self).render.pos.lx
                == old(self).render.pos.lx + 1,
            final(self).render.pos.lx == old(self).render.pos.lx ==> final(self).back == old(self).back,
            final(self).render.pos.lx == old(self).render.pos.lx + 1 ==> only_pixel_changed(
                old(self).back@,
                final(self).back@,
                old(self).ly * SCREEN_W + old(self).render.pos.lx,
            ),
            exists|s0: Ppu, s1: Ppu, s2: Ppu, s3: Ppu, s4: Ppu, e1: bool, e2: bool, e3: bool, e4: bool|
                #![trigger render_dot_path(*old(self), s0, s1, s2, s3, s4, e1, e2, e3, e4, *final(self))]
                render_dot_path(*old(self), s0, s1, s2, s3, s4, e1, e2, e3, e4, *final(self)),
            final(self).flags.render_finished ==> old(self).flags.render_finished
                || (!final(self).render.active && final(self).render.pos.lx == 160),
    {
        proof {
            reveal(Render::wf);
        }
        let p0 = self.render.pos;
        self.render.pos = PipePos { mode3_dot: p0.mode3_dot + 1, fetch_run: if p0.stall > 0 {
            p0.fetch_run
        } else {
            0
        }, ..p0 };
        let ghost s0 = *self;
        if self.render.pos.stall > 0 {
            self.stall_tick();
            assert(stall_dot_rel(s0, *self)) by {
                reveal(stall_dot_rel);
            }
            assert(render_dot_path(*old(self), s0, s0, s0, s0, s0, false, false, false, false, *self));
            return ;
        }
        let e1 = self.prefill_stage();
        let ghost s1 = *self;
        assert(prefill_rel(s0, s1, e1)) by {
            reveal(prefill_rel);
        }
        if e1 {
            assert(render_dot_path(*old(self), s0, s1, s1, s1, s1, true, false, false, false, *self));
            return ;
        }
        let e2 = self.window_trigger_step();
        let ghost s2 = *self;
        assert(window_trigger_rel(s1, s2, e2)) by {
            reveal(window_trigger_rel);
        }
        if e2 {
            assert(render_dot_path(*old(self), s0, s1, s2, s2, s2, false, true, false, false, *self));
            return ;
        }
        let e3 = self.obj_stage();
        let ghost s3 = *self;
        assert(obj_rel(s2, s3, e3)) by {
            reveal(obj_rel);
        }
        if e3 {
            assert(render_dot_path(*old(self), s0, s1, s2, s3, s3, false, false, true, false, *self));
            return ;
        }
        let e4 = self.pop_stage();
        let ghost s4 = *self;
        assert(pop_rel(s3, s4, e4)) by {
            reveal(pop_rel);
        }
        if e4 {
            assert(render_dot_path(*old(self), s0, s1, s2, s3, s4, false, false, false, true, *self));
            return ;
        }
        self.fetcher_step();
        assert(fetcher_rel(s4, *self)) by {
            reveal(fetcher_rel);
        }
        assert(render_dot_path(*old(self), s0, s1, s2, s3, s4, false, false, false, false, *self));
    }
}

/// A stalled mode-3 dot (see [`Ppu::stall_tick`]).
#[verifier::opaque]
pub open spec fn stall_dot_rel(o: Ppu, n: Ppu) -> bool {
    &&& (n.pipe_frame(&o))
    &&& (n.flags == o.flags)
    &&& (n.window == o.window)
    &&& (n.back == o.back)
    &&& (n.sgb == o.sgb)
    &&& (n.render.active == o.render.active)
    &&& (n.render.pos.mode3_dot == o.render.pos.mode3_dot)
    &&& (n.render.pos.lx == o.render.pos.lx)
    &&& (n.render.pos.stall == o.render.pos.stall - 1)
    &&& (n.render.pos == (PipePos {
                stall: (o.render.pos.stall - 1) as u16,
                fetch_run: if o.render.pos.fetch_run > 0 {
                    (o.render.pos.fetch_run - 1) as u16
                } else {
                    0u16
                },
                ..o.render.pos
            }))
    &&& ((n.render.fetch, n.render.fifo) == if o.render.pos.fetch_run > 0 {
                o.spec_fetcher_dot()
            } else {
                (o.render.fetch, o.render.fifo)
            })
    &&& (n.render.win == o.render.win)
    &&& (n.render.fetched == o.render.fetched)
    &&& (n.render.sprites == o.render.sprites)
    &&& (n.render.n_sprites == o.render.n_sprites)
    &&& (n.render.penalty_tiles == o.render.penalty_tiles)
    &&& (n.render.sp_fifo == o.render.sp_fifo)
}

/// The prefill stage of a mode-3 dot (see [`Ppu::prefill_stage`]).
#[verifier::opaque]
pub open spec fn prefill_rel(o: Ppu, n: Ppu, ended: bool) -> bool {
    &&& (n.pipe_frame(&o))
    &&& (n.flags.render_finished == o.flags.render_finished)
    &&& (n.render.pos.mode3_dot == o.render.pos.mode3_dot)
    &&& (!ended ==> n.render.active && n.render.pos.stall == 0
                && n.render.pos.pos_dot == o.render.pos.pos_dot)
    &&& (n.render.pos.lx == o.render.pos.lx)
    &&& (n.back == o.back)
    &&& (n.window == o.window)
    &&& (!(o.render.pos.mode3_dot >= 5 && o.render.pos.prefill_pos < 8) ==> !ended
                && n.render == o.render && n.flags == o.flags)
    &&& (o.render.pos.mode3_dot >= 5 && o.render.pos.prefill_pos < 8 && o.eff.lcdc
                & LCDC_OBJ_ENABLE == 0 ==> !ended && n.render == (Render {
                pos: spec_prefill_hunt(o.render.pos, o.eff.scx),
                ..o.render
            }) && n.flags == o.flags)
    &&& (o.render.pos.mode3_dot >= 5 && o.render.pos.prefill_pos < 8 && o.eff.lcdc
                & LCDC_OBJ_ENABLE != 0 ==> {
                let hunted = spec_prefill_hunt(o.render.pos, o.eff.scx);
                let mid = Ppu { render: Render { pos: hunted, ..o.render }, ..o };
                let run = mid.spec_fetch_run(false, o.render.pos.prefill_pos);
                &&& ended == (run.2 > 0)
                &&& n.flags == o.flags
                &&& n.render.fetched == run.0
                &&& n.render.penalty_tiles == run.1
                &&& n.render.sp_fifo@ == run.3
                &&& !ended ==> n.render.pos == hunted && n.render.fetch == o.render.fetch && n.render.fifo == o.render.fifo
                &&& ended ==> n.render.pos == (PipePos {
                    stall: (run.2 - 1) as u16,
                    fetch_run: (run.2 - 1) as u16,
                    ..hunted
                })
            })
}

/// The window trigger of a mode-3 dot (see [`Ppu::window_trigger_step`]).
#[verifier::opaque]
pub open spec fn window_trigger_rel(o: Ppu, n: Ppu, ended: bool) -> bool {
    &&& (n.pipe_frame(&o))
    &&& (n.flags.render_finished ==> o.flags.render_finished || (!n.render.active && n.render.pos.lx
        == 160))
    &&& (n.render.pos.mode3_dot == o.render.pos.mode3_dot)
    &&& (n.render.pos.stall <= 1)
    &&& (!ended ==> n.render.active && n.render.pos.stall == 0)
    &&& (n.render.pos.lx == o.render.pos.lx ==> n.back == o.back)
    &&& (n.render.pos.lx != o.render.pos.lx ==> n.render.pos.lx == o.render.pos.lx + 1 && ended && n.back@ == o.back@.update(
                o.ly * SCREEN_W + o.render.pos.lx,
                o.spec_mix(0, 0, o.render.sp_fifo@[0]).0,
            ) && super::pipeline::only_pixel_changed(
                o.back@,
                n.back@,
                o.ly * SCREEN_W + o.render.pos.lx,
            ))
    &&& (n.render.win.match_prev == o.win_raw())
    &&& (n.render.win.wx_match_dot == o.win_wx_match_dot())
    &&& (!o.win_starts() ==> {
                &&& !ended
                &&& n.render == (Render {
                    pos: o.win_step_pos(),
                    win: WinRender {
                        match_prev: o.win_raw(),
                        pending_until: o.win_pending_until(),
                        wx_match_dot: o.win_wx_match_dot(),
                        ..o.render.win
                    },
                    ..o.render
                })
                &&& n.window == if o.win_carry() {
                    WinLatch { start_pending: true, ..o.window }
                } else {
                    o.window
                }
                &&& n.flags == o.flags
                &&& n.back == o.back
            })
    &&& (o.win_starts() ==> n.render.win.pending_until == 0)
    &&& (o.win_starts() && !o.render.win.active ==> {
                &&& n.window.win_line == o.window.win_line.wrapping_add(1)
                &&& n.render.win.active && n.render.win.stalled
                &&& n.flags == if o.flags.m0_src {
                    LineFlags { m0_src: false, m0_rise_dot: false, line_render_done: false, ..o.flags }
                } else {
                    o.flags
                }
                &&& n.back == o.back
                &&& !o.cgb() && o.eff.wx == 166 ==> ended && n.window.start_pending
                    && n.render.pos == (PipePos { stall: 1, ..o.win_step_pos() })
                    && n.render.fetch == o.render.fetch && n.render.fifo
                    == o.render.fifo
                &&& !(!o.cgb() && o.eff.wx == 166) ==> !ended && (
                    n.render.fetch,
                    n.render.fifo,
                    n.render.pos,
                ) == spec_win_start(
                    o.render.fetch,
                    o.render.fifo,
                    o.win_step_pos(),
                    o.eff.scx,
                    o.eff.wx,
                ) && n.window.start_pending == o.window.start_pending
            })
    &&& (o.win_starts() && o.render.win.active && !o.cgb() && o.eff.wx == 166
                && !o.window.start_pending ==> {
                &&& ended
                &&& n.window == (WinLatch { start_pending: true, ..o.window })
                &&& n.render.win.stalled
                &&& n.render.pos == (PipePos { stall: 1, ..o.win_step_pos() })
                &&& n.back == o.back
            })
    &&& (o.win_starts() && o.render.win.active && !(!o.cgb() && o.eff.wx == 166
                && !o.window.start_pending) ==> {
                &&& n.window == o.window
                &&& o.render.fetch.win_mode && o.render.fifo.count == 8 ==> ended
                    && n.render.pos.lx == o.render.pos.lx + 1 && n.back@
                    == o.back@.update(
                    o.ly * SCREEN_W + o.render.pos.lx,
                    o.spec_mix(0, 0, o.render.sp_fifo@[0]).0,
                )
                &&& !(o.render.fetch.win_mode && o.render.fifo.count == 8) ==> !ended
                    && n.render.pos == o.win_step_pos() && n.back == o.back
            })
}

/// The sprite trigger of a mode-3 dot (see [`Ppu::obj_stage`]).
#[verifier::opaque]
pub open spec fn obj_rel(o: Ppu, n: Ppu, ended: bool) -> bool {
    &&& (n.pipe_frame(&o))
    &&& (n.flags.render_finished == o.flags.render_finished)
    &&& (n.render.pos.mode3_dot == o.render.pos.mode3_dot)
    &&& (!ended ==> n.render.active && n.render.pos.stall == 0)
    &&& (n.render.pos.lx == o.render.pos.lx)
    &&& (n.back == o.back)
    &&& (n.window == o.window)
    &&& (!(o.eff.lcdc & LCDC_OBJ_ENABLE != 0 && o.render.fifo.count > 0
                && o.render.pos.discard == 0 && (o.render.fetch.win_mode
                || o.render.pos.hunt_done)) ==> !ended && n.render == o.render
                && n.flags == o.flags)
    &&& (ended ==> n.render.pos.stall + 1 == o.spec_fetch_run(true, o.render.pos.lx).2)
    &&& (o.eff.lcdc & LCDC_OBJ_ENABLE != 0 && o.render.fifo.count > 0
                && o.render.pos.discard == 0 && (o.render.fetch.win_mode
                || o.render.pos.hunt_done) ==> {
                let run = o.spec_fetch_run(true, o.render.pos.lx);
                &&& ended == (run.2 > 0)
                &&& n.render.fetched == run.0
                &&& n.render.penalty_tiles == run.1
                &&& n.render.sp_fifo@ == run.3
                &&& n.render.sprites == o.render.sprites
                &&& n.render.n_sprites == o.render.n_sprites
                &&& n.render.win == o.render.win
                &&& !ended ==> n.render.pos == o.render.pos && n.render.fetch
                    == o.render.fetch && n.render.fifo == o.render.fifo
                &&& ended ==> n.render.pos == (PipePos {
                    stall: (run.2 - 1) as u16,
                    fetch_run: (run.2 - 1) as u16,
                    ..o.render.pos
                })
            })
}

/// The FIFO pop of a mode-3 dot (see [`Ppu::pop_stage`]).
#[verifier::opaque]
pub open spec fn pop_rel(o: Ppu, n: Ppu, ended: bool) -> bool {
    &&& (n.pipe_frame(&o))
    &&& (n.render.pos.mode3_dot == o.render.pos.mode3_dot)
    &&& (n.render.pos.lx == o.render.pos.lx ==> n.back == o.back)
    &&& (n.render.pos.lx != o.render.pos.lx ==> n.render.pos.lx == o.render.pos.lx + 1 && only_pixel_changed(
                o.back@,
                n.back@,
                o.ly * SCREEN_W + o.render.pos.lx,
            ))
    &&& (o.render.fifo.count == 0 ==> !ended && n.render == o.render
                && n.flags == o.flags && n.back == o.back)
    &&& (o.render.fifo.count > 0 ==> {
                let (q, p, out) = spec_pop(o.render.fifo, o.render.pos, o.eff.scx);
                &&& n.render.fifo == q
                &&& n.render.fetch == o.render.fetch
                &&& n.render.win == o.render.win
                &&& out is None ==> !ended && n.render.pos == p && n.flags
                    == o.flags && n.back == o.back
                &&& out matches Some(px) ==> {
                    &&& n.render.pos == (PipePos { lx: (p.lx + 1) as u8, ..p })
                    &&& ended == (p.lx + 1 >= 160)
                    &&& n.render.active == (p.lx + 1 < 160)
                    &&& n.flags == spec_flags_after_lx(
                        o.flags,
                        (p.lx + 1) as u8,
                        o.render.fetched == 0 && !o.render.win.active && !o.glitch_line,
                    )
                    &&& n.back@ == o.back@.update(
                        o.ly * SCREEN_W + o.render.pos.lx,
                        o.spec_mix(px.0, px.1, o.render.sp_fifo@[0]).0,
                    )
                }
            })
}

/// The fetcher step of a mode-3 dot (see [`Ppu::fetcher_step`]).
#[verifier::opaque]
pub open spec fn fetcher_rel(o: Ppu, n: Ppu) -> bool {
    &&& (n.pipe_frame(&o))
    &&& (n.flags == o.flags)
    &&& (n.window == o.window)
    &&& (n.back == o.back)
    &&& (n.sgb == o.sgb)
    &&& (n.render.active == o.render.active)
    &&& (n.render.pos == o.render.pos)
    &&& (n.render.win == o.render.win)
    &&& (n.render.n_sprites == o.render.n_sprites)
    &&& (n.render.fetched == o.render.fetched)
    &&& (n.render.fetch.win_mode == o.render.fetch.win_mode)
    &&& (n.render.sprites == o.render.sprites)
    &&& (n.render.penalty_tiles == o.render.penalty_tiles)
    &&& (n.render.sp_fifo == o.render.sp_fifo)
    &&& ((n.render.fetch, n.render.fifo) == o.spec_fetcher_dot())
}


/// One mode-3 dot as its stages run (see [`Ppu::render_step`]): `s0` is the
/// pipeline with the dot counted; a stalled pipeline spends the dot on the
/// stall; otherwise the prefill stage, the window trigger, the sprite
/// trigger, the FIFO pop and the fetcher step run in turn, each stage that
/// ends the dot (`e1`..`e4`) leaving the state it produced.
pub open spec fn render_dot_path(
    o: Ppu,
    s0: Ppu,
    s1: Ppu,
    s2: Ppu,
    s3: Ppu,
    s4: Ppu,
    e1: bool,
    e2: bool,
    e3: bool,
    e4: bool,
    n: Ppu,
) -> bool {
    &&& s0 == (Ppu {
        render: Render {
            pos: PipePos {
                mode3_dot: (o.render.pos.mode3_dot + 1) as u16,
                fetch_run: if o.render.pos.stall > 0 {
                    o.render.pos.fetch_run
                } else {
                    0u16
                },
                ..o.render.pos
            },
            ..o.render
        },
        ..o
    })
    &&& s0.render.pos.stall > 0 ==> stall_dot_rel(s0, n)
    &&& s0.render.pos.stall == 0 ==> {
        &&& prefill_rel(s0, s1, e1)
        &&& e1 ==> n == s1
        &&& !e1 ==> window_trigger_rel(s1, s2, e2)
        &&& !e1 && e2 ==> n == s2
        &&& !e1 && !e2 ==> obj_rel(s2, s3, e3)
        &&& !e1 && !e2 && e3 ==> n == s3
        &&& !e1 && !e2 && !e3 ==> pop_rel(s3, s4, e4)
        &&& !e1 && !e2 && !e3 && e4 ==> n == s4
        &&& !e1 && !e2 && !e3 && !e4 ==> fetcher_rel(s4, n)
    }
}

} // verus!
