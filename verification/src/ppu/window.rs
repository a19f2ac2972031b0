//! The window machine: the pause-aware, edge-triggered WX comparator, the
//! window line counter, the window start (a 6-dot fetcher restart, or the
//! DMG WX=166 aborted start), the reactivation zero pixel, and the mid-line
//! LCDC.5 abort.
use vstd::prelude::*;
use super::{
    BgFifo, FetchPhase, Fetcher, LineFlags, PipePos, Ppu, Render, WinLatch, WinRender,
    LCDC_WIN_ENABLE,
};
use crate::SCREEN_W;
use crate::bits::lemma_u8_bits;

verus! {

/// The pipeline after a window activation: the fetcher restarts on window
/// column 0 with an empty FIFO, the BG hunt ends, and the discard is the
/// `7 - WX` cut columns for WX < 7 plus the BG fine-scroll pixels still owed
/// (plus one more for WX = 0 with SCX&7 > 0), saturating.
pub open spec fn spec_win_start(f: Fetcher, q: BgFifo, p: PipePos, scx: u8, wx: u8) -> (
    Fetcher,
    BgFifo,
    PipePos,
) {
    let bg_left: int = if p.hunt_done {
        p.discard as int
    } else {
        scx as int % 8
    };
    let cut: int = if wx < 7 {
        7 - wx
    } else {
        0
    };
    let d0 = if cut + bg_left > 255 {
        255
    } else {
        cut + bg_left
    };
    let d = if wx == 0 && scx % 8 > 0 {
        if d0 + 1 > 255 {
            255
        } else {
            d0 + 1
        }
    } else {
        d0
    };
    (
        Fetcher { win_mode: true, phase: FetchPhase::TileNoWait, fetch_x: 0, first_discard: false, ..f },
        BgFifo { count: 0, ..q },
        PipePos { hunt_done: true, discard: d as u8, ..p },
    )
}

/// See [`spec_win_start`].
pub fn win_start(f: Fetcher, q: BgFifo, p: PipePos, scx: u8, wx: u8) -> (r: (Fetcher, BgFifo, PipePos))
    ensures
        r == spec_win_start(f, q, p, scx, wx),
{
    let bg_left = if p.hunt_done {
        p.discard
    } else {
        scx % 8
    };
    let mut d = 7u8.saturating_sub(wx).saturating_add(bg_left);
    if wx == 0 && scx % 8 > 0 {
        d = d.saturating_add(1);
    }
    (
        Fetcher { win_mode: true, phase: FetchPhase::TileNoWait, fetch_x: 0, first_discard: false, ..f },
        BgFifo { count: 0, ..q },
        PipePos { hunt_done: true, discard: d, ..p },
    )
}

/// The output position after `n` dropped pixels: never past the last pixel
/// (159), and a position already past it stays.
pub open spec fn spec_lx_after(lx: u8, n: u8) -> u8 {
    if lx + n > 159 {
        if lx > 159 {
            lx
        } else {
            159
        }
    } else {
        (lx + n) as u8
    }
}

/// The pipeline with `n` pixels dropped from the output position.
pub open spec fn render_lx_add(r: Render, n: u8) -> Render {
    Render { pos: PipePos { lx: spec_lx_after(r.pos.lx, n), ..r.pos }, ..r }
}

/// The pipeline with `n` more stall dots, saturating.
pub open spec fn render_add_stall(r: Render, n: u16) -> Render {
    Render {
        pos: PipePos {
            stall: if r.pos.stall + n > 0xFFFF {
                0xFFFFu16
            } else {
                (r.pos.stall + n) as u16
            },
            ..r.pos
        },
        ..r
    }
}

/// The WX comparator's raw level at pipeline position `pos`: WX 0-7 match
/// the pause-aware prefill dot WX + 6; WX 8-166 match output position
/// WX - 7.
pub open spec fn spec_wx_match(wx: u8, pos: PipePos) -> bool {
    if wx <= 7 {
        pos.pos_dot == wx + 6
    } else {
        wx <= 166 && pos.lx == wx - 7
    }
}

impl Ppu {
    /// Dots the WX comparator match leads the window activation: for WX <= 7
    /// the fine-scroll discard the hunt locked in (minus the cut columns on
    /// CGB), else 0.
    pub open spec fn spec_win_activation_lead(&self) -> u16 {
        if self.eff.wx <= 7 {
            let hf = self.render.pos.hunt_fine % 8;
            if self.cgb() {
                if hf > 7 - self.eff.wx {
                    (hf - (7 - self.eff.wx)) as u16
                } else {
                    0
                }
            } else {
                hf as u16
            }
        } else {
            0
        }
    }

    /// See [`Self::spec_win_activation_lead`].
    pub fn win_activation_lead(&self) -> (r: u16)
        requires
            self.wf(),
        ensures
            r == self.spec_win_activation_lead(),
            r <= 7,
    {
        proof {
            reveal(Render::wf);
        }
        if self.eff.wx <= 7 {
            let hf = (self.render.pos.hunt_fine % 8) as u16;
            if self.model.is_cgb() {
                hf.saturating_sub(7 - self.eff.wx as u16)
            } else {
                hf
            }
        } else {
            0
        }
    }

    /// Whether the frame's WY latch admits a window start on this dot: on
    /// CGB a latch set inside the skew between the live SCX&7 and the
    /// fine-scroll phase the hunt locked in arrived after the real activation
    /// instant and does not count.
    pub open spec fn spec_wy_ok(&self) -> bool {
        let scx_fine = self.eff.scx % 8;
        let hunt_fine = self.render.pos.hunt_fine % 8;
        let skew: int = if scx_fine > hunt_fine {
            scx_fine - hunt_fine
        } else {
            0
        };
        self.window.wy_triggered && !(self.cgb() && skew > 0 && self.window.wy_trig_dot + skew > self.dot)
    }

    /// See [`Self::spec_wy_ok`].
    pub fn wy_ok(&self) -> (r: bool)
        requires
            self.wf(),
        ensures
            r == self.spec_wy_ok(),
    {
        proof {
            reveal(Render::wf);
        }
        if !self.window.wy_triggered {
            return false;
        }
        if self.model.is_cgb() {
            let skew = ((self.eff.scx % 8) as u16).saturating_sub((self.render.pos.hunt_fine % 8) as u16);
            if skew > 0 && self.window.wy_trig_dot as u32 + skew as u32 > self.dot as u32 {
                return false;
            }
        }
        true
    }

    /// The WX comparator's raw level: WX 0-7 match the pause-aware prefill
    /// dot WX + 6; WX 8-166 match output position WX - 7.
    pub open spec fn spec_wx_level(&self) -> bool {
        spec_wx_match(self.eff.wx, self.render.pos)
    }

    /// The pipeline position a window-trigger dot compares: the prefill
    /// clock one dot on.
    pub open spec fn win_step_pos(&self) -> PipePos {
        PipePos { pos_dot: (self.render.pos.pos_dot + 1) as u16, ..self.render.pos }
    }

    /// The comparator level on a window-trigger dot.
    pub open spec fn win_raw(&self) -> bool {
        spec_wx_match(self.eff.wx, self.win_step_pos())
    }

    /// The comparator's rising edge on a window-trigger dot.
    pub open spec fn win_edge(&self) -> bool {
        self.win_raw() && !self.render.win.match_prev
    }

    /// The dot until which a match that failed only on the WY latch stays
    /// live, after a window-trigger dot.
    pub open spec fn win_pending_until(&self) -> u16 {
        if self.win_edge() && !self.spec_wy_ok() {
            (self.dot + self.spec_win_activation_lead()) as u16
        } else {
            self.render.win.pending_until
        }
    }

    /// The window comparator matches on a window-trigger dot: a rising edge,
    /// or a still-live earlier match with the WY latch now set.
    pub open spec fn win_match(&self) -> bool {
        self.win_edge() || (self.render.win.pending_until != 0 && self.dot < self.render.win.pending_until
            && self.window.wy_triggered)
    }

    /// The first matching dot of the line, after a window-trigger dot.
    pub open spec fn win_wx_match_dot(&self) -> u16 {
        if self.win_match() && self.render.win.wx_match_dot == 0 {
            self.dot
        } else {
            self.render.win.wx_match_dot
        }
    }

    /// DMG: a WX=166 match with the window disabled but the WY latch set
    /// carries a start request to the next line.
    pub open spec fn win_carry(&self) -> bool {
        &&& self.win_match()
        &&& self.regs.lcdc & LCDC_WIN_ENABLE == 0
        &&& self.window.wy_triggered
        &&& !self.cgb()
        &&& self.eff.wx == 166
        &&& !self.window.start_pending
    }

    /// The window starts (or restarts) on a window-trigger dot.
    pub open spec fn win_starts(&self) -> bool {
        self.win_match() && self.spec_wy_ok() && self.regs.lcdc & LCDC_WIN_ENABLE != 0
    }

    /// See [`Self::spec_wx_level`].
    pub fn wx_level(&self) -> (r: bool)
        requires
            self.wf(),
        ensures
            r == self.spec_wx_level(),
    {
        let wx = self.eff.wx;
        if wx <= 7 {
            self.render.pos.pos_dot == wx as u16 + 6
        } else {
            wx <= 166 && self.render.pos.lx == wx - 7
        }
    }

    /// One dot of the window trigger, run before the same-dot sprite trigger.
    /// The comparator fires on the rising edge only; a match that failed
    /// only on the WY latch stays live until the activation instant. A match
    /// with the window enabled and the WY latch set activates the window
    /// (advancing the window line counter); on DMG a WX=166 match only
    /// freezes the pipe briefly and leaves the start request pending into
    /// the next line. A match while the window already draws, on the dot
    /// that ships a window tile's first pixel, emits one color-0 pixel.
    /// Returns whether this dot's render step ends here.
    pub fn window_trigger_step(&mut self) -> (ended: bool)
        requires
            old(self).wf(),
            old(self).render.active,
            old(self).line <= 143,
            old(self).render.pos.stall == 0,
            old(self).render.pos.pos_dot < old(self).render.pos.mode3_dot,
        ensures
            final(self).wf(),
            final(self).pipe_frame(old(self)),
            final(self).render.pos.mode3_dot == old(self).render.pos.mode3_dot,
            final(self).render.pos.stall <= 1,
            !ended ==> final(self).render.active && final(self).render.pos.stall == 0,
            final(self).render.pos.lx == old(self).render.pos.lx ==> final(self).back == old(self).back,
            final(self).render.pos.lx != old(self).render.pos.lx ==> final(self).render.pos.lx == old(
                self,
            ).render.pos.lx + 1 && ended && final(self).back@ == old(self).back@.update(
                old(self).ly * SCREEN_W + old(self).render.pos.lx,
                old(self).spec_mix(0, 0, old(self).render.sp_fifo@[0]).0,
            ) && super::pipeline::only_pixel_changed(
                old(self).back@,
                final(self).back@,
                old(self).ly * SCREEN_W + old(self).render.pos.lx,
            ),
            final(self).render.win.match_prev == old(self).win_raw(),
            final(self).render.win.wx_match_dot == old(self).win_wx_match_dot(),
            !old(self).win_starts() ==> {
                &&& !ended
                &&& final(self).render == (Render {
                    pos: old(self).win_step_pos(),
                    win: WinRender {
                        match_prev: old(self).win_raw(),
                        pending_until: old(self).win_pending_until(),
                        wx_match_dot: old(self).win_wx_match_dot(),
                        ..old(self).render.win
                    },
                    ..old(self).render
                })
                &&& final(self).window == if old(self).win_carry() {
                    WinLatch { start_pending: true, ..old(self).window }
                } else {
                    old(self).window
                }
                &&& final(self).flags == old(self).flags
                &&& final(self).back == old(self).back
            },
            old(self).win_starts() ==> final(self).render.win.pending_until == 0,
            old(self).win_starts() && !old(self).render.win.active ==> {
                &&& final(self).window.win_line == old(self).window.win_line.wrapping_add(1)
                &&& final(self).render.win.active && final(self).render.win.stalled
                &&& final(self).flags == if old(self).flags.m0_src {
                    LineFlags { m0_src: false, m0_rise_dot: false, line_render_done: false, ..old(self).flags }
                } else {
                    old(self).flags
                }
                &&& final(self).back == old(self).back
                &&& !old(self).cgb() && old(self).eff.wx == 166 ==> ended && final(self).window.start_pending
                    && final(self).render.pos == (PipePos { stall: 1, ..old(self).win_step_pos() })
                    && final(self).render.fetch == old(self).render.fetch && final(self).render.fifo
                    == old(self).render.fifo
                &&& !(!old(self).cgb() && old(self).eff.wx == 166) ==> !ended && (
                    final(self).render.fetch,
                    final(self).render.fifo,
                    final(self).render.pos,
                ) == spec_win_start(
                    old(self).render.fetch,
                    old(self).render.fifo,
                    old(self).win_step_pos(),
                    old(self).eff.scx,
                    old(self).eff.wx,
                ) && final(self).window.start_pending == old(self).window.start_pending
            },
            old(self).win_starts() && old(self).render.win.active && !old(self).cgb() && old(self).eff.wx == 166
                && !old(self).window.start_pending ==> {
                &&& ended
                &&& final(self).window == (WinLatch { start_pending: true, ..old(self).window })
                &&& final(self).render.win.stalled
                &&& final(self).render.pos == (PipePos { stall: 1, ..old(self).win_step_pos() })
                &&& final(self).back == old(self).back
            },
            old(self).win_starts() && old(self).render.win.active && !(!old(self).cgb() && old(self).eff.wx == 166
                && !old(self).window.start_pending) ==> {
                &&& final(self).window == old(self).window
                &&& old(self).render.fetch.win_mode && old(self).render.fifo.count == 8 ==> ended
                    && final(self).render.pos.lx == old(self).render.pos.lx + 1 && final(self).back@
                    == old(self).back@.update(
                    old(self).ly * SCREEN_W + old(self).render.pos.lx,
                    old(self).spec_mix(0, 0, old(self).render.sp_fifo@[0]).0,
                )
                &&& !(old(self).render.fetch.win_mode && old(self).render.fifo.count == 8) ==> !ended
                    && final(self).render.pos == old(self).win_step_pos() && final(self).back == old(self).back
            },
            final(self).flags.render_finished ==> old(self).flags.render_finished
                || (!final(self).render.active && final(self).render.pos.lx == 160),
    {
        proof {
            reveal(Render::wf);
        }
        let p0 = self.render.pos;
        self.render.pos = PipePos { pos_dot: p0.pos_dot + 1, ..p0 };
        let wx = self.eff.wx;
        let raw_match = self.wx_level();
        let wy_ok = self.wy_ok();
        let lead = self.win_activation_lead();
        let cgb = self.model.is_cgb();
        let w = self.render.win;
        let edge = raw_match && !w.match_prev;
        let pending_until = if edge && !wy_ok {
            self.dot + lead
        } else {
            w.pending_until
        };
        let win_match = edge || (w.pending_until != 0 && self.dot < w.pending_until
            && self.window.wy_triggered);
        let wx_match_dot = if win_match && w.wx_match_dot == 0 {
            self.dot
        } else {
            w.wx_match_dot
        };
        proof {
            lemma_u8_bits(self.regs.lcdc);
        }
        let win_en_now = self.regs.lcdc & LCDC_WIN_ENABLE != 0;
        let carry = win_match && !win_en_now && self.window.wy_triggered && !cgb && wx == 166
            && !self.window.start_pending;
        let start = win_match && wy_ok && win_en_now;
        self.render.win = WinRender {
            match_prev: raw_match,
            pending_until: if start {
                0
            } else {
                pending_until
            },
            wx_match_dot,
            ..w
        };
        if carry {
            self.window = WinLatch { start_pending: true, ..self.window };
        }
        if !start {
            return false;
        }
        if !self.render.win.active {
            self.window = WinLatch { win_line: self.window.win_line.wrapping_add(1), ..self.window };
            if !cgb && wx == 166 {
                self.window = WinLatch { start_pending: true, ..self.window };
                self.render.win = WinRender { active: true, stalled: true, ..self.render.win };
                self.render.pos = PipePos { stall: 1, ..self.render.pos };
                self.m0_unflip();
                return true;
            }
            self.m0_unflip();
            let (f, q, p) = win_start(
                self.render.fetch,
                self.render.fifo,
                self.render.pos,
                self.eff.scx,
                wx,
            );
            self.render.win = WinRender { active: true, stalled: true, ..self.render.win };
            self.render.fetch = f;
            self.render.fifo = q;
            self.render.pos = p;
            false
        } else if !cgb && wx == 166 && !self.window.start_pending {
            self.window = WinLatch { start_pending: true, ..self.window };
            self.render.win = WinRender { stalled: true, ..self.render.win };
            self.render.pos = PipePos { stall: 1, ..self.render.pos };
            self.m0_unflip();
            true
        } else if self.render.fetch.win_mode && self.render.fifo.count == 8 {
            assert(old(self).ly * SCREEN_W + old(self).render.pos.lx < old(self).back@.len()) by {
                reveal(super::frames_ok);
            }
            self.output_pixel(0, 0);
            self.advance_lx();
            true
        } else {
            false
        }
    }

    /// Advance the output position by `n` dropped pixels, never past the
    /// last pixel (the pipe still ships pixel 159 and ends at 160).
    pub fn lx_add(&mut self, n: u8)
        requires
            old(self).wf(),
        ensures
            final(self).wf(),
            final(self).pipe_frame(old(self)),
            final(self).flags == old(self).flags,
            final(self).window == old(self).window,
            final(self).back == old(self).back,
            final(self).sgb == old(self).sgb,
            final(self).render.active == old(self).render.active,
            final(self).render.pos.mode3_dot == old(self).render.pos.mode3_dot,
            final(self).render == render_lx_add(old(self).render, n),
    {
        proof {
            reveal(Render::wf);
        }
        let p = self.render.pos;
        let lx: u16 = p.lx as u16 + n as u16;
        let lx: u8 = if lx > 159 {
            if p.lx > 159 {
                p.lx
            } else {
                159
            }
        } else {
            lx as u8
        };
        self.render.pos = PipePos { lx, ..p };
    }

    /// Add `n` stall dots, saturating.
    pub fn add_stall(&mut self, n: u16)
        requires
            old(self).wf(),
        ensures
            final(self).wf(),
            final(self).pipe_frame(old(self)),
            final(self).flags == old(self).flags,
            final(self).window == old(self).window,
            final(self).back == old(self).back,
            final(self).sgb == old(self).sgb,
            final(self).render.active == old(self).render.active,
            final(self).render.pos.mode3_dot == old(self).render.pos.mode3_dot,
            final(self).render == render_add_stall(old(self).render, n),
    {
        proof {
            reveal(Render::wf);
        }
        let p = self.render.pos;
        self.render.pos = PipePos { stall: p.stall.saturating_add(n), ..p };
    }

    /// The read-law flag half of a mid-mode-3 LCDC.5 clear: a DMG window
    /// aborted while drawing shortens the line's mode-0 lead to 0.
    pub fn window_abort_flags(&mut self)
        requires
            old(self).wf(),
        ensures
            final(self).wf(),
            final(self).pipe_frame(old(self)),
            final(self).flags == old(self).flags,
            final(self).window == old(self).window,
            final(self).back == old(self).back,
            final(self).sgb == old(self).sgb,
            final(self).render.active == old(self).render.active,
            final(self).render.pos == old(self).render.pos,
            final(self).render == if old(self).render.fetch.win_mode && !old(self).cgb() {
                Render { win: WinRender { aborted: true, ..old(self).render.win }, ..old(self).render }
            } else {
                old(self).render
            },
    {
        proof {
            reveal(Render::wf);
        }
        if self.render.fetch.win_mode && !self.model.is_cgb() {
            self.render.win = WinRender { aborted: true, ..self.render.win };
        }
    }

    /// The pipeline after a mid-mode-3 LCDC.5 clear: the flag half (see
    /// [`Self::window_abort_flags`]) then the render half.
    pub open spec fn spec_lcdc_abort_render(&self) -> Render {
        let r1 = if self.render.fetch.win_mode && !self.cgb() {
            Render { win: WinRender { aborted: true, ..self.render.win }, ..self.render }
        } else {
            self.render
        };
        (Ppu { render: r1, ..*self }).spec_window_abort_render()
    }

    /// The pipeline after the render half of a mid-mode-3 LCDC.5 clear (see
    /// [`Self::window_abort_render`]).
    pub open spec fn spec_window_abort_render(&self) -> Render {
        let r = self.render;
        let cgb = self.cgb();
        let latched = r.fetch.phase == FetchPhase::Push || r.fetch.phase == FetchPhase::Hi;
        let hf = r.pos.hunt_fine % 8;
        if !r.fetch.win_mode {
            let md = r.win.wx_match_dot;
            if cgb && r.pos.stall != 0 && md != 0 && self.dot > md {
                render_add_stall(r, 6)
            } else if cgb {
                let r1 = if r.active && !latched {
                    render_lx_add(r, hf)
                } else {
                    r
                };
                if self.ds && r.active && md == 0 {
                    render_lx_add(r1, 1)
                } else {
                    r1
                }
            } else if r.active {
                if md != 0 && (hf == 0 || latched) {
                    render_add_stall(r, 6)
                } else {
                    render_lx_add(r, hf)
                }
            } else {
                r
            }
        } else {
            let tileno_pending = r.fetch.phase == FetchPhase::TileNoWait || r.fetch.phase == FetchPhase::TileNo;
            let x: int = r.pos.lx + r.fifo.count - r.pos.discard + if tileno_pending {
                0int
            } else {
                8int
            };
            let xc: int = if x > 0 {
                x
            } else {
                0
            };
            let col: int = (self.eff.scx + xc + 1 - if cgb {
                1int
            } else {
                0int
            }) / 8;
            let fetch_x = (((col % 256) - self.eff.scx / 8 + 256) % 256 % 32) as u8;
            let skip = !tileno_pending && !latched && r.pos.discard > 0;
            let fine = self.eff.scx % 8;
            let to_boundary = ((8 - ((fine + r.pos.lx) % 256) % 8) % 8) as u8;
            let r1 = Render {
                fetch: Fetcher { win_mode: false, fetch_x, ..r.fetch },
                win: WinRender { active: false, ..r.win },
                ..r
            };
            if skip {
                render_lx_add(
                    Render {
                        win: WinRender { stalled: false, ..r1.win },
                        pos: PipePos { discard: 0, ..r1.pos },
                        ..r1
                    },
                    to_boundary,
                )
            } else {
                r1
            }
        }
    }

    /// The render half of a mid-mode-3 LCDC.5 clear. A drawn window ends:
    /// the latched row still ships and the BG resumes on the tile the output
    /// position reaches, re-anchored to the screen column (an abandoned
    /// in-flight window fetch still owing discard skips to the next tile
    /// boundary). A clear before the window's first fetch keeps nothing of
    /// the window: CGB drops the fine-scroll discard it never consumed
    /// (unless a sprite fetch after the WX match committed the start, which
    /// then pays the 6-dot restart); DMG pays the 6-dot refetch when the
    /// fetch was latched or the hunt was tile-aligned after the match, else
    /// drops the discard.
    #[verifier::rlimit(50)]
    pub fn window_abort_render(&mut self)
        requires
            old(self).wf(),
        ensures
            final(self).wf(),
            final(self).pipe_frame(old(self)),
            final(self).flags == old(self).flags,
            final(self).window == old(self).window,
            final(self).back == old(self).back,
            final(self).sgb == old(self).sgb,
            final(self).render.active == old(self).render.active,
            final(self).render.pos.mode3_dot == old(self).render.pos.mode3_dot,
            final(self).render == old(self).spec_window_abort_render(),
    {
        proof {
            reveal(Render::wf);
        }
        let cgb = self.model.is_cgb();
        let phase = self.render.fetch.phase;
        let latched = phase == FetchPhase::Push || phase == FetchPhase::Hi;
        let hf = self.render.pos.hunt_fine % 8;
        if !self.render.fetch.win_mode {
            let match_dot = self.render.win.wx_match_dot;
            if cgb && self.render.pos.stall != 0 && match_dot != 0 && self.dot > match_dot {
                self.add_stall(6);
                return ;
            }
            if cgb {
                if self.render.active && !latched {
                    self.lx_add(hf);
                }
                if self.ds && self.render.active && match_dot == 0 {
                    self.lx_add(1);
                }
            } else if self.render.active {
                if match_dot != 0 && (hf == 0 || latched) {
                    self.add_stall(6);
                } else {
                    self.lx_add(hf);
                }
            }
            return ;
        }
        let r = &self.render;
        let tileno_pending = r.fetch.phase == FetchPhase::TileNoWait || r.fetch.phase
            == FetchPhase::TileNo;
        let x: i32 = r.pos.lx as i32 + r.fifo.count as i32 - r.pos.discard as i32 + if tileno_pending {
            0
        } else {
            8
        };
        let xc: i32 = if x > 0 {
            x
        } else {
            0
        };
        let col: i32 = (self.eff.scx as i32 + xc + 1 - if cgb {
            1i32
        } else {
            0
        }) / 8;
        let fetch_x = (((col % 256) as u8).wrapping_sub(self.eff.scx / 8)) % 32;
        let skip = !tileno_pending && !latched && r.pos.discard > 0;
        let fine = self.eff.scx % 8;
        let to_boundary: u8 = (8 - (fine.wrapping_add(r.pos.lx) % 8)) % 8;
        self.render.fetch = Fetcher { win_mode: false, fetch_x, ..self.render.fetch };
        self.render.win = WinRender { active: false, ..self.render.win };
        if skip {
            self.render.win = WinRender { stalled: false, ..self.render.win };
            self.render.pos = PipePos { discard: 0, ..self.render.pos };
            self.lx_add(to_boundary);
        }
    }
}

} // verus!
