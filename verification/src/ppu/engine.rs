//! The dot clock: one call of [`Ppu::tick`] advances the PPU one dot and
//! runs everything that happens on it, from the write strobe and the delayed
//! register copies through the line and frame boundaries, the OAM scan and
//! pixel pipeline, to the STAT and VBlank interrupt sources.
use vstd::prelude::*;
use super::{
    empty_pixel_spec, line_len_of, raise_if, raised, BgFifo, FetchPhase, Fetcher, LineFlags, Ppu,
    Render, WinLatch, WinRender, GLITCH_MODE3_START, IF_STAT, IF_VBLANK, LCDC_WIN_ENABLE, SCAN_OFF,
};
use crate::bits::{lemma_or_stat, lemma_or_vblank};
use crate::buf::fill_u32;
use crate::{SCREEN_PIXELS, SCREEN_W};
use super::pipeline::{only_pixel_changed, render_dot_path};
use super::regs::strobe_rel;
use super::write::keeps_stat_sources;
use crate::sgb::border::frame_boundary_path;
use crate::sgb::SgbView;

verus! {

/// The scan position one dot after `(line, dot)`: `(line, dot, glitch)`.
/// The LCD-enable line is 452 dots, every other line 456; line 153 wraps
/// to line 0.
pub open spec fn next_pos(line: u8, dot: u16, glitch: bool) -> (u8, u16, bool) {
    if dot + 1 < line_len_of(glitch) {
        (line, (dot + 1) as u16, glitch)
    } else if line == 153 {
        (0u8, 0u16, false)
    } else {
        ((line + 1) as u8, 0u16, false)
    }
}

/// FF44 after the dot's LY quirks: CGB single speed loads 153 two dots
/// before line 153 starts, and line 153 reads 0 from dot 4 (dot 6 in CGB
/// double speed).
pub open spec fn ly_quirk(cgb: bool, ds: bool, line: u8, dot: u16, ly: u8) -> u8 {
    if cgb && !ds && line == 152 && dot == 454 {
        153
    } else if line == 153 && dot == (if cgb && ds {
        6u16
    } else {
        4u16
    }) {
        0
    } else {
        ly
    }
}

/// One delayed register copy aged by a dot: a staged value lands when its
/// countdown runs out.
pub open spec fn aged(staged: Option<(u8, u8)>, cur: u8) -> (Option<(u8, u8)>, u8) {
    match staged {
        Some(p) => if p.1 <= 1 {
            (None, p.0)
        } else {
            (Some((p.0, (p.1 - 1) as u8)), cur)
        },
        None => (None, cur),
    }
}

/// See [`aged`].
pub fn age_copy(staged: Option<(u8, u8)>, cur: u8) -> (r: (Option<(u8, u8)>, u8))
    requires
        super::staged_ok(staged),
    ensures
        r == aged(staged, cur),
        super::staged_ok(r.0),
{
    match staged {
        Some((v, d)) => if d <= 1 {
            (None, v)
        } else {
            (Some((v, d - 1)), cur)
        },
        None => (None, cur),
    }
}

impl Ppu {
    /// The delayed FF41/FF45 event copies catch up by one dot.
    fn age_copies(&mut self)
        requires
            old(self).wf(),
        ensures
            final(self).wf(),
            final(self).only_irq_changed(old(self)),
            (final(self).irq.stat_ev_staged, final(self).irq.stat_ev) == aged(
                old(self).irq.stat_ev_staged,
                old(self).irq.stat_ev,
            ),
            (final(self).irq.lyc_ev_m_staged, final(self).irq.lyc_ev_m) == aged(
                old(self).irq.lyc_ev_m_staged,
                old(self).irq.lyc_ev_m,
            ),
            (final(self).irq.stat_lyc_ev_staged, final(self).irq.stat_lyc_ev) == aged(
                old(self).irq.stat_lyc_ev_staged,
                old(self).irq.stat_lyc_ev,
            ),
            final(self).irq.pending_if == old(self).irq.pending_if,
            final(self).irq.lyc_if_delay == old(self).irq.lyc_if_delay,
            final(self).irq.lyc_event == old(self).irq.lyc_event,
            final(self).irq.stat_line == old(self).irq.stat_line,
            final(self).irq == (super::IrqState {
                stat_ev_staged: final(self).irq.stat_ev_staged,
                stat_ev: final(self).irq.stat_ev,
                lyc_ev_m_staged: final(self).irq.lyc_ev_m_staged,
                lyc_ev_m: final(self).irq.lyc_ev_m,
                stat_lyc_ev_staged: final(self).irq.stat_lyc_ev_staged,
                stat_lyc_ev: final(self).irq.stat_lyc_ev,
                ..old(self).irq
            }),
    {
        let a = age_copy(self.irq.stat_ev_staged, self.irq.stat_ev);
        let b = age_copy(self.irq.lyc_ev_m_staged, self.irq.lyc_ev_m);
        let c = age_copy(self.irq.stat_lyc_ev_staged, self.irq.stat_lyc_ev);
        self.irq.stat_ev_staged = a.0;
        self.irq.stat_ev = a.1;
        self.irq.lyc_ev_m_staged = b.0;
        self.irq.lyc_ev_m = b.1;
        self.irq.stat_lyc_ev_staged = c.0;
        self.irq.stat_lyc_ev = c.1;
    }

    /// A CGB-deferred FF45-write STAT IRQ counts down and fires.
    fn lyc_delay_tick(&mut self)
        requires
            old(self).wf(),
        ensures
            final(self).wf(),
            final(self).only_irq_changed(old(self)),
            final(self).irq.lyc_if_delay == if old(self).irq.lyc_if_delay > 0 {
                (old(self).irq.lyc_if_delay - 1) as u8
            } else {
                0u8
            },
            final(self).irq.pending_if == raised(
                old(self).irq.pending_if,
                old(self).irq.lyc_if_delay == 1,
                2,
            ),
            final(self).irq.lyc_event == old(self).irq.lyc_event,
            final(self).irq == (super::IrqState {
                pending_if: final(self).irq.pending_if,
                lyc_if_delay: final(self).irq.lyc_if_delay,
                ..old(self).irq
            }),
    {
        if self.irq.lyc_if_delay > 0 {
            let d = self.irq.lyc_if_delay - 1;
            let p = raise_if(self.irq.pending_if, d == 0, IF_STAT);
            self.irq.lyc_if_delay = d;
            self.irq.pending_if = p;
        } else {
            let p = raise_if(self.irq.pending_if, false, IF_STAT);
            self.irq.pending_if = p;
        }
    }

    /// Move to the next line: LY follows, the window draw ends, and a
    /// visible line starts with its render and flip state cleared (line 0
    /// also resets the window line counter and the frame's WY latch).
    fn enter_line(&mut self)
        requires
            old(self).wf(),
            old(self).dot + 1 == line_len_of(old(self).glitch_line),
        ensures
            final(self).wf(),
            final(self).same_config(old(self)),
            final(self).same_memory(old(self)),
            (final(self).line, final(self).dot, final(self).glitch_line) == next_pos(
                old(self).line,
                old(self).dot,
                old(self).glitch_line,
            ),
            final(self).ly == final(self).line,
            final(self).frame_count == old(self).frame_count,
            final(self).frame_skip == old(self).frame_skip,
            final(self).irq == old(self).irq,
            final(self).eff == old(self).eff,
            final(self).staged == old(self).staged,
            final(self).front == old(self).front,
            final(self).back == old(self).back,
            final(self).sgb == old(self).sgb,
            final(self).render.pos == old(self).render.pos,
            final(self).line <= 143 ==> !final(self).render.active && !final(self).flags.line_render_done,
            final(self).line <= 143 ==> !final(self).flags.render_finished && !final(self).flags.hdma_lead,
            final(self).line > 143 ==> final(self).flags == old(self).flags,
            final(self).line == 0 ==> !final(self).window.wy_triggered && final(self).window.win_line == 0xFF,
            *final(self) == old(self).spec_enter_line(),
    {
        proof {
            reveal(super::Render::wf);
        }
        let next: u8 = if self.line == 153 {
            0
        } else {
            self.line + 1
        };
        self.dot = 0;
        self.glitch_line = false;
        self.render.win.active = false;
        self.line = next;
        self.ly = next;
        if next <= 143 {
            self.flags = LineFlags {
                line_render_done: false,
                render_finished: false,
                hdma_lead: false,
                ..self.flags
            };
            self.render.active = false;
        }
        if next == 0 {
            self.window = WinLatch { wy_triggered: false, win_line: 0xFF, ..self.window };
        }
    }

    /// Present the frame just rendered at the start of VBlank: the first
    /// frame after an LCD enable is shown blank, an SGB MASK_EN freeze keeps
    /// the last frame, a black or color-0 mask paints over it; then the SGB
    /// frame-boundary work runs.
    fn present_frame(&mut self)
        requires
            old(self).wf(),
        ensures
            final(self).wf(),
            final(self).same_config(old(self)),
            final(self).line == old(self).line && final(self).dot == old(self).dot && final(self).ly
                == old(self).ly && final(self).glitch_line == old(self).glitch_line,
            final(self).frame_count == old(self).frame_count.wrapping_add(1),
            !final(self).frame_skip,
            final(self).same_memory(old(self)),
            final(self).irq == old(self).irq,
            final(self).flags == old(self).flags,
            final(self).window == old(self).window,
            final(self).eff == old(self).eff,
            final(self).staged == old(self).staged,
            final(self).render == old(self).render,
            final(self).sgb is Some <==> old(self).sgb is Some,
            old(self).sgb is None && old(self).frame_skip ==> forall|i: int|
                0 <= i < SCREEN_PIXELS ==> #[trigger] final(self).front@[i] == old(self).spec_white(),
            old(self).sgb is None && !old(self).frame_skip ==> final(self).front@ == old(self).back@
                && final(self).back@ == old(self).front@,
            old(self).frame_skip ==> final(self).back == old(self).back,
            presented(*old(self), *final(self)),
            *final(self) == (Ppu {
                frame_count: old(self).frame_count.wrapping_add(1),
                frame_skip: false,
                front: final(self).front,
                back: final(self).back,
                sgb: final(self).sgb,
                ..*old(self)
            }),
    {
        proof {
            reveal(super::frames_ok);
            reveal(super::sgb_ok);
        }
        self.frame_count = self.frame_count.wrapping_add(1);
        let (hold, mask_fill) = match &self.sgb {
            Some(s) => (s.holds_frame(), s.mask_fill()),
            None => (false, None),
        };
        if self.frame_skip {
            self.frame_skip = false;
            let white = self.white();
            fill_u32(&mut self.front, white);
        } else if !hold {
            std::mem::swap(&mut self.front, &mut self.back);
        }
        if let Some(c) = mask_fill {
            fill_u32(&mut self.front, c);
        }
        self.sgb_frame_boundary();
    }
}

impl Ppu {
    /// Advance the scan position one dot; at a line's end enter the next
    /// line, and at the start of VBlank present the frame.
    fn advance_dot(&mut self)
        requires
            old(self).wf(),
            old(self).enabled,
        ensures
            final(self).wf(),
            final(self).same_config(old(self)),
            final(self).same_memory(old(self)),
            (final(self).line, final(self).dot, final(self).glitch_line) == next_pos(
                old(self).line,
                old(self).dot,
                old(self).glitch_line,
            ),
            final(self).dot != 0 ==> final(self).ly == old(self).ly,
            final(self).dot == 0 ==> final(self).ly == final(self).line,
            final(self).frame_count == if final(self).line == 144 && final(self).dot == 0 {
                old(self).frame_count.wrapping_add(1)
            } else {
                old(self).frame_count
            },
            final(self).irq == old(self).irq,
            final(self).eff == old(self).eff,
            final(self).staged == old(self).staged,
            !(final(self).line == 144 && final(self).dot == 0) ==> final(self).front == old(self).front,
            !(final(self).line == 144 && final(self).dot == 0) ==> final(self).back == old(self).back,
            final(self).render.pos == old(self).render.pos,
            final(self).line == 144 && final(self).dot == 0 && old(self).sgb is None ==> if old(self).frame_skip {
                forall|i: int| 0 <= i < SCREEN_PIXELS ==> #[trigger] final(self).front@[i] == old(self).spec_white()
            } else {
                final(self).front@ == old(self).back@
            },
            final(self).render.active && final(self).line <= 143 ==> final(self).render.pos.mode3_dot
                < final(self).dot,
            final(self).dot == 0 && final(self).line <= 143 ==> !final(self).render.active
                && !final(self).flags.render_finished && !final(self).flags.line_render_done
                && !final(self).glitch_line,
            final(self).flags.render_finished ==> old(self).flags.render_finished,
            old(self).dot + 1 < line_len_of(old(self).glitch_line) ==> *final(self) == (Ppu {
                dot: (old(self).dot + 1) as u16,
                ..old(self).spec_dsa_stepped()
            }),
            old(self).dot + 1 >= line_len_of(old(self).glitch_line) && old(self).line != 143
                ==> *final(self) == old(self).spec_dsa_stepped().spec_enter_line(),
            old(self).dot + 1 >= line_len_of(old(self).glitch_line) && old(self).line == 143
                ==> *final(self) == (Ppu {
                frame_count: old(self).frame_count.wrapping_add(1),
                frame_skip: false,
                front: final(self).front,
                back: final(self).back,
                sgb: final(self).sgb,
                ..old(self).spec_dsa_stepped().spec_enter_line()
            }),
            old(self).frame_skip && !final(self).frame_skip ==> final(self).back == old(self).back,
            old(self).dot + 1 >= line_len_of(old(self).glitch_line) && old(self).line == 143 ==> presented(
                old(self).spec_dsa_stepped().spec_enter_line(),
                *final(self),
            ),
    {
        self.sb_dsa8 = (self.sb_dsa8 % 8 + 2) % 8;
        if self.dot + 1 < self.line_len() {
            self.dot = self.dot + 1;
        } else {
            self.enter_line();
            if self.line == 144 {
                self.present_frame();
            }
        }
    }

    /// This line's dot length: 452 on the LCD-enable line, else 456.
    pub fn line_len(&self) -> (r: u16)
        ensures
            r == line_len_of(self.glitch_line),
    {
        if self.glitch_line {
            super::GLITCH_LINE_DOTS
        } else {
            super::LINE_DOTS
        }
    }

    /// The dot the per-line WY compare runs on: dot 4 (line 0 on CGB: dot
    /// 8), one dot earlier in double speed.
    pub open spec fn spec_wy_compare_dot(&self) -> u16 {
        let base: u16 = if self.line == 0 && self.cgb() {
            8
        } else {
            4
        };
        if self.ds {
            (base - 1) as u16
        } else {
            base
        }
    }

    /// The per-line WY compare: with the LCD and the window enabled, WY
    /// equal to the line latches the frame-sticky window-Y trigger (and the
    /// dot it first latched).
    pub fn wy_check(&mut self)
        requires
            old(self).wf(),
        ensures
            final(self).wf(),
            final(self).only_window_changed(old(self)),
            final(self).window == if old(self).enabled && old(self).regs.lcdc & 0x20 != 0 && old(self).regs.wy
                == old(self).line {
                WinLatch {
                    wy_triggered: true,
                    wy_trig_dot: if old(self).window.wy_triggered {
                        old(self).window.wy_trig_dot
                    } else {
                        old(self).dot
                    },
                    ..old(self).window
                }
            } else {
                old(self).window
            },
    {
        if self.enabled && self.regs.lcdc & 0x20 != 0 && self.regs.wy == self.line {
            let d = if self.window.wy_triggered {
                self.window.wy_trig_dot
            } else {
                self.dot
            };
            self.window = WinLatch { wy_triggered: true, wy_trig_dot: d, ..self.window };
        }
    }

    /// CGB: the line-start LYC event's delayed FF45 copy catches up outside
    /// the 4-dot lead-in of each event (dots 1-4, and 153:9-12 for LYC 0).
    fn lyc_event_catchup(&mut self)
        requires
            old(self).wf(),
        ensures
            final(self).wf(),
            final(self).only_irq_changed(old(self)),
            final(self).irq == if old(self).cgb() && !(1 <= old(self).dot <= 4 || (old(self).line == 153 && 9
                <= old(self).dot <= 12)) {
                super::IrqState { lyc_event: old(self).regs.lyc, ..old(self).irq }
            } else {
                old(self).irq
            },
    {
        if self.model.is_cgb() {
            let protected = (1 <= self.dot && self.dot <= 4) || (self.line == 153 && 9 <= self.dot
                && self.dot <= 12);
            if !protected {
                self.irq.lyc_event = self.regs.lyc;
            }
        }
    }

    /// Dot 4: the mode-0 IRQ source (raised by the previous line's flip)
    /// drops as mode 2 becomes visible.
    fn m0_source_drop(&mut self)
        requires
            old(self).wf(),
        ensures
            final(self).wf(),
            final(self).same_config(old(self)),
            final(self).same_pos(old(self)),
            final(self).same_memory(old(self)),
            final(self).irq == old(self).irq,
            final(self).window == old(self).window,
            final(self).eff == old(self).eff,
            final(self).staged == old(self).staged,
            final(self).front == old(self).front,
            final(self).back == old(self).back,
            final(self).sgb == old(self).sgb,
            final(self).render == old(self).render,
            final(self).flags == if old(self).dot == 4 {
                LineFlags { m0_src: false, ..old(self).flags }
            } else {
                old(self).flags
            },
    {
        if self.dot == 4 {
            self.flags.m0_src = false;
        }
    }

    /// A visible line's pixel work for this dot: the serial OAM scan before
    /// dot 84, the pipeline start at 84 (78 on the LCD-enable line), a
    /// pipeline step after, then the mode-0 flip events.
    fn pixel_dot(&mut self)
        requires
            old(self).wf(),
            old(self).line <= 143,
            old(self).render.active ==> old(self).render.pos.mode3_dot < old(self).dot,
        ensures
            final(self).wf(),
            final(self).pipe_frame(old(self)),
            !old(self).glitch_line && old(self).dot < 84 ==> final(self).render.pos == old(self).render.pos
                && final(self).render.active == old(self).render.active && final(self).back == old(self).back,
            !old(self).glitch_line && old(self).dot < 84 && !(old(self).dot >= SCAN_OFF && (old(self).dot
                - SCAN_OFF) % 2 == 0 && (old(self).dot - SCAN_OFF) / 2 < 40) ==> final(self).render == old(self).render,
            !old(self).glitch_line && old(self).dot < 84 && old(self).dot >= SCAN_OFF && (old(self).dot - SCAN_OFF)
                % 2 == 0 && (old(self).dot - SCAN_OFF) / 2 < 40 ==> {
                let i = (old(self).dot - SCAN_OFF) / 2;
                let n0: u8 = if i == 0 {
                    0
                } else {
                    old(self).render.n_sprites
                };
                (final(self).render.n_sprites, final(self).render.sprites@) == old(self).spec_select_entry(
                    n0,
                    old(self).render.sprites@,
                    i,
                )
            },
            (old(self).glitch_line && old(self).dot == GLITCH_MODE3_START) || (!old(self).glitch_line
                && old(self).dot == 84) ==> final(self).render.spec_started(old(self).glitch_line)
                && final(self).back == old(self).back,
            ((old(self).glitch_line && old(self).dot != GLITCH_MODE3_START) || (!old(self).glitch_line
                && old(self).dot > 84)) && old(self).render.active ==> {
                &&& final(self).render.pos.mode3_dot == old(self).render.pos.mode3_dot + 1
                &&& final(self).render.pos.lx == old(self).render.pos.lx || final(self).render.pos.lx
                    == old(self).render.pos.lx + 1
                &&& final(self).render.pos.lx == old(self).render.pos.lx ==> final(self).back == old(self).back
                &&& final(self).render.pos.lx == old(self).render.pos.lx + 1 ==> only_pixel_changed(
                    old(self).back@,
                    final(self).back@,
                    old(self).ly * SCREEN_W + old(self).render.pos.lx,
                )
            },
            ((old(self).glitch_line && old(self).dot != GLITCH_MODE3_START) || (!old(self).glitch_line
                && old(self).dot > 84)) && !old(self).render.active ==> final(self).render == old(self).render
                && final(self).back == old(self).back,
            exists|t: Ppu| #![trigger pixel_dot_path(*old(self), t, *final(self))] pixel_dot_path(
                *old(self),
                t,
                *final(self),
            ),
            !old(self).glitch_line && old(self).dot < 84 && !old(self).render.active ==> final(self).flags
                == old(self).flags,
            final(self).flags.render_finished ==> old(self).flags.render_finished
                || (!final(self).render.active && final(self).render.pos.lx == 160),
    {
        let ghost o = *self;
        if self.glitch_line {
            if self.dot == GLITCH_MODE3_START {
                self.render_init();
                assert(render_init_rel(o, *self)) by {
                    reveal(render_init_rel);
                }
            } else if self.render.active {
                self.render_step();
                assert(render_step_rel(o, *self)) by {
                    reveal(render_step_rel);
                }
            }
        } else if self.dot < 84 {
            self.oam_scan_step();
            assert(oam_scan_dot_rel(o, *self)) by {
                reveal(oam_scan_dot_rel);
            }
        } else if self.dot == 84 {
            self.render_init();
            assert(render_init_rel(o, *self)) by {
                reveal(render_init_rel);
            }
        } else if self.render.active {
            self.render_step();
            assert(render_step_rel(o, *self)) by {
                reveal(render_step_rel);
            }
        }
        let ghost t = *self;
        self.m0_flip_events();
        assert(m0_flip_rel(t, *self)) by {
            reveal(m0_flip_rel);
        }
        assert(pixel_dot_path(o, t, *self));
    }

    /// The dot's LY quirks (see [`ly_quirk`]).
    fn ly_quirks(&mut self)
        requires
            old(self).wf(),
        ensures
            final(self).wf(),
            final(self).same_config(old(self)),
            final(self).same_memory(old(self)),
            final(self).line == old(self).line && final(self).dot == old(self).dot,
            final(self).glitch_line == old(self).glitch_line,
            final(self).frame_count == old(self).frame_count,
            final(self).frame_skip == old(self).frame_skip,
            final(self).ly == ly_quirk(old(self).cgb(), old(self).ds, old(self).line, old(self).dot, old(self).ly),
            final(self).irq == old(self).irq,
            final(self).eff == old(self).eff,
            final(self).staged == old(self).staged,
            final(self).front == old(self).front,
            final(self).back == old(self).back,
            final(self).render == old(self).render,
            final(self).flags == old(self).flags,
            final(self).window == old(self).window,
            *final(self) == (Ppu { ly: final(self).ly, ..*old(self) }),
    {
        let cgb = self.model.is_cgb();
        if cgb && !self.ds && self.line == 152 && self.dot == 454 {
            self.ly = 153;
        } else if self.line == 153 {
            let wrap: u16 = if cgb && self.ds {
                6
            } else {
                4
            };
            if self.dot == wrap {
                self.ly = 0;
            }
        }
    }

    /// The VBlank interrupt: 4 dots into line 144, with the visible mode 1.
    fn vblank_irq(&mut self)
        requires
            old(self).wf(),
        ensures
            final(self).wf(),
            final(self).only_irq_changed(old(self)),
            final(self).irq == (super::IrqState {
                pending_if: raised(old(self).irq.pending_if, old(self).line == 144 && old(self).dot == 4, 1),
                ..old(self).irq
            }),
    {
        let p = raise_if(self.irq.pending_if, self.line == 144 && self.dot == 4, IF_VBLANK);
        self.irq.pending_if = p;
    }
}

/// Raising the STAT bit keeps the VBlank bit; raising the VBlank bit sets
/// it and keeps the STAT bit.
pub proof fn lemma_raised_bits(a: u8, c: bool)
    requires
        a < 4,
    ensures
        raised(a, c, 2) < 4,
        raised(a, c, 2) & 1 == a & 1,
        raised(a, c, 1) < 4,
        (raised(a, c, 1) & 1 != 0) == (c || a & 1 != 0),
        (raised(a, c, 2) & 2 != 0) == (c || a & 2 != 0),
        raised(a, c, 1) & 2 == a & 2,
{
    lemma_or_stat(a);
    lemma_or_vblank(a);
}

impl Ppu {
    /// Everything that happens on the dot just reached: the CGB LYC event
    /// copy, the mode-0 source drop, the per-line WY compare, a visible
    /// line's OAM scan / pixel pipeline / mode-0 flip, the LY quirks and the
    /// VBlank interrupt.
    fn step_dot(&mut self)
        requires
            old(self).wf(),
            old(self).render.active && old(self).line <= 143 ==> old(self).render.pos.mode3_dot < old(
                self,
            ).dot,
        ensures
            final(self).wf(),
            final(self).same_config(old(self)),
            final(self).same_memory(old(self)),
            final(self).line == old(self).line && final(self).dot == old(self).dot,
            final(self).glitch_line == old(self).glitch_line,
            final(self).frame_count == old(self).frame_count,
            final(self).ly == ly_quirk(old(self).cgb(), old(self).ds, old(self).line, old(self).dot, old(self).ly),
            final(self).eff == old(self).eff,
            final(self).staged == old(self).staged,
            final(self).front == old(self).front,
            old(self).line > 143 ==> final(self).back == old(self).back && final(self).sgb == old(self).sgb,
            final(self).back == old(self).back || (old(self).line <= 143 && final(self).render.pos.lx == old(
                self,
            ).render.pos.lx + 1 && only_pixel_changed(
                old(self).back@,
                final(self).back@,
                old(self).ly * SCREEN_W + old(self).render.pos.lx,
            )),
            final(self).irq.pending_if == raised(
                old(self).irq.pending_if,
                old(self).line == 144 && old(self).dot == 4,
                1,
            ),
            exists|t1: Ppu, t2: Ppu, t3: Ppu|
                #![trigger step_dot_path(*old(self), t1, t2, t3, *final(self))]
                step_dot_path(*old(self), t1, t2, t3, *final(self)),
            old(self).dot == 0 && !old(self).glitch_line && !old(self).render.active ==> final(self).flags
                == old(self).flags,
            final(self).flags.render_finished ==> old(self).flags.render_finished
                || (!final(self).render.active && final(self).render.pos.lx == 160),
    {
        let ghost s0 = *self;
        self.line_start_events();
        let ghost s1 = *self;
        assert(line_start_rel(s0, s1)) by {
            reveal(line_start_rel);
        }
        if self.line <= 143 {
            self.pixel_dot();
        }
        let ghost s2 = *self;
        self.ly_quirks();
        let ghost s3 = *self;
        assert(ly_quirks_rel(s2, s3)) by {
            reveal(ly_quirks_rel);
        }
        self.vblank_irq();
        assert(vblank_irq_rel(s3, *self)) by {
            reveal(vblank_irq_rel);
        }
        assert(step_dot_path(s0, s1, s2, s3, *self));
    }

    /// The dot's line-start work: the CGB LYC event copy, the mode-0 source
    /// drop and the per-line WY compare.
    fn line_start_events(&mut self)
        requires
            old(self).wf(),
        ensures
            final(self).wf(),
            final(self).same_config(old(self)),
            final(self).same_pos(old(self)),
            final(self).same_memory(old(self)),
            final(self).eff == old(self).eff,
            final(self).staged == old(self).staged,
            final(self).render == old(self).render,
            final(self).front == old(self).front,
            final(self).back == old(self).back,
            final(self).sgb == old(self).sgb,
            final(self).irq.pending_if == old(self).irq.pending_if,
            final(self).irq == if old(self).cgb() && !(1 <= old(self).dot <= 4 || (old(self).line == 153 && 9
                <= old(self).dot <= 12)) {
                super::IrqState { lyc_event: old(self).regs.lyc, ..old(self).irq }
            } else {
                old(self).irq
            },
            final(self).flags == if old(self).dot == 4 {
                LineFlags { m0_src: false, ..old(self).flags }
            } else {
                old(self).flags
            },
            final(self).window == if old(self).dot == old(self).spec_wy_compare_dot() && old(self).enabled
                && old(self).regs.lcdc & 0x20 != 0 && old(self).regs.wy == old(self).line {
                WinLatch {
                    wy_triggered: true,
                    wy_trig_dot: if old(self).window.wy_triggered {
                        old(self).window.wy_trig_dot
                    } else {
                        old(self).dot
                    },
                    ..old(self).window
                }
            } else {
                old(self).window
            },
    {
        self.lyc_event_catchup();
        self.m0_source_drop();
        let base: u16 = if self.line == 0 && self.model.is_cgb() {
            8
        } else {
            4
        };
        let compare_dot: u16 = if self.ds {
            base - 1
        } else {
            base
        };
        if self.dot == compare_dot {
            self.wy_check();
        }
    }

    /// The STAT interrupt engine for the dot: refresh the LY=LYC comparison
    /// and the interrupt line, then fire the dot's per-source events.
    fn stat_engine_tick(&mut self)
        requires
            old(self).wf(),
        ensures
            final(self).wf(),
            final(self).same_config(old(self)),
            final(self).same_pos(old(self)),
            final(self).same_memory(old(self)),
            final(self).eff == old(self).eff,
            final(self).staged == old(self).staged,
            final(self).front == old(self).front,
            final(self).back == old(self).back,
            final(self).render == old(self).render,
            final(self).irq.pending_if < 4,
            final(self).irq.pending_if & 1 == old(self).irq.pending_if & 1,
            final(self).irq.pending_if == raised(old(self).irq.pending_if, old(self).spec_engine_fires(), 2),
            final(self).flags == (LineFlags { m0_rise_dot: false, ..old(self).flags }),
            *final(self) == (Ppu { irq: old(self).spec_refreshed_irq(true), ..*old(self) }).spec_after_stat_events(),
    {
        self.refresh_coincidence(true);
        let ghost mid = self.irq.pending_if;
        self.stat_events_tick();
        proof {
            lemma_raised_bits(mid, true);
            lemma_raised_bits(mid, false);
        }
    }

    /// Advance one dot. Returns the IF bits produced (bit 0 VBlank, bit 1
    /// STAT), including any a register write raised since the last call.
    pub fn tick(&mut self) -> (r: u8)
        requires
            old(self).wf(),
        ensures
            final(self).wf(),
            r < 4,
            final(self).irq.pending_if == 0,
            final(self).same_config(old(self)),
            final(self).same_memory(old(self)),
            !(old(self).enabled && final(self).line == 144 && final(self).dot == 0) ==> final(self).front
                == old(self).front,
            !(old(self).enabled && final(self).line == 144 && final(self).dot == 0) ==> final(self).back
                == old(self).back || (final(self).render.pos.lx >= 1 && only_pixel_changed(
                old(self).back@,
                final(self).back@,
                final(self).ly * SCREEN_W + final(self).render.pos.lx - 1,
            )),
            old(self).enabled && final(self).line == 144 && final(self).dot == 0 && old(self).sgb is None ==> if old(
                self,
            ).frame_skip {
                forall|i: int| 0 <= i < SCREEN_PIXELS ==> #[trigger] final(self).front@[i] == old(self).spec_white()
            } else {
                final(self).front@ == old(self).back@
            },
            !old(self).enabled ==> final(self).same_pos(old(self)) && r == old(self).irq.pending_if,
            !old(self).enabled ==> final(self).back == old(self).back && final(self).front == old(self).front
                && final(self).flags == old(self).flags && final(self).window == old(self).window,
            old(self).enabled ==> (final(self).line, final(self).dot, final(self).glitch_line) == next_pos(
                old(self).line,
                old(self).dot,
                old(self).glitch_line,
            ),
            old(self).enabled ==> final(self).frame_count == if final(self).line == 144 && final(self).dot
                == 0 {
                old(self).frame_count.wrapping_add(1)
            } else {
                old(self).frame_count
            },
            old(self).enabled ==> final(self).ly == ly_quirk(
                old(self).cgb(),
                old(self).ds,
                final(self).line,
                final(self).dot,
                if final(self).dot == 0 {
                    final(self).line
                } else {
                    old(self).ly
                },
            ),
            old(self).enabled ==> ((r & 1 != 0) == (old(self).irq.pending_if & 1 != 0 || (final(self).line
                == 144 && final(self).dot == 4))),
            tick_clock(*old(self), *final(self)),
            old(self).enabled && final(self).dot == 0 && final(self).line <= 143 ==> !final(self).flags.line_render_done,
            tick_hblank(*old(self), *final(self)),
            tick_vblank(*old(self), r, *final(self)),
            keeps_stat_sources(*old(self), *final(self)),
            old(self).enabled && final(self).line == 144 && final(self).dot == 0 ==> presented(
                *old(self),
                *final(self),
            ),
            old(self).enabled ==> exists|s1: Ppu, s2: Ppu, s3: Ppu, s4: Ppu, s5: Ppu, s6: Ppu|
                #![trigger tick_path(*old(self), s1, s2, s3, s4, s5, s6, r, *final(self))]
                tick_path(*old(self), s1, s2, s3, s4, s5, s6, r, *final(self)),
            !old(self).enabled ==> exists|s1: Ppu, s2: Ppu|
                #![trigger tick_off_path(*old(self), s1, s2, *final(self))]
                tick_off_path(*old(self), s1, s2, *final(self)),
    {
        let ghost s0 = *self;
        self.strobe_tick();
        let ghost s1 = *self;
        assert(strobe_rel(s0, s1)) by {
            reveal(strobe_rel);
        }
        self.age_copies();
        assert(age_rel(s1, *self)) by {
            reveal(age_rel);
        }
        if !self.enabled {
            let ghost s2 = *self;
            let r = self.irq.pending_if;
            self.irq.pending_if = 0;
            assert(tick_off_path(s0, s1, s2, *self));
            return r;
        }
        let ghost s2 = *self;
        let ghost p0 = self.irq.pending_if;
        self.lyc_delay_tick();
        let ghost s3 = *self;
        let ghost p1 = self.irq.pending_if;
        proof {
            lemma_raised_bits(p0, true);
            lemma_raised_bits(p0, false);
        }
        self.advance_dot();
        let ghost s4 = *self;
        self.step_dot();
        let ghost s5 = *self;
        let ghost p2 = self.irq.pending_if;
        proof {
            lemma_raised_bits(p1, true);
            lemma_raised_bits(p1, false);
        }
        self.stat_engine_tick();
        let ghost s6 = *self;
        proof {
            lemma_raised_bits(p2, true);
            lemma_raised_bits(p2, false);
            assert(lyc_delay_rel(s2, s3)) by {
                reveal(lyc_delay_rel);
            }
            assert(advance_rel(s3, s4)) by {
                reveal(advance_rel);
            }
            assert(stat_engine_rel(s5, s6)) by {
                reveal(stat_engine_rel);
            }
            if s6.line == 144 && s6.dot == 0 {
                let o2 = s3.spec_dsa_stepped().spec_enter_line();
                assert(s3.line == 143 && s3.dot + 1 >= line_len_of(s3.glitch_line));
                assert(presented(o2, s4));
                assert(s4.front == s6.front && s4.back == s6.back && s4.sgb == s6.sgb);
                assert(o2.front == s0.front && o2.back == s0.back && o2.sgb == s0.sgb);
                assert(o2.frame_skip == s0.frame_skip && o2.spec_white() == s0.spec_white());
                assert(o2.spec_holds_frame() == s0.spec_holds_frame());
                assert(o2.spec_mask_fill() == s0.spec_mask_fill());
                assert(presented(s0, s6));
            }
        }
        let r = self.irq.pending_if;
        self.irq.pending_if = 0;
        proof {
            if s6.line == 144 && s6.dot == 0 {
                assert(self.front@ == s6.front@ && self.back@ == s6.back@ && self.sgb == s6.sgb);
                assert(presented(s0, *self));
            }
        }
        assert(tick_path(s0, s1, s2, s3, s4, s5, s6, r, *self));
        r
    }
}

/// A mode-3 start (see [`Ppu::render_init`]).
#[verifier::opaque]
pub open spec fn render_init_rel(o: Ppu, n: Ppu) -> bool {
    &&& (n.pipe_frame(&o))
    &&& (n.flags == o.flags)
    &&& (n.back == o.back)
    &&& (n.sgb == o.sgb)
    &&& (n.render.spec_started(o.glitch_line))
    &&& (!n.window.start_pending)
    &&& (n.window.wy_triggered == o.window.wy_triggered)
    &&& (({
                let carried = o.window.start_pending && o.eff.lcdc & LCDC_WIN_ENABLE != 0;
                &&& n.render.fetch == Fetcher {
                    phase: FetchPhase::TileNoWait,
                    fetch_x: if carried {
                        1u8
                    } else {
                        0u8
                    },
                    win_mode: carried,
                    first_discard: true,
                    ..o.render.fetch
                }
                &&& n.render.win == WinRender {
                    active: carried,
                    stalled: false,
                    aborted: false,
                    match_prev: false,
                    wx_match_dot: 0,
                    pending_until: 0,
                }
                &&& n.window == WinLatch {
                    start_pending: false,
                    win_line: if carried {
                        o.window.win_line.wrapping_add(1)
                    } else {
                        o.window.win_line
                    },
                    ..o.window
                }
            }))
    &&& (n.render.fifo == (BgFifo { count: 0, ..o.render.fifo }))
    &&& (n.render.sp_fifo@.len() == 8)
    &&& (forall|i: int| 0 <= i < 8 ==> #[trigger] n.render.sp_fifo@[i] == empty_pixel_spec())
    &&& (n.render.sprites == o.render.sprites)
    &&& (!o.glitch_line ==> n.render.n_sprites == o.render.n_sprites)
}

/// A mode-3 dot (see [`Ppu::render_step`]).
#[verifier::opaque]
pub open spec fn render_step_rel(o: Ppu, n: Ppu) -> bool {
    &&& (n.pipe_frame(&o))
    &&& (n.render.pos.mode3_dot == o.render.pos.mode3_dot + 1)
    &&& (o.render.pos.stall > 0 ==> n.render.pos.stall == o.render.pos.stall - 1
                && n.render.pos.lx == o.render.pos.lx && n.back == o.back)
    &&& (n.render.pos.lx == o.render.pos.lx || n.render.pos.lx
                == o.render.pos.lx + 1)
    &&& (n.render.pos.lx == o.render.pos.lx ==> n.back == o.back)
    &&& (n.render.pos.lx == o.render.pos.lx + 1 ==> only_pixel_changed(
                o.back@,
                n.back@,
                o.ly * SCREEN_W + o.render.pos.lx,
            ))
    &&& (exists|s0: Ppu, s1: Ppu, s2: Ppu, s3: Ppu, s4: Ppu, e1: bool, e2: bool, e3: bool, e4: bool|
        #![trigger render_dot_path(o, s0, s1, s2, s3, s4, e1, e2, e3, e4, n)]
        render_dot_path(o, s0, s1, s2, s3, s4, e1, e2, e3, e4, n))
}

/// An OAM-scan dot (see [`Ppu::oam_scan_step`]).
#[verifier::opaque]
pub open spec fn oam_scan_dot_rel(o: Ppu, n: Ppu) -> bool {
    &&& (n.only_render_changed(&o))
    &&& (n.render == (Render { n_sprites: n.render.n_sprites, sprites: n.render.sprites, ..o.render }))
    &&& (n.render.active == o.render.active)
    &&& (n.render.pos == o.render.pos)
    &&& (!(o.dot >= SCAN_OFF && (o.dot - SCAN_OFF) % 2 == 0 && (o.dot - SCAN_OFF) / 2
                < 40) ==> n.render == o.render)
    &&& (o.dot >= SCAN_OFF && (o.dot - SCAN_OFF) % 2 == 0 && (o.dot - SCAN_OFF) / 2 < 40
                ==> {
                let i = (o.dot - SCAN_OFF) / 2;
                let n0: u8 = if i == 0 {
                    0
                } else {
                    o.render.n_sprites
                };
                (n.render.n_sprites, n.render.sprites@) == o.spec_select_entry(
                    n0,
                    o.render.sprites@,
                    i,
                )
            })
}

/// The mode-0 flip events of a dot (see [`Ppu::m0_flip_events`]).
#[verifier::opaque]
pub open spec fn m0_flip_rel(o: Ppu, n: Ppu) -> bool {
    &&& (n.pipe_frame(&o))
    &&& (n.render == o.render)
    &&& (n.window == o.window)
    &&& (n.back == o.back)
    &&& (n.sgb == o.sgb)
    &&& (o.flags.m0_src || !o.render.active ==> n.flags == o.flags)
    &&& (!o.flags.m0_src && o.render.active ==> n.flags == if o.spec_flip_projection().0 <= o.spec_flip_projection().1 {
                o.spec_flip_flags()
            } else {
                o.flags
            })
}

/// The line-start events of a dot (see [`Ppu::line_start_events`]).
#[verifier::opaque]
pub open spec fn line_start_rel(o: Ppu, n: Ppu) -> bool {
    &&& (n.same_config(&o))
    &&& (n.same_pos(&o))
    &&& (n.same_memory(&o))
    &&& (n.eff == o.eff)
    &&& (n.staged == o.staged)
    &&& (n.render == o.render)
    &&& (n.front == o.front)
    &&& (n.back == o.back)
    &&& (n.irq.pending_if == o.irq.pending_if)
    &&& (n.irq == if o.cgb() && !(1 <= o.dot <= 4 || (o.line == 153 && 9
                <= o.dot <= 12)) {
                super::IrqState { lyc_event: o.regs.lyc, ..o.irq }
            } else {
                o.irq
            })
    &&& (n.flags == if o.dot == 4 {
                LineFlags { m0_src: false, ..o.flags }
            } else {
                o.flags
            })
    &&& (n.window == if o.dot == o.spec_wy_compare_dot() && o.enabled
                && o.regs.lcdc & 0x20 != 0 && o.regs.wy == o.line {
                WinLatch {
                    wy_triggered: true,
                    wy_trig_dot: if o.window.wy_triggered {
                        o.window.wy_trig_dot
                    } else {
                        o.dot
                    },
                    ..o.window
                }
            } else {
                o.window
            })
}

/// The LY quirks of a dot (see [`Ppu::ly_quirks`]).
#[verifier::opaque]
pub open spec fn ly_quirks_rel(o: Ppu, n: Ppu) -> bool {
    &&& (n.same_config(&o))
    &&& (n.same_memory(&o))
    &&& (n.line == o.line && n.dot == o.dot)
    &&& (n.glitch_line == o.glitch_line)
    &&& (n.frame_count == o.frame_count)
    &&& (n.frame_skip == o.frame_skip)
    &&& (n.ly == ly_quirk(o.cgb(), o.ds, o.line, o.dot, o.ly))
    &&& (n.irq == o.irq)
    &&& (n.eff == o.eff)
    &&& (n.staged == o.staged)
    &&& (n.front == o.front)
    &&& (n.back == o.back)
    &&& (n.render == o.render)
    &&& (n.flags == o.flags)
    &&& (n.window == o.window)
    &&& (n == (Ppu { ly: n.ly, ..o }))
}

/// The VBlank interrupt of a dot (see [`Ppu::vblank_irq`]).
#[verifier::opaque]
pub open spec fn vblank_irq_rel(o: Ppu, n: Ppu) -> bool {
    &&& (n.only_irq_changed(&o))
    &&& (n.irq == (super::IrqState {
                pending_if: raised(o.irq.pending_if, o.line == 144 && o.dot == 4, 1),
                ..o.irq
            }))
}


/// The pixel work of a visible-line dot (see [`Ppu::pixel_dot`]): the
/// mode-3 start, an OAM-scan dot or a mode-3 dot as the dot falls, then the
/// mode-0 flip events.
pub open spec fn pixel_dot_path(o: Ppu, t: Ppu, n: Ppu) -> bool {
    let init = (o.glitch_line && o.dot == GLITCH_MODE3_START) || (!o.glitch_line && o.dot == 84);
    let scan = !o.glitch_line && o.dot < 84;
    let step = !init && !scan && o.render.active;
    &&& init ==> render_init_rel(o, t)
    &&& scan ==> oam_scan_dot_rel(o, t)
    &&& step ==> render_step_rel(o, t)
    &&& !init && !scan && !step ==> t == o
    &&& m0_flip_rel(t, n)
}

/// One dot of work at the position just reached (see [`Ppu::step_dot`]):
/// the line-start events, a visible line's pixel work, the LY quirks and
/// the VBlank interrupt, through the states `t1`, `t2`, `t3`.
pub open spec fn step_dot_path(o: Ppu, t1: Ppu, t2: Ppu, t3: Ppu, n: Ppu) -> bool {
    &&& line_start_rel(o, t1)
    &&& t1.line <= 143 ==> exists|t: Ppu| #![trigger pixel_dot_path(t1, t, t2)] pixel_dot_path(t1, t, t2)
    &&& t1.line > 143 ==> t2 == t1
    &&& ly_quirks_rel(t2, t3)
    &&& vblank_irq_rel(t3, n)
}

/// The copy ageing of a dot (see [`Ppu::age_copies`]).
#[verifier::opaque]
pub open spec fn age_rel(o: Ppu, n: Ppu) -> bool {
    &&& (n.only_irq_changed(&o))
    &&& ((n.irq.stat_ev_staged, n.irq.stat_ev) == aged(o.irq.stat_ev_staged, o.irq.stat_ev))
    &&& ((n.irq.lyc_ev_m_staged, n.irq.lyc_ev_m) == aged(o.irq.lyc_ev_m_staged, o.irq.lyc_ev_m))
    &&& ((n.irq.stat_lyc_ev_staged, n.irq.stat_lyc_ev) == aged(
        o.irq.stat_lyc_ev_staged,
        o.irq.stat_lyc_ev,
    ))
    &&& (n.irq.pending_if == o.irq.pending_if)
    &&& (n.irq.lyc_if_delay == o.irq.lyc_if_delay)
    &&& (n.irq.lyc_event == o.irq.lyc_event)
    &&& (n.irq.stat_line == o.irq.stat_line)
    &&& (n.irq == (super::IrqState {
                stat_ev_staged: n.irq.stat_ev_staged,
                stat_ev: n.irq.stat_ev,
                lyc_ev_m_staged: n.irq.lyc_ev_m_staged,
                lyc_ev_m: n.irq.lyc_ev_m,
                stat_lyc_ev_staged: n.irq.stat_lyc_ev_staged,
                stat_lyc_ev: n.irq.stat_lyc_ev,
                ..o.irq
            }))
}

/// The deferred FF45-write STAT interrupt of a dot (see
/// [`Ppu::lyc_delay_tick`]).
#[verifier::opaque]
pub open spec fn lyc_delay_rel(o: Ppu, n: Ppu) -> bool {
    &&& (n.only_irq_changed(&o))
    &&& (n.irq.lyc_if_delay == if o.irq.lyc_if_delay > 0 {
        (o.irq.lyc_if_delay - 1) as u8
    } else {
        0u8
    })
    &&& (n.irq.pending_if == raised(o.irq.pending_if, o.irq.lyc_if_delay == 1, 2))
    &&& (n.irq.lyc_event == o.irq.lyc_event)
    &&& (n.irq == (super::IrqState {
        pending_if: n.irq.pending_if,
        lyc_if_delay: n.irq.lyc_if_delay,
        ..o.irq
    }))
}

/// The clock step of a dot (see [`Ppu::advance_dot`]).
#[verifier::opaque]
pub open spec fn advance_rel(o: Ppu, n: Ppu) -> bool {
    &&& (n.same_config(&o))
    &&& (n.same_memory(&o))
    &&& ((n.line, n.dot, n.glitch_line) == next_pos(o.line, o.dot, o.glitch_line))
    &&& (n.dot != 0 ==> n.ly == o.ly)
    &&& (n.dot == 0 ==> n.ly == n.line)
    &&& (n.frame_count == if n.line == 144 && n.dot == 0 {
        o.frame_count.wrapping_add(1)
    } else {
        o.frame_count
    })
    &&& (n.irq == o.irq)
    &&& (n.eff == o.eff)
    &&& (n.staged == o.staged)
    &&& (!(n.line == 144 && n.dot == 0) ==> n.front == o.front)
    &&& (!(n.line == 144 && n.dot == 0) ==> n.back == o.back)
    &&& (n.render.pos == o.render.pos)
    &&& (o.dot + 1 < line_len_of(o.glitch_line) ==> n == (Ppu { dot: (o.dot + 1) as u16, ..o.spec_dsa_stepped() }))
    &&& (o.dot + 1 >= line_len_of(o.glitch_line) && o.line != 143 ==> n == o.spec_dsa_stepped().spec_enter_line())
    &&& (o.dot + 1 >= line_len_of(o.glitch_line) && o.line == 143 ==> n == (Ppu {
        frame_count: o.frame_count.wrapping_add(1),
        frame_skip: false,
        front: n.front,
        back: n.back,
        sgb: n.sgb,
        ..o.spec_dsa_stepped().spec_enter_line()
    }))
    &&& (o.frame_skip && !n.frame_skip ==> n.back == o.back)
    &&& (o.dot + 1 >= line_len_of(o.glitch_line) && o.line == 143 ==> presented(
        o.spec_dsa_stepped().spec_enter_line(),
        n,
    ))
    &&& (n.line == 144 && n.dot == 0 && o.sgb is None ==> if o.frame_skip {
        forall|i: int| 0 <= i < SCREEN_PIXELS ==> #[trigger] n.front@[i] == o.spec_white()
    } else {
        n.front@ == o.back@
    })
}

/// The STAT interrupt engine of a dot (see [`Ppu::stat_engine_tick`]).
#[verifier::opaque]
pub open spec fn stat_engine_rel(o: Ppu, n: Ppu) -> bool {
    &&& (n.same_config(&o))
    &&& (n.same_pos(&o))
    &&& (n.same_memory(&o))
    &&& (n.eff == o.eff)
    &&& (n.staged == o.staged)
    &&& (n.front == o.front)
    &&& (n.back == o.back)
    &&& (n.render == o.render)
    &&& (n.irq.pending_if == raised(o.irq.pending_if, o.spec_engine_fires(), 2))
    &&& (n.flags == (LineFlags { m0_rise_dot: false, ..o.flags }))
    &&& (n == (Ppu { irq: o.spec_refreshed_irq(true), ..o }).spec_after_stat_events())
}

/// One dot of an enabled LCD (see [`Ppu::tick`]), through the states after
/// the write strobe (`s1`), the copy ageing (`s2`), the deferred FF45 IRQ
/// (`s3`), the clock step (`s4`), the dot's work (`s5`) and the STAT engine
/// (`s6`): `r` is the IF bits handed out, and the STAT bit of `r` is set
/// exactly when it was pending, the deferred FF45 IRQ fired, or the STAT
/// engine fired on the stepped state.
pub open spec fn tick_path(
    o: Ppu,
    s1: Ppu,
    s2: Ppu,
    s3: Ppu,
    s4: Ppu,
    s5: Ppu,
    s6: Ppu,
    r: u8,
    n: Ppu,
) -> bool {
    &&& strobe_rel(o, s1)
    &&& age_rel(s1, s2)
    &&& lyc_delay_rel(s2, s3)
    &&& advance_rel(s3, s4)
    &&& exists|t1: Ppu, t2: Ppu, t3: Ppu|
        #![trigger step_dot_path(s4, t1, t2, t3, s5)]
        step_dot_path(s4, t1, t2, t3, s5)
    &&& stat_engine_rel(s5, s6)
    &&& r == s6.irq.pending_if
    &&& n == (Ppu { irq: super::IrqState { pending_if: 0, ..s6.irq }, ..s6 })
    &&& (r & 2 != 0) == (o.irq.pending_if & 2 != 0 || o.irq.lyc_if_delay == 1 || s5.spec_engine_fires())
}

/// What one tick does to the scan clock: the LCD stays on or off, and with
/// the LCD on the scan moves one dot and the frame counter steps on
/// entering line 144.
pub open spec fn tick_clock(o: Ppu, n: Ppu) -> bool {
    &&& n.enabled == o.enabled
    &&& o.enabled ==> (n.line, n.dot, n.glitch_line) == next_pos(o.line, o.dot, o.glitch_line)
    &&& o.enabled ==> n.frame_count == if n.line == 144 && n.dot == 0 {
        o.frame_count.wrapping_add(1)
    } else {
        o.frame_count
    }
}

/// What one tick does to HBlank: with the LCD on, a visible line starts
/// outside HBlank, and HBlank begins only on the dot the pipe ships pixel
/// 160 (see [`pipe_end`]).
pub open spec fn tick_hblank(o: Ppu, n: Ppu) -> bool {
    &&& o.enabled && n.dot == 0 && n.line <= 143 ==> !n.spec_hblank_active()
    &&& o.enabled && n.flags.render_finished && !o.flags.render_finished ==> pipe_end(n)
}

/// The pipe has shipped pixel 160 and stopped.
pub open spec fn pipe_end(p: Ppu) -> bool {
    !p.render.active && p.render.pos.lx == 160
}

/// The VBlank bit of one tick's result `r`: with the LCD on, it is set
/// exactly when VBlank was pending or the scan reached line 144, dot 4;
/// and no IF bit stays pending after the tick.
pub open spec fn tick_vblank(o: Ppu, r: u8, n: Ppu) -> bool {
    &&& n.irq.pending_if == 0
    &&& o.enabled ==> ((r & 1 != 0) == (o.irq.pending_if & 1 != 0 || (n.line == 144 && n.dot == 4)))
}

/// Step `i` of a run of PPU states `s` is one tick.
pub open spec fn ticked(s: Seq<Ppu>, i: int) -> bool {
    tick_clock(s[i], s[i + 1]) && tick_hblank(s[i], s[i + 1])
}

impl Ppu {
    /// The PPU with its double-speed alignment phase moved on by the two
    /// half-dots of one dot.
    pub open spec fn spec_dsa_stepped(&self) -> Ppu {
        Ppu { sb_dsa8: ((self.sb_dsa8 + 2) % 8) as u8, ..*self }
    }

    /// The PPU after entering the next line at a line's end: the scan at
    /// dot 0 of the next line (153 wraps to 0) with LY following, the
    /// window draw ended; a visible line starts with mode 3 and its end
    /// flags cleared, and line 0 also resets the window line counter and the
    /// frame's WY latch.
    pub open spec fn spec_enter_line(&self) -> Ppu {
        let next: u8 = if self.line == 153 {
            0
        } else {
            (self.line + 1) as u8
        };
        Ppu {
            dot: 0,
            glitch_line: false,
            line: next,
            ly: next,
            render: Render {
                win: WinRender { active: false, ..self.render.win },
                active: if next <= 143 {
                    false
                } else {
                    self.render.active
                },
                ..self.render
            },
            flags: if next <= 143 {
                LineFlags {
                    line_render_done: false,
                    render_finished: false,
                    hdma_lead: false,
                    ..self.flags
                }
            } else {
                self.flags
            },
            window: if next == 0 {
                WinLatch { wy_triggered: false, win_line: 0xFF, ..self.window }
            } else {
                self.window
            },
            ..*self
        }
    }
}

impl Ppu {
    /// The double-speed alignment phase, mod 8.
    pub fn sb_dsa(&self) -> (r: u8)
        ensures
            r == self.sb_dsa8,
    {
        self.sb_dsa8
    }

    /// The per-STOP-pause alignment correction: the phase moves on by 4,
    /// mod 8.
    pub fn dsa_pause_correction(&mut self)
        ensures
            *final(self) == (Ppu { sb_dsa8: ((old(self).sb_dsa8 + 4) % 8) as u8, ..*old(self) }),
    {
        self.sb_dsa8 = (self.sb_dsa8 % 8 + 4) % 8;
    }

    /// Record a STOP advance of the LCD timeline by `dots`.
    pub fn add_lcd_shift(&mut self, dots: u16)
        requires
            old(self).stop.lcd_shift_dots + dots <= u16::MAX,
        ensures
            *final(self) == (Ppu {
                stop: super::StopAnchors {
                    lcd_shift_dots: (old(self).stop.lcd_shift_dots + dots) as u16,
                    ..old(self).stop
                },
                ..*old(self)
            }),
    {
        self.stop.lcd_shift_dots = self.stop.lcd_shift_dots + dots;
    }

    /// Latch the post-switch anchor at a switching STOP: the first one with
    /// the LCD on since the last LCD enable records whether it landed inside
    /// the visible part of the frame; later ones change nothing.
    pub fn note_switch_stop(&mut self)
        ensures
            *final(self) == if old(self).enabled && !old(self).stop.anchor_set {
                Ppu {
                    stop: super::StopAnchors {
                        anchor_set: true,
                        anchor_midframe: old(self).line < 144,
                        ..old(self).stop
                    },
                    ..*old(self)
                }
            } else {
                *old(self)
            },
    {
        if self.enabled && !self.stop.anchor_set {
            self.stop.anchor_set = true;
            self.stop.anchor_midframe = self.line < 144;
        }
    }

    /// Record a double-to-single-speed STOP leave with the LCD on, and its
    /// advance `k` in half-dots; nothing with the LCD off.
    pub fn note_switch_leave(&mut self, k: u8)
        ensures
            *final(self) == if old(self).enabled {
                Ppu {
                    stop: super::StopAnchors { leave_lcd_on: true, leave_k: k, ..old(self).stop },
                    ..*old(self)
                }
            } else {
                *old(self)
            },
    {
        if self.enabled {
            self.stop.leave_lcd_on = true;
            self.stop.leave_k = k;
        }
    }
}

impl Ppu {
    /// An SGB MASK_EN freeze holds the last presented frame.
    pub open spec fn spec_holds_frame(&self) -> bool {
        self.sgb matches Some(s) && s.mask == 1
    }

    /// An SGB MASK_EN black (2) or color-0 (3) mask: the fill painted over
    /// the presented frame.
    pub open spec fn spec_mask_fill(&self) -> Option<u32> {
        match self.sgb {
            Some(s) => if s.mask == 2 {
                Some(0u32)
            } else if s.mask == 3 {
                Some(s.spec_pal(0, 0))
            } else {
                None
            },
            None => None,
        }
    }
}

/// The frame presented at the start of VBlank from `o` (see
/// [`Ppu::present_frame`]): the first frame after an LCD enable is shown
/// white, an SGB freeze keeps the shown frame, otherwise the rendered frame
/// swaps in; an SGB black or color-0 mask then paints over it, and the SGB
/// frame-boundary work runs around the frame now shown.
pub open spec fn presented(o: Ppu, n: Ppu) -> bool {
    &&& n.back@ == if !o.frame_skip && !o.spec_holds_frame() {
        o.front@
    } else {
        o.back@
    }
    &&& o.spec_mask_fill() is None && o.frame_skip ==> forall|i: int|
        0 <= i < SCREEN_PIXELS ==> #[trigger] n.front@[i] == o.spec_white()
    &&& o.spec_mask_fill() is None && !o.frame_skip && o.spec_holds_frame() ==> n.front@ == o.front@
    &&& o.spec_mask_fill() is None && !o.frame_skip && !o.spec_holds_frame() ==> n.front@ == o.back@
    &&& o.spec_mask_fill() matches Some(c) ==> forall|i: int|
        0 <= i < SCREEN_PIXELS ==> #[trigger] n.front@[i] == c
    &&& o.sgb is None ==> n.sgb is None
    &&& o.sgb matches Some(s) ==> n.sgb is Some && exists|t: SgbView, u: SgbView, v: SgbView|
        #![trigger frame_boundary_path(s, n.front@, t, u, v, n.sgb->Some_0)]
        frame_boundary_path(s, n.front@, t, u, v, n.sgb->Some_0)
}

/// One dot with the LCD off (see [`Ppu::tick`]): the write strobe (`s1`)
/// and the ageing of the delayed register copies (`s2`) still run; the
/// pending IF bits are handed out.
pub open spec fn tick_off_path(o: Ppu, s1: Ppu, s2: Ppu, n: Ppu) -> bool {
    &&& strobe_rel(o, s1)
    &&& age_rel(s1, s2)
    &&& n == (Ppu { irq: super::IrqState { pending_if: 0, ..s2.irq }, ..s2 })
}

impl Ppu {
    /// Advance one 8 MHz half-dot: the first half of a dot runs the write
    /// strobe only and hands out nothing; the second half runs the whole
    /// dot ([`Self::tick`]). A run of aligned half-dots therefore clocks
    /// the dot work exactly as [`Self::tick`] does, while a staged register
    /// write counts down on both halves.
    pub fn tick_half(&mut self) -> (r: u8)
        requires
            old(self).wf(),
        ensures
            final(self).wf(),
            r < 4,
            old(self).dhalf == 0 ==> r == 0 && exists|s1: Ppu| #![trigger strobe_rel(*old(self), s1)]
                strobe_rel(*old(self), s1) && *final(self) == (Ppu { dhalf: 1, ..s1 }),
            old(self).dhalf != 0 ==> {
                let m = Ppu { dhalf: 0, ..*old(self) };
                &&& tick_clock(m, *final(self))
                &&& tick_hblank(m, *final(self))
                &&& tick_vblank(m, r, *final(self))
                &&& m.enabled ==> exists|s1: Ppu, s2: Ppu, s3: Ppu, s4: Ppu, s5: Ppu, s6: Ppu|
                    #![trigger tick_path(m, s1, s2, s3, s4, s5, s6, r, *final(self))]
                    tick_path(m, s1, s2, s3, s4, s5, s6, r, *final(self))
                &&& !m.enabled ==> exists|s1: Ppu, s2: Ppu| #![trigger tick_off_path(m, s1, s2, *final(self))]
                    tick_off_path(m, s1, s2, *final(self))
            },
    {
        if self.dhalf == 0 {
            let ghost s0 = *self;
            self.strobe_tick();
            assert(strobe_rel(s0, *self)) by {
                reveal(strobe_rel);
            }
            self.dhalf = 1;
            return 0;
        }
        self.dhalf = 0;
        self.tick()
    }

    /// Whether the last half-dot completed a whole dot.
    pub fn dot_completed(&self) -> (r: bool)
        ensures
            r == (self.dhalf == 0),
    {
        self.dhalf == 0
    }
}

} // verus!
