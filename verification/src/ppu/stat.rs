//! The STAT interrupt machinery: the CPU-visible mode, the shared STAT line
//! level, the per-source IRQ events with their delayed FF41/FF45 copies, the
//! FF41 write triggers of both families, and the drained edge flags.
use vstd::prelude::*;
use super::{
    GLITCH_MODE3_START, IF_STAT, STAT_SRC_ALL, STAT_SRC_HBLANK, STAT_SRC_LYC, STAT_SRC_OAM,
    STAT_SRC_VBLANK, Ppu,
};
use super::{either, or_bool, raise_if, raised, IrqState, LineFlags};

verus! {

/// The STAT line level for enables `en` over the inputs of
/// [`Ppu::stat_inputs`] (see [`Ppu::spec_stat_line_level`]).
#[verifier::opaque]
pub open spec fn level_from(en: u8, t: (bool, bool, u8, u16, bool, bool, bool, bool)) -> bool {
    let (enabled, ci, line, dot, m0_src, glitch, done, cgb) = t;
    let lyc = en & STAT_SRC_LYC != 0 && ci;
    if !enabled {
        lyc
    } else {
        let vm0 = if line >= 144 {
            line == 144 && dot < 4
        } else if glitch {
            dot < GLITCH_MODE3_START || done
        } else if dot < 4 {
            !(cgb && line == 0)
        } else {
            dot >= 84 && done
        };
        let hblank = en & STAT_SRC_HBLANK != 0 && ((line <= 143 && m0_src) || (vm0 && dot < 4)) && !(
        glitch && dot < GLITCH_MODE3_START);
        let vblank = en & STAT_SRC_VBLANK != 0 && (line >= 145 || (line == 144 && dot >= 4) || (cgb
            && line == 0 && !glitch && dot < 4));
        let oam_window = line <= 143 && !glitch && if dot < 4 {
            line != 0
        } else {
            !m0_src
        };
        let pulse144 = line == 144 && dot == 0;
        let vblank_pulse = !cgb && 145 <= line <= 153 && dot == 12;
        let oam = en & STAT_SRC_OAM != 0 && (oam_window || pulse144 || vblank_pulse);
        lyc || hblank || vblank || oam
    }
}

impl Ppu {
    /// The STAT mode bits a CPU read sees: 0 with the LCD off; on vblank
    /// lines mode 1 from 144:4; on visible lines 0 (1 on CGB line 0) for dots
    /// 0-3, 2 until dot 84, 3 until the mode-0 flip, then 0. The LCD-enable
    /// line reads 0 except mode 3 from dot 78 to its flip.
    pub open spec fn spec_vis_mode(&self) -> u8 {
        if !self.enabled {
            0
        } else if self.line >= 144 {
            if self.line == 144 && self.dot < 4 {
                0
            } else {
                1
            }
        } else if self.glitch_line {
            if self.dot < GLITCH_MODE3_START || self.flags.line_render_done {
                0
            } else {
                3
            }
        } else if self.dot < 4 {
            if self.cgb() && self.line == 0 {
                1
            } else {
                0
            }
        } else if self.dot < 84 {
            2
        } else if !self.flags.line_render_done {
            3
        } else {
            0
        }
    }

    /// See [`Self::spec_vis_mode`].
    pub fn vis_mode(&self) -> (r: u8)
        ensures
            r == self.spec_vis_mode(),
            r < 4,
    {
        if !self.enabled {
            return 0;
        }
        if self.line >= 144 {
            if self.line == 144 && self.dot < 4 {
                0
            } else {
                1
            }
        } else if self.glitch_line {
            if self.dot < GLITCH_MODE3_START || self.flags.line_render_done {
                0
            } else {
                3
            }
        } else if self.dot < 4 {
            if self.model.is_cgb() && self.line == 0 {
                1
            } else {
                0
            }
        } else if self.dot < 84 {
            2
        } else if !self.flags.line_render_done {
            3
        } else {
            0
        }
    }

    /// Level of the shared STAT line for the enables `en`: the LYC source
    /// (IRQ-side compare), the HBlank source from the mode-0 rise through the
    /// next line's dots 0-3, the VBlank source (extending through CGB line 0
    /// dots 0-3), and the OAM blocking level across each visible line's scan
    /// and render plus the 144:0 and DMG vblank-line dot-12 pulses. With the
    /// LCD off only the frozen LYC source persists.
    pub open spec fn spec_stat_line_level(&self, en: u8) -> bool {
        level_from(en, self.stat_inputs())
    }

    /// The state the STAT line level depends on: LCD enable, IRQ-side
    /// compare, line, dot, mode-0 source, LCD-enable line, mode-0 flip and
    /// model family.
    pub open spec fn stat_inputs(&self) -> (bool, bool, u8, u16, bool, bool, bool, bool) {
        (
            self.enabled,
            self.irq.coincidence_irq,
            self.line,
            self.dot,
            self.flags.m0_src,
            self.glitch_line,
            self.flags.line_render_done,
            self.cgb(),
        )
    }

    /// See [`Self::spec_stat_line_level`].
    pub fn stat_line_level(&self, en: u8) -> (r: bool)
        ensures
            r == self.spec_stat_line_level(en),
    {
        proof {
            reveal(level_from);
        }
        let mut high = en & STAT_SRC_LYC != 0 && self.irq.coincidence_irq;
        if !self.enabled {
            return high;
        }
        let vm = self.vis_mode();
        let cgb = self.model.is_cgb();
        high = high || (en & STAT_SRC_HBLANK != 0 && ((self.line <= 143 && self.flags.m0_src) || (vm == 0
            && self.dot < 4)) && !(self.glitch_line && self.dot < GLITCH_MODE3_START));
        high = high || (en & STAT_SRC_VBLANK != 0 && (self.line >= 145 || (self.line == 144
            && self.dot >= 4) || (cgb && self.line == 0 && !self.glitch_line && self.dot < 4)));
        if en & STAT_SRC_OAM != 0 {
            let oam_window = self.line <= 143 && !self.glitch_line && if self.dot < 4 {
                self.line != 0
            } else {
                !self.flags.m0_src
            };
            let pulse144 = self.line == 144 && self.dot == 0;
            let vblank_pulse = !cgb && 145 <= self.line && self.line <= 153 && self.dot == 12;
            high = high || oam_window || pulse144 || vblank_pulse;
        }
        high
    }

    /// The readable flag and the IRQ-side comparison `refresh_coincidence`
    /// stores.
    pub open spec fn spec_refresh_values(&self, from_tick: bool) -> (bool, bool) {
        if self.enabled {
            let c = self.spec_compare_ly() == Some(self.regs.lyc);
            let ci = if !self.cgb() {
                c
            } else if !from_tick || self.glitch_line || self.dot == 0 || self.dot == 4 || (self.line == 153 && (
            self.dot == 8 || self.dot == 12)) {
                self.spec_compare_ly_irq() == Some(self.irq.lyc_event)
            } else {
                self.irq.coincidence_irq
            };
            (c, ci)
        } else {
            (self.irq.coincidence, self.irq.coincidence_irq)
        }
    }

    /// The interrupt state after a comparison refresh: both comparison
    /// flags (see [`Self::spec_refresh_values`]) and the STAT line level
    /// they give.
    pub open spec fn spec_refreshed_irq(&self, from_tick: bool) -> IrqState {
        let v = self.spec_refresh_values(from_tick);
        let inputs = (
            self.enabled,
            v.1,
            self.line,
            self.dot,
            self.flags.m0_src,
            self.glitch_line,
            self.flags.line_render_done,
            self.cgb(),
        );
        IrqState {
            coincidence: v.0,
            coincidence_irq: v.1,
            stat_line: level_from(self.regs.stat_en, inputs),
            ..self.irq
        }
    }

    /// Whether the dot's STAT interrupt engine raises STAT: the dot's
    /// per-source events (see [`Self::spec_stat_events`]) over the state with
    /// the comparison refreshed.
    pub open spec fn spec_engine_fires(&self) -> bool {
        (Ppu { irq: self.spec_refreshed_irq(true), ..*self }).spec_stat_events().0
    }

    /// See [`Self::spec_refresh_values`].
    fn refresh_values(&self, from_tick: bool) -> (r: (bool, bool))
        ensures
            r == self.spec_refresh_values(from_tick),
    {
        if self.enabled {
            let c = self.compare_ly() == Some(self.regs.lyc);
            let ci = if !self.model.is_cgb() {
                c
            } else if !from_tick || self.glitch_line || self.dot == 0 || self.dot == 4 || (self.line
                == 153 && (self.dot == 8 || self.dot == 12)) {
                self.compare_ly_irq() == Some(self.irq.lyc_event)
            } else {
                self.irq.coincidence_irq
            };
            (c, ci)
        } else {
            (self.irq.coincidence, self.irq.coincidence_irq)
        }
    }

    /// Recompute the readable comparison flag, the IRQ-side comparison
    /// (event-clocked on CGB: it re-evaluates only at the window-boundary
    /// dots and on register writes, against the delayed `lyc_event`), and the
    /// register-write STAT line level.
    pub fn refresh_coincidence(&mut self, from_tick: bool)
        requires
            old(self).wf(),
        ensures
            final(self).wf(),
            final(self).only_irq_changed(old(self)),
            final(self).irq.pending_if == old(self).irq.pending_if,
            final(self).irq.lyc_if_delay == old(self).irq.lyc_if_delay,
            final(self).flags.m0_src == old(self).flags.m0_src,
            final(self).flags.m0_rise_dot == old(self).flags.m0_rise_dot,
            final(self).flags.line_render_done == old(self).flags.line_render_done,
            final(self).irq.lyc_event == old(self).irq.lyc_event,
            final(self).irq.lyc_ev_m == old(self).irq.lyc_ev_m,
            final(self).irq.lyc_ev_m_staged == old(self).irq.lyc_ev_m_staged,
            final(self).irq.stat_ev == old(self).irq.stat_ev,
            final(self).irq.stat_ev_staged == old(self).irq.stat_ev_staged,
            final(self).irq.stat_lyc_ev == old(self).irq.stat_lyc_ev,
            final(self).irq.stat_lyc_ev_staged == old(self).irq.stat_lyc_ev_staged,
            final(self).irq.stat_late == old(self).irq.stat_late,
            final(self).irq.stat_halt_late == old(self).irq.stat_halt_late,
            final(self).irq.m0_rise == old(self).irq.m0_rise,
            old(self).enabled ==> final(self).irq.coincidence == (old(self).spec_compare_ly() == Some(old(self).regs.lyc)),
            !old(self).enabled ==> final(self).irq.coincidence == old(self).irq.coincidence,
            final(self).irq == old(self).spec_refreshed_irq(from_tick),
    {
        let c = self.refresh_values(from_tick);
        self.irq.coincidence = c.0;
        self.irq.coincidence_irq = c.1;
        let lvl = self.stat_line_level(self.regs.stat_en);
        let ghost mid = self.stat_inputs();
        self.irq.stat_line = lvl;
        assert(self.stat_inputs() == mid);
    }

    /// The register-write edge for LCD-off state and LCDC transitions: a
    /// rising STAT line raises the STAT IRQ in the write's own cycle.
    pub fn legacy_level_edge(&mut self)
        requires
            old(self).wf(),
            old(self).irq.pending_if < 4,
        ensures
            final(self).only_irq_changed(old(self)),
            final(self).irq.pending_if < 4,
            final(self).wf(),
            final(self).irq == (IrqState {
                pending_if: raised(
                    old(self).irq.pending_if,
                    old(self).spec_refreshed_irq(false).stat_line && !old(self).irq.stat_line,
                    2,
                ),
                ..old(self).spec_refreshed_irq(false)
            }),
            final(self).irq.pending_if == raised(old(self).irq.pending_if, final(self).irq.stat_line && !old(self).irq.stat_line, 2),
    {
        let was = self.irq.stat_line;
        self.refresh_coincidence(false);
        let rise = self.irq.stat_line && !was;
        self.irq.pending_if = raise_if(self.irq.pending_if, rise, IF_STAT);
    }

    /// The m0 event's fresher view of the delayed FF41 copy: a staged write
    /// within its last 3 dots already counts.
    pub fn stat_ev_fresh(&self) -> (r: u8)
        ensures
            r == match self.irq.stat_ev_staged {
                Some(p) => if p.1 <= 3 {
                    p.0
                } else {
                    self.irq.stat_ev
                },
                None => self.irq.stat_ev,
            },
    {
        match self.irq.stat_ev_staged {
            Some((v, d)) => if d <= 3 {
                v
            } else {
                self.irq.stat_ev
            },
            None => self.irq.stat_ev,
        }
    }

    /// The m0 event's fresher view of the delayed FF45 copy: a staged write
    /// within its last dot already counts.
    pub fn lyc_ev_m_fresh(&self) -> (r: u8)
        ensures
            r == match self.irq.lyc_ev_m_staged {
                Some(p) => if p.1 <= 1 {
                    p.0
                } else {
                    self.irq.lyc_ev_m
                },
                None => self.irq.lyc_ev_m,
            },
    {
        match self.irq.lyc_ev_m_staged {
            Some((v, d)) => if d <= 1 {
                v
            } else {
                self.irq.lyc_ev_m
            },
            None => self.irq.lyc_ev_m,
        }
    }

    /// The line-start m2 pulse's predicate for the enables `en`: it exists
    /// iff m2 is enabled and m0 is not, and the previous line's still-held
    /// LYC match (through the delayed copies; fresher on CGB) blocks it.
    pub open spec fn spec_m2_pulse_fires(&self, en: u8) -> bool {
        let (evp, lycp) = if self.cgb() {
            (
                match self.irq.stat_ev_staged {
                    Some(p) => if p.1 <= 3 {
                        p.0
                    } else {
                        self.irq.stat_ev
                    },
                    None => self.irq.stat_ev,
                },
                match self.irq.lyc_ev_m_staged {
                    Some(p) => if p.1 <= 1 {
                        p.0
                    } else {
                        self.irq.lyc_ev_m
                    },
                    None => self.irq.lyc_ev_m,
                },
            )
        } else {
            (self.irq.stat_ev, self.irq.lyc_ev_m)
        };
        en & STAT_SRC_OAM != 0 && en & STAT_SRC_HBLANK == 0 && !(evp & STAT_SRC_LYC != 0 && lycp
            == self.line - 1)
    }

    /// See [`Self::spec_m2_pulse_fires`].
    pub fn m2_pulse_fires(&self, en: u8) -> (r: bool)
        requires
            1 <= self.line,
        ensures
            r == self.spec_m2_pulse_fires(en),
    {
        let (evp, lycp) = if self.model.is_cgb() {
            (self.stat_ev_fresh(), self.lyc_ev_m_fresh())
        } else {
            (self.irq.stat_ev, self.irq.lyc_ev_m)
        };
        en & STAT_SRC_OAM != 0 && en & STAT_SRC_HBLANK == 0 && !(evp & STAT_SRC_LYC != 0 && lycp
            == self.line - 1)
    }

    /// Synchronise every delayed event copy with the live registers.
    pub fn flush_stat_copies(&mut self)
        requires
            old(self).wf(),
        ensures
            final(self).wf(),
            final(self).only_irq_changed(old(self)),
            final(self).irq.pending_if == old(self).irq.pending_if,
            final(self).irq.lyc_event == old(self).irq.lyc_event,
            final(self).irq.lyc_if_delay == old(self).irq.lyc_if_delay,
            final(self).irq.stat_ev == old(self).regs.stat_en,
            final(self).irq.stat_lyc_ev == old(self).regs.stat_en,
            final(self).irq.lyc_ev_m == old(self).regs.lyc,
            final(self).irq == (IrqState {
                stat_ev: old(self).regs.stat_en,
                stat_ev_staged: None,
                stat_lyc_ev: old(self).regs.stat_en,
                stat_lyc_ev_staged: None,
                lyc_ev_m: old(self).regs.lyc,
                lyc_ev_m_staged: None,
                ..old(self).irq
            }),
    {
        self.irq.stat_ev = self.regs.stat_en;
        self.irq.stat_ev_staged = None;
        self.irq.stat_lyc_ev = self.regs.stat_en;
        self.irq.stat_lyc_ev_staged = None;
        self.irq.lyc_ev_m = self.regs.lyc;
        self.irq.lyc_ev_m_staged = None;
    }

    /// Stage the delayed FF41 copies after a write: CGB copies land 6 dots
    /// after the commit (2 in double speed), DMG copies at once.
    pub fn stage_stat_copies(&mut self)
        requires
            old(self).wf(),
        ensures
            final(self).wf(),
            final(self).only_irq_changed(old(self)),
            final(self).irq.pending_if == old(self).irq.pending_if,
            final(self).irq.lyc_event == old(self).irq.lyc_event,
            final(self).irq.lyc_if_delay == old(self).irq.lyc_if_delay,
            old(self).cgb() ==> final(self).irq == (IrqState {
                stat_ev_staged: Some((old(self).regs.stat_en, if old(self).ds { 2u8 } else { 6u8 })),
                stat_lyc_ev_staged: Some((old(self).regs.stat_en, if old(self).ds { 2u8 } else { 6u8 })),
                ..old(self).irq
            }),
            !old(self).cgb() ==> final(self).irq == (IrqState {
                stat_ev: old(self).regs.stat_en,
                stat_ev_staged: None,
                stat_lyc_ev: old(self).regs.stat_en,
                stat_lyc_ev_staged: None,
                lyc_ev_m: old(self).regs.lyc,
                lyc_ev_m_staged: None,
                ..old(self).irq
            }),
    {
        if self.model.is_cgb() {
            let k: u8 = if self.ds {
                2
            } else {
                6
            };
            self.irq.stat_ev_staged = Some((self.regs.stat_en, k));
            self.irq.stat_lyc_ev_staged = Some((self.regs.stat_en, k));
        } else {
            self.flush_stat_copies();
        }
    }

    /// Which per-source STAT events fire on the current dot, as
    /// `(fired, late, halt_late, m0)`: the line-start m2 pulse (lines 1-144,
    /// dot 0; second-half commits except the CGB 144 entry), the line-0 dot-4
    /// m2 pulse (dispatch-late), the DMG vblank-line dot-12 OAM pulses, the m1
    /// event at 144:4, the m0 rise on the visible flip's dot, and the LYC
    /// events at dot 4 of the (delayed) LYC line and at 153:12 for LYC 0.
    /// Each source is allowed or suppressed by the other sources' enables
    /// through the delayed FF41/FF45 copies.
    #[verifier::opaque]
    pub open spec fn spec_stat_events(&self) -> (bool, bool, bool, bool) {
        let cgb = self.cgb();
        let live = self.regs.stat_en;
        let ev = self.irq.stat_ev;
        let evl = self.irq.stat_lyc_ev;
        let m2 = !self.glitch_line && self.dot == 0 && 1 <= self.line <= 144 && self.spec_m2_pulse_fires(
            live,
        );
        let m2_late = m2 && !(cgb && self.line == 144);
        let m2_l0 = !self.glitch_line && self.line == 0 && self.dot == 4 && live & STAT_SRC_OAM != 0 && ev
            & STAT_SRC_VBLANK == 0 && !(ev & STAT_SRC_LYC != 0 && self.irq.lyc_ev_m == 0);
        let vb_pulse = !cgb && 145 <= self.line <= 153 && self.dot == 12 && live & STAT_SRC_OAM != 0 && live
            & STAT_SRC_VBLANK == 0 && !(live & STAT_SRC_LYC != 0 && self.irq.coincidence_irq);
        let m1 = self.line == 144 && self.dot == 4 && live & STAT_SRC_VBLANK != 0 && ev & (STAT_SRC_OAM
            | STAT_SRC_HBLANK) == 0;
        let ev_m0 = match self.irq.stat_ev_staged {
            Some(p) => if p.1 <= 3 {
                p.0
            } else {
                self.irq.stat_ev
            },
            None => self.irq.stat_ev,
        };
        let lyc_m0 = match self.irq.lyc_ev_m_staged {
            Some(p) => if p.1 <= 1 {
                p.0
            } else {
                self.irq.lyc_ev_m
            },
            None => self.irq.lyc_ev_m,
        };
        let m0 = self.flags.m0_rise_dot && (live | ev_m0) & STAT_SRC_HBLANK != 0 && !(ev_m0 & STAT_SRC_LYC != 0
            && lyc_m0 == self.line);
        let lyc_val: Option<u8> = if self.glitch_line {
            None
        } else if self.line >= 1 && self.dot == 4 && self.irq.lyc_event == self.line {
            Some(self.line)
        } else if self.line == 153 && self.dot == 12 && self.irq.lyc_event == 0 {
            Some(0)
        } else {
            None
        };
        let lyc = match lyc_val {
            Some(v) => {
                let blocker = if 1 <= v <= 144 {
                    STAT_SRC_OAM
                } else {
                    STAT_SRC_VBLANK
                };
                (live | evl) & STAT_SRC_LYC != 0 && evl & blocker == 0
            },
            None => false,
        };
        (m2 || m2_l0 || vb_pulse || m1 || m0 || lyc, m2_late || m2_l0, m2_late, m0)
    }

    /// See [`Self::spec_stat_events`].
    pub fn stat_events(&self) -> (r: (bool, bool, bool, bool))
        requires
            self.line <= 153,
        ensures
            r == self.spec_stat_events(),
    {
        proof {
            reveal(Ppu::spec_stat_events);
        }
        let cgb = self.model.is_cgb();
        let live = self.regs.stat_en;
        let ev = self.irq.stat_ev;
        let evl = self.irq.stat_lyc_ev;
        let m2 = !self.glitch_line && self.dot == 0 && 1 <= self.line && self.line <= 144
            && self.m2_pulse_fires(live);
        let m2_late = m2 && !(cgb && self.line == 144);
        let m2_l0 = !self.glitch_line && self.line == 0 && self.dot == 4 && live & STAT_SRC_OAM != 0 && ev
            & STAT_SRC_VBLANK == 0 && !(ev & STAT_SRC_LYC != 0 && self.irq.lyc_ev_m == 0);
        let vb_pulse = !cgb && 145 <= self.line && self.line <= 153 && self.dot == 12 && live
            & STAT_SRC_OAM != 0 && live & STAT_SRC_VBLANK == 0 && !(live & STAT_SRC_LYC != 0
            && self.irq.coincidence_irq);
        let m1 = self.line == 144 && self.dot == 4 && live & STAT_SRC_VBLANK != 0 && ev & (STAT_SRC_OAM
            | STAT_SRC_HBLANK) == 0;
        let ev_m0 = self.stat_ev_fresh();
        let lyc_m0 = self.lyc_ev_m_fresh();
        let m0 = self.flags.m0_rise_dot && (live | ev_m0) & STAT_SRC_HBLANK != 0 && !(ev_m0 & STAT_SRC_LYC != 0
            && lyc_m0 == self.line);
        let lyc_val: Option<u8> = if self.glitch_line {
            None
        } else if self.line >= 1 && self.dot == 4 && self.irq.lyc_event == self.line {
            Some(self.line)
        } else if self.line == 153 && self.dot == 12 && self.irq.lyc_event == 0 {
            Some(0)
        } else {
            None
        };
        let lyc = match lyc_val {
            Some(v) => {
                let blocker = if 1 <= v && v <= 144 {
                    STAT_SRC_OAM
                } else {
                    STAT_SRC_VBLANK
                };
                (live | evl) & STAT_SRC_LYC != 0 && evl & blocker == 0
            },
            None => false,
        };
        (m2 || m2_l0 || vb_pulse || m1 || m0 || lyc, m2_late || m2_l0, m2_late, m0)
    }

    /// The PPU after this dot's per-source STAT events fired (see
    /// [`Self::spec_stat_events`]): the STAT IF bit raised, the late and
    /// mode-0 emission marks accumulated, the mode-0 rise marker consumed;
    /// nothing else changes.
    pub open spec fn spec_after_stat_events(&self) -> Ppu {
        let ev = self.spec_stat_events();
        Ppu {
            irq: IrqState {
                pending_if: raised(self.irq.pending_if, ev.0, 2),
                stat_late: either(self.irq.stat_late, ev.1),
                stat_halt_late: either(self.irq.stat_halt_late, ev.2),
                m0_rise: either(self.irq.m0_rise, ev.3),
                ..self.irq
            },
            flags: LineFlags { m0_rise_dot: false, ..self.flags },
            ..*self
        }
    }

    /// Fire this dot's per-source STAT events (see
    /// [`Self::spec_stat_events`]): raise the STAT IF bit, set the emission
    /// masks, and consume the mode-0 rise marker.
    #[verifier::rlimit(50)]
    pub fn stat_events_tick(&mut self)
        requires
            old(self).wf(),
            old(self).irq.pending_if < 4,
        ensures
            final(self).wf(),
            final(self).irq.pending_if < 4,
            final(self).same_config(old(self)),
            final(self).same_pos(old(self)),
            final(self).same_memory(old(self)),
            final(self).irq.pending_if == raised(old(self).irq.pending_if, old(self).spec_stat_events().0, 2),
            final(self).irq.stat_late == either(old(self).irq.stat_late, old(self).spec_stat_events().1),
            !final(self).flags.m0_rise_dot,
            final(self).flags.m0_src == old(self).flags.m0_src,
            final(self).flags.line_render_done == old(self).flags.line_render_done,
            final(self).irq.lyc_if_delay == old(self).irq.lyc_if_delay,
            final(self).flags == (LineFlags { m0_rise_dot: false, ..old(self).flags }),
            final(self).window == old(self).window,
            final(self).eff == old(self).eff,
            final(self).staged == old(self).staged,
            final(self).front == old(self).front,
            final(self).back == old(self).back,
            final(self).sgb == old(self).sgb,
            final(self).render == old(self).render,
            *final(self) == old(self).spec_after_stat_events(),
    {
        let (fired, late, halt_late, m0) = self.stat_events();
        let new_late = or_bool(self.irq.stat_late, late);
        let new_halt_late = or_bool(self.irq.stat_halt_late, halt_late);
        let new_m0_rise = or_bool(self.irq.m0_rise, m0);
        let new_pending = raise_if(self.irq.pending_if, fired, IF_STAT);
        let ghost target = old(self).spec_after_stat_events();
        self.irq = IrqState {
            pending_if: new_pending,
            stat_late: new_late,
            stat_halt_late: new_halt_late,
            m0_rise: new_m0_rise,
            ..self.irq
        };
        self.flags = LineFlags { m0_rise_dot: false, ..self.flags };
        assert(self.irq == target.irq);
        assert(self.flags == target.flags);
    }

    /// The DMG STAT-write glitch: the write momentarily enables every
    /// source, raising IF from the hblank/vblank levels and the held LYC
    /// match (never the mode-2 condition), suppressed per source when the
    /// prev_val enable already held the line high.
    pub open spec fn spec_stat_write_trigger_dmg(&self, prev_val: u8) -> bool {
        let lyc_high = self.spec_lyc_period();
        if self.line <= 143 || (self.line == 144 && self.dot < 4) {
            let hblank = (self.flags.m0_src || self.dot < 4) && !(self.glitch_line && self.dot
                < GLITCH_MODE3_START);
            if hblank {
                prev_val & STAT_SRC_HBLANK == 0 && !(lyc_high && prev_val & STAT_SRC_LYC != 0)
            } else {
                lyc_high && prev_val & STAT_SRC_LYC == 0
            }
        } else {
            prev_val & STAT_SRC_VBLANK == 0 && !(lyc_high && prev_val & STAT_SRC_LYC != 0)
        }
    }

    /// See [`Self::spec_stat_write_trigger_dmg`].
    pub fn stat_write_trigger_dmg(&self, prev_val: u8) -> (r: bool)
        ensures
            r == self.spec_stat_write_trigger_dmg(prev_val),
    {
        let lyc_high = self.lyc_period();
        if self.line <= 143 || (self.line == 144 && self.dot < 4) {
            let hblank = (self.flags.m0_src || self.dot < 4) && !(self.glitch_line && self.dot
                < GLITCH_MODE3_START);
            if hblank {
                prev_val & STAT_SRC_HBLANK == 0 && !(lyc_high && prev_val & STAT_SRC_LYC != 0)
            } else {
                lyc_high && prev_val & STAT_SRC_LYC == 0
            }
        } else {
            prev_val & STAT_SRC_VBLANK == 0 && !(lyc_high && prev_val & STAT_SRC_LYC != 0)
        }
    }

    /// CGB STAT writes raise IF only for newly enabled sources: LYC while the
    /// compare matches; m0 during mode 2/3 of a visible line; m1 during
    /// vblank except its last M-cycle; m2 only in the last M-cycle before a
    /// visible line's pulse.
    pub open spec fn spec_stat_write_trigger_cgb(&self, prev_val: u8, data: u8) -> bool {
        let (ll, ld) = (self.line, self.dot);
        let held_cgb: u8 = if self.glitch_line || ll == 0 {
            0
        } else if ll == 153 {
            if ld <= 7 {
                153
            } else {
                0
            }
        } else {
            ll
        };
        let lyc_high = self.regs.lyc == held_cgb;
        let lyc_fire = lyc_high && data & STAT_SRC_LYC != 0;
        let m2 = prev_val & STAT_SRC_OAM == 0 && data & (STAT_SRC_OAM | STAT_SRC_HBLANK) == STAT_SRC_OAM
            && 1 <= ll <= 143 && ld < 2 + 2 * (if self.ds {
            1int
        } else {
            0int
        });
        let vis = (ll <= 143 && !(ll == 0 && ld < 4)) || (ll == 144 && ld < 4);
        let main = if vis {
            let crossed = self.flags.m0_src && !(self.glitch_line && self.dot < GLITCH_MODE3_START);
            let m0_pending = !crossed && (prev_val | data) & STAT_SRC_HBLANK != 0;
            if m0_pending || ld < 4 {
                lyc_fire
            } else if prev_val & STAT_SRC_HBLANK != 0 {
                false
            } else {
                data & STAT_SRC_HBLANK != 0 || lyc_fire
            }
        } else {
            let m1_tail = ll == 0 && ld < 4;
            if prev_val & STAT_SRC_VBLANK != 0 {
                false
            } else {
                (data & STAT_SRC_VBLANK != 0 && !m1_tail) || lyc_fire
            }
        };
        if data & !prev_val & STAT_SRC_ALL == 0 {
            false
        } else if lyc_high && prev_val & STAT_SRC_LYC != 0 {
            false
        } else {
            main || m2
        }
    }

    /// See [`Self::spec_stat_write_trigger_cgb`].
    pub fn stat_write_trigger_cgb(&self, prev_val: u8, data: u8) -> (r: bool)
        ensures
            r == self.spec_stat_write_trigger_cgb(prev_val, data),
    {
        if data & !prev_val & STAT_SRC_ALL == 0 {
            return false;
        }
        let (ll, ld) = (self.line, self.dot);
        let held_cgb: u8 = if self.glitch_line || ll == 0 {
            0
        } else if ll == 153 {
            if ld <= 7 {
                153
            } else {
                0
            }
        } else {
            ll
        };
        let lyc_high = self.regs.lyc == held_cgb;
        if lyc_high && prev_val & STAT_SRC_LYC != 0 {
            return false;
        }
        let lyc_fire = lyc_high && data & STAT_SRC_LYC != 0;
        let m2_window: u16 = if self.ds {
            4
        } else {
            2
        };
        let m2 = prev_val & STAT_SRC_OAM == 0 && data & (STAT_SRC_OAM | STAT_SRC_HBLANK) == STAT_SRC_OAM
            && 1 <= ll && ll <= 143 && ld < m2_window;
        let vis = (ll <= 143 && !(ll == 0 && ld < 4)) || (ll == 144 && ld < 4);
        let main = if vis {
            let crossed = self.flags.m0_src && !(self.glitch_line && self.dot < GLITCH_MODE3_START);
            let m0_pending = !crossed && (prev_val | data) & STAT_SRC_HBLANK != 0;
            if m0_pending || ld < 4 {
                lyc_fire
            } else if prev_val & STAT_SRC_HBLANK != 0 {
                false
            } else {
                data & STAT_SRC_HBLANK != 0 || lyc_fire
            }
        } else {
            let m1_tail = ll == 0 && ld < 4;
            if prev_val & STAT_SRC_VBLANK != 0 {
                false
            } else {
                (data & STAT_SRC_VBLANK != 0 && !m1_tail) || lyc_fire
            }
        };
        main || m2
    }

    /// Drain: the STAT IF handed out by the last tick came from the line-0
    /// OAM rise and misses the CPU's interrupt sample this M-cycle.
    pub fn take_stat_late(&mut self) -> (r: bool)
        ensures
            r == old(self).irq.stat_late,
            !final(self).irq.stat_late,
    {
        let r = self.irq.stat_late;
        self.irq.stat_late = false;
        r
    }

    /// Drain: the STAT IF handed out by the last tick was a second-half
    /// commit the halt-exit sampler misses for one M-cycle.
    pub fn take_stat_halt_late(&mut self) -> (r: bool)
        ensures
            r == old(self).irq.stat_halt_late,
            !final(self).irq.stat_halt_late,
    {
        let r = self.irq.stat_halt_late;
        self.irq.stat_halt_late = false;
        r
    }

    /// Drain: the STAT IF handed out by the last tick came from the mode-0
    /// source rise.
    pub fn take_m0_rise(&mut self) -> (r: bool)
        ensures
            r == old(self).irq.m0_rise,
            !final(self).irq.m0_rise,
    {
        let r = self.irq.m0_rise;
        self.irq.m0_rise = false;
        r
    }

    /// Drain: the OAM/VRAM accessibility unblock fired on the dot just stepped.
    pub fn take_m0_access_flip(&mut self) -> (r: Option<i8>)
        ensures
            r == old(self).flags.m0_access_flip,
            final(self).flags.m0_access_flip is None,
    {
        let r = self.flags.m0_access_flip;
        self.flags.m0_access_flip = None;
        r
    }

    /// Drain: the CGB palette-RAM unblock fired on the dot just stepped.
    pub fn take_pal_access_flip(&mut self) -> (r: Option<i8>)
        ensures
            r == old(self).flags.pal_access_flip,
            final(self).flags.pal_access_flip is None,
    {
        let r = self.flags.pal_access_flip;
        self.flags.pal_access_flip = None;
        r
    }

    /// Drain: the STAT mode-bit flip fired on the dot just stepped.
    pub fn take_m0_stat_flip(&mut self) -> (r: Option<i8>)
        ensures
            r == old(self).flags.m0_stat_flip,
            final(self).flags.m0_stat_flip is None,
    {
        let r = self.flags.m0_stat_flip;
        self.flags.m0_stat_flip = None;
        r
    }
}

} // verus!
