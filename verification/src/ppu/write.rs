//! The architectural register write path: VRAM/OAM with mode blocking, the
//! LCD enable/disable transitions, the STAT and LYC write triggers, and the
//! CGB bank, palette and priority registers.
use vstd::prelude::*;
use super::regs::spec_commit_view;
use super::stat::level_from;
use super::{
    raise_if, raised, IrqState, LineFlags, Ppu, Regs, Render, StopAnchors, WinLatch, WinRender, IF_STAT, LCDC_ENABLE,
    LCDC_WIN_ENABLE, STAT_SRC_ALL, STAT_SRC_HBLANK, STAT_SRC_LYC, STAT_SRC_OAM,
};
use crate::buf::fill_u32;
use crate::SCREEN_PIXELS;

verus! {

/// The palette-index register after a data write: bits 0-5 step when
/// auto-increment (bit 7) is set, wrapping within the 64 bytes.
pub open spec fn spec_pal_index_after(i: u8) -> u8 {
    if i >= 0x80 {
        (0x80 + (i % 64 + 1) % 64) as u8
    } else {
        i
    }
}

impl Ppu {
    /// VRAM write: dropped while mode 3 blocks VRAM writes.
    pub fn write_vram(&mut self, addr: u16, value: u8)
        requires
            old(self).wf(),
        ensures
            final(self).wf(),
            final(self).same_config(old(self)),
            final(self).same_pos(old(self)),
            final(self).mem.oam == old(self).mem.oam,
            final(self).mem.bg_pal_ram == old(self).mem.bg_pal_ram,
            final(self).mem.obj_pal_ram == old(self).mem.obj_pal_ram,
            final(self).irq == old(self).irq,
            final(self).eff == old(self).eff,
            final(self).staged == old(self).staged,
            final(self).flags == old(self).flags,
            final(self).window == old(self).window,
            final(self).front == old(self).front,
            final(self).render == old(self).render,
            final(self).back == old(self).back,
            final(self).sgb == old(self).sgb,
            final(self).mem.vram@ == if old(self).spec_vram_write_blocked() {
                old(self).mem.vram@
            } else {
                old(self).mem.vram@.update(old(self).spec_vram_index(addr), value)
            },
    {
        proof {
            reveal(super::mem_ok);
        }
        if !self.vram_write_blocked() {
            let i = self.vram_index(addr);
            self.mem.vram.set(i, value);
        }
    }

    /// OAM write: dropped while the scan or mode 3 blocks OAM writes.
    pub fn write_oam(&mut self, addr: u16, value: u8)
        requires
            old(self).wf(),
            0xFE00 <= addr <= 0xFE9F,
        ensures
            final(self).wf(),
            final(self).same_config(old(self)),
            final(self).same_pos(old(self)),
            final(self).mem.vram == old(self).mem.vram,
            final(self).mem.bg_pal_ram == old(self).mem.bg_pal_ram,
            final(self).mem.obj_pal_ram == old(self).mem.obj_pal_ram,
            final(self).irq == old(self).irq,
            final(self).eff == old(self).eff,
            final(self).staged == old(self).staged,
            final(self).flags == old(self).flags,
            final(self).window == old(self).window,
            final(self).front == old(self).front,
            final(self).render == old(self).render,
            final(self).back == old(self).back,
            final(self).sgb == old(self).sgb,
            final(self).mem.oam@ == if old(self).spec_oam_write_blocked() {
                old(self).mem.oam@
            } else {
                old(self).mem.oam@.update(addr - 0xFE00, value)
            },
    {
        proof {
            reveal(super::mem_ok);
        }
        if !self.oam_write_blocked() {
            self.mem.oam.set((addr - 0xFE00) as usize, value);
        }
    }

    /// The color the panel shows blank: white (DMG palette shade 0 off CGB).
    pub open spec fn spec_white(&self) -> u32 {
        if self.cgb() {
            0xFF_FFFFu32
        } else {
            self.dmg_palette[0]
        }
    }

    /// See [`Self::spec_white`].
    pub fn white(&self) -> (r: u32)
        ensures
            r == self.spec_white(),
    {
        if self.model.is_cgb() {
            0xFF_FFFF
        } else {
            self.dmg_palette[0]
        }
    }

    /// The LCD-off position state: line 0, dot 0, LY 0, mode 0, the pipeline
    /// idle, a pending CGB FF45-write IRQ cancelled.
    fn lcd_off_state(&mut self, value: u8)
        requires
            old(self).wf(),
            value & 0x80 == 0,
        ensures
            final(self).wf(),
            final(self).model == old(self).model,
            final(self).regs == (Regs { lcdc: value, ..old(self).regs }),
            final(self).ds == old(self).ds,
            final(self).dmg_palette == old(self).dmg_palette,
            final(self).sgb_mono == old(self).sgb_mono,
            final(self).dma == old(self).dma,
            final(self).same_memory(old(self)),
            final(self).frame_count == old(self).frame_count,
            !final(self).enabled,
            final(self).line == 0 && final(self).dot == 0 && final(self).ly == 0,
            !final(self).glitch_line,
            final(self).irq.pending_if == old(self).irq.pending_if,
            final(self).irq.stat_line == old(self).irq.stat_line,
            final(self).irq == (IrqState { lyc_if_delay: 0, ..old(self).irq }),
            !final(self).frame_skip,
            final(self).flags == (LineFlags {
                line_render_done: true,
                render_finished: true,
                m0_src: false,
                m0_rise_dot: false,
                hdma_lead: false,
                ..old(self).flags
            }),
            final(self).render == (Render {
                active: false,
                win: WinRender { active: false, ..old(self).render.win },
                ..old(self).render
            }),
            final(self).window == (WinLatch { start_pending: false, ..old(self).window }),
            final(self).eff == old(self).eff,
            final(self).staged == old(self).staged,
            final(self).front == old(self).front,
            final(self).back == old(self).back,
            final(self).sgb == old(self).sgb,
            final(self).sb_dsa8 == old(self).sb_dsa8,
            final(self).stop == (StopAnchors {
                anchor_set: false,
                anchor_midframe: false,
                leave_lcd_on: false,
                leave_k: 2,
                ..old(self).stop
            }),
    {
        proof {
            reveal(Render::wf);
        }
        self.regs = Regs { lcdc: value, ..self.regs };
        self.enabled = false;
        self.line = 0;
        self.dot = 0;
        self.ly = 0;
        self.glitch_line = false;
        self.frame_skip = false;
        self.flags = LineFlags {
            line_render_done: true,
            render_finished: true,
            m0_src: false,
            m0_rise_dot: false,
            hdma_lead: false,
            ..self.flags
        };
        self.irq.lyc_if_delay = 0;
        self.stop = StopAnchors {
            anchor_set: false,
            anchor_midframe: false,
            leave_lcd_on: false,
            leave_k: 2,
            ..self.stop
        };
        self.render.active = false;
        self.render.win = WinRender { active: false, ..self.render.win };
        self.window = WinLatch { start_pending: false, ..self.window };
    }

    /// The LCD-on position state: the 452-dot glitched line 0 (shown blank
    /// for the whole first frame), the comparator's event copy in sync, the
    /// window latches reset.
    fn lcd_on_state(&mut self, value: u8)
        requires
            old(self).wf(),
            value & 0x80 != 0,
        ensures
            final(self).wf(),
            final(self).model == old(self).model,
            final(self).regs == (Regs { lcdc: value, ..old(self).regs }),
            final(self).ds == old(self).ds,
            final(self).dmg_palette == old(self).dmg_palette,
            final(self).sgb_mono == old(self).sgb_mono,
            final(self).dma == old(self).dma,
            final(self).same_memory(old(self)),
            final(self).frame_count == old(self).frame_count,
            final(self).enabled,
            final(self).line == 0 && final(self).dot == 0 && final(self).ly == 0,
            final(self).glitch_line,
            final(self).frame_skip,
            final(self).irq.pending_if == old(self).irq.pending_if,
            final(self).irq.stat_line == old(self).irq.stat_line,
            final(self).irq == (IrqState { lyc_event: old(self).regs.lyc, ..old(self).irq }),
            final(self).flags == (LineFlags {
                line_render_done: false,
                render_finished: false,
                m0_src: false,
                m0_rise_dot: false,
                hdma_lead: false,
                ..old(self).flags
            }),
            final(self).render == (Render { active: false, ..old(self).render }),
            final(self).window == (WinLatch {
                wy_triggered: false,
                win_line: 0xFF,
                start_pending: false,
                ..old(self).window
            }),
            final(self).eff == old(self).eff,
            final(self).staged == old(self).staged,
            final(self).front == old(self).front,
            final(self).back == old(self).back,
            final(self).sgb == old(self).sgb,
            final(self).sb_dsa8 == 0,
            final(self).stop == (StopAnchors {
                anchor_set: false,
                anchor_midframe: false,
                leave_lcd_on: false,
                leave_k: 2,
                enable_in_ds: old(self).ds,
                ..old(self).stop
            }),
    {
        proof {
            reveal(Render::wf);
        }
        self.regs = Regs { lcdc: value, ..self.regs };
        self.enabled = true;
        self.sb_dsa8 = 0;
        self.stop = StopAnchors {
            anchor_set: false,
            anchor_midframe: false,
            leave_lcd_on: false,
            leave_k: 2,
            enable_in_ds: self.ds,
            ..self.stop
        };
        self.line = 0;
        self.dot = 0;
        self.ly = 0;
        self.irq.lyc_event = self.regs.lyc;
        self.glitch_line = true;
        self.frame_skip = true;
        self.flags = LineFlags {
            line_render_done: false,
            render_finished: false,
            m0_src: false,
            m0_rise_dot: false,
            hdma_lead: false,
            ..self.flags
        };
        self.render.active = false;
        self.window = WinLatch { wy_triggered: false, win_line: 0xFF, start_pending: false, ..self.window };
    }

    /// `n` is this PPU after an FF40 write of `value` (see
    /// [`Self::write_lcdc`]): a plain LCDC update while the enable bit stays,
    /// else the LCD-on or LCD-off transition.
    pub open spec fn lcdc_written(&self, n: &Ppu, value: u8) -> bool {
        &&& n.regs == (Regs { lcdc: value, ..self.regs })
        &&& n.model == self.model
        &&& n.ds == self.ds
        &&& n.dma == self.dma
        &&& n.dmg_palette == self.dmg_palette
        &&& n.sgb_mono == self.sgb_mono
        &&& n.same_memory(self)
        &&& n.eff == self.eff
        &&& n.staged == self.staged
        &&& n.frame_count == self.frame_count
        &&& n.back == self.back
        &&& n.sgb == self.sgb
        &&& n.enabled == (value & 0x80 != 0)
        &&& n.sb_dsa8 == if n.enabled && !self.enabled {
            0u8
        } else {
            self.sb_dsa8
        }
        &&& n.stop == if n.enabled && !self.enabled {
            StopAnchors {
                anchor_set: false,
                anchor_midframe: false,
                leave_lcd_on: false,
                leave_k: 2,
                enable_in_ds: self.ds,
                ..self.stop
            }
        } else if !n.enabled && self.enabled {
            StopAnchors {
                anchor_set: false,
                anchor_midframe: false,
                leave_lcd_on: false,
                leave_k: 2,
                ..self.stop
            }
        } else {
            self.stop
        }
        &&& n.enabled == self.enabled ==> {
            &&& n.same_pos(self)
            &&& n.irq == self.irq
            &&& n.front == self.front
            &&& n.flags == self.flags
            &&& n.render == self.render
            &&& n.window == self.window
        }
        &&& n.enabled != self.enabled ==> {
            &&& n.line == 0 && n.dot == 0 && n.ly == 0
            &&& n.irq.pending_if == raised(self.irq.pending_if, n.irq.stat_line && !self.irq.stat_line, 2)
        }
        &&& n.enabled && !self.enabled ==> {
            &&& n.glitch_line && n.frame_skip
            &&& n.front == self.front
            &&& n.flags == (LineFlags {
                line_render_done: false,
                render_finished: false,
                m0_src: false,
                m0_rise_dot: false,
                hdma_lead: false,
                ..self.flags
            })
            &&& n.render == (Render { active: false, ..self.render })
            &&& n.window == (WinLatch { wy_triggered: false, win_line: 0xFF, start_pending: false, ..self.window })
            &&& n.irq == (IrqState {
                coincidence: self.regs.lyc == 0,
                coincidence_irq: self.regs.lyc == 0,
                stat_line: level_from(
                    self.regs.stat_en,
                    (true, self.regs.lyc == 0, 0u8, 0u16, false, true, false, self.cgb()),
                ),
                pending_if: n.irq.pending_if,
                lyc_event: self.regs.lyc,
                stat_ev: self.regs.stat_en,
                stat_ev_staged: None,
                stat_lyc_ev: self.regs.stat_en,
                stat_lyc_ev_staged: None,
                lyc_ev_m: self.regs.lyc,
                lyc_ev_m_staged: None,
                ..self.irq
            })
        }
        &&& !n.enabled && self.enabled ==> {
            &&& !n.glitch_line && !n.frame_skip
            &&& forall|i: int| 0 <= i < SCREEN_PIXELS ==> #[trigger] n.front@[i] == self.spec_white()
            &&& n.flags == (LineFlags {
                line_render_done: true,
                render_finished: true,
                m0_src: false,
                m0_rise_dot: false,
                hdma_lead: false,
                ..self.flags
            })
            &&& n.render == (Render {
                active: false,
                win: WinRender { active: false, ..self.render.win },
                ..self.render
            })
            &&& n.window == (WinLatch { start_pending: false, ..self.window })
            &&& n.irq == (IrqState {
                stat_line: level_from(
                    self.regs.stat_en,
                    (false, self.irq.coincidence_irq, 0u8, 0u16, false, false, true, self.cgb()),
                ),
                pending_if: n.irq.pending_if,
                lyc_if_delay: 0,
                stat_ev: self.regs.stat_en,
                stat_ev_staged: None,
                stat_lyc_ev: self.regs.stat_en,
                stat_lyc_ev_staged: None,
                lyc_ev_m: self.regs.lyc,
                lyc_ev_m_staged: None,
                ..self.irq
            })
        }
    }

    /// FF40 write. Turning the LCD off jumps to line 0 mode 0 at once,
    /// freezes the comparison flag and shows a blank frame; turning it on
    /// starts the glitched first line, and the LYC comparison against LY=0
    /// can raise STAT in this very cycle.
    pub fn write_lcdc(&mut self, value: u8)
        requires
            old(self).wf(),
        ensures
            final(self).wf(),
            old(self).lcdc_written(&*final(self), value),
    {
        let was_on = self.enabled;
        let now_on = value & LCDC_ENABLE != 0;
        if was_on && !now_on {
            self.lcd_off_state(value);
            self.flush_stat_copies();
            let white = self.white();
            proof {
                reveal(super::frames_ok);
            }
            fill_u32(&mut self.front, white);
            self.legacy_level_edge();
        } else if !was_on && now_on {
            self.lcd_on_state(value);
            self.flush_stat_copies();
            self.legacy_level_edge();
        } else {
            self.regs = Regs { lcdc: value, ..self.regs };
        }
    }
}

impl Ppu {
    /// Whether an FF41 write of `data` (bits 3-6) with the LCD on raises
    /// STAT. CGB: the write trigger, plus the retroactive reach of a
    /// line-start m2 pulse a dot-0 commit still decides. DMG: the write
    /// glitch, plus an m2 enable committing at the pulse's M-cycle or the
    /// one after re-deciding a pulse the old enables did not have, unless
    /// the held LYC match blocks it.
    pub open spec fn spec_stat_write_fire(&self, data: u8) -> bool {
        let prev_val = self.regs.stat_en;
        if self.cgb() {
            let retro = self.dot == 0 && !self.glitch_line && 1 <= self.line <= 143 && prev_val
                & STAT_SRC_HBLANK == 0 && !self.spec_m2_pulse_fires(prev_val) && self.spec_m2_pulse_fires(
                data,
            );
            retro || self.spec_stat_write_trigger_cgb(prev_val, data)
        } else {
            let lycen = if self.dot == 0 {
                data
            } else {
                data | prev_val
            };
            let retro = (self.dot == 0 || self.dot == 4) && !self.glitch_line && 1 <= self.line <= 144
                && prev_val & (STAT_SRC_OAM | STAT_SRC_HBLANK) == 0 && data & STAT_SRC_OAM != 0 && data
                & STAT_SRC_HBLANK == 0 && !(lycen & STAT_SRC_LYC != 0 && self.irq.lyc_ev_m == self.line
                - 1);
            retro || self.spec_stat_write_trigger_dmg(prev_val)
        }
    }

    /// See [`Self::spec_stat_write_fire`].
    pub fn stat_write_fire(&self, data: u8) -> (r: bool)
        ensures
            r == self.spec_stat_write_fire(data),
    {
        let prev_val = self.regs.stat_en;
        if self.model.is_cgb() {
            let retro = self.dot == 0 && !self.glitch_line && 1 <= self.line && self.line <= 143 && prev_val
                & STAT_SRC_HBLANK == 0 && !self.m2_pulse_fires(prev_val) && self.m2_pulse_fires(data);
            retro || self.stat_write_trigger_cgb(prev_val, data)
        } else {
            let lycen = if self.dot == 0 {
                data
            } else {
                data | prev_val
            };
            let retro = (self.dot == 0 || self.dot == 4) && !self.glitch_line && 1 <= self.line
                && self.line <= 144 && prev_val & (STAT_SRC_OAM | STAT_SRC_HBLANK) == 0 && data
                & STAT_SRC_OAM != 0 && data & STAT_SRC_HBLANK == 0 && !(lycen & STAT_SRC_LYC != 0
                && self.irq.lyc_ev_m as u16 + 1 == self.line as u16);
            retro || self.stat_write_trigger_dmg(prev_val)
        }
    }

    /// FF41 write: only the four source enables are writable. With the LCD
    /// on, the write can raise STAT in its own cycle and the delayed event
    /// copies are staged; with it off, the copies land at once and a rising
    /// line edge raises STAT.
    pub fn write_stat(&mut self, value: u8)
        requires
            old(self).wf(),
        ensures
            final(self).wf(),
            final(self).same_machine(old(self)),
            final(self).regs == (Regs { stat_en: value & STAT_SRC_ALL, ..old(self).regs }),
            final(self).irq.lyc_event == old(self).irq.lyc_event,
            final(self).irq.lyc_if_delay == old(self).irq.lyc_if_delay,
            old(self).enabled ==> final(self).irq.pending_if == raised(
                old(self).irq.pending_if,
                old(self).spec_stat_write_fire(value & STAT_SRC_ALL),
                2,
            ),
            !old(self).enabled ==> final(self).irq.pending_if == raised(
                old(self).irq.pending_if,
                final(self).irq.stat_line && !old(self).irq.stat_line,
                2,
            ),
    {
        let data = value & STAT_SRC_ALL;
        assert(data == data & STAT_SRC_ALL) by (bit_vector)
            requires
                data == value & 0x78,
        ;
        if self.enabled {
            let fire = self.stat_write_fire(data);
            self.irq.pending_if = raise_if(self.irq.pending_if, fire, IF_STAT);
            self.regs.stat_en = data;
            self.stage_stat_copies();
            self.refresh_coincidence(false);
        } else {
            self.regs.stat_en = data;
            self.flush_stat_copies();
            self.legacy_level_edge();
        }
    }

    /// FF45 write. With the LCD on, a changed value goes through the
    /// model's trigger and event-copy rules; otherwise the event copies take
    /// the value at once and a rising line edge raises STAT.
    pub fn write_lyc_reg(&mut self, value: u8)
        requires
            old(self).wf(),
        ensures
            final(self).wf(),
            final(self).same_machine(old(self)),
            final(self).regs == (Regs { lyc: value, ..old(self).regs }),
            old(self).enabled && old(self).regs.lyc != value && old(self).cgb() ==> {
                &&& final(self).irq.lyc_event == if old(self).spec_lyc_protected_cgb(value) {
                    old(self).irq.lyc_event
                } else {
                    value
                }
                &&& final(self).irq.lyc_ev_m_staged == Some((value, if old(self).ds { 2u8 } else { 8u8 }))
                &&& final(self).irq.pending_if == raised(
                    old(self).irq.pending_if,
                    old(self).spec_lyc_fire_cgb(old(self).regs.lyc, value) && old(self).ds,
                    2,
                )
                &&& final(self).irq.lyc_if_delay == if old(self).spec_lyc_fire_cgb(old(self).regs.lyc, value)
                    && !old(self).ds {
                    4u8
                } else {
                    old(self).irq.lyc_if_delay
                }
            },
            old(self).enabled && old(self).regs.lyc != value && !old(self).cgb() ==> {
                &&& final(self).irq.lyc_event == if old(self).spec_lyc_protected_dmg(value) {
                    old(self).irq.lyc_event
                } else {
                    value
                }
                &&& final(self).irq.lyc_ev_m == value
                &&& final(self).irq.pending_if == raised(
                    old(self).irq.pending_if,
                    old(self).spec_lyc_fire_dmg(old(self).regs.lyc, value),
                    2,
                )
            },
            !(old(self).enabled && old(self).regs.lyc != value) ==> {
                &&& final(self).irq.lyc_event == value
                &&& final(self).irq.lyc_ev_m == value
                &&& final(self).irq.pending_if == raised(
                    old(self).irq.pending_if,
                    final(self).irq.stat_line && !old(self).irq.stat_line,
                    2,
                )
            },
    {
        let prev_val = self.regs.lyc;
        self.regs.lyc = value;
        if self.enabled && prev_val != value {
            if self.model.is_cgb() {
                self.write_lyc_cgb(prev_val, value);
            } else {
                self.write_lyc_dmg(prev_val, value);
            }
        } else {
            self.irq.lyc_event = value;
            self.irq.lyc_ev_m = value;
            self.legacy_level_edge();
        }
    }

    /// FF69 / FF6B write: the byte lands at the index register's address
    /// unless mode 3 blocks palette RAM, and the index auto-increments
    /// (bit 7) even when the write was blocked.
    pub fn write_pal_data(&mut self, obj: bool, value: u8)
        requires
            old(self).wf(),
        ensures
            final(self).wf(),
            final(self).model == old(self).model,
            final(self).same_pos(old(self)),
            final(self).irq == old(self).irq,
            final(self).eff == old(self).eff,
            final(self).staged == old(self).staged,
            final(self).flags == old(self).flags,
            final(self).window == old(self).window,
            final(self).front == old(self).front,
            final(self).render == old(self).render,
            final(self).back == old(self).back,
            final(self).sgb == old(self).sgb,
            final(self).ds == old(self).ds,
            final(self).dma == old(self).dma,
            final(self).dmg_palette == old(self).dmg_palette,
            final(self).sgb_mono == old(self).sgb_mono,
            final(self).enabled == old(self).enabled,
            final(self).stop == old(self).stop,
            final(self).mem.vram == old(self).mem.vram,
            final(self).mem.oam == old(self).mem.oam,
            !obj ==> {
                &&& final(self).regs == (Regs {
                    bcps: spec_pal_index_after(old(self).regs.bcps),
                    ..old(self).regs
                })
                &&& final(self).mem.obj_pal_ram == old(self).mem.obj_pal_ram
                &&& final(self).mem.bg_pal_ram@ == if old(self).spec_pal_ram_blocked() {
                    old(self).mem.bg_pal_ram@
                } else {
                    old(self).mem.bg_pal_ram@.update((old(self).regs.bcps & 0x3F) as int, value)
                }
            },
            obj ==> {
                &&& final(self).regs == (Regs {
                    ocps: spec_pal_index_after(old(self).regs.ocps),
                    ..old(self).regs
                })
                &&& final(self).mem.bg_pal_ram == old(self).mem.bg_pal_ram
                &&& final(self).mem.obj_pal_ram@ == if old(self).spec_pal_ram_blocked() {
                    old(self).mem.obj_pal_ram@
                } else {
                    old(self).mem.obj_pal_ram@.update((old(self).regs.ocps & 0x3F) as int, value)
                }
            },
    {
        proof {
            reveal(super::mem_ok);
        }
        let blocked = self.pal_ram_blocked();
        let idx = if obj {
            self.regs.ocps
        } else {
            self.regs.bcps
        };
        let slot = idx & 0x3F;
        proof {
            assert(idx & 0x3F < 64) by (bit_vector);
        }
        if !blocked {
            if obj {
                self.mem.obj_pal_ram.set(slot as usize, value);
            } else {
                self.mem.bg_pal_ram.set(slot as usize, value);
            }
        }
        let next = pal_index_after(idx);
        if obj {
            self.regs.ocps = next;
        } else {
            self.regs.bcps = next;
        }
    }

    /// The architectural register side of a write to a plain register:
    /// SCY, SCX, BGP, OBP0/1, WY, WX and the CGB bank, index and priority
    /// registers (the latter ignored off CGB).
    pub open spec fn spec_plain_write(regs: Regs, cgb: bool, addr: u16, value: u8) -> Regs {
        if addr == 0xFF42 {
            Regs { scy: value, ..regs }
        } else if addr == 0xFF43 {
            Regs { scx: value, ..regs }
        } else if addr == 0xFF47 {
            Regs { bgp: value, ..regs }
        } else if addr == 0xFF48 {
            Regs { obp0: value, ..regs }
        } else if addr == 0xFF49 {
            Regs { obp1: value, ..regs }
        } else if addr == 0xFF4A {
            Regs { wy: value, ..regs }
        } else if addr == 0xFF4B {
            Regs { wx: value, ..regs }
        } else if cgb && addr == 0xFF4F {
            Regs { vbk: value & 1, ..regs }
        } else if cgb && addr == 0xFF68 {
            Regs { bcps: value & 0xBF, ..regs }
        } else if cgb && addr == 0xFF6A {
            Regs { ocps: value & 0xBF, ..regs }
        } else if cgb && addr == 0xFF6C {
            Regs { opri: value & 1, ..regs }
        } else {
            regs
        }
    }

    /// See [`Self::spec_plain_write`].
    pub fn write_plain(&mut self, addr: u16, value: u8)
        requires
            old(self).wf(),
        ensures
            final(self).wf(),
            final(self).same_machine(old(self)),
            final(self).irq == old(self).irq,
            final(self).regs == Self::spec_plain_write(old(self).regs, old(self).cgb(), addr, value),
    {
        let cgb = self.model.is_cgb();
        let r = self.regs;
        proof {
            assert(value & 1 <= 1) by (bit_vector);
        }
        self.regs = if addr == 0xFF42 {
            Regs { scy: value, ..r }
        } else if addr == 0xFF43 {
            Regs { scx: value, ..r }
        } else if addr == 0xFF47 {
            Regs { bgp: value, ..r }
        } else if addr == 0xFF48 {
            Regs { obp0: value, ..r }
        } else if addr == 0xFF49 {
            Regs { obp1: value, ..r }
        } else if addr == 0xFF4A {
            Regs { wy: value, ..r }
        } else if addr == 0xFF4B {
            Regs { wx: value, ..r }
        } else if cgb && addr == 0xFF4F {
            Regs { vbk: value & 1, ..r }
        } else if cgb && addr == 0xFF68 {
            Regs { bcps: value & 0xBF, ..r }
        } else if cgb && addr == 0xFF6A {
            Regs { ocps: value & 0xBF, ..r }
        } else if cgb && addr == 0xFF6C {
            Regs { opri: value & 1, ..r }
        } else {
            r
        };
    }
}

/// See [`spec_pal_index_after`].
pub fn pal_index_after(i: u8) -> (r: u8)
    ensures
        r == spec_pal_index_after(i),
{
    if i & 0x80 != 0 {
        let low = i & 0x3F;
        proof {
            assert(i & 0x80 != 0 ==> i >= 0x80) by (bit_vector);
            assert(i & 0x3F == i % 64) by (bit_vector);
            assert(low < 64 ==> 0x80 | ((low + 1) as u8 & 0x3F) == 0x80 + (low + 1) % 64) by (bit_vector);
        }
        0x80 | ((low + 1) & 0x3F)
    } else {
        proof {
            assert(i & 0x80 == 0 ==> i < 0x80) by (bit_vector);
        }
        i
    }
}

impl Ppu {
    /// Whether `addr` is a plain register (see [`Self::spec_plain_write`]).
    pub open spec fn is_plain_reg(addr: u16) -> bool {
        addr == 0xFF42 || addr == 0xFF43 || (0xFF47 <= addr <= 0xFF4B) || addr == 0xFF4F || addr
            == 0xFF68 || addr == 0xFF6A || addr == 0xFF6C
    }

    /// A write on the bus: the pipeline view converges with the register
    /// (dropping this register's stage still in flight), then the register,
    /// memory or transition takes effect. Returns the IF bits produced since
    /// the last tick, the write's own STAT edge included: the caller ORs
    /// them into IF at once.
    #[verifier::rlimit(100)]
    pub fn write(&mut self, addr: u16, value: u8) -> (r: u8)
        requires
            old(self).wf(),
        ensures
            final(self).wf(),
            final(self).irq.pending_if == 0,
            r < 4,
            final(self).model == old(self).model,
            final(self).eff == spec_commit_view(old(self).eff, addr, value),
            final(self).staged == match old(self).staged {
                Some(s) => if s.addr == addr {
                    None
                } else {
                    old(self).staged
                },
                None => None,
            },
            final(self).back == old(self).back,
            final(self).dmg_palette == old(self).dmg_palette,
            final(self).ds == old(self).ds,
            final(self).dma == old(self).dma,
            final(self).sgb_mono == old(self).sgb_mono,
            final(self).sgb == old(self).sgb,
            final(self).frame_count == old(self).frame_count,
            keeps_stat_sources(*old(self), *final(self)) || addr == 0xFF41,
            addr == 0xFF41 ==> final(self).regs.stat_en == value & STAT_SRC_ALL,
            addr != 0xFF40 ==> {
                &&& final(self).enabled == old(self).enabled
                &&& final(self).stop == old(self).stop
                &&& final(self).same_pos(old(self))
                &&& final(self).front == old(self).front
                &&& final(self).flags == old(self).flags
                &&& final(self).render == old(self).render
                &&& final(self).window == old(self).window
            },
            !(addr == 0xFF40 || addr == 0xFF41 || addr == 0xFF45) ==> final(self).irq == (IrqState {
                pending_if: 0,
                ..old(self).irq
            }),
            addr == 0xFF40 ==> (Ppu {
                staged: final(self).staged,
                eff: final(self).eff,
                render: if old(self).eff.lcdc & LCDC_WIN_ENABLE != 0 && value & LCDC_WIN_ENABLE == 0
                    && old(self).render.active {
                    old(self).spec_lcdc_abort_render()
                } else {
                    old(self).render
                },
                ..*old(self)
            }).lcdc_written(&Ppu { irq: IrqState { pending_if: r, ..final(self).irq }, ..*final(self) }, value),
            0x8000 <= addr <= 0x9FFF ==> {
                &&& final(self).regs == old(self).regs
                &&& final(self).same_pos(old(self))
                &&& r == old(self).irq.pending_if
                &&& final(self).mem.oam == old(self).mem.oam
                &&& final(self).mem.vram@ == if old(self).spec_vram_write_blocked() {
                    old(self).mem.vram@
                } else {
                    old(self).mem.vram@.update(old(self).spec_vram_index(addr), value)
                }
            },
            0xFE00 <= addr <= 0xFE9F ==> {
                &&& final(self).regs == old(self).regs
                &&& final(self).same_pos(old(self))
                &&& r == old(self).irq.pending_if
                &&& final(self).mem.vram == old(self).mem.vram
                &&& final(self).mem.oam@ == if old(self).spec_oam_write_blocked() {
                    old(self).mem.oam@
                } else {
                    old(self).mem.oam@.update(addr - 0xFE00, value)
                }
            },
            addr == 0xFF40 ==> {
                &&& final(self).regs == (Regs { lcdc: value, ..old(self).regs })
                &&& final(self).enabled == (value & 0x80 != 0)
                &&& final(self).same_memory(old(self))
                &&& final(self).enabled == old(self).enabled ==> final(self).same_pos(old(self)) && r
                    == old(self).irq.pending_if
                &&& final(self).enabled != old(self).enabled ==> final(self).line == 0 && final(self).dot
                    == 0 && final(self).ly == 0 && r == raised(
                    old(self).irq.pending_if,
                    final(self).irq.stat_line && !old(self).irq.stat_line,
                    2,
                )
                &&& final(self).enabled && !old(self).enabled ==> final(self).glitch_line
                &&& !final(self).enabled && old(self).enabled ==> forall|i: int|
                    0 <= i < SCREEN_PIXELS ==> #[trigger] final(self).front@[i] == old(self).spec_white()
            },
            addr == 0xFF41 ==> {
                &&& final(self).regs == (Regs { stat_en: value & STAT_SRC_ALL, ..old(self).regs })
                &&& final(self).same_pos(old(self))
                &&& final(self).same_memory(old(self))
                &&& old(self).enabled ==> r == raised(
                    old(self).irq.pending_if,
                    old(self).spec_stat_write_fire(value & STAT_SRC_ALL),
                    2,
                )
                &&& !old(self).enabled ==> r == raised(
                    old(self).irq.pending_if,
                    final(self).irq.stat_line && !old(self).irq.stat_line,
                    2,
                )
            },
            addr == 0xFF45 ==> {
                &&& final(self).regs == (Regs { lyc: value, ..old(self).regs })
                &&& final(self).same_pos(old(self))
                &&& final(self).same_memory(old(self))
                &&& old(self).enabled && old(self).regs.lyc != value && old(self).cgb() ==> r == raised(
                    old(self).irq.pending_if,
                    old(self).spec_lyc_fire_cgb(old(self).regs.lyc, value) && old(self).ds,
                    2,
                ) && final(self).irq.lyc_if_delay == if old(self).spec_lyc_fire_cgb(old(self).regs.lyc, value)
                    && !old(self).ds {
                    4u8
                } else {
                    old(self).irq.lyc_if_delay
                }
                &&& old(self).enabled && old(self).regs.lyc != value && !old(self).cgb() ==> r == raised(
                    old(self).irq.pending_if,
                    old(self).spec_lyc_fire_dmg(old(self).regs.lyc, value),
                    2,
                )
                &&& !(old(self).enabled && old(self).regs.lyc != value) ==> r == raised(
                    old(self).irq.pending_if,
                    final(self).irq.stat_line && !old(self).irq.stat_line,
                    2,
                )
            },
            Self::is_plain_reg(addr) ==> {
                &&& final(self).regs == Self::spec_plain_write(old(self).regs, old(self).cgb(), addr, value)
                &&& final(self).same_pos(old(self))
                &&& final(self).same_memory(old(self))
                &&& r == old(self).irq.pending_if
            },
            old(self).cgb() && addr == 0xFF69 ==> {
                &&& final(self).regs == (Regs {
                    bcps: spec_pal_index_after(old(self).regs.bcps),
                    ..old(self).regs
                })
                &&& final(self).same_pos(old(self))
                &&& r == old(self).irq.pending_if
                &&& final(self).mem.obj_pal_ram == old(self).mem.obj_pal_ram
                &&& final(self).mem.bg_pal_ram@ == if old(self).spec_pal_ram_blocked() {
                    old(self).mem.bg_pal_ram@
                } else {
                    old(self).mem.bg_pal_ram@.update((old(self).regs.bcps & 0x3F) as int, value)
                }
            },
            old(self).cgb() && addr == 0xFF6B ==> {
                &&& final(self).regs == (Regs {
                    ocps: spec_pal_index_after(old(self).regs.ocps),
                    ..old(self).regs
                })
                &&& final(self).same_pos(old(self))
                &&& r == old(self).irq.pending_if
                &&& final(self).mem.bg_pal_ram == old(self).mem.bg_pal_ram
                &&& final(self).mem.obj_pal_ram@ == if old(self).spec_pal_ram_blocked() {
                    old(self).mem.obj_pal_ram@
                } else {
                    old(self).mem.obj_pal_ram@.update((old(self).regs.ocps & 0x3F) as int, value)
                }
            },
            !(0x8000 <= addr <= 0x9FFF || 0xFE00 <= addr <= 0xFE9F || addr == 0xFF40 || addr == 0xFF41
                || addr == 0xFF45 || Self::is_plain_reg(addr) || (old(self).cgb() && (addr == 0xFF69
                || addr == 0xFF6B))) ==> {
                &&& final(self).regs == old(self).regs
                &&& final(self).same_pos(old(self))
                &&& final(self).same_memory(old(self))
                &&& r == old(self).irq.pending_if
            },
    {
        self.drop_stage(addr);
        self.commit_eff(addr, value);
        let ghost mid = *self;
        proof {
            if addr == 0xFF40 {
                assert(mid == (Ppu {
                    staged: mid.staged,
                    eff: mid.eff,
                    render: if old(self).eff.lcdc & LCDC_WIN_ENABLE != 0 && value & LCDC_WIN_ENABLE == 0
                        && old(self).render.active {
                        old(self).spec_lcdc_abort_render()
                    } else {
                        old(self).render
                    },
                    ..*old(self)
                }));
            }
        }
        self.write_register(addr, value);
        let r = self.irq.pending_if;
        let ghost fin = *self;
        self.irq.pending_if = 0;
        assert(fin == (Ppu { irq: IrqState { pending_if: r, ..self.irq }, ..*self }));
        r
    }

    /// Drop this register's stage still in flight.
    fn drop_stage(&mut self, addr: u16)
        requires
            old(self).wf(),
        ensures
            final(self).wf(),
            final(self).same_config(old(self)),
            final(self).same_pos(old(self)),
            final(self).same_memory(old(self)),
            final(self).irq == old(self).irq,
            final(self).flags == old(self).flags,
            final(self).window == old(self).window,
            final(self).eff == old(self).eff,
            final(self).front == old(self).front,
            final(self).back == old(self).back,
            final(self).sgb == old(self).sgb,
            final(self).render == old(self).render,
            final(self).staged == match old(self).staged {
                Some(s) => if s.addr == addr {
                    None
                } else {
                    old(self).staged
                },
                None => None,
            },
    {
        if let Some(s) = self.staged {
            if s.addr == addr {
                self.staged = None;
            }
        }
    }

    /// The register, memory or transition side of a write.
    fn write_register(&mut self, addr: u16, value: u8)
        requires
            old(self).wf(),
        ensures
            final(self).wf(),
            final(self).model == old(self).model,
            final(self).eff == old(self).eff,
            final(self).staged == old(self).staged,
            0x8000 <= addr <= 0x9FFF ==> {
                &&& final(self).regs == old(self).regs
                &&& final(self).same_pos(old(self))
                &&& final(self).irq.pending_if == old(self).irq.pending_if
                &&& final(self).mem.oam == old(self).mem.oam
                &&& final(self).mem.vram@ == if old(self).spec_vram_write_blocked() {
                    old(self).mem.vram@
                } else {
                    old(self).mem.vram@.update(old(self).spec_vram_index(addr), value)
                }
            },
            0xFE00 <= addr <= 0xFE9F ==> {
                &&& final(self).regs == old(self).regs
                &&& final(self).same_pos(old(self))
                &&& final(self).irq.pending_if == old(self).irq.pending_if
                &&& final(self).mem.vram == old(self).mem.vram
                &&& final(self).mem.oam@ == if old(self).spec_oam_write_blocked() {
                    old(self).mem.oam@
                } else {
                    old(self).mem.oam@.update(addr - 0xFE00, value)
                }
            },
            addr == 0xFF40 ==> old(self).lcdc_written(&*final(self), value),
            final(self).back == old(self).back,
            final(self).dmg_palette == old(self).dmg_palette,
            final(self).ds == old(self).ds,
            final(self).dma == old(self).dma,
            final(self).sgb_mono == old(self).sgb_mono,
            final(self).sgb == old(self).sgb,
            final(self).frame_count == old(self).frame_count,
            keeps_stat_sources(*old(self), *final(self)) || addr == 0xFF41,
            addr == 0xFF41 ==> final(self).regs.stat_en == value & STAT_SRC_ALL,
            addr != 0xFF40 ==> {
                &&& final(self).enabled == old(self).enabled
                &&& final(self).stop == old(self).stop
                &&& final(self).same_pos(old(self))
                &&& final(self).front == old(self).front
                &&& final(self).flags == old(self).flags
                &&& final(self).render == old(self).render
                &&& final(self).window == old(self).window
            },
            !(addr == 0xFF40 || addr == 0xFF41 || addr == 0xFF45) ==> final(self).irq == old(self).irq,
            addr == 0xFF41 ==> {
                &&& final(self).regs == (Regs { stat_en: value & STAT_SRC_ALL, ..old(self).regs })
                &&& final(self).same_pos(old(self))
                &&& final(self).same_memory(old(self))
                &&& old(self).enabled ==> final(self).irq.pending_if == raised(
                    old(self).irq.pending_if,
                    old(self).spec_stat_write_fire(value & STAT_SRC_ALL),
                    2,
                )
                &&& !old(self).enabled ==> final(self).irq.pending_if == raised(
                    old(self).irq.pending_if,
                    final(self).irq.stat_line && !old(self).irq.stat_line,
                    2,
                )
            },
            addr == 0xFF45 ==> {
                &&& final(self).regs == (Regs { lyc: value, ..old(self).regs })
                &&& final(self).same_pos(old(self))
                &&& final(self).same_memory(old(self))
                &&& old(self).enabled && old(self).regs.lyc != value && old(self).cgb() ==> final(self).irq.pending_if
                    == raised(
                    old(self).irq.pending_if,
                    old(self).spec_lyc_fire_cgb(old(self).regs.lyc, value) && old(self).ds,
                    2,
                ) && final(self).irq.lyc_if_delay == if old(self).spec_lyc_fire_cgb(old(self).regs.lyc, value)
                    && !old(self).ds {
                    4u8
                } else {
                    old(self).irq.lyc_if_delay
                }
                &&& old(self).enabled && old(self).regs.lyc != value && !old(self).cgb() ==> final(self).irq.pending_if
                    == raised(old(self).irq.pending_if, old(self).spec_lyc_fire_dmg(old(self).regs.lyc, value), 2)
                &&& !(old(self).enabled && old(self).regs.lyc != value) ==> final(self).irq.pending_if
                    == raised(
                    old(self).irq.pending_if,
                    final(self).irq.stat_line && !old(self).irq.stat_line,
                    2,
                )
            },
            Self::is_plain_reg(addr) ==> {
                &&& final(self).regs == Self::spec_plain_write(old(self).regs, old(self).cgb(), addr, value)
                &&& final(self).same_pos(old(self))
                &&& final(self).same_memory(old(self))
                &&& final(self).irq.pending_if == old(self).irq.pending_if
            },
            old(self).cgb() && addr == 0xFF69 ==> {
                &&& final(self).regs == (Regs {
                    bcps: spec_pal_index_after(old(self).regs.bcps),
                    ..old(self).regs
                })
                &&& final(self).same_pos(old(self))
                &&& final(self).irq.pending_if == old(self).irq.pending_if
                &&& final(self).mem.obj_pal_ram == old(self).mem.obj_pal_ram
                &&& final(self).mem.bg_pal_ram@ == if old(self).spec_pal_ram_blocked() {
                    old(self).mem.bg_pal_ram@
                } else {
                    old(self).mem.bg_pal_ram@.update((old(self).regs.bcps & 0x3F) as int, value)
                }
            },
            old(self).cgb() && addr == 0xFF6B ==> {
                &&& final(self).regs == (Regs {
                    ocps: spec_pal_index_after(old(self).regs.ocps),
                    ..old(self).regs
                })
                &&& final(self).same_pos(old(self))
                &&& final(self).irq.pending_if == old(self).irq.pending_if
                &&& final(self).mem.bg_pal_ram == old(self).mem.bg_pal_ram
                &&& final(self).mem.obj_pal_ram@ == if old(self).spec_pal_ram_blocked() {
                    old(self).mem.obj_pal_ram@
                } else {
                    old(self).mem.obj_pal_ram@.update((old(self).regs.ocps & 0x3F) as int, value)
                }
            },
            !(0x8000 <= addr <= 0x9FFF || 0xFE00 <= addr <= 0xFE9F || addr == 0xFF40 || addr == 0xFF41
                || addr == 0xFF45 || Self::is_plain_reg(addr) || (old(self).cgb() && (addr == 0xFF69
                || addr == 0xFF6B))) ==> {
                &&& final(self).regs == old(self).regs
                &&& final(self).same_pos(old(self))
                &&& final(self).same_memory(old(self))
                &&& final(self).irq.pending_if == old(self).irq.pending_if
            },
    {
        let cgb = self.model.is_cgb();
        if 0x8000 <= addr && addr <= 0x9FFF {
            self.write_vram(addr, value);
        } else if 0xFE00 <= addr && addr <= 0xFE9F {
            self.write_oam(addr, value);
        } else if addr == 0xFF40 {
            self.write_lcdc(value);
        } else if addr == 0xFF41 {
            self.write_stat(value);
        } else if addr == 0xFF45 {
            self.write_lyc_reg(value);
        } else if cgb && addr == 0xFF69 {
            self.write_pal_data(false, value);
        } else if cgb && addr == 0xFF6B {
            self.write_pal_data(true, value);
        } else {
            self.write_plain(addr, value);
        }
    }
}

/// The STAT interrupt-source enables (FF41 bits 3-6) are the same in `n`
/// as in `o`.
pub open spec fn keeps_stat_sources(o: Ppu, n: Ppu) -> bool {
    n.regs.stat_en == o.regs.stat_en
}

} // verus!
