//! The LY=LYC comparator: the readable flag's held-compare windows, the
//! IRQ-side comparison, the trigger-side held compare, and the FF45 write
//! triggers of both families.
use vstd::prelude::*;
use super::{IF_STAT, STAT_SRC_HBLANK, STAT_SRC_LYC, STAT_SRC_VBLANK, Ppu};
use super::{raise_if, raised, IrqState};

verus! {

/// The LY value the readable coincidence flag compares against at scan
/// position `(line, dot)`: 0 throughout the LCD-enable line; on CGB the
/// previous line's value held through dots 0-3 (line 153: 152, then 153
/// through dot 11, then 0); on DMG invalid for dots 0-3 of lines 1-152 and
/// line 153 reads invalid, 153, invalid, then 0 in 4-dot steps.
pub open spec fn compare_at(cgb: bool, glitch: bool, line: u8, dot: int) -> Option<u8> {
    if glitch || line == 0 {
        Some(0u8)
    } else if line == 153 {
        if dot <= 3 {
            if cgb {
                Some(152u8)
            } else {
                None
            }
        } else if dot <= 7 {
            Some(153u8)
        } else if dot <= 11 {
            if cgb {
                Some(153u8)
            } else {
                None
            }
        } else {
            Some(0u8)
        }
    } else if dot <= 3 {
        if cgb {
            Some((line - 1) as u8)
        } else {
            None
        }
    } else {
        Some(line)
    }
}

/// See [`compare_at`].
pub fn compare_at_exec(cgb: bool, glitch: bool, line: u8, dot: u16) -> (r: Option<u8>)
    ensures
        r == compare_at(cgb, glitch, line, dot as int),
{
    if glitch || line == 0 {
        Some(0)
    } else if line == 153 {
        if dot <= 3 {
            if cgb {
                Some(152)
            } else {
                None
            }
        } else if dot <= 7 {
            Some(153)
        } else if dot <= 11 {
            if cgb {
                Some(153)
            } else {
                None
            }
        } else {
            Some(0)
        }
    } else if dot <= 3 {
        if cgb {
            Some(line - 1)
        } else {
            None
        }
    } else {
        Some(line)
    }
}

impl Ppu {
    /// The LY value the IRQ-side comparator (and the DMG readable flag)
    /// sees, or `None` while the delayed LY is invalid: dots 0-3 of lines
    /// 1-152, and line 153 reads invalid, 153, invalid, then 0 in 4-dot steps
    /// from dot 0 to 12.
    pub open spec fn spec_compare_ly_irq(&self) -> Option<u8> {
        if self.glitch_line {
            Some(0)
        } else if self.line == 0 {
            Some(0)
        } else if self.line == 153 {
            if self.dot <= 3 {
                None
            } else if self.dot <= 7 {
                Some(153)
            } else if self.dot <= 11 {
                None
            } else {
                Some(0)
            }
        } else if self.dot < 4 {
            None
        } else {
            Some(self.line)
        }
    }

    /// The held compare: the previous line's value persists through the
    /// line-start dots 0-3, and line 153 holds 153 through dot 11.
    pub open spec fn spec_lyc_held_line(&self) -> u8 {
        if self.glitch_line || self.line == 0 {
            0
        } else if self.line == 153 {
            if self.dot <= 3 {
                152
            } else if self.dot <= 11 {
                153
            } else {
                0
            }
        } else if self.dot <= 3 {
            (self.line - 1) as u8
        } else {
            self.line
        }
    }

    /// The LY value the readable coincidence flag compares against: the CGB
    /// flag holds the previous line instead of going invalid.
    pub open spec fn spec_compare_ly(&self) -> Option<u8> {
        if self.glitch_line {
            Some(0)
        } else if self.cgb() {
            Some(self.spec_lyc_held_line())
        } else {
            self.spec_compare_ly_irq()
        }
    }

    /// See [`Self::spec_compare_ly_irq`].
    pub fn compare_ly_irq(&self) -> (r: Option<u8>)
        ensures
            r == self.spec_compare_ly_irq(),
    {
        if self.glitch_line {
            return Some(0);
        }
        if self.line == 0 {
            Some(0)
        } else if self.line == 153 {
            if self.dot <= 3 {
                None
            } else if self.dot <= 7 {
                Some(153)
            } else if self.dot <= 11 {
                None
            } else {
                Some(0)
            }
        } else if self.dot < 4 {
            None
        } else {
            Some(self.line)
        }
    }

    /// See [`Self::spec_lyc_held_line`].
    pub fn lyc_held_line(&self) -> (r: u8)
        ensures
            r == self.spec_lyc_held_line(),
    {
        if self.glitch_line || self.line == 0 {
            0
        } else if self.line == 153 {
            if self.dot <= 3 {
                152
            } else if self.dot <= 11 {
                153
            } else {
                0
            }
        } else if self.dot <= 3 {
            self.line - 1
        } else {
            self.line
        }
    }

    /// See [`Self::spec_compare_ly`].
    pub fn compare_ly(&self) -> (r: Option<u8>)
        ensures
            r == self.spec_compare_ly(),
    {
        if self.glitch_line {
            return Some(0);
        }
        if self.model.is_cgb() {
            return Some(self.lyc_held_line());
        }
        self.compare_ly_irq()
    }

    /// The trigger-side LYC level: the held compare matches FF45.
    pub open spec fn spec_lyc_period(&self) -> bool {
        self.regs.lyc == self.spec_lyc_held_line() && self.regs.lyc < 154
    }

    /// See [`Self::spec_lyc_period`].
    pub fn lyc_period(&self) -> (r: bool)
        ensures
            r == self.spec_lyc_period(),
    {
        self.regs.lyc == self.lyc_held_line() && self.regs.lyc < 154
    }

    /// The CGB FF45-write trigger's compare target: writes near a line
    /// boundary compare against the upcoming line, and `None` is the
    /// simultaneous-increment exception (the old value still matched).
    pub open spec fn spec_lyc_target_cgb(&self, prev_val: u8) -> Option<u8> {
        let (ll, ld) = (self.line, self.dot);
        if self.glitch_line {
            Some(0)
        } else if ll == 153 {
            if ld <= 3 {
                Some(153)
            } else if ld <= 7 && prev_val == 153 {
                None
            } else {
                Some(0)
            }
        } else if ld <= 3 {
            Some(ll)
        } else if 452 <= ld <= 455 {
            if prev_val == ll {
                None
            } else if ll == 152 {
                Some(153)
            } else {
                Some((ll + 1) as u8)
            }
        } else {
            Some(ll)
        }
    }

    /// The DMG FF45-write trigger's compare target.
    pub open spec fn spec_lyc_target_dmg(&self, prev_val: u8) -> Option<u8> {
        let prev: u8 = if self.line == 0 {
            153
        } else {
            (self.line - 1) as u8
        };
        if self.glitch_line {
            Some(0)
        } else if self.dot <= 3 {
            if prev == 153 {
                Some(0)
            } else if prev_val == prev {
                None
            } else {
                Some(self.line)
            }
        } else if self.dot <= 7 {
            if prev == 153 {
                Some(0)
            } else {
                Some(self.line)
            }
        } else if self.dot <= 11 && self.line == 153 && prev_val == 153 {
            None
        } else if self.line == 153 {
            Some(0)
        } else {
            Some(self.line)
        }
    }

    /// The CGB FF45 write's event-copy protection: writes in an event's
    /// lead-in cannot reach that event's comparator copy.
    pub open spec fn spec_lyc_protected_cgb(&self, value: u8) -> bool {
        let (ll, ld) = (self.line, self.dot);
        let upcoming: int = if ll == 152 {
            153
        } else {
            ll + 1
        };
        !self.glitch_line && (ld < 4 || (ll == 153 && 8 <= ld < 12) || (ll <= 152 && ld >= 452 && value
            == upcoming))
    }

    /// The DMG FF45 write's event-copy protection.
    pub open spec fn spec_lyc_protected_dmg(&self, value: u8) -> bool {
        !self.glitch_line && ((self.dot == 0 && self.line >= 1 && value == self.line) || (self.line
            == 153 && self.dot == 8 && value == 0))
    }

    /// Whether a DMG FF45 write raises the STAT IRQ: the LYC source is
    /// enabled, the write matches its compare target, and no pending mode-0
    /// (visible lines) or the m1 enable (vblank lines) blocks it.
    pub open spec fn spec_lyc_fire_dmg(&self, prev_val: u8, value: u8) -> bool {
        let prev: u8 = if self.line == 0 {
            153
        } else {
            (self.line - 1) as u8
        };
        let their_line = if self.dot < 8 {
            prev
        } else {
            self.line
        };
        let blocked = if self.glitch_line {
            false
        } else if their_line <= 143 {
            self.regs.stat_en & STAT_SRC_HBLANK != 0 && (self.flags.m0_src || self.dot < 8) && value == their_line
        } else {
            self.regs.stat_en & STAT_SRC_VBLANK != 0 && !(self.line == 0 && self.dot == 4)
        };
        self.regs.stat_en & STAT_SRC_LYC != 0 && self.spec_lyc_target_dmg(prev_val) == Some(value) && !blocked
    }

    /// Whether a CGB FF45 write raises the STAT IRQ: the LYC source is
    /// enabled, the write matches its compare target, no mode-0 (visible
    /// lines) or m1 enable (vblank) holds the line, and the LYC source is not
    /// already holding it high.
    pub open spec fn spec_lyc_fire_cgb(&self, prev_val: u8, value: u8) -> bool {
        let (ll, ld) = (self.line, self.dot);
        let blocked = if ll <= 143 && !self.glitch_line {
            self.regs.stat_en & STAT_SRC_HBLANK != 0 && self.flags.m0_src && value == ll
        } else {
            self.regs.stat_en & STAT_SRC_VBLANK != 0 && !(ll == 153 && ld >= 452)
        };
        let lyc_level_high = self.irq.stat_line && self.spec_stat_line_level(STAT_SRC_LYC & self.regs.stat_en);
        self.regs.stat_en & STAT_SRC_LYC != 0 && self.spec_lyc_target_cgb(prev_val) == Some(value) && !blocked
            && !lyc_level_high
    }

    /// CGB FF45 write path (LCD on): the event copy is protected near its
    /// event, the m0/m2 copy lands 8 dots later (2 in double speed), and a
    /// raised STAT IRQ lands one M-cycle after the write at single speed.
    pub fn write_lyc_cgb(&mut self, prev_val: u8, value: u8)
        requires
            old(self).wf(),
            old(self).irq.pending_if < 4,
        ensures
            final(self).wf(),
            final(self).irq.pending_if < 4,
            final(self).same_config(old(self)),
            final(self).same_pos(old(self)),
            final(self).same_memory(old(self)),
            final(self).irq.lyc_event == if old(self).spec_lyc_protected_cgb(value) {
                old(self).irq.lyc_event
            } else {
                value
            },
            final(self).irq.lyc_ev_m_staged == Some((value, if old(self).ds { 2u8 } else { 8u8 })),
            final(self).only_irq_changed(old(self)),
            final(self).irq.pending_if == raised(
                old(self).irq.pending_if,
                old(self).spec_lyc_fire_cgb(prev_val, value) && old(self).ds,
                2,
            ),
            final(self).irq.lyc_if_delay == if old(self).spec_lyc_fire_cgb(prev_val, value) && !old(self).ds {
                4u8
            } else {
                old(self).irq.lyc_if_delay
            },
            final(self).irq == (IrqState {
                pending_if: final(self).irq.pending_if,
                lyc_if_delay: final(self).irq.lyc_if_delay,
                ..(Ppu {
                    irq: IrqState {
                        lyc_event: final(self).irq.lyc_event,
                        lyc_ev_m_staged: final(self).irq.lyc_ev_m_staged,
                        ..old(self).irq
                    },
                    ..*old(self)
                }).spec_refreshed_irq(false)
            }),
    {
        let (event, fire) = self.lyc_write_cgb_decision(prev_val, value);
        let k: u8 = if self.ds {
            2
        } else {
            8
        };
        self.set_lyc_event_copies(event, Some((value, k)));
        self.refresh_coincidence(false);
        let now = fire && self.ds;
        let later = fire && !self.ds;
        self.irq.pending_if = raise_if(self.irq.pending_if, now, IF_STAT);
        self.irq.lyc_if_delay = if later {
            4
        } else {
            self.irq.lyc_if_delay
        };
    }

    /// Store the LYC event comparator copy and the staged m0/m2 copy.
    fn set_lyc_event_copies(&mut self, event: u8, staged: Option<(u8, u8)>)
        requires
            old(self).wf(),
            super::staged_ok(staged),
        ensures
            final(self).wf(),
            final(self).same_config(old(self)),
            final(self).same_pos(old(self)),
            final(self).same_memory(old(self)),
            final(self).irq.pending_if == old(self).irq.pending_if,
            final(self).irq.lyc_if_delay == old(self).irq.lyc_if_delay,
            final(self).irq.lyc_event == event,
            final(self).irq.lyc_ev_m_staged == staged,
            final(self).only_irq_changed(old(self)),
            final(self).irq == (IrqState { lyc_event: event, lyc_ev_m_staged: staged, ..old(self).irq }),
    {
        self.irq.lyc_event = event;
        self.irq.lyc_ev_m_staged = staged;
    }

    /// The CGB FF45 write's event-copy value and trigger decision.
    pub fn lyc_write_cgb_decision(&self, prev_val: u8, value: u8) -> (r: (u8, bool))
        requires
            self.line <= 153,
        ensures
            r.0 == if self.spec_lyc_protected_cgb(value) {
                self.irq.lyc_event
            } else {
                value
            },
            r.1 == self.spec_lyc_fire_cgb(prev_val, value),
    {
        let (ll, ld) = (self.line, self.dot);
        let upcoming: u8 = if ll == 152 {
            153
        } else {
            ll + 1
        };
        let protected = !self.glitch_line && (ld < 4 || (ll == 153 && 8 <= ld && ld < 12) || (ll <= 152
            && ld >= 452 && value == upcoming));
        let event = if protected {
            self.irq.lyc_event
        } else {
            value
        };
        let target: Option<u8> = if self.glitch_line {
            Some(0)
        } else if ll == 153 {
            if ld <= 3 {
                Some(153)
            } else if ld <= 7 && prev_val == 153 {
                None
            } else {
                Some(0)
            }
        } else if ld <= 3 {
            Some(ll)
        } else if 452 <= ld && ld <= 455 {
            if prev_val == ll {
                None
            } else if ll == 152 {
                Some(153)
            } else {
                Some(ll + 1)
            }
        } else {
            Some(ll)
        };
        let blocked = if ll <= 143 && !self.glitch_line {
            self.regs.stat_en & STAT_SRC_HBLANK != 0 && self.flags.m0_src && value == ll
        } else {
            self.regs.stat_en & STAT_SRC_VBLANK != 0 && !(ll == 153 && ld >= 452)
        };
        let lyc_level_high = self.irq.stat_line && self.stat_line_level(STAT_SRC_LYC & self.regs.stat_en);
        (event, self.regs.stat_en & STAT_SRC_LYC != 0 && target == Some(value) && !blocked && !lyc_level_high)
    }

    /// The DMG FF45 write's event-copy value and trigger decision.
    pub fn lyc_write_dmg_decision(&self, prev_val: u8, value: u8) -> (r: (u8, bool))
        ensures
            r.0 == if self.spec_lyc_protected_dmg(value) {
                self.irq.lyc_event
            } else {
                value
            },
            r.1 == self.spec_lyc_fire_dmg(prev_val, value),
    {
        let protected = !self.glitch_line && ((self.dot == 0 && self.line >= 1 && value == self.line)
            || (self.line == 153 && self.dot == 8 && value == 0));
        let event = if protected {
            self.irq.lyc_event
        } else {
            value
        };
        let prev: u8 = if self.line == 0 {
            153
        } else {
            self.line - 1
        };
        let target: Option<u8> = if self.glitch_line {
            Some(0)
        } else if self.dot <= 3 {
            if prev == 153 {
                Some(0)
            } else if prev_val == prev {
                None
            } else {
                Some(self.line)
            }
        } else if self.dot <= 7 {
            if prev == 153 {
                Some(0)
            } else {
                Some(self.line)
            }
        } else if self.dot <= 11 && self.line == 153 && prev_val == 153 {
            None
        } else if self.line == 153 {
            Some(0)
        } else {
            Some(self.line)
        };
        let their_line = if self.dot < 8 {
            prev
        } else {
            self.line
        };
        let blocked = if self.glitch_line {
            false
        } else if their_line <= 143 {
            self.regs.stat_en & STAT_SRC_HBLANK != 0 && (self.flags.m0_src || self.dot < 8) && value == their_line
        } else {
            self.regs.stat_en & STAT_SRC_VBLANK != 0 && !(self.line == 0 && self.dot == 4)
        };
        (event, self.regs.stat_en & STAT_SRC_LYC != 0 && target == Some(value) && !blocked)
    }

    /// DMG FF45 write path (LCD on): the event copy lands unless the write
    /// commits at the line-start M-cycle of its own target event, the m0/m2
    /// copy lands at once, and the trigger raises STAT in the write's cycle.
    pub fn write_lyc_dmg(&mut self, prev_val: u8, value: u8)
        requires
            old(self).wf(),
            old(self).irq.pending_if < 4,
        ensures
            final(self).wf(),
            final(self).irq.pending_if < 4,
            final(self).same_config(old(self)),
            final(self).same_pos(old(self)),
            final(self).same_memory(old(self)),
            final(self).irq.lyc_event == if old(self).spec_lyc_protected_dmg(value) {
                old(self).irq.lyc_event
            } else {
                value
            },
            final(self).irq.lyc_ev_m == value,
            final(self).only_irq_changed(old(self)),
            final(self).irq.lyc_if_delay == old(self).irq.lyc_if_delay,
            final(self).irq.pending_if == raised(old(self).irq.pending_if, old(self).spec_lyc_fire_dmg(prev_val, value), 2),
            final(self).irq == (IrqState {
                pending_if: final(self).irq.pending_if,
                lyc_event: final(self).irq.lyc_event,
                lyc_ev_m: value,
                ..old(self).spec_refreshed_irq(false)
            }),
    {
        let (event, fire) = self.lyc_write_dmg_decision(prev_val, value);
        self.refresh_coincidence(false);
        self.irq.lyc_event = event;
        self.irq.lyc_ev_m = value;
        self.irq.pending_if = raise_if(self.irq.pending_if, fire, IF_STAT);
    }
}

} // verus!
