//! CPU access blocking by PPU mode (OAM, VRAM, CGB palette RAM) and the DMG
//! OAM corruption bug's position rule.
//!
//! Boundaries: OAM reads block from dot 0 of a visible line until the mode-0
//! flip; OAM writes pass during dots 0-3 and 80-83 on DMG; VRAM reads block
//! from dot 80 (83 on CGB), VRAM writes from dot 84; palette RAM blocks from
//! the mode-3 start to the pipe end. The LCD-enable line blocks everything
//! from dot 78.
use vstd::prelude::*;
use super::{mem_ok, GLITCH_MODE3_START, Ppu};
use crate::oam_bug::{
    increase_pattern, oam_bug_read_increase_pattern, oam_bug_read_pattern, oam_bug_write_pattern,
    read_pattern, write_pattern, OamBugKind,
};

verus! {

impl Ppu {
    /// OAM reads return $FF.
    pub open spec fn spec_oam_read_blocked(&self) -> bool {
        self.enabled && self.line <= 143 && !self.flags.line_render_done && (!self.glitch_line || self.dot
            >= GLITCH_MODE3_START)
    }

    /// OAM writes are dropped.
    pub open spec fn spec_oam_write_blocked(&self) -> bool {
        if !self.enabled || self.line > 143 {
            false
        } else if self.glitch_line {
            self.dot >= GLITCH_MODE3_START && !self.flags.line_render_done
        } else if self.cgb() {
            if self.dot < 4 {
                self.line != 0
            } else {
                self.dot < 84 || !self.flags.line_render_done
            }
        } else {
            (4 <= self.dot < 80) || (self.dot >= 84 && !self.flags.line_render_done)
        }
    }

    /// VRAM reads return $FF.
    pub open spec fn spec_vram_read_blocked(&self) -> bool {
        if !self.enabled || self.line > 143 || self.flags.line_render_done {
            false
        } else {
            let late: u16 = if self.cgb() {
                3
            } else {
                0
            };
            if self.glitch_line {
                self.dot >= GLITCH_MODE3_START + late
            } else {
                self.dot >= 80 + late
            }
        }
    }

    /// VRAM writes are dropped.
    pub open spec fn spec_vram_write_blocked(&self) -> bool {
        if !self.enabled || self.line > 143 || self.flags.line_render_done {
            false
        } else if self.glitch_line {
            self.dot >= GLITCH_MODE3_START
        } else {
            self.dot >= 84
        }
    }

    /// CGB palette RAM (BCPD/OCPD) is inaccessible while mode 3 reads it.
    pub open spec fn spec_pal_ram_blocked(&self) -> bool {
        if !self.enabled || self.line > 143 || self.flags.render_finished {
            false
        } else if self.glitch_line {
            self.dot >= GLITCH_MODE3_START
        } else {
            self.dot >= 84
        }
    }

    /// The byte base of the OAM row the scan makes vulnerable to the OAM bug
    /// for an access observing the current state: row `dot / 4` for dots
    /// 4..80 of a scanning visible line.
    pub open spec fn spec_oam_bug_row(&self) -> Option<u8> {
        if !self.enabled || self.line > 143 || self.glitch_line || !(4 <= self.dot < 80) {
            None
        } else {
            Some(((self.dot / 4) * 8) as u8)
        }
    }

    /// OAM after an access of `kind` collides with the scan at `row`.
    pub open spec fn spec_oam_bug_effect(o: Seq<u8>, row: int, kind: OamBugKind) -> Seq<u8> {
        match kind {
            OamBugKind::Write => write_pattern(o, row),
            OamBugKind::Read => read_pattern(o, row),
            OamBugKind::ReadIncrease => read_pattern(
                if 0x20 <= row < 0x98 {
                    increase_pattern(o, row)
                } else {
                    o
                },
                row,
            ),
        }
    }

    /// See [`Self::spec_oam_read_blocked`].
    pub fn oam_read_blocked(&self) -> (r: bool)
        ensures
            r == self.spec_oam_read_blocked(),
    {
        self.enabled && self.line <= 143 && !self.flags.line_render_done && (!self.glitch_line || self.dot
            >= GLITCH_MODE3_START)
    }

    /// See [`Self::spec_oam_write_blocked`].
    pub fn oam_write_blocked(&self) -> (r: bool)
        ensures
            r == self.spec_oam_write_blocked(),
    {
        if !self.enabled || self.line > 143 {
            return false;
        }
        if self.glitch_line {
            return self.dot >= GLITCH_MODE3_START && !self.flags.line_render_done;
        }
        if self.model.is_cgb() {
            return if self.dot < 4 {
                self.line != 0
            } else {
                self.dot < 84 || !self.flags.line_render_done
            };
        }
        (4 <= self.dot && self.dot < 80) || (self.dot >= 84 && !self.flags.line_render_done)
    }

    /// See [`Self::spec_vram_read_blocked`].
    pub fn vram_read_blocked(&self) -> (r: bool)
        ensures
            r == self.spec_vram_read_blocked(),
    {
        if !self.enabled || self.line > 143 || self.flags.line_render_done {
            return false;
        }
        let late: u16 = if self.model.is_cgb() {
            3
        } else {
            0
        };
        if self.glitch_line {
            self.dot >= GLITCH_MODE3_START + late
        } else {
            self.dot >= 80 + late
        }
    }

    /// See [`Self::spec_vram_write_blocked`].
    pub fn vram_write_blocked(&self) -> (r: bool)
        ensures
            r == self.spec_vram_write_blocked(),
    {
        if !self.enabled || self.line > 143 || self.flags.line_render_done {
            return false;
        }
        if self.glitch_line {
            self.dot >= GLITCH_MODE3_START
        } else {
            self.dot >= 84
        }
    }

    /// See [`Self::spec_pal_ram_blocked`].
    pub fn pal_ram_blocked(&self) -> (r: bool)
        ensures
            r == self.spec_pal_ram_blocked(),
    {
        if !self.enabled || self.line > 143 || self.flags.render_finished {
            return false;
        }
        if self.glitch_line {
            self.dot >= GLITCH_MODE3_START
        } else {
            self.dot >= 84
        }
    }

    /// See [`Self::spec_oam_bug_row`].
    pub fn oam_bug_row(&self) -> (r: Option<u8>)
        ensures
            r == self.spec_oam_bug_row(),
    {
        if !self.enabled || self.line > 143 || self.glitch_line || !(4 <= self.dot && self.dot < 80) {
            return None;
        }
        Some((self.dot / 4 * 8) as u8)
    }

    /// Apply the DMG OAM corruption bug for an access of `kind` in this
    /// M-cycle: the pattern hits the row the scan is on, and nothing happens
    /// outside the scan window. The read-increase special pattern only fires
    /// for rows 4..=18; the plain read corruption applies regardless.
    pub fn oam_bug(&mut self, kind: OamBugKind)
        requires
            old(self).wf(),
        ensures
            
            final(self).wf(),
            final(self).same_config(old(self)),
            final(self).same_pos(old(self)),
            final(self).mem.vram == old(self).mem.vram,
            final(self).mem.bg_pal_ram == old(self).mem.bg_pal_ram,
            final(self).mem.obj_pal_ram == old(self).mem.obj_pal_ram,
            match old(self).spec_oam_bug_row() {
                None => final(self).mem.oam@ == old(self).mem.oam@,
                Some(row) => final(self).mem.oam@ == Self::spec_oam_bug_effect(old(self).mem.oam@, row as int, kind),
            },
    {
        proof {
            reveal(mem_ok);
        }
        let row = match self.oam_bug_row() {
            Some(r) => r as usize,
            None => return ,
        };
        apply_oam_bug(&mut self.mem.oam, row, kind);
    }
}

/// Apply the corruption pattern of `kind` at byte row `row`.
fn apply_oam_bug(oam: &mut Vec<u8>, row: usize, kind: OamBugKind)
    requires
        8 <= row <= 0x98,
        old(oam)@.len() == 0xA0,
    ensures
        final(oam)@ == Ppu::spec_oam_bug_effect(old(oam)@, row as int, kind),
{
    match kind {
        OamBugKind::Write => oam_bug_write_pattern(oam, row),
        OamBugKind::Read => oam_bug_read_pattern(oam, row),
        OamBugKind::ReadIncrease => {
            if 0x20 <= row && row < 0x98 {
                oam_bug_read_increase_pattern(oam, row);
            }
            oam_bug_read_pattern(oam, row);
        },
    }
}

} // verus!
