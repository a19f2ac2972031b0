//! Register reads and writes (VRAM, OAM, FF40-FF4B, the CGB registers), the
//! LCD enable/disable transitions, and the mode-3 write strobe: a
//! rendering-register write is staged before its write M-cycle ticks so the
//! pixel pipeline sees it land about two dots before the architectural
//! commit, where the STAT/IRQ machinery keeps the commit point.
use vstd::prelude::*;
use super::lyc::{compare_at, compare_at_exec};
use super::{PipeRegs, Ppu, StagedWrite, LCDC_WIN_ENABLE};

verus! {

/// Whether `addr` is a rendering register the write strobe stages: LCDC,
/// SCY, SCX, BGP, OBP0, OBP1, WY, WX.
pub open spec fn is_render_reg(addr: u16) -> bool {
    addr == 0xFF40 || addr == 0xFF42 || addr == 0xFF43 || (0xFF47 <= addr <= 0xFF4B)
}

/// The pipeline view after a staged write of `value` to `addr` commits.
pub open spec fn spec_commit_view(e: PipeRegs, addr: u16, value: u8) -> PipeRegs {
    if addr == 0xFF40 {
        PipeRegs { lcdc: value, ..e }
    } else if addr == 0xFF42 {
        PipeRegs { scy: value, ..e }
    } else if addr == 0xFF43 {
        PipeRegs { scx: value, ..e }
    } else if addr == 0xFF47 {
        PipeRegs { bgp: value, ..e }
    } else if addr == 0xFF48 {
        PipeRegs { obp0: value, ..e }
    } else if addr == 0xFF49 {
        PipeRegs { obp1: value, ..e }
    } else if addr == 0xFF4A {
        PipeRegs { wy: value, ..e }
    } else if addr == 0xFF4B {
        PipeRegs { wx: value, ..e }
    } else {
        e
    }
}

/// The DMG palette strobe's transition dot: the palette reads old OR new.
pub open spec fn spec_blend_view(e: PipeRegs, addr: u16, value: u8) -> PipeRegs {
    if addr == 0xFF47 {
        PipeRegs { bgp: e.bgp | value, ..e }
    } else if addr == 0xFF48 {
        PipeRegs { obp0: e.obp0 | value, ..e }
    } else if addr == 0xFF49 {
        PipeRegs { obp1: e.obp1 | value, ..e }
    } else {
        e
    }
}

/// The STAT mode bits at scan position `(line, dot)` with the LCD on,
/// given whether the line's mode-0 flip has happened by then: mode 1 on
/// vblank lines from 144:4 (0 before); the LCD-enable line 0 except mode 3
/// from dot 78 to its flip; other visible lines 0 (CGB line 0: 1) for dots
/// 0-3, 2 until dot 84, 3 until the flip, then 0.
pub open spec fn mode_at(cgb: bool, glitch: bool, line: u8, dot: int, done: bool) -> u8 {
    if line >= 144 {
        if line == 144 && dot < 4 {
            0
        } else {
            1
        }
    } else if glitch {
        if dot < 78 || done {
            0
        } else {
            3
        }
    } else if dot < 4 {
        if cgb && line == 0 {
            1
        } else {
            0
        }
    } else if dot < 84 {
        2
    } else if done {
        0
    } else {
        3
    }
}

/// See [`mode_at`].
pub fn mode_at_exec(cgb: bool, glitch: bool, line: u8, dot: u16, done: bool) -> (r: u8)
    ensures
        r == mode_at(cgb, glitch, line, dot as int, done),
        r < 4,
{
    if line >= 144 {
        if line == 144 && dot < 4 {
            0
        } else {
            1
        }
    } else if glitch {
        if dot < 78 || done {
            0
        } else {
            3
        }
    } else if dot < 4 {
        if cgb && line == 0 {
            1
        } else {
            0
        }
    } else if dot < 84 {
        2
    } else if done {
        0
    } else {
        3
    }
}

impl Ppu {
    /// How far ahead of the PPU a CPU read of FF41 samples: the end of its
    /// M-cycle, 4 dots (2 in double speed).
    pub open spec fn spec_read_lead(&self) -> int {
        if self.ds {
            2
        } else {
            4
        }
    }

    /// The scan position a read of FF41 samples, as `(line, dot, LCD-enable
    /// line, crossed into the next line)`.
    pub open spec fn spec_read_pos(&self) -> (u8, int, bool, bool) {
        let d = self.dot + self.spec_read_lead();
        let len = super::line_len_of(self.glitch_line);
        if d < len {
            (self.line, d, self.glitch_line, false)
        } else {
            (
                if self.line == 153 {
                    0u8
                } else {
                    (self.line + 1) as u8
                },
                d - len,
                false,
                true,
            )
        }
    }

    /// Whether this line's mode-0 flip has happened by the read position:
    /// already, or projected within the read lead.
    pub open spec fn spec_flip_by_read(&self) -> bool {
        self.flags.line_render_done || (self.render.active && self.line <= 143
            && self.spec_flip_projection().0 <= self.spec_flip_projection().1 + self.spec_read_lead())
    }

    /// The mode bits an FF41 read returns: the mode at the read position.
    pub open spec fn spec_read_mode(&self) -> u8 {
        if !self.enabled {
            0
        } else {
            let p = self.spec_read_pos();
            mode_at(self.cgb(), p.2, p.0, p.1, !p.3 && self.spec_flip_by_read())
        }
    }

    /// Whether an FF41 read samples the comparison at the read position
    /// rather than the current one: always on CGB (its held comparison is
    /// read at the end of the M-cycle); on DMG only on the LCD-enable line
    /// and the line after it, whose comparison clock runs one M-cycle ahead
    /// of the scan (the enable line is 4 dots short).
    pub open spec fn spec_compare_leads(&self) -> bool {
        self.cgb() || self.glitch_line || (self.frame_skip && self.line == 1)
    }

    /// The coincidence bit an FF41 read returns: the comparison at the
    /// current scan position (the read position while the comparison clock
    /// leads, see [`Self::spec_compare_leads`]), frozen while the LCD is off.
    pub open spec fn spec_read_coincidence(&self) -> bool {
        if !self.enabled {
            self.irq.coincidence
        } else if self.spec_compare_leads() {
            let p = self.spec_read_pos();
            compare_at(self.cgb(), p.2, p.0, p.1) == Some(self.regs.lyc)
        } else {
            compare_at(self.cgb(), self.glitch_line, self.line, self.dot as int) == Some(self.regs.lyc)
        }
    }

    /// See [`Self::spec_read_pos`].
    pub fn read_pos(&self) -> (r: (u8, u16, bool, bool))
        requires
            self.wf(),
        ensures
            (r.0, r.1 as int, r.2, r.3) == self.spec_read_pos(),
    {
        let k: u16 = if self.ds {
            2
        } else {
            4
        };
        let len = self.line_len();
        let d = self.dot + k;
        if d < len {
            (self.line, d, self.glitch_line, false)
        } else {
            let next: u8 = if self.line == 153 {
                0
            } else {
                self.line + 1
            };
            (next, d - len, false, true)
        }
    }

    /// See [`Self::spec_read_mode`].
    pub fn vis_mode_read(&self) -> (r: u8)
        requires
            self.wf(),
        ensures
            r == self.spec_read_mode(),
            r < 4,
    {
        if !self.enabled {
            return 0;
        }
        let (l, d, g, crossed) = self.read_pos();
        let done = if crossed {
            false
        } else if self.flags.line_render_done {
            true
        } else if self.render.active && self.line <= 143 {
            let k: u32 = if self.ds {
                2
            } else {
                4
            };
            let (proj, lead) = self.flip_projection();
            proj <= lead + k
        } else {
            false
        };
        mode_at_exec(self.model.is_cgb(), g, l, d, done)
    }

    /// See [`Self::spec_read_coincidence`].
    pub fn read_coincidence(&self) -> (r: bool)
        requires
            self.wf(),
        ensures
            r == self.spec_read_coincidence(),
    {
        if !self.enabled {
            return self.irq.coincidence;
        }
        if self.model.is_cgb() || self.glitch_line || (self.frame_skip && self.line == 1) {
            let (l, d, g, _) = self.read_pos();
            compare_at_exec(self.model.is_cgb(), g, l, d) == Some(self.regs.lyc)
        } else {
            compare_at_exec(self.model.is_cgb(), self.glitch_line, self.line, self.dot) == Some(self.regs.lyc)
        }
    }
}

impl Ppu {
    /// The VRAM byte index of `addr` in the selected bank.
    pub open spec fn spec_vram_index(&self, addr: u16) -> int {
        (self.regs.vbk as int) * 0x2000 + (addr as int) % 0x2000
    }

    /// See [`Self::spec_vram_index`].
    pub fn vram_index(&self, addr: u16) -> (i: usize)
        requires
            self.regs.vbk <= 1,
        ensures
            i == self.spec_vram_index(addr),
            i < 0x4000,
    {
        self.regs.vbk as usize * 0x2000 + (addr % 0x2000) as usize
    }

    /// What a CPU read of `addr` returns: VRAM/OAM ($FF while blocked), the
    /// registers (FF41 = bit 7, the enables, the coincidence flag and the
    /// visible mode), the CGB registers on CGB, else $FF.
    pub open spec fn spec_read(&self, addr: u16) -> u8 {
        let cgb = self.cgb();
        if 0x8000 <= addr <= 0x9FFF {
            if self.spec_vram_read_blocked() {
                0xFF
            } else {
                self.mem.vram@[self.spec_vram_index(addr)]
            }
        } else if 0xFE00 <= addr <= 0xFE9F {
            if self.spec_oam_read_blocked() {
                0xFF
            } else {
                self.mem.oam@[addr - 0xFE00]
            }
        } else if addr == 0xFF40 {
            self.regs.lcdc
        } else if addr == 0xFF41 {
            0x80 | self.regs.stat_en | (if self.spec_read_coincidence() {
                4u8
            } else {
                0u8
            }) | self.spec_read_mode()
        } else if addr == 0xFF42 {
            self.regs.scy
        } else if addr == 0xFF43 {
            self.regs.scx
        } else if addr == 0xFF44 {
            self.ly
        } else if addr == 0xFF45 {
            self.regs.lyc
        } else if addr == 0xFF47 {
            self.regs.bgp
        } else if addr == 0xFF48 {
            self.regs.obp0
        } else if addr == 0xFF49 {
            self.regs.obp1
        } else if addr == 0xFF4A {
            self.regs.wy
        } else if addr == 0xFF4B {
            self.regs.wx
        } else if addr == 0xFF4F && cgb {
            0xFE | self.regs.vbk
        } else if addr == 0xFF68 && cgb {
            0x40 | self.regs.bcps
        } else if addr == 0xFF69 && cgb {
            if self.spec_pal_ram_blocked() {
                0xFF
            } else {
                self.mem.bg_pal_ram@[(self.regs.bcps % 64) as int]
            }
        } else if addr == 0xFF6A && cgb {
            0x40 | self.regs.ocps
        } else if addr == 0xFF6B && cgb {
            if self.spec_pal_ram_blocked() {
                0xFF
            } else {
                self.mem.obj_pal_ram@[(self.regs.ocps % 64) as int]
            }
        } else if addr == 0xFF6C && cgb {
            0xFE | self.regs.opri
        } else {
            0xFF
        }
    }

    /// Read VRAM, OAM or a PPU register (see [`Self::spec_read`]).
    pub fn read(&self, addr: u16) -> (r: u8)
        requires
            self.wf(),
        ensures
            r == self.spec_read(addr),
    {
        proof {
            reveal(super::mem_ok);
        }
        let cgb = self.model.is_cgb();
        if 0x8000 <= addr && addr <= 0x9FFF {
            if self.vram_read_blocked() {
                0xFF
            } else {
                self.mem.vram[self.vram_index(addr)]
            }
        } else if 0xFE00 <= addr && addr <= 0xFE9F {
            if self.oam_read_blocked() {
                0xFF
            } else {
                self.mem.oam[(addr - 0xFE00) as usize]
            }
        } else if addr == 0xFF40 {
            self.regs.lcdc
        } else if addr == 0xFF41 {
            let c: u8 = if self.read_coincidence() {
                4
            } else {
                0
            };
            0x80 | self.regs.stat_en | c | self.vis_mode_read()
        } else if addr == 0xFF42 {
            self.regs.scy
        } else if addr == 0xFF43 {
            self.regs.scx
        } else if addr == 0xFF44 {
            self.ly
        } else if addr == 0xFF45 {
            self.regs.lyc
        } else if addr == 0xFF47 {
            self.regs.bgp
        } else if addr == 0xFF48 {
            self.regs.obp0
        } else if addr == 0xFF49 {
            self.regs.obp1
        } else if addr == 0xFF4A {
            self.regs.wy
        } else if addr == 0xFF4B {
            self.regs.wx
        } else if addr == 0xFF4F && cgb {
            0xFE | self.regs.vbk
        } else if addr == 0xFF68 && cgb {
            0x40 | self.regs.bcps
        } else if addr == 0xFF69 && cgb {
            if self.pal_ram_blocked() {
                0xFF
            } else {
                self.mem.bg_pal_ram[(self.regs.bcps % 64) as usize]
            }
        } else if addr == 0xFF6A && cgb {
            0x40 | self.regs.ocps
        } else if addr == 0xFF6B && cgb {
            if self.pal_ram_blocked() {
                0xFF
            } else {
                self.mem.obj_pal_ram[(self.regs.ocps % 64) as usize]
            }
        } else if addr == 0xFF6C && cgb {
            0xFE | self.regs.opri
        } else {
            0xFF
        }
    }

    /// The dots before its architectural commit at which a rendering
    /// register write should be staged: 2 (1 in double speed) by default;
    /// SCX 3 (2 in double speed); the DMG palettes and single-speed SCY
    /// anchor to the even dot grid (2 from an even dot, 3 from an odd one);
    /// SCY and palettes 3 otherwise; WX 0 (the stage adds its one-dot lag).
    /// The LCD-enable line stages everything at the default.
    pub open spec fn spec_stage_write_dots(&self, addr: u16, double_speed: bool) -> u8 {
        let parity = (self.dot % 2) as u8;
        let palette = 0xFF47 <= addr <= 0xFF49;
        if self.glitch_line {
            if double_speed {
                1
            } else {
                2
            }
        } else if addr == 0xFF43 {
            if double_speed {
                2
            } else {
                3
            }
        } else if palette && !self.cgb() {
            (2 + parity) as u8
        } else if addr == 0xFF42 {
            if double_speed {
                3
            } else {
                (2 + parity) as u8
            }
        } else if palette {
            3
        } else if addr == 0xFF4B {
            0
        } else if double_speed {
            1
        } else {
            2
        }
    }

    /// See [`Self::spec_stage_write_dots`].
    pub fn stage_write_dots(&self, addr: u16, double_speed: bool) -> (r: u8)
        ensures
            r == self.spec_stage_write_dots(addr, double_speed),
            r <= 3,
    {
        let glitch = self.glitch_line;
        let parity: u8 = (self.dot % 2) as u8;
        if addr == 0xFF43 && !glitch && double_speed {
            2
        } else if !self.model.is_cgb() && 0xFF47 <= addr && addr <= 0xFF49 && !glitch {
            2 + parity
        } else if addr == 0xFF42 && !double_speed && !glitch {
            2 + parity
        } else if (addr == 0xFF42 || addr == 0xFF43 || (0xFF47 <= addr && addr <= 0xFF49)) && !glitch {
            3
        } else if addr == 0xFF4B && !glitch {
            0
        } else if double_speed {
            1
        } else {
            2
        }
    }

    /// Fold an expired staged write into the pipeline view. An LCDC.5 clear
    /// while the pipeline runs aborts the window at this commit point.
    pub fn commit_eff(&mut self, addr: u16, value: u8)
        requires
            old(self).wf(),
        ensures
            final(self).wf(),
            final(self).same_config(old(self)),
            final(self).same_pos(old(self)),
            final(self).same_memory(old(self)),
            final(self).irq == old(self).irq,
            final(self).flags == old(self).flags,
            final(self).window == old(self).window,
            final(self).staged == old(self).staged,
            final(self).front == old(self).front,
            final(self).back == old(self).back,
            final(self).sgb == old(self).sgb,
            final(self).eff == spec_commit_view(old(self).eff, addr, value),
            final(self).render.active == old(self).render.active,
            final(self).render.pos.mode3_dot == old(self).render.pos.mode3_dot,
            addr != 0xFF40 ==> final(self).render == old(self).render,
            final(self).render == if addr == 0xFF40 && old(self).eff.lcdc & LCDC_WIN_ENABLE != 0 && value
                & LCDC_WIN_ENABLE == 0 && old(self).render.active {
                old(self).spec_lcdc_abort_render()
            } else {
                old(self).render
            },
            *final(self) == (Ppu { eff: final(self).eff, render: final(self).render, ..*old(self) }),
    {
        let old_lcdc = self.eff.lcdc;
        let abort = addr == 0xFF40 && old_lcdc & LCDC_WIN_ENABLE != 0 && value & LCDC_WIN_ENABLE == 0
            && self.render.active;
        if abort {
            self.window_abort_flags();
            self.window_abort_render();
        }
        let e = self.eff;
        self.eff = if addr == 0xFF40 {
            PipeRegs { lcdc: value, ..e }
        } else if addr == 0xFF42 {
            PipeRegs { scy: value, ..e }
        } else if addr == 0xFF43 {
            PipeRegs { scx: value, ..e }
        } else if addr == 0xFF47 {
            PipeRegs { bgp: value, ..e }
        } else if addr == 0xFF48 {
            PipeRegs { obp0: value, ..e }
        } else if addr == 0xFF49 {
            PipeRegs { obp1: value, ..e }
        } else if addr == 0xFF4A {
            PipeRegs { wy: value, ..e }
        } else if addr == 0xFF4B {
            PipeRegs { wx: value, ..e }
        } else {
            e
        };
    }

    /// Stage a rendering-register write `dots` dots before its architectural
    /// commit (WX one dot later). Non-rendering addresses are ignored; a
    /// previous stage still in flight is committed first.
    pub fn stage_write(&mut self, addr: u16, value: u8, dots: u8)
        requires
            old(self).wf(),
            dots < 255,
        ensures
            final(self).wf(),
            final(self).same_config(old(self)),
            final(self).same_pos(old(self)),
            final(self).same_memory(old(self)),
            final(self).irq == old(self).irq,
            final(self).flags == old(self).flags,
            is_render_reg(addr) ==> final(self).staged == Some(
                StagedWrite { addr, value, dots_left: if addr == 0xFF4B { (dots + 1) as u8 } else { dots } },
            ),
            !is_render_reg(addr) ==> final(self).staged == old(self).staged && final(self).eff
                == old(self).eff,
            final(self).render.active == old(self).render.active,
            final(self).render.pos.mode3_dot == old(self).render.pos.mode3_dot,
    {
        if !(addr == 0xFF40 || addr == 0xFF42 || addr == 0xFF43 || (0xFF47 <= addr && addr <= 0xFF4B)) {
            return ;
        }
        let dots = if addr == 0xFF4B {
            dots + 1
        } else {
            dots
        };
        if let Some(s) = self.staged {
            self.commit_eff(s.addr, s.value);
        }
        self.staged = Some(StagedWrite { addr, value, dots_left: dots });
    }

    /// Advance the in-flight write strobe by one dot. The dot on which the
    /// countdown reaches 0 is the transition dot, on which pre-CGB DMG
    /// palettes read old OR new; from the next dot the new value drives the
    /// pipeline view.
    #[verifier::rlimit(40)]
    pub fn strobe_tick(&mut self)
        requires
            old(self).wf(),
        ensures
            final(self).wf(),
            final(self).same_config(old(self)),
            final(self).same_pos(old(self)),
            final(self).same_memory(old(self)),
            final(self).irq == old(self).irq,
            final(self).flags == old(self).flags,
            final(self).window == old(self).window,
            final(self).front == old(self).front,
            final(self).back == old(self).back,
            final(self).sgb == old(self).sgb,
            final(self).render.active == old(self).render.active,
            final(self).render.pos.mode3_dot == old(self).render.pos.mode3_dot,
            match old(self).staged {
                None => final(self).staged is None && final(self).eff == old(self).eff,
                Some(s) => if s.dots_left > 0 {
                    final(self).staged == Some(StagedWrite { dots_left: (s.dots_left - 1) as u8, ..s })
                        && final(self).eff == if s.dots_left == 1 && !old(self).cgb() {
                        spec_blend_view(old(self).eff, s.addr, s.value)
                    } else {
                        old(self).eff
                    }
                } else {
                    final(self).staged is None && final(self).eff == spec_commit_view(
                        old(self).eff,
                        s.addr,
                        s.value,
                    )
                },
            },
            *final(self) == (Ppu { eff: final(self).eff, staged: final(self).staged, render: final(self).render, ..*old(self) }),
            final(self).render == if old(self).staged is Some && old(self).staged->Some_0.dots_left == 0
                && old(self).staged->Some_0.addr == 0xFF40 && old(self).eff.lcdc & LCDC_WIN_ENABLE != 0
                && old(self).staged->Some_0.value & LCDC_WIN_ENABLE == 0 && old(self).render.active {
                old(self).spec_lcdc_abort_render()
            } else {
                old(self).render
            },
    {
        let s = match self.staged {
            None => return ,
            Some(s) => s,
        };
        if s.dots_left > 0 {
            let left = s.dots_left - 1;
            self.staged = Some(StagedWrite { dots_left: left, ..s });
            if left == 0 && !self.model.is_cgb() {
                let e = self.eff;
                self.eff = if s.addr == 0xFF47 {
                    PipeRegs { bgp: e.bgp | s.value, ..e }
                } else if s.addr == 0xFF48 {
                    PipeRegs { obp0: e.obp0 | s.value, ..e }
                } else if s.addr == 0xFF49 {
                    PipeRegs { obp1: e.obp1 | s.value, ..e }
                } else {
                    e
                };
            }
        } else {
            self.staged = None;
            self.commit_eff(s.addr, s.value);
        }
    }
}

impl Ppu {
    /// The dot the mode-0 flip is projected to land on while mode 3 runs:
    /// the current dot plus the projected dots left (see
    /// [`Self::flip_projection`]).
    pub fn projected_flip_dot(&self) -> (r: u32)
        requires
            self.wf(),
        ensures
            r == self.dot + if self.spec_flip_projection().0 > self.spec_flip_projection().1 {
                self.spec_flip_projection().0 - self.spec_flip_projection().1
            } else {
                0
            },
    {
        let (proj, lead) = self.flip_projection();
        let ahead = if proj > lead {
            proj - lead
        } else {
            0
        };
        self.dot as u32 + ahead
    }
}

/// The write strobe's dot (see [`Ppu::strobe_tick`]).
#[verifier::opaque]
pub open spec fn strobe_rel(o: Ppu, n: Ppu) -> bool {
    &&& (n.same_config(&o))
    &&& (n.same_pos(&o))
    &&& (n.same_memory(&o))
    &&& (n.irq == o.irq)
    &&& (n.flags == o.flags)
    &&& (n.window == o.window)
    &&& (n.front == o.front)
    &&& (n.back == o.back)
    &&& (n.sgb == o.sgb)
    &&& (n.render.active == o.render.active)
    &&& (n.render.pos.mode3_dot == o.render.pos.mode3_dot)
    &&& (n == (Ppu { eff: n.eff, staged: n.staged, render: n.render, ..o }))
    &&& (n.render == if o.staged is Some && o.staged->Some_0.dots_left == 0 && o.staged->Some_0.addr
        == 0xFF40 && o.eff.lcdc & LCDC_WIN_ENABLE != 0 && o.staged->Some_0.value & LCDC_WIN_ENABLE == 0
        && o.render.active {
        o.spec_lcdc_abort_render()
    } else {
        o.render
    })
    &&& (match o.staged {
        None => n.staged is None && n.eff == o.eff,
        Some(s) => if s.dots_left > 0 {
            n.staged == Some(StagedWrite { dots_left: (s.dots_left - 1) as u8, ..s })
                && n.eff == if s.dots_left == 1 && !o.cgb() {
                spec_blend_view(o.eff, s.addr, s.value)
            } else {
                o.eff
            }
        } else {
            n.staged is None && n.eff == spec_commit_view(o.eff, s.addr, s.value)
        },
    })
}

} // verus!
