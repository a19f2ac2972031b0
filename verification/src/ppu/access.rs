//! Direct accessors: the DMA/HDMA and debugger views of video memory that
//! bypass mode blocking, the HBlank DMA trigger levels, the presented frame
//! and the frontend settings.
use vstd::prelude::*;
use super::{line_len_of, DmaView, Ppu, Regs, LINE_DOTS};
use crate::SCREEN_PIXELS;

verus! {

impl Ppu {
    /// The live CGB VRAM bank (FF4F bit 0; always 0 on DMG).
    pub fn vram_bank(&self) -> (r: usize)
        requires
            self.wf(),
        ensures
            r == self.regs.vbk,
            r <= 1,
    {
        self.regs.vbk as usize
    }

    /// OAM write from the DMA engine: ignores mode blocking; an index past
    /// OAM is dropped.
    pub fn oam_dma_write(&mut self, index: u8, value: u8)
        requires
            old(self).wf(),
        ensures
            final(self).wf(),
            final(self).same_config(old(self)),
            final(self).same_pos(old(self)),
            final(self).irq == old(self).irq,
            final(self).mem.vram == old(self).mem.vram,
            final(self).mem.bg_pal_ram == old(self).mem.bg_pal_ram,
            final(self).mem.obj_pal_ram == old(self).mem.obj_pal_ram,
            final(self).mem.oam@ == if index < 0xA0 {
                old(self).mem.oam@.update(index as int, value)
            } else {
                old(self).mem.oam@
            },
    {
        proof {
            reveal(super::mem_ok);
        }
        if (index as usize) < self.mem.oam.len() {
            self.mem.oam.set(index as usize, value);
        }
    }

    /// CGB double speed engaged or left.
    pub fn set_double_speed(&mut self, ds: bool)
        requires
            old(self).wf(),
        ensures
            final(self).wf(),
            final(self).ds == ds,
            final(self).same_pos(old(self)),
            final(self).regs == old(self).regs,
            final(self).irq == old(self).irq,
            *final(self) == (Ppu { ds, ..*old(self) }),
    {
        self.ds = ds;
    }

    /// An OAM DMA transfer frozen mid-byte by HALT/STOP (`(OAM index,
    /// in-flight byte)`), or `None`; while frozen the scan sees glitched
    /// entries derived from the frozen access.
    pub fn set_oam_dma_freeze(&mut self, freeze: Option<(u8, u8)>)
        requires
            old(self).wf(),
        ensures
            final(self).wf(),
            final(self).dma == (DmaView { freeze, ..old(self).dma }),
            final(self).same_pos(old(self)),
            final(self).regs == old(self).regs,
            final(self).irq == old(self).irq,
            *final(self) == (Ppu { dma: DmaView { freeze, ..old(self).dma }, ..*old(self) }),
    {
        self.dma = DmaView { freeze, ..self.dma };
    }

    /// The OAM DMA controller owns OAM for the coming M-cycle's dots: the
    /// scan latches $FF.
    pub fn set_oam_dma_active(&mut self, active: bool)
        requires
            old(self).wf(),
        ensures
            final(self).wf(),
            final(self).dma == (DmaView { active, ..old(self).dma }),
            final(self).same_pos(old(self)),
            final(self).regs == old(self).regs,
            final(self).irq == old(self).irq,
            *final(self) == (Ppu { dma: DmaView { active, ..old(self).dma }, ..*old(self) }),
    {
        self.dma = DmaView { active, ..self.dma };
    }

    /// The frozen OAM DMA access, if any.
    pub fn oam_dma_freeze(&self) -> (r: Option<(u8, u8)>)
        ensures
            r == self.dma.freeze,
    {
        self.dma.freeze
    }

    /// Whether the scan's OAM view is disconnected by OAM DMA.
    pub fn oam_dma_scan_disconnected(&self) -> (r: bool)
        ensures
            r == self.dma.active,
    {
        self.dma.active
    }

    /// Raw (BG, OBJ) palette RAM, ungated.
    pub fn palette_ram(&self) -> (r: (&Vec<u8>, &Vec<u8>))
        ensures
            r.0@ == self.mem.bg_pal_ram@,
            r.1@ == self.mem.obj_pal_ram@,
    {
        (&self.mem.bg_pal_ram, &self.mem.obj_pal_ram)
    }

    /// VRAM read in the selected bank with no mode blocking (CGB HDMA and
    /// the side-effect-free peek).
    pub fn vram_read_raw(&self, addr: u16) -> (r: u8)
        requires
            self.wf(),
        ensures
            r == self.mem.vram@[self.spec_vram_index(addr)],
    {
        proof {
            reveal(super::mem_ok);
        }
        self.mem.vram[self.vram_index(addr)]
    }

    /// VRAM write in the selected bank with no mode blocking (CGB HDMA).
    pub fn vram_write_raw(&mut self, addr: u16, value: u8)
        requires
            old(self).wf(),
        ensures
            final(self).wf(),
            final(self).same_config(old(self)),
            final(self).same_pos(old(self)),
            final(self).irq == old(self).irq,
            final(self).mem.oam == old(self).mem.oam,
            final(self).mem.vram@ == old(self).mem.vram@.update(old(self).spec_vram_index(addr), value),
    {
        proof {
            reveal(super::mem_ok);
        }
        let i = self.vram_index(addr);
        self.mem.vram.set(i, value);
    }

    /// OAM read ignoring mode and DMA blocking.
    pub fn oam_read_raw(&self, addr: u16) -> (r: u8)
        requires
            self.wf(),
            0xFE00 <= addr <= 0xFE9F,
        ensures
            r == self.mem.oam@[addr - 0xFE00],
    {
        proof {
            reveal(super::mem_ok);
        }
        self.mem.oam[(addr - 0xFE00) as usize]
    }

    /// Power-on fill of VRAM (both banks) then OAM from `bytes`, in order;
    /// bytes past the 0x40A0 are ignored and memory past a short `bytes`
    /// keeps its contents.
    pub fn fill_video_ram(&mut self, bytes: &[u8])
        requires
            old(self).wf(),
        ensures
            final(self).wf(),
            final(self).same_config(old(self)),
            final(self).same_pos(old(self)),
            final(self).irq == old(self).irq,
            forall|i: int|
                0 <= i < 0x4000 ==> #[trigger] final(self).mem.vram@[i] == if i < bytes@.len() {
                    bytes@[i]
                } else {
                    old(self).mem.vram@[i]
                },
            forall|i: int|
                0 <= i < 0xA0 ==> #[trigger] final(self).mem.oam@[i] == if 0x4000 + i < bytes@.len() {
                    bytes@[0x4000 + i]
                } else {
                    old(self).mem.oam@[i]
                },
    {
        proof {
            reveal(super::mem_ok);
        }
        fill_from(&mut self.mem.vram, bytes, 0);
        fill_from(&mut self.mem.oam, bytes, 0x4000);
    }

    /// Both VRAM banks (bank 0 at 0..0x2000, bank 1 after), for the
    /// debugger.
    pub fn debug_vram(&self) -> (r: &Vec<u8>)
        ensures
            r@ == self.mem.vram@,
    {
        &self.mem.vram
    }

    /// The raw 160-byte OAM, for the debugger.
    pub fn debug_oam(&self) -> (r: &Vec<u8>)
        ensures
            r@ == self.mem.oam@,
    {
        &self.mem.oam
    }

    /// Raw CGB palette RAM `(BG, OBJ)`, for the debugger.
    pub fn debug_palette_ram(&self) -> (r: (&Vec<u8>, &Vec<u8>))
        ensures
            r.0@ == self.mem.bg_pal_ram@,
            r.1@ == self.mem.obj_pal_ram@,
    {
        (&self.mem.bg_pal_ram, &self.mem.obj_pal_ram)
    }

    /// Write an explicit VRAM bank (bit 0 of `bank`) independent of VBK, for
    /// the debugger's memory editor.
    pub fn debug_vram_write(&mut self, bank: u16, addr: u16, value: u8)
        requires
            old(self).wf(),
        ensures
            final(self).wf(),
            final(self).same_config(old(self)),
            final(self).same_pos(old(self)),
            final(self).irq == old(self).irq,
            final(self).mem.oam == old(self).mem.oam,
            final(self).mem.vram@ == old(self).mem.vram@.update(
                (bank % 2) * 0x2000 + addr % 0x2000,
                value,
            ),
    {
        proof {
            reveal(super::mem_ok);
        }
        let i = (bank % 2) as usize * 0x2000 + (addr % 0x2000) as usize;
        self.mem.vram.set(i, value);
    }

    /// A real hblank: mode 3 finished on a visible line (the line-start
    /// mode-0 window is excluded).
    pub open spec fn spec_hblank_active(&self) -> bool {
        self.enabled && self.line <= 143 && self.flags.render_finished
    }

    /// See [`Self::spec_hblank_active`].
    pub fn hblank_active(&self) -> (r: bool)
        ensures
            r == self.spec_hblank_active(),
    {
        self.enabled && self.line <= 143 && self.flags.render_finished
    }

    /// The HBlank DMA trigger level: the real hblank led by one dot.
    pub open spec fn spec_hdma_trigger_level(&self) -> bool {
        self.enabled && self.line <= 143 && (self.flags.render_finished || self.flags.hdma_lead)
    }

    /// See [`Self::spec_hdma_trigger_level`].
    pub fn hdma_trigger_level(&self) -> (r: bool)
        ensures
            r == self.spec_hdma_trigger_level(),
    {
        self.enabled && self.line <= 143 && (self.flags.render_finished || self.flags.hdma_lead)
    }

    /// The HBlank DMA trigger window: the trigger level, ending 3 dots
    /// before the line ends.
    pub fn hdma_period(&self) -> (r: bool)
        requires
            self.wf(),
        ensures
            r == (self.spec_hdma_trigger_level() && self.dot + 3 < line_len_of(self.glitch_line)),
    {
        let len = self.line_len();
        self.hdma_trigger_level() && self.dot + 3 < len
    }

    /// The scan position mapped back onto the frame before the STOP
    /// advances (`stop.lcd_shift_dots`): the machine advance
    /// subtracted, wrapping back across the line boundary.
    pub open spec fn spec_law_pos(&self) -> (u8, int) {
        let s = self.stop.lcd_shift_dots;
        if s == 0 || self.dot >= s {
            (self.line, self.dot - s)
        } else {
            (if self.line == 0 {
                153u8
            } else {
                (self.line - 1) as u8
            }, LINE_DOTS - (s - self.dot))
        }
    }

    /// See [`Self::spec_law_pos`].
    pub fn law_pos(&self) -> (r: (u8, u16))
        requires
            self.stop.lcd_shift_dots <= self.dot + LINE_DOTS,
        ensures
            (r.0, r.1 as int) == self.spec_law_pos(),
    {
        let s = self.stop.lcd_shift_dots;
        if s == 0 {
            return (self.line, self.dot);
        }
        if self.dot >= s {
            (self.line, self.dot - s)
        } else {
            let prev: u8 = if self.line == 0 {
                153
            } else {
                self.line - 1
            };
            (prev, LINE_DOTS - (s - self.dot))
        }
    }

    /// The HBlank DMA trigger window classified on the frame before the STOP
    /// advances: with no advance it is [`Self::hdma_period`]; otherwise the
    /// trigger level, with the mapped-back position on this same line and
    /// more than 3 dots before its end.
    pub fn hdma_period_law(&self) -> (r: bool)
        requires
            self.wf(),
            self.stop.lcd_shift_dots <= self.dot + LINE_DOTS,
        ensures
            self.stop.lcd_shift_dots == 0 ==> r == (self.spec_hdma_trigger_level() && self.dot + 3 < line_len_of(
                self.glitch_line,
            )),
            self.stop.lcd_shift_dots != 0 ==> r == (self.spec_hdma_trigger_level() && self.spec_law_pos().0
                == self.line && self.spec_law_pos().1 + 3 < line_len_of(self.glitch_line)),
    {
        if self.stop.lcd_shift_dots == 0 {
            return self.hdma_period();
        }
        let len = self.line_len();
        let (ll, ld) = self.law_pos();
        self.hdma_trigger_level() && ll == self.line && (ld as u32) + 3 < len as u32
    }

    /// LCDC bit 7 as committed.
    pub fn lcd_enabled(&self) -> (r: bool)
        ensures
            r == self.enabled,
    {
        self.enabled
    }

    /// The current `(line, dot)` scan position.
    pub fn scan_pos(&self) -> (r: (u8, u16))
        ensures
            r == (self.line, self.dot),
    {
        (self.line, self.dot)
    }

    /// Whether the PPU is on the LCD-enable line (452 dots, shifted mode 3).
    pub fn glitch_active(&self) -> (r: bool)
        ensures
            r == self.glitch_line,
    {
        self.glitch_line
    }

    /// XRGB8888 pixels of the most recently completed frame.
    pub fn frame(&self) -> (r: &Vec<u32>)
        requires
            self.wf(),
        ensures
            r@ == self.front@,
            r@.len() == SCREEN_PIXELS,
    {
        proof {
            reveal(super::frames_ok);
        }
        &self.front
    }

    /// Completed frames since power-on (frozen while the LCD is off).
    pub fn frame_count(&self) -> (r: u64)
        ensures
            r == self.frame_count,
    {
        self.frame_count
    }

    /// The XRGB8888 colors DMG shades 0-3 map to.
    pub fn set_dmg_palette(&mut self, palette: [u32; 4])
        requires
            old(self).wf(),
        ensures
            final(self).wf(),
            final(self).dmg_palette == palette,
            final(self).same_pos(old(self)),
            final(self).regs == old(self).regs,
            final(self).same_memory(old(self)),
            final(self).irq == old(self).irq,
            final(self).sgb_mono == old(self).sgb_mono,
            *final(self) == (Ppu { dmg_palette: palette, ..*old(self) }),
    {
        self.dmg_palette = palette;
    }

    /// Render the SGB game screen in the plain DMG palette instead of the
    /// SGB cell colors.
    pub fn set_sgb_mono(&mut self, on: bool)
        requires
            old(self).wf(),
        ensures
            final(self).wf(),
            final(self).sgb_mono == on,
            final(self).same_pos(old(self)),
            final(self).regs == old(self).regs,
            final(self).same_memory(old(self)),
            final(self).irq == old(self).irq,
            final(self).dmg_palette == old(self).dmg_palette,
            *final(self) == (Ppu { sgb_mono: on, ..*old(self) }),
    {
        self.sgb_mono = on;
    }

    /// DMG compatibility rendering on a CGB model (CGB hardware running a
    /// DMG cart).
    pub fn set_dmg_compat(&mut self, compat: bool)
        requires
            old(self).wf(),
        ensures
            final(self).wf(),
            final(self).regs == (Regs { dmg_compat: compat, ..old(self).regs }),
            final(self).same_pos(old(self)),
            final(self).same_memory(old(self)),
            final(self).irq == old(self).irq,
            *final(self) == (Ppu { regs: Regs { dmg_compat: compat, ..old(self).regs }, ..*old(self) }),
    {
        self.regs = Regs { dmg_compat: compat, ..self.regs };
    }
}

/// Overwrite `dst[i]` with `src[off + i]` wherever `src` reaches.
pub fn fill_from(dst: &mut Vec<u8>, src: &[u8], off: usize)
    requires
        off <= 0x4000,
    ensures
        final(dst)@.len() == old(dst)@.len(),
        forall|i: int|
            0 <= i < old(dst)@.len() ==> #[trigger] final(dst)@[i] == if off + i < src@.len() {
                src@[off + i]
            } else {
                old(dst)@[i]
            },
{
    let mut i: usize = 0;
    while i < dst.len()
        invariant
            0 <= i <= dst@.len(),
            off <= 0x4000,
            dst@.len() == old(dst)@.len(),
            forall|k: int|
                0 <= k < dst@.len() ==> #[trigger] dst@[k] == if k < i && off + k < src@.len() {
                    src@[off + k]
                } else {
                    old(dst)@[k]
                },
        decreases dst@.len() - i,
    {
        if i < src.len() && off <= src.len() - i - 1 {
            dst.set(i, src[off + i]);
        }
        i += 1;
    }
}

} // verus!
