//! Dot-accurate PPU with a pixel FIFO, stepped one dot (T-cycle) at a time.
//!
//! Mode timing is exact: variable-length mode 3 (SCX fine scroll, window,
//! sprite fetch stalls), STAT interrupt events with their blocking rules,
//! the LY=153→0 early wrap and the LCD-enable first-line quirks. DMG output
//! goes through BGP/OBP and a configurable four-shade palette (or the SGB
//! colorization); CGB output goes through BG/OBJ palette RAM with VRAM bank 1
//! attributes and OPRI object priority.
//!
//! Within a 456-dot line, dot 0 is the dot where LY changes; "state(T)" is the
//! state a CPU read observes after T dots have been ticked.
//!
//! | dot   | event |
//! |-------|-------|
//! | 0     | LY := line; OAM reads blocked; LYC compare invalid; STAT mode reads 0; OAM (mode-2) IRQ pulse on lines 1-144 |
//! | 4     | STAT mode reads 2; OAM writes blocked; LYC compare valid |
//! | 80    | VRAM reads blocked (83 on CGB) |
//! | 84    | STAT mode reads 3; VRAM writes blocked; the pixel pipe starts |
//! | P − 2 | mode 0: STAT reads 0, mode-0 IRQ source rises, OAM+VRAM unblock — two dots before the pipe end P = 256 + SCX%8 + penalties |
//!
//! The LCD-enable line is 452 dots long, has no OAM scan, and blocks from dot
//! 78 with its pipe starting at dot 82.
use vstd::prelude::*;
use crate::bits::{lemma_or_stat, lemma_or_vblank};
use crate::buf::{filled_u32, filled_u8};
use crate::model::{spec_is_cgb, spec_is_sgb, Model};
use crate::sgb::{dmg_shade, SgbView, FADE_LEN};
use crate::SCREEN_PIXELS;

pub mod access;
pub mod blocking;
pub mod engine;
pub mod laws;
pub mod lyc;
pub mod pipeline;
pub mod regs;
pub mod render;
pub mod sgb_link;
pub mod sprite;
pub mod stat;
pub mod window;
pub mod write;


verus! {

/// Dots per normal scanline.
pub const LINE_DOTS: u16 = 456;
/// The first line after LCD enable is 4 dots short.
pub const GLITCH_LINE_DOTS: u16 = 452;
/// Mode 3 / blocking start on the LCD-enable line.
pub const GLITCH_MODE3_START: u16 = 78;

/// LCDC bit 7: LCD & PPU enable.
pub const LCDC_ENABLE: u8 = 0x80;
/// LCDC bit 6: window tile map area (0 = 9800, 1 = 9C00).
pub const LCDC_WIN_MAP: u8 = 0x40;
/// LCDC bit 5: window enable.
pub const LCDC_WIN_ENABLE: u8 = 0x20;
/// LCDC bit 4: BG/window tile data area (1 = unsigned 8000 addressing).
pub const LCDC_TILE_DATA: u8 = 0x10;
/// LCDC bit 3: BG tile map area (0 = 9800, 1 = 9C00).
pub const LCDC_BG_MAP: u8 = 0x08;
/// LCDC bit 2: OBJ size (0 = 8x8, 1 = 8x16).
pub const LCDC_OBJ_SIZE: u8 = 0x04;
/// LCDC bit 1: OBJ enable.
pub const LCDC_OBJ_ENABLE: u8 = 0x02;
/// LCDC bit 0: BG/window enable (DMG) / BG master priority (CGB).
pub const LCDC_BG_ENABLE: u8 = 0x01;

/// STAT bit 6: LYC=LY interrupt source enable.
pub const STAT_SRC_LYC: u8 = 0x40;
/// STAT bit 5: mode-2 (OAM) interrupt source enable.
pub const STAT_SRC_OAM: u8 = 0x20;
/// STAT bit 4: mode-1 (VBlank) interrupt source enable.
pub const STAT_SRC_VBLANK: u8 = 0x10;
/// STAT bit 3: mode-0 (HBlank) interrupt source enable.
pub const STAT_SRC_HBLANK: u8 = 0x08;
/// All four interrupt source enables: the writable FF41 bits.
pub const STAT_SRC_ALL: u8 = 0x78;

/// IF bit 0: VBlank interrupt.
pub const IF_VBLANK: u8 = 0x01;
/// IF bit 1: STAT interrupt.
pub const IF_STAT: u8 = 0x02;

/// The serial OAM scan latches entry `i` on line dot `2i + SCAN_OFF`.
pub const SCAN_OFF: u16 = 3;

/// The pixel pipeline's live view of the rendering registers: identical to
/// the architectural registers except inside a write M-cycle, where the bus
/// drives the new value about two dots before the tick-then-access commit.
#[derive(Clone, Copy)]
pub struct PipeRegs {
    pub lcdc: u8,
    pub scy: u8,
    pub scx: u8,
    pub bgp: u8,
    pub obp0: u8,
    pub obp1: u8,
    pub wy: u8,
    pub wx: u8,
}

/// An IO write in flight on the bus, expiring into [`PipeRegs`] mid-cycle.
#[derive(Clone, Copy)]
pub struct StagedWrite {
    pub addr: u16,
    pub value: u8,
    /// Dots until the new value drives the pipeline's register view.
    pub dots_left: u8,
}

/// One OAM entry selected by the scan.
#[derive(Clone, Copy)]
pub struct Sprite {
    pub y: u8,
    pub x: u8,
    pub tile: u8,
    pub flags: u8,
    pub idx: u8,
}

/// One pending sprite pixel, aligned to upcoming output positions.
#[derive(Clone, Copy)]
pub struct SpritePixel {
    pub color: u8,
    /// DMG: OBP number (0/1); CGB: palette index 0-7.
    pub palette: u8,
    /// OAM attribute bit 7 (BG-over-OBJ).
    pub bg_priority: bool,
    /// OAM index, for CGB priority resolution.
    pub oam_idx: u8,
}

/// BG/window fetcher state. Each of the three VRAM reads takes 2 dots
/// (a wait state then the read); the push retries every dot until the FIFO
/// drains.
#[derive(Clone, Copy, PartialEq, Eq, Structural, Debug)]
pub enum FetchPhase {
    TileNoWait,
    TileNo,
    LoWait,
    Lo,
    HiWait,
    Hi,
    Push,
}

/// The pipeline's position counters.
#[derive(Clone, Copy)]
pub struct PipePos {
    /// Next output pixel x (0-159).
    pub lx: u8,
    /// Leading pixels still to discard.
    pub discard: u8,
    /// Mode-3 dots elapsed.
    pub mode3_dot: u16,
    /// Pause-aware mode-3 dot (frozen through stalls): the WX comparator's clock.
    pub pos_dot: u16,
    /// SCX fine-scroll position comparator index.
    pub hunt_idx: u8,
    /// The comparator matched: the fine-scroll discard is locked in.
    pub hunt_done: bool,
    /// The SCX&7 value the comparator matched.
    pub hunt_fine: u8,
    /// Pipeline frozen for this many dots (sprite fetches, window starts).
    pub stall: u16,
    /// BG fetcher dots that keep running in real time during a stall.
    pub fetch_run: u16,
    /// Pause-aware prefill position (0..=8).
    pub prefill_pos: u8,
}

/// The BG pixel FIFO: one tile row as shift registers.
#[derive(Clone, Copy)]
pub struct BgFifo {
    pub lo: u8,
    pub hi: u8,
    pub attr: u8,
    pub count: u8,
}

/// The BG/window fetcher.
#[derive(Clone, Copy)]
pub struct Fetcher {
    pub phase: FetchPhase,
    /// Tile column counter (BG: added to SCX/8; window: from 0).
    pub fetch_x: u8,
    /// Fetching window tiles instead of BG.
    pub win_mode: bool,
    /// The first fetch of the line is thrown away.
    pub first_discard: bool,
    pub t_no: u8,
    pub t_attr: u8,
    pub t_lo: u8,
    pub t_hi: u8,
}

/// The window machine's per-line state.
#[derive(Clone, Copy)]
pub struct WinRender {
    pub active: bool,
    /// A window start stalled this line.
    pub stalled: bool,
    /// The window was aborted mid-line by an LCDC.5 clear (DMG).
    pub aborted: bool,
    /// WX comparator output on the previous dot (rising-edge trigger).
    pub match_prev: bool,
    /// The dot the WX comparator first matched this line (0 = not yet).
    pub wx_match_dot: u16,
    /// A match that failed only on the WY latch stays live until this dot.
    pub pending_until: u16,
}

/// The mode-3 pixel pipeline.
pub struct Render {
    pub active: bool,
    pub pos: PipePos,
    pub fifo: BgFifo,
    pub fetch: Fetcher,
    /// Sprites selected by the OAM scan (10 slots, `n_sprites` used).
    pub sprites: Vec<Sprite>,
    pub n_sprites: u8,
    /// Bit `i`: selected sprite `i` has been fetched this line.
    pub fetched: u16,
    /// BG tiles that already paid the first-sprite alignment penalty.
    pub penalty_tiles: u64,
    /// Pending sprite pixels for the next 8 output positions.
    pub sp_fifo: Vec<SpritePixel>,
    pub win: WinRender,
}

/// The architectural PPU registers.
#[derive(Clone, Copy)]
pub struct Regs {
    pub lcdc: u8,
    /// STAT bits 3-6 (interrupt source enables).
    pub stat_en: u8,
    pub scy: u8,
    pub scx: u8,
    pub lyc: u8,
    pub bgp: u8,
    pub obp0: u8,
    pub obp1: u8,
    pub wy: u8,
    pub wx: u8,
    /// CGB VRAM bank select (bit 0).
    pub vbk: u8,
    /// CGB object priority mode (FF6C bit 0: 1 = DMG-style X priority).
    pub opri: u8,
    pub bcps: u8,
    pub ocps: u8,
    /// CGB hardware running a DMG cart.
    pub dmg_compat: bool,
}

/// Video memory.
pub struct VideoMem {
    /// 16 KiB: bank 0 at 0..0x2000, bank 1 at 0x2000..0x4000.
    pub vram: Vec<u8>,
    /// 160 bytes: 40 entries of 4.
    pub oam: Vec<u8>,
    pub bg_pal_ram: Vec<u8>,
    pub obj_pal_ram: Vec<u8>,
}

/// The OAM DMA controller as the scan sees it.
#[derive(Clone, Copy)]
pub struct DmaView {
    /// OAM DMA frozen mid-byte by HALT/STOP: (OAM index, in-flight byte).
    pub freeze: Option<(u8, u8)>,
    /// The OAM DMA controller owns OAM: the scan latches $FF.
    pub active: bool,
}

/// The STOP speed-switch bookkeeping the machine keeps on the PPU: the LCD
/// timeline shift a STOP advance applied, and the post-switch anchors of the
/// frame it landed in.
#[derive(Clone, Copy)]
pub struct StopAnchors {
    /// Dots the machine advanced the LCD during STOP speed switches.
    pub lcd_shift_dots: u16,
    /// The first LCD-on switching STOP since the last LCD enable was seen.
    pub anchor_set: bool,
    /// That STOP landed inside the visible part of the frame.
    pub anchor_midframe: bool,
    /// A double-to-single-speed STOP leave happened with the LCD on.
    pub leave_lcd_on: bool,
    /// The leave advance, in half-dots.
    pub leave_k: u8,
    /// The LCD was last enabled in double speed.
    pub enable_in_ds: bool,
}

/// The STAT/LYC interrupt machinery.
#[derive(Clone, Copy)]
pub struct IrqState {
    /// LY=LYC comparison flag (STAT bit 2).
    pub coincidence: bool,
    /// The IRQ-side LY=LYC comparison.
    pub coincidence_irq: bool,
    /// Level of the shared STAT interrupt line (register-write edges).
    pub stat_line: bool,
    /// IF bits produced but not yet handed out.
    pub pending_if: u8,
    /// The STAT IF just produced misses the CPU's interrupt sample this cycle.
    pub stat_late: bool,
    /// The STAT IF just produced is missed by the halt-exit sampler this cycle.
    pub stat_halt_late: bool,
    /// The STAT IF handed out by the last tick came from the mode-0 rise.
    pub m0_rise: bool,
    /// Dots until a CGB-deferred FF45-write STAT IRQ is emitted.
    pub lyc_if_delay: u8,
    /// CGB: the delayed FF45 copy the line-start LYC event samples.
    pub lyc_event: u8,
    /// Delayed FF41 copy for the m0/m1/m2 event predicates.
    pub stat_ev: u8,
    pub stat_ev_staged: Option<(u8, u8)>,
    /// Delayed FF45 copy for the m0/m2 event predicates.
    pub lyc_ev_m: u8,
    pub lyc_ev_m_staged: Option<(u8, u8)>,
    /// Delayed FF41 copy for the LYC event predicate.
    pub stat_lyc_ev: u8,
    pub stat_lyc_ev_staged: Option<(u8, u8)>,
}

/// The end-of-line edges of the current line.
#[derive(Clone, Copy)]
pub struct LineFlags {
    /// The externally visible mode-0 flip.
    pub line_render_done: bool,
    /// The mode-0 STAT IRQ source level.
    pub m0_src: bool,
    /// `m0_src` rose on the current dot.
    pub m0_rise_dot: bool,
    /// Mode 3 actually finished (pixel 160 shipped).
    pub render_finished: bool,
    /// Pixel 159 shipped: the HBlank DMA trigger leads the pipe end by a dot.
    pub hdma_lead: bool,
    pub m0_access_flip: Option<i8>,
    pub pal_access_flip: Option<i8>,
    pub m0_stat_flip: Option<i8>,
}

/// The frame's window latches.
#[derive(Clone, Copy)]
pub struct WinLatch {
    /// The frame-sticky window-Y latch.
    pub wy_triggered: bool,
    /// The dot `wy_triggered` was set.
    pub wy_trig_dot: u16,
    /// Window internal line counter.
    pub win_line: u8,
    /// DMG: a WX=166 window-start request carried to the next line.
    pub start_pending: bool,
}

/// The picture processing unit.
pub struct Ppu {
    pub model: Model,
    pub frame_count: u64,
    pub regs: Regs,
    pub mem: VideoMem,
    pub dma: DmaView,
    pub enabled: bool,
    /// Internal line counter 0..=153.
    pub line: u8,
    /// Dot within the line.
    pub dot: u16,
    /// LY as read through FF44 (153-quirk aware).
    pub ly: u8,
    /// First line after LCD enable (no OAM scan, shifted mode 3, 452 dots).
    pub glitch_line: bool,
    /// The frame being rendered is the first after an LCD enable (not shown).
    pub frame_skip: bool,
    pub flags: LineFlags,
    pub irq: IrqState,
    pub window: WinLatch,
    /// CGB double speed is engaged.
    pub ds: bool,
    pub eff: PipeRegs,
    pub staged: Option<StagedWrite>,
    pub render: Render,
    /// The most recently completed frame (XRGB8888).
    pub front: Vec<u32>,
    /// The frame being rendered.
    pub back: Vec<u32>,
    pub dmg_palette: [u32; 4],
    /// Render the SGB game screen in the plain DMG palette.
    pub sgb_mono: bool,
    /// Super Game Boy presentation state, on SGB models only.
    pub sgb: Option<SgbView>,
    /// The double-speed alignment phase, mod 8: two half-dots per dot.
    pub sb_dsa8: u8,
    /// The half-dot phase within the current dot: 1 after the first half
    /// of a dot was clocked by [`Ppu::tick_half`], else 0.
    pub dhalf: u8,
    pub stop: StopAnchors,
}

/// A staged delayed-copy slot always has at least one dot left.
pub open spec fn staged_ok(s: Option<(u8, u8)>) -> bool {
    match s {
        Some(p) => p.1 >= 1,
        None => true,
    }
}

impl SpritePixel {
    /// Color and palette fit the palette tables.
    pub open spec fn wf(&self) -> bool {
        self.color < 4 && self.palette < 8
    }
}

impl Render {
    /// Buffer sizes and counter ranges the pipeline relies on.
    #[verifier::opaque]
    pub open spec fn wf(&self) -> bool {
        &&& self.sprites@.len() == 10
        &&& self.sp_fifo@.len() == 8
        &&& forall|i: int| 0 <= i < 8 ==> #[trigger] self.sp_fifo@[i].wf()
        &&& self.n_sprites <= 10
        &&& self.pos.lx <= 160
        &&& (self.active ==> self.pos.lx < 160)
        &&& self.fifo.count <= 8
        &&& self.pos.prefill_pos <= 8
        &&& self.pos.hunt_idx < 8
        &&& self.pos.hunt_fine < 8
        &&& self.pos.pos_dot <= self.pos.mode3_dot
    }
}

/// VRAM, OAM and both palette RAMs have their hardware sizes.
#[verifier::opaque]
pub open spec fn mem_ok(vram: Seq<u8>, oam: Seq<u8>, bg: Seq<u8>, obj: Seq<u8>) -> bool {
    vram.len() == 0x4000 && oam.len() == 0xA0 && bg.len() == 64 && obj.len() == 64
}

/// Both frame buffers hold one screen.
#[verifier::opaque]
pub open spec fn frames_ok(front: Seq<u32>, back: Seq<u32>) -> bool {
    front.len() == SCREEN_PIXELS && back.len() == SCREEN_PIXELS
}

/// The SGB layer exists exactly on SGB models, well formed.
#[verifier::opaque]
pub open spec fn sgb_ok(model: Model, sgb: Option<SgbView>) -> bool {
    &&& (sgb is Some <==> spec_is_sgb(model))
    &&& (sgb matches Some(s) ==> s.wf())
}

/// This line's dot length: 452 on the LCD-enable line, else 456.
pub open spec fn line_len_of(glitch: bool) -> u16 {
    if glitch {
        GLITCH_LINE_DOTS
    } else {
        LINE_DOTS
    }
}

impl Ppu {
    /// The buffers have their hardware sizes, the position is on the frame
    /// grid (a switched-off LCD rests at line 0, dot 0), the visible LY
    /// tracks the line, and the pipeline counters are in range.
    pub open spec fn wf(&self) -> bool {
        &&& mem_ok(self.mem.vram@, self.mem.oam@, self.mem.bg_pal_ram@, self.mem.obj_pal_ram@)
        &&& frames_ok(self.front@, self.back@)
        &&& self.line <= 153
        &&& self.dot < line_len_of(self.glitch_line)
        &&& (self.glitch_line ==> self.line == 0)
        &&& (self.line <= 143 ==> self.ly == self.line)
        &&& (self.render.active && self.line <= 143 ==> self.render.pos.mode3_dot <= self.dot)
        &&& self.render.wf()
        &&& staged_ok(self.irq.stat_ev_staged)
        &&& staged_ok(self.irq.lyc_ev_m_staged)
        &&& staged_ok(self.irq.stat_lyc_ev_staged)
        &&& self.irq.pending_if < 4
        &&& self.regs.vbk <= 1
        &&& self.regs.stat_en == self.regs.stat_en & STAT_SRC_ALL
        &&& self.enabled == (self.regs.lcdc & 0x80 != 0)
        &&& (!self.enabled ==> self.line == 0 && self.dot == 0 && self.ly == 0)
        &&& sgb_ok(self.model, self.sgb)
    }

    /// Whether this PPU runs the Color-family pipeline.
    pub open spec fn cgb(&self) -> bool {
        spec_is_cgb(self.model)
    }

    /// The architectural registers and configuration, which the dot clock
    /// never changes.
    #[verifier::inline]
    pub open spec fn same_config(&self, o: &Ppu) -> bool {
        &&& self.model == o.model
        &&& self.enabled == o.enabled
        &&& self.regs == o.regs
        &&& self.ds == o.ds
        &&& self.sgb_mono == o.sgb_mono
        &&& self.dmg_palette == o.dmg_palette
        &&& self.dma == o.dma
        &&& self.stop == o.stop
    }

    /// The scan position and frame counters.
    #[verifier::inline]
    pub open spec fn same_pos(&self, o: &Ppu) -> bool {
        &&& self.line == o.line
        &&& self.dot == o.dot
        &&& self.ly == o.ly
        &&& self.glitch_line == o.glitch_line
        &&& self.frame_count == o.frame_count
        &&& self.frame_skip == o.frame_skip
        &&& self.sb_dsa8 == o.sb_dsa8
        &&& self.dhalf == o.dhalf
    }

    /// What a pixel-pipeline step leaves alone: registers, position,
    /// memory, interrupt state, the pipeline register view and the presented
    /// frame.
    #[verifier::inline]
    pub open spec fn pipe_frame(&self, o: &Ppu) -> bool {
        &&& self.same_config(o)
        &&& self.same_pos(o)
        &&& self.same_memory(o)
        &&& self.irq == o.irq
        &&& self.eff == o.eff
        &&& self.staged == o.staged
        &&& self.front == o.front
    }

    /// Everything but the pixel pipeline is unchanged.
    #[verifier::inline]
    pub open spec fn only_render_changed(&self, o: &Ppu) -> bool {
        &&& self.same_config(o)
        &&& self.same_pos(o)
        &&& self.same_memory(o)
        &&& self.flags == o.flags
        &&& self.irq == o.irq
        &&& self.window == o.window
        &&& self.eff == o.eff
        &&& self.staged == o.staged
        &&& self.front == o.front
        &&& self.back == o.back
        &&& self.sgb == o.sgb
    }

    /// Everything but the interrupt machinery is unchanged.
    #[verifier::inline]
    pub open spec fn only_irq_changed(&self, o: &Ppu) -> bool {
        &&& self.same_config(o)
        &&& self.same_pos(o)
        &&& self.same_memory(o)
        &&& self.flags == o.flags
        &&& self.window == o.window
        &&& self.eff == o.eff
        &&& self.staged == o.staged
        &&& self.front == o.front
        &&& self.back == o.back
        &&& self.sgb == o.sgb
        &&& self.render == o.render
    }

    /// Everything but the registers and the interrupt machinery is unchanged.
    #[verifier::inline]
    pub open spec fn same_machine(&self, o: &Ppu) -> bool {
        &&& self.model == o.model
        &&& self.enabled == o.enabled
        &&& self.ds == o.ds
        &&& self.sgb_mono == o.sgb_mono
        &&& self.dmg_palette == o.dmg_palette
        &&& self.dma == o.dma
        &&& self.stop == o.stop
        &&& self.same_pos(o)
        &&& self.same_memory(o)
        &&& self.flags == o.flags
        &&& self.window == o.window
        &&& self.eff == o.eff
        &&& self.staged == o.staged
        &&& self.front == o.front
        &&& self.back == o.back
        &&& self.sgb == o.sgb
        &&& self.render == o.render
    }

    /// Everything but the SGB presentation layer is unchanged.
    #[verifier::inline]
    pub open spec fn only_sgb_changed(&self, o: &Ppu) -> bool {
        &&& self.same_config(o)
        &&& self.same_pos(o)
        &&& self.same_memory(o)
        &&& self.flags == o.flags
        &&& self.irq == o.irq
        &&& self.window == o.window
        &&& self.eff == o.eff
        &&& self.staged == o.staged
        &&& self.front == o.front
        &&& self.back == o.back
        &&& self.render == o.render
        &&& (self.sgb is Some <==> o.sgb is Some)
    }

    /// Everything but the window latches is unchanged.
    #[verifier::inline]
    pub open spec fn only_window_changed(&self, o: &Ppu) -> bool {
        &&& self.same_config(o)
        &&& self.same_pos(o)
        &&& self.same_memory(o)
        &&& self.flags == o.flags
        &&& self.irq == o.irq
        &&& self.eff == o.eff
        &&& self.staged == o.staged
        &&& self.front == o.front
        &&& self.back == o.back
        &&& self.sgb == o.sgb
        &&& self.render == o.render
    }

    /// Video memory: VRAM, OAM and both palette RAMs.
    #[verifier::inline]
    pub open spec fn same_memory(&self, o: &Ppu) -> bool {
        &&& self.mem.vram == o.mem.vram
        &&& self.mem.oam == o.mem.oam
        &&& self.mem.bg_pal_ram == o.mem.bg_pal_ram
        &&& self.mem.obj_pal_ram == o.mem.obj_pal_ram
    }
}

/// Boolean or.
pub open spec fn either(a: bool, b: bool) -> bool {
    a || b
}

/// Boolean or, evaluated without short-circuit branching.
pub fn or_bool(a: bool, b: bool) -> (r: bool)
    ensures
        r == either(a, b),
{
    a || b
}

/// The IF accumulator `acc` with `bit` raised when `raise`.
pub open spec fn raised(acc: u8, raise: bool, bit: u8) -> u8 {
    if raise {
        acc | bit
    } else {
        acc
    }
}

/// The IF accumulator `acc` (0-3) with `bit` (1 or 2) raised when `raise`.
pub fn raise_if(acc: u8, raise: bool, bit: u8) -> (r: u8)
    requires
        acc < 4,
        bit == 1 || bit == 2,
    ensures
        r == raised(acc, raise, bit),
        r < 4,
        raise && bit == 2 ==> r & 2 != 0 && r & 1 == acc & 1,
        raise && bit == 1 ==> r & 1 != 0 && r & 2 == acc & 2,
{
    if raise {
        proof {
            lemma_or_stat(acc);
            lemma_or_vblank(acc);
        }
        acc | bit
    } else {
        acc
    }
}

/// The empty sprite-FIFO slot.
pub open spec fn empty_pixel_spec() -> SpritePixel {
    SpritePixel { color: 0, palette: 0, bg_priority: false, oam_idx: 0xFF }
}

/// The empty sprite-FIFO slot.
pub fn empty_pixel() -> (p: SpritePixel)
    ensures
        p == empty_pixel_spec(),
{
    SpritePixel { color: 0, palette: 0, bg_priority: false, oam_idx: 0xFF }
}

/// Eight empty sprite-FIFO slots.
pub fn empty_fifo() -> (v: Vec<SpritePixel>)
    ensures
        v@.len() == 8,
        forall|i: int| 0 <= i < 8 ==> #[trigger] v@[i] == empty_pixel_spec(),
{
    let mut v: Vec<SpritePixel> = Vec::new();
    let mut i: usize = 0;
    while i < 8
        invariant
            0 <= i <= 8,
            v@.len() == i,
            forall|j: int| 0 <= j < i ==> #[trigger] v@[j] == empty_pixel_spec(),
        decreases 8 - i,
    {
        v.push(empty_pixel());
        i += 1;
    }
    v
}

/// Ten cleared sprite slots.
pub fn empty_sprites() -> (v: Vec<Sprite>)
    ensures
        v@.len() == 10,
{
    let mut v: Vec<Sprite> = Vec::new();
    let mut i: usize = 0;
    while i < 10
        invariant
            0 <= i <= 10,
            v@.len() == i,
        decreases 10 - i,
    {
        v.push(Sprite { y: 0, x: 0, tile: 0, flags: 0, idx: 0 });
        i += 1;
    }
    v
}

impl Render {
    /// An idle pipeline.
    pub fn new() -> (r: Render)
        ensures
            r.wf(),
            !r.active,
            r.n_sprites == 0,
            r.pos.lx == 0,
    {
        let r = Render {
            active: false,
            pos: PipePos {
                lx: 0,
                discard: 0,
                mode3_dot: 0,
                pos_dot: 0,
                hunt_idx: 0,
                hunt_done: false,
                hunt_fine: 0,
                stall: 0,
                fetch_run: 0,
                prefill_pos: 0,
            },
            fifo: BgFifo { lo: 0, hi: 0, attr: 0, count: 0 },
            fetch: Fetcher {
                phase: FetchPhase::TileNoWait,
                fetch_x: 0,
                win_mode: false,
                first_discard: true,
                t_no: 0,
                t_attr: 0,
                t_lo: 0,
                t_hi: 0,
            },
            sprites: empty_sprites(),
            n_sprites: 0,
            fetched: 0,
            penalty_tiles: 0,
            sp_fifo: empty_fifo(),
            win: WinRender {
                active: false,
                stalled: false,
                aborted: false,
                match_prev: false,
                wx_match_dot: 0,
                pending_until: 0,
            },
        };
        proof {
            reveal(Render::wf);
        }
        r
    }
}

impl Ppu {
    /// A powered-on PPU with the LCD off: registers cleared, VRAM and OAM
    /// zeroed, palette RAM $FF, both frames white, the default DMG greyscale,
    /// and the SGB presentation layer on SGB models.
    pub fn new(model: Model) -> (p: Ppu)
        ensures
            p.wf(),
            p.model == model,
            !p.enabled,
            p.line == 0 && p.dot == 0 && p.ly == 0,
            p.frame_count == 0,
            p.regs.lcdc == 0 && p.regs.stat_en == 0 && p.regs.scy == 0 && p.regs.scx == 0 && p.regs.lyc
                == 0,
            p.regs.bgp == 0 && p.regs.obp0 == 0 && p.regs.obp1 == 0 && p.regs.wy == 0 && p.regs.wx == 0,
            p.regs.vbk == 0 && p.regs.opri == 0 && p.regs.bcps == 0 && p.regs.ocps == 0
                && !p.regs.dmg_compat,
            forall|i: int| 0 <= i < 0x4000 ==> #[trigger] p.mem.vram@[i] == 0,
            forall|i: int| 0 <= i < 0xA0 ==> #[trigger] p.mem.oam@[i] == 0,
            forall|i: int|
                0 <= i < 64 ==> #[trigger] p.mem.bg_pal_ram@[i] == 0xFF && p.mem.obj_pal_ram@[i] == 0xFF,
            forall|i: int| 0 <= i < SCREEN_PIXELS ==> #[trigger] p.front@[i] == 0xFF_FFFF,
            p.dmg_palette == [0xFF_FFFFu32, 0xAA_AAAAu32, 0x55_5555u32, 0x00_0000u32],
            p.irq.pending_if == 0,
            p.staged is None,
            p.sb_dsa8 == 0,
            p.dhalf == 0,
            p.stop == (StopAnchors {
                lcd_shift_dots: 0,
                anchor_set: false,
                anchor_midframe: false,
                leave_lcd_on: false,
                leave_k: 2,
                enable_in_ds: false,
            }),
            !p.render.active,
            forall|i: int| 0 <= i < SCREEN_PIXELS ==> #[trigger] p.back@[i] == 0xFF_FFFF,
            !p.ds,
            !p.sgb_mono,
            p.dma == (DmaView { freeze: None, active: false }),
            !p.glitch_line && !p.frame_skip,
            p.flags == (LineFlags {
                line_render_done: true,
                m0_src: false,
                m0_rise_dot: false,
                render_finished: true,
                hdma_lead: false,
                m0_access_flip: None,
                pal_access_flip: None,
                m0_stat_flip: None,
            }),
            p.irq == (IrqState {
                coincidence: false,
                coincidence_irq: false,
                stat_line: false,
                pending_if: 0,
                stat_late: false,
                stat_halt_late: false,
                m0_rise: false,
                lyc_if_delay: 0,
                lyc_event: 0,
                stat_ev: 0,
                stat_ev_staged: None,
                lyc_ev_m: 0,
                lyc_ev_m_staged: None,
                stat_lyc_ev: 0,
                stat_lyc_ev_staged: None,
            }),
            p.window == (WinLatch { wy_triggered: false, wy_trig_dot: 0, win_line: 0xFF, start_pending: false }),
            p.eff == (PipeRegs { lcdc: 0, scy: 0, scx: 0, bgp: 0, obp0: 0, obp1: 0, wy: 0, wx: 0 }),
            p.render.n_sprites == 0 && p.render.pos.lx == 0,
            spec_is_sgb(model) ==> (p.sgb matches Some(s) && {
                &&& forall|q: int, e: int| 0 <= q < 4 && 0 <= e < 4 ==> #[trigger] s.spec_pal(q, e) == dmg_shade(e)
                &&& forall|i: int| 0 <= i < 360 ==> #[trigger] s.attr@[i] == 0
                &&& s.mask == 0 && s.pending_transfer is None && !s.has_chr && !s.has_pct
                &&& s.fade == FADE_LEN && !s.fade_pending
                &&& s.sound_events@.len() == 0 && s.data_snd@.len() == 0 && s.jump is None
                &&& !s.atrc_en && !s.test_en && !s.icon_en && !s.pal_pri
            }),
            !spec_is_sgb(model) ==> p.sgb is None,
    {
        let sgb = if model.is_sgb() {
            Some(SgbView::new())
        } else {
            None
        };
        let render = Render::new();
        let mem = VideoMem {
            vram: filled_u8(0x4000, 0),
            oam: filled_u8(0xA0, 0),
            bg_pal_ram: filled_u8(64, 0xFF),
            obj_pal_ram: filled_u8(64, 0xFF),
        };
        proof {
            assert(0u8 == 0u8 & STAT_SRC_ALL) by (bit_vector);
            reveal(mem_ok);
            reveal(frames_ok);
            reveal(sgb_ok);
            assert(0u8 & 0x80 == 0) by (bit_vector);
        }
        Ppu {
            model,
            frame_count: 0,
            regs: Regs {
                lcdc: 0,
                stat_en: 0,
                scy: 0,
                scx: 0,
                lyc: 0,
                bgp: 0,
                obp0: 0,
                obp1: 0,
                wy: 0,
                wx: 0,
                vbk: 0,
                opri: 0,
                bcps: 0,
                ocps: 0,
                dmg_compat: false,
            },
            mem,
            dma: DmaView { freeze: None, active: false },
            sb_dsa8: 0,
            dhalf: 0,
            stop: StopAnchors {
                lcd_shift_dots: 0,
                anchor_set: false,
                anchor_midframe: false,
                leave_lcd_on: false,
                leave_k: 2,
                enable_in_ds: false,
            },
            enabled: false,
            line: 0,
            dot: 0,
            ly: 0,
            glitch_line: false,
            frame_skip: false,
            flags: LineFlags {
                line_render_done: true,
                m0_src: false,
                m0_rise_dot: false,
                render_finished: true,
                hdma_lead: false,
                m0_access_flip: None,
                pal_access_flip: None,
                m0_stat_flip: None,
            },
            irq: IrqState {
                coincidence: false,
                coincidence_irq: false,
                stat_line: false,
                pending_if: 0,
                stat_late: false,
                stat_halt_late: false,
                m0_rise: false,
                lyc_if_delay: 0,
                lyc_event: 0,
                stat_ev: 0,
                stat_ev_staged: None,
                lyc_ev_m: 0,
                lyc_ev_m_staged: None,
                stat_lyc_ev: 0,
                stat_lyc_ev_staged: None,
            },
            window: WinLatch { wy_triggered: false, wy_trig_dot: 0, win_line: 0xFF, start_pending: false },
            ds: false,
            eff: PipeRegs { lcdc: 0, scy: 0, scx: 0, bgp: 0, obp0: 0, obp1: 0, wy: 0, wx: 0 },
            staged: None,
            render,
            front: filled_u32(SCREEN_PIXELS, 0xFF_FFFF),
            back: filled_u32(SCREEN_PIXELS, 0xFF_FFFF),
            dmg_palette: [0xFF_FFFF, 0xAA_AAAA, 0x55_5555, 0x00_0000],
            sgb_mono: false,
            sgb,
        }
    }
}

} // verus!
