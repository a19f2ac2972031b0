//! Super Game Boy presentation layer: the SNES-side colorization of the DMG
//! output driven by SGB command packets (palettes, attribute grid, window
//! mask), the screen-capture VRAM transfers (`*_TRN`), the 256×224 border
//! composite and the sound/flag/data command state.
//!
//! The `*_TRN` commands do not read VRAM: the SNES captures the rendered Game
//! Boy screen and reads its 2-bit pixel shades as packed 2bpp tile data, so
//! the live shade of every rendered pixel is kept in a shade buffer.
use vstd::prelude::*;
use crate::bits::lemma_u8_bits;
use crate::buf::{filled_u32, filled_u8};
use defaults::draw_default_frame;
use crate::color::{bgr555, spec_bgr555};
use crate::SCREEN_PIXELS;
use commands::{attr_file_spec, blk_spec, chr_spec, lin_spec, pal_set_spec};

pub mod bios;
pub mod border;
pub mod commands;
pub mod defaults;
pub mod laws;
pub mod round_trip;
pub mod save;
pub mod transfer;

verus! {

/// Border surface width (32 tiles of 8 pixels).
pub const BORDER_W: usize = 256;
/// Border surface height (28 tiles of 8 pixels).
pub const BORDER_H: usize = 224;
/// Pixels of the border surface.
pub const BORDER_PIXELS: usize = 57344;
/// The Game Boy screen inset origin in the border surface: tile (6,5).
pub const INSET_X: usize = 48;
/// The Game Boy screen inset origin in the border surface: tile (6,5).
pub const INSET_Y: usize = 40;

/// `*_TRN` destination: PAL_TRN → palette RAM (512 palettes × 4 colors).
pub const TR_PAL: u8 = 0;
/// `*_TRN` destination: ATTR_TRN → attribute files (45 × 90 bytes).
pub const TR_ATTR: u8 = 1;
/// `*_TRN` destination: CHR_TRN → border tiles bank 0.
pub const TR_CHR0: u8 = 2;
/// `*_TRN` destination: CHR_TRN → border tiles bank 1.
pub const TR_CHR1: u8 = 3;
/// `*_TRN` destination: PCT_TRN → border tilemap + palettes.
pub const TR_PCT: u8 = 4;
/// `*_TRN` destination: OBJ_TRN → SGB OBJ data.
pub const TR_OBJ: u8 = 5;
/// `*_TRN` destination: SOU_TRN → SPC700 program.
pub const TR_SOU: u8 = 6;
/// `*_TRN` destination: DATA_TRN → SNES RAM payload.
pub const TR_DATA: u8 = 7;

/// The standard four DMG shades as XRGB8888 (white, light, dark, black).
pub const SHADE_WHITE: u32 = 0xFF_FFFF;
/// Light grey.
pub const SHADE_LIGHT: u32 = 0xAA_AAAA;
/// Dark grey.
pub const SHADE_DARK: u32 = 0x55_5555;
/// Black.
pub const SHADE_BLACK: u32 = 0x00_0000;

/// Max queued SOUND / DATA_SND events before the oldest is dropped.
pub const SOUND_QUEUE_CAP: usize = 64;

/// Border boot-intro / cross-fade length, in frames.
pub const FADE_LEN: u16 = 24;

/// Machine cycles between a `*_TRN` command and its screen capture: one frame
/// of the SNES side's own capture clock.
pub const TRN_CAPTURE_DELAY: u32 = 70224;

/// The DMG shade `e` (0-3) as XRGB8888.
pub open spec fn dmg_shade(e: int) -> u32 {
    if e == 0 {
        SHADE_WHITE
    } else if e == 1 {
        SHADE_LIGHT
    } else if e == 2 {
        SHADE_DARK
    } else {
        SHADE_BLACK
    }
}

/// One SGB SOUND ($08) effect event.
#[derive(Clone, Copy, PartialEq, Eq, Structural, Debug)]
pub struct SgbSound {
    pub effect_a: u8,
    pub effect_b: u8,
    pub attenuation: u8,
    pub effect_bank: u8,
}

/// The SGB flag commands' state and the JUMP target.
#[derive(Clone, Copy, PartialEq, Eq, Structural, Debug)]
pub struct SgbFlags {
    pub atrc_en: bool,
    pub test_en: bool,
    pub icon_en: bool,
    pub pal_pri: bool,
    pub jump: Option<u32>,
}

/// The SNES-side presentation state an SGB applies over the DMG picture.
///
/// `pal` holds the four palettes of four XRGB8888 colors (palette `p`, entry
/// `e` at `4p + e`); `attr[cell]` selects which palette recolors cell `cell`
/// (row-major, 20 wide); `mask` is the MASK_EN mode (0 off, 1 freeze, 2 black,
/// 3 palette-0 color 0).
pub struct SgbView {
    pub pal: Vec<u32>,
    pub attr: Vec<u8>,
    pub mask: u8,
    pub shade_buf: Vec<u8>,
    pub pending_transfer: Option<u8>,
    pub trn_countdown: u32,
    pub ram_palettes: Vec<u8>,
    pub attr_files: Vec<u8>,
    pub border_tiles: Vec<u8>,
    pub border_raw: Vec<u8>,
    pub has_chr: bool,
    pub has_pct: bool,
    pub border_fb: Vec<u32>,
    pub fade: u16,
    pub fade_from: Vec<u32>,
    pub fade_pending: bool,
    pub obj_data: Option<Vec<u8>>,
    pub sou_trn: Option<Vec<u8>>,
    pub data_trn: Option<Vec<u8>>,
    pub data_snd: Vec<Vec<u8>>,
    pub sound_events: Vec<SgbSound>,
    pub char_rows: Vec<(u8, Vec<u8>)>,
    pub atrc_en: bool,
    pub test_en: bool,
    pub icon_en: bool,
    pub pal_pri: bool,
    pub jump: Option<u32>,
}

/// A captured 4096-byte payload slot is either empty or exactly 4096 bytes.
pub open spec fn payload_ok(p: Option<Vec<u8>>) -> bool {
    match p {
        Some(v) => v@.len() == 4096,
        None => true,
    }
}

impl SgbView {
    /// Buffer sizes (captured payloads included) and value ranges every
    /// method relies on.
    pub open spec fn wf(&self) -> bool {
        &&& self.pal@.len() == 16
        &&& self.attr@.len() == 360
        &&& self.shade_buf@.len() == SCREEN_PIXELS
        &&& self.ram_palettes@.len() == 4096
        &&& self.attr_files@.len() == 4050
        &&& self.border_tiles@.len() == 8192
        &&& self.border_raw@.len() == 2176
        &&& self.border_fb@.len() == BORDER_PIXELS
        &&& self.fade_from@.len() == BORDER_PIXELS
        &&& self.fade <= FADE_LEN
        &&& payload_ok(self.obj_data)
        &&& payload_ok(self.sou_trn)
        &&& payload_ok(self.data_trn)
    }

    /// Entry `e` of palette `p`.
    pub open spec fn spec_pal(&self, p: int, e: int) -> u32 {
        self.pal@[4 * p + e]
    }

    /// A fresh view: the DMG greyscale in every palette, attribute map and
    /// mask cleared, the built-in default border drawn and its boot intro
    /// armed to fade up from black.
    pub fn new() -> (v: SgbView)
        ensures
            v.wf(),
            forall|p: int, e: int| 0 <= p < 4 && 0 <= e < 4 ==> #[trigger] v.spec_pal(p, e) == dmg_shade(e),
            forall|i: int| 0 <= i < 360 ==> #[trigger] v.attr@[i] == 0,
            v.mask == 0,
            v.pending_transfer is None,
            !v.has_chr && !v.has_pct,
            v.fade == FADE_LEN,
            !v.fade_pending,
            v.sound_events@.len() == 0,
            v.data_snd@.len() == 0,
            v.jump is None,
            !v.atrc_en && !v.test_en && !v.icon_en && !v.pal_pri,
    {
        let mut pal: Vec<u32> = Vec::new();
        let mut p: usize = 0;
        while p < 4
            invariant
                0 <= p <= 4,
                pal@.len() == 4 * p,
                forall|i: int| 0 <= i < pal@.len() ==> #[trigger] pal@[i] == dmg_shade(i % 4),
            decreases 4 - p,
        {
            pal.push(SHADE_WHITE);
            pal.push(SHADE_LIGHT);
            pal.push(SHADE_DARK);
            pal.push(SHADE_BLACK);
            p += 1;
        }
        let mut v = SgbView {
            pal,
            attr: filled_u8(360, 0),
            mask: 0,
            shade_buf: filled_u8(SCREEN_PIXELS, 0),
            pending_transfer: None,
            trn_countdown: 0,
            ram_palettes: filled_u8(4096, 0),
            attr_files: filled_u8(4050, 0),
            border_tiles: filled_u8(8192, 0),
            border_raw: filled_u8(2176, 0),
            has_chr: false,
            has_pct: false,
            border_fb: filled_u32(BORDER_PIXELS, 0),
            fade: FADE_LEN,
            fade_from: filled_u32(BORDER_PIXELS, 0),
            fade_pending: false,
            obj_data: None,
            sou_trn: None,
            data_trn: None,
            data_snd: Vec::new(),
            sound_events: Vec::new(),
            char_rows: Vec::new(),
            atrc_en: false,
            test_en: false,
            icon_en: false,
            pal_pri: false,
            jump: None,
        };
        draw_default_frame(&mut v.border_fb);
        assert forall|p: int, e: int| 0 <= p < 4 && 0 <= e < 4 implies #[trigger] v.spec_pal(p, e)
            == dmg_shade(e) by {
            assert((4 * p + e) % 4 == e);
        }
        v
    }

    /// What one completed command packet stream `cmd` does to the view
    /// (`t` is the view after it).
    pub open spec fn command_effect(self, t: SgbView, cmd: Seq<u8>) -> bool {
        &&& (cmd.len() < 16 ==> t == self)
        &&& (cmd.len() >= 16 && cmd[0] / 8 == 0 ==> t.pal@ == set_pal_spec(self.pal@, cmd, 0, 1) && t.attr@
            == self.attr@ && t.mask == self.mask)
        &&& (cmd.len() >= 16 && cmd[0] / 8 == 1 ==> t.pal@ == set_pal_spec(self.pal@, cmd, 2, 3) && t.attr@
            == self.attr@ && t.mask == self.mask)
        &&& (cmd.len() >= 16 && cmd[0] / 8 == 2 ==> t.pal@ == set_pal_spec(self.pal@, cmd, 0, 3) && t.attr@
            == self.attr@ && t.mask == self.mask)
        &&& (cmd.len() >= 16 && cmd[0] / 8 == 3 ==> t.pal@ == set_pal_spec(self.pal@, cmd, 1, 2) && t.attr@
            == self.attr@ && t.mask == self.mask)
        &&& (cmd.len() >= 16 && cmd[0] / 8 == 4 ==> t.attr@ == blk_spec(self.attr@, cmd, if cmd[1] < 18 {
            cmd[1] as int
        } else {
            18
        }) && t.pal@ == self.pal@ && t.mask == self.mask)
        &&& (cmd.len() >= 16 && cmd[0] / 8 == 5 ==> t.attr@ == lin_spec(self.attr@, cmd, if cmd[1] <= cmd.len() - 2 {
            cmd[1] as int
        } else {
            cmd.len() - 2
        }) && t.pal@ == self.pal@ && t.mask == self.mask)
        &&& (cmd.len() >= 16 && cmd[0] / 8 == 6 ==> t.attr@ == attr_div_spec(cmd) && t.pal@ == self.pal@
            && t.mask == self.mask)
        &&& (cmd.len() >= 16 && cmd[0] / 8 == 7 ==> t.attr@ == chr_spec(self.attr@, cmd) && t.pal@ == self.pal@
            && t.mask == self.mask)
        &&& (cmd.len() >= 16 && cmd[0] / 8 == 0x0A ==> {
            &&& t.pal@ == pal_set_spec(self.ram_palettes@, cmd)
            &&& cmd[9] >= 128 && cmd[9] % 64 <= 0x2C ==> t.attr@ == attr_file_spec(self.attr_files@, (cmd[9] % 64) as int)
            &&& !(cmd[9] >= 128 && cmd[9] % 64 <= 0x2C) ==> t.attr@ == self.attr@
            &&& t.mask == if (cmd[9] / 64) % 2 == 1 {
                0
            } else {
                self.mask
            }
        })
        &&& (cmd.len() >= 16 && cmd[0] / 8 == 0x16 ==> {
            &&& (cmd[1] % 64) <= 0x2C ==> t.attr@ == attr_file_spec(self.attr_files@, (cmd[1] % 64) as int)
            &&& (cmd[1] % 64) > 0x2C ==> t.attr@ == self.attr@
            &&& t.mask == if (cmd[1] / 64) % 2 == 1 {
                0
            } else {
                self.mask
            }
            &&& t.pal@ == self.pal@
        })
        &&& (cmd.len() >= 16 && cmd[0] / 8 == 0x0F ==> {
            &&& t.data_snd@.len() == if self.data_snd@.len() >= SOUND_QUEUE_CAP {
                self.data_snd@.len()
            } else {
                self.data_snd@.len() + 1
            }
            &&& t.data_snd@.last()@ == cmd.subrange(1, 16)
            &&& self.data_snd@.len() < SOUND_QUEUE_CAP ==> forall|k: int|
                0 <= k < self.data_snd@.len() ==> #[trigger] t.data_snd@[k] == self.data_snd@[k]
            &&& self.data_snd@.len() >= SOUND_QUEUE_CAP ==> forall|k: int|
                0 <= k < self.data_snd@.len() - 1 ==> #[trigger] t.data_snd@[k] == self.data_snd@[k + 1]
        })
        &&& (cmd.len() >= 16 && cmd[0] / 8 == 0x0C ==> t == (SgbView { atrc_en: cmd[1] % 2 == 1, ..self }))
        &&& (cmd.len() >= 16 && cmd[0] / 8 == 0x0D ==> t == (SgbView { test_en: cmd[1] % 2 == 1, ..self }))
        &&& (cmd.len() >= 16 && cmd[0] / 8 == 0x0E ==> t == (SgbView { icon_en: cmd[1] % 2 == 1, ..self }))
        &&& (cmd.len() >= 16 && cmd[0] / 8 == 0x12 ==> t.jump == Some((cmd[1] + cmd[2] * 256 + cmd[3] * 65536) as u32)
            && t.pal@ == self.pal@ && t.attr@ == self.attr@ && t.mask == self.mask)
        &&& (cmd.len() >= 16 && cmd[0] / 8 == 0x17 ==> t == (SgbView { mask: cmd[1] % 4, ..self }))
        &&& (cmd.len() >= 16 && cmd[0] / 8 == 0x19 ==> t == (SgbView { pal_pri: cmd[1] % 2 == 1, ..self }))
        &&& (cmd.len() >= 16 && cmd[0] / 8 == 0x08 ==> t.sound_events@ == capped_push(self.sound_events@, SgbSound { effect_a: cmd[1], effect_b: cmd[2], attenuation: cmd[3], effect_bank: cmd[4] }) && t.pal@ == self.pal@ && t.attr@ == self.attr@ && t.mask == self.mask)
        &&& (cmd.len() >= 16 && cmd[0] / 8 == 0x0B ==> t.pending_transfer == Some(TR_PAL) && t.trn_countdown == TRN_CAPTURE_DELAY && t.pal@ == self.pal@ && t.attr@ == self.attr@ && t.mask == self.mask)
        &&& (cmd.len() >= 16 && cmd[0] / 8 == 0x15 ==> t.pending_transfer == Some(TR_ATTR) && t.trn_countdown == TRN_CAPTURE_DELAY && t.pal@ == self.pal@ && t.attr@ == self.attr@ && t.mask == self.mask)
        &&& (cmd.len() >= 16 && cmd[0] / 8 == 0x13 ==> t.pending_transfer == Some(if cmd[1] % 2 == 1 { TR_CHR1 } else { TR_CHR0 }) && t.trn_countdown == TRN_CAPTURE_DELAY && t.pal@ == self.pal@ && t.attr@ == self.attr@ && t.mask == self.mask)
        &&& (cmd.len() >= 16 && cmd[0] / 8 == 0x14 ==> t.pending_transfer == Some(TR_PCT) && t.trn_countdown == TRN_CAPTURE_DELAY && t.pal@ == self.pal@ && t.attr@ == self.attr@ && t.mask == self.mask)
        &&& (cmd.len() >= 16 && cmd[0] / 8 == 0x09 ==> t.pending_transfer == Some(TR_SOU) && t.trn_countdown == TRN_CAPTURE_DELAY && t.pal@ == self.pal@ && t.attr@ == self.attr@ && t.mask == self.mask)
        &&& (cmd.len() >= 16 && cmd[0] / 8 == 0x10 ==> t.pending_transfer == Some(TR_DATA) && t.trn_countdown == TRN_CAPTURE_DELAY && t.pal@ == self.pal@ && t.attr@ == self.attr@ && t.mask == self.mask)
        &&& (cmd.len() >= 16 && cmd[0] / 8 == 0x18 ==> t.pending_transfer == Some(TR_OBJ) && t.trn_countdown == TRN_CAPTURE_DELAY && t.pal@ == self.pal@ && t.attr@ == self.attr@ && t.mask == self.mask)
        &&& (cmd.len() >= 16 && (cmd[0] / 8 == 0x11 || cmd[0] / 8 >= 0x1A) ==> t == self)
    }

    /// Parse one completed SGB command packet stream (`cmd[0]` = command
    /// number × 8 + packet count). A command shorter than one 16-byte packet
    /// is malformed and ignored. MLT_REQ ($11) never arrives here.
    pub fn sgb_command(&mut self, cmd: &[u8])
        requires
            old(self).wf(),
        ensures
            final(self).wf(),
            old(self).command_effect(*final(self), cmd@),
    {
        if cmd.len() < 16 {
            return;
        }
        let op = cmd[0] >> 3;
        proof {
            lemma_u8_bits(cmd@[0]);
            lemma_u8_bits(cmd@[1]);
        }
        if op == 0x00 {
            self.set_pal(cmd, 0, 1);
        } else if op == 0x01 {
            self.set_pal(cmd, 2, 3);
        } else if op == 0x02 {
            self.set_pal(cmd, 0, 3);
        } else if op == 0x03 {
            self.set_pal(cmd, 1, 2);
        } else if op == 0x04 {
            self.attr_blk(cmd);
        } else if op == 0x05 {
            self.attr_lin(cmd);
        } else if op == 0x06 {
            self.attr_div(cmd);
        } else if op == 0x07 {
            self.attr_chr(cmd);
        } else if op == 0x08 {
            self.sound(cmd);
        } else if op == 0x09 {
            self.latch_transfer(TR_SOU);
        } else if op == 0x0A {
            self.pal_set(cmd);
        } else if op == 0x0B {
            self.latch_transfer(TR_PAL);
        } else if op == 0x0C {
            self.atrc_en = cmd[1] & 1 != 0;
        } else if op == 0x0D {
            self.test_en = cmd[1] & 1 != 0;
        } else if op == 0x0E {
            self.icon_en = cmd[1] & 1 != 0;
        } else if op == 0x0F {
            self.data_snd(cmd);
        } else if op == 0x10 {
            self.latch_transfer(TR_DATA);
        } else if op == 0x12 {
            self.jump(cmd);
        } else if op == 0x13 {
            self.latch_transfer(if cmd[1] & 1 != 0 { TR_CHR1 } else { TR_CHR0 });
        } else if op == 0x14 {
            self.latch_transfer(TR_PCT);
        } else if op == 0x15 {
            self.latch_transfer(TR_ATTR);
        } else if op == 0x16 {
            self.attr_set(cmd);
        } else if op == 0x17 {
            self.mask = cmd[1] & 3;
        } else if op == 0x18 {
            self.latch_transfer(TR_OBJ);
        } else if op == 0x19 {
            self.pal_pri = cmd[1] & 1 != 0;
        }
    }

    /// PAL01/23/03/12 ($00-$03): `a`/`b` are the two palettes the command
    /// names. Color 0 (bytes 1-2) is the shared background written to entry 0
    /// of all four palettes; colors 1-3 fill `a`'s entries 1-3, colors 4-6 fill
    /// `b`'s.
    pub fn set_pal(&mut self, cmd: &[u8], a: usize, b: usize)
        requires
            old(self).wf(),
            cmd@.len() >= 16,
            a < 4,
            b < 4,
        ensures
            final(self).wf(),
            final(self).pal@ == set_pal_spec(old(self).pal@, cmd@, a as int, b as int),
            final(self).attr@ == old(self).attr@,
            final(self).mask == old(self).mask,
            final(self).shade_buf@ == old(self).shade_buf@,
            final(self).border_fb@ == old(self).border_fb@,
            final(self).sound_events@ == old(self).sound_events@,
            final(self).data_snd@ == old(self).data_snd@,
            final(self).pending_transfer == old(self).pending_transfer,
            final(self).trn_countdown == old(self).trn_countdown,
    {
        let bg = bgr555(cmd[1], cmd[2]);
        let ghost o = self.pal@;
        let mut p: usize = 0;
        while p < 4
            invariant
                0 <= p <= 4,
                self.wf(),
                cmd@.len() >= 16,
                bg == spec_bgr555(cmd@[1], cmd@[2]),
                forall|i: int| 0 <= i < 16 ==> #[trigger] self.pal@[i] == if i % 4 == 0 && i / 4 < p {
                    bg
                } else {
                    o[i]
                },
                self.attr@ == old(self).attr@,
                self.mask == old(self).mask,
                self.shade_buf@ == old(self).shade_buf@,
                self.border_fb@ == old(self).border_fb@,
                self.sound_events@ == old(self).sound_events@,
                self.data_snd@ == old(self).data_snd@,
                self.pending_transfer == old(self).pending_transfer,
                self.trn_countdown == old(self).trn_countdown,
            decreases 4 - p,
        {
            self.pal.set(4 * p, bg);
            p += 1;
        }
        let mut e: usize = 1;
        while e < 4
            invariant
                1 <= e <= 4,
                self.wf(),
                a < 4,
                b < 4,
                cmd@.len() >= 16,
                bg == spec_bgr555(cmd@[1], cmd@[2]),
                forall|i: int| 0 <= i < 16 ==> #[trigger] self.pal@[i] == if i % 4 == 0 {
                    bg
                } else if i % 4 < e && i / 4 == b {
                    spec_bgr555(cmd@[1 + 2 * (3 + i % 4)], cmd@[2 + 2 * (3 + i % 4)])
                } else if i % 4 < e && i / 4 == a {
                    spec_bgr555(cmd@[1 + 2 * (i % 4)], cmd@[2 + 2 * (i % 4)])
                } else {
                    o[i]
                },
                self.attr@ == old(self).attr@,
                self.mask == old(self).mask,
                self.shade_buf@ == old(self).shade_buf@,
                self.border_fb@ == old(self).border_fb@,
                self.sound_events@ == old(self).sound_events@,
                self.data_snd@ == old(self).data_snd@,
                self.pending_transfer == old(self).pending_transfer,
                self.trn_countdown == old(self).trn_countdown,
            decreases 4 - e,
        {
            let ca = bgr555(cmd[1 + 2 * e], cmd[2 + 2 * e]);
            let cb = bgr555(cmd[1 + 2 * (3 + e)], cmd[2 + 2 * (3 + e)]);
            self.pal.set(4 * a + e, ca);
            self.pal.set(4 * b + e, cb);
            e += 1;
        }
        assert(self.pal@ =~= set_pal_spec(o, cmd@, a as int, b as int));
    }

    /// MASK_EN freeze (1) holds the last presented frame.
    pub fn holds_frame(&self) -> (r: bool)
        ensures
            r == (self.mask == 1),
    {
        self.mask == 1
    }

    /// MASK_EN black (2) / color-0 (3): the XRGB8888 fill to paint over the
    /// presented frame, or `None` for cancel/freeze.
    pub fn mask_fill(&self) -> (r: Option<u32>)
        requires
            self.wf(),
        ensures
            r == (if self.mask == 2 {
                Some(0u32)
            } else if self.mask == 3 {
                Some(self.spec_pal(0, 0))
            } else {
                None::<u32>
            }),
    {
        if self.mask == 2 {
            Some(0x00_0000)
        } else if self.mask == 3 {
            Some(self.pal[0])
        } else {
            None
        }
    }

    /// Record the live 2-bit shade of a rendered pixel at framebuffer index
    /// `idx` (`ly*160+lx`); an index past the screen is ignored.
    pub fn record_shade(&mut self, idx: usize, shade: u8)
        requires
            old(self).wf(),
        ensures
            final(self).wf(),
            idx < SCREEN_PIXELS ==> final(self).shade_buf@ == old(self).shade_buf@.update(
                idx as int,
                shade % 4,
            ),
            idx >= SCREEN_PIXELS ==> final(self).shade_buf@ == old(self).shade_buf@,
            final(self).attr@ == old(self).attr@,
            final(self).pal@ == old(self).pal@,
            final(self).mask == old(self).mask,
            final(self).pending_transfer == old(self).pending_transfer,
            final(self).trn_countdown == old(self).trn_countdown,
            *final(self) == (SgbView { shade_buf: final(self).shade_buf, ..*old(self) }),
    {
        if idx < self.shade_buf.len() {
            proof {
                lemma_u8_bits(shade);
            }
            self.shade_buf.set(idx, shade & 3);
        }
    }

    /// The SGB-colorized XRGB8888 for a 2-bit DMG `shade` at screen `lx`,`ly`:
    /// through the palette that cell `(lx/8, ly/8)` selects (cells past the
    /// map select palette 0).
    pub fn shade_color(&self, lx: u8, ly: u8, shade: usize) -> (r: u32)
        requires
            self.wf(),
            shade < 4,
        ensures
            r == self.spec_pal(
                if (ly / 8) * 20 + lx / 8 < 360 { (self.attr@[(ly / 8) * 20 + lx / 8] % 4) as int } else { 0 },
                shade as int,
            ),
    {
        let cell = (ly as usize / 8) * 20 + (lx as usize / 8);
        let pal: usize = if cell < self.attr.len() {
            (self.attr[cell] % 4) as usize
        } else {
            0
        };
        self.pal[4 * pal + shade]
    }

    /// Palette `p` (0-3) as four XRGB8888 colors.
    pub fn palette(&self, p: usize) -> (r: [u32; 4])
        requires
            self.wf(),
            p < 4,
        ensures
            r@ == seq![self.spec_pal(p as int, 0), self.spec_pal(p as int, 1), self.spec_pal(p as int, 2), self.spec_pal(p as int, 3)],
    {
        let r = [self.pal[4 * p], self.pal[4 * p + 1], self.pal[4 * p + 2], self.pal[4 * p + 3]];
        assert(r@ =~= seq![self.spec_pal(p as int, 0), self.spec_pal(p as int, 1), self.spec_pal(p as int, 2), self.spec_pal(p as int, 3)]);
        r
    }

    /// The live 360-cell attribute map (palette number per 8×8 cell).
    pub fn attr_map(&self) -> (r: &[u8])
        ensures
            r@ == self.attr@,
    {
        self.attr.as_slice()
    }

    /// The current MASK_EN mode.
    pub fn mask(&self) -> (r: u8)
        ensures
            r == self.mask,
    {
        self.mask
    }

    /// The `*_TRN` destination awaiting its screen capture, if any.
    pub fn pending_transfer(&self) -> (r: Option<u8>)
        ensures
            r == self.pending_transfer,
    {
        self.pending_transfer
    }

    /// Frames left in the border boot-intro / cross-fade (0 = settled).
    pub fn fade(&self) -> (r: u16)
        ensures
            r == self.fade,
    {
        self.fade
    }

    /// A border-changing transfer landed and a cross-fade must start at the
    /// next frame boundary.
    pub fn fade_pending(&self) -> (r: bool)
        ensures
            r == self.fade_pending,
    {
        self.fade_pending
    }

    /// The rendered-pixel shade buffer a `*_TRN` capture reads.
    pub fn shade_buf(&self) -> (r: &[u8])
        ensures
            r@ == self.shade_buf@,
    {
        self.shade_buf.as_slice()
    }

    /// PAL_TRN palette RAM (512 palettes × 4 colors × 2 bytes).
    pub fn ram_palettes(&self) -> (r: &[u8])
        ensures
            r@ == self.ram_palettes@,
    {
        self.ram_palettes.as_slice()
    }

    /// Whether a CHR_TRN has landed.
    pub fn has_chr(&self) -> (r: bool)
        ensures
            r == self.has_chr,
    {
        self.has_chr
    }

    /// The queued SOUND events, oldest first.
    pub fn sound_events(&self) -> (r: &[SgbSound])
        ensures
            r@ == self.sound_events@,
    {
        self.sound_events.as_slice()
    }
}

/// The palettes after PAL01/23/03/12 naming palettes `a` and `b`.
pub open spec fn set_pal_spec(o: Seq<u32>, cmd: Seq<u8>, a: int, b: int) -> Seq<u32> {
    Seq::new(
        16,
        |i: int|
            if i % 4 == 0 {
                spec_bgr555(cmd[1], cmd[2])
            } else if i / 4 == b {
                spec_bgr555(cmd[1 + 2 * (3 + i % 4)], cmd[2 + 2 * (3 + i % 4)])
            } else if i / 4 == a {
                spec_bgr555(cmd[1 + 2 * (i % 4)], cmd[2 + 2 * (i % 4)])
            } else {
                o[i]
            },
    )
}

/// A queue after pushing `x`, the oldest entry dropped once the cap is hit.
pub open spec fn capped_push<T>(q: Seq<T>, x: T) -> Seq<T> {
    if q.len() >= SOUND_QUEUE_CAP {
        q.drop_first().push(x)
    } else {
        q.push(x)
    }
}

/// The attribute map after ATTR_DIV: a split on a row (`cmd[1]` bit 6) or a
/// column at `cmd[2] & 0x1F` — low palette before it, middle on it, high after.
pub open spec fn attr_div_spec(cmd: Seq<u8>) -> Seq<u8> {
    Seq::new(
        360,
        |c: int|
            {
                let cx = c % 20;
                let cy = c / 20;
                let coord = if (cmd[1] / 64) % 2 == 1 { cy } else { cx };
                let line = cmd[2] % 32;
                if coord < line {
                    ((cmd[1] / 4) % 4) as u8
                } else if coord == line {
                    ((cmd[1] / 16) % 4) as u8
                } else {
                    (cmd[1] % 4) as u8
                }
            },
    )
}

} // verus!
