//! The PPU's side of the Super Game Boy: command delivery, the frame
//! boundary work, the border surface and the ICD2 feeds, each a no-op on
//! the other models.
use vstd::prelude::*;
use super::Ppu;
use crate::color::{spec_bgr555_word, spec_title_sum};
use crate::sgb::border::{border_pixel, frame_boundary_path};
use crate::sgb::transfer::{decoded, spec_transfer_done};
use crate::sgb::{SgbFlags, SgbSound, SgbView, BORDER_PIXELS, FADE_LEN};

verus! {

impl Ppu {
    /// Apply a completed SGB command forwarded from the joypad port; a no-op
    /// off SGB.
    pub fn sgb_command(&mut self, cmd: &[u8])
        requires
            old(self).wf(),
        ensures
            final(self).wf(),
            final(self).only_sgb_changed(old(self)),
            old(self).sgb matches Some(s) ==> s.command_effect(final(self).sgb->Some_0, cmd@),
    {
        proof {
            reveal(super::sgb_ok);
        }
        if let Some(s) = self.sgb.as_mut() {
            s.sgb_command(cmd);
        }
    }

    /// Recomposite the SGB border around the presented frame; a no-op off
    /// SGB.
    pub fn sgb_composite_border(&mut self)
        requires
            old(self).wf(),
        ensures
            final(self).wf(),
            final(self).only_sgb_changed(old(self)),
            old(self).sgb matches Some(s) ==> final(self).sgb->Some_0 == (SgbView {
                border_fb: final(self).sgb->Some_0.border_fb,
                ..s
            }) && forall|j: int|
                0 <= j < BORDER_PIXELS ==> #[trigger] final(self).sgb->Some_0.border_fb@[j] == border_pixel(
                    s,
                    old(self).front@,
                    j,
                ),
    {
        proof {
            reveal(super::sgb_ok);
            reveal(super::frames_ok);
        }
        let front = &self.front;
        if let Some(s) = self.sgb.as_mut() {
            s.composite_border(front);
        }
    }

    /// The SGB work at the frame boundary (line 144): consume a pending
    /// `*_TRN` capture, start a border cross-fade, recomposite the border and
    /// step the fade; a no-op off SGB.
    pub fn sgb_frame_boundary(&mut self)
        requires
            old(self).wf(),
        ensures
            final(self).wf(),
            final(self).only_sgb_changed(old(self)),
            old(self).sgb matches Some(s) ==> {
                let t = final(self).sgb->Some_0;
                &&& t.pending_transfer is None
                &&& !t.fade_pending
                &&& t.fade < FADE_LEN
                &&& t.pal@ == s.pal@ && t.attr@ == s.attr@ && t.mask == s.mask
                &&& s.pending_transfer is None && !s.fade_pending ==> t.fade == if s.fade > 0 {
                    (s.fade - 1) as u16
                } else {
                    0u16
                }
                &&& s.pending_transfer is None && s.fade_pending ==> t.fade == FADE_LEN - 1
                &&& s.pending_transfer is None && !s.fade_pending && s.fade == 0 ==> forall|j: int|
                    0 <= j < BORDER_PIXELS ==> #[trigger] t.border_fb@[j] == border_pixel(
                        s,
                        old(self).front@,
                        j,
                    )
            },
            old(self).sgb matches Some(s) ==> exists|t: SgbView| #![trigger spec_transfer_done(s, t)]
                spec_transfer_done(s, t) && final(self).sgb->Some_0 == (SgbView {
                    border_fb: final(self).sgb->Some_0.border_fb,
                    fade: final(self).sgb->Some_0.fade,
                    fade_from: final(self).sgb->Some_0.fade_from,
                    fade_pending: false,
                    ..t
                }),
            old(self).sgb matches Some(s) ==> exists|t: SgbView, u: SgbView, v: SgbView|
                #![trigger frame_boundary_path(s, old(self).front@, t, u, v, final(self).sgb->Some_0)]
                frame_boundary_path(s, old(self).front@, t, u, v, final(self).sgb->Some_0),
    {
        proof {
            reveal(super::sgb_ok);
            reveal(super::frames_ok);
        }
        let front = &self.front;
        if let Some(s) = self.sgb.as_mut() {
            s.frame_boundary(front);
        }
    }

    /// The 256×224 SNES border surface with the Game Boy screen as its
    /// inset (the built-in border until the ROM sends its own), or `None`
    /// off SGB.
    pub fn sgb_border(&self) -> (r: Option<&Vec<u32>>)
        ensures
            r is Some <==> self.sgb is Some,
            self.sgb matches Some(s) ==> r->Some_0@ == s.border_fb@,
    {
        match &self.sgb {
            Some(s) => Some(&s.border_fb),
            None => None,
        }
    }

    /// Install a border taken from a user-supplied SGB BIOS, bypassing the
    /// transfer commands. Returns whether it was installed (never off SGB).
    pub fn sgb_install_border(&mut self, chr0: &[u8], chr1: &[u8], pct: &[u8]) -> (r: bool)
        requires
            old(self).wf(),
        ensures
            final(self).wf(),
            final(self).only_sgb_changed(old(self)),
            old(self).sgb is None ==> !r,
            old(self).sgb is Some ==> r == (chr0@.len() == 4096 && pct@.len() == 2176 && (chr1@.len() == 0
                || chr1@.len() == 4096)),
            old(self).sgb matches Some(s) ==> (r ==> {
                let t = final(self).sgb->Some_0;
                &&& t.has_chr && t.has_pct && t.fade_pending
                &&& t.border_raw@ == pct@
                &&& t.border_tiles@.subrange(0, 4096) == chr0@
            }) && (!r ==> final(self).sgb->Some_0 == s),
    {
        proof {
            reveal(super::sgb_ok);
        }
        match self.sgb.as_mut() {
            Some(s) => s.install_border(chr0, chr1, pct),
            None => false,
        }
    }

    /// Apply a BIOS title→palette table for a cart without SGB support; a
    /// no-op off SGB or on an empty table.
    pub fn sgb_apply_bios_palette(&mut self, title: &[u8], table: &[[u16; 4]])
        requires
            old(self).wf(),
        ensures
            final(self).wf(),
            final(self).only_sgb_changed(old(self)),
            old(self).sgb matches Some(s) ==> (table@.len() == 0 ==> final(self).sgb->Some_0 == s) && (
            table@.len() > 0 ==> final(self).sgb->Some_0 == (SgbView {
                pal: final(self).sgb->Some_0.pal,
                ..s
            }) && final(self).sgb->Some_0.pal@.len() == 16 && forall|i: int|
                0 <= i < 16 ==> #[trigger] final(self).sgb->Some_0.pal@[i] == spec_bgr555_word(
                    table@[(spec_title_sum(title@) % 256) % table@.len() as int]@[i % 4] as int,
                )),
            old(self).sgb is None ==> final(self).sgb is None,
    {
        proof {
            reveal(super::sgb_ok);
        }
        if let Some(s) = self.sgb.as_mut() {
            s.apply_title_palette(title, table);
        }
    }

    /// Advance the SGB `*_TRN` capture clock by `cycles` machine cycles; a
    /// no-op off SGB.
    pub fn sgb_tick_trn(&mut self, cycles: u32)
        requires
            old(self).wf(),
        ensures
            final(self).wf(),
            final(self).only_sgb_changed(old(self)),
            old(self).sgb matches Some(s) ==> {
                let t = final(self).sgb->Some_0;
                &&& s.trn_countdown == 0 ==> t == s
                &&& s.trn_countdown > cycles ==> t.trn_countdown == s.trn_countdown - cycles
                    && t.pending_transfer == s.pending_transfer
                &&& s.trn_countdown > 0 && s.trn_countdown <= cycles ==> t.trn_countdown == 0
                    && t.pending_transfer is None
            },
    {
        proof {
            reveal(super::sgb_ok);
        }
        if let Some(s) = self.sgb.as_mut() {
            s.tick_trn(cycles);
        }
    }

    /// At a line-8k boundary (lines 8, 16, ..., 144) stream the character
    /// row just completed into the ICD2 feed; a no-op elsewhere and off SGB.
    pub fn sgb_stream_char_row(&mut self, line: u8)
        requires
            old(self).wf(),
        ensures
            final(self).wf(),
            final(self).only_sgb_changed(old(self)),
            !(line % 8 == 0 && 8 <= line <= 144) ==> final(self).sgb == old(self).sgb,
            old(self).sgb is Some && line % 8 == 0 && 8 <= line <= 144 ==> {
                let s = old(self).sgb->Some_0;
                let t = final(self).sgb->Some_0;
                &&& t.char_rows@.len() > 0 && t.char_rows@.last().0 == line / 8 - 1
                &&& t.char_rows@.last().1@.len() == 320
                &&& forall|k: int| 0 <= k < 320 ==> #[trigger] t.char_rows@.last().1@[k] == decoded(
                    s.shade_buf@,
                    (line / 8 - 1) * 320 + k,
                )
                &&& s.char_rows@.len() < 8 ==> t.char_rows@.len() == s.char_rows@.len() + 1 && forall|k: int|
                    0 <= k < s.char_rows@.len() ==> #[trigger] t.char_rows@[k] == s.char_rows@[k]
                &&& s.char_rows@.len() >= 8 ==> t.char_rows@.len() == s.char_rows@.len() && forall|k: int|
                    0 <= k < s.char_rows@.len() - 1 ==> #[trigger] t.char_rows@[k] == s.char_rows@[k + 1]
                &&& t == (SgbView { char_rows: t.char_rows, ..s })
            },
    {
        proof {
            reveal(super::sgb_ok);
        }
        if line % 8 == 0 && 8 <= line && line <= 144 {
            if let Some(s) = self.sgb.as_mut() {
                s.stream_char_row(line / 8 - 1);
            }
        }
    }

    /// Drain one streamed ICD2 character row (`(row, 320 bytes)`).
    pub fn sgb_take_char_row(&mut self) -> (r: Option<(u8, Vec<u8>)>)
        requires
            old(self).wf(),
        ensures
            final(self).wf(),
            final(self).only_sgb_changed(old(self)),
            old(self).sgb is None ==> r is None,
            old(self).sgb matches Some(s) ==> (s.char_rows@.len() == 0 ==> r is None) && (s.char_rows@.len()
                > 0 ==> r == Some(s.char_rows@[0]) && final(self).sgb->Some_0.char_rows@
                == s.char_rows@.drop_first()),
    {
        proof {
            reveal(super::sgb_ok);
        }
        match self.sgb.as_mut() {
            Some(s) => s.take_char_row(),
            None => None,
        }
    }

    /// Drain one queued SGB SOUND effect event.
    pub fn sgb_take_sound_event(&mut self) -> (r: Option<SgbSound>)
        requires
            old(self).wf(),
        ensures
            final(self).wf(),
            final(self).only_sgb_changed(old(self)),
            old(self).sgb is None ==> r is None,
            old(self).sgb matches Some(s) ==> (s.sound_events@.len() == 0 ==> r is None) && (
            s.sound_events@.len() > 0 ==> r == Some(s.sound_events@[0]) && final(self).sgb->Some_0.sound_events@
                == s.sound_events@.drop_first()),
    {
        proof {
            reveal(super::sgb_ok);
        }
        match self.sgb.as_mut() {
            Some(s) => s.take_sound_event(),
            None => None,
        }
    }

    /// Drain one queued DATA_SND inline SNES-RAM write.
    pub fn sgb_take_data_snd(&mut self) -> (r: Option<Vec<u8>>)
        requires
            old(self).wf(),
        ensures
            final(self).wf(),
            final(self).only_sgb_changed(old(self)),
            old(self).sgb is None ==> r is None,
            old(self).sgb matches Some(s) ==> (s.data_snd@.len() == 0 ==> r is None) && (s.data_snd@.len() > 0
                ==> r == Some(s.data_snd@[0]) && final(self).sgb->Some_0.data_snd@ == s.data_snd@.drop_first()),
    {
        proof {
            reveal(super::sgb_ok);
        }
        match self.sgb.as_mut() {
            Some(s) => s.take_data_snd(),
            None => None,
        }
    }

    /// The most recent SOU_TRN upload.
    pub fn sgb_sou_trn_data(&self) -> (r: Option<&[u8]>)
        ensures
            r is Some <==> (self.sgb matches Some(s) && s.sou_trn is Some),
            r is Some ==> r->Some_0@ == self.sgb->Some_0.sou_trn->Some_0@,
    {
        match &self.sgb {
            Some(s) => s.sou_trn_data(),
            None => None,
        }
    }

    /// The most recent OBJ_TRN payload.
    pub fn sgb_obj_trn_data(&self) -> (r: Option<&[u8]>)
        ensures
            r is Some <==> (self.sgb matches Some(s) && s.obj_data is Some),
            r is Some ==> r->Some_0@ == self.sgb->Some_0.obj_data->Some_0@,
    {
        match &self.sgb {
            Some(s) => s.obj_data(),
            None => None,
        }
    }

    /// The most recent DATA_TRN payload.
    pub fn sgb_data_trn_data(&self) -> (r: Option<&[u8]>)
        ensures
            r is Some <==> (self.sgb matches Some(s) && s.data_trn is Some),
            r is Some ==> r->Some_0@ == self.sgb->Some_0.data_trn->Some_0@,
    {
        match &self.sgb {
            Some(s) => s.data_trn_data(),
            None => None,
        }
    }

    /// The SGB flag commands' state and JUMP target, or `None` off SGB.
    pub fn sgb_flags(&self) -> (r: Option<SgbFlags>)
        ensures
            r is Some <==> self.sgb is Some,
            self.sgb matches Some(s) ==> r == Some(
                SgbFlags {
                    atrc_en: s.atrc_en,
                    test_en: s.test_en,
                    icon_en: s.icon_en,
                    pal_pri: s.pal_pri,
                    jump: s.jump,
                },
            ),
    {
        match &self.sgb {
            Some(s) => Some(s.flags()),
            None => None,
        }
    }
}

} // verus!
