//! Save-state serialization of the SGB presentation state. The border
//! surface, the fade and the character-row queue are derived or transient and
//! are not stored: a loaded state resolves to a settled border.
use vstd::prelude::*;
use super::round_trip::{
    encodable, lemma_assoc5, lemma_g1_unique, lemma_g2_unique, lemma_g3_unique, lemma_g4_unique,
    lemma_g5_unique, lemma_opt_box_unique, lemma_packets_front, lemma_sounds_front,
    lemma_sounds_len, lemma_split, lemma_u32_le_inj, lemma_u32s_le_len,
};
use super::{payload_ok, SgbSound, SgbView};
use crate::state::{u32_le, u32s_le, Reader, StateError, Writer};

verus! {

/// A flag as one byte.
pub open spec fn enc_bool(b: bool) -> Seq<u8> {
    seq![if b { 1u8 } else { 0u8 }]
}

/// An optional byte: a presence flag, then the byte.
pub open spec fn enc_opt_u8(o: Option<u8>) -> Seq<u8> {
    match o {
        Some(d) => seq![1u8, d],
        None => seq![0u8],
    }
}

/// An optional `u32`: a presence flag, then the value little-endian.
#[verifier::opaque]
pub open spec fn enc_opt_u32(o: Option<u32>) -> Seq<u8> {
    match o {
        Some(d) => seq![1u8] + u32_le(d),
        None => seq![0u8],
    }
}

/// An optional captured payload: a presence flag, then its bytes.
pub open spec fn enc_opt_box(o: Option<Vec<u8>>) -> Seq<u8> {
    match o {
        Some(v) => seq![1u8] + v@,
        None => seq![0u8],
    }
}

/// DATA_SND packets: each a little-endian length, then its bytes.
pub open spec fn enc_packets(ps: Seq<Vec<u8>>) -> Seq<u8>
    decreases ps.len(),
{
    if ps.len() == 0 {
        Seq::empty()
    } else {
        enc_packets(ps.drop_last()) + u32_le(ps.last()@.len() as u32) + ps.last()@
    }
}

/// SOUND events: four bytes each.
pub open spec fn enc_sounds(ss: Seq<SgbSound>) -> Seq<u8>
    decreases ss.len(),
{
    if ss.len() == 0 {
        Seq::empty()
    } else {
        let s = ss.last();
        enc_sounds(ss.drop_last()) + seq![s.effect_a, s.effect_b, s.attenuation, s.effect_bank]
    }
}

/// Palettes, attribute map, mask, shade buffer, pending transfer.
#[verifier::opaque]
pub open spec fn enc_g1(s: SgbView) -> Seq<u8> {
    u32s_le(s.pal@) + s.attr@ + seq![s.mask] + s.shade_buf@ + enc_opt_u8(s.pending_transfer)
}

/// Palette RAM, attribute files, border tiles and tilemap, border flags.
#[verifier::opaque]
pub open spec fn enc_g2(s: SgbView) -> Seq<u8> {
    s.ram_palettes@ + s.attr_files@ + s.border_tiles@ + s.border_raw@ + enc_bool(s.has_chr) + enc_bool(s.has_pct)
}

/// The captured OBJ_TRN / SOU_TRN / DATA_TRN payloads.
#[verifier::opaque]
pub open spec fn enc_g3(s: SgbView) -> Seq<u8> {
    enc_opt_box(s.obj_data) + enc_opt_box(s.sou_trn) + enc_opt_box(s.data_trn)
}

/// The DATA_SND queue: a count, then the packets.
#[verifier::opaque]
pub open spec fn enc_g4(s: SgbView) -> Seq<u8> {
    u32_le(s.data_snd@.len() as u32) + enc_packets(s.data_snd@)
}

/// The SOUND queue: a count, then the events.
#[verifier::opaque]
pub open spec fn enc_g5(s: SgbView) -> Seq<u8> {
    u32_le(s.sound_events@.len() as u32) + enc_sounds(s.sound_events@)
}

/// The flag commands and the JUMP target.
#[verifier::opaque]
pub open spec fn enc_g6(s: SgbView) -> Seq<u8> {
    enc_bool(s.atrc_en) + enc_bool(s.test_en) + enc_bool(s.icon_en) + enc_bool(s.pal_pri) + enc_opt_u32(s.jump)
}

/// The stored form of the presentation state, in stream order.
pub open spec fn spec_encode(s: SgbView) -> Seq<u8> {
    enc_g1(s) + enc_g2(s) + enc_g3(s) + enc_g4(s) + enc_g5(s) + enc_g6(s)
}

/// The stored form of group `k` (1 to 6) of the presentation state.
pub open spec fn enc_group(k: int, v: SgbView) -> Seq<u8> {
    if k == 1 {
        enc_g1(v)
    } else if k == 2 {
        enc_g2(v)
    } else if k == 3 {
        enc_g3(v)
    } else if k == 4 {
        enc_g4(v)
    } else if k == 5 {
        enc_g5(v)
    } else {
        enc_g6(v)
    }
}

/// `b` begins with the stored form of group `k` of some state.
pub open spec fn starts_group(k: int, b: Seq<u8>) -> bool {
    exists|v: SgbView, x: Seq<u8>|
        #![trigger enc_group(k, v) + x]
        v.wf() && encodable(v) && b == enc_group(k, v) + x
}

/// `b` begins with the stored form of some state.
pub open spec fn starts_state(b: Seq<u8>) -> bool {
    exists|v: SgbView, x: Seq<u8>| #![trigger spec_encode(v) + x] v.wf() && encodable(v) && b == spec_encode(v) + x
}

/// The fields a stored state leaves out (the border surface, the fade, the
/// character-row queue and the transfer countdown) are unchanged.
pub open spec fn unstored_kept(a: SgbView, b: SgbView) -> bool {
    &&& a.border_fb@ == b.border_fb@
    &&& a.fade_from@ == b.fade_from@
    &&& a.fade == b.fade
    &&& a.fade_pending == b.fade_pending
    &&& a.char_rows@ == b.char_rows@
    &&& a.trn_countdown == b.trn_countdown
}

/// The fields of each stored group are unchanged.
pub open spec fn g1_kept(a: SgbView, b: SgbView) -> bool {
    &&& a.pal@ == b.pal@
    &&& a.attr@ == b.attr@
    &&& a.mask == b.mask
    &&& a.shade_buf@ == b.shade_buf@
    &&& a.pending_transfer == b.pending_transfer
}

/// See [`g1_kept`].
pub open spec fn g2_kept(a: SgbView, b: SgbView) -> bool {
    &&& a.ram_palettes@ == b.ram_palettes@
    &&& a.attr_files@ == b.attr_files@
    &&& a.border_tiles@ == b.border_tiles@
    &&& a.border_raw@ == b.border_raw@
    &&& a.has_chr == b.has_chr
    &&& a.has_pct == b.has_pct
}

/// See [`g1_kept`].
pub open spec fn g3_kept(a: SgbView, b: SgbView) -> bool {
    &&& a.obj_data == b.obj_data
    &&& a.sou_trn == b.sou_trn
    &&& a.data_trn == b.data_trn
}

/// See [`g1_kept`].
pub open spec fn g4_kept(a: SgbView, b: SgbView) -> bool {
    a.data_snd == b.data_snd
}

/// See [`g1_kept`].
pub open spec fn g5_kept(a: SgbView, b: SgbView) -> bool {
    a.sound_events@ == b.sound_events@
}

/// See [`g1_kept`].
pub open spec fn g6_kept(a: SgbView, b: SgbView) -> bool {
    &&& a.atrc_en == b.atrc_en
    &&& a.test_en == b.test_en
    &&& a.icon_en == b.icon_en
    &&& a.pal_pri == b.pal_pri
    &&& a.jump == b.jump
}

/// Each group's stored form depends on that group's fields alone.
pub proof fn lemma_encode_groups(a: SgbView, b: SgbView)
    ensures
        g1_kept(a, b) ==> enc_g1(a) == enc_g1(b),
        g2_kept(a, b) ==> enc_g2(a) == enc_g2(b),
        g3_kept(a, b) ==> enc_g3(a) == enc_g3(b),
        g4_kept(a, b) ==> enc_g4(a) == enc_g4(b),
        g5_kept(a, b) ==> enc_g5(a) == enc_g5(b),
        g6_kept(a, b) ==> enc_g6(a) == enc_g6(b),
{
    reveal(enc_g1);
    reveal(enc_g2);
    reveal(enc_g3);
    reveal(enc_g4);
    reveal(enc_g5);
    reveal(enc_g6);
}

/// Group 1's stored form, followed by `x`, field by field.
pub proof fn lemma_g1_layout(v: SgbView, x: Seq<u8>)
    requires
        v.wf(),
    ensures
        u32s_le(v.pal@).len() == 64,
        enc_g1(v) + x == u32s_le(v.pal@) + (v.attr@ + (seq![v.mask] + (v.shade_buf@ + (enc_opt_u8(
            v.pending_transfer,
        ) + x)))),
{
    reveal(enc_g1);
    lemma_u32s_le_len(v.pal@);
    assert(enc_g1(v) + x =~= u32s_le(v.pal@) + (v.attr@ + (seq![v.mask] + (v.shade_buf@ + (enc_opt_u8(
        v.pending_transfer,
    ) + x)))));
}

/// Group 2's stored form, followed by `x`, field by field.
pub proof fn lemma_g2_layout(v: SgbView, x: Seq<u8>)
    ensures
        enc_g2(v) + x == v.ram_palettes@ + (v.attr_files@ + (v.border_tiles@ + (v.border_raw@ + (enc_bool(v.has_chr)
            + (enc_bool(v.has_pct) + x))))),
{
    reveal(enc_g2);
    assert(enc_g2(v) + x =~= v.ram_palettes@ + (v.attr_files@ + (v.border_tiles@ + (v.border_raw@ + (enc_bool(
        v.has_chr,
    ) + (enc_bool(v.has_pct) + x))))));
}

/// Group 3's stored form, followed by `x`, field by field.
pub proof fn lemma_g3_layout(v: SgbView, x: Seq<u8>)
    ensures
        enc_g3(v) + x == enc_opt_box(v.obj_data) + (enc_opt_box(v.sou_trn) + (enc_opt_box(v.data_trn) + x)),
{
    reveal(enc_g3);
    assert(enc_g3(v) + x =~= enc_opt_box(v.obj_data) + (enc_opt_box(v.sou_trn) + (enc_opt_box(v.data_trn)
        + x)));
}

/// A stored payload slot starts with its presence flag, and a present
/// payload is there in full.
pub proof fn lemma_opt_box_head(o: Option<Vec<u8>>, x: Seq<u8>)
    requires
        payload_ok(o),
    ensures
        (enc_opt_box(o) + x).len() >= 1,
        (enc_opt_box(o) + x)[0] == 0 || ((enc_opt_box(o) + x)[0] == 1 && (enc_opt_box(o) + x).len() >= 4097),
{
    assert((enc_opt_box(o) + x)[0] == enc_opt_box(o)[0]);
}

/// Group 6's stored form, followed by `x`, field by field.
pub proof fn lemma_g6_layout(v: SgbView, x: Seq<u8>)
    ensures
        enc_g6(v) + x == enc_bool(v.atrc_en) + (enc_bool(v.test_en) + (enc_bool(v.icon_en) + (enc_bool(v.pal_pri)
            + (enc_opt_u32(v.jump) + x)))),
{
    reveal(enc_g6);
    lemma_assoc5(enc_bool(v.atrc_en), enc_bool(v.test_en), enc_bool(v.icon_en), enc_bool(v.pal_pri), enc_opt_u32(v.jump), x);
}

/// A stored flag is one byte, 0 or 1.
pub proof fn lemma_bool_head(b: bool, x: Seq<u8>)
    ensures
        (enc_bool(b) + x).len() >= 1,
        (enc_bool(b) + x)[0] <= 1,
{
    assert((enc_bool(b) + x)[0] == enc_bool(b)[0]);
}

/// A stored optional `u32` starts with its presence flag, and a present
/// value is there in full.
pub proof fn lemma_opt_u32_head(o: Option<u32>, x: Seq<u8>)
    ensures
        (enc_opt_u32(o) + x).len() >= 1,
        (enc_opt_u32(o) + x)[0] == 0 || ((enc_opt_u32(o) + x)[0] == 1 && (enc_opt_u32(o) + x).len() >= 5),
{
    reveal(enc_opt_u32);
    assert((enc_opt_u32(o) + x)[0] == enc_opt_u32(o)[0]);
}

/// Write an optional payload.
pub fn write_opt_box(w: &mut Writer, b: &Option<Vec<u8>>)
    ensures
        final(w)@ == old(w)@ + enc_opt_box(*b),
{
    match b {
        Some(data) => {
            w.bool(true);
            w.bytes(data.as_slice());
            assert(w@ =~= old(w)@ + enc_opt_box(*b));
        },
        None => {
            w.bool(false);
            assert(w@ =~= old(w)@ + enc_opt_box(*b));
        },
    }
}

/// Read an optional 4096-byte payload.
pub fn read_opt_box(r: &mut Reader) -> (res: Result<Option<Vec<u8>>, StateError>)
    requires
        old(r).wf(),
    ensures
        final(r).wf(),
        res is Ok ==> old(r).rest() == enc_opt_box(res->Ok_0) + final(r).rest(),
        res is Ok && res->Ok_0 is Some ==> res->Ok_0->Some_0@.len() == 4096,
        old(r).rest().len() >= 1 && (old(r).rest()[0] == 0 || (old(r).rest()[0] == 1 && old(r).rest().len() >= 4097))
            ==> res is Ok,
{
    let ghost r0 = r.rest();
    match r.bool() {
        Ok(true) => {
            match r.bytes_vec(4096) {
                Ok(v) => {
                    assert(r0 =~= enc_opt_box(Some(v)) + r.rest());
                    Ok(Some(v))
                },
                Err(e) => Err(e),
            }
        },
        Ok(false) => {
            assert(r0 =~= enc_opt_box(None) + r.rest());
            Ok(None)
        },
        Err(e) => Err(e),
    }
}

/// Read a flag.
pub fn read_flag(r: &mut Reader) -> (res: Result<bool, StateError>)
    requires
        old(r).wf(),
    ensures
        final(r).wf(),
        res is Ok ==> old(r).rest() == enc_bool(res->Ok_0) + final(r).rest(),
        old(r).rest().len() >= 1 && old(r).rest()[0] <= 1 ==> res is Ok,
{
    let ghost r0 = r.rest();
    let b = r.bool();
    match b {
        Ok(v) => {
            assert(r0 =~= enc_bool(v) + r.rest());
        },
        Err(_) => {},
    }
    b
}

/// Fill `out` from the stream.
pub fn read_bytes_into(r: &mut Reader, out: &mut [u8]) -> (res: Result<(), StateError>)
    requires
        old(r).wf(),
    ensures
        final(r).wf(),
        final(out)@.len() == old(out)@.len(),
        res is Ok ==> old(r).rest() == final(out)@ + final(r).rest(),
        old(r).rest().len() >= old(out)@.len() ==> res is Ok,
{
    let ghost r0 = r.rest();
    let got = r.bytes_into(out);
    if got.is_ok() {
        assert(r0 =~= out@ + r.rest());
    }
    got
}

/// Fill `out` with little-endian `u32`s from the stream.
pub fn read_u32s_into(r: &mut Reader, out: &mut [u32]) -> (res: Result<(), StateError>)
    requires
        old(r).wf(),
    ensures
        final(r).wf(),
        final(out)@.len() == old(out)@.len(),
        res is Ok ==> old(r).rest() == u32s_le(final(out)@) + final(r).rest(),
        old(r).rest().len() >= 4 * old(out)@.len() ==> res is Ok,
{
    let ghost r0 = r.rest();
    let got = r.u32_slice_into(out);
    if got.is_ok() {
        assert(r0 =~= u32s_le(out@) + r.rest());
    }
    got
}

/// Read an optional byte.
pub fn read_opt_u8(r: &mut Reader) -> (res: Result<Option<u8>, StateError>)
    requires
        old(r).wf(),
    ensures
        final(r).wf(),
        res is Ok ==> old(r).rest() == enc_opt_u8(res->Ok_0) + final(r).rest(),
        old(r).rest().len() >= 1 && (old(r).rest()[0] == 0 || (old(r).rest()[0] == 1 && old(r).rest().len() >= 2))
            ==> res is Ok,
{
    let ghost r0 = r.rest();
    match r.bool() {
        Ok(true) => {
            match r.u8() {
                Ok(d) => {
                    assert(r0 =~= enc_opt_u8(Some(d)) + r.rest());
                    Ok(Some(d))
                },
                Err(e) => Err(e),
            }
        },
        Ok(false) => {
            assert(r0 =~= enc_opt_u8(None) + r.rest());
            Ok(None)
        },
        Err(e) => Err(e),
    }
}

/// Read a little-endian `u32`.
pub fn read_u32_le(r: &mut Reader) -> (res: Result<u32, StateError>)
    requires
        old(r).wf(),
    ensures
        final(r).wf(),
        res is Ok ==> old(r).rest() == u32_le(res->Ok_0) + final(r).rest(),
        old(r).rest().len() >= 4 ==> res is Ok,
{
    let ghost r0 = r.rest();
    let v = r.u32();
    match v {
        Ok(t) => {
            proof {
                crate::state::lemma_u32_le_bytes(r0);
            }
            assert(r0 =~= u32_le(t) + r.rest());
        },
        Err(_) => {},
    }
    v
}

/// Read an optional `u32`.
pub fn read_opt_u32(r: &mut Reader) -> (res: Result<Option<u32>, StateError>)
    requires
        old(r).wf(),
    ensures
        final(r).wf(),
        res is Ok ==> old(r).rest() == enc_opt_u32(res->Ok_0) + final(r).rest(),
        old(r).rest().len() >= 1 && (old(r).rest()[0] == 0 || (old(r).rest()[0] == 1 && old(r).rest().len() >= 5))
            ==> res is Ok,
{
    proof {
        reveal(enc_opt_u32);
    }
    let ghost r0 = r.rest();
    match r.bool() {
        Ok(true) => {
            let ghost r1 = r.rest();
            match r.u32() {
                Ok(t) => {
                    proof {
                        crate::state::lemma_u32_le_bytes(r1);
                    }
                    assert(r0 =~= enc_opt_u32(Some(t)) + r.rest());
                    Ok(Some(t))
                },
                Err(e) => Err(e),
            }
        },
        Ok(false) => {
            assert(r0 =~= enc_opt_u32(None) + r.rest());
            Ok(None)
        },
        Err(e) => Err(e),
    }
}

impl SgbView {
    /// Append the stored form of the presentation state.
    pub fn write_state(&self, w: &mut Writer)
        requires
            self.wf(),
        ensures
            final(w)@ == old(w)@ + spec_encode(*self),
    {
        let ghost w0 = w@;
        self.write_g1(w);
        let ghost w1 = w@;
        self.write_g2(w);
        let ghost w2 = w@;
        self.write_g3(w);
        let ghost w3 = w@;
        self.write_g4(w);
        let ghost w4 = w@;
        self.write_g5(w);
        let ghost w5 = w@;
        self.write_g6(w);
        assert(w@ =~= w0 + spec_encode(*self));
    }

    fn write_g1(&self, w: &mut Writer)
        ensures
            final(w)@ == old(w)@ + enc_g1(*self),
    {
        proof {
            reveal(enc_g1);
        }
        w.u32_slice(self.pal.as_slice());
        w.bytes(self.attr.as_slice());
        w.u8(self.mask);
        w.bytes(self.shade_buf.as_slice());
        match self.pending_transfer {
            Some(d) => {
                w.bool(true);
                w.u8(d);
            },
            None => w.bool(false),
        }
        assert(w@ =~= old(w)@ + enc_g1(*self));
    }

    fn write_g2(&self, w: &mut Writer)
        ensures
            final(w)@ == old(w)@ + enc_g2(*self),
    {
        proof {
            reveal(enc_g2);
        }
        w.bytes(self.ram_palettes.as_slice());
        w.bytes(self.attr_files.as_slice());
        w.bytes(self.border_tiles.as_slice());
        w.bytes(self.border_raw.as_slice());
        w.bool(self.has_chr);
        w.bool(self.has_pct);
        assert(w@ =~= old(w)@ + enc_g2(*self));
    }

    fn write_g3(&self, w: &mut Writer)
        ensures
            final(w)@ == old(w)@ + enc_g3(*self),
    {
        proof {
            reveal(enc_g3);
        }
        write_opt_box(w, &self.obj_data);
        write_opt_box(w, &self.sou_trn);
        write_opt_box(w, &self.data_trn);
        assert(w@ =~= old(w)@ + enc_g3(*self));
    }

    fn write_g4(&self, w: &mut Writer)
        ensures
            final(w)@ == old(w)@ + enc_g4(*self),
    {
        proof {
            reveal(enc_g4);
        }
        w.u32(self.data_snd.len() as u32);
        let ghost w2 = old(w)@;
        let mut i: usize = 0;
        while i < self.data_snd.len()
            invariant
                0 <= i <= self.data_snd@.len(),
                w@ == w2 + u32_le(self.data_snd@.len() as u32) + enc_packets(self.data_snd@.subrange(0, i as int)),
            decreases self.data_snd@.len() - i,
        {
            let p = &self.data_snd[i];
            w.u32(p.len() as u32);
            w.bytes(p.as_slice());
            assert(self.data_snd@.subrange(0, i as int + 1).drop_last() =~= self.data_snd@.subrange(0, i as int));
            assert(w@ =~= w2 + u32_le(self.data_snd@.len() as u32) + enc_packets(self.data_snd@.subrange(
                0,
                i as int + 1,
            )));
            i += 1;
        }
        assert(self.data_snd@.subrange(0, i as int) =~= self.data_snd@);
        assert(w@ =~= old(w)@ + enc_g4(*self));
    }

    fn write_g5(&self, w: &mut Writer)
        ensures
            final(w)@ == old(w)@ + enc_g5(*self),
    {
        proof {
            reveal(enc_g5);
        }
        let ghost w3 = old(w)@;
        w.u32(self.sound_events.len() as u32);
        let mut i: usize = 0;
        while i < self.sound_events.len()
            invariant
                0 <= i <= self.sound_events@.len(),
                w@ == w3 + u32_le(self.sound_events@.len() as u32) + enc_sounds(self.sound_events@.subrange(0, i as int)),
            decreases self.sound_events@.len() - i,
        {
            let s = self.sound_events[i];
            w.u8(s.effect_a);
            w.u8(s.effect_b);
            w.u8(s.attenuation);
            w.u8(s.effect_bank);
            assert(self.sound_events@.subrange(0, i as int + 1).drop_last() =~= self.sound_events@.subrange(
                0,
                i as int,
            ));
            assert(w@ =~= w3 + u32_le(self.sound_events@.len() as u32) + enc_sounds(self.sound_events@.subrange(
                0,
                i as int + 1,
            )));
            i += 1;
        }
        assert(self.sound_events@.subrange(0, i as int) =~= self.sound_events@);
        assert(w@ =~= old(w)@ + enc_g5(*self));
    }

    fn write_g6(&self, w: &mut Writer)
        ensures
            final(w)@ == old(w)@ + enc_g6(*self),
    {
        proof {
            reveal(enc_opt_u32);
        }
        proof {
            reveal(enc_g6);
        }
        w.bool(self.atrc_en);
        w.bool(self.test_en);
        w.bool(self.icon_en);
        w.bool(self.pal_pri);
        match self.jump {
            Some(t) => {
                w.bool(true);
                w.u32(t);
            },
            None => w.bool(false),
        }
        assert(w@ =~= old(w)@ + enc_g6(*self));
    }

    /// Restore the stored presentation state, consuming the fields in the
    /// order [`Self::write_state`] produced them; on success the border fade
    /// is settled, on failure the state is well-formed but partial.
    pub fn read_state(&mut self, r: &mut Reader) -> (res: Result<(), StateError>)
        requires
            old(self).wf(),
            old(r).wf(),
        ensures
            final(self).wf(),
            final(r).wf(),
            res is Ok ==> old(r).rest() == spec_encode(*final(self)) + final(r).rest(),
            res is Ok ==> encodable(*final(self)),
            res is Ok ==> final(self).fade == 0 && !final(self).fade_pending,
            starts_state(old(r).rest()) ==> res is Ok,
            final(self).border_fb@ == old(self).border_fb@,
            final(self).fade_from@ == old(self).fade_from@,
            final(self).char_rows@ == old(self).char_rows@,
            final(self).trn_countdown == old(self).trn_countdown,
    {
        let ghost r0 = r.rest();
        let ghost spre = starts_state(r0);
        let ghost (v, x) = choose|v: SgbView, x: Seq<u8>|
            #![trigger spec_encode(v) + x]
            v.wf() && encodable(v) && r0 == spec_encode(v) + x;
        let ghost t6 = enc_g6(v) + x;
        let ghost t5 = enc_g5(v) + t6;
        let ghost t4 = enc_g4(v) + t5;
        let ghost t3 = enc_g3(v) + t4;
        let ghost t2 = enc_g2(v) + t3;
        proof {
            if spre {
                assert(r0 =~= enc_group(1, v) + t2);
            }
        }
        match self.read_g1(r) {
            Ok(()) => {},
            Err(e) => { return Err(e); },
        }
        let ghost s1 = *self;
        let ghost r1 = r.rest();
        proof {
            if spre {
                lemma_g1_unique(s1, r1, v, t2);
                assert(r1 == enc_group(2, v) + t3);
            }
        }
        match self.read_g2(r) {
            Ok(()) => {},
            Err(e) => { return Err(e); },
        }
        let ghost s2 = *self;
        let ghost r2 = r.rest();
        proof {
            if spre {
                lemma_g2_unique(s2, r2, v, t3);
                assert(r2 == enc_group(3, v) + t4);
            }
        }
        match self.read_g3(r) {
            Ok(()) => {},
            Err(e) => { return Err(e); },
        }
        let ghost s3 = *self;
        let ghost r3 = r.rest();
        proof {
            if spre {
                lemma_g3_unique(s3, r3, v, t4);
                assert(r3 == enc_group(4, v) + t5);
            }
        }
        match self.read_g4(r) {
            Ok(()) => {},
            Err(e) => { return Err(e); },
        }
        let ghost s4 = *self;
        let ghost r4 = r.rest();
        proof {
            if spre {
                lemma_g4_unique(s4, r4, v, t5);
                assert(r4 == enc_group(5, v) + t6);
            }
        }
        match self.read_g5(r) {
            Ok(()) => {},
            Err(e) => { return Err(e); },
        }
        let ghost s5 = *self;
        let ghost r5 = r.rest();
        proof {
            if spre {
                lemma_g5_unique(s5, r5, v, t6);
                assert(r5 == enc_group(6, v) + x);
            }
        }
        match self.read_g6(r) {
            Ok(()) => {},
            Err(e) => { return Err(e); },
        }
        let ghost s6 = *self;
        self.fade = 0;
        self.fade_pending = false;
        proof {
            lemma_encode_groups(s1, *self);
            lemma_encode_groups(s2, *self);
            lemma_encode_groups(s3, *self);
            lemma_encode_groups(s4, *self);
            lemma_encode_groups(s5, *self);
            lemma_encode_groups(s6, *self);
            assert(enc_g1(s1) == enc_g1(*self));
            assert(enc_g2(s2) == enc_g2(*self));
            assert(enc_g3(s3) == enc_g3(*self));
            assert(enc_g4(s4) == enc_g4(*self));
            assert(enc_g5(s5) == enc_g5(*self));
            assert(enc_g6(s6) == enc_g6(*self));
            assert(r4 =~= enc_g5(*self) + enc_g6(*self) + r.rest());
            assert(r3 =~= enc_g4(*self) + enc_g5(*self) + enc_g6(*self) + r.rest());
            assert(r2 =~= enc_g3(*self) + enc_g4(*self) + enc_g5(*self) + enc_g6(*self) + r.rest());
            assert(r1 =~= enc_g2(*self) + enc_g3(*self) + enc_g4(*self) + enc_g5(*self) + enc_g6(*self) + r.rest());
            assert(r0 =~= enc_g1(*self) + enc_g2(*self) + enc_g3(*self) + enc_g4(*self) + enc_g5(*self) + enc_g6(
                *self,
            ) + r.rest());
        }
        Ok(())
    }

    #[verifier::rlimit(30)]
    fn read_g1(&mut self, r: &mut Reader) -> (res: Result<(), StateError>)
        requires
            old(self).wf(),
            old(r).wf(),
        ensures
            final(self).wf(),
            final(r).wf(),
            unstored_kept(*final(self), *old(self)),
            res is Ok ==> old(r).rest() == enc_g1(*final(self)) + final(r).rest(),
            starts_group(1, old(r).rest()) ==> res is Ok,
            g2_kept(*final(self), *old(self)),
            g3_kept(*final(self), *old(self)),
            g4_kept(*final(self), *old(self)),
            g5_kept(*final(self), *old(self)),
            g6_kept(*final(self), *old(self)),
    {
        let ghost r0 = r.rest();
        let ghost pre = starts_group(1, r0);
        let ghost (tv, tx) = choose|v: SgbView, x: Seq<u8>|
            #![trigger enc_group(1, v) + x]
            v.wf() && encodable(v) && r0 == enc_group(1, v) + x;
        let ghost t4 = enc_opt_u8(tv.pending_transfer) + tx;
        let ghost t3 = tv.shade_buf@ + t4;
        let ghost t2 = seq![tv.mask] + t3;
        let ghost t1 = tv.attr@ + t2;
        proof {
            if pre {
                lemma_g1_layout(tv, tx);
            }
        }
        match read_u32s_into(r, self.pal.as_mut_slice()) {
            Ok(()) => {},
            Err(_) => { return Err(StateError::Truncated); },
        }
        proof {
            if pre {
                lemma_u32s_le_len(self.pal@);
                lemma_split(u32s_le(self.pal@), r.rest(), u32s_le(tv.pal@), t1);
            }
        }
        let ghost r2 = r.rest();
        match read_bytes_into(r, self.attr.as_mut_slice()) {
            Ok(()) => {},
            Err(e) => { return Err(e); },
        }
        proof {
            if pre {
                lemma_split(self.attr@, r.rest(), tv.attr@, t2);
            }
        }
        let mask = match r.u8() {
            Ok(v) => v,
            Err(e) => { return Err(e); },
        };
        let ghost r3 = r.rest();
        proof {
            if pre {
                assert(t2[0] == tv.mask);
                assert(t3 =~= t2.subrange(1, t2.len() as int));
                assert(r3 == t3);
            }
        }
        match read_bytes_into(r, self.shade_buf.as_mut_slice()) {
            Ok(()) => {},
            Err(e) => { return Err(e); },
        }
        proof {
            if pre {
                lemma_split(self.shade_buf@, r.rest(), tv.shade_buf@, t4);
                assert(t4[0] == enc_opt_u8(tv.pending_transfer)[0]);
                if tv.pending_transfer is Some {
                    assert(t4.len() >= 2);
                }
            }
        }
        let pending = match read_opt_u8(r) {
            Ok(v) => v,
            Err(e) => { return Err(e); },
        };
        self.mask = mask;
        self.pending_transfer = pending;
        proof {
            lemma_g1_layout(*self, r.rest());
            assert(r3 =~= self.shade_buf@ + (enc_opt_u8(pending) + r.rest()));
            assert(r0 =~= u32s_le(self.pal@) + (self.attr@ + (seq![mask] + r3)));
        }
        Ok(())
    }

    #[verifier::rlimit(30)]
    fn read_g2(&mut self, r: &mut Reader) -> (res: Result<(), StateError>)
        requires
            old(self).wf(),
            old(r).wf(),
        ensures
            final(self).wf(),
            final(r).wf(),
            unstored_kept(*final(self), *old(self)),
            res is Ok ==> old(r).rest() == enc_g2(*final(self)) + final(r).rest(),
            starts_group(2, old(r).rest()) ==> res is Ok,
            g1_kept(*final(self), *old(self)),
            g3_kept(*final(self), *old(self)),
            g4_kept(*final(self), *old(self)),
            g5_kept(*final(self), *old(self)),
            g6_kept(*final(self), *old(self)),
    {
        let ghost r0 = r.rest();
        let ghost pre = starts_group(2, r0);
        let ghost (tv, tx) = choose|v: SgbView, x: Seq<u8>|
            #![trigger enc_group(2, v) + x]
            v.wf() && encodable(v) && r0 == enc_group(2, v) + x;
        let ghost t5 = enc_bool(tv.has_pct) + tx;
        let ghost t4 = enc_bool(tv.has_chr) + t5;
        let ghost t3 = tv.border_raw@ + t4;
        let ghost t2 = tv.border_tiles@ + t3;
        let ghost t1 = tv.attr_files@ + t2;
        proof {
            if pre {
                lemma_g2_layout(tv, tx);
            }
        }
        match read_bytes_into(r, self.ram_palettes.as_mut_slice()) {
            Ok(()) => {},
            Err(e) => { return Err(e); },
        }
        proof {
            if pre {
                lemma_split(self.ram_palettes@, r.rest(), tv.ram_palettes@, t1);
            }
        }
        match read_bytes_into(r, self.attr_files.as_mut_slice()) {
            Ok(()) => {},
            Err(e) => { return Err(e); },
        }
        proof {
            if pre {
                lemma_split(self.attr_files@, r.rest(), tv.attr_files@, t2);
            }
        }
        match read_bytes_into(r, self.border_tiles.as_mut_slice()) {
            Ok(()) => {},
            Err(e) => { return Err(e); },
        }
        proof {
            if pre {
                lemma_split(self.border_tiles@, r.rest(), tv.border_tiles@, t3);
            }
        }
        match read_bytes_into(r, self.border_raw.as_mut_slice()) {
            Ok(()) => {},
            Err(e) => { return Err(e); },
        }
        proof {
            if pre {
                lemma_split(self.border_raw@, r.rest(), tv.border_raw@, t4);
                assert(t4[0] == enc_bool(tv.has_chr)[0]);
            }
        }
        let chr = match read_flag(r) {
            Ok(b) => b,
            Err(e) => { return Err(e); },
        };
        proof {
            if pre {
                lemma_split(enc_bool(chr), r.rest(), enc_bool(tv.has_chr), t5);
                assert(t5[0] == enc_bool(tv.has_pct)[0]);
            }
        }
        let pct = match read_flag(r) {
            Ok(b) => b,
            Err(e) => { return Err(e); },
        };
        self.has_chr = chr;
        self.has_pct = pct;
        proof {
            lemma_g2_layout(*self, r.rest());
        }
        Ok(())
    }

    fn read_g3(&mut self, r: &mut Reader) -> (res: Result<(), StateError>)
        requires
            old(self).wf(),
            old(r).wf(),
        ensures
            final(self).wf(),
            final(r).wf(),
            unstored_kept(*final(self), *old(self)),
            res is Ok ==> old(r).rest() == enc_g3(*final(self)) + final(r).rest(),
            starts_group(3, old(r).rest()) ==> res is Ok,
            g1_kept(*final(self), *old(self)),
            g2_kept(*final(self), *old(self)),
            g4_kept(*final(self), *old(self)),
            g5_kept(*final(self), *old(self)),
            g6_kept(*final(self), *old(self)),
    {
        let ghost r0 = r.rest();
        let ghost pre = starts_group(3, r0);
        let ghost (tv, tx) = choose|v: SgbView, x: Seq<u8>|
            #![trigger enc_group(3, v) + x]
            v.wf() && encodable(v) && r0 == enc_group(3, v) + x;
        let ghost t2 = enc_opt_box(tv.data_trn) + tx;
        let ghost t1 = enc_opt_box(tv.sou_trn) + t2;
        proof {
            if pre {
                lemma_g3_layout(tv, tx);
                lemma_opt_box_head(tv.obj_data, t1);
            }
        }
        let obj = match read_opt_box(r) {
            Ok(v) => v,
            Err(e) => { return Err(e); },
        };
        proof {
            if pre {
                lemma_opt_box_unique(obj, r.rest(), tv.obj_data, t1);
                lemma_opt_box_head(tv.sou_trn, t2);
            }
        }
        let sou = match read_opt_box(r) {
            Ok(v) => v,
            Err(e) => { return Err(e); },
        };
        proof {
            if pre {
                lemma_opt_box_unique(sou, r.rest(), tv.sou_trn, t2);
                lemma_opt_box_head(tv.data_trn, tx);
            }
        }
        let data = match read_opt_box(r) {
            Ok(v) => v,
            Err(e) => { return Err(e); },
        };
        self.obj_data = obj;
        self.sou_trn = sou;
        self.data_trn = data;
        proof {
            lemma_g3_layout(*self, r.rest());
        }
        Ok(())
    }

    #[verifier::loop_isolation(false)]
    #[verifier::rlimit(30)]
    fn read_g4(&mut self, r: &mut Reader) -> (res: Result<(), StateError>)
        requires
            old(self).wf(),
            old(r).wf(),
        ensures
            final(self).wf(),
            final(r).wf(),
            unstored_kept(*final(self), *old(self)),
            res is Ok ==> old(r).rest() == enc_g4(*final(self)) + final(r).rest(),
            res is Ok ==> final(self).data_snd@.len() < 0x1_0000_0000 && forall|k: int|
                0 <= k < final(self).data_snd@.len() ==> #[trigger] final(self).data_snd@[k]@.len() < 0x1_0000_0000,
            starts_group(4, old(r).rest()) ==> res is Ok,
            g1_kept(*final(self), *old(self)),
            g2_kept(*final(self), *old(self)),
            g3_kept(*final(self), *old(self)),
            g5_kept(*final(self), *old(self)),
            g6_kept(*final(self), *old(self)),
    {
        let ghost r0 = r.rest();
        let ghost pre = starts_group(4, r0);
        let ghost (tv, tx) = choose|v: SgbView, x: Seq<u8>|
            #![trigger enc_group(4, v) + x]
            v.wf() && encodable(v) && r0 == enc_group(4, v) + x;
        let ghost tp = tv.data_snd@;
        proof {
            if pre {
                reveal(enc_g4);
                assert(r0 =~= u32_le(tp.len() as u32) + (enc_packets(tp) + tx));
            }
        }
        let n = match read_u32_le(r) {
            Ok(v) => v,
            Err(e) => { return Err(e); },
        };
        let ghost r1 = r.rest();
        proof {
            if pre {
                lemma_split(u32_le(n), r1, u32_le(tp.len() as u32), enc_packets(tp) + tx);
                lemma_u32_le_inj(n, tp.len() as u32);
                assert(tp.skip(0) =~= tp);
            }
        }
        let mut packets: Vec<Vec<u8>> = Vec::new();
        let mut i: u32 = 0;
        while i < n
            invariant
                0 <= i <= n,
                r.wf(),
                packets@.len() == i,
                r1 == enc_packets(packets@) + r.rest(),
                forall|k: int| 0 <= k < packets@.len() ==> #[trigger] packets@[k]@.len() < 0x1_0000_0000,
                pre ==> n == tp.len() && r.rest() == enc_packets(tp.skip(i as int)) + tx,
            decreases n - i,
        {
            let ghost rb = r.rest();
            let ghost q = tp.skip(i as int);
            proof {
                if pre {
                    lemma_packets_front(q);
                    assert(rb =~= u32_le(q[0]@.len() as u32) + (q[0]@ + (enc_packets(q.drop_first()) + tx)));
                }
            }
            let len = match read_u32_le(r) {
                Ok(v) => v,
                Err(e) => { return Err(e); },
            };
            let ghost rm = r.rest();
            proof {
                if pre {
                    lemma_split(u32_le(len), rm, u32_le(q[0]@.len() as u32), q[0]@ + (enc_packets(q.drop_first()) + tx));
                    lemma_u32_le_inj(len, q[0]@.len() as u32);
                }
            }
            let p = match r.bytes_vec(len as usize) {
                Ok(v) => v,
                Err(e) => { return Err(e); },
            };
            assert(rm =~= p@ + r.rest());
            proof {
                if pre {
                    lemma_split(p@, r.rest(), q[0]@, enc_packets(q.drop_first()) + tx);
                    assert(q.drop_first() =~= tp.skip(i as int + 1));
                }
            }
            let ghost before = packets@;
            packets.push(p);
            assert(packets@.drop_last() =~= before);
            assert(r1 =~= enc_packets(packets@) + r.rest());
            i += 1;
        }
        proof {
            reveal(enc_g4);
        }
        assert(r0 =~= u32_le(packets@.len() as u32) + enc_packets(packets@) + r.rest());
        self.data_snd = packets;
        Ok(())
    }

    #[verifier::loop_isolation(false)]
    fn read_g5(&mut self, r: &mut Reader) -> (res: Result<(), StateError>)
        requires
            old(self).wf(),
            old(r).wf(),
        ensures
            final(self).wf(),
            final(r).wf(),
            unstored_kept(*final(self), *old(self)),
            res is Ok ==> old(r).rest() == enc_g5(*final(self)) + final(r).rest(),
            res is Ok ==> final(self).sound_events@.len() < 0x1_0000_0000,
            starts_group(5, old(r).rest()) ==> res is Ok,
            g1_kept(*final(self), *old(self)),
            g2_kept(*final(self), *old(self)),
            g3_kept(*final(self), *old(self)),
            g4_kept(*final(self), *old(self)),
            g6_kept(*final(self), *old(self)),
    {
        let ghost r0 = r.rest();
        let ghost pre = starts_group(5, r0);
        let ghost (tv, tx) = choose|v: SgbView, x: Seq<u8>|
            #![trigger enc_group(5, v) + x]
            v.wf() && encodable(v) && r0 == enc_group(5, v) + x;
        let ghost ts = tv.sound_events@;
        proof {
            if pre {
                reveal(enc_g5);
                assert(r0 =~= u32_le(ts.len() as u32) + (enc_sounds(ts) + tx));
            }
        }
        let m = match read_u32_le(r) {
            Ok(v) => v,
            Err(e) => { return Err(e); },
        };
        let ghost r1 = r.rest();
        proof {
            if pre {
                lemma_split(u32_le(m), r1, u32_le(ts.len() as u32), enc_sounds(ts) + tx);
                lemma_u32_le_inj(m, ts.len() as u32);
                assert(ts.skip(0) =~= ts);
            }
        }
        let mut sounds: Vec<SgbSound> = Vec::new();
        let mut i: u32 = 0;
        while i < m
            invariant
                0 <= i <= m,
                r.wf(),
                sounds@.len() == i,
                r1 == enc_sounds(sounds@) + r.rest(),
                pre ==> m == ts.len() && r.rest() == enc_sounds(ts.skip(i as int)) + tx,
            decreases m - i,
        {
            let ghost rb = r.rest();
            let ghost q = ts.skip(i as int);
            proof {
                if pre {
                    lemma_sounds_front(q);
                    lemma_sounds_len(q.drop_first());
                    assert(rb =~= seq![q[0].effect_a, q[0].effect_b, q[0].attenuation, q[0].effect_bank] + (enc_sounds(
                        q.drop_first(),
                    ) + tx));
                    assert(q.drop_first() =~= ts.skip(i as int + 1));
                }
            }
            let a = match r.u8() {
                Ok(v) => v,
                Err(e) => { return Err(e); },
            };
            let b = match r.u8() {
                Ok(v) => v,
                Err(e) => { return Err(e); },
            };
            let c = match r.u8() {
                Ok(v) => v,
                Err(e) => { return Err(e); },
            };
            let d = match r.u8() {
                Ok(v) => v,
                Err(e) => { return Err(e); },
            };
            assert(rb =~= seq![a, b, c, d] + r.rest());
            proof {
                if pre {
                    assert(r.rest() =~= rb.subrange(4, rb.len() as int));
                    assert(enc_sounds(q.drop_first()) + tx =~= rb.subrange(4, rb.len() as int));
                }
            }
            let ghost before = sounds@;
            sounds.push(SgbSound { effect_a: a, effect_b: b, attenuation: c, effect_bank: d });
            assert(sounds@.drop_last() =~= before);
            assert(r1 =~= enc_sounds(sounds@) + r.rest());
            i += 1;
        }
        proof {
            reveal(enc_g5);
        }
        assert(r0 =~= u32_le(sounds@.len() as u32) + enc_sounds(sounds@) + r.rest());
        self.sound_events = sounds;
        Ok(())
    }

    fn read_g6(&mut self, r: &mut Reader) -> (res: Result<(), StateError>)
        requires
            old(self).wf(),
            old(r).wf(),
        ensures
            final(self).wf(),
            final(r).wf(),
            unstored_kept(*final(self), *old(self)),
            res is Ok ==> old(r).rest() == enc_g6(*final(self)) + final(r).rest(),
            starts_group(6, old(r).rest()) ==> res is Ok,
            g1_kept(*final(self), *old(self)),
            g2_kept(*final(self), *old(self)),
            g3_kept(*final(self), *old(self)),
            g4_kept(*final(self), *old(self)),
            g5_kept(*final(self), *old(self)),
    {
        let ghost r0 = r.rest();
        let ghost pre = starts_group(6, r0);
        let ghost (tv, tx) = choose|v: SgbView, x: Seq<u8>|
            #![trigger enc_group(6, v) + x]
            v.wf() && encodable(v) && r0 == enc_group(6, v) + x;
        let ghost t4 = enc_opt_u32(tv.jump) + tx;
        let ghost t3 = enc_bool(tv.pal_pri) + t4;
        let ghost t2 = enc_bool(tv.icon_en) + t3;
        let ghost t1 = enc_bool(tv.test_en) + t2;
        proof {
            if pre {
                lemma_g6_layout(tv, tx);
                lemma_bool_head(tv.atrc_en, t1);
            }
        }
        let atrc = match read_flag(r) {
            Ok(b) => b,
            Err(e) => { return Err(e); },
        };
        proof {
            if pre {
                lemma_split(enc_bool(atrc), r.rest(), enc_bool(tv.atrc_en), t1);
                lemma_bool_head(tv.test_en, t2);
            }
        }
        let test = match read_flag(r) {
            Ok(b) => b,
            Err(e) => { return Err(e); },
        };
        proof {
            if pre {
                lemma_split(enc_bool(test), r.rest(), enc_bool(tv.test_en), t2);
                lemma_bool_head(tv.icon_en, t3);
            }
        }
        let icon = match read_flag(r) {
            Ok(b) => b,
            Err(e) => { return Err(e); },
        };
        proof {
            if pre {
                lemma_split(enc_bool(icon), r.rest(), enc_bool(tv.icon_en), t3);
                lemma_bool_head(tv.pal_pri, t4);
            }
        }
        let pri = match read_flag(r) {
            Ok(b) => b,
            Err(e) => { return Err(e); },
        };
        proof {
            if pre {
                lemma_split(enc_bool(pri), r.rest(), enc_bool(tv.pal_pri), t4);
                lemma_opt_u32_head(tv.jump, tx);
            }
        }
        let jump = match read_opt_u32(r) {
            Ok(j) => j,
            Err(e) => { return Err(e); },
        };
        self.atrc_en = atrc;
        self.test_en = test;
        self.icon_en = icon;
        self.pal_pri = pri;
        self.jump = jump;
        proof {
            lemma_g6_layout(*self, r.rest());
        }
        Ok(())
    }
}

} // verus!
