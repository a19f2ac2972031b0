//! The stored form of the presentation state decodes one way only: a
//! stream that begins with the stored form of one state begins with the
//! stored form of no other, so what a read restores is what was written.
use vstd::prelude::*;
use super::save::{
    enc_bool, enc_g1, enc_g2, enc_g3, enc_g4, enc_g5, enc_g6, enc_opt_box, enc_opt_u32, enc_opt_u8,
    enc_packets, enc_sounds, spec_encode, starts_state,
};
use super::{payload_ok, SgbSound, SgbView};
use crate::state::{lemma_u32_le_round_trip, u32_le, u32s_le};

verus! {

/// A payload slot by its bytes.
pub open spec fn opt_bytes(o: Option<Vec<u8>>) -> Option<Seq<u8>> {
    match o {
        Some(v) => Some(v@),
        None => None,
    }
}

/// The DATA_SND queue by its packets' bytes.
pub open spec fn packet_bytes(ps: Seq<Vec<u8>>) -> Seq<Seq<u8>> {
    ps.map_values(|p: Vec<u8>| p@)
}

/// The DATA_SND queue and its packets fit the stream's 32-bit length
/// fields.
pub open spec fn packets_fit(s: SgbView) -> bool {
    &&& s.data_snd@.len() < 0x1_0000_0000
    &&& forall|k: int| 0 <= k < s.data_snd@.len() ==> #[trigger] s.data_snd@[k]@.len() < 0x1_0000_0000
}

/// The queues and packets fit the stream's 32-bit length fields.
pub open spec fn encodable(s: SgbView) -> bool {
    &&& packets_fit(s)
    &&& s.sound_events@.len() < 0x1_0000_0000
}

/// Two presentation states agree on every stored field.
pub open spec fn same_stored(a: SgbView, b: SgbView) -> bool {
    &&& a.pal@ == b.pal@
    &&& a.attr@ == b.attr@
    &&& a.mask == b.mask
    &&& a.shade_buf@ == b.shade_buf@
    &&& a.pending_transfer == b.pending_transfer
    &&& a.ram_palettes@ == b.ram_palettes@
    &&& a.attr_files@ == b.attr_files@
    &&& a.border_tiles@ == b.border_tiles@
    &&& a.border_raw@ == b.border_raw@
    &&& a.has_chr == b.has_chr
    &&& a.has_pct == b.has_pct
    &&& opt_bytes(a.obj_data) == opt_bytes(b.obj_data)
    &&& opt_bytes(a.sou_trn) == opt_bytes(b.sou_trn)
    &&& opt_bytes(a.data_trn) == opt_bytes(b.data_trn)
    &&& packet_bytes(a.data_snd@) == packet_bytes(b.data_snd@)
    &&& a.sound_events@ == b.sound_events@
    &&& a.atrc_en == b.atrc_en
    &&& a.test_en == b.test_en
    &&& a.icon_en == b.icon_en
    &&& a.pal_pri == b.pal_pri
    &&& a.jump == b.jump
}

/// Two streams that agree after equally long heads agree on the heads and
/// on the tails.
pub proof fn lemma_split(p: Seq<u8>, x: Seq<u8>, q: Seq<u8>, y: Seq<u8>)
    requires
        p.len() == q.len(),
        p + x == q + y,
    ensures
        p == q,
        x == y,
{
    assert(p =~= (p + x).subrange(0, p.len() as int));
    assert(q =~= (q + y).subrange(0, q.len() as int));
    assert(x =~= (p + x).subrange(p.len() as int, (p + x).len() as int));
    assert(y =~= (q + y).subrange(q.len() as int, (q + y).len() as int));
}

/// A `u32` is its little-endian bytes.
pub proof fn lemma_u32_le_inj(a: u32, b: u32)
    requires
        u32_le(a) == u32_le(b),
    ensures
        a == b,
{
    lemma_u32_le_round_trip(a);
    lemma_u32_le_round_trip(b);
}

pub proof fn lemma_u32s_le_len(s: Seq<u32>)
    ensures
        u32s_le(s).len() == 4 * s.len(),
    decreases s.len(),
{
    if s.len() > 0 {
        lemma_u32s_le_len(s.drop_last());
    }
}

pub proof fn lemma_u32s_le_inj(s: Seq<u32>, t: Seq<u32>)
    requires
        s.len() == t.len(),
        u32s_le(s) == u32s_le(t),
    ensures
        s == t,
    decreases s.len(),
{
    if s.len() > 0 {
        lemma_u32s_le_len(s.drop_last());
        lemma_u32s_le_len(t.drop_last());
        lemma_split(u32s_le(s.drop_last()), u32_le(s.last()), u32s_le(t.drop_last()), u32_le(t.last()));
        lemma_u32s_le_inj(s.drop_last(), t.drop_last());
        lemma_u32_le_inj(s.last(), t.last());
        assert(s =~= s.drop_last().push(s.last()));
        assert(t =~= t.drop_last().push(t.last()));
    } else {
        assert(s =~= t);
    }
}

pub proof fn lemma_bool_unique(a: bool, x: Seq<u8>, b: bool, y: Seq<u8>)
    requires
        enc_bool(a) + x == enc_bool(b) + y,
    ensures
        a == b,
        x == y,
{
    lemma_split(enc_bool(a), x, enc_bool(b), y);
    assert(enc_bool(a)[0] == enc_bool(b)[0]);
}

pub proof fn lemma_opt_u8_unique(a: Option<u8>, x: Seq<u8>, b: Option<u8>, y: Seq<u8>)
    requires
        enc_opt_u8(a) + x == enc_opt_u8(b) + y,
    ensures
        a == b,
        x == y,
{
    assert((enc_opt_u8(a) + x)[0] == enc_opt_u8(a)[0]);
    assert((enc_opt_u8(b) + y)[0] == enc_opt_u8(b)[0]);
    lemma_split(enc_opt_u8(a), x, enc_opt_u8(b), y);
    if a is Some {
        assert(enc_opt_u8(a)[1] == enc_opt_u8(b)[1]);
    }
}

pub proof fn lemma_opt_u32_unique(a: Option<u32>, x: Seq<u8>, b: Option<u32>, y: Seq<u8>)
    requires
        enc_opt_u32(a) + x == enc_opt_u32(b) + y,
    ensures
        a == b,
        x == y,
{
    reveal(enc_opt_u32);
    assert((enc_opt_u32(a) + x)[0] == enc_opt_u32(a)[0]);
    assert((enc_opt_u32(b) + y)[0] == enc_opt_u32(b)[0]);
    lemma_split(enc_opt_u32(a), x, enc_opt_u32(b), y);
    if let Some(va) = a {
        let vb = b->Some_0;
        assert(u32_le(va) =~= enc_opt_u32(a).subrange(1, 5));
        assert(u32_le(vb) =~= enc_opt_u32(b).subrange(1, 5));
        lemma_u32_le_inj(va, vb);
    }
}

pub proof fn lemma_opt_box_unique(a: Option<Vec<u8>>, x: Seq<u8>, b: Option<Vec<u8>>, y: Seq<u8>)
    requires
        payload_ok(a),
        payload_ok(b),
        enc_opt_box(a) + x == enc_opt_box(b) + y,
    ensures
        opt_bytes(a) == opt_bytes(b),
        x == y,
{
    assert((enc_opt_box(a) + x)[0] == enc_opt_box(a)[0]);
    assert((enc_opt_box(b) + y)[0] == enc_opt_box(b)[0]);
    lemma_split(enc_opt_box(a), x, enc_opt_box(b), y);
    if let Some(va) = a {
        let vb = b->Some_0;
        assert(va@ =~= enc_opt_box(a).subrange(1, 4097));
        assert(vb@ =~= enc_opt_box(b).subrange(1, 4097));
    }
}

/// The packet queue's stored form read front to back: the first packet's
/// length and bytes, then the rest.
pub proof fn lemma_packets_front(ps: Seq<Vec<u8>>)
    requires
        ps.len() > 0,
    ensures
        enc_packets(ps) == u32_le(ps[0]@.len() as u32) + ps[0]@ + enc_packets(ps.drop_first()),
    decreases ps.len(),
{
    if ps.len() == 1 {
        assert(ps.drop_last() =~= Seq::<Vec<u8>>::empty());
        assert(ps.drop_first() =~= Seq::<Vec<u8>>::empty());
        assert(enc_packets(ps) =~= u32_le(ps[0]@.len() as u32) + ps[0]@ + enc_packets(ps.drop_first()));
    } else {
        let d = ps.drop_last();
        lemma_packets_front(d);
        assert(d.drop_first() =~= ps.drop_first().drop_last());
        assert(ps.drop_first().last() == ps.last());
        assert(enc_packets(ps) =~= u32_le(ps[0]@.len() as u32) + ps[0]@ + enc_packets(ps.drop_first()));
    }
}

pub proof fn lemma_packets_unique(ps: Seq<Vec<u8>>, x: Seq<u8>, qs: Seq<Vec<u8>>, y: Seq<u8>)
    requires
        ps.len() == qs.len(),
        forall|k: int| 0 <= k < ps.len() ==> #[trigger] ps[k]@.len() < 0x1_0000_0000,
        forall|k: int| 0 <= k < qs.len() ==> #[trigger] qs[k]@.len() < 0x1_0000_0000,
        enc_packets(ps) + x == enc_packets(qs) + y,
    ensures
        packet_bytes(ps) == packet_bytes(qs),
        x == y,
    decreases ps.len(),
{
    if ps.len() == 0 {
        assert(enc_packets(ps) + x =~= x);
        assert(enc_packets(qs) + y =~= y);
        assert(packet_bytes(ps) =~= packet_bytes(qs));
    } else {
        lemma_packets_front(ps);
        lemma_packets_front(qs);
        let (p0, q0) = (ps[0]@, qs[0]@);
        let (pr, qr) = (enc_packets(ps.drop_first()) + x, enc_packets(qs.drop_first()) + y);
        assert(enc_packets(ps) + x =~= u32_le(p0.len() as u32) + (p0 + pr));
        assert(enc_packets(qs) + y =~= u32_le(q0.len() as u32) + (q0 + qr));
        lemma_split(u32_le(p0.len() as u32), p0 + pr, u32_le(q0.len() as u32), q0 + qr);
        lemma_u32_le_inj(p0.len() as u32, q0.len() as u32);
        lemma_split(p0, pr, q0, qr);
        lemma_packets_unique(ps.drop_first(), x, qs.drop_first(), y);
        assert forall|k: int| 0 <= k < ps.len() implies #[trigger] packet_bytes(ps)[k] == packet_bytes(qs)[k] by {
            if k > 0 {
                assert(packet_bytes(ps.drop_first())[k - 1] == packet_bytes(qs.drop_first())[k - 1]);
            }
        }
        assert(packet_bytes(ps) =~= packet_bytes(qs));
    }
}

pub proof fn lemma_sounds_len(ss: Seq<SgbSound>)
    ensures
        enc_sounds(ss).len() == 4 * ss.len(),
    decreases ss.len(),
{
    if ss.len() > 0 {
        lemma_sounds_len(ss.drop_last());
    }
}

/// The sound queue's stored form read front to back.
pub proof fn lemma_sounds_front(ss: Seq<SgbSound>)
    requires
        ss.len() > 0,
    ensures
        enc_sounds(ss) == seq![ss[0].effect_a, ss[0].effect_b, ss[0].attenuation, ss[0].effect_bank] + enc_sounds(
            ss.drop_first(),
        ),
    decreases ss.len(),
{
    let h = seq![ss[0].effect_a, ss[0].effect_b, ss[0].attenuation, ss[0].effect_bank];
    if ss.len() == 1 {
        assert(ss.drop_last() =~= Seq::<SgbSound>::empty());
        assert(ss.drop_first() =~= Seq::<SgbSound>::empty());
        assert(enc_sounds(ss) =~= h + enc_sounds(ss.drop_first()));
    } else {
        let d = ss.drop_last();
        lemma_sounds_front(d);
        assert(d.drop_first() =~= ss.drop_first().drop_last());
        assert(ss.drop_first().last() == ss.last());
        assert(enc_sounds(ss) =~= h + enc_sounds(ss.drop_first()));
    }
}

pub proof fn lemma_sounds_inj(ss: Seq<SgbSound>, ts: Seq<SgbSound>)
    requires
        ss.len() == ts.len(),
        enc_sounds(ss) == enc_sounds(ts),
    ensures
        ss == ts,
    decreases ss.len(),
{
    if ss.len() > 0 {
        lemma_sounds_len(ss.drop_last());
        lemma_sounds_len(ts.drop_last());
        let (a, b) = (ss.last(), ts.last());
        lemma_split(
            enc_sounds(ss.drop_last()),
            seq![a.effect_a, a.effect_b, a.attenuation, a.effect_bank],
            enc_sounds(ts.drop_last()),
            seq![b.effect_a, b.effect_b, b.attenuation, b.effect_bank],
        );
        assert(seq![a.effect_a, a.effect_b, a.attenuation, a.effect_bank][0] == seq![b.effect_a, b.effect_b, b.attenuation, b.effect_bank][0]);
        assert(seq![a.effect_a, a.effect_b, a.attenuation, a.effect_bank][1] == seq![b.effect_a, b.effect_b, b.attenuation, b.effect_bank][1]);
        assert(seq![a.effect_a, a.effect_b, a.attenuation, a.effect_bank][2] == seq![b.effect_a, b.effect_b, b.attenuation, b.effect_bank][2]);
        assert(seq![a.effect_a, a.effect_b, a.attenuation, a.effect_bank][3] == seq![b.effect_a, b.effect_b, b.attenuation, b.effect_bank][3]);
        lemma_sounds_inj(ss.drop_last(), ts.drop_last());
        assert(ss =~= ss.drop_last().push(a));
        assert(ts =~= ts.drop_last().push(b));
    } else {
        assert(ss =~= ts);
    }
}


/// Appending to five concatenated parts nests to the right.
pub proof fn lemma_assoc5(p1: Seq<u8>, p2: Seq<u8>, p3: Seq<u8>, p4: Seq<u8>, p5: Seq<u8>, x: Seq<u8>)
    ensures
        p1 + p2 + p3 + p4 + p5 + x == p1 + (p2 + (p3 + (p4 + (p5 + x)))),
{
    assert(p1 + p2 + p3 + p4 + p5 + x =~= p1 + (p2 + (p3 + (p4 + (p5 + x)))));
}

pub proof fn lemma_g1_unique(a: SgbView, x: Seq<u8>, b: SgbView, y: Seq<u8>)
    requires
        a.wf(),
        b.wf(),
        enc_g1(a) + x == enc_g1(b) + y,
    ensures
        a.pal@ == b.pal@ && a.attr@ == b.attr@ && a.mask == b.mask && a.shade_buf@ == b.shade_buf@
            && a.pending_transfer == b.pending_transfer,
        x == y,
{
    reveal(enc_g1);
    lemma_u32s_le_len(a.pal@);
    lemma_u32s_le_len(b.pal@);
    let ra = a.attr@ + (seq![a.mask] + (a.shade_buf@ + (enc_opt_u8(a.pending_transfer) + x)));
    let rb = b.attr@ + (seq![b.mask] + (b.shade_buf@ + (enc_opt_u8(b.pending_transfer) + y)));
    assert(enc_g1(a) + x =~= u32s_le(a.pal@) + ra);
    assert(enc_g1(b) + y =~= u32s_le(b.pal@) + rb);
    lemma_split(u32s_le(a.pal@), ra, u32s_le(b.pal@), rb);
    lemma_u32s_le_inj(a.pal@, b.pal@);
    let sa = seq![a.mask] + (a.shade_buf@ + (enc_opt_u8(a.pending_transfer) + x));
    let sb = seq![b.mask] + (b.shade_buf@ + (enc_opt_u8(b.pending_transfer) + y));
    lemma_split(a.attr@, sa, b.attr@, sb);
    let ta = a.shade_buf@ + (enc_opt_u8(a.pending_transfer) + x);
    let tb = b.shade_buf@ + (enc_opt_u8(b.pending_transfer) + y);
    lemma_split(seq![a.mask], ta, seq![b.mask], tb);
    assert(seq![a.mask][0] == seq![b.mask][0]);
    lemma_split(a.shade_buf@, enc_opt_u8(a.pending_transfer) + x, b.shade_buf@, enc_opt_u8(b.pending_transfer) + y);
    lemma_opt_u8_unique(a.pending_transfer, x, b.pending_transfer, y);
}

pub proof fn lemma_g2_unique(a: SgbView, x: Seq<u8>, b: SgbView, y: Seq<u8>)
    requires
        a.wf(),
        b.wf(),
        enc_g2(a) + x == enc_g2(b) + y,
    ensures
        a.ram_palettes@ == b.ram_palettes@ && a.attr_files@ == b.attr_files@ && a.border_tiles@ == b.border_tiles@
            && a.border_raw@ == b.border_raw@ && a.has_chr == b.has_chr && a.has_pct == b.has_pct,
        x == y,
{
    reveal(enc_g2);
    let fa = enc_bool(a.has_chr) + (enc_bool(a.has_pct) + x);
    let fb = enc_bool(b.has_chr) + (enc_bool(b.has_pct) + y);
    let ea = a.border_raw@ + fa;
    let eb = b.border_raw@ + fb;
    let da = a.border_tiles@ + ea;
    let db = b.border_tiles@ + eb;
    let ca = a.attr_files@ + da;
    let cb = b.attr_files@ + db;
    assert(enc_g2(a) + x =~= a.ram_palettes@ + ca);
    assert(enc_g2(b) + y =~= b.ram_palettes@ + cb);
    lemma_split(a.ram_palettes@, ca, b.ram_palettes@, cb);
    lemma_split(a.attr_files@, da, b.attr_files@, db);
    lemma_split(a.border_tiles@, ea, b.border_tiles@, eb);
    lemma_split(a.border_raw@, fa, b.border_raw@, fb);
    lemma_bool_unique(a.has_chr, enc_bool(a.has_pct) + x, b.has_chr, enc_bool(b.has_pct) + y);
    lemma_bool_unique(a.has_pct, x, b.has_pct, y);
}

#[verifier::rlimit(30)]
pub proof fn lemma_g3_unique(a: SgbView, x: Seq<u8>, b: SgbView, y: Seq<u8>)
    requires
        a.wf(),
        b.wf(),
        enc_g3(a) + x == enc_g3(b) + y,
    ensures
        opt_bytes(a.obj_data) == opt_bytes(b.obj_data) && opt_bytes(a.sou_trn) == opt_bytes(b.sou_trn)
            && opt_bytes(a.data_trn) == opt_bytes(b.data_trn),
        x == y,
{
    reveal(enc_g3);
    let ta = enc_opt_box(a.sou_trn) + (enc_opt_box(a.data_trn) + x);
    let tb = enc_opt_box(b.sou_trn) + (enc_opt_box(b.data_trn) + y);
    assert(enc_g3(a) + x =~= enc_opt_box(a.obj_data) + ta);
    assert(enc_g3(b) + y =~= enc_opt_box(b.obj_data) + tb);
    lemma_opt_box_unique(a.obj_data, ta, b.obj_data, tb);
    lemma_opt_box_unique(a.sou_trn, enc_opt_box(a.data_trn) + x, b.sou_trn, enc_opt_box(b.data_trn) + y);
    lemma_opt_box_unique(a.data_trn, x, b.data_trn, y);
}

pub proof fn lemma_g4_unique(a: SgbView, x: Seq<u8>, b: SgbView, y: Seq<u8>)
    requires
        packets_fit(a),
        packets_fit(b),
        enc_g4(a) + x == enc_g4(b) + y,
    ensures
        packet_bytes(a.data_snd@) == packet_bytes(b.data_snd@),
        x == y,
{
    reveal(enc_g4);
    let (na, nb) = (a.data_snd@.len() as u32, b.data_snd@.len() as u32);
    let ta = enc_packets(a.data_snd@) + x;
    let tb = enc_packets(b.data_snd@) + y;
    assert(enc_g4(a) + x =~= u32_le(na) + ta);
    assert(enc_g4(b) + y =~= u32_le(nb) + tb);
    lemma_split(u32_le(na), ta, u32_le(nb), tb);
    lemma_u32_le_inj(na, nb);
    lemma_packets_unique(a.data_snd@, x, b.data_snd@, y);
}

pub proof fn lemma_g5_unique(a: SgbView, x: Seq<u8>, b: SgbView, y: Seq<u8>)
    requires
        a.sound_events@.len() < 0x1_0000_0000,
        b.sound_events@.len() < 0x1_0000_0000,
        enc_g5(a) + x == enc_g5(b) + y,
    ensures
        a.sound_events@ == b.sound_events@,
        x == y,
{
    reveal(enc_g5);
    let (na, nb) = (a.sound_events@.len() as u32, b.sound_events@.len() as u32);
    let ta = enc_sounds(a.sound_events@) + x;
    let tb = enc_sounds(b.sound_events@) + y;
    assert(enc_g5(a) + x =~= u32_le(na) + ta);
    assert(enc_g5(b) + y =~= u32_le(nb) + tb);
    lemma_split(u32_le(na), ta, u32_le(nb), tb);
    lemma_u32_le_inj(na, nb);
    lemma_sounds_len(a.sound_events@);
    lemma_sounds_len(b.sound_events@);
    lemma_split(enc_sounds(a.sound_events@), x, enc_sounds(b.sound_events@), y);
    lemma_sounds_inj(a.sound_events@, b.sound_events@);
}

pub proof fn lemma_g6_unique(a: SgbView, x: Seq<u8>, b: SgbView, y: Seq<u8>)
    requires
        enc_g6(a) + x == enc_g6(b) + y,
    ensures
        a.atrc_en == b.atrc_en && a.test_en == b.test_en && a.icon_en == b.icon_en && a.pal_pri == b.pal_pri
            && a.jump == b.jump,
        x == y,
{
    reveal(enc_g6);
    let ja = enc_opt_u32(a.jump) + x;
    let jb = enc_opt_u32(b.jump) + y;
    let pa = enc_bool(a.pal_pri) + ja;
    let pb = enc_bool(b.pal_pri) + jb;
    let ia = enc_bool(a.icon_en) + pa;
    let ib = enc_bool(b.icon_en) + pb;
    let ta = enc_bool(a.test_en) + ia;
    let tb = enc_bool(b.test_en) + ib;
    lemma_assoc5(enc_bool(a.atrc_en), enc_bool(a.test_en), enc_bool(a.icon_en), enc_bool(a.pal_pri), enc_opt_u32(a.jump), x);
    lemma_assoc5(enc_bool(b.atrc_en), enc_bool(b.test_en), enc_bool(b.icon_en), enc_bool(b.pal_pri), enc_opt_u32(b.jump), y);
    lemma_bool_unique(a.atrc_en, ta, b.atrc_en, tb);
    lemma_bool_unique(a.test_en, ia, b.test_en, ib);
    lemma_bool_unique(a.icon_en, pa, b.icon_en, pb);
    lemma_bool_unique(a.pal_pri, ja, b.pal_pri, jb);
    lemma_opt_u32_unique(a.jump, x, b.jump, y);
}

/// The stored form decodes one way only: a stream that begins with the
/// stored form of a state `a` and also with that of `b` has `a` and `b`
/// agree on every stored field, and the same bytes follow.
pub proof fn lemma_encode_unique(a: SgbView, x: Seq<u8>, b: SgbView, y: Seq<u8>)
    requires
        a.wf(),
        b.wf(),
        encodable(a),
        encodable(b),
        spec_encode(a) + x == spec_encode(b) + y,
    ensures
        same_stored(a, b),
        x == y,
{
    let t6a = enc_g6(a) + x;
    let t6b = enc_g6(b) + y;
    let t5a = enc_g5(a) + t6a;
    let t5b = enc_g5(b) + t6b;
    let t4a = enc_g4(a) + t5a;
    let t4b = enc_g4(b) + t5b;
    let t3a = enc_g3(a) + t4a;
    let t3b = enc_g3(b) + t4b;
    let t2a = enc_g2(a) + t3a;
    let t2b = enc_g2(b) + t3b;
    assert(spec_encode(a) + x =~= enc_g1(a) + t2a);
    assert(spec_encode(b) + y =~= enc_g1(b) + t2b);
    lemma_g1_unique(a, t2a, b, t2b);
    lemma_g2_unique(a, t3a, b, t3b);
    lemma_g3_unique(a, t4a, b, t4b);
    lemma_g4_unique(a, t5a, b, t5b);
    lemma_g5_unique(a, t6a, b, t6b);
    lemma_g6_unique(a, x, b, y);
}

/// A presentation state written to a stream is read back: a stream that
/// starts with the stored form of `s` (followed by `tail`) is one that a
/// read accepts, and a state `t` that a successful read made of it, leaving
/// `rest` unread, has every stored field of `s`, the read stopping right
/// where the written state ends.
pub proof fn law_state_round_trip(s: SgbView, tail: Seq<u8>, t: SgbView, rest: Seq<u8>)
    requires
        s.wf(),
        encodable(s),
    ensures
        starts_state(spec_encode(s) + tail),
        t.wf() && encodable(t) && spec_encode(s) + tail == spec_encode(t) + rest ==> same_stored(t, s) && rest
            == tail,
{
    assert(s.wf() && encodable(s) && spec_encode(s) + tail == spec_encode(s) + tail);
    if t.wf() && encodable(t) && spec_encode(s) + tail == spec_encode(t) + rest {
        lemma_encode_unique(s, tail, t, rest);
    }
}

} // verus!
