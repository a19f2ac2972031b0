//! Properties of the PPU that span several calls: what a read returns after
//! a write, what the LCD shows while it is off, and the shape of the frame
//! timeline.
use vstd::prelude::*;
use vstd::arithmetic::div_mod::lemma_fundamental_div_mod_converse;
use super::engine::{next_pos, pipe_end, tick_vblank, ticked};
use super::write::{keeps_stat_sources, spec_pal_index_after};
use super::{Ppu, Regs, Sprite, SpritePixel, LCDC_BG_ENABLE, LCDC_OBJ_ENABLE, STAT_SRC_ALL};
use super::sprite::{spec_merged_fifo, spec_shade};
use crate::color::spec_bgr555;

verus! {

/// A value written to SCY, SCX, BGP, OBP0, OBP1, WY or WX reads back
/// unchanged: `q` is the PPU after `p` took the write.
pub proof fn law_plain_register_reads_back(p: Ppu, q: Ppu, addr: u16, value: u8)
    requires
        addr == 0xFF42 || addr == 0xFF43 || addr == 0xFF47 || addr == 0xFF48 || addr == 0xFF49 || addr
            == 0xFF4A || addr == 0xFF4B,
        q.model == p.model,
        q.regs == Ppu::spec_plain_write(p.regs, p.cgb(), addr, value),
    ensures
        q.spec_read(addr) == value,
{
}

/// A value written to LCDC reads back unchanged.
pub proof fn law_lcdc_reads_back(p: Ppu, q: Ppu, value: u8)
    requires
        q.regs == (Regs { lcdc: value, ..p.regs }),
    ensures
        q.spec_read(0xFF40) == value,
{
}

/// A value written to LYC reads back unchanged.
pub proof fn law_lyc_reads_back(p: Ppu, q: Ppu, value: u8)
    requires
        q.regs == (Regs { lyc: value, ..p.regs }),
    ensures
        q.spec_read(0xFF45) == value,
{
}

/// The STAT interrupt-source bits written to FF41 read back unchanged, and
/// the unused bit 7 always reads 1.
pub proof fn law_stat_sources_read_back(p: Ppu, q: Ppu, value: u8)
    requires
        q.wf(),
        q.regs == (Regs { stat_en: value & STAT_SRC_ALL, ..p.regs }),
    ensures
        q.spec_read(0xFF41) & 0x78 == value & 0x78,
        q.spec_read(0xFF41) & 0x80 != 0,
{
    let m = q.spec_read_mode();
    let c: u8 = if q.spec_read_coincidence() {
        4
    } else {
        0
    };
    assert(m < 4);
    assert(((0x80 | (value & 0x78) | c | m) & 0x78 == value & 0x78) && ((0x80 | (value & 0x78) | c | m)
        & 0x80 != 0)) by (bit_vector)
        requires
            m < 4,
            c == 0 || c == 4,
    ;
}

/// While the LCD is off, LY reads 0 and the STAT mode bits read 0.
pub proof fn law_lcd_off_reads(p: Ppu)
    requires
        p.wf(),
        !p.enabled,
    ensures
        p.spec_read(0xFF44) == 0,
        p.spec_read(0xFF41) & 3 == 0,
{
    let c: u8 = if p.spec_read_coincidence() {
        4
    } else {
        0
    };
    let e = p.regs.stat_en;
    assert((0x80 | e | c | 0u8) & 3 == e & 3) by (bit_vector)
        requires
            c == 0 || c == 4,
    ;
    assert(e & 3 == 0) by (bit_vector)
        requires
            e == e & STAT_SRC_ALL,
    ;
}

/// A byte written to VRAM without blocking (HDMA) is what a raw read of the
/// same address in the same bank returns, and no other cell changes.
pub proof fn law_vram_raw_round_trip(p: Ppu, q: Ppu, addr: u16, value: u8, other: u16)
    requires
        p.wf(),
        q.regs.vbk == p.regs.vbk,
        q.mem.vram@ == p.mem.vram@.update(p.spec_vram_index(addr), value),
        p.spec_vram_index(other) != p.spec_vram_index(addr),
    ensures
        q.mem.vram@[q.spec_vram_index(addr)] == value,
        q.mem.vram@[q.spec_vram_index(other)] == p.mem.vram@[p.spec_vram_index(other)],
{
    reveal(super::mem_ok);
}

/// A CPU write to VRAM that is not blocked is what a later unblocked CPU
/// read of the same address returns.
pub proof fn law_vram_bus_round_trip(p: Ppu, q: Ppu, addr: u16, value: u8)
    requires
        p.wf(),
        0x8000 <= addr <= 0x9FFF,
        q.regs.vbk == p.regs.vbk,
        q.mem.vram@ == p.mem.vram@.update(p.spec_vram_index(addr), value),
        !q.spec_vram_read_blocked(),
    ensures
        q.spec_read(addr) == value,
{
    reveal(super::mem_ok);
}

/// A CPU write to OAM that is not blocked is what a later unblocked CPU read
/// of the same address returns.
pub proof fn law_oam_bus_round_trip(p: Ppu, q: Ppu, addr: u16, value: u8)
    requires
        p.wf(),
        0xFE00 <= addr <= 0xFE9F,
        q.mem.oam@ == p.mem.oam@.update(addr - 0xFE00, value),
        !q.spec_oam_read_blocked(),
    ensures
        q.spec_read(addr) == value,
{
    reveal(super::mem_ok);
}

/// CGB palette index auto-increment: with bit 7 set each data write moves
/// the 6-bit index on by one, wrapping from 63 to 0 and keeping bit 7; with
/// bit 7 clear the index stays.
pub proof fn law_palette_index_auto_increment(i: u8)
    requires
        i & 0x40 == 0,
    ensures
        i & 0x80 != 0 ==> spec_pal_index_after(i) == 0x80u8 | (((i + 1) as u8) & 0x3Fu8),
        i & 0x80 == 0 ==> spec_pal_index_after(i) == i,
{
    if i & 0x80 != 0 {
        assert(i >= 0x80) by (bit_vector)
            requires
                i & 0x80 != 0,
        ;
        assert((0x80 + (i % 64 + 1) % 64) as u8 == 0x80u8 | (((i + 1) as u8) & 0x3Fu8)) by (bit_vector)
            requires
                i >= 0x80,
        ;
    } else {
        assert(i < 0x80) by (bit_vector)
            requires
                i & 0x80 == 0,
        ;
    }
}

/// The scan position (line, dot, LCD-enable line) `n` dots after `p` with
/// the LCD on: the dot clock applied `n` times.
pub open spec fn pos_after(p: (u8, u16, bool), n: nat) -> (u8, u16, bool)
    decreases n,
{
    if n == 0 {
        p
    } else {
        let q = pos_after(p, (n - 1) as nat);
        next_pos(q.0, q.1, q.2)
    }
}

/// Where the scan stands `n` dots after line `line`, dot `dot`, on lines of
/// 456 dots: lines wrap from 153 to 0.
pub open spec fn spec_scan_after(line: u8, dot: u16, n: nat) -> (u8, u16, bool) {
    (((line + (dot + n) / 456) % 154) as u8, ((dot + n) % 456) as u16, false)
}

/// Past the LCD-enable line, the scan advances on a fixed grid of 154 lines
/// of 456 dots: `n` dots after line `line`, dot `dot` it stands at line
/// `(line + (dot + n) / 456) mod 154`, dot `(dot + n) mod 456`.
pub proof fn law_scan_timeline(line: u8, dot: u16, n: nat)
    requires
        line <= 153,
        dot < 456,
    ensures
        pos_after((line, dot, false), n) == spec_scan_after(line, dot, n),
    decreases n,
{
    if n > 0 {
        law_scan_timeline(line, dot, (n - 1) as nat);
        let k = dot + n - 1;
        let q = k / 456;
        let r = k % 456;
        if r + 1 < 456 {
            lemma_fundamental_div_mod_converse(k + 1, 456, q, r + 1);
        } else {
            lemma_fundamental_div_mod_converse(k + 1, 456, q + 1, 0);
            let a = line + q;
            lemma_fundamental_div_mod_converse(a + 1, 154, a / 154 + if a % 154 == 153 { 1int } else { 0 },
                if a % 154 == 153 { 0int } else { a % 154 + 1 });
        }
    }
}

/// A frame lasts 70224 dots: past the LCD-enable line, the scan is back at
/// its position 70224 dots later.
pub proof fn law_frame_period(line: u8, dot: u16)
    requires
        line <= 153,
        dot < 456,
    ensures
        pos_after((line, dot, false), 70224) == (line, dot, false),
{
    law_scan_timeline(line, dot, 70224);
    lemma_fundamental_div_mod_converse(dot + 70224, 456, 154, dot as int);
    lemma_fundamental_div_mod_converse(line + 154, 154, 1, line as int);
}

/// Within any 70224 consecutive dots past the LCD-enable line the scan
/// enters the VBlank boundary (line 144, dot 0), where the frame counter
/// advances, exactly once.
pub proof fn law_one_frame_boundary_per_period(line: u8, dot: u16, k1: nat, k2: nat)
    requires
        line <= 153,
        dot < 456,
    ensures
        exists|k: nat| 1 <= k <= 70224 && #[trigger] pos_after((line, dot, false), k) == (144u8, 0u16, false),
        1 <= k1 <= 70224 && 1 <= k2 <= 70224 && pos_after((line, dot, false), k1) == (144u8, 0u16, false)
            && pos_after((line, dot, false), k2) == (144u8, 0u16, false) ==> k1 == k2,
{
    let m: int = (144 - line + 153) % 154 + 1;
    let k: nat = (456 * m - dot) as nat;
    law_scan_timeline(line, dot, k);
    lemma_fundamental_div_mod_converse(dot + k, 456, m, 0);
    lemma_fundamental_div_mod_converse(line + m, 154, if line + m >= 154 { 1int } else { 0 }, 144);
    assert(pos_after((line, dot, false), k) == (144u8, 0u16, false));
    law_scan_timeline(line, dot, k1);
    law_scan_timeline(line, dot, k2);
    if 1 <= k1 <= 70224 && 1 <= k2 <= 70224 && pos_after((line, dot, false), k1) == (144u8, 0u16, false)
        && pos_after((line, dot, false), k2) == (144u8, 0u16, false) && k1 != k2 {
        let q1 = (dot + k1) / 456;
        let q2 = (dot + k2) / 456;
        lemma_fundamental_div_mod_converse(dot + k1, 456, q1, 0);
        lemma_fundamental_div_mod_converse(dot + k2, 456, q2, 0);
        assert((line + q1) % 154 == (line + q2) % 154);
        assert(q1 != q2);
        assert(1 <= q1 <= 154 && 1 <= q2 <= 154);
        lemma_fundamental_div_mod_converse(line + q1, 154, (line + q1) / 154, (line + q1) % 154);
        lemma_fundamental_div_mod_converse(line + q2, 154, (line + q2) / 154, (line + q2) % 154);
        assert(false);
    }
}

/// Ticking an enabled LCD follows the scan timeline: along a run `s` of
/// states, each the result of a tick on the one before, the LCD stays on and
/// after `n` ticks the scan stands where the dot clock puts it `n` dots on.
pub proof fn law_ticks_follow_timeline(s: Seq<Ppu>, n: nat)
    requires
        n < s.len(),
        s[0].enabled,
        forall|i: int| 0 <= i < n ==> #[trigger] ticked(s, i),
    ensures
        s[n as int].enabled,
        (s[n as int].line, s[n as int].dot, s[n as int].glitch_line) == pos_after(
            (s[0].line, s[0].dot, s[0].glitch_line),
            n,
        ),
    decreases n,
{
    if n > 0 {
        law_ticks_follow_timeline(s, (n - 1) as nat);
        assert(ticked(s, n - 1));
    }
}

/// A frame lasts 70224 ticks: past the LCD-enable line, 70224 ticks bring
/// the scan back to where it stood and advance the frame counter by exactly
/// one.
pub proof fn law_frame_over_ticks(s: Seq<Ppu>)
    requires
        s.len() > 70224,
        s[0].wf(),
        s[0].enabled,
        !s[0].glitch_line,
        forall|i: int| 0 <= i < 70224 ==> #[trigger] ticked(s, i),
    ensures
        (s[70224].line, s[70224].dot, s[70224].glitch_line) == (s[0].line, s[0].dot, false),
        s[70224].frame_count == s[0].frame_count.wrapping_add(1),
{
    let p = (s[0].line, s[0].dot, false);
    law_ticks_follow_timeline(s, 70224);
    law_frame_period(s[0].line, s[0].dot);
    law_one_frame_boundary_per_period(s[0].line, s[0].dot, 0, 0);
    let kb: nat = choose|k: nat| 1 <= k <= 70224 && #[trigger] pos_after(p, k) == (144u8, 0u16, false);
    lemma_frame_count_along(s, kb, 70224);
}

/// Along a run of ticks from past the LCD-enable line, the frame counter
/// stays until the one VBlank boundary `kb` of the period and is one on
/// from there.
proof fn lemma_frame_count_along(s: Seq<Ppu>, kb: nat, n: nat)
    requires
        s.len() > 70224,
        s[0].wf(),
        s[0].enabled,
        !s[0].glitch_line,
        forall|i: int| 0 <= i < 70224 ==> #[trigger] ticked(s, i),
        1 <= kb <= 70224,
        pos_after((s[0].line, s[0].dot, false), kb) == (144u8, 0u16, false),
        n <= 70224,
    ensures
        s[n as int].frame_count == if n < kb {
            s[0].frame_count
        } else {
            s[0].frame_count.wrapping_add(1)
        },
    decreases n,
{
    if n > 0 {
        lemma_frame_count_along(s, kb, (n - 1) as nat);
        law_ticks_follow_timeline(s, (n - 1) as nat);
        law_ticks_follow_timeline(s, n);
        law_one_frame_boundary_per_period(s[0].line, s[0].dot, n, kb);
        assert(ticked(s, n - 1));
    }
}

/// HBlank begins only where the pipe ends: from a visible line's first dot
/// (outside HBlank), along a run of ticks, whenever HBlank is on some tick
/// of the run shipped pixel 160 and stopped the pipe.
pub proof fn law_hblank_starts_at_pipe_end(s: Seq<Ppu>, n: nat)
    requires
        n < s.len(),
        s[0].enabled,
        s[0].dot == 0,
        s[0].line <= 143,
        !s[0].spec_hblank_active(),
        forall|i: int| 0 <= i < n ==> #[trigger] ticked(s, i),
    ensures
        s[n as int].flags.render_finished ==> exists|i: int| 1 <= i <= n && #[trigger] pipe_end(s[i]),
    decreases n,
{
    if n > 0 {
        law_hblank_starts_at_pipe_end(s, (n - 1) as nat);
        law_ticks_follow_timeline(s, (n - 1) as nat);
        assert(ticked(s, n - 1));
        if s[n as int].flags.render_finished {
            if s[n - 1].flags.render_finished {
                let i = choose|i: int| 1 <= i <= n - 1 && #[trigger] pipe_end(s[i]);
                assert(pipe_end(s[i]));
            } else {
                assert(pipe_end(s[n as int]));
            }
        }
    }
}

/// Past the LCD-enable line, the scan visits any given position of the
/// frame grid exactly once in every 70224 consecutive dots.
pub proof fn law_one_visit_per_period(line: u8, dot: u16, tl: u8, td: u16, k1: nat, k2: nat)
    requires
        line <= 153,
        dot < 456,
        tl <= 153,
        td < 456,
    ensures
        exists|k: nat| 1 <= k <= 70224 && #[trigger] pos_after((line, dot, false), k) == (tl, td, false),
        1 <= k1 <= 70224 && 1 <= k2 <= 70224 && pos_after((line, dot, false), k1) == (tl, td, false)
            && pos_after((line, dot, false), k2) == (tl, td, false) ==> k1 == k2,
{
    let m0: int = if tl >= line {
        tl - line
    } else {
        tl + 154 - line
    };
    let k0: int = 456 * m0 + td - dot;
    let q: int = if k0 >= 1 {
        m0
    } else {
        m0 + 154
    };
    let k: nat = (456 * q + td - dot) as nat;
    law_scan_timeline(line, dot, k);
    lemma_fundamental_div_mod_converse(dot + k, 456, q, td as int);
    lemma_fundamental_div_mod_converse(
        line + q,
        154,
        (if tl >= line { 0int } else { 1int }) + (if k0 >= 1 { 0int } else { 1int }),
        tl as int,
    );
    assert(pos_after((line, dot, false), k) == (tl, td, false));
    law_scan_timeline(line, dot, k1);
    law_scan_timeline(line, dot, k2);
    if 1 <= k1 <= 70224 && 1 <= k2 <= 70224 && pos_after((line, dot, false), k1) == (tl, td, false)
        && pos_after((line, dot, false), k2) == (tl, td, false) && k1 != k2 {
        let q1 = (dot + k1) / 456;
        let q2 = (dot + k2) / 456;
        lemma_fundamental_div_mod_converse(dot + k1, 456, q1, td as int);
        lemma_fundamental_div_mod_converse(dot + k2, 456, q2, td as int);
        assert(q1 != q2);
        assert(0 <= q1 <= 154 && 0 <= q2 <= 154);
        lemma_fundamental_div_mod_converse(line + q1, 154, (line + q1) / 154, (line + q1) % 154);
        lemma_fundamental_div_mod_converse(line + q2, 154, (line + q2) / 154, (line + q2) % 154);
        assert(q1 - q2 == 154 || q2 - q1 == 154);
        assert(false);
    }
}

/// One VBlank interrupt per frame: along a run of 70224 ticks past the
/// LCD-enable line, with no VBlank pending at its start, exactly one tick
/// hands out the VBlank bit (`r[i]` is what tick `i` returned).
pub proof fn law_one_vblank_per_frame(s: Seq<Ppu>, r: Seq<u8>, i1: int, i2: int)
    requires
        s.len() > 70224,
        r.len() >= 70224,
        s[0].wf(),
        s[0].enabled,
        !s[0].glitch_line,
        s[0].irq.pending_if & 1 == 0,
        forall|i: int| 0 <= i < 70224 ==> #[trigger] ticked(s, i),
        forall|i: int| 0 <= i < 70224 ==> #[trigger] tick_vblank(s[i], r[i], s[i + 1]),
    ensures
        exists|i: int| 0 <= i < 70224 && #[trigger] r[i] & 1 != 0,
        0 <= i1 < 70224 && 0 <= i2 < 70224 && r[i1] & 1 != 0 && r[i2] & 1 != 0 ==> i1 == i2,
{
    let p = (s[0].line, s[0].dot, false);
    law_one_visit_per_period(s[0].line, s[0].dot, 144, 4, (i1 + 1) as nat, (i2 + 1) as nat);
    let kb: nat = choose|k: nat| 1 <= k <= 70224 && #[trigger] pos_after(p, k) == (144u8, 4u16, false);
    assert forall|i: int| 0 <= i < 70224 implies (#[trigger] r[i] & 1 != 0) == (pos_after(p, (i + 1) as nat)
        == (144u8, 4u16, false)) by {
        law_ticks_follow_timeline(s, (i + 1) as nat);
        law_ticks_follow_timeline(s, i as nat);
        law_scan_timeline(s[0].line, s[0].dot, (i + 1) as nat);
        assert(0u8 & 1 == 0) by (bit_vector);
        assert(ticked(s, i));
        assert(tick_vblank(s[i], r[i], s[i + 1]));
        if i > 0 {
            assert(ticked(s, i - 1));
            assert(tick_vblank(s[i - 1], r[i - 1], s[i]));
        }
    }
    assert(r[kb - 1] & 1 != 0);
}

/// Step `i` of a run of PPU states `s` keeps the STAT source enables: a
/// tick, or a write to another address than FF41.
pub open spec fn sources_kept_at(s: Seq<Ppu>, i: int) -> bool {
    keeps_stat_sources(s[i], s[i + 1])
}

/// FF41 reads back the source enables the most recent FF41 write set: along
/// a run of ticks and writes to other addresses after writing `value` to
/// FF41, bits 3-6 read `value`'s and bit 7 reads 1.
pub proof fn law_stat_sources_persist(s: Seq<Ppu>, n: nat, value: u8)
    requires
        n < s.len(),
        s[n as int].wf(),
        s[0].regs.stat_en == value & STAT_SRC_ALL,
        forall|i: int| 0 <= i < n ==> #[trigger] sources_kept_at(s, i),
    ensures
        s[n as int].spec_read(0xFF41) & 0x78 == value & 0x78,
        s[n as int].spec_read(0xFF41) & 0x80 != 0,
{
    lemma_sources_kept(s, n, value);
    law_stat_sources_read_back(s[n as int], s[n as int], value);
}

proof fn lemma_sources_kept(s: Seq<Ppu>, n: nat, value: u8)
    requires
        n < s.len(),
        s[0].regs.stat_en == value & STAT_SRC_ALL,
        forall|i: int| 0 <= i < n ==> #[trigger] sources_kept_at(s, i),
    ensures
        s[n as int].regs.stat_en == value & STAT_SRC_ALL,
    decreases n,
{
    if n > 0 {
        lemma_sources_kept(s, (n - 1) as nat, value);
        assert(sources_kept_at(s, n - 1));
    }
}

/// A CGB background pixel that wins the mix (no opaque sprite pixel over
/// it) shows color `bg_c` of the BG palette its attribute byte's bits 0-2
/// select: the two palette-RAM bytes at `(attr & 7) * 8 + bg_c * 2`, so all
/// eight BG palettes are reachable.
pub proof fn law_cgb_bg_pixel_uses_attribute_palette(p: Ppu, bg_c: u8, bg_attr: u8, sp: SpritePixel)
    requires
        p.cgb(),
        !p.regs.dmg_compat,
        bg_c < 4,
        sp.color == 0,
    ensures
        p.spec_mix(bg_c, bg_attr, sp).0 == spec_bgr555(
            p.mem.bg_pal_ram@[(bg_attr % 8) * 8 + bg_c * 2],
            p.mem.bg_pal_ram@[(bg_attr % 8) * 8 + bg_c * 2 + 1],
        ),
{
}

/// On a Super Game Boy with colorization on, the DMG shade `shade` at
/// output x `lx` on the current line `ly` is shown through the SGB palette
/// of the attribute cell `(ly / 8) * 20 + lx / 8`.
pub proof fn law_sgb_shade_uses_cell_of_current_line(p: Ppu, lx: u8, shade: u8)
    requires
        p.sgb is Some,
        !p.sgb_mono,
        lx < 160,
        p.ly < 144,
    ensures
        p.spec_dmg_shade(lx, shade) == p.sgb->Some_0.pal@[4 * (p.sgb->Some_0.attr@[(p.ly / 8) * 20 + lx / 8]
            % 4) + shade],
{
    assert((p.ly / 8) * 20 + lx / 8 < 360);
}

/// On a Super Game Boy with colorization on, a background pixel at output
/// x `lx` of line `ly` (BG enabled, no opaque sprite over it) is the SGB
/// palette entry, chosen by the attribute cell of that line and column, for
/// the pixel's DMG shade through BGP.
pub proof fn law_sgb_bg_pixel_colorized_by_cell(p: Ppu, bg_c: u8, bg_attr: u8, sp: SpritePixel)
    requires
        !p.cgb(),
        p.sgb is Some,
        !p.sgb_mono,
        p.eff.lcdc & LCDC_BG_ENABLE != 0,
        bg_c < 4,
        sp.color == 0,
        p.render.pos.lx < 160,
        p.ly < 144,
    ensures
        p.spec_mix(bg_c, bg_attr, sp).0 == p.sgb->Some_0.pal@[4 * (p.sgb->Some_0.attr@[(p.ly / 8) * 20
            + p.render.pos.lx / 8] % 4) + ((p.eff.bgp >> (2 * bg_c)) & 3)],
{
    lemma_shade_bits(p.eff.bgp, bg_c);
    law_sgb_shade_uses_cell_of_current_line(p, p.render.pos.lx, spec_shade(p.eff.bgp, bg_c));
}

/// A CGB 8x8 sprite with OAM attribute bit 3 set (and no flips) is fetched
/// from VRAM bank 1: each of its pixels that lands on a transparent FIFO
/// slot takes the color of column `px` of the two bytes at
/// `0x2000 + tile * 16 + row * 2`, where `row` is the line's offset into the
/// sprite; with bit 3 clear the bytes come from bank 0.
pub proof fn law_cgb_sprite_row_vram_bank(
    fifo: Seq<SpritePixel>,
    vram: Seq<u8>,
    s: Sprite,
    ly: u8,
    lx: u8,
    lcdc: u8,
    opri: u8,
    dmg_compat: bool,
    j: int,
)
    requires
        fifo.len() == 8,
        0 <= j < 8,
        fifo[j].color == 0,
        0 <= j + lx - (s.x - 8) < 8,
        (lcdc / 4) % 2 == 0,
        (s.flags / 32) % 2 == 0,
        (s.flags / 64) % 2 == 0,
    ensures
        ({
            let row = (ly as int + 16 - s.y as int) % 256 % 8;
            let base: int = if (s.flags / 8) % 2 == 1 {
                0x2000
            } else {
                0
            };
            let a = base + s.tile * 16 + row * 2;
            spec_merged_fifo(fifo, vram, s, ly, lx, lcdc, true, opri, dmg_compat)[j].color == tile_pixel(
                vram[a],
                vram[a + 1],
                j + lx - (s.x - 8),
            )
        }),
{
}

/// On the DMG-family models OAM attribute bit 3 is ignored: a sprite row
/// always comes from the bytes at `tile * 16 + row * 2`.
pub proof fn law_dmg_sprite_row_ignores_bank_bit(
    fifo: Seq<SpritePixel>,
    vram: Seq<u8>,
    s: Sprite,
    ly: u8,
    lx: u8,
    lcdc: u8,
    opri: u8,
    dmg_compat: bool,
    j: int,
)
    requires
        fifo.len() == 8,
        0 <= j < 8,
        fifo[j].color == 0,
        0 <= j + lx - (s.x - 8) < 8,
        (lcdc / 4) % 2 == 0,
        (s.flags / 32) % 2 == 0,
        (s.flags / 64) % 2 == 0,
    ensures
        ({
            let row = (ly as int + 16 - s.y as int) % 256 % 8;
            let a = s.tile * 16 + row * 2;
            spec_merged_fifo(fifo, vram, s, ly, lx, lcdc, false, opri, dmg_compat)[j].color == tile_pixel(
                vram[a],
                vram[a + 1],
                j + lx - (s.x - 8),
            )
        }),
{
}

/// A CGB sprite pixel that wins the mix over a color-0 background shows
/// its color from the OBJ palette the sprite names: the two palette-RAM
/// bytes at `palette * 8 + color * 2`.
pub proof fn law_cgb_sprite_pixel_uses_obj_palette(p: Ppu, bg_attr: u8, sp: SpritePixel)
    requires
        p.cgb(),
        !p.regs.dmg_compat,
        p.eff.lcdc & LCDC_OBJ_ENABLE != 0,
        sp.wf(),
        sp.color != 0,
    ensures
        p.spec_mix(0, bg_attr, sp).0 == spec_bgr555(
            p.mem.obj_pal_ram@[sp.palette * 8 + sp.color * 2],
            p.mem.obj_pal_ram@[sp.palette * 8 + sp.color * 2 + 1],
        ),
{
}

/// On a plain DMG a background pixel (BG enabled, no opaque sprite over it)
/// is the DMG palette entry for its color's shade through BGP.
pub proof fn law_dmg_bg_pixel_through_bgp(p: Ppu, bg_c: u8, bg_attr: u8, sp: SpritePixel)
    requires
        !p.cgb(),
        p.sgb is None,
        p.eff.lcdc & LCDC_BG_ENABLE != 0,
        bg_c < 4,
        sp.color == 0,
    ensures
        p.spec_mix(bg_c, bg_attr, sp) == (p.dmg_palette[((p.eff.bgp >> (2 * bg_c)) & 3) as int], (p.eff.bgp >> (2
            * bg_c)) & 3),
{
    lemma_shade_bits(p.eff.bgp, bg_c);
}

/// On a plain DMG an opaque sprite pixel without BG priority is shown
/// through OBP1 when the sprite selects palette 1, else through OBP0.
pub proof fn law_dmg_sprite_pixel_through_obp(p: Ppu, bg_c: u8, bg_attr: u8, sp: SpritePixel)
    requires
        !p.cgb(),
        p.sgb is None,
        p.eff.lcdc & LCDC_OBJ_ENABLE != 0,
        bg_c < 4,
        sp.wf(),
        sp.color != 0,
        !sp.bg_priority,
    ensures
        ({
            let obp = if sp.palette == 1 {
                p.eff.obp1
            } else {
                p.eff.obp0
            };
            let shade = (obp >> (2 * sp.color)) & 3;
            p.spec_mix(bg_c, bg_attr, sp) == (p.dmg_palette[shade as int], shade)
        }),
{
    lemma_shade_bits(if sp.palette == 1 {
        p.eff.obp1
    } else {
        p.eff.obp0
    }, sp.color);
}

/// A Y-flipped 8x8 sprite (no X flip) shows its rows bottom up: on the line
/// `row` into the sprite it reads row `7 - row` of its tile.
pub proof fn law_sprite_y_flip_reads_mirrored_row(
    fifo: Seq<SpritePixel>,
    vram: Seq<u8>,
    s: Sprite,
    ly: u8,
    lx: u8,
    lcdc: u8,
    cgb: bool,
    opri: u8,
    dmg_compat: bool,
    j: int,
)
    requires
        fifo.len() == 8,
        0 <= j < 8,
        fifo[j].color == 0,
        0 <= j + lx - (s.x - 8) < 8,
        (lcdc / 4) % 2 == 0,
        (s.flags / 32) % 2 == 0,
        (s.flags / 64) % 2 == 1,
        (s.flags / 8) % 2 == 0,
    ensures
        ({
            let row = 7 - (ly as int + 16 - s.y as int) % 256 % 8;
            let a = s.tile * 16 + row * 2;
            spec_merged_fifo(fifo, vram, s, ly, lx, lcdc, cgb, opri, dmg_compat)[j].color == tile_pixel(
                vram[a],
                vram[a + 1],
                j + lx - (s.x - 8),
            )
        }),
{
}

/// An 8x16 sprite (no flips, bank 0) reads its top half from the even tile
/// of its pair and its bottom half from the odd one: on the line `row`
/// (0-15) into the sprite, the bytes of tile `(tile & !1) + row / 8`, row
/// `row % 8`.
pub proof fn law_tall_sprite_tile_pair(
    fifo: Seq<SpritePixel>,
    vram: Seq<u8>,
    s: Sprite,
    ly: u8,
    lx: u8,
    lcdc: u8,
    cgb: bool,
    opri: u8,
    dmg_compat: bool,
    j: int,
)
    requires
        fifo.len() == 8,
        0 <= j < 8,
        fifo[j].color == 0,
        0 <= j + lx - (s.x - 8) < 8,
        (lcdc / 4) % 2 == 1,
        (s.flags / 32) % 2 == 0,
        (s.flags / 64) % 2 == 0,
        (s.flags / 8) % 2 == 0,
    ensures
        ({
            let row = (ly as int + 16 - s.y as int) % 256 % 16;
            let a = ((s.tile / 2) * 2 + row / 8) * 16 + (row % 8) * 2;
            spec_merged_fifo(fifo, vram, s, ly, lx, lcdc, cgb, opri, dmg_compat)[j].color == tile_pixel(
                vram[a],
                vram[a + 1],
                j + lx - (s.x - 8),
            )
        }),
{
}

/// On a plain DMG a sprite with BG priority hides behind any non-zero
/// background color: the background pixel shows through BGP.
pub proof fn law_dmg_sprite_behind_bg(p: Ppu, bg_c: u8, bg_attr: u8, sp: SpritePixel)
    requires
        !p.cgb(),
        p.sgb is None,
        p.eff.lcdc & LCDC_BG_ENABLE != 0,
        1 <= bg_c < 4,
        sp.bg_priority,
    ensures
        p.spec_mix(bg_c, bg_attr, sp) == (p.dmg_palette[((p.eff.bgp >> (2 * bg_c)) & 3) as int], (p.eff.bgp >> (2
            * bg_c)) & 3),
{
    lemma_shade_bits(p.eff.bgp, bg_c);
}

/// On a plain DMG with the background disabled, a pixel no opaque sprite
/// covers is blank: DMG palette entry 0, whatever BGP and the fetched color.
pub proof fn law_dmg_bg_disabled_is_blank(p: Ppu, bg_c: u8, bg_attr: u8, sp: SpritePixel)
    requires
        !p.cgb(),
        p.sgb is None,
        p.eff.lcdc & LCDC_BG_ENABLE == 0,
        sp.color == 0,
    ensures
        p.spec_mix(bg_c, bg_attr, sp) == (p.dmg_palette[0], 0u8),
{
}

/// On CGB a background pixel of non-zero color whose attribute has bit 7
/// (BG-to-OBJ priority) set is drawn over any sprite while LCDC bit 0 is
/// set, in its attribute's BG palette.
pub proof fn law_cgb_bg_attribute_priority(p: Ppu, bg_c: u8, bg_attr: u8, sp: SpritePixel)
    requires
        p.cgb(),
        !p.regs.dmg_compat,
        p.eff.lcdc & LCDC_BG_ENABLE != 0,
        1 <= bg_c < 4,
        bg_attr >= 128,
    ensures
        p.spec_mix(bg_c, bg_attr, sp).0 == spec_bgr555(
            p.mem.bg_pal_ram@[(bg_attr % 8) * 8 + bg_c * 2],
            p.mem.bg_pal_ram@[(bg_attr % 8) * 8 + bg_c * 2 + 1],
        ),
{
    assert(bg_attr & 0x80 != 0) by (bit_vector)
        requires
            bg_attr >= 128,
    ;
}

/// On CGB with LCDC bit 0 clear the background loses every priority: an
/// opaque sprite pixel is drawn in its OBJ palette over any background.
pub proof fn law_cgb_master_priority_off(p: Ppu, bg_c: u8, bg_attr: u8, sp: SpritePixel)
    requires
        p.cgb(),
        !p.regs.dmg_compat,
        p.eff.lcdc & LCDC_BG_ENABLE == 0,
        p.eff.lcdc & LCDC_OBJ_ENABLE != 0,
        sp.color != 0,
    ensures
        p.spec_mix(bg_c, bg_attr, sp).0 == spec_bgr555(
            p.mem.obj_pal_ram@[sp.palette * 8 + sp.color * 2],
            p.mem.obj_pal_ram@[sp.palette * 8 + sp.color * 2 + 1],
        ),
{
}

/// A sprite pixel that lands on a transparent FIFO slot takes the sprite's
/// palette (OAM bits 0-2 on CGB, bit 4 on the DMG family and in compat
/// mode), its BG-priority bit 7 and its OAM index.
pub proof fn law_sprite_slot_attributes(
    fifo: Seq<SpritePixel>,
    vram: Seq<u8>,
    s: Sprite,
    ly: u8,
    lx: u8,
    lcdc: u8,
    cgb: bool,
    opri: u8,
    dmg_compat: bool,
    j: int,
)
    requires
        fifo.len() == 8,
        0 <= j < 8,
        fifo[j].color == 0,
        0 <= j + lx - (s.x - 8) < 8,
    ensures
        ({
            let n = spec_merged_fifo(fifo, vram, s, ly, lx, lcdc, cgb, opri, dmg_compat)[j];
            &&& n.palette == if cgb && !dmg_compat {
                s.flags & 7
            } else {
                (s.flags >> 4) & 1
            }
            &&& n.bg_priority == (s.flags & 0x80 != 0)
            &&& n.oam_idx == s.idx
        }),
{
    let f = s.flags;
    assert(f & 7 == f % 8 && (f >> 4) & 1 == (f / 16) % 2 && (f & 0x80 != 0) == (f >= 128)) by (bit_vector);
}

/// The first sprite to reach an opaque FIFO slot keeps it on the DMG
/// family, and on CGB when OPRI bit 0 selects X-coordinate priority.
pub proof fn law_opaque_slot_kept(
    fifo: Seq<SpritePixel>,
    vram: Seq<u8>,
    s: Sprite,
    ly: u8,
    lx: u8,
    lcdc: u8,
    cgb: bool,
    opri: u8,
    dmg_compat: bool,
    j: int,
)
    requires
        fifo.len() == 8,
        0 <= j < 8,
        fifo[j].color != 0,
        !cgb || opri % 2 == 1,
    ensures
        spec_merged_fifo(fifo, vram, s, ly, lx, lcdc, cgb, opri, dmg_compat)[j] == fifo[j],
{
}

/// On a Super Game Boy with the plain-palette option on, a shade is shown
/// through the DMG palette, whatever the attribute map.
pub proof fn law_sgb_mono_uses_dmg_palette(p: Ppu, lx: u8, shade: u8)
    requires
        p.sgb is Some,
        p.sgb_mono,
    ensures
        p.spec_dmg_shade(lx, shade) == p.dmg_palette[shade as int],
{
}

/// The shade a 2-bit palette register gives color `c`: its bit pair `c`.
pub proof fn lemma_shade_bits(pal: u8, c: u8)
    requires
        c < 4,
    ensures
        spec_shade(pal, c) == (pal >> (2 * c)) & 3,
{
    if c == 0 {
        assert(pal % 4 == (pal >> 0u8) & 3) by (bit_vector);
    } else if c == 1 {
        assert((pal / 4) % 4 == (pal >> 2u8) & 3) by (bit_vector);
    } else if c == 2 {
        assert((pal / 16) % 4 == (pal >> 4u8) & 3) by (bit_vector);
    } else {
        assert((pal / 64) % 4 == (pal >> 6u8) & 3) by (bit_vector);
    }
}

/// The 2-bit color of column `px` (0 = leftmost) of a 2bpp tile row with
/// low plane byte `lo` and high plane byte `hi`: bit `7 - px` of each, the
/// high plane giving the upper bit.
pub open spec fn tile_pixel(lo: u8, hi: u8, px: int) -> u8 {
    (2 * ((hi >> ((7 - px) as u8)) & 1) + ((lo >> ((7 - px) as u8)) & 1)) as u8
}

} // verus!
