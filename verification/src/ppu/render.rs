//! Mode 3 pixel pipeline: the BG/window fetcher, the BG pixel FIFO with the
//! SCX fine-scroll comparator hunt, and the per-dot driver.
//!
//! The pipeline starts at line dot 84 (the LCD-enable line blocks from dot 78
//! and starts its pipe at 82) and performs one step per dot. The fetcher
//! needs 12 dots before the first pixel ships (a discarded first tile fetch
//! plus a real one), each shipped pixel takes one dot, and SCX%8 leading
//! pixels are discarded, so an unobstructed line's pipe ends at dot
//! 256 + SCX%8, with the visible mode-0 flip two dots earlier.
//!
//! Sprite fetches stall the pipeline for 6 dots each (5 for the CGB's first
//! fetch of the line), plus a first-per-tile alignment penalty of
//! max(0, 5 - (x + SCX) % 8) dots while the BG fetcher finishes its tile row.
use vstd::prelude::*;
use super::{
    BgFifo, FetchPhase, Fetcher, PipePos, Render, LCDC_BG_MAP, LCDC_TILE_DATA, LCDC_WIN_MAP,
};

verus! {

/// `x` with its eight bits in reverse order.
pub open spec fn spec_rev8(x: u8) -> u8 {
    rev_acc(x as int, 0, 8) as u8
}

/// Shift `n` low bits of `x` into `acc` from the right.
pub open spec fn rev_acc(x: int, acc: int, n: nat) -> int
    decreases n,
{
    if n == 0 {
        acc
    } else {
        rev_acc(x / 2, acc * 2 + x % 2, (n - 1) as nat)
    }
}

/// 2 to the `n`.
pub open spec fn pow2(n: nat) -> int
    decreases n,
{
    if n == 0 {
        1
    } else {
        2 * pow2((n - 1) as nat)
    }
}

proof fn lemma_pow2_pos(n: nat)
    ensures
        pow2(n) >= 1,
    decreases n,
{
    if n > 0 {
        lemma_pow2_pos((n - 1) as nat);
    }
}

/// Reverse the bit order of a byte (X-flipped tile rows).
pub fn rev8(x: u8) -> (r: u8)
    ensures
        r == spec_rev8(x),
{
    let mut v: u8 = x;
    let mut acc: u16 = 0;
    let mut n: u8 = 8;
    proof {
        assert(pow2(8) == 256) by {
            reveal_with_fuel(pow2, 9);
        }
    }
    while n > 0
        invariant
            0 <= n <= 8,
            0 <= acc < pow2((8 - n) as nat),
            rev_acc(v as int, acc as int, n as nat) == rev_acc(x as int, 0, 8),
            pow2(8) == 256,
        decreases n,
    {
        proof {
            lemma_pow2_mono((8 - n) as nat, 7);
            assert(pow2(7) == 128) by {
                reveal_with_fuel(pow2, 8);
            }
            assert(pow2((8 - n + 1) as nat) == 2 * pow2((8 - n) as nat));
        }
        acc = acc * 2 + (v % 2) as u16;
        v = v / 2;
        n = n - 1;
    }
    proof {
        assert(rev_acc(v as int, acc as int, 0) == acc);
    }
    acc as u8
}

proof fn lemma_pow2_mono(a: nat, b: nat)
    requires
        a <= b,
    ensures
        pow2(a) <= pow2(b),
    decreases b,
{
    if a < b {
        lemma_pow2_mono(a, (b - 1) as nat);
        lemma_pow2_pos((b - 1) as nat);
    }
}

/// The tile-data address of the current fetch's low-bitplane byte: the fine
/// row is re-derived from SCY (or the window line counter) at each data read,
/// Y-flipped by CGB attribute bit 6, in the bank attribute bit 3 selects, with
/// unsigned ($8000) or signed ($8800) tile numbering by LCDC.4.
pub open spec fn spec_tile_addr(f: Fetcher, lcdc: u8, scy: u8, ly: u8, win_line: u8, cgb: bool) -> int {
    let fine0: int = if f.win_mode {
        win_line as int % 8
    } else {
        (ly as int + scy as int) % 256 % 8
    };
    let fine = if (f.t_attr / 64) % 2 == 1 {
        7 - fine0
    } else {
        fine0
    };
    let bank: int = if cgb && (f.t_attr / 8) % 2 == 1 {
        0x2000
    } else {
        0
    };
    let base: int = if (lcdc / 16) % 2 == 1 || f.t_no >= 128 {
        f.t_no as int * 16
    } else {
        0x1000 + f.t_no as int * 16
    };
    bank + base + fine * 2
}

/// See [`spec_tile_addr`].
pub fn tile_addr(f: &Fetcher, lcdc: u8, scy: u8, ly: u8, win_line: u8, cgb: bool) -> (a: usize)
    ensures
        a == spec_tile_addr(*f, lcdc, scy, ly, win_line, cgb),
        a + 1 < 0x4000,
{
    proof {
        crate::bits::lemma_u8_bits(f.t_attr);
        crate::bits::lemma_u8_bits(lcdc);
    }
    let fine0: usize = if f.win_mode {
        (win_line % 8) as usize
    } else {
        (ly.wrapping_add(scy) % 8) as usize
    };
    let fine = if f.t_attr & 0x40 != 0 {
        7 - fine0
    } else {
        fine0
    };
    let bank: usize = if cgb && f.t_attr & 0x08 != 0 {
        0x2000
    } else {
        0
    };
    let base: usize = if lcdc & LCDC_TILE_DATA != 0 || f.t_no >= 128 {
        f.t_no as usize * 16
    } else {
        0x1000 + f.t_no as usize * 16
    };
    bank + base + fine * 2
}

/// The tile-map address of the current fetch's tile-number read: the window
/// map row/column from the window line counter, or the BG map row from
/// LY+SCY and column from SCX/8 plus the fetch column, both wrapping at 32.
pub open spec fn spec_map_addr(f: Fetcher, lcdc: u8, scy: u8, scx: u8, ly: u8, win_line: u8) -> int {
    let (map_bit, row, col) = if f.win_mode {
        ((lcdc / 64) % 2 == 1, win_line as int / 8, f.fetch_x as int % 32)
    } else {
        (
            (lcdc / 8) % 2 == 1,
            ((ly as int + scy as int) % 256) / 8,
            ((scx as int / 8) + f.fetch_x as int) % 256 % 32,
        )
    };
    let base: int = if map_bit {
        0x1C00
    } else {
        0x1800
    };
    base + row * 32 + col
}

/// See [`spec_map_addr`].
pub fn map_addr(f: &Fetcher, lcdc: u8, scy: u8, scx: u8, ly: u8, win_line: u8) -> (a: usize)
    ensures
        a == spec_map_addr(*f, lcdc, scy, scx, ly, win_line),
        a < 0x2000,
{
    proof {
        crate::bits::lemma_u8_bits(lcdc);
    }
    let (map_bit, row, col) = if f.win_mode {
        (lcdc & LCDC_WIN_MAP != 0, (win_line / 8) as usize, (f.fetch_x % 32) as usize)
    } else {
        (
            lcdc & LCDC_BG_MAP != 0,
            (ly.wrapping_add(scy) / 8) as usize,
            ((scx / 8).wrapping_add(f.fetch_x) % 32) as usize,
        )
    };
    let base: usize = if map_bit {
        0x1C00
    } else {
        0x1800
    };
    base + row * 32 + col
}

/// The FIFO loaded with the latched tile row (X-flipped by CGB attribute
/// bit 5) and the fetcher restarted on the next column.
pub open spec fn spec_push_row(f: Fetcher) -> (Fetcher, BgFifo) {
    let flip = (f.t_attr / 32) % 2 == 1;
    (
        Fetcher { phase: FetchPhase::TileNoWait, fetch_x: ((f.fetch_x as int + 1) % 256) as u8, ..f },
        BgFifo {
            lo: if flip {
                spec_rev8(f.t_lo)
            } else {
                f.t_lo
            },
            hi: if flip {
                spec_rev8(f.t_hi)
            } else {
                f.t_hi
            },
            attr: f.t_attr,
            count: 8,
        },
    )
}

/// See [`spec_push_row`].
pub fn push_row(f: Fetcher) -> (r: (Fetcher, BgFifo))
    ensures
        r == spec_push_row(f),
{
    proof {
        crate::bits::lemma_u8_bits(f.t_attr);
    }
    let (lo, hi) = if f.t_attr & 0x20 != 0 {
        (rev8(f.t_lo), rev8(f.t_hi))
    } else {
        (f.t_lo, f.t_hi)
    };
    (
        Fetcher { phase: FetchPhase::TileNoWait, fetch_x: f.fetch_x.wrapping_add(1), ..f },
        BgFifo { lo, hi, attr: f.t_attr, count: 8 },
    )
}

/// The fetcher and FIFO after one fetcher dot (see [`fetch_step`]).
pub open spec fn spec_fetch_step(
    f: Fetcher,
    fifo: BgFifo,
    push_ok: bool,
    vram: Seq<u8>,
    lcdc: u8,
    scy: u8,
    scx: u8,
    ly: u8,
    win_line: u8,
    cgb: bool,
) -> (Fetcher, BgFifo) {
    match f.phase {
        FetchPhase::TileNoWait => (Fetcher { phase: FetchPhase::TileNo, ..f }, fifo),
        FetchPhase::TileNo => {
            let m = spec_map_addr(f, lcdc, scy, scx, ly, win_line);
            (
                Fetcher {
                    phase: FetchPhase::LoWait,
                    t_no: vram[m],
                    t_attr: if cgb {
                        vram[0x2000 + m]
                    } else {
                        0
                    },
                    ..f
                },
                fifo,
            )
        },
        FetchPhase::LoWait => (Fetcher { phase: FetchPhase::Lo, ..f }, fifo),
        FetchPhase::Lo => (
            Fetcher {
                phase: FetchPhase::HiWait,
                t_lo: vram[spec_tile_addr(f, lcdc, scy, ly, win_line, cgb)],
                ..f
            },
            fifo,
        ),
        FetchPhase::HiWait => (Fetcher { phase: FetchPhase::Hi, ..f }, fifo),
        FetchPhase::Hi => {
            let g = Fetcher { t_hi: vram[spec_tile_addr(f, lcdc, scy, ly, win_line, cgb) + 1], ..f };
            if f.first_discard {
                (Fetcher { first_discard: false, phase: FetchPhase::TileNoWait, ..g }, fifo)
            } else if fifo.count == 0 && push_ok {
                spec_push_row(g)
            } else {
                (Fetcher { phase: FetchPhase::Push, ..g }, fifo)
            }
        },
        FetchPhase::Push => if fifo.count == 0 && push_ok {
            spec_push_row(f)
        } else {
            (f, fifo)
        },
    }
}

/// One dot of the BG/window fetcher. Each VRAM read (tile number, low
/// bitplane, high bitplane) takes a wait dot then the read dot, sampling the
/// pipeline's register view at the read dot. The first fetch of the line is
/// thrown away; a latched row pushes into an empty FIFO once `push_ok`, else
/// the fetcher parks in `Push` and retries every dot.
pub fn fetch_step(
    f: Fetcher,
    fifo: BgFifo,
    push_ok: bool,
    vram: &Vec<u8>,
    lcdc: u8,
    scy: u8,
    scx: u8,
    ly: u8,
    win_line: u8,
    cgb: bool,
) -> (r: (Fetcher, BgFifo))
    requires
        vram@.len() == 0x4000,
        fifo.count <= 8,
    ensures
        r.1.count <= 8,
        r == spec_fetch_step(f, fifo, push_ok, vram@, lcdc, scy, scx, ly, win_line, cgb),
{
    match f.phase {
        FetchPhase::TileNoWait => (Fetcher { phase: FetchPhase::TileNo, ..f }, fifo),
        FetchPhase::TileNo => {
            let m = map_addr(&f, lcdc, scy, scx, ly, win_line);
            let t_no = vram[m];
            let t_attr = if cgb {
                vram[0x2000 + m]
            } else {
                0
            };
            (Fetcher { phase: FetchPhase::LoWait, t_no, t_attr, ..f }, fifo)
        },
        FetchPhase::LoWait => (Fetcher { phase: FetchPhase::Lo, ..f }, fifo),
        FetchPhase::Lo => {
            let a = tile_addr(&f, lcdc, scy, ly, win_line, cgb);
            (Fetcher { phase: FetchPhase::HiWait, t_lo: vram[a], ..f }, fifo)
        },
        FetchPhase::HiWait => (Fetcher { phase: FetchPhase::Hi, ..f }, fifo),
        FetchPhase::Hi => {
            let a = tile_addr(&f, lcdc, scy, ly, win_line, cgb);
            let g = Fetcher { t_hi: vram[a + 1], ..f };
            if f.first_discard {
                (Fetcher { first_discard: false, phase: FetchPhase::TileNoWait, ..g }, fifo)
            } else if fifo.count == 0 && push_ok {
                push_row(g)
            } else {
                (Fetcher { phase: FetchPhase::Push, ..g }, fifo)
            }
        },
        FetchPhase::Push => if fifo.count == 0 && push_ok {
            push_row(f)
        } else {
            (f, fifo)
        },
    }
}

/// One FIFO pop: the popped 2-bit color is the high bits of the two planes.
/// A pending discard drops it; while the fine-scroll hunt is still open (its
/// match was missed during the prefill) the comparator keeps hunting through
/// the pops, each discarded, and a match there leaves 7 more drops; otherwise
/// the pixel is returned for output.
pub open spec fn spec_pop(fifo: BgFifo, pos: PipePos, scx: u8) -> (BgFifo, PipePos, Option<(u8, u8)>) {
    let c = ((fifo.hi / 128) * 2 + fifo.lo / 128) as u8;
    let nf = BgFifo {
        lo: ((fifo.lo as int % 128) * 2) as u8,
        hi: ((fifo.hi as int % 128) * 2) as u8,
        count: (fifo.count - 1) as u8,
        ..fifo
    };
    let fine = scx % 8;
    if pos.discard > 0 {
        (nf, PipePos { discard: (pos.discard - 1) as u8, ..pos }, None)
    } else if !pos.hunt_done {
        if pos.hunt_idx == fine {
            (nf, PipePos { hunt_done: true, hunt_fine: fine, discard: 7, ..pos }, None)
        } else {
            (nf, PipePos { hunt_idx: ((pos.hunt_idx + 1) % 8) as u8, ..pos }, None)
        }
    } else {
        (nf, pos, Some((c, fifo.attr)))
    }
}

/// See [`spec_pop`].
pub fn pop(fifo: BgFifo, pos: PipePos, scx: u8) -> (r: (BgFifo, PipePos, Option<(u8, u8)>))
    requires
        fifo.count > 0,
        pos.hunt_idx < 8,
    ensures
        r == spec_pop(fifo, pos, scx),
        r.2 matches Some(p) ==> p.0 < 4,
{
    let c = (fifo.hi / 128) * 2 + fifo.lo / 128;
    let nf = BgFifo { lo: (fifo.lo % 128) * 2, hi: (fifo.hi % 128) * 2, count: fifo.count - 1, ..fifo };
    let fine = scx % 8;
    if pos.discard > 0 {
        (nf, PipePos { discard: pos.discard - 1, ..pos }, None)
    } else if !pos.hunt_done {
        if pos.hunt_idx == fine {
            (nf, PipePos { hunt_done: true, hunt_fine: fine, discard: 7, ..pos }, None)
        } else {
            (nf, PipePos { hunt_idx: (pos.hunt_idx + 1) % 8, ..pos }, None)
        }
    } else {
        (nf, pos, Some((c, fifo.attr)))
    }
}

/// The SCX fine-scroll comparator hunt, prefill phase (from mode-3 dot 5):
/// the comparator compares its index against the live SCX&7 each dot; a
/// match at prefill position `p` locks a discard of `p` pixels, otherwise the
/// index advances. The prefill position then steps.
pub open spec fn spec_prefill_hunt(pos: PipePos, scx: u8) -> PipePos {
    let p = pos.prefill_pos;
    let fine = scx % 8;
    let h = if pos.hunt_done {
        pos
    } else if pos.hunt_idx == fine {
        PipePos { hunt_done: true, discard: p, hunt_fine: fine, ..pos }
    } else {
        PipePos { hunt_idx: ((pos.hunt_idx + 1) % 8) as u8, ..pos }
    };
    PipePos { prefill_pos: (p + 1) as u8, ..h }
}

/// See [`spec_prefill_hunt`].
pub fn prefill_hunt(pos: PipePos, scx: u8) -> (r: PipePos)
    requires
        pos.prefill_pos < 8,
    ensures
        r == spec_prefill_hunt(pos, scx),
{
    let p = pos.prefill_pos;
    let fine = scx % 8;
    let h = if pos.hunt_done {
        pos
    } else if pos.hunt_idx == fine {
        PipePos { hunt_done: true, discard: p, hunt_fine: fine, ..pos }
    } else {
        PipePos { hunt_idx: (pos.hunt_idx % 8 + 1) % 8, ..pos }
    };
    PipePos { prefill_pos: p + 1, ..h }
}

impl Render {
    /// The pipeline state at mode-3 start: every counter cleared, the fetcher
    /// restarted with its throw-away first fetch, no sprite fetched, the
    /// window idle. The LCD-enable line selects no sprites and starts its
    /// pipe 4 dots after its blocking start.
    pub open spec fn spec_started(&self, glitch: bool) -> bool {
        &&& self.active
        &&& self.pos == PipePos {
            lx: 0,
            discard: 0,
            mode3_dot: 0,
            pos_dot: 0,
            hunt_idx: 0,
            hunt_done: false,
            hunt_fine: 0,
            stall: if glitch {
                4
            } else {
                0
            },
            fetch_run: 0,
            prefill_pos: 0,
        }
        &&& self.fifo.count == 0
        &&& self.fetched == 0
        &&& self.penalty_tiles == 0
        &&& (glitch ==> self.n_sprites == 0)
    }
}

} // verus!
