//! Properties of the SGB presentation layer stated over its inputs: which
//! palettes a palette command writes, and how a border tile's X flip shows.
use vstd::prelude::*;
use super::border::{composite_pixel, tile_color};
use super::SgbView;
use crate::color::spec_bgr555;

verus! {

/// Bit `b` of a plane byte `v`.
pub open spec fn plane_bit(v: u8, b: u8) -> u8 {
    (v >> b) & 1
}

/// Color `e` (0-6) of a palette command packet: the BGR555 word at bytes
/// `1 + 2e`, `2 + 2e`.
pub open spec fn packet_color(cmd: Seq<u8>, e: int) -> u32 {
    spec_bgr555(cmd[1 + 2 * e], cmd[2 + 2 * e])
}

/// The palette commands PAL01, PAL23, PAL03 and PAL12 (commands 0-3) write
/// the packet's color 0 into color 0 of all four palettes, its colors 1-3
/// into colors 1-3 of the first palette the command names and its colors
/// 4-6 into colors 1-3 of the second; colors 1-3 of the other two palettes
/// are kept.
pub proof fn law_palette_commands(o: SgbView, t: SgbView, cmd: Seq<u8>)
    requires
        o.wf(),
        o.command_effect(t, cmd),
        cmd.len() >= 16,
        cmd[0] / 8 <= 3,
    ensures
        forall|p: int| 0 <= p < 4 ==> #[trigger] t.spec_pal(p, 0) == packet_color(cmd, 0),
        forall|k: int|
            1 <= k <= 3 ==> {
                &&& cmd[0] / 8 == 0 ==> #[trigger] t.spec_pal(0, k) == packet_color(cmd, k) && t.spec_pal(1, k)
                    == packet_color(cmd, k + 3) && t.spec_pal(2, k) == o.spec_pal(2, k) && t.spec_pal(3, k)
                    == o.spec_pal(3, k)
                &&& cmd[0] / 8 == 1 ==> t.spec_pal(2, k) == packet_color(cmd, k) && t.spec_pal(3, k)
                    == packet_color(cmd, k + 3) && t.spec_pal(0, k) == o.spec_pal(0, k) && t.spec_pal(1, k)
                    == o.spec_pal(1, k)
                &&& cmd[0] / 8 == 2 ==> t.spec_pal(0, k) == packet_color(cmd, k) && t.spec_pal(3, k)
                    == packet_color(cmd, k + 3) && t.spec_pal(1, k) == o.spec_pal(1, k) && t.spec_pal(2, k)
                    == o.spec_pal(2, k)
                &&& cmd[0] / 8 == 3 ==> t.spec_pal(1, k) == packet_color(cmd, k) && t.spec_pal(2, k)
                    == packet_color(cmd, k + 3) && t.spec_pal(0, k) == o.spec_pal(0, k) && t.spec_pal(3, k)
                    == o.spec_pal(3, k)
            },
{
    assert forall|p: int| 0 <= p < 4 implies #[trigger] t.spec_pal(p, 0) == packet_color(cmd, 0) by {
        assert((4 * p) % 4 == 0);
    }
    assert forall|k: int| 1 <= k <= 3 implies {
        &&& cmd[0] / 8 == 0 ==> #[trigger] t.spec_pal(0, k) == packet_color(cmd, k) && t.spec_pal(1, k)
            == packet_color(cmd, k + 3) && t.spec_pal(2, k) == o.spec_pal(2, k) && t.spec_pal(3, k)
            == o.spec_pal(3, k)
        &&& cmd[0] / 8 == 1 ==> t.spec_pal(2, k) == packet_color(cmd, k) && t.spec_pal(3, k)
            == packet_color(cmd, k + 3) && t.spec_pal(0, k) == o.spec_pal(0, k) && t.spec_pal(1, k)
            == o.spec_pal(1, k)
        &&& cmd[0] / 8 == 2 ==> t.spec_pal(0, k) == packet_color(cmd, k) && t.spec_pal(3, k)
            == packet_color(cmd, k + 3) && t.spec_pal(1, k) == o.spec_pal(1, k) && t.spec_pal(2, k)
            == o.spec_pal(2, k)
        &&& cmd[0] / 8 == 3 ==> t.spec_pal(1, k) == packet_color(cmd, k) && t.spec_pal(2, k)
            == packet_color(cmd, k + 3) && t.spec_pal(0, k) == o.spec_pal(0, k) && t.spec_pal(3, k)
            == o.spec_pal(3, k)
    } by {
        assert(k % 4 == k && k / 4 == 0);
        assert((4 + k) % 4 == k && (4 + k) / 4 == 1);
        assert((8 + k) % 4 == k && (8 + k) / 4 == 2);
        assert((12 + k) % 4 == k && (12 + k) / 4 == 3);
        assert(1 + 2 * (3 + k) == 1 + 2 * (k + 3));
    }
}

/// An X-flipped border tile is the mirror image of the unflipped one: its
/// column `x` shows the unflipped tile's column `7 - x`.
pub proof fn law_border_tile_x_flip_mirrors(tiles: Seq<u8>, tile: int, x: int, y: int, flip_y: bool)
    requires
        0 <= x < 8,
    ensures
        tile_color(tiles, tile, x, y, true, flip_y) == tile_color(tiles, tile, 7 - x, y, false, flip_y),
{
}

/// The 4bpp color at column `x` (0 = leftmost) of an unflipped border tile
/// row takes bit `7 - x` of each of its four plane bytes; an X-flipped one
/// takes bit `x`.
pub proof fn law_border_tile_column_bits(tiles: Seq<u8>, tile: int, x: int, y: int)
    requires
        0 <= x < 8,
        0 <= y < 8,
    ensures
        ({
            let base = tile * 32 + y * 2;
            &&& tile_color(tiles, tile, x, y, false, false) == (plane_bit(tiles[base], (7 - x) as u8) + 2 * plane_bit(
                tiles[base + 1],
                (7 - x) as u8,
            ) + 4 * plane_bit(tiles[base + 16], (7 - x) as u8) + 8 * plane_bit(tiles[base + 17], (7 - x) as u8)) as u8
            &&& tile_color(tiles, tile, x, y, true, false) == (plane_bit(tiles[base], x as u8) + 2 * plane_bit(
                tiles[base + 1],
                x as u8,
            ) + 4 * plane_bit(tiles[base + 16], x as u8) + 8 * plane_bit(tiles[base + 17], x as u8)) as u8
        }),
{
}

/// A composited border pixel in a cell whose map entry has X flip set (Y
/// flip clear, a tile shown) and whose mirrored tile column is opaque is
/// that color of the entry's palette: the border column `x` of the cell
/// shows tile column `7 - x`, read as bit `x` of the plane bytes.
pub proof fn law_border_x_flip_composite(s: SgbView, front: Seq<u32>, j: int)
    requires
        0 <= j < 256 * 224,
        ({
            let m = ((j % 256) / 8 + (j / 256 / 8) * 32) * 2;
            let hi = s.border_raw@[m + 1];
            &&& hi & 3 == 0
            &&& hi & 0x40 != 0
            &&& hi & 0x80 == 0
        }),
    ensures
        ({
            let x = j % 256;
            let y = j / 256;
            let m = ((x / 8) + (y / 8) * 32) * 2;
            let lo = s.border_raw@[m];
            let hi = s.border_raw@[m + 1];
            let base = lo * 32 + (y % 8) * 2;
            let b = (x % 8) as u8;
            let tiles = s.border_tiles@;
            let c = (plane_bit(tiles[base], b) + 2 * plane_bit(tiles[base + 1], b) + 4 * plane_bit(tiles[base + 16], b) + 8
                * plane_bit(tiles[base + 17], b)) as u8;
            c != 0 ==> composite_pixel(s, front, j) == spec_bgr555(
                s.border_raw@[2048 + 2 * (c + ((hi >> 2) & 3) * 16)],
                s.border_raw@[2049 + 2 * (c + ((hi >> 2) & 3) * 16)],
            )
        }),
{
}

/// A Y-flipped border tile is the upside-down image of the unflipped one:
/// its row `y` shows the unflipped tile's row `7 - y`.
pub proof fn law_border_tile_y_flip_mirrors(tiles: Seq<u8>, tile: int, x: int, y: int, flip_x: bool)
    requires
        0 <= y < 8,
    ensures
        tile_color(tiles, tile, x, y, flip_x, true) == tile_color(tiles, tile, x, 7 - y, flip_x, false),
{
}

/// A one-entry ATTR_LIN command (command 5) gives every cell of the row
/// (entry bit 7 set) or column (clear) numbered by the entry's bits 0-4 the
/// palette in its bits 5-6, and keeps every other cell.
pub proof fn law_attr_lin_single_entry(o: SgbView, t: SgbView, cmd: Seq<u8>, c: int)
    requires
        o.wf(),
        o.command_effect(t, cmd),
        cmd.len() >= 16,
        cmd[0] / 8 == 5,
        cmd[1] == 1,
        0 <= c < 360,
    ensures
        ({
            let d = cmd[2];
            let on_line = if d >= 128 {
                c / 20 == d % 32
            } else {
                c % 20 == d % 32
            };
            t.attr@[c] == if on_line {
                (d / 32) % 4
            } else {
                o.attr@[c]
            }
        }),
{
    reveal_with_fuel(super::commands::lin_spec, 2);
}

/// The RAM palette a PAL_SET command (command 10) names for slot `p`: the
/// 9-bit number at packet bytes `1 + 2p`, `2 + 2p`.
pub open spec fn pal_set_index(cmd: Seq<u8>, p: int) -> int {
    cmd[1 + 2 * p] + (cmd[2 + 2 * p] % 2) * 256
}

/// PAL_SET copies palettes from the transferred palette RAM: colors 1-3 of
/// palette `p` are colors 1-3 of RAM palette `pal_set_index(cmd, p)` (four
/// BGR555 colors per RAM palette), and color 0 of every palette is color 0
/// of the RAM palette slot 0 names.
pub proof fn law_pal_set_copies_ram_palettes(o: SgbView, t: SgbView, cmd: Seq<u8>, p: int, k: int)
    requires
        o.wf(),
        o.command_effect(t, cmd),
        cmd.len() >= 16,
        cmd[0] / 8 == 0x0A,
        0 <= p < 4,
        0 <= k < 4,
    ensures
        ({
            let ram = o.ram_palettes@;
            let q = if k == 0 {
                pal_set_index(cmd, 0)
            } else {
                pal_set_index(cmd, p)
            };
            t.spec_pal(p, k) == spec_bgr555(ram[(q * 4 + k) * 2], ram[(q * 4 + k) * 2 + 1])
        }),
{
    assert((4 * p + k) % 4 == k && (4 * p + k) / 4 == p);
}

/// ATTR_DIV (command 6) splits the map at line `cmd[2] & 0x1F`, on rows
/// when byte 1 bit 6 is set, else on columns: cells before the line get
/// byte 1 bits 2-3, cells on it bits 4-5, cells after it bits 0-1.
pub proof fn law_attr_div_regions(o: SgbView, t: SgbView, cmd: Seq<u8>, cx: int, cy: int)
    requires
        o.wf(),
        o.command_effect(t, cmd),
        cmd.len() >= 16,
        cmd[0] / 8 == 6,
        0 <= cx < 20,
        0 <= cy < 18,
    ensures
        ({
            let coord = if cmd[1] & 0x40 != 0 {
                cy
            } else {
                cx
            };
            let line = cmd[2] & 0x1F;
            t.attr@[cy * 20 + cx] == if coord < line {
                (cmd[1] >> 2) & 3
            } else if coord == line {
                (cmd[1] >> 4) & 3
            } else {
                cmd[1] & 3
            }
        }),
{
    let b = cmd[1];
    let l = cmd[2];
    assert((b & 0x40 != 0) == ((b / 64) % 2 == 1) && (b >> 2) & 3 == (b / 4) % 4 && (b >> 4) & 3 == (b / 16) % 4
        && b & 3 == b % 4 && l & 0x1F == l % 32) by (bit_vector);
    assert((cy * 20 + cx) % 20 == cx && (cy * 20 + cx) / 20 == cy);
}

/// A one-set ATTR_BLK command (command 4) recolors by rectangle: a cell
/// strictly inside the rectangle `(x1, y1)-(x2, y2)` gets palette bits 0-1
/// when control bit 0 is set, a cell outside it gets bits 4-5 when control
/// bit 2 is set, and such cells are otherwise kept.
pub proof fn law_attr_blk_inside_outside(o: SgbView, t: SgbView, cmd: Seq<u8>, cx: int, cy: int)
    requires
        o.wf(),
        o.command_effect(t, cmd),
        cmd.len() >= 16,
        cmd[0] / 8 == 4,
        cmd[1] == 1,
        0 <= cx < 20,
        0 <= cy < 18,
    ensures
        ({
            let control = cmd[2];
            let pals = cmd[3];
            let x1 = cmd[4] & 0x1F;
            let y1 = cmd[5] & 0x1F;
            let x2 = cmd[6] & 0x1F;
            let y2 = cmd[7] & 0x1F;
            let c = cy * 20 + cx;
            &&& x1 < cx < x2 && y1 < cy < y2 ==> t.attr@[c] == if control & 1 != 0 {
                pals & 3
            } else {
                o.attr@[c]
            }
            &&& (cx < x1 || cx > x2 || cy < y1 || cy > y2) ==> t.attr@[c] == if control & 4 != 0 {
                (pals >> 4) & 3
            } else {
                o.attr@[c]
            }
        }),
{
    reveal_with_fuel(super::commands::blk_spec, 2);
    assert((cy * 20 + cx) % 20 == cx && (cy * 20 + cx) / 20 == cy);
}

/// A border cell whose map entry has bits 0-1 set shows no tile: the Game
/// Boy screen inside the inset, the backdrop (palette 0 color 0) outside.
pub proof fn law_border_unused_cell_shows_through(s: SgbView, front: Seq<u32>, j: int)
    requires
        0 <= j < 256 * 224,
        s.border_raw@[((j % 256) / 8 + (j / 256 / 8) * 32) * 2 + 1] & 3 != 0,
    ensures
        ({
            let x = j % 256;
            let y = j / 256;
            composite_pixel(s, front, j) == if 48 <= x < 208 && 40 <= y < 184 {
                front[(y - 40) * 160 + (x - 48)]
            } else {
                s.pal@[0]
            }
        }),
{
}

/// A composited border pixel in a cell whose map entry shows a tile is,
/// when the tile pixel is opaque, color `c` of border palette `4 + p`
/// (`p` = entry bits 10-11): the BGR555 word at byte `0x800 + 2 (c + 16 p)`
/// of the transferred data, where `c` takes bit `7 - x` (bit `x` when
/// X-flipped) of the four plane bytes of tile row `y` (`7 - y` when
/// Y-flipped); a transparent tile pixel shows the Game Boy screen or the
/// backdrop.
pub proof fn law_border_composite_color(s: SgbView, front: Seq<u32>, j: int)
    requires
        0 <= j < 256 * 224,
        s.border_raw@[((j % 256) / 8 + (j / 256 / 8) * 32) * 2 + 1] & 3 == 0,
    ensures
        ({
            let x = j % 256;
            let y = j / 256;
            let m = ((x / 8) + (y / 8) * 32) * 2;
            let lo = s.border_raw@[m];
            let hi = s.border_raw@[m + 1];
            let row = if hi & 0x80 != 0 {
                7 - y % 8
            } else {
                y % 8
            };
            let b = (if hi & 0x40 != 0 {
                x % 8
            } else {
                7 - x % 8
            }) as u8;
            let base = lo * 32 + row * 2;
            let tiles = s.border_tiles@;
            let c = plane_bit(tiles[base], b) + 2 * plane_bit(tiles[base + 1], b) + 4 * plane_bit(tiles[base + 16], b) + 8
                * plane_bit(tiles[base + 17], b);
            let pal = (hi >> 2) & 3;
            let kept = if 48 <= x < 208 && 40 <= y < 184 {
                front[(y - 40) * 160 + (x - 48)]
            } else {
                s.pal@[0]
            };
            composite_pixel(s, front, j) == if c == 0 {
                kept
            } else {
                spec_bgr555(s.border_raw@[2048 + 2 * (c + 16 * pal)], s.border_raw@[2049 + 2 * (c + 16 * pal)])
            }
        }),
{
    let x = j % 256;
    let y = j / 256;
    let m = ((x / 8) + (y / 8) * 32) * 2;
    let tiles = s.border_tiles@;
    let hi = s.border_raw@[m + 1];
    let lo = s.border_raw@[m];
    let row = if hi & 0x80 != 0 {
        7 - y % 8
    } else {
        y % 8
    };
    let b = (if hi & 0x40 != 0 {
        x % 8
    } else {
        7 - x % 8
    }) as u8;
    let base = lo * 32 + row * 2;
    let v0 = tiles[base];
    let v1 = tiles[base + 1];
    let v2 = tiles[base + 16];
    let v3 = tiles[base + 17];
    assert(b < 8);
    assert(plane_bit(v0, b) <= 1 && plane_bit(v1, b) <= 1 && plane_bit(v2, b) <= 1 && plane_bit(v3, b) <= 1) by (bit_vector)
        requires
            b < 8,
    ;
}

} // verus!
