//! SGB attribute-grid fills, palette-RAM select, and the sound / data / flag
//! command handlers (Pan Docs "SGB Command $xx", SameBoy `command_ready`).
use vstd::prelude::*;
use crate::bits::lemma_u8_bits;
use crate::color::{bgr555, spec_bgr555};
use super::{attr_div_spec, capped_push, SgbSound, SgbView, SOUND_QUEUE_CAP};

verus! {

/// The palette a 2-bit attribute-file pair `k` (high pair first) selects.
pub open spec fn pair_of(byte: u8, k: int) -> u8 {
    ((byte as int / pow4(3 - k)) % 4) as u8
}

/// 4 to the power `n` for `n` in 0..=3.
pub open spec fn pow4(n: int) -> int {
    if n <= 0 {
        1
    } else if n == 1 {
        4
    } else if n == 2 {
        16
    } else {
        64
    }
}

/// The live map after installing attribute file `file` (2 bits per cell, four
/// cells per byte, high pair first).
pub open spec fn attr_file_spec(files: Seq<u8>, file: int) -> Seq<u8> {
    Seq::new(360, |c: int| pair_of(files[file * 90 + c / 4], c % 4))
}

/// One ATTR_LIN entry applied: bit 7 selects a row (else a column), bits 5-6
/// the palette, bits 0-4 the line.
pub open spec fn lin_entry(a: Seq<u8>, d: u8) -> Seq<u8> {
    let line = d % 32;
    let pal = ((d / 32) % 4) as u8;
    Seq::new(
        a.len(),
        |c: int|
            if d >= 128 && c / 20 == line {
                pal
            } else if d < 128 && c % 20 == line {
                pal
            } else {
                a[c]
            },
    )
}

/// The map after the first `k` ATTR_LIN entries.
pub open spec fn lin_spec(a: Seq<u8>, cmd: Seq<u8>, k: int) -> Seq<u8>
    decreases k,
{
    if k <= 0 {
        a
    } else {
        lin_entry(lin_spec(a, cmd, k - 1), cmd[2 + k - 1])
    }
}

/// Which palette one ATTR_BLK data set gives cell `(cx, cy)` whose current
/// palette is `old`: inside / on-border / outside the rectangle, each region
/// recolored only if its control bit is set; an inside-only (or outside-only)
/// set also paints the border with that palette.
pub open spec fn blk_cell(old: u8, control: u8, pals: u8, x1: u8, y1: u8, x2: u8, y2: u8, cx: int, cy: int) -> u8 {
    let inside = control & 1 != 0;
    let outside = control & 4 != 0;
    let middle0 = control & 2 != 0;
    let inside_pal = pals & 3;
    let outside_pal = (pals >> 4) & 3;
    let middle_pal0 = (pals >> 2) & 3;
    let (middle, middle_pal) = if inside && !middle0 && !outside {
        (true, inside_pal)
    } else if outside && !middle0 && !inside {
        (true, outside_pal)
    } else {
        (middle0, middle_pal0)
    };
    if cx < x1 || cx > x2 || cy < y1 || cy > y2 {
        if outside { outside_pal } else { old }
    } else if cx > x1 && cx < x2 && cy > y1 && cy < y2 {
        if inside { inside_pal } else { old }
    } else if middle {
        middle_pal
    } else {
        old
    }
}

/// One ATTR_BLK data set (starting at `cmd[base]`) applied to the map.
pub open spec fn blk_set(a: Seq<u8>, cmd: Seq<u8>, base: int) -> Seq<u8> {
    Seq::new(
        a.len(),
        |c: int|
            blk_cell(
                a[c],
                cmd[base],
                cmd[base + 1],
                cmd[base + 2] & 0x1F,
                cmd[base + 3] & 0x1F,
                cmd[base + 4] & 0x1F,
                cmd[base + 5] & 0x1F,
                c % 20,
                c / 20,
            ),
    )
}

/// The map after the first `k` ATTR_BLK data sets (a set running past the
/// command is dropped, and so are all later ones).
pub open spec fn blk_spec(a: Seq<u8>, cmd: Seq<u8>, k: int) -> Seq<u8>
    decreases k,
{
    if k <= 0 {
        a
    } else if 2 + 6 * (k - 1) + 6 > cmd.len() {
        blk_spec(a, cmd, k - 1)
    } else {
        blk_set(blk_spec(a, cmd, k - 1), cmd, 2 + 6 * (k - 1))
    }
}

/// The cell an ATTR_CHR walk reaches at linear position `n` (row-major for
/// the horizontal order, column-major for the vertical one).
pub open spec fn chr_cell(vertical: bool, n: int) -> int {
    if vertical {
        (n % 18) * 20 + n / 18
    } else {
        n
    }
}

/// The walk position of cell `c` (inverse of [`chr_cell`]).
pub open spec fn chr_pos(vertical: bool, c: int) -> int {
    if vertical {
        (c % 20) * 18 + c / 20
    } else {
        c
    }
}

/// The number of cells an ATTR_CHR command writes: its count, bounded by the
/// data bytes present and the end of the screen.
pub open spec fn chr_steps(cmd: Seq<u8>, start: int) -> int {
    let count = cmd[3] + cmd[4] * 256;
    let by_data = 4 * (cmd.len() - 6);
    let by_screen = 360 - start;
    if count <= by_data && count <= by_screen {
        count
    } else if by_data <= by_screen {
        by_data
    } else {
        by_screen
    }
}

/// The map after ATTR_CHR.
pub open spec fn chr_spec(a: Seq<u8>, cmd: Seq<u8>) -> Seq<u8> {
    let vertical = cmd[5] % 2 == 1;
    let x = cmd[1] as int;
    let y = cmd[2] as int;
    if x >= 20 || y >= 18 {
        a
    } else {
        let start = if vertical { x * 18 + y } else { y * 20 + x };
        let n = chr_steps(cmd, start);
        Seq::new(
            a.len(),
            |c: int|
                {
                    let i = chr_pos(vertical, c) - start;
                    if 0 <= i < n {
                        pair_of(cmd[6 + i / 4], i % 4)
                    } else {
                        a[c]
                    }
                },
        )
    }
}

/// The palettes after PAL_SET: palette `p` takes the four colors of PAL_TRN RAM
/// palette `cmd[1+2p] | (cmd[2+2p] & 1) << 8`, entry 0 of all four replaced by
/// palette 0's color 0.
pub open spec fn pal_set_spec(ram: Seq<u8>, cmd: Seq<u8>) -> Seq<u32> {
    Seq::new(
        16,
        |i: int|
            {
                let p = if i % 4 == 0 { 0 } else { i / 4 };
                let idx = cmd[1 + p * 2] + (cmd[2 + p * 2] % 2) * 256;
                let off = (idx * 4 + i % 4) * 2;
                spec_bgr555(ram[off], ram[off + 1])
            },
    )
}

impl SgbView {
    /// ATTR_BLK ($04): byte 1 = number of 6-byte data sets (cap 18), each
    /// `control`, `palettes`, `x1,y1,x2,y2` in 20×18-cell coordinates.
    pub fn attr_blk(&mut self, cmd: &[u8])
        requires
            old(self).wf(),
            cmd@.len() >= 16,
        ensures
            final(self).wf(),
            final(self).attr@ == blk_spec(old(self).attr@, cmd@, if cmd@[1] < 18 { cmd@[1] as int } else { 18 }),
            final(self).pal@ == old(self).pal@,
            final(self).mask == old(self).mask,
            final(self).sound_events@ == old(self).sound_events@,
            final(self).pending_transfer == old(self).pending_transfer,
    {
        let sets: usize = if (cmd[1] as usize) < 18 { cmd[1] as usize } else { 18 };
        let mut s: usize = 0;
        while s < sets && 2 + s * 6 + 6 <= cmd.len()
            invariant
                0 <= s <= sets <= 18,
                self.wf(),
                cmd@.len() >= 16,
                self.attr@ == blk_spec(old(self).attr@, cmd@, s as int),
                self.pal@ == old(self).pal@,
                self.mask == old(self).mask,
                self.sound_events@ == old(self).sound_events@,
                self.pending_transfer == old(self).pending_transfer,
            decreases sets - s,
        {
            let base = 2 + s * 6;
            let control = cmd[base];
            let pals = cmd[base + 1];
            let (x1, y1) = (cmd[base + 2] & 0x1F, cmd[base + 3] & 0x1F);
            let (x2, y2) = (cmd[base + 4] & 0x1F, cmd[base + 5] & 0x1F);
            let ghost before = self.attr@;
            let mut c: usize = 0;
            while c < 360
                invariant
                    0 <= c <= 360,
                    self.wf(),
                    base + 6 <= cmd@.len(),
                    control == cmd@[base as int],
                    pals == cmd@[base + 1],
                    x1 == cmd@[base + 2] & 0x1F,
                    y1 == cmd@[base + 3] & 0x1F,
                    x2 == cmd@[base + 4] & 0x1F,
                    y2 == cmd@[base + 5] & 0x1F,
                    before.len() == 360,
                    forall|j: int| 0 <= j < 360 ==> #[trigger] self.attr@[j] == if j < c {
                        blk_set(before, cmd@, base as int)[j]
                    } else {
                        before[j]
                    },
                    self.pal@ == old(self).pal@,
                    self.mask == old(self).mask,
                    self.sound_events@ == old(self).sound_events@,
                    self.pending_transfer == old(self).pending_transfer,
                decreases 360 - c,
            {
                let cx = (c % 20) as u8;
                let cy = (c / 20) as u8;
                let inside = control & 1 != 0;
                let outside = control & 4 != 0;
                let mut middle = control & 2 != 0;
                let inside_pal = pals & 3;
                let outside_pal = (pals >> 4) & 3;
                let mut middle_pal = (pals >> 2) & 3;
                if inside && !middle && !outside {
                    middle = true;
                    middle_pal = inside_pal;
                } else if outside && !middle && !inside {
                    middle = true;
                    middle_pal = outside_pal;
                }
                let cur = self.attr[c];
                let v = if cx < x1 || cx > x2 || cy < y1 || cy > y2 {
                    if outside { outside_pal } else { cur }
                } else if cx > x1 && cx < x2 && cy > y1 && cy < y2 {
                    if inside { inside_pal } else { cur }
                } else if middle {
                    middle_pal
                } else {
                    cur
                };
                proof {
                    lemma_u8_bits(pals);
                }
                self.attr.set(c, v);
                c += 1;
            }
            assert(self.attr@ =~= blk_set(before, cmd@, base as int));
            s += 1;
        }
        if s < sets {
            proof {
                lemma_blk_stops(old(self).attr@, cmd@, s as int, sets as int);
            }
        }
    }

    /// ATTR_LIN ($05): byte 1 = number of 1-byte line entries; each entry's
    /// bit 7 selects a row (else a column), bits 5-6 the palette, bits 0-4 the
    /// line.
    pub fn attr_lin(&mut self, cmd: &[u8])
        requires
            old(self).wf(),
            cmd@.len() >= 16,
        ensures
            final(self).wf(),
            final(self).attr@ == lin_spec(
                old(self).attr@,
                cmd@,
                if cmd@[1] <= cmd@.len() - 2 { cmd@[1] as int } else { cmd@.len() - 2 },
            ),
            final(self).pal@ == old(self).pal@,
            final(self).mask == old(self).mask,
    {
        let avail = cmd.len() - 2;
        let count: usize = if (cmd[1] as usize) <= avail { cmd[1] as usize } else { avail };
        let mut i: usize = 0;
        while i < count
            invariant
                0 <= i <= count,
                count <= cmd.len() - 2,
                cmd.len() == cmd@.len(),
                self.wf(),
                self.attr@ == lin_spec(old(self).attr@, cmd@, i as int),
                self.pal@ == old(self).pal@,
                self.mask == old(self).mask,
            decreases count - i,
        {
            let d = cmd[2 + i];
            let horizontal = d & 0x80 != 0;
            let pal = (d >> 5) & 3;
            let line = d & 0x1F;
            proof {
                lemma_u8_bits(d);
            }
            let ghost before = self.attr@;
            let mut c: usize = 0;
            while c < 360
                invariant
                    0 <= c <= 360,
                    self.wf(),
                    before.len() == 360,
                    pal < 4,
                    forall|j: int| 0 <= j < 360 ==> #[trigger] self.attr@[j] == if j < c {
                        lin_entry(before, d)[j]
                    } else {
                        before[j]
                    },
                    horizontal == (d >= 128),
                    pal == (d / 32) % 4,
                    line == d % 32,
                    self.pal@ == old(self).pal@,
                    self.mask == old(self).mask,
                decreases 360 - c,
            {
                let hit = if horizontal {
                    c / 20 == line as usize
                } else {
                    c % 20 == line as usize
                };
                if hit {
                    self.attr.set(c, pal);
                }
                c += 1;
            }
            assert(self.attr@ =~= lin_entry(before, d));
            i += 1;
        }
    }

    /// ATTR_DIV ($06): split the screen on a row/column into three palettes.
    /// byte 1: bits 0-1 = high (after the line), 2-3 = low (before), 4-5 =
    /// middle (on the line), bit 6 = horizontal; byte 2 bits 0-4 = the line.
    pub fn attr_div(&mut self, cmd: &[u8])
        requires
            old(self).wf(),
            cmd@.len() >= 16,
        ensures
            final(self).wf(),
            final(self).attr@ == attr_div_spec(cmd@),
            final(self).pal@ == old(self).pal@,
            final(self).mask == old(self).mask,
    {
        let b1 = cmd[1];
        let b2 = cmd[2];
        let high = cmd[1] & 3;
        let low = (cmd[1] >> 2) & 3;
        let middle = (cmd[1] >> 4) & 3;
        let horizontal = cmd[1] & 0x40 != 0;
        let line = cmd[2] & 0x1F;
        proof {
            lemma_u8_bits(b1);
            lemma_u8_bits(b2);
        }
        let mut c: usize = 0;
        while c < 360
            invariant
                0 <= c <= 360,
                self.wf(),
                cmd@.len() >= 16,
                b1 == cmd@[1],
                high == b1 % 4,
                low == (b1 / 4) % 4,
                middle == (b1 / 16) % 4,
                horizontal == ((b1 / 64) % 2 == 1),
                line == cmd@[2] % 32,
                forall|j: int| 0 <= j < c ==> #[trigger] self.attr@[j] == attr_div_spec(cmd@)[j],
                self.pal@ == old(self).pal@,
                self.mask == old(self).mask,
            decreases 360 - c,
        {
            let coord = if horizontal { c / 20 } else { c % 20 };
            let pal = if coord < line as usize {
                low
            } else if coord == line as usize {
                middle
            } else {
                high
            };
            self.attr.set(c, pal);
            c += 1;
        }
        assert(self.attr@ =~= attr_div_spec(cmd@));
    }

    /// ATTR_CHR ($07): per-cell writes from a start cell. Bytes 1-2 = start
    /// x,y; 3-4 = count (LE); byte 5 bit 0 = direction (0 left→right then
    /// down, 1 top→bottom then right); bytes 6.. = 2 bits/cell, four cells per
    /// byte, high pair first. The walk stops at the end of the screen or of
    /// the data.
    pub fn attr_chr(&mut self, cmd: &[u8])
        requires
            old(self).wf(),
            cmd@.len() >= 16,
        ensures
            final(self).wf(),
            final(self).attr@ == chr_spec(old(self).attr@, cmd@),
            final(self).pal@ == old(self).pal@,
            final(self).mask == old(self).mask,
    {
        let x0 = cmd[1];
        let y0 = cmd[2];
        let count: usize = cmd[3] as usize + (cmd[4] as usize) * 256;
        let b5 = cmd[5];
        proof {
            lemma_u8_bits(b5);
        }
        let vertical = b5 & 1 != 0;
        if x0 >= 20 || y0 >= 18 {
            return;
        }
        let start: usize = if vertical {
            x0 as usize * 18 + y0 as usize
        } else {
            y0 as usize * 20 + x0 as usize
        };
        let by_data: usize = if cmd.len() - 6 >= 90 { 360 } else { 4 * (cmd.len() - 6) };
        let by_screen = 360 - start;
        let n: usize = if count <= by_data && count <= by_screen {
            count
        } else if by_data <= by_screen {
            by_data
        } else {
            by_screen
        };
        assert(n == chr_steps(cmd@, start as int));
        let ghost a0 = self.attr@;
        let mut i: usize = 0;
        while i < n
            invariant
                0 <= i <= n,
                n <= 360 - start,
                n <= 4 * (cmd@.len() - 6),
                start < 360,
                self.wf(),
                a0 == old(self).attr@,
                vertical == (cmd@[5] % 2 == 1),
                forall|j: int| 0 <= j < 360 ==> #[trigger] self.attr@[j] == {
                    let k = chr_pos(vertical, j) - start;
                    if 0 <= k < i {
                        pair_of(cmd@[6 + k / 4], k % 4)
                    } else {
                        a0[j]
                    }
                },
                self.pal@ == old(self).pal@,
                self.mask == old(self).mask,
            decreases n - i,
        {
            let byte = cmd[6 + i / 4];
            let k = i % 4;
            let pal = (byte >> ((2 * (3 - k)) as u8)) & 3;
            proof {
                lemma_pair_of(byte, k as int);
            }
            let pos = start + i;
            let cell = if vertical {
                (pos % 18) * 20 + pos / 18
            } else {
                pos
            };
            proof {
                lemma_chr_cell_pos(vertical, pos as int);
            }
            self.attr.set(cell, pal);
            assert forall|j: int| 0 <= j < 360 && j != cell implies chr_pos(vertical, j) != pos by {
                lemma_chr_cell_pos_inj(vertical, j, pos as int);
            }
            i += 1;
        }
        assert(self.attr@ =~= chr_spec(a0, cmd@));
    }

    /// ATTR_SET ($16): install attribute file `cmd[1] & 0x3F`; bit 6 also
    /// cancels MASK_EN.
    pub fn attr_set(&mut self, cmd: &[u8])
        requires
            old(self).wf(),
            cmd@.len() >= 16,
        ensures
            final(self).wf(),
            (cmd@[1] % 64) <= 0x2C ==> final(self).attr@ == attr_file_spec(old(self).attr_files@, (cmd@[1] % 64) as int),
            (cmd@[1] % 64) > 0x2C ==> final(self).attr@ == old(self).attr@,
            final(self).mask == if (cmd@[1] / 64) % 2 == 1 { 0 } else { old(self).mask },
            final(self).pal@ == old(self).pal@,
    {
        let b = cmd[1];
        proof {
            lemma_u8_bits(b);
        }
        self.load_attribute_file(b & 0x3F);
        if b & 0x40 != 0 {
            self.mask = 0;
        }
    }

    /// Expand one of the 45 ATTR_TRN'd attribute files into the live map;
    /// indices past 0x2C are ignored.
    pub fn load_attribute_file(&mut self, file: u8)
        requires
            old(self).wf(),
        ensures
            final(self).wf(),
            file <= 0x2C ==> final(self).attr@ == attr_file_spec(old(self).attr_files@, file as int),
            file > 0x2C ==> final(self).attr@ == old(self).attr@,
            final(self).mask == old(self).mask,
            final(self).pal@ == old(self).pal@,
            final(self).attr_files@ == old(self).attr_files@,
    {
        if file > 0x2C {
            return;
        }
        let base = file as usize * 90;
        let mut c: usize = 0;
        while c < 360
            invariant
                0 <= c <= 360,
                base == file * 90,
                file <= 0x2C,
                self.wf(),
                self.attr_files@ == old(self).attr_files@,
                forall|j: int| 0 <= j < c ==> #[trigger] self.attr@[j] == attr_file_spec(old(self).attr_files@, file as int)[j],
                self.mask == old(self).mask,
                self.pal@ == old(self).pal@,
            decreases 360 - c,
        {
            let byte = self.attr_files[base + c / 4];
            let k = c % 4;
            let pal = (byte >> ((2 * (3 - k)) as u8)) & 3;
            proof {
                lemma_pair_of(byte, k as int);
            }
            self.attr.set(c, pal);
            c += 1;
        }
        assert(self.attr@ =~= attr_file_spec(old(self).attr_files@, file as int));
    }

    /// PAL_SET ($0A): select four palettes from PAL_TRN RAM (9-bit selectors);
    /// entry 0 of all four is palette 0's color 0. Byte 9 bit 7 also installs
    /// attribute file `cmd[9] & 0x3F`; bit 6 cancels MASK_EN.
    pub fn pal_set(&mut self, cmd: &[u8])
        requires
            old(self).wf(),
            cmd@.len() >= 16,
        ensures
            final(self).wf(),
            final(self).pal@ == pal_set_spec(old(self).ram_palettes@, cmd@),
            cmd@[9] >= 128 && cmd@[9] % 64 <= 0x2C ==> final(self).attr@ == attr_file_spec(
                old(self).attr_files@,
                (cmd@[9] % 64) as int,
            ),
            !(cmd@[9] >= 128 && cmd@[9] % 64 <= 0x2C) ==> final(self).attr@ == old(self).attr@,
            final(self).mask == if (cmd@[9] / 64) % 2 == 1 { 0 } else { old(self).mask },
    {
        let ghost ram = self.ram_palettes@;
        let mut i: usize = 0;
        while i < 16
            invariant
                0 <= i <= 16,
                self.wf(),
                cmd@.len() >= 16,
                self.ram_palettes@ == ram,
                self.attr@ == old(self).attr@,
                self.attr_files@ == old(self).attr_files@,
                self.mask == old(self).mask,
                forall|j: int| 0 <= j < i ==> #[trigger] self.pal@[j] == pal_set_spec(ram, cmd@)[j],
            decreases 16 - i,
        {
            let p = if i % 4 == 0 { 0 } else { i / 4 };
            let idx: usize = cmd[1 + p * 2] as usize + ((cmd[2 + p * 2] % 2) as usize) * 256;
            let off = (idx * 4 + i % 4) * 2;
            let c = bgr555(self.ram_palettes[off], self.ram_palettes[off + 1]);
            self.pal.set(i, c);
            i += 1;
        }
        assert(self.pal@ =~= pal_set_spec(ram, cmd@));
        let b9 = cmd[9];
        proof {
            lemma_u8_bits(b9);
        }
        if b9 & 0x80 != 0 {
            self.load_attribute_file(b9 & 0x3F);
        }
        if b9 & 0x40 != 0 {
            self.mask = 0;
        }
    }

    /// SOUND ($08): queue a sound-effect event (effect A, effect B,
    /// attenuation, effect bank).
    pub fn sound(&mut self, cmd: &[u8])
        requires
            old(self).wf(),
            cmd@.len() >= 16,
        ensures
            final(self).wf(),
            final(self).sound_events@ == capped_push(
                old(self).sound_events@,
                SgbSound { effect_a: cmd@[1], effect_b: cmd@[2], attenuation: cmd@[3], effect_bank: cmd@[4] },
            ),
            final(self).pal@ == old(self).pal@,
            final(self).attr@ == old(self).attr@,
            final(self).mask == old(self).mask,
    {
        self.push_capped_sound(
            SgbSound { effect_a: cmd[1], effect_b: cmd[2], attenuation: cmd[3], effect_bank: cmd[4] },
        );
    }

    /// DATA_SND ($0F): store the inline packet (bytes 1-15) for the SNES-side
    /// consumer.
    pub fn data_snd(&mut self, cmd: &[u8])
        requires
            old(self).wf(),
            cmd@.len() >= 16,
        ensures
            final(self).wf(),
            final(self).data_snd@.len() == if old(self).data_snd@.len() >= SOUND_QUEUE_CAP {
                old(self).data_snd@.len()
            } else {
                old(self).data_snd@.len() + 1
            },
            final(self).data_snd@.last()@ == cmd@.subrange(1, 16),
            old(self).data_snd@.len() < SOUND_QUEUE_CAP ==> forall|k: int|
                0 <= k < old(self).data_snd@.len() ==> #[trigger] final(self).data_snd@[k] == old(self).data_snd@[k],
            old(self).data_snd@.len() >= SOUND_QUEUE_CAP ==> forall|k: int|
                0 <= k < old(self).data_snd@.len() - 1 ==> #[trigger] final(self).data_snd@[k] == old(
                    self,
                ).data_snd@[k + 1],
            final(self).pal@ == old(self).pal@,
            final(self).attr@ == old(self).attr@,
            final(self).mask == old(self).mask,
    {
        if self.data_snd.len() >= SOUND_QUEUE_CAP {
            self.data_snd.remove(0);
        }
        let mut p: Vec<u8> = Vec::new();
        let mut i: usize = 1;
        while i < 16
            invariant
                1 <= i <= 16,
                cmd@.len() >= 16,
                p@ == cmd@.subrange(1, i as int),
            decreases 16 - i,
        {
            p.push(cmd[i]);
            assert(p@ =~= cmd@.subrange(1, i as int + 1));
            i += 1;
        }
        self.data_snd.push(p);
    }

    /// JUMP ($12): latch the SNES program-jump target (24-bit, bytes 1-3).
    pub fn jump(&mut self, cmd: &[u8])
        requires
            old(self).wf(),
            cmd@.len() >= 16,
        ensures
            final(self).wf(),
            final(self).jump == Some((cmd@[1] + cmd@[2] * 256 + cmd@[3] * 65536) as u32),
            final(self).pal@ == old(self).pal@,
            final(self).attr@ == old(self).attr@,
            final(self).mask == old(self).mask,
    {
        self.jump = Some(cmd[1] as u32 + (cmd[2] as u32) * 256 + (cmd[3] as u32) * 65536);
    }

    /// Queue a SOUND event, dropping the oldest once the cap is reached.
    pub fn push_capped_sound(&mut self, s: SgbSound)
        requires
            old(self).wf(),
        ensures
            final(self).wf(),
            final(self).sound_events@ == capped_push(old(self).sound_events@, s),
            final(self).pal@ == old(self).pal@,
            final(self).attr@ == old(self).attr@,
            final(self).mask == old(self).mask,
    {
        if self.sound_events.len() >= SOUND_QUEUE_CAP {
            self.sound_events.remove(0);
        }
        self.sound_events.push(s);
        assert(self.sound_events@ =~= capped_push(old(self).sound_events@, s));
    }

    /// Write attribute cell `(cx, cy)`; cells off the 20×18 grid are ignored.
    pub fn set_attr(&mut self, cx: u8, cy: u8, pal: u8)
        requires
            old(self).wf(),
        ensures
            final(self).wf(),
            cx < 20 && cy < 18 ==> final(self).attr@ == old(self).attr@.update(cy * 20 + cx, pal % 4),
            !(cx < 20 && cy < 18) ==> final(self).attr@ == old(self).attr@,
            final(self).pal@ == old(self).pal@,
            final(self).mask == old(self).mask,
    {
        if cx < 20 && cy < 18 {
            proof {
                lemma_u8_bits(pal);
            }
            self.attr.set(cy as usize * 20 + cx as usize, pal & 3);
        }
    }
}

/// The four shift-and-mask attribute pairs of a byte.
proof fn lemma_pairs_bv(byte: u8)
    by (bit_vector)
    ensures
        (byte >> 6u8) & 3 == byte / 64,
        (byte >> 4u8) & 3 == (byte / 16) % 4,
        (byte >> 2u8) & 3 == (byte / 4) % 4,
        (byte >> 0u8) & 3 == byte % 4,
{
}

/// The shift-and-mask form of an attribute pair.
pub proof fn lemma_pair_of(byte: u8, k: int)
    requires
        0 <= k < 4,
    ensures
        (byte >> (2 * (3 - k)) as u8) & 3 == pair_of(byte, k),
        pair_of(byte, k) < 4,
{
    lemma_pairs_bv(byte);
}

/// Walk position and cell are inverse on the screen.
pub proof fn lemma_chr_cell_pos(vertical: bool, n: int)
    requires
        0 <= n < 360,
    ensures
        0 <= chr_cell(vertical, n) < 360,
        chr_pos(vertical, chr_cell(vertical, n)) == n,
{
}

/// Distinct cells have distinct walk positions.
pub proof fn lemma_chr_cell_pos_inj(vertical: bool, c: int, n: int)
    requires
        0 <= c < 360,
        0 <= n < 360,
        c != chr_cell(vertical, n),
    ensures
        chr_pos(vertical, c) != n,
{
}

/// A data set past the command's end stops ATTR_BLK for good.
pub proof fn lemma_blk_stops(a: Seq<u8>, cmd: Seq<u8>, s: int, k: int)
    requires
        0 <= s < k,
        2 + 6 * s + 6 > cmd.len(),
    ensures
        blk_spec(a, cmd, k) == blk_spec(a, cmd, s),
    decreases k - s,
{
    if k - 1 > s {
        lemma_blk_stops(a, cmd, s, k - 1);
    }
}

} // verus!
