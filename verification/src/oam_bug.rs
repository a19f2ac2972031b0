//! The DMG OAM corruption bug patterns (Pan Docs "OAM Corruption Bug").
//!
//! The patterns operate on 8-byte OAM rows; `row` is the byte base of the row
//! the scan is on. All bit operations are byte-wise, as in SameBoy v0.12.1
//! `GB_trigger_oam_bug{,_read,_read_increase}`.
use vstd::prelude::*;

verus! {

/// Bytes of object attribute memory (40 entries of 4 bytes).
pub const OAM_SIZE: usize = 0xA0;

/// How a CPU access with a $FE00-$FEFF value on the address bus collides
/// with the OAM scan on DMG-family models.
#[derive(Clone, Copy, PartialEq, Eq, Structural, Debug)]
pub enum OamBugKind {
    /// A memory write, or the internal M-cycle of a 16-bit inc/dec unit op.
    Write,
    /// A plain memory read.
    Read,
    /// A read in the same M-cycle as a 16-bit increment of the address register.
    ReadIncrease,
}

/// The glitched first word of the write pattern: `((a ^ c) & (b ^ c)) ^ c`.
pub open spec fn write_glitch(a: u8, b: u8, c: u8) -> u8 {
    ((a ^ c) & (b ^ c)) ^ c
}

/// The glitched first word of the read pattern: `b | (a & c)`.
pub open spec fn read_glitch(a: u8, b: u8, c: u8) -> u8 {
    b | (a & c)
}

/// The glitched preceding-row word of the read-increase pattern.
pub open spec fn increase_glitch(a: u8, b: u8, c: u8, d: u8) -> u8 {
    (b & (a | c | d)) | (a & c & d)
}

/// OAM after the write corruption at `row`: the row's first word is glitched
/// from itself (a), the preceding row's first word (b) and third word (c); the
/// rest of the row is copied from the preceding row.
pub open spec fn write_pattern(o: Seq<u8>, row: int) -> Seq<u8> {
    Seq::new(
        o.len(),
        |j: int|
            if row <= j < row + 2 {
                write_glitch(o[j], o[j - 8], o[j - 4])
            } else if row + 2 <= j < row + 8 {
                o[j - 8]
            } else {
                o[j]
            },
    )
}

/// OAM after the read corruption at `row`: the glitched first word `b | (a & c)`
/// lands in both the current and the preceding row; the rest of the current
/// row is copied from the preceding row.
pub open spec fn read_pattern(o: Seq<u8>, row: int) -> Seq<u8> {
    Seq::new(
        o.len(),
        |j: int|
            if row <= j < row + 2 {
                read_glitch(o[j], o[j - 8], o[j - 4])
            } else if row - 8 <= j < row - 6 {
                read_glitch(o[j + 8], o[j], o[j + 4])
            } else if row + 2 <= j < row + 8 {
                o[j - 8]
            } else {
                o[j]
            },
    )
}

/// The preceding row after the read-increase glitch (index `i` in 0..8).
pub open spec fn increase_row(o: Seq<u8>, row: int, i: int) -> u8 {
    if i < 2 {
        increase_glitch(o[row - 16 + i], o[row - 8 + i], o[row + i], o[row - 4 + i])
    } else {
        o[row - 8 + i]
    }
}

/// OAM after the read-increase corruption at `row`: the preceding row's first
/// word is glitched, then that whole row is copied to the current row and to
/// the row two back.
pub open spec fn increase_pattern(o: Seq<u8>, row: int) -> Seq<u8> {
    Seq::new(
        o.len(),
        |j: int|
            if row - 16 <= j < row - 8 {
                increase_row(o, row, j - (row - 16))
            } else if row - 8 <= j < row {
                increase_row(o, row, j - (row - 8))
            } else if row <= j < row + 8 {
                increase_row(o, row, j - row)
            } else {
                o[j]
            },
    )
}

/// "Write corruption" at the row whose byte base is `row`.
pub fn oam_bug_write_pattern(oam: &mut Vec<u8>, row: usize)
    requires
        8 <= row,
        row + 8 <= old(oam).len(),
    ensures
        final(oam)@ == write_pattern(old(oam)@, row as int),
{
    let ghost o = oam@;
    let mut i: usize = 0;
    while i < 2
        invariant
            0 <= i <= 2,
            8 <= row,
            row + 8 <= o.len(),
            oam@.len() == o.len(),
            oam.len() == o.len(),
            forall|j: int|
                0 <= j < o.len() ==> #[trigger] oam@[j] == if row <= j < row + i {
                    write_glitch(o[j], o[j - 8], o[j - 4])
                } else {
                    o[j]
                },
        decreases 2 - i,
    {
        let (a, b, c) = (oam[row + i], oam[row - 8 + i], oam[row - 4 + i]);
        oam[row + i] = ((a ^ c) & (b ^ c)) ^ c;
        i += 1;
    }
    while i < 8
        invariant
            2 <= i <= 8,
            8 <= row,
            row + 8 <= o.len(),
            oam@.len() == o.len(),
            oam.len() == o.len(),
            forall|j: int|
                0 <= j < o.len() ==> #[trigger] oam@[j] == if row <= j < row + 2 {
                    write_glitch(o[j], o[j - 8], o[j - 4])
                } else if row + 2 <= j < row + i {
                    o[j - 8]
                } else {
                    o[j]
                },
        decreases 8 - i,
    {
        oam[row + i] = oam[row - 8 + i];
        i += 1;
    }
    assert(oam@ =~= write_pattern(o, row as int));
}

/// "Read corruption": the glitched first word `b | (a & c)` lands in both the
/// current and the preceding row.
pub fn oam_bug_read_pattern(oam: &mut Vec<u8>, row: usize)
    requires
        8 <= row,
        row + 8 <= old(oam).len(),
    ensures
        final(oam)@ == read_pattern(old(oam)@, row as int),
{
    let ghost o = oam@;
    let mut i: usize = 0;
    while i < 2
        invariant
            0 <= i <= 2,
            8 <= row,
            row + 8 <= o.len(),
            oam@.len() == o.len(),
            oam.len() == o.len(),
            forall|j: int|
                0 <= j < o.len() ==> #[trigger] oam@[j] == if row <= j < row + i {
                    read_glitch(o[j], o[j - 8], o[j - 4])
                } else if row - 8 <= j < row - 8 + i {
                    read_glitch(o[j + 8], o[j], o[j + 4])
                } else {
                    o[j]
                },
        decreases 2 - i,
    {
        let (a, b, c) = (oam[row + i], oam[row - 8 + i], oam[row - 4 + i]);
        let glitched = b | (a & c);
        oam[row - 8 + i] = glitched;
        oam[row + i] = glitched;
        i += 1;
    }
    while i < 8
        invariant
            2 <= i <= 8,
            8 <= row,
            row + 8 <= o.len(),
            oam@.len() == o.len(),
            oam.len() == o.len(),
            forall|j: int|
                0 <= j < o.len() ==> #[trigger] oam@[j] == if row <= j < row + 2 {
                    read_glitch(o[j], o[j - 8], o[j - 4])
                } else if row - 8 <= j < row - 6 {
                    read_glitch(o[j + 8], o[j], o[j + 4])
                } else if row + 2 <= j < row + i {
                    o[j - 8]
                } else {
                    o[j]
                },
        decreases 8 - i,
    {
        oam[row + i] = oam[row - 8 + i];
        i += 1;
    }
    assert(oam@ =~= read_pattern(o, row as int));
}

/// "Read corruption during a 16-bit increase": the preceding row's first word
/// is glitched, then the whole preceding row is copied to the current row and
/// to the row two back.
pub fn oam_bug_read_increase_pattern(oam: &mut Vec<u8>, row: usize)
    requires
        16 <= row,
        row + 8 <= old(oam).len(),
    ensures
        final(oam)@ == increase_pattern(old(oam)@, row as int),
{
    let ghost o = oam@;
    let mut i: usize = 0;
    while i < 2
        invariant
            0 <= i <= 2,
            16 <= row,
            row + 8 <= o.len(),
            oam@.len() == o.len(),
            oam.len() == o.len(),
            forall|j: int|
                0 <= j < o.len() ==> #[trigger] oam@[j] == if row - 8 <= j < row - 8 + i {
                    increase_row(o, row as int, j - (row - 8))
                } else {
                    o[j]
                },
        decreases 2 - i,
    {
        let (a, b, c, d) = (oam[row - 16 + i], oam[row - 8 + i], oam[row + i], oam[row - 4 + i]);
        oam[row - 8 + i] = (b & (a | c | d)) | (a & c & d);
        i += 1;
    }
    let mut i: usize = 0;
    while i < 8
        invariant
            0 <= i <= 8,
            16 <= row,
            row + 8 <= o.len(),
            oam@.len() == o.len(),
            oam.len() == o.len(),
            forall|j: int|
                0 <= j < o.len() ==> #[trigger] oam@[j] == if row - 16 <= j < row - 16 + i {
                    increase_row(o, row as int, j - (row - 16))
                } else if row - 8 <= j < row {
                    increase_row(o, row as int, j - (row - 8))
                } else if row <= j < row + i {
                    increase_row(o, row as int, j - row)
                } else {
                    o[j]
                },
        decreases 8 - i,
    {
        let byte = oam[row - 8 + i];
        oam[row - 16 + i] = byte;
        oam[row + i] = byte;
        i += 1;
    }
    assert(oam@ =~= increase_pattern(o, row as int));
}

/// On OAM filled with one byte value, none of the corruption patterns
/// changes anything: each glitch formula gives the byte back when all its
/// inputs are that byte.
pub proof fn law_uniform_oam_is_unchanged(o: Seq<u8>, row: int, c: u8)
    requires
        8 <= row,
        row + 8 <= o.len(),
        forall|j: int| 0 <= j < o.len() ==> #[trigger] o[j] == c,
    ensures
        write_pattern(o, row) == o,
        read_pattern(o, row) == o,
        16 <= row ==> increase_pattern(o, row) == o,
{
    assert(write_glitch(c, c, c) == c && read_glitch(c, c, c) == c && increase_glitch(c, c, c, c) == c)
        by (bit_vector);
    assert(write_pattern(o, row) =~= o);
    assert(read_pattern(o, row) =~= o);
    if 16 <= row {
        assert(increase_pattern(o, row) =~= o);
    }
}

} // verus!
