//! The DMG OAM corruption bug: the row window and the three patterns.

use slopgb_core::model::Model;
use slopgb_core::oam_bug::OamBugKind;
use slopgb_core::ppu::{Ppu, GLITCH_LINE_DOTS};

fn dmg() -> Ppu {
    Ppu::new(Model::Dmg)
}

fn run_to(p: &mut Ppu, line: u8, dot: u16) -> u8 {
    let mut ifs = 0;
    let mut guard = 0u32;
    while !(p.line == line && p.dot == dot) {
        ifs |= p.tick();
        guard += 1;
        assert!(guard < 200_000, "run_to({line},{dot}) never reached");
    }
    ifs
}

/// PPU on a steady visible line with every OAM byte distinct.
fn oam_bug_ppu(line: u8, dot: u16) -> Ppu {
    let mut p = dmg();
    p.write(0xFF40, 0x81);
    run_to(&mut p, line, dot);
    for (i, byte) in p.mem.oam.iter_mut().enumerate() {
        *byte = (i as u8) ^ 0xA5;
    }
    p
}

#[test]
fn oam_bug_row_window_tracks_scan() {
    let mut p = dmg();
    assert_eq!(p.oam_bug_row(), None, "LCD off");
    p.write(0xFF40, 0x81);
    for _ in 0..GLITCH_LINE_DOTS {
        assert_eq!(p.oam_bug_row(), None, "glitch line dot {}", p.dot);
        p.tick();
    }
    for line in [1u8, 2, 143] {
        run_to(&mut p, line, 0);
        for dot in 0..456u16 {
            let expect = if (4..80).contains(&dot) {
                Some((dot / 4 * 8) as u8)
            } else {
                None
            };
            assert_eq!(p.oam_bug_row(), expect, "line {line} dot {dot}");
            p.tick();
        }
    }
    run_to(&mut p, 144, 0);
    for _ in 0..456 {
        assert_eq!(p.oam_bug_row(), None, "vblank dot {}", p.dot);
        p.tick();
    }
}

#[test]
fn oam_bug_write_pattern_formula() {
    let mut p = oam_bug_ppu(1, 16);
    let before = p.mem.oam.clone();
    p.oam_bug(OamBugKind::Write);
    let row = 0x20;
    for i in 0..2 {
        let (a, b, c) = (before[row + i], before[row - 8 + i], before[row - 4 + i]);
        assert_eq!(p.mem.oam[row + i], ((a ^ c) & (b ^ c)) ^ c, "glitched byte {i}");
    }
    for i in 2..8 {
        assert_eq!(p.mem.oam[row + i], before[row - 8 + i], "copied byte {i}");
    }
    for (i, &byte) in p.mem.oam.iter().enumerate() {
        if !(row..row + 8).contains(&i) {
            assert_eq!(byte, before[i], "byte {i} outside the row untouched");
        }
    }
}

#[test]
fn oam_bug_write_pattern_first_row_references_row_zero() {
    let mut p = oam_bug_ppu(1, 4);
    let before = p.mem.oam.clone();
    p.oam_bug(OamBugKind::Write);
    let (a, b, c) = (before[8], before[0], before[4]);
    assert_eq!(p.mem.oam[8], ((a ^ c) & (b ^ c)) ^ c);
    assert_eq!(p.mem.oam[..8], before[..8], "row 0 untouched");
}

#[test]
fn oam_bug_read_pattern_formula() {
    let mut p = oam_bug_ppu(1, 16);
    let before = p.mem.oam.clone();
    p.oam_bug(OamBugKind::Read);
    let row = 0x20;
    for i in 0..2 {
        let (a, b, c) = (before[row + i], before[row - 8 + i], before[row - 4 + i]);
        let glitched = b | (a & c);
        assert_eq!(p.mem.oam[row + i], glitched, "current row byte {i}");
        assert_eq!(p.mem.oam[row - 8 + i], glitched, "preceding row byte {i}");
    }
    for i in 2..8 {
        assert_eq!(p.mem.oam[row + i], before[row - 8 + i], "copied byte {i}");
        assert_eq!(p.mem.oam[row - 8 + i], before[row - 8 + i], "prev tail intact");
    }
}

#[test]
fn oam_bug_read_pattern_on_uniform_oam_is_invisible() {
    let mut p = oam_bug_ppu(1, 16);
    p.mem.oam = vec![0x5A; 0xA0];
    p.oam_bug(OamBugKind::Read);
    assert_eq!(p.mem.oam, vec![0x5A; 0xA0]);
}

#[test]
fn oam_bug_read_increase_pattern_at_row_4_and_up() {
    let mut p = oam_bug_ppu(1, 16);
    let before = p.mem.oam.clone();
    p.oam_bug(OamBugKind::ReadIncrease);
    let row = 0x20;
    let mut expect_prev = [0u8; 8];
    expect_prev.copy_from_slice(&before[row - 8..row]);
    for i in 0..2 {
        let (a, b, c, d) = (
            before[row - 0x10 + i],
            before[row - 8 + i],
            before[row + i],
            before[row - 4 + i],
        );
        expect_prev[i] = (b & (a | c | d)) | (a & c & d);
    }
    for (i, &expect) in expect_prev.iter().enumerate() {
        assert_eq!(p.mem.oam[row - 0x10 + i], expect, "two rows back {i}");
        assert_eq!(p.mem.oam[row - 8 + i], expect, "preceding row {i}");
        assert_eq!(p.mem.oam[row + i], expect, "current row {i}");
    }
    for (i, &byte) in p.mem.oam.iter().enumerate() {
        if !(row - 0x10..row + 8).contains(&i) {
            assert_eq!(byte, before[i], "byte {i} outside the rows untouched");
        }
    }
}

#[test]
fn oam_bug_read_increase_in_first_rows_is_plain_read() {
    let mut p = oam_bug_ppu(1, 8);
    let mut reference = oam_bug_ppu(1, 8);
    p.oam_bug(OamBugKind::ReadIncrease);
    reference.oam_bug(OamBugKind::Read);
    assert_eq!(p.mem.oam, reference.mem.oam);

    let mut p = oam_bug_ppu(1, 76);
    let mut reference = oam_bug_ppu(1, 76);
    p.oam_bug(OamBugKind::ReadIncrease);
    reference.oam_bug(OamBugKind::Read);
    assert_eq!(p.mem.oam, reference.mem.oam);
}

#[test]
fn oam_bug_outside_window_is_a_no_op() {
    for dot in [0u16, 80, 200, 300] {
        let mut p = oam_bug_ppu(1, dot);
        let before = p.mem.oam.clone();
        p.oam_bug(OamBugKind::Write);
        p.oam_bug(OamBugKind::Read);
        p.oam_bug(OamBugKind::ReadIncrease);
        assert_eq!(p.mem.oam, before, "dot {dot}");
    }
}
