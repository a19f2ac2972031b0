//! LYC comparison and FF45 write timing.

#![allow(dead_code)]

use slopgb_core::model::Model;
use slopgb_core::oam_bug::OamBugKind;
use slopgb_core::ppu::{Ppu, GLITCH_LINE_DOTS, IF_STAT, IF_VBLANK};

fn dmg() -> Ppu {
    Ppu::new(Model::Dmg)
}

fn cgb() -> Ppu {
    Ppu::new(Model::Cgb)
}

/// Tick `n` dots, OR-ing the returned IF bits.
fn tick_n(p: &mut Ppu, n: u32) -> u8 {
    let mut ifs = 0;
    for _ in 0..n {
        ifs |= p.tick();
    }
    ifs
}

/// Tick until the PPU sits at (line, dot); returns OR of IF bits seen.
fn run_to(p: &mut Ppu, line: u8, dot: u16) -> u8 {
    let mut ifs = 0;
    let mut guard = 0u32;
    while !(p.line == line && p.dot == dot) {
        ifs |= p.tick();
        guard += 1;
        assert!(guard < 200_000, "run_to({line},{dot}) never reached");
    }
    ifs
}

const WRITE_NOPS: [u32; 19] = [
    0, 17, 18, 60, 61, 110, 111, 112, 130, 131, 132, 174, 175, 224, 225, 226, 244, 245, 246,
];

/// PPU on a steady visible line with every OAM byte distinct.
fn oam_bug_ppu(line: u8, dot: u16) -> Ppu {
    let mut p = dmg();
    p.write(0xFF40, 0x81);
    run_to(&mut p, line, dot);
    for (i, byte) in p.mem.oam.iter_mut().enumerate() {
        *byte = (i as u8) ^ 0xA5;
    }
    p
}


#[test]
fn lyc_event_fires_despite_hblank_enable() {
    // gambatte lcdirq_precedence/lycirq_ly44_lcdstat48: with the
    // mode-0 source enabled alongside LYC, the LYC event of its line
    // still raises IF — the sources are independent events, not a
    // wired-OR level (LycIrq::doEvent is blocked by the m2 enable
    // only on visible lines, never by m0).
    let mut p = dmg();
    p.write(0xFF45, 68);
    p.write(0xFF41, 0x48); // LYC + mode-0 sources
    p.write(0xFF40, 0x81);
    run_to(&mut p, 67, 400); // past line 67's m0 event
    let ifs = run_to(&mut p, 68, 8);
    assert_eq!(ifs & IF_STAT, IF_STAT, "LYC event fires under m0 enable");
}

#[test]
fn cgb_stat_disable_in_event_leadin_still_fires() {
    // gambatte lycEnable/ff41_disable_2 (dmg08_out0_cgb04c_out2): a
    // STAT write committing in the last M-cycle before the LYC event
    // does not reach the event's delayed enable copy on CGB
    // (LycIrq::regChange `time_ - cc > 2`); on DMG it does.
    for (model, expect) in [(Model::Dmg, 0), (Model::Cgb, IF_STAT)] {
        let mut p = Ppu::new(model);
        p.write(0xFF45, 68);
        p.write(0xFF41, 0x48);
        p.write(0xFF40, 0x81);
        run_to(&mut p, 67, 400);
        run_to(&mut p, 68, 0);
        p.write(0xFF41, 0x00); // disable committing at (68,0)
        let ifs = run_to(&mut p, 68, 8);
        assert_eq!(ifs & IF_STAT, expect, "{model:?}");
    }
}

#[test]
fn dmg_ff45_write_in_event_leadin_misses_event() {
    // gambatte lycEnable/lyc153_late_ff45_enable_3 (dmg08_outE0): an
    // FF45 write committing at the line-start M-cycle cannot reach
    // that line's LYC event on DMG either (LycIrq::regChange
    // `time_ - cc > 4 || timeSrc != time_`), and the write trigger
    // sees the old value still matching the held compare ("lyc flag
    // never goes low -> no trigger").
    let mut p = dmg();
    p.write(0xFF45, 152);
    p.write(0xFF41, 0x40);
    p.write(0xFF40, 0x81);
    run_to(&mut p, 152, 300); // past the (152,4) event
    run_to(&mut p, 153, 0);
    p.write(0xFF45, 153); // commits at (153,0)
    let ifs = run_to(&mut p, 153, 8);
    assert_eq!(ifs & IF_STAT, 0, "protected write misses the 153 event");
}

#[test]
fn ly153_reads_zero_from_dot_4() {
    let mut p = dmg();
    p.write(0xFF40, 0x81);
    run_to(&mut p, 153, 3);
    assert_eq!(p.read(0xFF44), 153);
    p.tick();
    assert_eq!(p.read(0xFF44), 0);
    run_to(&mut p, 0, 0);
    assert_eq!(p.read(0xFF44), 0);
}




#[test]
fn lyc_flag_frozen_while_lcd_off() {
    let mut p = dmg();
    p.write(0xFF41, 0x40);
    p.write(0xFF40, 0x81);
    run_to(&mut p, 144, 10);
    p.write(0xFF45, 0x90); // LY = LYC = 144
    p.tick();
    assert_eq!(p.read(0xFF41), 0xC5); // cmp set, mode 1 (vblank)
    p.write(0xFF40, 0x01); // LCD off
    assert_eq!(p.read(0xFF41), 0xC4, "flag retained");
    assert_eq!(p.write(0xFF45, 0x01), 0, "comparison clock stopped: no IRQ");
    assert_eq!(p.read(0xFF41), 0xC4, "comparison clock stopped");
    assert_eq!(p.write(0xFF40, 0x81), 0); // LCD on: LY=0 vs LYC=1
    assert_eq!(p.read(0xFF41), 0xC0);
}

#[test]
fn lyc_no_edge_when_comparison_unchanged_across_off_on() {
    let mut p = dmg();
    p.write(0xFF41, 0x40);
    p.write(0xFF40, 0x81);
    run_to(&mut p, 144, 10);
    p.write(0xFF45, 0x90);
    p.tick();
    p.write(0xFF40, 0x01);
    p.write(0xFF45, 0x00); // will match LY=0 on enable
    assert_eq!(p.read(0xFF41), 0xC4);
    assert_eq!(p.write(0xFF40, 0x81), 0, "no edge: flag stayed set");
    assert_eq!(p.read(0xFF41), 0xC4);
}

#[test]
fn lyc_irq_on_lcd_enable() {
    let mut p = dmg();
    p.write(0xFF41, 0x40);
    p.write(0xFF45, 0x00);
    p.write(0xFF40, 0x81);
    run_to(&mut p, 144, 10);
    p.write(0xFF40, 0x01); // off with cmp clear (LY=144 vs 0)
    assert_eq!(p.read(0xFF41), 0xC0);
    // On: LY=0 vs LYC=0 -> rising edge.
    assert_eq!(
        p.write(0xFF40, 0x81),
        0x02,
        "stat_lyc_onoff round 4: IRQ in the enabling write's cycle"
    );
    assert_eq!(p.read(0xFF41), 0xC4);
}

#[test]
fn ly153_lyc153_compare_window() {
    let mut p = Ppu::new(Model::Dmg);
    p.write(0xFF45, 153);
    p.write(0xFF40, 0x81);
    run_to(&mut p, 153, 3);
    assert_eq!(p.read(0xFF41) & 4, 0);
    p.tick();
    assert_eq!(p.read(0xFF41) & 4, 4);
    tick_n(&mut p, 3);
    assert_eq!(p.read(0xFF41) & 4, 4);
    p.tick();
    assert_eq!(p.read(0xFF41) & 4, 0);
    tick_n(&mut p, 4);
    assert_eq!(p.read(0xFF41) & 4, 0);
}

#[test]
fn lyc_compare_invalid_first_4_dots_of_line() {
    let mut p = Ppu::new(Model::Dmg);
    p.write(0xFF45, 2);
    p.write(0xFF40, 0x81);
    run_to(&mut p, 2, 0);
    assert_eq!(p.read(0xFF41) & 4, 0);
    tick_n(&mut p, 3);
    assert_eq!(p.read(0xFF41) & 4, 0);
    p.tick();
    assert_eq!(p.read(0xFF41) & 4, 4);
}

#[test]
fn ly153_lyc0_compare_from_dot_12() {
    let mut p = dmg();
    p.write(0xFF45, 0);
    p.write(0xFF41, 0x40);
    p.write(0xFF40, 0x81);
    run_to(&mut p, 153, 11);
    assert_eq!(p.read(0xFF41) & 4, 0);
    assert_eq!(p.tick(), 0x02, "LYC=0 IRQ fires at 153:12");
    assert_eq!(p.read(0xFF41) & 4, 4);
    assert_eq!(run_to(&mut p, 1, 0) & 2, 0);
}
