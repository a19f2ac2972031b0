//! STAT mode and interrupt timing.

#![allow(dead_code)]

use slopgb_core::model::Model;
use slopgb_core::oam_bug::OamBugKind;
use slopgb_core::ppu::{Ppu, GLITCH_LINE_DOTS, IF_STAT, IF_VBLANK};

fn dmg() -> Ppu {
    Ppu::new(Model::Dmg)
}

fn cgb() -> Ppu {
    Ppu::new(Model::Cgb)
}

/// Tick `n` dots, OR-ing the returned IF bits.
fn tick_n(p: &mut Ppu, n: u32) -> u8 {
    let mut ifs = 0;
    for _ in 0..n {
        ifs |= p.tick();
    }
    ifs
}

/// Tick until the PPU sits at (line, dot); returns OR of IF bits seen.
fn run_to(p: &mut Ppu, line: u8, dot: u16) -> u8 {
    let mut ifs = 0;
    let mut guard = 0u32;
    while !(p.line == line && p.dot == dot) {
        ifs |= p.tick();
        guard += 1;
        assert!(guard < 200_000, "run_to({line},{dot}) never reached");
    }
    ifs
}

const WRITE_NOPS: [u32; 19] = [
    0, 17, 18, 60, 61, 110, 111, 112, 130, 131, 132, 174, 175, 224, 225, 226, 244, 245, 246,
];

/// PPU on a steady visible line with every OAM byte distinct.
fn oam_bug_ppu(line: u8, dot: u16) -> Ppu {
    let mut p = dmg();
    p.write(0xFF40, 0x81);
    run_to(&mut p, line, dot);
    for (i, byte) in p.mem.oam.iter_mut().enumerate() {
        *byte = (i as u8) ^ 0xA5;
    }
    p
}



/// The STAT mode-bit flip edge (`m0_stat_flip`, drained by
/// `take_m0_stat_flip`) fires once per *sprite-extended* line on the
/// mode-3→mode-0 flip dot, and not at all on a bare line (the sprite gate
/// keeps the bare-line DMA/lcd-offset reads off the override — sub-dot
/// event-phase model, INC-DS-1).
#[test]
fn m0_stat_flip_fires_once_on_a_sprite_line() {
    let mut p = cgb();
    // A sprite covering screen lines 0-7 (Y=16), on-screen X — so it is
    // fetched and the flip edge is armed.
    p.mem.oam[0] = 16;
    p.mem.oam[1] = 8;
    p.write(0xFF40, 0x93); // LCD on, OBJ on, BG on
    run_to(&mut p, 1, 0); // steady-state line 1, sprite present
    p.take_m0_stat_flip(); // drain line 0's edge (the interconnect drains every tick)
    let mut fired = 0;
    let mut flip_dot = None;
    for _ in 0..400 {
        p.tick();
        if p.take_m0_stat_flip().is_some() {
            fired += 1;
            flip_dot = Some(p.dot);
            assert!(p.flags.line_render_done, "flip edge implies mode-0 entry");
            assert_eq!(p.vis_mode(), 0, "mode bits are 0 at the flip dot");
        }
    }
    assert_eq!(fired, 1, "stat flip fires exactly once on the sprite line");
    assert!(flip_dot.unwrap() > 84, "flip is past the mode-3 start");
}

/// The STAT mode-bit flip edge stays off on a bare line: those DS reads
/// reach FF41 through the DMA-cycle / lcd-offset chains at a different
/// sub-cycle offset, so the override would regress them (INC-DS-1 gate).
#[test]
fn m0_stat_flip_is_off_on_a_bare_line() {
    let mut p = cgb();
    p.write(0xFF40, 0x91); // LCD on, BG on, no sprites
    run_to(&mut p, 1, 0);
    p.take_m0_stat_flip();
    let mut fired = 0;
    for _ in 0..400 {
        p.tick();
        if p.take_m0_stat_flip().is_some() {
            fired += 1;
        }
    }
    assert_eq!(fired, 0, "bare-line flip stays off the STAT-mode override");
}


#[test]
fn stat_mode_during_vblank() {
    let mut p = dmg();
    p.write(0xFF40, 0x81);
    run_to(&mut p, 144, 3);
    assert_eq!(p.read(0xFF41) & 3, 1, "eager: 144:3 already reads mode 1");
    p.tick();
    assert_eq!(p.read(0xFF41) & 3, 1);
    run_to(&mut p, 150, 100);
    assert_eq!(p.read(0xFF41) & 3, 1);
    // OAM and VRAM accessible during vblank (mem_oam).
    p.write(0xFE05, 0x5A);
    assert_eq!(p.read(0xFE05), 0x5A);
    p.write(0x9000, 0xA5);
    assert_eq!(p.read(0x9000), 0xA5);
}

#[test]
fn mode0_irq_at_254_plus_scx_fine() {
    // The IRQ source rises with the visible flip, 2 dots before the
    // pipe end (see render.rs `m0_flip_events`).
    for scx in [0u8, 1, 4, 5, 7, 8, 13] {
        let mut p = dmg();
        p.write(0xFF41, 0x08);
        p.write(0xFF43, scx);
        p.write(0xFF40, 0x81);
        run_to(&mut p, 1, 4); // line start: hblank source dropped
        let v0 = 254 + u16::from(scx & 7);
        let ifs = run_to(&mut p, 1, v0 - 1);
        assert_eq!(ifs & 2, 0, "scx {scx}: no hblank IRQ before {v0}");
        assert_eq!(p.tick(), 0x02, "scx {scx}: hblank IRQ at {v0}");
    }
}

