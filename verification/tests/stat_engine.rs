//! LCD-enable timing tables: LY, STAT, OAM and VRAM reads at fixed M-cycle
//! offsets after turning the LCD on.

use slopgb_core::model::Model;
use slopgb_core::ppu::Ppu;

fn dmg() -> Ppu {
    Ppu::new(Model::Dmg)
}

fn tick_n(p: &mut Ppu, n: u32) -> u8 {
    let mut ifs = 0;
    for _ in 0..n {
        ifs |= p.tick();
    }
    ifs
}

const LCDON_CYCLES: [[u32; 8]; 3] = [
    [0, 17, 60, 110, 130, 174, 224, 244],
    [1, 18, 61, 111, 131, 175, 225, 245],
    [2, 19, 62, 112, 132, 176, 226, 246],
];

fn lcdon_case(lyc: u8, pass: usize, col: usize) -> Ppu {
    let mut p = dmg();
    p.write(0xFF45, lyc);
    p.write(0xFF40, 0x81);
    tick_n(&mut p, 4 * (LCDON_CYCLES[pass][col] + 2));
    p
}

fn check_lcdon_table(lyc: u8, addr: u16, expect: &[[u8; 8]; 3]) {
    for pass in 0..3 {
        for col in 0..8 {
            let p = lcdon_case(lyc, pass, col);
            assert_eq!(
                p.read(addr),
                expect[pass][col],
                "pass {pass} col {col} (cycle {})",
                LCDON_CYCLES[pass][col]
            );
        }
    }
}

#[test]
fn lcdon_ly_table() {
    check_lcdon_table(
        0,
        0xFF44,
        &[
            [0, 0, 0, 0, 1, 1, 1, 2],
            [0, 0, 0, 1, 1, 1, 2, 2],
            [0, 0, 0, 1, 1, 1, 2, 2],
        ],
    );
}

#[test]
fn lcdon_stat_lyc0_table() {
    check_lcdon_table(
        0,
        0xFF41,
        &[
            [0x84, 0x87, 0x84, 0x80, 0x82, 0x80, 0x80, 0x82],
            [0x84, 0x87, 0x84, 0x82, 0x83, 0x80, 0x82, 0x83],
            [0x84, 0x87, 0x84, 0x82, 0x83, 0x80, 0x82, 0x83],
        ],
    );
}

#[test]
fn lcdon_stat_lyc1_table() {
    check_lcdon_table(
        1,
        0xFF41,
        &[
            [0x80, 0x83, 0x80, 0x80, 0x86, 0x84, 0x80, 0x82],
            [0x80, 0x83, 0x80, 0x86, 0x87, 0x84, 0x82, 0x83],
            [0x80, 0x83, 0x80, 0x86, 0x87, 0x84, 0x82, 0x83],
        ],
    );
}

#[test]
fn lcdon_oam_read_table() {
    check_lcdon_table(
        0,
        0xFE00,
        &[
            [0x00, 0x00, 0xFF, 0x00, 0xFF, 0xFF, 0x00, 0xFF],
            [0x00, 0xFF, 0x00, 0xFF, 0xFF, 0x00, 0xFF, 0xFF],
            [0x00, 0xFF, 0x00, 0xFF, 0xFF, 0x00, 0xFF, 0xFF],
        ],
    );
}

#[test]
fn lcdon_vram_read_table() {
    check_lcdon_table(
        0,
        0x8000,
        &[
            [0x00, 0x00, 0xFF, 0x00, 0x00, 0xFF, 0x00, 0x00],
            [0x00, 0xFF, 0x00, 0x00, 0xFF, 0x00, 0x00, 0xFF],
            [0x00, 0xFF, 0x00, 0x00, 0xFF, 0x00, 0x00, 0xFF],
        ],
    );
}
