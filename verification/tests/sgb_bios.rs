//! The SGB BIOS seams: the title checksum, the title palette table and a
//! border installed from a BIOS image.

use slopgb_core::model::Model;
use slopgb_core::ppu::Ppu;
use slopgb_core::color::title_checksum;
use slopgb_core::sgb::{SHADE_BLACK, SHADE_DARK, SHADE_LIGHT, SHADE_WHITE};

#[test]
fn title_checksum_is_byte_sum() {
    assert_eq!(title_checksum(&[1, 2, 3]), 6);
    assert_eq!(title_checksum(&[0xFF, 0x02]), 0x01); // wraps
    assert_eq!(title_checksum(b""), 0);
}

/// The title→palette hook installs the selected BGR555 4-colour set into all
/// four SGB palettes; an empty table leaves the neutral DMG default.
#[test]
fn apply_title_palette_installs_and_neutral_default() {
    let mut ppu = Ppu::new(Model::Sgb);
    // Two-entry table; checksum of b"AB" = 0x83, %2 = 1 → entry 1 (white).
    let table = [[0, 0, 0, 0], [0x7FFF, 0x7FFF, 0x7FFF, 0x7FFF]];
    ppu.sgb_apply_bios_palette(b"AB", &table);
    let s = ppu.sgb.as_ref().unwrap();
    assert_eq!(
        s.pal, vec![0xFF_FFFFu32; 16],
        "entry 1 white applied to all palettes"
    );

    // Empty table is a no-op: DMG greyscale default stands.
    let mut ppu = Ppu::new(Model::Sgb);
    ppu.sgb_apply_bios_palette(b"AB", &[]);
    assert_eq!(
        ppu.sgb.as_ref().unwrap().pal,
        [SHADE_WHITE, SHADE_LIGHT, SHADE_DARK, SHADE_BLACK].repeat(4)
    );

    // Off SGB: no panic, no view.
    let mut dmg = Ppu::new(Model::Dmg);
    dmg.sgb_apply_bios_palette(b"AB", &table);
    assert!(dmg.sgb.is_none());
}

/// A BIOS border install marks the border ready and renders through the ROM
/// composite path; a mis-sized payload is rejected and keeps the default.
#[test]
fn install_border_validates_and_marks_ready() {
    let mut ppu = Ppu::new(Model::Sgb);
    let chr0 = vec![0u8; 4096];
    let mut pct = vec![0u8; 2176];
    // Tilemap entry (0,0) → tile 0 pal 0; border palette 4 colour 1 = red.
    pct[2048 + 2] = 0x1F;
    assert!(
        ppu.sgb_install_border(&chr0, &[], &pct),
        "well-sized install accepted"
    );
    ppu.sgb_composite_border();
    // Tile 0 is all-zero (colour 0) over a non-GB cell → backdrop, but the
    // border is now ready (ROM path), not the default.
    assert!(ppu.sgb.as_ref().unwrap().border_ready());

    // Wrong size rejected.
    let mut ppu = Ppu::new(Model::Sgb);
    assert!(!ppu.sgb_install_border(&[0u8; 10], &[], &[0u8; 2176]));
    assert!(!ppu.sgb.as_ref().unwrap().border_ready(), "default kept");
}
