//! Dot-accurate Game Boy / Game Boy Color picture processing unit with the
//! Super Game Boy presentation layer, verified with Verus.
use vstd::prelude::*;

pub mod bits;
pub mod buf;
pub mod color;
pub mod model;
pub mod oam_bug;
pub mod ppu;
pub mod sgb;
pub mod state;

verus! {

/// Visible screen width in pixels.
pub const SCREEN_W: usize = 160;
/// Visible screen height in pixels.
pub const SCREEN_H: usize = 144;
/// Pixels in one frame.
pub const SCREEN_PIXELS: usize = 23040;
/// Width of the SGB's 256×224 SNES border surface.
pub const SGB_BORDER_W: usize = 256;
/// Height of the SGB's 256×224 SNES border surface.
pub const SGB_BORDER_H: usize = 224;

} // verus!
