//! Colors as packed `0xRRGGBB` values.

use vstd::prelude::*;

verus! {

/// A color in `0xRRGGBB` form.
pub type Color = u32;

/// Opaque white.
pub const WHITE: Color = 0xFFFFFF;

/// Opaque black.
pub const BLACK: Color = 0x000000;

/// Opaque red.
pub const RED: Color = 0xFF0000;

/// Opaque green.
pub const GREEN: Color = 0x00FF00;

/// Opaque blue.
pub const BLUE: Color = 0x0000FF;

} // verus!
