//! Textures and cube maps, as the scene graph sees them.
//!
//! The pixel data itself lives with the rendering backend; here a texture is
//! an opaque resource identifier together with the integer texel bookkeeping
//! that sprite animation manipulates.

use vstd::prelude::*;

use crate::fixed::{fx_div, spec_fx_div};

verus! {

/// A pair of texel dimensions.
#[derive(Clone, Copy, Debug, PartialEq, Eq, Hash, Structural)]
pub struct Size2 {
    /// Horizontal extent, in texels.
    pub x: u32,
    /// Vertical extent, in texels.
    pub y: u32,
}

/// A texel coordinate.
#[derive(Clone, Copy, Debug, PartialEq, Eq, Hash, Structural)]
pub struct Texel2 {
    /// Horizontal coordinate, in texels.
    pub x: i64,
    /// Vertical coordinate, in texels.
    pub y: i64,
}

/// An image applied (mapped) to the surface of a shape or polygon.
///
/// `tex0` and `tex1` are the corners of the active texel rectangle, in
/// texels, with the vertical axis flipped so that `set_texel_range` can take
/// a top-left base point.
#[derive(Clone, Copy, Debug, PartialEq, Eq, Hash, Structural)]
pub struct Texture {
    /// Identifier of the backing image resource, owned by the renderer.
    pub resource: u64,
    /// Width and height of the whole image, in texels.
    pub total_size: Size2,
    /// Lower corner of the active texel rectangle.
    pub tex0: Texel2,
    /// Upper corner of the active texel rectangle.
    pub tex1: Texel2,
}

impl Texture {
    /// A texture covering the whole image of the given size.
    pub fn new(resource: u64, width: u32, height: u32) -> (r: Texture)
        ensures
            r.resource == resource,
            r.total_size == (Size2 { x: width, y: height }),
            r.tex0 == (Texel2 { x: 0, y: 0 }),
            r.tex1 == (Texel2 { x: width as i64, y: height as i64 }),
    {
        Texture {
            resource,
            total_size: Size2 { x: width, y: height },
            tex0: Texel2 { x: 0, y: 0 },
            tex1: Texel2 { x: width as i64, y: height as i64 },
        }
    }

    /// Select the rectangle of `size` texels whose top-left corner is
    /// `base`, counting `base` from the top of the image.
    pub fn set_texel_range(&mut self, base_x: i16, base_y: i16, size_x: u16, size_y: u16)
        ensures
            final(self).resource == old(self).resource,
            final(self).total_size == old(self).total_size,
            final(self).tex0.x == base_x as i64,
            final(self).tex0.y == old(self).total_size.y as i64 - base_y as i64 - size_y as i64,
            final(self).tex1.x == base_x as i64 + size_x as i64,
            final(self).tex1.y == old(self).total_size.y as i64 - base_y as i64,
    {
        self.tex0 = Texel2 {
            x: base_x as i64,
            y: self.total_size.y as i64 - base_y as i64 - size_y as i64,
        };
        self.tex1 = Texel2 {
            x: base_x as i64 + size_x as i64,
            y: self.total_size.y as i64 - base_y as i64,
        };
    }
}

impl Texture {
    /// The normalized UV rectangle (x0, y0, x1, y1) of the current texel
    /// range, as fixed-point fractions of the image size.
    pub fn uv_range(&self) -> (r: [i64; 4])
        requires
            self.total_size.x > 0,
            self.total_size.y > 0,
        ensures
            r[0] == spec_fx_div(self.tex0.x as int, self.total_size.x as int),
            r[1] == spec_fx_div(self.tex0.y as int, self.total_size.y as int),
            r[2] == spec_fx_div(self.tex1.x as int, self.total_size.x as int),
            r[3] == spec_fx_div(self.tex1.y as int, self.total_size.y as int),
    {
        [
            fx_div(self.tex0.x, self.total_size.x as i64),
            fx_div(self.tex0.y, self.total_size.y as i64),
            fx_div(self.tex1.x, self.total_size.x as i64),
            fx_div(self.tex1.y, self.total_size.y as i64),
        ]
    }
}

/// Paths to the six faces of a cube map texture.
#[derive(Clone, Debug)]
pub struct CubeMapPath<P> {
    /// "Front" image. `Z+`.
    pub front: P,
    /// "Back" image. `Z-`.
    pub back: P,
    /// "Left" image. `X-`.
    pub left: P,
    /// "Right" image. `X+`.
    pub right: P,
    /// "Up" image. `Y+`.
    pub up: P,
    /// "Down" image. `Y-`.
    pub down: P,
}

impl<P> CubeMapPath<P> {
    /// The six faces in the order a cube map loader consumes them.
    pub fn _as_array(&self) -> (r: [&P; 6])
        ensures
            r == [&self.right, &self.left, &self.up, &self.down, &self.front, &self.back],
    {
        [&self.right, &self.left, &self.up, &self.down, &self.front, &self.back]
    }
}

/// A cube map: six textures forming the faces of a cube.
#[derive(Clone, Debug, PartialEq, Eq, Hash)]
pub struct Cube;

impl Cube {
    /// Build a cube map placeholder.
    pub fn _new() -> Cube {
        Cube
    }
}

} // verus!
