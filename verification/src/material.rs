//! Material parameters for mesh rendering.
//!
//! Fractional factors (alpha, roughness and the like) are fixed-point
//! scalars as in [`crate::fixed`].

use vstd::prelude::*;

use crate::color::{Color, BLACK, WHITE};
use crate::fixed::UNIT;
use crate::texture::Texture;

verus! {

/// Parameters for a basic solid mesh material.
#[derive(Clone, Debug, PartialEq, Eq, Hash)]
pub struct Basic {
    /// Solid color applied in the absence of `map`.
    pub color: Color,
    /// Texture applied using the mesh texture co-ordinates.
    pub map: Option<Texture>,
}

impl Default for Basic {
    /// White, untextured.
    fn default() -> (r: Basic)
        ensures
            r == (Basic { color: WHITE, map: None::<Texture> }),
    {
        Basic { color: WHITE, map: None }
    }
}

/// Parameters for a Gouraud shading model.
#[derive(Clone, Debug, PartialEq, Eq, Hash, Structural)]
pub struct Gouraud {
    /// Solid object color.
    pub color: Color,
}

impl Default for Gouraud {
    /// White.
    fn default() -> (r: Gouraud)
        ensures
            r == (Gouraud { color: WHITE }),
    {
        Gouraud { color: WHITE }
    }
}

/// Parameters for a Lambertian diffuse reflection model.
#[derive(Clone, Debug, PartialEq, Eq, Hash, Structural)]
pub struct Lambert {
    /// Solid object color.
    pub color: Color,
}

impl Default for Lambert {
    /// White.
    fn default() -> (r: Lambert)
        ensures
            r == (Lambert { color: WHITE }),
    {
        Lambert { color: WHITE }
    }
}

/// Interpretation of line vertex layout.
#[derive(Clone, Copy, Debug, PartialEq, Eq, Hash, Structural)]
pub enum Layout {
    /// `[(start, end), (start, end), ...]`.
    Segments,
    /// `[start, end/start, ..., end/start, end]`.
    Strip,
    /// `[start, end/start, ..., end/start, end, <implicit start>]`.
    Loop,
}

/// Parameters for a line material.
#[derive(Clone, Debug, PartialEq, Eq, Hash, Structural)]
pub struct Line {
    /// Solid line color.
    pub color: Color,
    /// Interpretation of vertex layout.
    pub layout: Layout,
}

impl Default for Line {
    /// White strip.
    fn default() -> (r: Line)
        ensures
            r == (Line { color: WHITE, layout: Layout::Strip }),
    {
        Line { color: WHITE, layout: Layout::Strip }
    }
}

/// Parameters for a PBR (physically based rendering) lighting model.
#[derive(Clone, Debug, PartialEq, Eq, Hash)]
pub struct Pbr {
    /// Solid base color applied in the absence of `base_color_map`.
    pub base_color_factor: Color,
    /// Base color alpha factor, fixed-point in `[0, 1]`.
    pub base_color_alpha: i64,
    /// Metallic factor, fixed-point in `[0, 1]`.
    pub metallic_factor: i64,
    /// Roughness factor, fixed-point in `[0, 1]`.
    pub roughness_factor: i64,
    /// Occlusion strength, fixed-point in `[0, 1]`.
    pub occlusion_strength: i64,
    /// Solid emissive color applied in the absence of `emissive_map`.
    pub emissive_factor: Color,
    /// Scalar multiplier applied to each vector of the normal map.
    pub normal_scale: i64,
    /// Base color texture.
    pub base_color_map: Option<Texture>,
    /// Normal texture.
    pub normal_map: Option<Texture>,
    /// Emissive texture.
    pub emissive_map: Option<Texture>,
    /// Metallic-roughness texture.
    pub metallic_roughness_map: Option<Texture>,
    /// Occlusion texture.
    pub occlusion_map: Option<Texture>,
}

impl Default for Pbr {
    /// White, fully metallic and rough, untextured.
    fn default() -> (r: Pbr)
        ensures
            r.base_color_factor == WHITE,
            r.base_color_alpha == UNIT,
            r.metallic_factor == UNIT,
            r.roughness_factor == UNIT,
            r.occlusion_strength == UNIT,
            r.emissive_factor == BLACK,
            r.normal_scale == UNIT,
            r.base_color_map is None,
            r.normal_map is None,
            r.emissive_map is None,
            r.metallic_roughness_map is None,
            r.occlusion_map is None,
    {
        Pbr {
            base_color_factor: WHITE,
            base_color_alpha: UNIT,
            metallic_factor: UNIT,
            roughness_factor: UNIT,
            occlusion_strength: UNIT,
            emissive_factor: BLACK,
            normal_scale: UNIT,
            base_color_map: None,
            normal_map: None,
            emissive_map: None,
            metallic_roughness_map: None,
            occlusion_map: None,
        }
    }
}

/// Parameters for a Phong reflection model.
#[derive(Clone, Debug, PartialEq, Eq, Hash, Structural)]
pub struct Phong {
    /// Solid color applied in the absence of `map`.
    pub color: Color,
    /// Sharpness of specular highlights, fixed-point.
    pub glossiness: i64,
}

impl Default for Phong {
    /// White with a glossiness of thirty.
    fn default() -> (r: Phong)
        ensures
            r.color == WHITE,
            r.glossiness == 30 * UNIT,
    {
        Phong { color: WHITE, glossiness: 30 * UNIT }
    }
}

/// Texture for a 2D sprite.
#[derive(Clone, Debug, PartialEq, Eq, Hash)]
pub struct Sprite {
    /// The texture to apply to the sprite.
    pub map: Texture,
}

/// Parameters for mesh wireframe rasterization.
#[derive(Clone, Debug, PartialEq, Eq, Hash, Structural)]
pub struct Wireframe {
    /// Solid color applied to each wireframe edge.
    pub color: Color,
}

/// Specifies the appearance of a mesh.
#[derive(Clone, Debug, PartialEq, Eq, Hash)]
pub enum Material {
    /// Renders triangle meshes with a solid color or texture.
    Basic(Basic),
    /// Renders triangle meshes with the Gouraud illumination model.
    Gouraud(Gouraud),
    /// Renders line strip meshes with a solid color and unit width.
    Line(Line),
    /// Renders triangle meshes with the Lambertian illumination model.
    Lambert(Lambert),
    /// Renders triangle meshes with the Phong illumination model.
    Phong(Phong),
    /// Renders triangle meshes with a physically-based illumination model.
    Pbr(Pbr),
    /// Renders sprites with the given texture.
    Sprite(Sprite),
    /// Renders the edges of a triangle mesh with a solid color.
    Wireframe(Wireframe),
}

} // verus!
