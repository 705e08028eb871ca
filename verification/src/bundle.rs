//! Scene-side parameter records: per-object data that drives the resource
//! builders (positions, heights, colors, bounding boxes).
//!
//! Shader scalars are carried as raw 32-bit values (the bit pattern of an
//! IEEE-754 single). This library never computes with them; it only decides,
//! lays out and moves them, so a scalar is an opaque 32-bit word here.

use crate::density_map::DensityMap;
use crate::height_map::HeightMap;
use vstd::prelude::*;

verus! {

/// Handle reserved by the host for the shared blade mesh.
pub const GRASS_MESH_HANDLE: u64 = 0;

/// Handle reserved by the host for its default (all-white) image.
pub const DEFAULT_IMAGE_HANDLE: u64 = 1;

/// Bit pattern of 1.0 in IEEE-754 single precision; the default blade height
/// and the default alpha channel.
pub const SCALAR_ONE_BITS: u32 = 0x3F80_0000;

/// Bit pattern of 0.2 in IEEE-754 single precision.
pub const SCALAR_ZERO_POINT_TWO_BITS: u32 = 0x3E4C_CCCD;

/// Bit pattern of 0.5 in IEEE-754 single precision.
pub const SCALAR_ZERO_POINT_FIVE_BITS: u32 = 0x3F00_0000;

/// Bit pattern of 0.1 in IEEE-754 single precision.
pub const SCALAR_ZERO_POINT_ONE_BITS: u32 = 0x3DCC_CCCD;

/// One grass-blade position; `x`/`z` span the ground plane, `y` is the
/// height above it. Components are raw 32-bit scalars.
#[derive(Clone, Copy, PartialEq, Eq, Structural, Debug)]
pub struct Position {
    pub x: u32,
    pub y: u32,
    pub z: u32,
}

/// An RGBA color; each channel is a raw 32-bit scalar.
#[derive(Clone, Copy, PartialEq, Eq, Structural, Debug)]
pub struct Color {
    pub red: u32,
    pub green: u32,
    pub blue: u32,
    pub alpha: u32,
}

impl Color {
    /// An opaque color: alpha defaults to 1.0, as the color model's
    /// convention demands.
    pub fn rgb(red: u32, green: u32, blue: u32) -> (c: Color)
        ensures
            c == (Color { red, green, blue, alpha: SCALAR_ONE_BITS }),
    {
        Color { red, green, blue, alpha: SCALAR_ONE_BITS }
    }
}

/// World-space extents of the plane a map record is projected onto.
/// Components are raw 32-bit scalars describing the full size of the box.
#[derive(Clone, Copy, PartialEq, Eq, Structural, Debug)]
pub struct Aabb {
    pub extent_x: u32,
    pub extent_y: u32,
    pub extent_z: u32,
}

/// The height of the grass blades: either one constant value for every
/// blade, or sampled from an image-backed texture. The two variants are
/// mutually exclusive per object.
#[derive(Clone, Copy, PartialEq, Eq, Structural, Debug)]
pub enum WarblerHeight {
    /// A constant height for all blades; a raw 32-bit scalar.
    Uniform(u32),
    /// A handle to the image whose texels give per-blade heights.
    Texture(u64),
}

/// The color of the grass blades: a main color at the tip and a bottom
/// color, interpolated over the blade.
#[derive(Clone, Copy, PartialEq, Eq, Structural, Debug)]
pub struct GrassColor {
    pub main_color: Color,
    pub bottom_color: Color,
}

/// The documented default grass colors: main (0.2, 0.5, 0.0) and bottom
/// (0.1, 0.1, 0.0), both opaque.
pub open spec fn default_grass_color() -> GrassColor {
    GrassColor {
        main_color: Color {
            red: SCALAR_ZERO_POINT_TWO_BITS,
            green: SCALAR_ZERO_POINT_FIVE_BITS,
            blue: 0,
            alpha: SCALAR_ONE_BITS,
        },
        bottom_color: Color {
            red: SCALAR_ZERO_POINT_ONE_BITS,
            green: SCALAR_ZERO_POINT_ONE_BITS,
            blue: 0,
            alpha: SCALAR_ONE_BITS,
        },
    }
}

impl Default for GrassColor {
    fn default() -> (c: Self)
        ensures
            c == default_grass_color(),
    {
        GrassColor {
            main_color: Color::rgb(SCALAR_ZERO_POINT_TWO_BITS, SCALAR_ZERO_POINT_FIVE_BITS, 0),
            bottom_color: Color::rgb(SCALAR_ZERO_POINT_ONE_BITS, SCALAR_ZERO_POINT_ONE_BITS, 0),
        }
    }
}

/// Explicit positions of all grass blades of one object, plus one scalar
/// blade height shared by them.
#[derive(Clone, PartialEq, Debug)]
pub struct Grass {
    /// The position of each blade, relative to the object's transform.
    pub positions: Vec<Position>,
    /// The height of the grass blades; a raw 32-bit scalar.
    pub height: u32,
}

impl Grass {
    /// Creates a new [`Grass`] record.
    pub fn new(positions: Vec<Position>, height: u32) -> (g: Grass)
        ensures
            g.positions == positions,
            g.height == height,
    {
        Grass { positions, height }
    }

    /// Builds a record from a slice of positions, with a zero height until
    /// [`Self::with_height`] sets one.
    pub fn from_slice(value: &[Position]) -> (g: Grass)
        ensures
            g.positions@ == value@,
            g.height == 0,
    {
        Grass { positions: vstd::slice::slice_to_vec(value), height: 0 }
    }

    /// Sets the blade height and returns the record.
    pub fn with_height(self, height: u32) -> (g: Grass)
        ensures
            g.positions == self.positions,
            g.height == height,
    {
        Grass { positions: self.positions, height }
    }
}

impl Default for Grass {
    fn default() -> (g: Self)
        ensures
            g.positions@ == Seq::<Position>::empty(),
            g.height == SCALAR_ONE_BITS,
    {
        Grass { positions: Vec::new(), height: SCALAR_ONE_BITS }
    }
}

/// The full set of records that spawns one map-driven grass chunk:
/// mesh, height map, density map, height, color and bounding box.
#[derive(Clone, Copy, PartialEq, Eq, Structural, Debug)]
pub struct WarblersBundle {
    /// Handle of the mesh shared by all blades of the chunk.
    pub grass_mesh: u64,
    /// The height-map record.
    pub height_map: HeightMap,
    /// The density-map record.
    pub density_map: DensityMap,
    /// The blade-height record.
    pub height: WarblerHeight,
    /// The color record.
    pub grass_color: GrassColor,
    /// World-space extents that the maps are projected onto.
    pub aabb: Aabb,
}

impl Default for WarblersBundle {
    fn default() -> (b: Self)
        ensures
            b.grass_mesh == GRASS_MESH_HANDLE,
            b.height_map.height_map == DEFAULT_IMAGE_HANDLE,
            b.density_map.density_map == DEFAULT_IMAGE_HANDLE,
            b.height == WarblerHeight::Uniform(SCALAR_ONE_BITS),
            b.grass_color == default_grass_color(),
            b.aabb == (Aabb { extent_x: 0, extent_y: 0, extent_z: 0 }),
    {
        WarblersBundle {
            grass_mesh: GRASS_MESH_HANDLE,
            height_map: HeightMap { height_map: DEFAULT_IMAGE_HANDLE },
            density_map: DensityMap { density_map: DEFAULT_IMAGE_HANDLE },
            height: WarblerHeight::Uniform(SCALAR_ONE_BITS),
            grass_color: GrassColor::default(),
            aabb: Aabb { extent_x: 0, extent_y: 0, extent_z: 0 },
        }
    }
}

/// The records that spawn one grass chunk from explicit blade positions.
#[derive(Clone, PartialEq, Debug)]
pub struct WarblersExplicitBundle {
    /// Handle of the mesh shared by all blades of the chunk.
    pub grass_mesh: u64,
    /// The explicit positions and the shared blade height.
    pub grass: Grass,
    /// The color record.
    pub grass_color: GrassColor,
}

impl Default for WarblersExplicitBundle {
    fn default() -> (b: Self)
        ensures
            b.grass_mesh == GRASS_MESH_HANDLE,
            b.grass.positions@ == Seq::<Position>::empty(),
            b.grass.height == SCALAR_ONE_BITS,
            b.grass_color == default_grass_color(),
    {
        WarblersExplicitBundle {
            grass_mesh: GRASS_MESH_HANDLE,
            grass: Grass::default(),
            grass_color: GrassColor::default(),
        }
    }
}

} // verus!
