//! Byte layouts of the uniform blocks handed to the shader.
//!
//! Every block mixing a vector of fewer than four components with scalars is
//! padded with zero-initialized words to a total size that is a multiple of
//! 16 bytes, the uniform alignment the platform demands. Scalars are written
//! little-endian, word by word.

use crate::bundle::Color;
use vstd::prelude::*;

verus! {

/// The little-endian bytes of one 32-bit scalar.
pub open spec fn le_bytes(x: u32) -> Seq<u8> {
    seq![
        (x & 0xff) as u8,
        ((x >> 8) & 0xff) as u8,
        ((x >> 16) & 0xff) as u8,
        ((x >> 24) & 0xff) as u8,
    ]
}

/// Appends one 32-bit scalar to a byte vector, little-endian.
pub fn push_scalar(out: &mut Vec<u8>, x: u32)
    ensures
        final(out)@ == old(out)@ + le_bytes(x),
{
    out.push((x & 0xff) as u8);
    out.push(((x >> 8) & 0xff) as u8);
    out.push(((x >> 16) & 0xff) as u8);
    out.push(((x >> 24) & 0xff) as u8);
    proof {
        assert(out@ =~= old(out)@ + le_bytes(x));
    }
}

/// Layout of the blade-height uniform block: the height scalar followed by
/// three padding words, 16 bytes in all.
pub open spec fn height_uniform_bytes(height: u32) -> Seq<u8> {
    le_bytes(height) + le_bytes(0) + le_bytes(0) + le_bytes(0)
}

/// Layout of the region uniform block: the wind vector followed by two
/// padding words, 16 bytes in all.
pub open spec fn region_uniform_bytes(wind_x: u32, wind_y: u32) -> Seq<u8> {
    le_bytes(wind_x) + le_bytes(wind_y) + le_bytes(0) + le_bytes(0)
}

/// Layout of the bounding-box uniform block: the three extents followed by
/// one padding word, 16 bytes in all.
pub open spec fn aabb_uniform_bytes(extent_x: u32, extent_y: u32, extent_z: u32) -> Seq<u8> {
    le_bytes(extent_x) + le_bytes(extent_y) + le_bytes(extent_z) + le_bytes(0)
}

/// The four channel words of one color, little-endian.
pub open spec fn color_bytes(c: Color) -> Seq<u8> {
    le_bytes(c.red) + le_bytes(c.green) + le_bytes(c.blue) + le_bytes(c.alpha)
}

/// Layout of the color uniform block: two full four-component colors,
/// 32 bytes in all; no padding is needed.
pub open spec fn color_uniform_bytes(main_color: Color, bottom_color: Color) -> Seq<u8> {
    color_bytes(main_color) + color_bytes(bottom_color)
}

/// The blade-height uniform block, ready for upload.
#[derive(Clone, Copy, PartialEq, Eq, Structural, Debug)]
pub struct ShaderHeightUniform {
    pub height: u32,
}

impl ShaderHeightUniform {
    /// Serializes the block: the height, then zero padding up to the
    /// 16-byte alignment boundary.
    pub fn bytes(&self) -> (r: Vec<u8>)
        ensures
            r@ == height_uniform_bytes(self.height),
            r@.len() == 16,
    {
        let mut out: Vec<u8> = Vec::new();
        push_scalar(&mut out, self.height);
        push_scalar(&mut out, 0);
        push_scalar(&mut out, 0);
        push_scalar(&mut out, 0);
        out
    }
}

/// The region uniform block, ready for upload.
#[derive(Clone, Copy, PartialEq, Eq, Structural, Debug)]
pub struct ShaderRegionConfiguration {
    pub wind_x: u32,
    pub wind_y: u32,
}

impl ShaderRegionConfiguration {
    /// Serializes the block: the wind vector, then zero padding up to the
    /// 16-byte alignment boundary.
    pub fn bytes(&self) -> (r: Vec<u8>)
        ensures
            r@ == region_uniform_bytes(self.wind_x, self.wind_y),
            r@.len() == 16,
    {
        let mut out: Vec<u8> = Vec::new();
        push_scalar(&mut out, self.wind_x);
        push_scalar(&mut out, self.wind_y);
        push_scalar(&mut out, 0);
        push_scalar(&mut out, 0);
        out
    }
}

/// The bounding-box uniform block, ready for upload.
#[derive(Clone, Copy, PartialEq, Eq, Structural, Debug)]
pub struct ShaderAabb {
    pub extent_x: u32,
    pub extent_y: u32,
    pub extent_z: u32,
}

impl ShaderAabb {
    /// Serializes the block: the three extents, then zero padding up to the
    /// 16-byte alignment boundary.
    pub fn bytes(&self) -> (r: Vec<u8>)
        ensures
            r@ == aabb_uniform_bytes(self.extent_x, self.extent_y, self.extent_z),
            r@.len() == 16,
    {
        let mut out: Vec<u8> = Vec::new();
        push_scalar(&mut out, self.extent_x);
        push_scalar(&mut out, self.extent_y);
        push_scalar(&mut out, self.extent_z);
        push_scalar(&mut out, 0);
        out
    }
}

/// The color uniform block, ready for upload.
#[derive(Clone, Copy, PartialEq, Eq, Structural, Debug)]
pub struct ShaderColorUniform {
    pub main_color: Color,
    pub bottom_color: Color,
}

impl ShaderColorUniform {
    /// Serializes the block: the main color, then the bottom color, each as
    /// four channel words; 32 bytes, a multiple of the 16-byte alignment.
    pub fn bytes(&self) -> (r: Vec<u8>)
        ensures
            r@ == color_uniform_bytes(self.main_color, self.bottom_color),
            r@.len() == 32,
    {
        let mut out: Vec<u8> = Vec::new();
        push_scalar(&mut out, self.main_color.red);
        push_scalar(&mut out, self.main_color.green);
        push_scalar(&mut out, self.main_color.blue);
        push_scalar(&mut out, self.main_color.alpha);
        push_scalar(&mut out, self.bottom_color.red);
        push_scalar(&mut out, self.bottom_color.green);
        push_scalar(&mut out, self.bottom_color.blue);
        push_scalar(&mut out, self.bottom_color.alpha);
        out
    }
}

} // verus!
