//! The height-map record: a reference to the image whose texels give the
//! ground height under each grass blade.

use vstd::prelude::*;

verus! {

/// The height map defining the y position of the grass blades.
///
/// The referenced image is scaled over the plane given by the object's
/// [`Aabb`](crate::bundle::Aabb) record; its maximum height is the box's
/// vertical extent. The image itself lives in the host's asset store and is
/// referred to here only by its handle.
#[derive(Clone, Copy, PartialEq, Eq, Structural, Debug)]
pub struct HeightMap {
    /// Handle of the image-backed map in the asset store.
    pub height_map: u64,
}

impl HeightMap {
    /// Wraps an image handle as a height-map record.
    pub fn from_handle(value: u64) -> (m: HeightMap)
        ensures
            m.height_map == value,
    {
        HeightMap { height_map: value }
    }
}

} // verus!
