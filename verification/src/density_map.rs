//! The density-map record: a reference to the image that modulates how
//! densely grass is placed over the ground plane.

use vstd::prelude::*;

verus! {

/// The density map controlling how many blades grow on each patch of the
/// plane given by the object's [`Aabb`](crate::bundle::Aabb) record.
#[derive(Clone, Copy, PartialEq, Eq, Structural, Debug)]
pub struct DensityMap {
    /// Handle of the image-backed map in the asset store.
    pub density_map: u64,
}

impl DensityMap {
    /// Wraps an image handle as a density-map record.
    pub fn from_handle(value: u64) -> (m: DensityMap)
        ensures
            m.density_map == value,
    {
        DensityMap { density_map: value }
    }
}

} // verus!
