//! In-memory model of the GPU-facing resources the builders produce.
//!
//! The host submits the actual uploads; this library only decides what to
//! build and with which contents. A resource is therefore a plain value:
//! its payload plus an identity. Identities come from a monotone counter,
//! so "this bind group was reused, not rebuilt" is a provable statement.

use std::collections::HashMap;
use vstd::prelude::*;

verus! {

broadcast use vstd::std_specs::hash::group_hash_axioms;

/// A GPU buffer: its identity and the bytes uploaded into it.
#[derive(PartialEq, Eq, Debug)]
pub struct Buffer {
    pub id: u64,
    pub bytes: Vec<u8>,
}

/// A square GPU texture: its identity, its side length in texels and the
/// texels uploaded into it (one 32-bit word each).
#[derive(PartialEq, Eq, Debug)]
pub struct Texture {
    pub id: u64,
    pub side: u32,
    pub texels: Vec<u32>,
}

/// A bind group: a grouping of bound resources, known here by its identity
/// alone. What it binds is recorded by the cache structure that owns it.
#[derive(Clone, Copy, PartialEq, Eq, Structural, Debug)]
pub struct BindGroup {
    pub id: u64,
}

/// The device model: every created resource takes the next identity off a
/// monotone counter, so two resources created by it never share one.
pub struct RenderDevice {
    pub next_id: u64,
}

impl RenderDevice {
    /// A fresh device whose counter starts at zero.
    pub fn new() -> (d: RenderDevice)
        ensures
            d.next_id == 0,
    {
        RenderDevice { next_id: 0 }
    }

    /// Creates a buffer holding exactly the given bytes.
    pub fn create_buffer_with_data(&mut self, bytes: Vec<u8>) -> (b: Buffer)
        requires
            old(self).next_id < u64::MAX,
        ensures
            b.id == old(self).next_id,
            b.bytes == bytes,
            final(self).next_id == old(self).next_id + 1,
    {
        let id = self.next_id;
        self.next_id = self.next_id + 1;
        Buffer { id, bytes }
    }

    /// Creates a square texture holding exactly the given texels.
    pub fn create_texture(&mut self, side: u32, texels: Vec<u32>) -> (t: Texture)
        requires
            old(self).next_id < u64::MAX,
        ensures
            t.id == old(self).next_id,
            t.side == side,
            t.texels == texels,
            final(self).next_id == old(self).next_id + 1,
    {
        let id = self.next_id;
        self.next_id = self.next_id + 1;
        Texture { id, side, texels }
    }

    /// Creates a bind group over resources the caller has already built.
    pub fn create_bind_group(&mut self) -> (g: BindGroup)
        requires
            old(self).next_id < u64::MAX,
        ensures
            g.id == old(self).next_id,
            final(self).next_id == old(self).next_id + 1,
    {
        let id = self.next_id;
        self.next_id = self.next_id + 1;
        BindGroup { id }
    }
}

/// The GPU-resident images the asset layer has loaded so far: a mapping
/// from image handle to the identity of that image's texture view. An image
/// that is still loading is simply absent.
pub struct Images {
    map: HashMap<u64, u64>,
}

impl View for Images {
    type V = Map<u64, u64>;

    closed spec fn view(&self) -> Map<u64, u64> {
        self.map@
    }
}

/// Resolution of an image reference against the store: the image's texture
/// view when it is resident, the neutral fallback view otherwise.
pub open spec fn spec_resolve(images: Map<u64, u64>, handle: u64, fallback_view: u64) -> u64 {
    if images.contains_key(handle) {
        images[handle]
    } else {
        fallback_view
    }
}

impl Images {
    /// An empty store: nothing is resident yet.
    pub fn new() -> (s: Images)
        ensures
            s@ == Map::<u64, u64>::empty(),
    {
        Images { map: HashMap::new() }
    }

    /// Records that the image behind `handle` is resident with the given
    /// texture view.
    pub fn insert(&mut self, handle: u64, view_id: u64)
        ensures
            final(self)@ == old(self)@.insert(handle, view_id),
    {
        self.map.insert(handle, view_id);
    }

    /// Forgets the image behind `handle`, as when its asset is unloaded.
    pub fn remove(&mut self, handle: u64)
        ensures
            final(self)@ == old(self)@.remove(handle),
    {
        self.map.remove(&handle);
    }

    /// Looks the image up, returning its texture view when resident.
    pub fn get(&self, handle: u64) -> (r: Option<u64>)
        ensures
            r == (if self@.contains_key(handle) {
                Some(self@[handle])
            } else {
                None::<u64>
            }),
    {
        match self.map.get(&handle) {
            Some(view_id) => Some(*view_id),
            None => None,
        }
    }

    /// Resolves the image to a texture view, falling back to the neutral
    /// default view while the asset is not yet resident.
    pub fn resolve(&self, handle: u64, fallback_view: u64) -> (r: u64)
        ensures
            r == spec_resolve(self@, handle, fallback_view),
    {
        match self.get(handle) {
            Some(view_id) => view_id,
            None => fallback_view,
        }
    }
}

} // verus!
