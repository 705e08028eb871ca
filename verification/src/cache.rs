//! The per-object resource cache: built GPU resources keyed by object
//! identity, plus the singleton region resource holder.
//!
//! Entries are created explicitly when an object enters tracking and
//! released when it is despawned; lookups never insert. A builder that
//! finds no entry for a changed object reports that instead of creating
//! one, because it signals a scheduling-order bug.

use crate::gpu::{BindGroup, Buffer, Texture};
use std::collections::HashMap;
use vstd::prelude::*;

verus! {

broadcast use vstd::std_specs::hash::group_hash_axioms;

/// The y-lookup resource of an object with explicit positions: the packed
/// texture of blade heights above the ground plane, and the bind group
/// over its view.
#[derive(PartialEq, Eq, Debug)]
pub struct YBinding {
    pub bind_group: BindGroup,
    pub texture: Texture,
}

/// The height resource of an object, matching the variant of its height
/// record. Switching variant replaces the whole binding; the two arms never
/// mix.
#[derive(PartialEq, Eq, Debug)]
pub enum HeightBinding {
    /// A uniform buffer carrying the constant blade height.
    Uniform { bind_group: BindGroup, buffer: Buffer },
    /// A direct binding of an image's texture view.
    FromImage { bind_group: BindGroup, view_id: u64 },
}

/// The color resource of an object: the uniform buffer carrying its two
/// colors and the bind group over it.
#[derive(PartialEq, Eq, Debug)]
pub struct ColorBinding {
    pub bind_group: BindGroup,
    pub buffer: Buffer,
}

/// The height-map resource of an object: the map's texture view, the
/// uniform buffer carrying the bounding box's world-space size, and the
/// bind group combining the two.
#[derive(PartialEq, Eq, Debug)]
pub struct MapBinding {
    pub bind_group: BindGroup,
    pub view_id: u64,
    pub aabb_buffer: Buffer,
}

/// Everything built so far for one object. Fields are independently
/// buildable; `None` means "not yet built for this object."
#[derive(PartialEq, Eq, Debug)]
pub struct CacheEntry {
    /// How many explicit positions the object's record held when its
    /// buffers were last built.
    pub explicit_count: u32,
    /// The per-instance vertex buffer of ground-plane (x, z) pairs.
    pub explicit_xz_buffer: Option<Buffer>,
    /// The y-lookup texture and its bind group.
    pub y_binding: Option<YBinding>,
    /// The height resource, uniform or image-backed.
    pub height_binding: Option<HeightBinding>,
    /// The color resource.
    pub color_binding: Option<ColorBinding>,
    /// The height-map resource.
    pub height_map_binding: Option<MapBinding>,
}

/// An entry with nothing built yet.
pub open spec fn empty_entry() -> CacheEntry {
    CacheEntry {
        explicit_count: 0,
        explicit_xz_buffer: None,
        y_binding: None,
        height_binding: None,
        color_binding: None,
        height_map_binding: None,
    }
}

impl CacheEntry {
    /// A fresh entry with nothing built yet.
    pub fn new() -> (e: CacheEntry)
        ensures
            e == empty_entry(),
    {
        CacheEntry {
            explicit_count: 0,
            explicit_xz_buffer: None,
            y_binding: None,
            height_binding: None,
            color_binding: None,
            height_map_binding: None,
        }
    }
}

/// The per-object resource cache, keyed by object identity.
pub struct ExplicitGrassCache {
    entries: HashMap<u64, CacheEntry>,
}

impl View for ExplicitGrassCache {
    type V = Map<u64, CacheEntry>;

    closed spec fn view(&self) -> Map<u64, CacheEntry> {
        self.entries@
    }
}

impl ExplicitGrassCache {
    /// An empty cache: no object is tracked yet.
    pub fn new() -> (c: ExplicitGrassCache)
        ensures
            c@ == Map::<u64, CacheEntry>::empty(),
    {
        ExplicitGrassCache { entries: HashMap::new() }
    }

    /// Starts tracking an object with an empty entry. Called when the
    /// object newly enters the scene; replaces any stale entry a reused
    /// identity slot might otherwise inherit.
    pub fn register(&mut self, entity: u64)
        ensures
            final(self)@ == old(self)@.insert(entity, empty_entry()),
    {
        self.entries.insert(entity, CacheEntry::new());
    }

    /// Whether the object is tracked.
    pub fn contains(&self, entity: u64) -> (r: bool)
        ensures
            r == self@.contains_key(entity),
    {
        self.entries.contains_key(&entity)
    }

    /// Looks the object's entry up without inserting anything.
    pub fn get(&self, entity: u64) -> (r: Option<&CacheEntry>)
        ensures
            match r {
                Some(e) => self@.contains_key(entity) && *e == self@[entity],
                None => !self@.contains_key(entity),
            },
    {
        self.entries.get(&entity)
    }

    /// Takes the object's entry out for rebuilding; the builder puts the
    /// rebuilt entry back with [`Self::put`].
    pub fn take(&mut self, entity: u64) -> (r: Option<CacheEntry>)
        ensures
            match r {
                Some(e) => old(self)@.contains_key(entity) && e == old(self)@[entity]
                    && final(self)@ == old(self)@.remove(entity),
                None => !old(self)@.contains_key(entity) && final(self)@ == old(self)@,
            },
    {
        self.entries.remove(&entity)
    }

    /// Stores the object's (re)built entry.
    pub fn put(&mut self, entity: u64, entry: CacheEntry)
        ensures
            final(self)@ == old(self)@.insert(entity, entry),
    {
        self.entries.insert(entity, entry);
    }

    /// Releases the object's entry and every resource it owns, as when the
    /// object is despawned.
    pub fn remove(&mut self, entity: u64)
        ensures
            final(self)@ == old(self)@.remove(entity),
    {
        self.entries.remove(&entity);
    }
}

/// The holder of the singleton region resource: the uniform buffer carrying
/// the region configuration and the bind group combining it with the noise
/// texture view.
pub struct UniformBuffer {
    pub bind_group: Option<BindGroup>,
    pub buffer: Option<Buffer>,
}

impl UniformBuffer {
    /// The holder before the first frame: nothing built yet.
    pub fn new() -> (u: UniformBuffer)
        ensures
            u.bind_group is None,
            u.buffer is None,
    {
        UniformBuffer { bind_group: None, buffer: None }
    }

    /// Replaces the singleton resource wholesale with a rebuilt one.
    pub fn set(&mut self, bind_group: BindGroup, buffer: Buffer)
        ensures
            final(self).bind_group == Some(bind_group),
            final(self).buffer == Some(buffer),
    {
        self.bind_group = Some(bind_group);
        self.buffer = Some(buffer);
    }
}

} // verus!
