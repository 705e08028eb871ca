//! The per-frame resource builders.
//!
//! Each builder runs over the objects whose relevant parameter record
//! changed this frame (change detection is the object database's business;
//! it hands the builders the changed set). A builder rebuilds exactly the
//! cache fields it owns, leaves every other field and every other object's
//! entry alone, and reports — rather than repairs — a changed object that
//! was never registered, because that is a scheduling-order bug.

use crate::bundle::{Aabb, Grass, GrassColor, Position, WarblerHeight};
use crate::cache::{
    CacheEntry, ColorBinding, ExplicitGrassCache, HeightBinding, MapBinding, UniformBuffer,
    YBinding,
};
use crate::config::{region_rebuild_needed, region_step_state, GrassConfiguration, GrassNoiseTexture, RegionState};
use crate::gpu::{spec_resolve, BindGroup, Images, RenderDevice};
use crate::height_map::HeightMap;
use crate::layout::{
    aabb_uniform_bytes, color_uniform_bytes, height_uniform_bytes, le_bytes, push_scalar,
    region_uniform_bytes, ShaderAabb, ShaderColorUniform, ShaderHeightUniform,
    ShaderRegionConfiguration,
};
use crate::packer::{packed_texels_ok, prepare_texture_from_data, MAX_PACKED_TEXELS};
use vstd::prelude::*;

verus! {

/// A marker-typed holder of one built bind group, as stored per object and
/// per parameter kind.
pub struct BindGroupBuffer<T> {
    pub bind_group: BindGroup,
    pub _inner: core::marker::PhantomData<T>,
}

impl<T> BindGroupBuffer<T> {
    /// Wraps a freshly built bind group.
    pub fn new(bind_group: BindGroup) -> (r: Self)
        ensures
            r.bind_group == bind_group,
    {
        BindGroupBuffer { bind_group, _inner: core::marker::PhantomData }
    }
}

/// No two records of the changed set name the same object: the object
/// database reports each changed object once.
pub open spec fn distinct_keys<T>(s: Seq<(u64, T)>) -> bool {
    forall|p: int, q: int| 0 <= p < q < s.len() ==> (#[trigger] s[p]).0 != (#[trigger] s[q]).0
}

/// Whether some record of the changed set names the object `k`.
pub open spec fn has_key<T>(s: Seq<(u64, T)>, k: u64) -> bool {
    exists|j: int| 0 <= j < s.len() && (#[trigger] s[j]).0 == k
}

/// The changed objects that the cache does not track, in the order they
/// were reported: the builders' reportable consistency violations.
pub open spec fn missing_entities<T>(s: Seq<(u64, T)>, m: Map<u64, CacheEntry>) -> Seq<u64>
    decreases s.len(),
{
    if s.len() == 0 {
        Seq::empty()
    } else {
        let rest = missing_entities(s.drop_last(), m);
        if m.contains_key(s.last().0) {
            rest
        } else {
            rest.push(s.last().0)
        }
    }
}

/// The per-instance vertex bytes of a position list: for each position its
/// ground-plane pair (x, z), each component little-endian, 8 bytes per
/// instance entry.
pub open spec fn xz_bytes(ps: Seq<Position>) -> Seq<u8>
    decreases ps.len(),
{
    if ps.len() == 0 {
        Seq::empty()
    } else {
        xz_bytes(ps.drop_last()) + le_bytes(ps.last().x) + le_bytes(ps.last().z)
    }
}

/// Each position list entry contributes exactly one 8-byte instance entry
/// to the vertex buffer.
pub proof fn lemma_xz_bytes_len(ps: Seq<Position>)
    ensures
        xz_bytes(ps).len() == 8 * ps.len(),
    decreases ps.len(),
{
    if ps.len() > 0 {
        lemma_xz_bytes_len(ps.drop_last());
    }
}

/// The height components of a position list, in order: what the y-lookup
/// texture is packed from.
pub open spec fn y_texels(ps: Seq<Position>) -> Seq<u32> {
    Seq::new(ps.len(), |i: int| ps[i].y)
}

/// What the explicit-position builder leaves in the cache for one object
/// whose `Grass` record changed, with every built resource's identity
/// inside `[id_lo, id_hi)` — the identities this frame allocated:
/// the recorded count equals the record's position count, the vertex
/// buffer holds the (x, z) pairs, the y-lookup texture is minimally packed
/// from the y components, the height resource is the uniform variant
/// carrying the record's scalar height, and the fields owned by other
/// builders are untouched.
pub open spec fn explicit_entry_built(
    new_e: CacheEntry,
    old_e: CacheEntry,
    g: Grass,
    id_lo: u64,
    id_hi: u64,
) -> bool {
    &&& new_e.explicit_count as nat == g.positions@.len()
    &&& match new_e.explicit_xz_buffer {
        Some(b) => b.bytes@ == xz_bytes(g.positions@) && id_lo <= b.id < id_hi,
        None => false,
    }
    &&& match new_e.y_binding {
        Some(y) => {
            &&& packed_texels_ok(y.texture.texels@, y_texels(g.positions@), y.texture.side as nat)
            &&& id_lo <= y.texture.id < id_hi
            &&& id_lo <= y.bind_group.id < id_hi
        },
        None => false,
    }
    &&& match new_e.height_binding {
        Some(HeightBinding::Uniform { bind_group, buffer }) => {
            &&& buffer.bytes@ == height_uniform_bytes(g.height)
            &&& id_lo <= buffer.id < id_hi
            &&& id_lo <= bind_group.id < id_hi
        },
        _ => false,
    }
    &&& new_e.color_binding == old_e.color_binding
    &&& new_e.height_map_binding == old_e.height_map_binding
}

/// For each changed object with an explicit-positions record, rebuilds the
/// instance vertex buffer, the y-lookup texture and the uniform height
/// resource in its cache entry. A changed object the cache does not track
/// is skipped and reported in the returned list — a consistency violation,
/// not a recoverable per-object case. No entry is created or lost, and
/// objects outside the changed set keep their entries untouched.
pub fn prepare_explicit_positions_buffer(
    device: &mut RenderDevice,
    cache: &mut ExplicitGrassCache,
    changed: &Vec<(u64, Grass)>,
) -> (skipped: Vec<u64>)
    requires
        distinct_keys(changed@),
        forall|j: int| 0 <= j < changed@.len() ==> (#[trigger] changed@[j]).1.positions@.len()
            <= MAX_PACKED_TEXELS,
        old(device).next_id as int + 5 * changed@.len() <= u64::MAX as int,
    ensures
        final(cache)@.dom() == old(cache)@.dom(),
        forall|j: int| 0 <= j < changed@.len() && old(cache)@.contains_key(
            (#[trigger] changed@[j]).0,
        ) ==> explicit_entry_built(
            final(cache)@[changed@[j].0],
            old(cache)@[changed@[j].0],
            changed@[j].1,
            old(device).next_id,
            final(device).next_id,
        ),
        forall|k: u64| old(cache)@.contains_key(k) && !has_key(changed@, k)
            ==> #[trigger] final(cache)@[k] == old(cache)@[k],
        skipped@ == missing_entities(changed@, old(cache)@),
        old(device).next_id <= final(device).next_id,
        final(device).next_id as int <= old(device).next_id as int + 5 * changed@.len(),
{
    let ghost dev0 = old(device).next_id;
    let mut skipped: Vec<u64> = Vec::new();
    let n = changed.len();
    let mut i: usize = 0;
    while i < n
        invariant
            i <= n,
            n == changed@.len(),
            distinct_keys(changed@),
            forall|j: int| 0 <= j < changed@.len() ==> (#[trigger] changed@[j]).1.positions@.len()
                <= MAX_PACKED_TEXELS,
            dev0 <= device.next_id,
            device.next_id as int <= dev0 as int + 5 * i,
            dev0 as int + 5 * n <= u64::MAX as int,
            cache@.dom() == old(cache)@.dom(),
            forall|j: int| 0 <= j < i && old(cache)@.contains_key((#[trigger] changed@[j]).0)
                ==> explicit_entry_built(
                cache@[changed@[j].0],
                old(cache)@[changed@[j].0],
                changed@[j].1,
                dev0,
                device.next_id,
            ),
            forall|k: u64| old(cache)@.contains_key(k) && !has_key(
                changed@.subrange(0, i as int),
                k,
            ) ==> #[trigger] cache@[k] == old(cache)@[k],
            skipped@ == missing_entities(changed@.subrange(0, i as int), old(cache)@),
        decreases n - i,
    {
        let ghost cache0 = cache@;
        let entity = changed[i].0;
        match cache.take(entity) {
            Some(entry) => {
                let g = &changed[i].1;
                let mut bytes: Vec<u8> = Vec::new();
                let mut j: usize = 0;
                while j < g.positions.len()
                    invariant
                        j <= g.positions@.len(),
                        bytes@ == xz_bytes(g.positions@.subrange(0, j as int)),
                    decreases g.positions@.len() - j,
                {
                    push_scalar(&mut bytes, g.positions[j].x);
                    push_scalar(&mut bytes, g.positions[j].z);
                    proof {
                        let ps = g.positions@;
                        assert(ps.subrange(0, j + 1 as int).drop_last() =~= ps.subrange(
                            0,
                            j as int,
                        ));
                    }
                    j = j + 1;
                }
                proof {
                    assert(g.positions@.subrange(0, g.positions@.len() as int) =~= g.positions@);
                }
                let xz_buffer = device.create_buffer_with_data(bytes);
                let mut ys: Vec<u32> = Vec::new();
                let mut j: usize = 0;
                while j < g.positions.len()
                    invariant
                        j <= g.positions@.len(),
                        ys@.len() == j,
                        forall|k: int| 0 <= k < j ==> ys@[k] == g.positions@[k].y,
                    decreases g.positions@.len() - j,
                {
                    ys.push(g.positions[j].y);
                    j = j + 1;
                }
                proof {
                    assert(ys@ =~= y_texels(g.positions@));
                }
                let texture = prepare_texture_from_data(device, &ys);
                let y_group = device.create_bind_group();
                let height_uniform = ShaderHeightUniform { height: g.height };
                let height_buffer = device.create_buffer_with_data(height_uniform.bytes());
                let height_group = device.create_bind_group();
                let new_entry = CacheEntry {
                    explicit_count: g.positions.len() as u32,
                    explicit_xz_buffer: Some(xz_buffer),
                    y_binding: Some(YBinding { bind_group: y_group, texture }),
                    height_binding: Some(
                        HeightBinding::Uniform { bind_group: height_group, buffer: height_buffer },
                    ),
                    color_binding: entry.color_binding,
                    height_map_binding: entry.height_map_binding,
                };
                cache.put(entity, new_entry);
                proof {
                    assert(cache@.dom() =~= old(cache)@.dom());
                }
            },
            None => {
                skipped.push(entity);
            },
        }
        proof {
            let pre = changed@.subrange(0, i as int);
            let post = changed@.subrange(0, i + 1 as int);
            assert(post.drop_last() =~= pre);
            assert forall|k: u64| old(cache)@.contains_key(k) && !has_key(post, k) implies cache@[k]
                == old(cache)@[k] by {
                if has_key(pre, k) {
                    let j = choose|j: int| 0 <= j < pre.len() && (#[trigger] pre[j]).0 == k;
                    assert(post[j] == pre[j]);
                    assert(false);
                }
                assert(cache0[k] == old(cache)@[k]);
                if k == changed@[i as int].0 {
                    assert(post[i as int].0 == k);
                    assert(false);
                }
            }
        }
        i = i + 1;
    }
    proof {
        assert(changed@.subrange(0, n as int) =~= changed@);
    }
    skipped
}

/// For every record of L positions, an entry the explicit-position builder
/// left behind records exactly L as its explicit count and holds an
/// instance vertex buffer of exactly L entries, 8 bytes each.
pub proof fn lemma_explicit_entry_counts(
    new_e: CacheEntry,
    old_e: CacheEntry,
    g: Grass,
    id_lo: u64,
    id_hi: u64,
)
    requires
        explicit_entry_built(new_e, old_e, g, id_lo, id_hi),
    ensures
        new_e.explicit_count as nat == g.positions@.len(),
        new_e.explicit_xz_buffer matches Some(b) && b.bytes@.len() == 8 * g.positions@.len(),
{
    lemma_xz_bytes_len(g.positions@);
}

/// What the height builder leaves in the cache for one object whose height
/// record changed: a height resource whose variant matches the record's —
/// a uniform buffer carrying the scalar for `Uniform`, the resolved (or
/// fallback) texture view for `Texture` — built wholly from this frame's
/// identities in `[id_lo, id_hi)`, so a variant switch replaces the
/// binding outright and never exposes a hybrid. Every other field is
/// untouched.
pub open spec fn height_entry_built(
    new_e: CacheEntry,
    old_e: CacheEntry,
    h: WarblerHeight,
    images: Map<u64, u64>,
    fallback_view: u64,
    id_lo: u64,
    id_hi: u64,
) -> bool {
    &&& match h {
        WarblerHeight::Uniform(value) => match new_e.height_binding {
            Some(HeightBinding::Uniform { bind_group, buffer }) => {
                &&& buffer.bytes@ == height_uniform_bytes(value)
                &&& id_lo <= buffer.id < id_hi
                &&& id_lo <= bind_group.id < id_hi
            },
            _ => false,
        },
        WarblerHeight::Texture(image) => match new_e.height_binding {
            Some(HeightBinding::FromImage { bind_group, view_id }) => {
                &&& view_id == spec_resolve(images, image, fallback_view)
                &&& id_lo <= bind_group.id < id_hi
            },
            _ => false,
        },
    }
    &&& new_e.explicit_count == old_e.explicit_count
    &&& new_e.explicit_xz_buffer == old_e.explicit_xz_buffer
    &&& new_e.y_binding == old_e.y_binding
    &&& new_e.color_binding == old_e.color_binding
    &&& new_e.height_map_binding == old_e.height_map_binding
}

/// For each changed object with a height record, replaces its height
/// resource with one matching the record's variant: uniform scalar or
/// sampled texture (falling back to the neutral default view while the
/// image is not resident). Untracked changed objects are reported in the
/// returned list; everything else in the cache stays as it was.
pub fn prepare_height_buffer(
    device: &mut RenderDevice,
    cache: &mut ExplicitGrassCache,
    images: &Images,
    fallback_view: u64,
    changed: &Vec<(u64, WarblerHeight)>,
) -> (skipped: Vec<u64>)
    requires
        distinct_keys(changed@),
        old(device).next_id as int + 2 * changed@.len() <= u64::MAX as int,
    ensures
        final(cache)@.dom() == old(cache)@.dom(),
        forall|j: int| 0 <= j < changed@.len() && old(cache)@.contains_key(
            (#[trigger] changed@[j]).0,
        ) ==> height_entry_built(
            final(cache)@[changed@[j].0],
            old(cache)@[changed@[j].0],
            changed@[j].1,
            images@,
            fallback_view,
            old(device).next_id,
            final(device).next_id,
        ),
        forall|k: u64| old(cache)@.contains_key(k) && !has_key(changed@, k)
            ==> #[trigger] final(cache)@[k] == old(cache)@[k],
        skipped@ == missing_entities(changed@, old(cache)@),
        old(device).next_id <= final(device).next_id,
        final(device).next_id as int <= old(device).next_id as int + 2 * changed@.len(),
{
    let ghost dev0 = old(device).next_id;
    let mut skipped: Vec<u64> = Vec::new();
    let n = changed.len();
    let mut i: usize = 0;
    while i < n
        invariant
            i <= n,
            n == changed@.len(),
            distinct_keys(changed@),
            dev0 <= device.next_id,
            device.next_id as int <= dev0 as int + 2 * i,
            dev0 as int + 2 * n <= u64::MAX as int,
            cache@.dom() == old(cache)@.dom(),
            forall|j: int| 0 <= j < i && old(cache)@.contains_key((#[trigger] changed@[j]).0)
                ==> height_entry_built(
                cache@[changed@[j].0],
                old(cache)@[changed@[j].0],
                changed@[j].1,
                images@,
                fallback_view,
                dev0,
                device.next_id,
            ),
            forall|k: u64| old(cache)@.contains_key(k) && !has_key(
                changed@.subrange(0, i as int),
                k,
            ) ==> #[trigger] cache@[k] == old(cache)@[k],
            skipped@ == missing_entities(changed@.subrange(0, i as int), old(cache)@),
        decreases n - i,
    {
        let ghost cache0 = cache@;
        let entity = changed[i].0;
        match cache.take(entity) {
            Some(entry) => {
                let height_binding = match &changed[i].1 {
                    WarblerHeight::Uniform(value) => {
                        let height_uniform = ShaderHeightUniform { height: *value };
                        let buffer = device.create_buffer_with_data(height_uniform.bytes());
                        let bind_group = device.create_bind_group();
                        HeightBinding::Uniform { bind_group, buffer }
                    },
                    WarblerHeight::Texture(image) => {
                        let view_id = images.resolve(*image, fallback_view);
                        let bind_group = device.create_bind_group();
                        HeightBinding::FromImage { bind_group, view_id }
                    },
                };
                let new_entry = CacheEntry {
                    explicit_count: entry.explicit_count,
                    explicit_xz_buffer: entry.explicit_xz_buffer,
                    y_binding: entry.y_binding,
                    height_binding: Some(height_binding),
                    color_binding: entry.color_binding,
                    height_map_binding: entry.height_map_binding,
                };
                cache.put(entity, new_entry);
                proof {
                    assert(cache@.dom() =~= old(cache)@.dom());
                }
            },
            None => {
                skipped.push(entity);
            },
        }
        proof {
            let pre = changed@.subrange(0, i as int);
            let post = changed@.subrange(0, i + 1 as int);
            assert(post.drop_last() =~= pre);
            assert forall|k: u64| old(cache)@.contains_key(k) && !has_key(post, k) implies cache@[k]
                == old(cache)@[k] by {
                if has_key(pre, k) {
                    let j = choose|j: int| 0 <= j < pre.len() && (#[trigger] pre[j]).0 == k;
                    assert(post[j] == pre[j]);
                    assert(false);
                }
                assert(cache0[k] == old(cache)@[k]);
                if k == changed@[i as int].0 {
                    assert(post[i as int].0 == k);
                    assert(false);
                }
            }
        }
        i = i + 1;
    }
    proof {
        assert(changed@.subrange(0, n as int) =~= changed@);
    }
    skipped
}

/// Switching an object's height record between its variants fully
/// replaces the height binding: after the height builder ran, the stored
/// binding's variant is the record's variant — never the other, never a
/// hybrid — and every resource in it carries one of this frame's fresh
/// identities, so nothing of the previous binding survives in it.
pub proof fn lemma_height_variant_replaced(
    new_e: CacheEntry,
    old_e: CacheEntry,
    h: WarblerHeight,
    images: Map<u64, u64>,
    fallback_view: u64,
    id_lo: u64,
    id_hi: u64,
)
    requires
        height_entry_built(new_e, old_e, h, images, fallback_view, id_lo, id_hi),
    ensures
        h matches WarblerHeight::Uniform(_) <==> new_e.height_binding matches Some(
            HeightBinding::Uniform { .. },
        ),
        h matches WarblerHeight::Texture(_) <==> new_e.height_binding matches Some(
            HeightBinding::FromImage { .. },
        ),
        new_e.height_binding matches Some(HeightBinding::Uniform { bind_group, .. })
            ==> id_lo <= bind_group.id < id_hi,
        new_e.height_binding matches Some(HeightBinding::FromImage { bind_group, .. })
            ==> id_lo <= bind_group.id < id_hi,
{
}

/// What the color builder leaves in the cache for one object whose color
/// record changed: a color resource whose uniform buffer encodes the two
/// colors as two four-component vectors, built from this frame's
/// identities in `[id_lo, id_hi)`. Every other field is untouched.
pub open spec fn color_entry_built(
    new_e: CacheEntry,
    old_e: CacheEntry,
    c: GrassColor,
    id_lo: u64,
    id_hi: u64,
) -> bool {
    &&& match new_e.color_binding {
        Some(binding) => {
            &&& binding.buffer.bytes@ == color_uniform_bytes(c.main_color, c.bottom_color)
            &&& id_lo <= binding.buffer.id < id_hi
            &&& id_lo <= binding.bind_group.id < id_hi
        },
        None => false,
    }
    &&& new_e.explicit_count == old_e.explicit_count
    &&& new_e.explicit_xz_buffer == old_e.explicit_xz_buffer
    &&& new_e.y_binding == old_e.y_binding
    &&& new_e.height_binding == old_e.height_binding
    &&& new_e.height_map_binding == old_e.height_map_binding
}

/// For each changed object with a color record, rebuilds its color
/// resource: a uniform buffer holding {main color, bottom color} and a
/// bind group over it. Untracked changed objects are reported in the
/// returned list; everything else in the cache stays as it was.
pub fn prepare_grass_color(
    device: &mut RenderDevice,
    cache: &mut ExplicitGrassCache,
    changed: &Vec<(u64, GrassColor)>,
) -> (skipped: Vec<u64>)
    requires
        distinct_keys(changed@),
        old(device).next_id as int + 2 * changed@.len() <= u64::MAX as int,
    ensures
        final(cache)@.dom() == old(cache)@.dom(),
        forall|j: int| 0 <= j < changed@.len() && old(cache)@.contains_key(
            (#[trigger] changed@[j]).0,
        ) ==> color_entry_built(
            final(cache)@[changed@[j].0],
            old(cache)@[changed@[j].0],
            changed@[j].1,
            old(device).next_id,
            final(device).next_id,
        ),
        forall|k: u64| old(cache)@.contains_key(k) && !has_key(changed@, k)
            ==> #[trigger] final(cache)@[k] == old(cache)@[k],
        skipped@ == missing_entities(changed@, old(cache)@),
        old(device).next_id <= final(device).next_id,
        final(device).next_id as int <= old(device).next_id as int + 2 * changed@.len(),
{
    let ghost dev0 = old(device).next_id;
    let mut skipped: Vec<u64> = Vec::new();
    let n = changed.len();
    let mut i: usize = 0;
    while i < n
        invariant
            i <= n,
            n == changed@.len(),
            distinct_keys(changed@),
            dev0 <= device.next_id,
            device.next_id as int <= dev0 as int + 2 * i,
            dev0 as int + 2 * n <= u64::MAX as int,
            cache@.dom() == old(cache)@.dom(),
            forall|j: int| 0 <= j < i && old(cache)@.contains_key((#[trigger] changed@[j]).0)
                ==> color_entry_built(
                cache@[changed@[j].0],
                old(cache)@[changed@[j].0],
                changed@[j].1,
                dev0,
                device.next_id,
            ),
            forall|k: u64| old(cache)@.contains_key(k) && !has_key(
                changed@.subrange(0, i as int),
                k,
            ) ==> #[trigger] cache@[k] == old(cache)@[k],
            skipped@ == missing_entities(changed@.subrange(0, i as int), old(cache)@),
        decreases n - i,
    {
        let ghost cache0 = cache@;
        let entity = changed[i].0;
        match cache.take(entity) {
            Some(entry) => {
                let color = &changed[i].1;
                let color_uniform = ShaderColorUniform {
                    main_color: color.main_color,
                    bottom_color: color.bottom_color,
                };
                let buffer = device.create_buffer_with_data(color_uniform.bytes());
                let bind_group = device.create_bind_group();
                let new_entry = CacheEntry {
                    explicit_count: entry.explicit_count,
                    explicit_xz_buffer: entry.explicit_xz_buffer,
                    y_binding: entry.y_binding,
                    height_binding: entry.height_binding,
                    color_binding: Some(ColorBinding { bind_group, buffer }),
                    height_map_binding: entry.height_map_binding,
                };
                cache.put(entity, new_entry);
                proof {
                    assert(cache@.dom() =~= old(cache)@.dom());
                }
            },
            None => {
                skipped.push(entity);
            },
        }
        proof {
            let pre = changed@.subrange(0, i as int);
            let post = changed@.subrange(0, i + 1 as int);
            assert(post.drop_last() =~= pre);
            assert forall|k: u64| old(cache)@.contains_key(k) && !has_key(post, k) implies cache@[k]
                == old(cache)@[k] by {
                if has_key(pre, k) {
                    let j = choose|j: int| 0 <= j < pre.len() && (#[trigger] pre[j]).0 == k;
                    assert(post[j] == pre[j]);
                    assert(false);
                }
                assert(cache0[k] == old(cache)@[k]);
                if k == changed@[i as int].0 {
                    assert(post[i as int].0 == k);
                    assert(false);
                }
            }
        }
        i = i + 1;
    }
    proof {
        assert(changed@.subrange(0, n as int) =~= changed@);
    }
    skipped
}

/// What the height-map builder leaves in the cache for one object whose
/// map record or bounding box changed: a map resource combining the
/// resolved (or fallback) texture view with a uniform buffer carrying the
/// box's world-space size, built from this frame's identities in
/// `[id_lo, id_hi)`. Every other field is untouched.
pub open spec fn map_entry_built(
    new_e: CacheEntry,
    old_e: CacheEntry,
    record: (HeightMap, Aabb),
    images: Map<u64, u64>,
    fallback_view: u64,
    id_lo: u64,
    id_hi: u64,
) -> bool {
    &&& match new_e.height_map_binding {
        Some(binding) => {
            &&& binding.view_id == spec_resolve(images, record.0.height_map, fallback_view)
            &&& binding.aabb_buffer.bytes@ == aabb_uniform_bytes(
                record.1.extent_x,
                record.1.extent_y,
                record.1.extent_z,
            )
            &&& id_lo <= binding.aabb_buffer.id < id_hi
            &&& id_lo <= binding.bind_group.id < id_hi
        },
        None => false,
    }
    &&& new_e.explicit_count == old_e.explicit_count
    &&& new_e.explicit_xz_buffer == old_e.explicit_xz_buffer
    &&& new_e.y_binding == old_e.y_binding
    &&& new_e.height_binding == old_e.height_binding
    &&& new_e.color_binding == old_e.color_binding
}

/// For each changed object with a height-map record and a bounding box,
/// rebuilds its map resource: the map's texture view (falling back to the
/// neutral default view while the image is not resident), a uniform buffer
/// carrying the box's world-space size, and a bind group combining the
/// two. Untracked changed objects are reported in the returned list;
/// everything else in the cache stays as it was.
pub fn prepare_height_map_buffer(
    device: &mut RenderDevice,
    cache: &mut ExplicitGrassCache,
    images: &Images,
    fallback_view: u64,
    changed: &Vec<(u64, (HeightMap, Aabb))>,
) -> (skipped: Vec<u64>)
    requires
        distinct_keys(changed@),
        old(device).next_id as int + 2 * changed@.len() <= u64::MAX as int,
    ensures
        final(cache)@.dom() == old(cache)@.dom(),
        forall|j: int| 0 <= j < changed@.len() && old(cache)@.contains_key(
            (#[trigger] changed@[j]).0,
        ) ==> map_entry_built(
            final(cache)@[changed@[j].0],
            old(cache)@[changed@[j].0],
            changed@[j].1,
            images@,
            fallback_view,
            old(device).next_id,
            final(device).next_id,
        ),
        forall|k: u64| old(cache)@.contains_key(k) && !has_key(changed@, k)
            ==> #[trigger] final(cache)@[k] == old(cache)@[k],
        skipped@ == missing_entities(changed@, old(cache)@),
        old(device).next_id <= final(device).next_id,
        final(device).next_id as int <= old(device).next_id as int + 2 * changed@.len(),
{
    let ghost dev0 = old(device).next_id;
    let mut skipped: Vec<u64> = Vec::new();
    let n = changed.len();
    let mut i: usize = 0;
    while i < n
        invariant
            i <= n,
            n == changed@.len(),
            distinct_keys(changed@),
            dev0 <= device.next_id,
            device.next_id as int <= dev0 as int + 2 * i,
            dev0 as int + 2 * n <= u64::MAX as int,
            cache@.dom() == old(cache)@.dom(),
            forall|j: int| 0 <= j < i && old(cache)@.contains_key((#[trigger] changed@[j]).0)
                ==> map_entry_built(
                cache@[changed@[j].0],
                old(cache)@[changed@[j].0],
                changed@[j].1,
                images@,
                fallback_view,
                dev0,
                device.next_id,
            ),
            forall|k: u64| old(cache)@.contains_key(k) && !has_key(
                changed@.subrange(0, i as int),
                k,
            ) ==> #[trigger] cache@[k] == old(cache)@[k],
            skipped@ == missing_entities(changed@.subrange(0, i as int), old(cache)@),
        decreases n - i,
    {
        let ghost cache0 = cache@;
        let entity = changed[i].0;
        match cache.take(entity) {
            Some(entry) => {
                let record = &changed[i].1;
                let view_id = images.resolve(record.0.height_map, fallback_view);
                let shader_aabb = ShaderAabb {
                    extent_x: record.1.extent_x,
                    extent_y: record.1.extent_y,
                    extent_z: record.1.extent_z,
                };
                let aabb_buffer = device.create_buffer_with_data(shader_aabb.bytes());
                let bind_group = device.create_bind_group();
                let new_entry = CacheEntry {
                    explicit_count: entry.explicit_count,
                    explicit_xz_buffer: entry.explicit_xz_buffer,
                    y_binding: entry.y_binding,
                    height_binding: entry.height_binding,
                    color_binding: entry.color_binding,
                    height_map_binding: Some(MapBinding { bind_group, view_id, aabb_buffer }),
                };
                cache.put(entity, new_entry);
                proof {
                    assert(cache@.dom() =~= old(cache)@.dom());
                }
            },
            None => {
                skipped.push(entity);
            },
        }
        proof {
            let pre = changed@.subrange(0, i as int);
            let post = changed@.subrange(0, i + 1 as int);
            assert(post.drop_last() =~= pre);
            assert forall|k: u64| old(cache)@.contains_key(k) && !has_key(post, k) implies cache@[k]
                == old(cache)@[k] by {
                if has_key(pre, k) {
                    let j = choose|j: int| 0 <= j < pre.len() && (#[trigger] pre[j]).0 == k;
                    assert(post[j] == pre[j]);
                    assert(false);
                }
                assert(cache0[k] == old(cache)@[k]);
                if k == changed@[i as int].0 {
                    assert(post[i as int].0 == k);
                    assert(false);
                }
            }
        }
        i = i + 1;
    }
    proof {
        assert(changed@.subrange(0, n as int) =~= changed@);
    }
    skipped
}

/// Builds the singleton region resource once per frame, change-detected:
/// when the region configuration is unchanged and the resolved noise
/// texture's identity equals the one remembered from the last frame,
/// nothing is allocated and the stored bind group is reused as it is;
/// otherwise the uniform buffer {wind vector, padding} and its bind group
/// are rebuilt wholesale, and the resolved identity is remembered.
pub fn prepare_uniform_buffers(
    device: &mut RenderDevice,
    region_config: &GrassConfiguration,
    config_changed: bool,
    noise_config: &GrassNoiseTexture,
    images: &Images,
    fallback_view: u64,
    state: &mut RegionState,
    uniform_buffer: &mut UniformBuffer,
)
    requires
        old(device).next_id as int + 2 <= u64::MAX as int,
    ensures
        ({
            let view_id = spec_resolve(images@, noise_config.image, fallback_view);
            &&& *final(state) == region_step_state(*old(state), config_changed, view_id)
            &&& !region_rebuild_needed(*old(state), config_changed, view_id) ==> {
                &&& *final(uniform_buffer) == *old(uniform_buffer)
                &&& final(device).next_id == old(device).next_id
            }
            &&& region_rebuild_needed(*old(state), config_changed, view_id) ==> {
                &&& final(device).next_id == old(device).next_id + 2
                &&& match final(uniform_buffer).buffer {
                    Some(b) => {
                        &&& b.bytes@ == region_uniform_bytes(
                            region_config.wind_x,
                            region_config.wind_y,
                        )
                        &&& b.id == old(device).next_id
                    },
                    None => false,
                }
                &&& final(uniform_buffer).bind_group == Some(
                    (BindGroup { id: (old(device).next_id + 1) as u64 }),
                )
            }
        }),
{
    let view_id = images.resolve(noise_config.image, fallback_view);
    let same_texture = match state.last_texture_id {
        Some(previous) => previous == view_id,
        None => false,
    };
    if !config_changed && same_texture {
        return ;
    }
    state.last_texture_id = Some(view_id);
    let shader_config = ShaderRegionConfiguration {
        wind_x: region_config.wind_x,
        wind_y: region_config.wind_y,
    };
    let config_buffer = device.create_buffer_with_data(shader_config.bytes());
    let bind_group = device.create_bind_group();
    uniform_buffer.set(bind_group, config_buffer);
}

} // verus!
