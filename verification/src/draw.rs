//! The draw-call contract: the fixed, ordered sequence of bind/set steps
//! every rendered object must satisfy. An object whose cache entry is not
//! fully populated is skipped for the frame instead of being drawn with
//! undefined bindings.

use crate::cache::{CacheEntry, HeightBinding, UniformBuffer};
use crate::gpu::BindGroup;
use vstd::prelude::*;

verus! {

/// One step of the per-object draw sequence, in the slot layout the
/// shader expects.
#[derive(Clone, Copy, PartialEq, Eq, Structural, Debug)]
pub enum DrawStep {
    /// Select (and cache) the render pipeline for this draw.
    SetItemPipeline,
    /// Bind the externally supplied per-view data (camera, lighting).
    SetMeshViewBindGroup,
    /// Bind the externally supplied shared blade geometry.
    SetMeshBindGroup,
    /// Bind the singleton region bind group.
    SetUniformBindGroup(BindGroup),
    /// Bind the per-object color bind group.
    SetColorBindGroup(BindGroup),
    /// Bind the per-object y-lookup / height-field bind group.
    SetYBindGroup(BindGroup),
    /// Bind the per-object height (scalar-or-texture) bind group.
    SetHeightBindGroup(BindGroup),
    /// Bind the per-instance vertex buffer of (x, z) positions, by its
    /// buffer identity.
    SetVertexBuffer(u64),
}

/// The height-field group of an entry: the y-lookup group where the
/// object carries explicit positions, else the height-map group. Both
/// kinds of object fill the same shader slot.
pub open spec fn spec_y_slot_group(e: CacheEntry) -> Option<BindGroup> {
    match e.y_binding {
        Some(y) => Some(y.bind_group),
        None => match e.height_map_binding {
            Some(m) => Some(m.bind_group),
            None => None,
        },
    }
}

/// The bind group of an entry's height resource, whichever variant it is.
pub open spec fn spec_height_group(e: CacheEntry) -> Option<BindGroup> {
    match e.height_binding {
        Some(HeightBinding::Uniform { bind_group, .. }) => Some(bind_group),
        Some(HeightBinding::FromImage { bind_group, .. }) => Some(bind_group),
        None => None,
    }
}

/// Whether every slot the draw sequence binds is present: the singleton
/// region resource, the color group, a height-field group, a height group
/// and the instance vertex buffer.
pub open spec fn entry_drawable(e: CacheEntry, region: UniformBuffer) -> bool {
    &&& region.bind_group is Some
    &&& e.color_binding is Some
    &&& spec_y_slot_group(e) is Some
    &&& spec_height_group(e) is Some
    &&& e.explicit_xz_buffer is Some
}

/// The fixed draw sequence of a fully populated entry.
pub open spec fn spec_draw_sequence(e: CacheEntry, region: UniformBuffer) -> Seq<DrawStep>
    recommends
        entry_drawable(e, region),
{
    seq![
        DrawStep::SetItemPipeline,
        DrawStep::SetMeshViewBindGroup,
        DrawStep::SetMeshBindGroup,
        DrawStep::SetUniformBindGroup(region.bind_group->Some_0),
        DrawStep::SetColorBindGroup(e.color_binding->Some_0.bind_group),
        DrawStep::SetYBindGroup(spec_y_slot_group(e)->Some_0),
        DrawStep::SetHeightBindGroup(spec_height_group(e)->Some_0),
        DrawStep::SetVertexBuffer(e.explicit_xz_buffer->Some_0.id),
    ]
}

/// Produces the draw sequence for one object, or `None` — skip the object
/// this frame — when any slot is missing. The steps come in the fixed slot
/// order: pipeline, per-view data, per-mesh data, region uniform, color,
/// height-field, height, instance vertex buffer.
pub fn draw_steps(entry: &CacheEntry, region: &UniformBuffer) -> (r: Option<Vec<DrawStep>>)
    ensures
        match r {
            Some(steps) => entry_drawable(*entry, *region) && steps@ == spec_draw_sequence(
                *entry,
                *region,
            ),
            None => !entry_drawable(*entry, *region),
        },
{
    let region_group = match &region.bind_group {
        Some(g) => *g,
        None => {
            return None;
        },
    };
    let color_group = match &entry.color_binding {
        Some(c) => c.bind_group,
        None => {
            return None;
        },
    };
    let y_group = match &entry.y_binding {
        Some(y) => y.bind_group,
        None => {
            match &entry.height_map_binding {
                Some(m) => m.bind_group,
                None => {
                    return None;
                },
            }
        },
    };
    let height_group = match &entry.height_binding {
        Some(HeightBinding::Uniform { bind_group, .. }) => *bind_group,
        Some(HeightBinding::FromImage { bind_group, .. }) => *bind_group,
        None => {
            return None;
        },
    };
    let vertex_buffer_id = match &entry.explicit_xz_buffer {
        Some(b) => b.id,
        None => {
            return None;
        },
    };
    let mut steps: Vec<DrawStep> = Vec::new();
    steps.push(DrawStep::SetItemPipeline);
    steps.push(DrawStep::SetMeshViewBindGroup);
    steps.push(DrawStep::SetMeshBindGroup);
    steps.push(DrawStep::SetUniformBindGroup(region_group));
    steps.push(DrawStep::SetColorBindGroup(color_group));
    steps.push(DrawStep::SetYBindGroup(y_group));
    steps.push(DrawStep::SetHeightBindGroup(height_group));
    steps.push(DrawStep::SetVertexBuffer(vertex_buffer_id));
    proof {
        assert(steps@ =~= spec_draw_sequence(*entry, *region));
    }
    Some(steps)
}

} // verus!
