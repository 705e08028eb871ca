//! The singleton region configuration: global wind parameters, the shared
//! noise texture reference, and the per-frame change-detection state of the
//! global region builder.

use vstd::prelude::*;

verus! {

/// Global configuration of the grass region; today that is the wind vector.
/// Components are raw 32-bit scalars.
#[derive(Clone, Copy, PartialEq, Eq, Structural, Debug)]
pub struct GrassConfiguration {
    pub wind_x: u32,
    pub wind_y: u32,
}

/// The shared noise texture sampled by the wind animation, referred to by
/// its image handle in the host's asset store.
#[derive(Clone, Copy, PartialEq, Eq, Structural, Debug)]
pub struct GrassNoiseTexture {
    pub image: u64,
}

/// What the global region builder remembers between frames: the identity of
/// the texture view it last built the singleton bind group from. `None`
/// before the first frame.
#[derive(Clone, Copy, PartialEq, Eq, Structural, Debug)]
pub struct RegionState {
    pub last_texture_id: Option<u64>,
}

impl RegionState {
    /// The state before any frame ran.
    pub fn new() -> (s: RegionState)
        ensures
            s.last_texture_id is None,
    {
        RegionState { last_texture_id: None }
    }
}

/// The rebuild condition of the global region builder: the singleton
/// resource is rebuilt exactly when the configuration changed or the
/// resolved texture identity differs from the one remembered in `state`.
pub open spec fn region_rebuild_needed(state: RegionState, config_changed: bool, view_id: u64) -> bool {
    config_changed || state.last_texture_id != Some(view_id)
}

/// What one run of the global region builder does to its remembered state:
/// on a rebuild it stores the resolved texture identity, otherwise it leaves
/// the state alone.
pub open spec fn region_step_state(state: RegionState, config_changed: bool, view_id: u64) -> RegionState {
    if region_rebuild_needed(state, config_changed, view_id) {
        RegionState { last_texture_id: Some(view_id) }
    } else {
        state
    }
}

/// Idempotence of the global region builder: whatever the first run did, a
/// second run with an unchanged configuration and the same resolved texture
/// identity never needs a rebuild, so it reallocates nothing and the stored
/// singleton bind group is reused as it is.
pub proof fn lemma_region_builder_idempotent(state: RegionState, config_changed: bool, view_id: u64)
    ensures
        !region_rebuild_needed(region_step_state(state, config_changed, view_id), false, view_id),
        region_step_state(region_step_state(state, config_changed, view_id), false, view_id)
            == region_step_state(state, config_changed, view_id),
{
}

} // verus!
