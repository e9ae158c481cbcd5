//! The shadow map that a light carries, as far as scheduling reads it.

use vstd::prelude::*;

verus! {

/// Which geometry a shadow generation pass renders.
#[derive(Copy, Clone, Debug, PartialEq, Eq, Structural)]
pub enum ShadowGenerationMode {
    StationaryOnly,
    MovingOnly,
}

/// What can happen to a shadow map during an update.
#[derive(Copy, Clone, Debug, PartialEq, Eq, Structural)]
pub enum ShadowMapEvent {
    /// The scheduler picked the map for a refresh in the given frame.
    UpdateBegun { frame: u64 },
    /// Static geometry was rendered into the map; afterwards the asset system
    /// was idle, or still loading.
    StaticPhaseRun { assets_idle: bool },
}

/// The bookkeeping of one shadow map.
#[derive(Copy, Clone, Debug, PartialEq, Eq, Structural)]
pub struct ShadowMapState {
    /// Frame of the most recent refresh. Only staleness ranking reads it.
    pub last_update_frame: u64,
    /// Whether the layer of static geometry is stale.
    pub stationary_needs_update: bool,
}

impl ShadowMapState {
    /// The state after an event.
    ///
    /// A refresh stamps the frame and leaves the static layer's flag alone.
    /// A static phase leaves the flag set exactly when assets were still
    /// loading: the layer it rendered may lack what had not arrived.
    pub open spec fn after(self, event: ShadowMapEvent) -> ShadowMapState {
        match event {
            ShadowMapEvent::UpdateBegun { frame } => ShadowMapState {
                last_update_frame: frame,
                stationary_needs_update: self.stationary_needs_update,
            },
            ShadowMapEvent::StaticPhaseRun { assets_idle } => ShadowMapState {
                last_update_frame: self.last_update_frame,
                stationary_needs_update: !assets_idle,
            },
        }
    }

    /// A map that was never rendered: its static layer is stale.
    pub fn new() -> (state: ShadowMapState)
        ensures
            state.last_update_frame == 0,
            state.stationary_needs_update,
    {
        ShadowMapState { last_update_frame: 0, stationary_needs_update: true }
    }

    pub fn apply(&mut self, event: ShadowMapEvent)
        ensures
            *final(self) == old(self).after(event),
    {
        match event {
            ShadowMapEvent::UpdateBegun { frame } => {
                self.last_update_frame = frame;
            },
            ShadowMapEvent::StaticPhaseRun { assets_idle } => {
                self.stationary_needs_update = !assets_idle;
            },
        }
    }

    /// Marks the map as handled in `frame`, whatever generation does next.
    pub fn begin_update(&mut self, frame: u64)
        ensures
            *final(self) == old(self).after(ShadowMapEvent::UpdateBegun { frame }),
    {
        self.apply(ShadowMapEvent::UpdateBegun { frame });
    }

    /// Records the outcome of a static phase.
    pub fn finish_static_phase(&mut self, assets_idle: bool)
        ensures
            *final(self) == old(self).after(ShadowMapEvent::StaticPhaseRun { assets_idle }),
    {
        self.apply(ShadowMapEvent::StaticPhaseRun { assets_idle });
    }
}

/// The static layer's flag changes only through a static phase: it is raised
/// only by one that saw assets still loading, and cleared only by one that saw
/// the asset system idle.
pub proof fn lemma_stationary_flag_transitions(state: ShadowMapState, event: ShadowMapEvent)
    ensures
        !state.stationary_needs_update && state.after(event).stationary_needs_update ==> event
            == (ShadowMapEvent::StaticPhaseRun { assets_idle: false }),
        state.stationary_needs_update && !state.after(event).stationary_needs_update ==> event
            == (ShadowMapEvent::StaticPhaseRun { assets_idle: true }),
{
}

} // verus!
