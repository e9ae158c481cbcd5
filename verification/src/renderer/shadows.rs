//! The per-frame refresh of shadow maps.
//!
//! Each frame a bounded number of shadow maps is regenerated, the stalest
//! first. The pass is planned here as a list of commands; the caller carries
//! them out against the device, in order, and reports what a static phase
//! found through [`ShadowMapState::finish_static_phase`].

use vstd::prelude::*;
use crate::ecs::entity::Entity;
use crate::ecs::light::{ShadowGenerationMode, ShadowMapEvent, ShadowMapState};
use crate::renderer::schedule::{
    lemma_selection_takes_the_stalest, refreshes_before, select, selection,
};

verus! {

/// The settings that the shadow pass reads.
#[derive(Copy, Clone, Debug)]
pub struct RenderSettings {
    /// Whether shadows are rendered at all.
    pub shadows: bool,
    /// Whether the material-capture preview is on; it shows no shadows.
    pub matcap: bool,
    /// How many shadow maps one frame may regenerate.
    pub shadow_updates_per_frame: usize,
}

impl RenderSettings {
    /// Whether a frame regenerates shadow maps under these settings.
    pub open spec fn shadow_pass_enabled(self) -> bool {
        self.shadows && !self.matcap
    }
}

/// Which of the device's fixed pipeline states are in force; `None` leaves a
/// state to the technique that draws.
#[derive(Copy, Clone, Debug, PartialEq, Eq, Structural)]
pub struct StateSelection {
    pub blend: Option<u8>,
    pub depth_stencil: Option<u8>,
    pub rasterizer: Option<u8>,
    pub depth_bias: Option<u8>,
}

/// The pipeline states under which shadow depth is rendered.
pub open spec fn shadow_states() -> StateSelection {
    StateSelection {
        blend: Some(0u8),
        depth_stencil: Some(2u8),
        rasterizer: Some(2u8),
        depth_bias: Some(6u8),
    }
}

impl StateSelection {
    /// The pipeline states under which shadow depth is rendered.
    pub fn shadow() -> (states: StateSelection)
        ensures
            states == shadow_states(),
    {
        StateSelection {
            blend: Some(0u8),
            depth_stencil: Some(2u8),
            rasterizer: Some(2u8),
            depth_bias: Some(6u8),
        }
    }
}

/// The vertex-stage slot to which the light's view and projection are bound.
pub const SHADOWMAP_VS_SLOT: u32 = 2;

/// A light that casts shadows: its entity and its shadow map.
#[derive(Copy, Clone, Debug, PartialEq, Eq, Structural)]
pub struct ShadowLight {
    pub entity: Entity,
    pub shadow: ShadowMapState,
}

/// One step of the shadow pass, for the caller to carry out.
#[derive(Copy, Clone, Debug, PartialEq, Eq, Structural)]
pub enum ShadowCommand {
    /// Switch the device-wide flipped depth comparison on, and remember how
    /// it was.
    EnableFlippedDepthComparison,
    /// Store the selection of pipeline states.
    SelectStates(StateSelection),
    /// Make the stored selection current on the device.
    FlushStates,
    /// Bind the shadow pass's view constants to a slot of the vertex stage.
    BindShadowmapConstants { slot: u32 },
    /// Bind the view of the light's shadow map.
    BindView { entity: Entity },
    /// Store the generation mode that render stages read.
    SetGenerationMode(ShadowGenerationMode),
    /// Bind the targets into which the light's map is generated.
    BindForGeneration { entity: Entity, mode: ShadowGenerationMode },
    /// Run the shadow generation render stage over the scene.
    RunShadowGenerate,
    /// Look whether the asset system is idle and record it as the outcome of
    /// the light's static phase.
    RecheckAssets { entity: Entity },
    /// Put the flipped depth comparison back to how it was when the pass
    /// switched it on.
    RestoreFlippedDepthComparison,
}

/// The commands that regenerate one light's map in one mode.
pub open spec fn generation_commands(entity: Entity, mode: ShadowGenerationMode) -> Seq<
    ShadowCommand,
> {
    seq![
        ShadowCommand::SetGenerationMode(mode),
        ShadowCommand::BindForGeneration { entity, mode },
        ShadowCommand::RunShadowGenerate,
    ]
}

/// The commands that refresh one light: bind its view, render the static
/// layer and recheck the assets if that layer is stale, then render the
/// moving layer in any case.
pub open spec fn light_commands(light: ShadowLight) -> Seq<ShadowCommand> {
    let bind = seq![
        ShadowCommand::BindShadowmapConstants { slot: SHADOWMAP_VS_SLOT },
        ShadowCommand::BindView { entity: light.entity },
    ];
    let stationary = if light.shadow.stationary_needs_update {
        generation_commands(light.entity, ShadowGenerationMode::StationaryOnly).push(
            ShadowCommand::RecheckAssets { entity: light.entity },
        )
    } else {
        Seq::empty()
    };
    bind + stationary + generation_commands(light.entity, ShadowGenerationMode::MovingOnly)
}

/// The commands that refresh the chosen lights, one light after the other.
pub open spec fn refresh_commands(lights: Seq<ShadowLight>, chosen: Seq<usize>) -> Seq<
    ShadowCommand,
>
    decreases chosen.len(),
{
    if chosen.len() == 0 {
        Seq::empty()
    } else {
        refresh_commands(lights, chosen.drop_last()) + light_commands(lights[chosen.last() as int])
    }
}

/// The stamps by which lights are ranked.
pub open spec fn last_update_frames(lights: Seq<ShadowLight>) -> Seq<u64> {
    Seq::new(lights.len(), |i: int| lights[i].shadow.last_update_frame)
}

/// The lights that a pass refreshes, in the order in which it does: none
/// where shadows are off, else as many of the stalest as the budget admits.
pub open spec fn lights_to_refresh(settings: RenderSettings, lights: Seq<ShadowLight>) -> Seq<
    usize,
> {
    if settings.shadow_pass_enabled() {
        selection(last_update_frames(lights), settings.shadow_updates_per_frame)
    } else {
        Seq::empty()
    }
}

/// The whole pass as commands: nothing where shadows are off; else the
/// flipped depth comparison is switched on, the shadow states are selected
/// and flushed, the chosen lights are refreshed, and the flipped depth
/// comparison is put back.
pub open spec fn shadow_pass_commands(settings: RenderSettings, lights: Seq<ShadowLight>) -> Seq<
    ShadowCommand,
> {
    if settings.shadow_pass_enabled() {
        seq![
            ShadowCommand::EnableFlippedDepthComparison,
            ShadowCommand::SelectStates(shadow_states()),
            ShadowCommand::FlushStates,
        ] + refresh_commands(lights, lights_to_refresh(settings, lights)).push(
            ShadowCommand::RestoreFlippedDepthComparison,
        )
    } else {
        Seq::empty()
    }
}

/// The lights after a pass in `frame`: the refreshed ones carry the stamp of
/// the frame, the others are as they were.
pub open spec fn lights_after_pass(
    settings: RenderSettings,
    lights: Seq<ShadowLight>,
    frame: u64,
) -> Seq<ShadowLight> {
    Seq::new(
        lights.len(),
        |i: int|
            if lights_to_refresh(settings, lights).contains(i as usize) {
                ShadowLight {
                    entity: lights[i].entity,
                    shadow: lights[i].shadow.after(ShadowMapEvent::UpdateBegun { frame }),
                }
            } else {
                lights[i]
            },
    )
}

/// The device's depth comparison as a pass sees it: whether it is flipped,
/// and how it was when the pass last switched it on.
#[derive(Copy, Clone, Debug, PartialEq, Eq, Structural)]
pub struct DepthComparison {
    pub flipped: bool,
    pub saved: bool,
}

impl DepthComparison {
    /// The depth comparison once a command has been carried out.
    pub open spec fn after(self, command: ShadowCommand) -> DepthComparison {
        match command {
            ShadowCommand::EnableFlippedDepthComparison => DepthComparison {
                flipped: true,
                saved: self.flipped,
            },
            ShadowCommand::RestoreFlippedDepthComparison => DepthComparison {
                flipped: self.saved,
                saved: self.saved,
            },
            _ => self,
        }
    }

    /// Carries a command out on the depth comparison.
    pub fn apply(&mut self, command: ShadowCommand)
        ensures
            *final(self) == old(self).after(command),
    {
        match command {
            ShadowCommand::EnableFlippedDepthComparison => {
                self.saved = self.flipped;
                self.flipped = true;
            },
            ShadowCommand::RestoreFlippedDepthComparison => {
                self.flipped = self.saved;
            },
            _ => {},
        }
    }

    /// The depth comparison once the commands have been carried out, one
    /// after the other.
    pub open spec fn after_all(self, commands: Seq<ShadowCommand>) -> DepthComparison
        decreases commands.len(),
    {
        if commands.len() == 0 {
            self
        } else {
            self.after_all(commands.drop_last()).after(commands.last())
        }
    }
}

/// Whether a command leaves the depth comparison alone.
pub open spec fn leaves_depth_comparison(command: ShadowCommand) -> bool {
    !(command is EnableFlippedDepthComparison) && !(command is RestoreFlippedDepthComparison)
}

/// A pass refreshes at most as many lights as the budget allows, and never
/// more than there are; where shadows are on, it refreshes exactly that many.
pub proof fn lemma_pass_respects_budget(settings: RenderSettings, lights: Seq<ShadowLight>)
    requires
        lights.len() <= usize::MAX,
    ensures
        lights_to_refresh(settings, lights).len() <= settings.shadow_updates_per_frame,
        lights_to_refresh(settings, lights).len() <= lights.len(),
        settings.shadow_pass_enabled() ==> lights_to_refresh(settings, lights).len()
            == settings.shadow_updates_per_frame || lights_to_refresh(settings, lights).len()
            == lights.len(),
{
    lemma_selection_takes_the_stalest(
        last_update_frames(lights),
        settings.shadow_updates_per_frame,
    );
}

/// The lights that a pass refreshes are the stalest: each of them was last
/// refreshed no later than every light that is left out, and where the two
/// stamps are equal it stands before that light in the list. They are
/// refreshed in that same order, so none of them twice.
pub proof fn lemma_pass_refreshes_the_stalest(settings: RenderSettings, lights: Seq<ShadowLight>)
    requires
        lights.len() <= usize::MAX,
    ensures
        forall|k: int|
            0 <= k < lights_to_refresh(settings, lights).len() ==> (#[trigger] lights_to_refresh(
                settings,
                lights,
            )[k]) < lights.len(),
        forall|k: int, c: usize|
            #![trigger
                lights_to_refresh(settings, lights)[k],
                lights_to_refresh(settings, lights).contains(c)
            ]
            0 <= k < lights_to_refresh(settings, lights).len() && c < lights.len()
                && !lights_to_refresh(settings, lights).contains(c) ==> refreshes_before(
                last_update_frames(lights),
                lights_to_refresh(settings, lights)[k] as int,
                c as int,
            ),
        forall|a: int, b: int|
            0 <= a < b < lights_to_refresh(settings, lights).len() ==> refreshes_before(
                last_update_frames(lights),
                #[trigger] lights_to_refresh(settings, lights)[a] as int,
                #[trigger] lights_to_refresh(settings, lights)[b] as int,
            ),
{
    lemma_selection_takes_the_stalest(
        last_update_frames(lights),
        settings.shadow_updates_per_frame,
    );
}

/// No light is starved: of the lights of a pass in a frame newer than all
/// their stamps, those that were left out are refreshed by the next pass
/// before any that was refreshed. So where the next pass refreshes a light
/// again, it has refreshed every light that the first one left out.
pub proof fn lemma_left_out_lights_come_first(
    settings: RenderSettings,
    next_settings: RenderSettings,
    lights: Seq<ShadowLight>,
    frame: u64,
    left_out: usize,
    refreshed: usize,
)
    requires
        lights.len() <= usize::MAX,
        forall|i: int|
            0 <= i < lights.len() ==> (#[trigger] lights[i]).shadow.last_update_frame < frame,
        left_out < lights.len(),
        refreshed < lights.len(),
        !lights_to_refresh(settings, lights).contains(left_out),
        lights_to_refresh(settings, lights).contains(refreshed),
    ensures
        refreshes_before(
            last_update_frames(lights_after_pass(settings, lights, frame)),
            left_out as int,
            refreshed as int,
        ),
        lights_to_refresh(next_settings, lights_after_pass(settings, lights, frame)).contains(
            refreshed,
        ) ==> lights_to_refresh(next_settings, lights_after_pass(settings, lights, frame)).contains(
            left_out,
        ),
{
    let after = lights_after_pass(settings, lights, frame);
    let next = lights_to_refresh(next_settings, after);
    assert(after[left_out as int] == lights[left_out as int]);
    assert(after[refreshed as int].shadow.last_update_frame == frame);
    if next.contains(refreshed) && !next.contains(left_out) {
        lemma_selection_takes_the_stalest(
            last_update_frames(after),
            next_settings.shadow_updates_per_frame,
        );
        let at = choose|at: int| 0 <= at < next.len() && next[at] == refreshed;
        assert(refreshes_before(last_update_frames(after), next[at] as int, left_out as int));
    }
}

proof fn lemma_refresh_commands_leave_depth_comparison(
    lights: Seq<ShadowLight>,
    chosen: Seq<usize>,
)
    ensures
        forall|j: int|
            0 <= j < refresh_commands(lights, chosen).len() ==> leaves_depth_comparison(
                #[trigger] refresh_commands(lights, chosen)[j],
            ),
    decreases chosen.len(),
{
    if chosen.len() > 0 {
        let head = refresh_commands(lights, chosen.drop_last());
        let tail = light_commands(lights[chosen.last() as int]);
        lemma_refresh_commands_leave_depth_comparison(lights, chosen.drop_last());
        assert forall|j: int| 0 <= j < (head + tail).len() implies leaves_depth_comparison(
            #[trigger] (head + tail)[j],
        ) by {
            if j >= head.len() {
                assert((head + tail)[j] == tail[j - head.len()]);
            }
        }
    }
}

proof fn lemma_flipped_while_enabled(
    commands: Seq<ShadowCommand>,
    before: DepthComparison,
    done: int,
)
    requires
        1 <= done <= commands.len(),
        commands[0] == ShadowCommand::EnableFlippedDepthComparison,
        forall|j: int| 1 <= j < done ==> leaves_depth_comparison(#[trigger] commands[j]),
    ensures
        before.after_all(commands.take(done)) == (DepthComparison {
            flipped: true,
            saved: before.flipped,
        }),
    decreases done,
{
    let prefix = commands.take(done);
    assert(prefix.last() == commands[done - 1]);
    if done > 1 {
        assert(prefix.drop_last() =~= commands.take(done - 1));
        lemma_flipped_while_enabled(commands, before, done - 1);
    } else {
        assert(prefix.drop_last() =~= Seq::<ShadowCommand>::empty());
        assert(before.after_all(prefix.drop_last()) == before);
    }
    assert(before.after_all(prefix) == before.after_all(prefix.drop_last()).after(prefix.last()));
}

/// From its first command to its last a pass keeps the depth comparison
/// flipped: whatever it generates, it generates under it. And however far a
/// pass got, its last command is the one that puts the depth comparison
/// back.
pub proof fn lemma_flipped_depth_during_pass(
    settings: RenderSettings,
    lights: Seq<ShadowLight>,
    before: DepthComparison,
    done: int,
)
    requires
        1 <= done < shadow_pass_commands(settings, lights).len(),
    ensures
        before.after_all(shadow_pass_commands(settings, lights).take(done)).flipped,
        before.after_all(shadow_pass_commands(settings, lights).take(done)).saved == before.flipped,
        shadow_pass_commands(settings, lights).last()
            == ShadowCommand::RestoreFlippedDepthComparison,
{
    let commands = shadow_pass_commands(settings, lights);
    let middle = refresh_commands(lights, lights_to_refresh(settings, lights));
    lemma_refresh_commands_leave_depth_comparison(lights, lights_to_refresh(settings, lights));
    assert forall|j: int| 1 <= j < done implies leaves_depth_comparison(#[trigger] commands[j]) by {
        if j >= 3 {
            assert(commands[j] == middle[j - 3]);
        }
    }
    lemma_flipped_while_enabled(commands, before, done);
}

/// A pass leaves the flipped depth comparison as it found it, whether it was
/// on or off, whatever the settings and the lights.
pub proof fn lemma_flipped_depth_round_trip(
    settings: RenderSettings,
    lights: Seq<ShadowLight>,
    before: DepthComparison,
)
    ensures
        before.after_all(shadow_pass_commands(settings, lights)).flipped == before.flipped,
{
    let commands = shadow_pass_commands(settings, lights);
    if settings.shadow_pass_enabled() {
        let body = commands.drop_last();
        assert(body =~= commands.take(commands.len() - 1));
        lemma_flipped_depth_during_pass(settings, lights, before, commands.len() - 1);
    }
}

/// A pass never touches the static layer's flag of a light, and moves the
/// stamp of no light but those it refreshes.
pub proof fn lemma_pass_keeps_stationary_flags(
    settings: RenderSettings,
    lights: Seq<ShadowLight>,
    frame: u64,
)
    ensures
        lights_after_pass(settings, lights, frame).len() == lights.len(),
        forall|i: int|
            0 <= i < lights.len() ==> (#[trigger] lights_after_pass(
                settings,
                lights,
                frame,
            )[i]).shadow.stationary_needs_update == lights[i].shadow.stationary_needs_update,
        forall|i: int|
            0 <= i < lights.len() ==> (#[trigger] lights_after_pass(
                settings,
                lights,
                frame,
            )[i]).entity == lights[i].entity,
        forall|i: int|
            0 <= i < lights.len() && !lights_to_refresh(settings, lights).contains(i as usize)
                ==> #[trigger] lights_after_pass(settings, lights, frame)[i] == lights[i],
        forall|i: int|
            0 <= i < lights.len() && lights_to_refresh(settings, lights).contains(i as usize)
                ==> (#[trigger] lights_after_pass(
                settings,
                lights,
                frame,
            )[i]).shadow.last_update_frame == frame,
{
}

fn push_generation(commands: &mut Vec<ShadowCommand>, entity: Entity, mode: ShadowGenerationMode)
    ensures
        final(commands)@ == old(commands)@ + generation_commands(entity, mode),
{
    commands.push(ShadowCommand::SetGenerationMode(mode));
    commands.push(ShadowCommand::BindForGeneration { entity, mode });
    commands.push(ShadowCommand::RunShadowGenerate);
    assert(commands@ =~= old(commands)@ + generation_commands(entity, mode));
}

fn push_light(commands: &mut Vec<ShadowCommand>, light: ShadowLight)
    ensures
        final(commands)@ == old(commands)@ + light_commands(light),
{
    commands.push(ShadowCommand::BindShadowmapConstants { slot: SHADOWMAP_VS_SLOT });
    commands.push(ShadowCommand::BindView { entity: light.entity });
    if light.shadow.stationary_needs_update {
        push_generation(commands, light.entity, ShadowGenerationMode::StationaryOnly);
        commands.push(ShadowCommand::RecheckAssets { entity: light.entity });
    }
    push_generation(commands, light.entity, ShadowGenerationMode::MovingOnly);
    assert(commands@ =~= old(commands)@ + light_commands(light));
}

/// Plans the shadow pass of one frame.
///
/// Stamps the lights that the pass refreshes with `frame_index` and returns
/// the commands of the pass. The stamps are set here, before the caller
/// carries out the first command: a light counts as handled in this frame
/// whatever becomes of its generation. A pass that is cut short has so
/// stamped also the lights it did not reach; they are not starved, they wait
/// their turn again. The static layer's flag of no light is touched; it
/// changes when the caller reports the outcome of a static phase.
pub fn update_shadow_maps(
    settings: &RenderSettings,
    lights: &mut Vec<ShadowLight>,
    frame_index: u64,
) -> (commands: Vec<ShadowCommand>)
    ensures
        commands@ == shadow_pass_commands(*settings, old(lights)@),
        final(lights)@ == lights_after_pass(*settings, old(lights)@, frame_index),
{
    let mut commands: Vec<ShadowCommand> = Vec::new();
    if !settings.shadows || settings.matcap {
        assert(lights@ =~= lights_after_pass(*settings, old(lights)@, frame_index));
        return commands;
    }
    commands.push(ShadowCommand::EnableFlippedDepthComparison);
    commands.push(ShadowCommand::SelectStates(StateSelection::shadow()));
    commands.push(ShadowCommand::FlushStates);

    let mut frames: Vec<u64> = Vec::new();
    let mut i: usize = 0;
    while i < lights.len()
        invariant
            i <= lights.len(),
            lights@ == old(lights)@,
            frames@ == last_update_frames(lights@).take(i as int),
        decreases lights.len() - i,
    {
        frames.push(lights[i].shadow.last_update_frame);
        assert(frames@ =~= last_update_frames(lights@).take(i + 1));
        i = i + 1;
    }
    assert(frames@ =~= last_update_frames(lights@));
    let chosen = select(&frames, settings.shadow_updates_per_frame);
    proof {
        lemma_selection_takes_the_stalest(frames@, settings.shadow_updates_per_frame);
    }

    let ghost prologue = commands@;
    let mut k: usize = 0;
    while k < chosen.len()
        invariant
            k <= chosen.len(),
            lights.len() == old(lights).len(),
            chosen@ == lights_to_refresh(*settings, old(lights)@),
            forall|j: int| 0 <= j < chosen.len() ==> (#[trigger] chosen@[j]) < lights.len(),
            commands@ == prologue + refresh_commands(old(lights)@, chosen@.take(k as int)),
            forall|j: int|
                0 <= j < lights.len() ==> #[trigger] lights@[j] == if chosen@.take(
                    k as int,
                ).contains(j as usize) {
                    ShadowLight {
                        entity: old(lights)@[j].entity,
                        shadow: old(lights)@[j].shadow.after(
                            ShadowMapEvent::UpdateBegun { frame: frame_index },
                        ),
                    }
                } else {
                    old(lights)@[j]
                },
        decreases chosen.len() - k,
    {
        let index: usize = chosen[k];
        let mut light: ShadowLight = lights[index];
        light.shadow.begin_update(frame_index);
        lights.set(index, light);
        push_light(&mut commands, light);
        proof {
            let done = chosen@.take(k as int);
            let next = chosen@.take(k + 1);
            assert(next.drop_last() =~= done);
            assert(next.last() == index);
            assert(light_commands(light) == light_commands(old(lights)@[index as int]));
            assert forall|j: int| 0 <= j < lights.len() implies #[trigger] lights@[j]
                == if next.contains(j as usize) {
                ShadowLight {
                    entity: old(lights)@[j].entity,
                    shadow: old(lights)@[j].shadow.after(
                        ShadowMapEvent::UpdateBegun { frame: frame_index },
                    ),
                }
            } else {
                old(lights)@[j]
            } by {
                if j == index {
                    assert(next[k as int] == index);
                } else if done.contains(j as usize) {
                    let at = choose|at: int| 0 <= at < done.len() && done[at] == j as usize;
                    assert(next[at] == j as usize);
                } else if next.contains(j as usize) {
                    let at = choose|at: int| 0 <= at < next.len() && next[at] == j as usize;
                    assert(done[at] == j as usize);
                }
            }
        }
        k = k + 1;
    }
    assert(chosen@.take(k as int) =~= chosen@);
    commands.push(ShadowCommand::RestoreFlippedDepthComparison);
    assert(commands@ =~= shadow_pass_commands(*settings, old(lights)@));
    assert(lights@ =~= lights_after_pass(*settings, old(lights)@, frame_index));
    commands
}

} // verus!
