use alkahest::ecs::entity::Entity;
use alkahest::ecs::light::{ShadowGenerationMode, ShadowMapEvent, ShadowMapState};
use alkahest::renderer::shadows::{
    update_shadow_maps, DepthComparison, RenderSettings, ShadowCommand, ShadowLight,
    StateSelection, SHADOWMAP_VS_SLOT,
};

fn settings(budget: usize) -> RenderSettings {
    RenderSettings { shadows: true, matcap: false, shadow_updates_per_frame: budget }
}

fn light(entity: u64, last_update_frame: u64, stationary_needs_update: bool) -> ShadowLight {
    ShadowLight {
        entity: Entity(entity),
        shadow: ShadowMapState { last_update_frame, stationary_needs_update },
    }
}

fn moving_phase(entity: u64) -> Vec<ShadowCommand> {
    vec![
        ShadowCommand::SetGenerationMode(ShadowGenerationMode::MovingOnly),
        ShadowCommand::BindForGeneration {
            entity: Entity(entity),
            mode: ShadowGenerationMode::MovingOnly,
        },
        ShadowCommand::RunShadowGenerate,
    ]
}

fn static_phase(entity: u64) -> Vec<ShadowCommand> {
    vec![
        ShadowCommand::SetGenerationMode(ShadowGenerationMode::StationaryOnly),
        ShadowCommand::BindForGeneration {
            entity: Entity(entity),
            mode: ShadowGenerationMode::StationaryOnly,
        },
        ShadowCommand::RunShadowGenerate,
        ShadowCommand::RecheckAssets { entity: Entity(entity) },
    ]
}

fn bind(entity: u64) -> Vec<ShadowCommand> {
    vec![
        ShadowCommand::BindShadowmapConstants { slot: 2 },
        ShadowCommand::BindView { entity: Entity(entity) },
    ]
}

fn prologue() -> Vec<ShadowCommand> {
    vec![
        ShadowCommand::EnableFlippedDepthComparison,
        ShadowCommand::SelectStates(StateSelection {
            blend: Some(0),
            depth_stencil: Some(2),
            rasterizer: Some(2),
            depth_bias: Some(6),
        }),
        ShadowCommand::FlushStates,
    ]
}

/// Carries the commands out on a device whose depth comparison was flipped,
/// or not, before.
fn flag_after(commands: &[ShadowCommand], before: bool) -> bool {
    let mut device = DepthComparison { flipped: before, saved: false };
    for command in commands {
        device.apply(*command);
    }
    device.flipped
}

fn refreshed(commands: &[ShadowCommand]) -> Vec<u64> {
    let mut out = Vec::new();
    for command in commands {
        if let ShadowCommand::BindView { entity } = command {
            out.push(entity.0);
        }
    }
    out
}

#[test]
fn nothing_happens_where_shadows_are_off() {
    let mut lights = vec![light(1, 0, true), light(2, 5, false)];
    let before = lights.clone();
    let off = RenderSettings { shadows: false, matcap: false, shadow_updates_per_frame: 4 };
    assert_eq!(update_shadow_maps(&off, &mut lights, 99), vec![]);
    assert_eq!(lights, before);
}

#[test]
fn nothing_happens_under_the_matcap_preview() {
    let mut lights = vec![light(1, 0, true)];
    let before = lights.clone();
    let matcap = RenderSettings { shadows: true, matcap: true, shadow_updates_per_frame: 4 };
    assert_eq!(update_shadow_maps(&matcap, &mut lights, 99), vec![]);
    assert_eq!(lights, before);
    let both = RenderSettings { shadows: false, matcap: true, shadow_updates_per_frame: 4 };
    assert_eq!(update_shadow_maps(&both, &mut lights, 99), vec![]);
    assert_eq!(lights, before);
}

#[test]
fn a_pass_without_lights_only_sets_the_device_up_and_restores_it() {
    let mut lights = vec![];
    let mut expected = prologue();
    expected.push(ShadowCommand::RestoreFlippedDepthComparison);
    assert_eq!(update_shadow_maps(&settings(4), &mut lights, 1), expected);
}

#[test]
fn a_pass_with_no_budget_refreshes_nothing() {
    let mut lights = vec![light(1, 0, true), light(2, 0, true)];
    let before = lights.clone();
    let mut expected = prologue();
    expected.push(ShadowCommand::RestoreFlippedDepthComparison);
    assert_eq!(update_shadow_maps(&settings(0), &mut lights, 1), expected);
    assert_eq!(lights, before);
}

#[test]
fn the_stalest_lights_are_refreshed_oldest_first() {
    let mut lights =
        vec![light(10, 30, false), light(11, 10, true), light(12, 20, false), light(13, 40, true)];
    let commands = update_shadow_maps(&settings(2), &mut lights, 50);

    let mut expected = prologue();
    expected.extend(bind(11));
    expected.extend(static_phase(11));
    expected.extend(moving_phase(11));
    expected.extend(bind(12));
    expected.extend(moving_phase(12));
    expected.push(ShadowCommand::RestoreFlippedDepthComparison);
    assert_eq!(commands, expected);

    assert_eq!(
        lights,
        vec![light(10, 30, false), light(11, 50, true), light(12, 50, false), light(13, 40, true)]
    );
}

#[test]
fn equal_stamps_are_refreshed_in_the_order_of_the_list() {
    let mut lights = vec![light(1, 7, false), light(2, 7, false), light(3, 7, false)];
    let commands = update_shadow_maps(&settings(2), &mut lights, 8);
    assert_eq!(refreshed(&commands), vec![1, 2]);
    assert_eq!(lights, vec![light(1, 8, false), light(2, 8, false), light(3, 7, false)]);

    // The light that was left out is now the stalest and comes first.
    let commands = update_shadow_maps(&settings(2), &mut lights, 9);
    assert_eq!(refreshed(&commands), vec![3, 1]);
    assert_eq!(lights, vec![light(1, 9, false), light(2, 8, false), light(3, 9, false)]);
}

#[test]
fn a_budget_above_the_number_of_lights_refreshes_them_all() {
    let mut lights = vec![light(1, 3, false), light(2, 1, false)];
    let commands = update_shadow_maps(&settings(10), &mut lights, 4);
    assert_eq!(refreshed(&commands), vec![2, 1]);
    assert_eq!(lights, vec![light(1, 4, false), light(2, 4, false)]);
}

#[test]
fn the_static_phase_runs_only_for_a_stale_static_layer() {
    let mut lights = vec![light(1, 0, false)];
    let commands = update_shadow_maps(&settings(1), &mut lights, 1);
    assert!(!commands.contains(&ShadowCommand::SetGenerationMode(
        ShadowGenerationMode::StationaryOnly
    )));
    assert!(!commands.contains(&ShadowCommand::RecheckAssets { entity: Entity(1) }));

    let mut lights = vec![light(1, 0, true)];
    let commands = update_shadow_maps(&settings(1), &mut lights, 1);
    let mut expected = prologue();
    expected.extend(bind(1));
    expected.extend(static_phase(1));
    expected.extend(moving_phase(1));
    expected.push(ShadowCommand::RestoreFlippedDepthComparison);
    assert_eq!(commands, expected);
}

#[test]
fn a_pass_never_touches_the_static_layers_flag() {
    let mut lights = vec![light(1, 0, true), light(2, 0, false)];
    update_shadow_maps(&settings(2), &mut lights, 1);
    assert!(lights[0].shadow.stationary_needs_update);
    assert!(!lights[1].shadow.stationary_needs_update);
}

#[test]
fn the_flipped_depth_comparison_is_after_a_pass_as_it_was_before() {
    for before in [false, true] {
        let mut lights = vec![light(1, 0, true), light(2, 0, false)];
        let commands = update_shadow_maps(&settings(2), &mut lights, 1);
        assert_eq!(flag_after(&commands, before), before);
        let mut none = vec![];
        let commands = update_shadow_maps(&settings(2), &mut none, 1);
        assert_eq!(flag_after(&commands, before), before);
    }
}

#[test]
fn the_depth_comparison_is_flipped_while_anything_is_generated() {
    for before in [false, true] {
        let mut lights = vec![light(1, 0, true), light(2, 0, false)];
        let commands = update_shadow_maps(&settings(2), &mut lights, 1);
        let mut generated = 0;
        for (at, command) in commands.iter().enumerate() {
            if *command == ShadowCommand::RunShadowGenerate {
                assert!(flag_after(&commands[..at], before));
                generated += 1;
            }
        }
        assert_eq!(generated, 3);
    }
}

#[test]
fn the_flipped_depth_comparison_stays_as_it_was_where_shadows_are_off() {
    let off = RenderSettings { shadows: false, matcap: false, shadow_updates_per_frame: 4 };
    for before in [false, true] {
        let mut lights = vec![light(1, 0, true)];
        let commands = update_shadow_maps(&off, &mut lights, 1);
        assert_eq!(flag_after(&commands, before), before);
    }
}

#[test]
fn enabling_remembers_and_restoring_puts_back() {
    let mut device = DepthComparison { flipped: false, saved: true };
    device.apply(ShadowCommand::EnableFlippedDepthComparison);
    assert_eq!(device, DepthComparison { flipped: true, saved: false });
    device.apply(ShadowCommand::FlushStates);
    device.apply(ShadowCommand::RunShadowGenerate);
    assert_eq!(device, DepthComparison { flipped: true, saved: false });
    device.apply(ShadowCommand::RestoreFlippedDepthComparison);
    assert_eq!(device, DepthComparison { flipped: false, saved: false });

    let mut device = DepthComparison { flipped: true, saved: false };
    device.apply(ShadowCommand::EnableFlippedDepthComparison);
    assert_eq!(device, DepthComparison { flipped: true, saved: true });
    device.apply(ShadowCommand::RestoreFlippedDepthComparison);
    assert_eq!(device, DepthComparison { flipped: true, saved: true });
}

#[test]
fn the_shadow_constants_go_to_slot_two() {
    assert_eq!(SHADOWMAP_VS_SLOT, 2);
}

#[test]
fn a_new_shadow_map_has_a_stale_static_layer() {
    let state = ShadowMapState::new();
    assert_eq!(state.last_update_frame, 0);
    assert!(state.stationary_needs_update);
}

#[test]
fn beginning_an_update_stamps_the_frame_only() {
    let mut state = ShadowMapState { last_update_frame: 3, stationary_needs_update: true };
    state.begin_update(17);
    assert_eq!(state, ShadowMapState { last_update_frame: 17, stationary_needs_update: true });
    let mut state = ShadowMapState { last_update_frame: 3, stationary_needs_update: false };
    state.begin_update(u64::MAX);
    assert_eq!(state, ShadowMapState { last_update_frame: u64::MAX, stationary_needs_update: false });
}

#[test]
fn a_static_phase_clears_the_flag_only_when_assets_are_idle() {
    let mut state = ShadowMapState { last_update_frame: 3, stationary_needs_update: true };
    state.finish_static_phase(false);
    assert_eq!(state, ShadowMapState { last_update_frame: 3, stationary_needs_update: true });
    state.finish_static_phase(true);
    assert_eq!(state, ShadowMapState { last_update_frame: 3, stationary_needs_update: false });
}

#[test]
fn a_static_phase_that_sees_assets_loading_raises_the_flag() {
    let mut state = ShadowMapState { last_update_frame: 3, stationary_needs_update: false };
    state.apply(ShadowMapEvent::StaticPhaseRun { assets_idle: false });
    assert!(state.stationary_needs_update);
    assert_eq!(state.last_update_frame, 3);
}

#[test]
fn a_stalled_static_phase_is_tried_again_on_the_next_pass() {
    let mut lights = vec![light(1, 0, true)];
    let first = update_shadow_maps(&settings(1), &mut lights, 1);
    assert!(first.contains(&ShadowCommand::RecheckAssets { entity: Entity(1) }));
    lights[0].shadow.finish_static_phase(false);
    let second = update_shadow_maps(&settings(1), &mut lights, 2);
    assert!(second.contains(&ShadowCommand::RecheckAssets { entity: Entity(1) }));
    lights[0].shadow.finish_static_phase(true);
    let third = update_shadow_maps(&settings(1), &mut lights, 3);
    assert!(!third.contains(&ShadowCommand::RecheckAssets { entity: Entity(1) }));
    assert_eq!(lights[0].shadow.last_update_frame, 3);
}

#[test]
fn the_shadow_states_are_fixed() {
    assert_eq!(
        StateSelection::shadow(),
        StateSelection {
            blend: Some(0),
            depth_stencil: Some(2),
            rasterizer: Some(2),
            depth_bias: Some(6)
        }
    );
}

#[test]
fn lights_left_out_come_first_in_the_next_pass() {
    let mut lights =
        vec![light(1, 3, false), light(2, 1, false), light(3, 2, false), light(4, 0, false)];
    let first = update_shadow_maps(&settings(2), &mut lights, 10);
    assert_eq!(refreshed(&first), vec![4, 2]);
    // The two that were left out come first; of the two that share the
    // stamp of the first pass, the one listed first follows.
    let second = update_shadow_maps(&settings(3), &mut lights, 11);
    assert_eq!(refreshed(&second), vec![3, 1, 2]);
}
