use gi_toolkit::endpoints::{
    craft_entry_plan, field_of_view_plan, open_team_plan, open_team_probe_required, CraftAction,
    ResolvedFunctions, TeamAction,
};
use gi_toolkit::environment::{FunctionOffsets, IslandEnvironment, IslandState};
use gi_toolkit::fov::fov_is_low;

fn all_resolved() -> ResolvedFunctions {
    ResolvedFunctions {
        find_string: Some(0x1000),
        set_field_of_view: Some(0x1100),
        set_enable_fog_rendering: Some(0x1200),
        set_target_frame_rate: Some(0x1300),
        open_team: Some(0x1400),
        open_team_page_accordingly: Some(0x1500),
        check_can_enter: Some(0x1600),
        craft_entry: Some(0x1700),
        craft_entry_partner: Some(0x1800),
    }
}

fn record(
    fix_low_fov_scene: u32,
    disable_fog: u32,
    remove_open_team_progress: u32,
    redirect_craft_entry: u32,
) -> IslandEnvironment {
    IslandEnvironment {
        state: IslandState::Active,
        last_error: 0,
        function_offsets: FunctionOffsets {
            find_string: 0,
            set_field_of_view: 0,
            set_enable_fog_rendering: 0,
            set_target_frame_rate: 0,
            open_team: 0,
            open_team_page_accordingly: 0,
            check_can_enter: 0,
            craft_entry: 0,
            craft_entry_partner: 0,
        },
        field_of_view: 90.0f32.to_bits(),
        fix_low_fov_scene,
        disable_fog,
        target_frame_rate: 120,
        remove_open_team_progress,
        redirect_craft_entry,
    }
}

#[test]
fn fov_boundary_thirty_is_low() {
    assert!(fov_is_low(30.0f32.to_bits()));
}

#[test]
fn fov_boundary_just_above_thirty_is_normal() {
    assert!(!fov_is_low(30.0001f32.to_bits()));
}

#[test]
fn fov_boundary_edge_values() {
    assert!(fov_is_low(0.0f32.to_bits()));
    assert!(fov_is_low((-0.0f32).to_bits()));
    assert!(fov_is_low((-5.0f32).to_bits()));
    assert!(fov_is_low(f32::NEG_INFINITY.to_bits()));
    assert!(fov_is_low(29.9999f32.to_bits()));
    assert!(!fov_is_low(30.0f32.to_bits() + 1));
    assert!(!fov_is_low(45.0f32.to_bits()));
    assert!(!fov_is_low(f32::INFINITY.to_bits()));
    assert!(!fov_is_low(f32::NAN.to_bits()));
}

#[test]
fn fov_low_scene_override_uses_record_value() {
    let env = record(1, 0, 0, 0);
    let requested = 20.0f32.to_bits();
    let plan = field_of_view_plan(Some(&env), &all_resolved(), requested);
    assert_eq!(plan.set_frame_rate, Some(120));
    assert_eq!(plan.set_fog_enabled, Some(false));
    assert_eq!(plan.set_field_of_view, Some(env.field_of_view));
}

#[test]
fn fov_low_scene_without_fix_keeps_requested_value() {
    let env = record(0, 0, 0, 0);
    let requested = 20.0f32.to_bits();
    let plan = field_of_view_plan(Some(&env), &all_resolved(), requested);
    assert_eq!(plan.set_fog_enabled, Some(false));
    assert_eq!(plan.set_field_of_view, Some(requested));
}

#[test]
fn fov_normal_scene_overrides_and_respects_fog_flag() {
    let env = record(0, 1, 0, 0);
    let requested = 45.0f32.to_bits();
    let plan = field_of_view_plan(Some(&env), &all_resolved(), requested);
    assert_eq!(plan.set_frame_rate, Some(120));
    assert_eq!(plan.set_fog_enabled, Some(false));
    assert_eq!(plan.set_field_of_view, Some(env.field_of_view));

    let env = record(0, 0, 0, 0);
    let plan = field_of_view_plan(Some(&env), &all_resolved(), requested);
    assert_eq!(plan.set_fog_enabled, Some(true));
}

#[test]
fn fov_missing_record_calls_nothing() {
    let plan = field_of_view_plan(None, &all_resolved(), 45.0f32.to_bits());
    assert_eq!(plan.set_frame_rate, None);
    assert_eq!(plan.set_fog_enabled, None);
    assert_eq!(plan.set_field_of_view, None);
}

#[test]
fn fov_unresolved_routines_are_skipped() {
    let env = record(0, 0, 0, 0);
    let mut funcs = all_resolved();
    funcs.set_target_frame_rate = None;
    funcs.set_enable_fog_rendering = None;
    funcs.set_field_of_view = None;
    let plan = field_of_view_plan(Some(&env), &funcs, 45.0f32.to_bits());
    assert_eq!(plan.set_frame_rate, None);
    assert_eq!(plan.set_fog_enabled, None);
    assert_eq!(plan.set_field_of_view, None);
}

#[test]
fn team_redirects_when_flag_set_and_probe_true() {
    let env = record(0, 0, 1, 0);
    let action = open_team_plan(Some(&env), &all_resolved(), true);
    assert_eq!(action, TeamAction::OpenTeamPageDirectly { argument: false });
}

#[test]
fn team_calls_original_when_probe_false() {
    let env = record(0, 0, 1, 0);
    let action = open_team_plan(Some(&env), &all_resolved(), false);
    assert_eq!(action, TeamAction::OpenTeamOriginal);
}

#[test]
fn team_calls_original_when_flag_clear() {
    let env = record(0, 0, 0, 0);
    let action = open_team_plan(Some(&env), &all_resolved(), true);
    assert_eq!(action, TeamAction::OpenTeamOriginal);
}

#[test]
fn team_missing_record_or_routines_does_nothing() {
    assert_eq!(open_team_plan(None, &all_resolved(), true), TeamAction::NoAction);
    let env = record(0, 0, 1, 0);
    let mut funcs = all_resolved();
    funcs.open_team_page_accordingly = None;
    assert_eq!(open_team_plan(Some(&env), &funcs, true), TeamAction::NoAction);
    let mut funcs = all_resolved();
    funcs.open_team = None;
    assert_eq!(open_team_plan(Some(&env), &funcs, false), TeamAction::NoAction);
}

#[test]
fn team_probe_required_only_with_flag_and_routine() {
    let env = record(0, 0, 1, 0);
    assert!(open_team_probe_required(Some(&env), &all_resolved()));
    let off = record(0, 0, 0, 0);
    assert!(!open_team_probe_required(Some(&off), &all_resolved()));
    let mut funcs = all_resolved();
    funcs.check_can_enter = None;
    assert!(!open_team_probe_required(Some(&env), &funcs));
    assert!(!open_team_probe_required(None, &all_resolved()));
}

#[test]
fn craft_redirects_to_partner_with_fixed_identifier() {
    let env = record(0, 0, 0, 1);
    let action = craft_entry_plan(Some(&env), &all_resolved());
    match action {
        CraftAction::RedirectToPartner { page_name, placeholders } => {
            assert_eq!(page_name, "SynthesisPage");
            assert_eq!(placeholders, vec![0u64, 0, 0, 0]);
        }
        other => panic!("expected partner redirect, got {:?}", other),
    }
}

#[test]
fn craft_calls_original_when_flag_clear() {
    let env = record(0, 0, 0, 0);
    assert_eq!(craft_entry_plan(Some(&env), &all_resolved()), CraftAction::CallOriginal);
}

#[test]
fn craft_calls_original_when_dependency_unresolved() {
    let env = record(0, 0, 0, 1);
    let mut funcs = all_resolved();
    funcs.find_string = None;
    assert_eq!(craft_entry_plan(Some(&env), &funcs), CraftAction::CallOriginal);
    let mut funcs = all_resolved();
    funcs.craft_entry_partner = None;
    assert_eq!(craft_entry_plan(Some(&env), &funcs), CraftAction::CallOriginal);
}

#[test]
fn craft_missing_record_or_routine_does_nothing() {
    assert_eq!(craft_entry_plan(None, &all_resolved()), CraftAction::NoAction);
    let env = record(0, 0, 0, 0);
    let mut funcs = all_resolved();
    funcs.craft_entry = None;
    assert_eq!(craft_entry_plan(Some(&env), &funcs), CraftAction::NoAction);
}
