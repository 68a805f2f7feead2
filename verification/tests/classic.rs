use std::time::Duration;

use nyon::app_core::{ActionOutcome, AppCore, UiAction, UiControl, UserPreferences};
use nyon::game::{CommandRejection, FieldAdjustment, FieldKind, GameCommand, WorldId};
use nyon::input::Action;
use nyon::onboarding::OnboardingStep;
use nyon::presentation::{GraphicsQuality, MotionPreference, UiScale};
use nyon::session::{AppMode, GameSpeed};
use nyon::settings::SettingsAction;

fn preferences(onboarding_completed: bool) -> UserPreferences {
    UserPreferences {
        ui_scale: UiScale::Percent100,
        motion: MotionPreference::Full,
        high_contrast: false,
        graphics_quality: GraphicsQuality::Auto,
        onboarding_completed,
    }
}

fn returning_player() -> AppCore {
    AppCore::new(preferences(true), 60)
}

fn first_run() -> AppCore {
    AppCore::new(preferences(false), 60)
}

const SIXTIETH: Duration = Duration::from_nanos(16_666_667);

#[test]
fn a_returning_player_starts_at_normal_speed_with_nothing_selected() {
    let core = returning_player();
    assert_eq!(core.mode(), AppMode::Playing);
    assert_eq!(core.game_speed(), GameSpeed::Normal);
    assert_eq!(core.onboarding_step(), None);
    assert_eq!(core.selected_world(), None);
    assert_eq!(core.selected_field(), FieldKind::Atmosphere);
    assert_eq!(core.next_sequence(), 0);
}

#[test]
fn running_guidance_holds_the_game_paused() {
    let mut core = first_run();
    assert!(core.paused());
    assert_eq!(core.onboarding_step(), Some(OnboardingStep::SelectUnionWorld));

    core.set_game_speed(GameSpeed::Fast);
    assert!(core.paused());
    assert_eq!(core.handle_action(Action::Pause), ActionOutcome::Applied);
    assert!(core.paused());
    assert_eq!(core.handle_action(Action::SpeedUp), ActionOutcome::Applied);
    assert!(core.paused());
    assert_eq!(core.advance(Duration::from_millis(100)), 0);
}

#[test]
fn speed_keys_step_through_the_range_and_pause_restores_the_speed() {
    let mut core = returning_player();
    assert_eq!(core.handle_action(Action::SpeedUp), ActionOutcome::Applied);
    assert_eq!(core.game_speed(), GameSpeed::Fast);
    core.handle_action(Action::SpeedUp);
    core.handle_action(Action::SpeedUp);
    assert_eq!(core.game_speed(), GameSpeed::VeryFast);

    core.handle_action(Action::Pause);
    assert_eq!(core.game_speed(), GameSpeed::Paused);
    core.handle_action(Action::Pause);
    assert_eq!(core.game_speed(), GameSpeed::VeryFast);

    core.handle_action(Action::SpeedDown);
    core.handle_action(Action::SpeedDown);
    core.handle_action(Action::SpeedDown);
    core.handle_action(Action::SpeedDown);
    assert_eq!(core.game_speed(), GameSpeed::Paused);
    core.handle_action(Action::Pause);
    assert_eq!(core.game_speed(), GameSpeed::Normal);
}

#[test]
fn frames_run_one_step_per_speed_multiple_and_pause_runs_none() {
    let mut core = returning_player();
    assert_eq!(core.advance(SIXTIETH), 1);
    core.set_game_speed(GameSpeed::Fast);
    assert_eq!(core.advance(SIXTIETH), 2);
    core.set_game_speed(GameSpeed::VeryFast);
    assert_eq!(core.advance(SIXTIETH), 4);
    core.set_game_speed(GameSpeed::Paused);
    assert_eq!(core.advance(SIXTIETH), 0);
}

#[test]
fn long_frames_are_clamped_and_bounded_by_the_step_limit() {
    let mut core = returning_player();
    assert_eq!(core.advance(Duration::from_secs(3)), 15);
    core.set_game_speed(GameSpeed::VeryFast);
    assert_eq!(core.advance(Duration::from_secs(3)), 60);
}

#[test]
fn a_speed_change_discards_residual_time() {
    let mut core = returning_player();
    assert_eq!(core.advance(Duration::from_millis(10)), 0);
    core.set_game_speed(GameSpeed::Fast);
    core.set_game_speed(GameSpeed::Normal);
    assert_eq!(core.advance(Duration::from_millis(10)), 0);
    assert_eq!(core.advance(Duration::from_millis(7)), 1);
}

#[test]
fn field_keys_select_fields_and_tuning_needs_a_selected_world() {
    let mut core = returning_player();
    core.handle_action(Action::Field2);
    assert_eq!(core.selected_field(), FieldKind::Hydrosphere);
    core.handle_action(Action::Field3);
    assert_eq!(core.selected_field(), FieldKind::Topology);
    assert_eq!(core.handle_action(Action::Increase), ActionOutcome::Ignored);

    assert!(core.handle_scene_tap(Some(WorldId(0)), false, true, false, false));
    assert_eq!(
        core.handle_action(Action::Decrease),
        ActionOutcome::Queue {
            sequence: 0,
            command: GameCommand::TuneField {
                world: WorldId(0),
                field: FieldKind::Topology,
                adjustment: FieldAdjustment::Decrease,
            },
        }
    );
}

#[test]
fn the_touch_guidance_walks_selection_preview_and_launch() {
    let mut core = first_run();
    assert!(core.handle_scene_tap(Some(WorldId(0)), true, true, false, false));
    assert_eq!(core.selected_world(), Some(WorldId(0)));
    assert_eq!(core.onboarding_step(), Some(OnboardingStep::PreviewLaunch));

    assert!(core.handle_scene_tap(Some(WorldId(3)), true, false, true, true));
    assert_eq!(core.selected_world(), Some(WorldId(0)));
    assert_eq!(core.command_target(), Some(WorldId(3)));
    assert_eq!(core.onboarding_step(), Some(OnboardingStep::LaunchFleet));
    assert_eq!(core.next_sequence(), 0);

    let launch = GameCommand::Launch { source: WorldId(0), destination: WorldId(3) };
    assert_eq!(
        core.handle_ui_action(UiAction::Launch),
        ActionOutcome::Queue { sequence: 0, command: launch }
    );
    core.command_enqueued(launch, true);
    assert_eq!(core.next_sequence(), 1);
    assert_eq!(core.onboarding_step(), Some(OnboardingStep::TuneField));
    assert!(core.paused());
}

#[test]
fn a_touch_on_empty_space_clears_and_a_touch_without_a_union_source_only_hovers() {
    let mut core = returning_player();
    core.handle_scene_tap(Some(WorldId(2)), true, false, false, false);
    assert_eq!(core.selected_world(), None);
    assert_eq!(core.hovered_world(), Some(WorldId(2)));
    assert_eq!(core.command_target(), Some(WorldId(2)));

    core.handle_scene_tap(Some(WorldId(1)), true, true, false, false);
    assert_eq!(core.selected_world(), Some(WorldId(1)));
    core.handle_scene_tap(None, true, false, true, false);
    assert_eq!(core.selected_world(), None);
    assert_eq!(core.hovered_world(), None);
    assert_eq!(core.command_target(), None);
}

#[test]
fn completing_the_guidance_resumes_play_and_asks_for_a_save() {
    let mut core = first_run();
    core.handle_scene_tap(Some(WorldId(0)), false, true, false, false);
    core.set_scene_cursor(Some(WorldId(4)), true);
    assert_eq!(core.onboarding_step(), Some(OnboardingStep::LaunchFleet));
    let launch = GameCommand::Launch { source: WorldId(0), destination: WorldId(4) };
    assert_eq!(
        core.handle_action(Action::Launch),
        ActionOutcome::Queue { sequence: 0, command: launch }
    );
    core.command_enqueued(launch, true);
    let tune = GameCommand::TuneField {
        world: WorldId(0),
        field: FieldKind::Atmosphere,
        adjustment: FieldAdjustment::Increase,
    };
    assert_eq!(
        core.handle_action(Action::Increase),
        ActionOutcome::Queue { sequence: 1, command: tune }
    );
    core.command_enqueued(tune, true);
    assert_eq!(core.onboarding_step(), Some(OnboardingStep::ReadAdvisory));
    assert_eq!(core.handle_ui_action(UiAction::AcknowledgeAdvisory), ActionOutcome::Applied);
    assert_eq!(core.onboarding_step(), Some(OnboardingStep::OpenScenarioEditor));
    assert_eq!(core.take_preferences_to_save(), None);

    assert_eq!(core.handle_action(Action::Scenario), ActionOutcome::OpenEditor);
    assert_eq!(core.mode(), AppMode::EditingScenario);
    assert_eq!(core.onboarding_step(), None);
    assert_eq!(core.game_speed(), GameSpeed::Normal);
    assert_eq!(core.take_preferences_to_save(), Some(preferences(true)));
    assert_eq!(core.take_preferences_to_save(), None);

    assert_eq!(core.handle_action(Action::Pause), ActionOutcome::Ignored);
    core.close_editor();
    assert_eq!(core.mode(), AppMode::Playing);
}

#[test]
fn an_invalid_preview_does_not_advance_the_guidance() {
    let mut core = first_run();
    core.handle_scene_tap(Some(WorldId(0)), false, true, false, false);
    core.set_scene_cursor(Some(WorldId(4)), false);
    assert_eq!(core.onboarding_step(), Some(OnboardingStep::PreviewLaunch));
    let launch = GameCommand::Launch { source: WorldId(0), destination: WorldId(4) };
    core.command_enqueued(launch, false);
    assert_eq!(core.next_sequence(), 1);
    assert_eq!(core.onboarding_step(), Some(OnboardingStep::PreviewLaunch));
}

#[test]
fn skipping_the_guidance_resumes_the_same_match() {
    let mut core = first_run();
    core.handle_scene_tap(Some(WorldId(0)), false, true, false, false);
    assert_eq!(core.handle_ui_action(UiAction::SkipOnboarding), ActionOutcome::Applied);
    assert_eq!(core.onboarding_step(), None);
    assert_eq!(core.game_speed(), GameSpeed::Normal);
    assert_eq!(core.selected_world(), Some(WorldId(0)));
    assert_eq!(core.take_preferences_to_save(), Some(preferences(true)));
}

#[test]
fn settings_change_preferences_and_reset_guidance_pauses() {
    let mut core = returning_player();
    assert!(!core.handle_settings_action(SettingsAction::SetUiScale(UiScale::Percent130)));
    assert_eq!(core.handle_action(Action::Settings), ActionOutcome::Applied);
    assert_eq!(core.mode(), AppMode::Settings);
    assert_eq!(core.handle_action(Action::Pause), ActionOutcome::Ignored);

    assert!(core.handle_settings_action(SettingsAction::SetUiScale(UiScale::Percent130)));
    assert!(core.handle_settings_action(SettingsAction::SetHighContrast(true)));
    let saved = core.take_preferences_to_save().unwrap();
    assert_eq!(saved.ui_scale, UiScale::Percent130);
    assert!(saved.high_contrast);

    assert!(core.handle_settings_action(SettingsAction::ResetOnboarding));
    assert_eq!(core.onboarding_step(), Some(OnboardingStep::SelectUnionWorld));
    assert!(core.paused());
    assert!(!core.preferences().onboarding_completed);

    assert_eq!(
        core.handle_ui_action(UiAction::Settings(SettingsAction::Close)),
        ActionOutcome::Applied
    );
    assert_eq!(core.mode(), AppMode::Playing);
    assert!(core.paused());
}

#[test]
fn escape_clears_the_selection_and_restart_forgets_the_session() {
    let mut core = returning_player();
    core.handle_scene_tap(Some(WorldId(1)), false, true, false, false);
    core.handle_action(Action::Field2);
    core.handle_action(Action::Help);
    core.handle_action(Action::SpeedUp);
    assert!(core.help_visible());
    assert_eq!(core.handle_action(Action::Cancel), ActionOutcome::Applied);
    assert_eq!(core.selected_world(), None);
    assert_eq!(core.selected_field(), FieldKind::Hydrosphere);

    core.handle_scene_tap(Some(WorldId(1)), false, true, false, false);
    core.command_enqueued(GameCommand::Launch { source: WorldId(1), destination: WorldId(2) }, false);
    assert_eq!(core.handle_action(Action::Restart), ActionOutcome::Restart);
    assert_eq!(core.selected_world(), None);
    assert_eq!(core.selected_field(), FieldKind::Atmosphere);
    assert_eq!(core.game_speed(), GameSpeed::Normal);
    assert_eq!(core.next_sequence(), 0);
    assert!(!core.help_visible());
    assert_eq!(core.handle_action(Action::CameraReset), ActionOutcome::ResetCamera);
}

#[test]
fn a_launch_gesture_needs_a_selected_source_and_a_destination() {
    let mut core = returning_player();
    assert_eq!(core.handle_scene_launch_pointer(Some(WorldId(2))), ActionOutcome::Ignored);
    core.handle_scene_tap(Some(WorldId(0)), false, true, false, false);
    assert_eq!(core.handle_scene_launch_pointer(None), ActionOutcome::Ignored);
    assert_eq!(
        core.handle_scene_launch_pointer(Some(WorldId(2))),
        ActionOutcome::Queue {
            sequence: 0,
            command: GameCommand::Launch { source: WorldId(0), destination: WorldId(2) },
        }
    );
    assert_eq!(core.hovered_world(), Some(WorldId(2)));
}

#[test]
fn keyboard_focus_wraps_over_the_controls_and_activates_enabled_ones() {
    let mut core = returning_player();
    let controls = vec![
        UiControl { action: UiAction::SpeedDown, enabled: true },
        UiControl { action: UiAction::TogglePause, enabled: true },
        UiControl { action: UiAction::Launch, enabled: false },
    ];
    core.focus_ui_next(false, &controls);
    assert_eq!(core.ui_focus_action(), Some(UiAction::SpeedDown));
    assert_eq!(core.ui_focus_index(&controls), Some(0));
    core.focus_ui_next(true, &controls);
    assert_eq!(core.ui_focus_action(), Some(UiAction::Launch));
    assert_eq!(core.activate_focused_ui(&controls), ActionOutcome::Ignored);
    assert_eq!(core.ui_focus_action(), None);

    core.focus_ui(1, &controls);
    assert_eq!(core.activate_focused_ui(&controls), ActionOutcome::Applied);
    assert!(core.paused());
    core.focus_ui(7, &controls);
    assert_eq!(core.ui_focus_index(&controls), Some(1));

    core.handle_action(Action::Pause);
    core.handle_action(Action::Settings);
    assert_eq!(core.ui_focus_index(&controls), Some(0));
    core.focus_ui_next(true, &controls);
    assert_eq!(core.ui_focus_index(&controls), Some(10));
}

#[test]
fn settings_controls_cycle_scale_and_toggle_motion_and_contrast() {
    let mut core = returning_player();
    assert!(!core.cycle_ui_scale());
    assert_eq!(core.preferences().ui_scale, UiScale::Percent100);

    core.open_settings();
    assert!(core.cycle_ui_scale());
    assert_eq!(core.preferences().ui_scale, UiScale::Percent115);
    core.cycle_ui_scale();
    assert_eq!(core.preferences().ui_scale, UiScale::Percent130);
    core.cycle_ui_scale();
    assert_eq!(core.preferences().ui_scale, UiScale::Percent85);
    core.cycle_ui_scale();
    assert_eq!(core.preferences().ui_scale, UiScale::Percent100);

    assert!(core.toggle_reduced_motion());
    assert_eq!(core.preferences().motion, MotionPreference::Reduced);
    core.toggle_reduced_motion();
    assert_eq!(core.preferences().motion, MotionPreference::Full);
    assert!(core.toggle_high_contrast());
    assert!(core.preferences().high_contrast);
    assert!(core.take_preferences_to_save().is_some());
}

#[test]
fn field_controls_need_a_selected_world_and_an_accepted_adjustment() {
    let mut core = returning_player();
    assert_eq!(core.field_command(FieldAdjustment::Increase), None);
    assert_eq!(
        core.field_control_state(FieldAdjustment::Increase, Ok(())),
        (false, "Select a Union world")
    );
    core.handle_scene_tap(Some(WorldId(2)), false, true, false, false);
    core.handle_action(Action::Field2);
    assert_eq!(
        core.field_command(FieldAdjustment::Increase),
        Some(GameCommand::TuneField {
            world: WorldId(2),
            field: FieldKind::Hydrosphere,
            adjustment: FieldAdjustment::Increase,
        })
    );
    assert_eq!(
        core.field_control_state(FieldAdjustment::Decrease, Ok(())),
        (true, "Decrease selected field (Q)")
    );
    assert_eq!(
        core.field_control_state(FieldAdjustment::Increase, Err(CommandRejection::FieldAtLimit)),
        (false, "REJECTED - FIELD AT LIMIT")
    );
}
