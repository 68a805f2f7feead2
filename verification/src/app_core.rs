//! The Classic session's own state and its transitions: mode, selection,
//! game speed, help, first-run guidance, the settings screen, keyboard focus
//! and the fixed-step clock.
//!
//! Campaign truth, the scenario editor, the camera and the preference store
//! stay with the caller. Where a transition needs the simulation's verdict it
//! takes it as an argument, and where the caller has work to do the
//! transition says so in an [`ActionOutcome`].

use std::time::Duration;

use vstd::prelude::*;

use crate::game::{
    CommandRejection, FieldAdjustment, FieldKind, GameCommand, WorldId, command_rejection_label,
    rejection_text,
};
use crate::input::Action;
use crate::onboarding::{
    OnboardingEvent, OnboardingState, OnboardingStep, STEP_COUNT, expected_event, step_at,
};
use crate::presentation::{GraphicsQuality, MotionPreference, UiScale};
use crate::session::{
    AppMode, GameSpeed, MAX_STEPS_PER_FRAME, action_command, faster_speed, game_command_for_action,
    slower_speed, speed_multiplier,
};
use crate::settings::{CONTROL_COUNT, SettingsAction, SettingsState, next_focus, previous_focus};
use crate::time::{ClockView, FixedClock, NANOS_PER_SECOND, after_frame, duration_nanos};

verus! {

/// The player's stored preferences.
#[derive(Clone, Copy, Debug, PartialEq, Eq, Structural)]
pub struct UserPreferences {
    pub ui_scale: UiScale,
    pub motion: MotionPreference,
    pub high_contrast: bool,
    pub graphics_quality: GraphicsQuality,
    pub onboarding_completed: bool,
}

/// What a control of the Classic interface does when it is activated.
#[derive(Clone, Copy, Debug, PartialEq, Eq, Structural)]
pub enum UiAction {
    Launch,
    ClearSelection,
    SpeedDown,
    TogglePause,
    SpeedUp,
    ResetCamera,
    OpenSettings,
    ToggleHelp,
    OpenScenario,
    AcknowledgeAdvisory,
    SkipOnboarding,
    ResetOnboarding,
    SelectField(FieldKind),
    DecreaseField,
    IncreaseField,
    Settings(SettingsAction),
}

/// What keyboard focus needs of a control of the current frame: its action
/// and whether it can be activated.
#[derive(Clone, Copy, Debug, PartialEq, Eq, Structural)]
pub struct UiControl {
    pub action: UiAction,
    pub enabled: bool,
}

/// What a transition leaves the caller to do.
#[derive(Clone, Copy, Debug, PartialEq, Eq, Structural)]
pub enum ActionOutcome {
    /// Nothing happened.
    Ignored,
    /// The session changed; nothing is left to do.
    Applied,
    /// Reset the camera.
    ResetCamera,
    /// The session was reset: rebuild the simulation from the active
    /// scenario and schedule a restart advisory.
    Restart,
    /// The session entered the editor: open it on the active scenario.
    OpenEditor,
    /// Preview the command and enqueue it under `sequence`; report an
    /// accepted one with [`AppCore::command_enqueued`]. Whether it was
    /// accepted is the transition's answer.
    Queue { sequence: u64, command: GameCommand },
}

/// What the renderer shows of the session.
#[derive(Clone, Copy, Debug, PartialEq, Eq, Structural)]
pub struct ViewState {
    pub selected_world: Option<WorldId>,
    pub hovered_world: Option<WorldId>,
    pub selected_field: FieldKind,
    pub paused: bool,
    pub speed_multiplier: u8,
    pub help_visible: bool,
}

/// The session as the contracts speak of it.
pub struct SessionView {
    pub mode: AppMode,
    pub preferences: UserPreferences,
    pub clock: ClockView,
    pub selected_world: Option<WorldId>,
    pub hovered_world: Option<WorldId>,
    pub touch_command_target: Option<WorldId>,
    pub selected_field: FieldKind,
    pub game_speed: GameSpeed,
    pub resume_speed: GameSpeed,
    pub help_visible: bool,
    pub onboarding: Option<nat>,
    pub settings_focus: nat,
    pub ui_focus: Option<UiAction>,
    pub next_sequence: u64,
    pub preferences_unsaved: bool,
}

/// What every session satisfies: while the guidance runs the game is
/// paused; the speed to resume to is a running speed, and it is the current
/// speed whenever the game runs; the clock never holds undrained steps.
pub open spec fn session_consistent(v: SessionView) -> bool {
    &&& v.onboarding is Some ==> v.game_speed == GameSpeed::Paused
    &&& v.resume_speed != GameSpeed::Paused
    &&& v.game_speed != GameSpeed::Paused ==> v.resume_speed == v.game_speed
    &&& v.clock.tick_hz > 0
    &&& v.clock.max_steps == MAX_STEPS_PER_FRAME
    &&& v.clock.pending_steps == 0
    &&& v.clock.remainder < NANOS_PER_SECOND
    &&& v.settings_focus < CONTROL_COUNT
    &&& match v.onboarding {
        Some(index) => index < STEP_COUNT,
        None => true,
    }
}

/// `clock` with its remainder and pending steps discarded.
pub open spec fn cleared(clock: ClockView) -> ClockView {
    ClockView { remainder: 0, pending_steps: 0, ..clock }
}

/// The world launches and previews aim at: the hovered world, else the one
/// a touch chose.
pub open spec fn target_of(v: SessionView) -> Option<WorldId> {
    match v.hovered_world {
        Some(world) => Some(world),
        None => v.touch_command_target,
    }
}

/// A speed request: refused while the guidance runs unless it pauses, and
/// a no-op at the current speed; otherwise the new speed, remembered for
/// resuming when it runs, with the clock's residual time discarded.
pub open spec fn with_speed(v: SessionView, speed: GameSpeed) -> SessionView {
    if (v.onboarding is Some && speed != GameSpeed::Paused) || v.game_speed == speed {
        v
    } else {
        SessionView {
            game_speed: speed,
            resume_speed: if speed != GameSpeed::Paused {
                speed
            } else {
                v.resume_speed
            },
            clock: cleared(v.clock),
            ..v
        }
    }
}

/// The guidance observes `event`: a matching event advances it, and the
/// last one completes it, marks the preferences for saving and resumes a
/// paused game.
pub open spec fn after_event(v: SessionView, event: OnboardingEvent) -> SessionView {
    match v.onboarding {
        Some(index) => if event != expected_event(step_at(index as int)) {
            v
        } else if index + 1 < STEP_COUNT {
            SessionView { onboarding: Some((index + 1) as nat), ..v }
        } else {
            let done = SessionView {
                onboarding: None,
                preferences: UserPreferences { onboarding_completed: true, ..v.preferences },
                preferences_unsaved: true,
                ..v
            };
            if done.game_speed == GameSpeed::Paused {
                with_speed(done, done.resume_speed)
            } else {
                done
            }
        },
        None => v,
    }
}

/// The settings screen opens over a running game, focused on its first
/// control, with the clock's residual time discarded.
pub open spec fn settings_opened(v: SessionView) -> SessionView {
    if v.mode != AppMode::Playing {
        v
    } else {
        SessionView {
            mode: AppMode::Settings,
            settings_focus: 0,
            ui_focus: None,
            clock: cleared(v.clock),
            ..v
        }
    }
}

/// Leaving the settings screen returns to the game.
pub open spec fn settings_closed(v: SessionView) -> SessionView {
    if v.mode == AppMode::Settings {
        SessionView { mode: AppMode::Playing, clock: cleared(v.clock), ..v }
    } else {
        v
    }
}

/// The session enters the scenario editor.
pub open spec fn editor_opened(v: SessionView) -> SessionView {
    if v.mode == AppMode::EditingScenario {
        v
    } else {
        SessionView { mode: AppMode::EditingScenario, clock: cleared(v.clock), ..v }
    }
}

/// The session leaves the scenario editor for the game.
pub open spec fn editor_closed(v: SessionView) -> SessionView {
    SessionView { mode: AppMode::Playing, clock: cleared(v.clock), ..v }
}

/// No world is selected, hovered or targeted, and no control has focus.
pub open spec fn selection_cleared(v: SessionView) -> SessionView {
    SessionView {
        selected_world: None,
        hovered_world: None,
        touch_command_target: None,
        ui_focus: None,
        ..v
    }
}

/// The session after its campaign restarts: nothing selected, the first
/// field, normal speed (paused while the guidance runs), help hidden,
/// command numbering from zero and an empty clock.
pub open spec fn restarted(v: SessionView) -> SessionView {
    SessionView {
        selected_world: None,
        hovered_world: None,
        touch_command_target: None,
        selected_field: FieldKind::Atmosphere,
        game_speed: if v.onboarding is Some {
            GameSpeed::Paused
        } else {
            GameSpeed::Normal
        },
        resume_speed: GameSpeed::Normal,
        help_visible: false,
        ui_focus: None,
        next_sequence: 0,
        clock: cleared(v.clock),
        ..v
    }
}

/// The session after `action`; actions only act on a running game.
pub open spec fn after_action(v: SessionView, action: Action) -> SessionView {
    if v.mode != AppMode::Playing {
        v
    } else {
        match action {
            Action::Field1 => SessionView { selected_field: FieldKind::Atmosphere, ..v },
            Action::Field2 => SessionView { selected_field: FieldKind::Hydrosphere, ..v },
            Action::Field3 => SessionView { selected_field: FieldKind::Topology, ..v },
            Action::Pause => if v.game_speed == GameSpeed::Paused {
                with_speed(v, v.resume_speed)
            } else {
                with_speed(v, GameSpeed::Paused)
            },
            Action::SpeedDown => with_speed(v, slower_speed(v.game_speed)),
            Action::SpeedUp => with_speed(v, faster_speed(v.game_speed)),
            Action::Settings => settings_opened(v),
            Action::Restart => restarted(v),
            Action::Help => SessionView { help_visible: !v.help_visible, ..v },
            Action::Cancel => selection_cleared(v),
            Action::Scenario => editor_opened(after_event(v, OnboardingEvent::ScenarioEditorOpened)),
            _ => v,
        }
    }
}

/// How the caller queues `command`: under the next sequence number while
/// the game runs.
pub open spec fn queue_outcome(v: SessionView, command: GameCommand) -> ActionOutcome {
    if v.mode != AppMode::Playing {
        ActionOutcome::Ignored
    } else {
        ActionOutcome::Queue { sequence: v.next_sequence, command }
    }
}

/// What `action` leaves the caller to do.
pub open spec fn action_outcome(v: SessionView, action: Action) -> ActionOutcome {
    if v.mode != AppMode::Playing {
        ActionOutcome::Ignored
    } else {
        match action {
            Action::CameraReset => ActionOutcome::ResetCamera,
            Action::Restart => ActionOutcome::Restart,
            Action::Scenario => ActionOutcome::OpenEditor,
            Action::Decrease | Action::Increase | Action::Launch => match action_command(
                action,
                v.selected_world,
                v.hovered_world,
                v.selected_field,
            ) {
                Some(command) => queue_outcome(v, command),
                None => ActionOutcome::Ignored,
            },
            _ => ActionOutcome::Applied,
        }
    }
}

/// The sequence number after `sequence`, wrapping past the largest.
pub open spec fn following_sequence(sequence: u64) -> u64 {
    if sequence == u64::MAX {
        0
    } else {
        (sequence + 1) as u64
    }
}

/// The session once the simulation accepted `command`: numbering moves on,
/// and a command that previewed as valid counts for the guidance (a launch
/// also forgets the touch target).
pub open spec fn after_enqueued(v: SessionView, command: GameCommand, preview_valid: bool) -> SessionView {
    let numbered = SessionView { next_sequence: following_sequence(v.next_sequence), ..v };
    if !preview_valid {
        numbered
    } else {
        match command {
            GameCommand::Launch { .. } => after_event(
                SessionView { touch_command_target: None, ..numbered },
                OnboardingEvent::FleetLaunched,
            ),
            GameCommand::TuneField { .. } => after_event(numbered, OnboardingEvent::FieldTuned),
        }
    }
}

/// `v` with its preferences marked for saving.
pub open spec fn to_save(v: SessionView) -> SessionView {
    SessionView { preferences_unsaved: true, ..v }
}

/// The guidance is skipped: a running one ends as if completed.
pub open spec fn guidance_skipped(v: SessionView) -> SessionView {
    match v.onboarding {
        Some(_) => {
            let done = to_save(
                SessionView {
                    onboarding: None,
                    preferences: UserPreferences { onboarding_completed: true, ..v.preferences },
                    ..v
                },
            );
            if done.game_speed == GameSpeed::Paused {
                with_speed(done, done.resume_speed)
            } else {
                done
            }
        },
        None => v,
    }
}

/// The guidance starts again from its first step with help hidden and the
/// game paused.
pub open spec fn guidance_reset(v: SessionView) -> SessionView {
    to_save(
        with_speed(
            SessionView {
                onboarding: Some(0nat),
                preferences: UserPreferences { onboarding_completed: false, ..v.preferences },
                help_visible: false,
                ..v
            },
            GameSpeed::Paused,
        ),
    )
}

/// The session after a settings-screen action; only the settings screen
/// takes them. A preference change is marked for saving.
pub open spec fn after_settings_action(v: SessionView, action: SettingsAction) -> SessionView {
    if v.mode != AppMode::Settings {
        v
    } else {
        match action {
            SettingsAction::SetUiScale(scale) => to_save(
                SessionView { preferences: UserPreferences { ui_scale: scale, ..v.preferences }, ..v },
            ),
            SettingsAction::SetMotion(motion) => to_save(
                SessionView { preferences: UserPreferences { motion, ..v.preferences }, ..v },
            ),
            SettingsAction::SetHighContrast(enabled) => to_save(
                SessionView {
                    preferences: UserPreferences { high_contrast: enabled, ..v.preferences },
                    ..v
                },
            ),
            SettingsAction::SetGraphicsQuality(quality) => to_save(
                SessionView {
                    preferences: UserPreferences { graphics_quality: quality, ..v.preferences },
                    ..v
                },
            ),
            SettingsAction::ResetOnboarding => to_save(
                with_speed(
                    SessionView {
                        onboarding: Some(0nat),
                        preferences: UserPreferences { onboarding_completed: false, ..v.preferences },
                        ..v
                    },
                    GameSpeed::Paused,
                ),
            ),
            SettingsAction::Close => settings_closed(v),
        }
    }
}

/// The player action a control stands for, where it stands for one.
pub open spec fn delegated_action(action: UiAction) -> Option<Action> {
    match action {
        UiAction::SpeedDown => Some(Action::SpeedDown),
        UiAction::TogglePause => Some(Action::Pause),
        UiAction::SpeedUp => Some(Action::SpeedUp),
        UiAction::ResetCamera => Some(Action::CameraReset),
        UiAction::OpenSettings => Some(Action::Settings),
        UiAction::ToggleHelp => Some(Action::Help),
        UiAction::OpenScenario => Some(Action::Scenario),
        UiAction::SelectField(FieldKind::Atmosphere) => Some(Action::Field1),
        UiAction::SelectField(FieldKind::Hydrosphere) => Some(Action::Field2),
        UiAction::SelectField(FieldKind::Topology) => Some(Action::Field3),
        UiAction::DecreaseField => Some(Action::Decrease),
        UiAction::IncreaseField => Some(Action::Increase),
        _ => None,
    }
}

/// The session after a control's action.
pub open spec fn after_ui_action(v: SessionView, action: UiAction) -> SessionView {
    match delegated_action(action) {
        Some(player_action) => after_action(v, player_action),
        None => match action {
            UiAction::ClearSelection => selection_cleared(v),
            UiAction::AcknowledgeAdvisory => after_event(v, OnboardingEvent::AdvisoryRead),
            UiAction::SkipOnboarding => guidance_skipped(v),
            UiAction::ResetOnboarding => guidance_reset(v),
            UiAction::Settings(settings_action) => after_settings_action(v, settings_action),
            _ => v,
        },
    }
}

/// What a control's action leaves the caller to do; the launch control
/// launches from the selected world at the command target.
pub open spec fn ui_action_outcome(v: SessionView, action: UiAction) -> ActionOutcome {
    match delegated_action(action) {
        Some(player_action) => action_outcome(v, player_action),
        None => match action {
            UiAction::Launch => match (v.selected_world, target_of(v)) {
                (Some(source), Some(destination)) => queue_outcome(
                    v,
                    GameCommand::Launch { source, destination },
                ),
                _ => ActionOutcome::Ignored,
            },
            UiAction::Settings(_) => if v.mode == AppMode::Settings {
                ActionOutcome::Applied
            } else {
                ActionOutcome::Ignored
            },
            _ => ActionOutcome::Applied,
        },
    }
}

/// `i` is the first position of `controls` holding `action`.
pub open spec fn is_first_position(controls: Seq<UiControl>, action: UiAction, i: int) -> bool {
    &&& 0 <= i < controls.len()
    &&& controls[i].action == action
    &&& forall|j: int| 0 <= j < i ==> controls[j].action != action
}

/// The first position of `controls` holding `action`, if any holds it.
pub open spec fn position_of(controls: Seq<UiControl>, action: UiAction) -> Option<int> {
    if exists|i: int| is_first_position(controls, action, i) {
        Some(choose|i: int| is_first_position(controls, action, i))
    } else {
        None
    }
}

/// Some enabled control of `controls` holds `action`.
pub open spec fn has_enabled(controls: Seq<UiControl>, action: UiAction) -> bool {
    exists|i: int| 0 <= i < controls.len() && controls[i].action == action && controls[i].enabled
}

/// Keyboard focus moves one control forward, or backward, wrapping around.
/// On the settings screen it moves among the settings controls; elsewhere
/// among `controls`, starting from the focused action's first position, or
/// from the edge the move enters from when nothing there is focused.
pub open spec fn focus_moved(v: SessionView, controls: Seq<UiControl>, backwards: bool) -> SessionView {
    if v.mode == AppMode::Settings {
        SessionView {
            settings_focus: if backwards {
                previous_focus(v.settings_focus as int) as nat
            } else {
                next_focus(v.settings_focus as int) as nat
            },
            ..v
        }
    } else if controls.len() == 0 {
        SessionView { ui_focus: None, ..v }
    } else {
        let count = controls.len() as int;
        let entry = if backwards {
            0
        } else {
            count - 1
        };
        let current = match v.ui_focus {
            Some(action) => match position_of(controls, action) {
                Some(i) => i,
                None => entry,
            },
            None => entry,
        };
        let next = if backwards {
            if current == 0 {
                count - 1
            } else {
                current - 1
            }
        } else {
            if current + 1 == count {
                0
            } else {
                current + 1
            }
        };
        SessionView { ui_focus: Some(controls[next].action), ..v }
    }
}

/// Focus goes to control `index`: a settings control (the last one for an
/// index past them), or a control of `controls` when it has that index.
pub open spec fn focus_placed(v: SessionView, controls: Seq<UiControl>, index: int) -> SessionView {
    if v.mode == AppMode::Settings {
        SessionView {
            settings_focus: if index < CONTROL_COUNT {
                index as nat
            } else {
                (CONTROL_COUNT - 1) as nat
            },
            ..v
        }
    } else if 0 <= index < controls.len() {
        SessionView { ui_focus: Some(controls[index].action), ..v }
    } else {
        v
    }
}

/// The position of the focused control: the settings focus on the settings
/// screen, else the first position holding the focused action.
pub open spec fn focus_position(v: SessionView, controls: Seq<UiControl>) -> Option<int> {
    if v.mode == AppMode::Settings {
        Some(v.settings_focus as int)
    } else {
        match v.ui_focus {
            Some(action) => position_of(controls, action),
            None => None,
        }
    }
}

/// The action activating the focused control carries out, if it is enabled.
pub open spec fn focused_activation(v: SessionView, controls: Seq<UiControl>) -> Option<UiAction> {
    if v.mode == AppMode::Settings {
        let index = v.settings_focus as int;
        if index < controls.len() && controls[index].enabled {
            Some(controls[index].action)
        } else {
            None
        }
    } else {
        match v.ui_focus {
            Some(action) => if has_enabled(controls, action) {
                Some(action)
            } else {
                None
            },
            None => None,
        }
    }
}

/// The session after activating the focused control: its action, or, when
/// the focused action has no enabled control, no focus.
pub open spec fn after_activation(v: SessionView, controls: Seq<UiControl>) -> SessionView {
    match focused_activation(v, controls) {
        Some(action) => after_ui_action(v, action),
        None => if v.mode != AppMode::Settings && v.ui_focus is Some {
            SessionView { ui_focus: None, ..v }
        } else {
            v
        },
    }
}

/// What activating the focused control leaves the caller to do.
pub open spec fn activation_outcome(v: SessionView, controls: Seq<UiControl>) -> ActionOutcome {
    match focused_activation(v, controls) {
        Some(action) => ui_action_outcome(v, action),
        None => ActionOutcome::Ignored,
    }
}

/// The session after the pointer moved over `picked` (no world when the
/// interface took the pointer). `launch_ok` is the simulation's verdict on a
/// launch from the selected world to the resulting command target; an
/// accepted one counts as a previewed launch.
pub open spec fn cursor_moved(v: SessionView, picked: Option<WorldId>, launch_ok: bool) -> SessionView {
    if v.mode != AppMode::Playing {
        v
    } else {
        let hovering = SessionView { hovered_world: picked, ..v };
        if hovering.selected_world is Some && target_of(hovering) is Some && launch_ok {
            after_event(hovering, OnboardingEvent::LaunchPreviewed)
        } else {
            hovering
        }
    }
}

/// The session after a tap on the scene over `target`. `target_union` says
/// the target is a Union world, `selected_union` that the selected world
/// is, and `launch_ok` is the simulation's verdict on a launch from the
/// selected world to the target.
///
/// A mouse click selects what it hit. A touch on empty space clears the
/// selection; on a Union world it selects it; on another world it aims the
/// selected Union world at it, or, with no Union world selected, only
/// hovers it.
pub open spec fn after_tap(
    v: SessionView,
    target: Option<WorldId>,
    touch: bool,
    target_union: bool,
    selected_union: bool,
    launch_ok: bool,
) -> SessionView {
    if v.mode != AppMode::Playing {
        v
    } else {
        let unfocused = SessionView { ui_focus: None, ..v };
        let chosen = SessionView {
            selected_world: target,
            hovered_world: target,
            touch_command_target: None,
            ..unfocused
        };
        if !touch {
            if target is Some && target_union {
                after_event(chosen, OnboardingEvent::UnionWorldSelected)
            } else {
                chosen
            }
        } else if target is None {
            selection_cleared(unfocused)
        } else if target_union {
            after_event(chosen, OnboardingEvent::UnionWorldSelected)
        } else if v.selected_world is Some && selected_union {
            let aimed = SessionView {
                hovered_world: target,
                touch_command_target: target,
                ..unfocused
            };
            if launch_ok {
                after_event(aimed, OnboardingEvent::LaunchPreviewed)
            } else {
                aimed
            }
        } else {
            SessionView {
                selected_world: None,
                hovered_world: target,
                touch_command_target: None,
                ..unfocused
            }
        }
    }
}

/// The session after a launch gesture released over `destination`: with a
/// selected source the destination is hovered and the touch target
/// forgotten.
pub open spec fn after_launch_pointer(v: SessionView, destination: Option<WorldId>) -> SessionView {
    if v.mode == AppMode::Playing && destination is Some && v.selected_world is Some {
        SessionView { hovered_world: destination, touch_command_target: None, ..v }
    } else {
        v
    }
}

/// What a launch gesture released over `destination` leaves the caller to
/// do: queue a launch from the selected world there.
pub open spec fn launch_pointer_outcome(v: SessionView, destination: Option<WorldId>) -> ActionOutcome {
    match (destination, v.selected_world) {
        (Some(destination), Some(source)) => queue_outcome(
            v,
            GameCommand::Launch { source, destination },
        ),
        _ => ActionOutcome::Ignored,
    }
}

/// Steps taken and the clock left after `rounds` frames of `nanos`
/// nanoseconds, each frame's steps taken before the next frame.
pub open spec fn run_rounds(clock: ClockView, nanos: nat, rounds: nat) -> (nat, ClockView)
    decreases rounds,
{
    if rounds == 0 {
        (0, clock)
    } else {
        let (steps, before) = run_rounds(clock, nanos, (rounds - 1) as nat);
        let pushed = after_frame(before, nanos);
        (steps + pushed.pending_steps, ClockView { pending_steps: 0, ..pushed })
    }
}

/// The interface scale after `scale` in the settings cycle, wrapping from
/// the largest to the smallest.
pub open spec fn next_scale(scale: UiScale) -> UiScale {
    match scale {
        UiScale::Percent85 => UiScale::Percent100,
        UiScale::Percent100 => UiScale::Percent115,
        UiScale::Percent115 => UiScale::Percent130,
        UiScale::Percent130 => UiScale::Percent85,
    }
}

/// The other motion preference.
pub open spec fn toggled_motion(motion: MotionPreference) -> MotionPreference {
    if motion != MotionPreference::Reduced {
        MotionPreference::Reduced
    } else {
        MotionPreference::Full
    }
}

/// A new session on `preferences`, with a clock at `tick_hz` steps a second.
pub open spec fn initial_session(preferences: UserPreferences, tick_hz: nat) -> SessionView {
    SessionView {
        mode: AppMode::Playing,
        preferences,
        clock: ClockView { tick_hz, remainder: 0, pending_steps: 0, max_steps: MAX_STEPS_PER_FRAME as nat },
        selected_world: None,
        hovered_world: None,
        touch_command_target: None,
        selected_field: FieldKind::Atmosphere,
        game_speed: if preferences.onboarding_completed {
            GameSpeed::Normal
        } else {
            GameSpeed::Paused
        },
        resume_speed: GameSpeed::Normal,
        help_visible: false,
        onboarding: if preferences.onboarding_completed {
            None
        } else {
            Some(0nat)
        },
        settings_focus: 0,
        ui_focus: None,
        next_sequence: 0,
        preferences_unsaved: false,
    }
}

/// Platform-neutral Classic session state. Campaign truth stays with the
/// caller's simulation; everything here is presentation or lifecycle state.
pub struct AppCore {
    mode: AppMode,
    preferences: UserPreferences,
    clock: FixedClock,
    selected_world: Option<WorldId>,
    hovered_world: Option<WorldId>,
    touch_command_target: Option<WorldId>,
    selected_field: FieldKind,
    game_speed: GameSpeed,
    resume_speed: GameSpeed,
    help_visible: bool,
    onboarding: OnboardingState,
    settings: SettingsState,
    ui_focus_action: Option<UiAction>,
    next_sequence: u64,
    preferences_unsaved: bool,
}

impl View for AppCore {
    type V = SessionView;

    closed spec fn view(&self) -> SessionView {
        SessionView {
            mode: self.mode,
            preferences: self.preferences,
            clock: self.clock@,
            selected_world: self.selected_world,
            hovered_world: self.hovered_world,
            touch_command_target: self.touch_command_target,
            selected_field: self.selected_field,
            game_speed: self.game_speed,
            resume_speed: self.resume_speed,
            help_visible: self.help_visible,
            onboarding: self.onboarding@,
            settings_focus: self.settings@,
            ui_focus: self.ui_focus_action,
            next_sequence: self.next_sequence,
            preferences_unsaved: self.preferences_unsaved,
        }
    }
}

impl AppCore {
    pub fn new(preferences: UserPreferences, tick_hz: u32) -> (core: Self)
        requires
            tick_hz > 0,
        ensures
            core@ == initial_session(preferences, tick_hz as nat),
            session_consistent(core@),
    {
        let onboarding = OnboardingState::new(preferences.onboarding_completed);
        let game_speed = if onboarding.active() {
            GameSpeed::Paused
        } else {
            GameSpeed::Normal
        };
        AppCore {
            mode: AppMode::Playing,
            preferences,
            clock: FixedClock::new(tick_hz, MAX_STEPS_PER_FRAME),
            selected_world: None,
            hovered_world: None,
            touch_command_target: None,
            selected_field: FieldKind::Atmosphere,
            game_speed,
            resume_speed: GameSpeed::Normal,
            help_visible: false,
            onboarding,
            settings: SettingsState::default(),
            ui_focus_action: None,
            next_sequence: 0,
            preferences_unsaved: false,
        }
    }

    pub fn mode(&self) -> (mode: AppMode)
        ensures
            mode == self@.mode,
    {
        self.mode
    }

    pub fn paused(&self) -> (paused: bool)
        ensures
            paused == (self@.game_speed == GameSpeed::Paused),
    {
        self.game_speed == GameSpeed::Paused
    }

    pub fn game_speed(&self) -> (speed: GameSpeed)
        ensures
            speed == self@.game_speed,
    {
        self.game_speed
    }

    /// Changes the game speed, except that a running guidance only lets the
    /// game pause; any change discards the clock's residual time.
    pub fn set_game_speed(&mut self, speed: GameSpeed)
        requires
            session_consistent(old(self)@),
        ensures
            final(self)@ == with_speed(old(self)@, speed),
            session_consistent(final(self)@),
    {
        if self.onboarding.active() && speed != GameSpeed::Paused {
            return;
        }
        if self.game_speed == speed {
            return;
        }
        self.game_speed = speed;
        if speed != GameSpeed::Paused {
            self.resume_speed = speed;
        }
        self.clock.clear();
    }

    pub fn help_visible(&self) -> (visible: bool)
        ensures
            visible == self@.help_visible,
    {
        self.help_visible
    }

    pub fn onboarding(&self) -> (onboarding: OnboardingState)
        ensures
            onboarding@ == self@.onboarding,
    {
        self.onboarding
    }

    pub fn onboarding_step(&self) -> (step: Option<OnboardingStep>)
        ensures
            step == (match self@.onboarding {
                Some(index) => Some(step_at(index as int)),
                None => None,
            }),
    {
        self.onboarding.step()
    }

    pub fn preferences(&self) -> (preferences: UserPreferences)
        ensures
            preferences == self@.preferences,
    {
        self.preferences
    }

    pub fn settings(&self) -> (settings: SettingsState)
        ensures
            settings@ == self@.settings_focus,
    {
        self.settings
    }

    pub fn selected_world(&self) -> (world: Option<WorldId>)
        ensures
            world == self@.selected_world,
    {
        self.selected_world
    }

    pub fn hovered_world(&self) -> (world: Option<WorldId>)
        ensures
            world == self@.hovered_world,
    {
        self.hovered_world
    }

    /// The world launches aim at: the hovered world, else the one a touch
    /// chose.
    pub fn command_target(&self) -> (world: Option<WorldId>)
        ensures
            world == target_of(self@),
    {
        match self.hovered_world {
            Some(world) => Some(world),
            None => self.touch_command_target,
        }
    }

    pub fn clear_hovered_world(&mut self)
        ensures
            final(self)@ == (SessionView { hovered_world: None, ..old(self)@ }),
    {
        self.hovered_world = None;
    }

    pub fn selected_field(&self) -> (field: FieldKind)
        ensures
            field == self@.selected_field,
    {
        self.selected_field
    }

    pub fn next_sequence(&self) -> (sequence: u64)
        ensures
            sequence == self@.next_sequence,
    {
        self.next_sequence
    }

    /// The control action holding keyboard focus outside the settings
    /// screen.
    pub fn ui_focus_action(&self) -> (action: Option<UiAction>)
        ensures
            action == self@.ui_focus,
    {
        self.ui_focus_action
    }

    pub fn view_state(&self) -> (view: ViewState)
        ensures
            view == (ViewState {
                selected_world: self@.selected_world,
                hovered_world: self@.hovered_world,
                selected_field: self@.selected_field,
                paused: self@.game_speed == GameSpeed::Paused,
                speed_multiplier: speed_multiplier(self@.game_speed),
                help_visible: self@.help_visible,
            }),
    {
        ViewState {
            selected_world: self.selected_world,
            hovered_world: self.hovered_world,
            selected_field: self.selected_field,
            paused: self.game_speed == GameSpeed::Paused,
            speed_multiplier: self.game_speed.multiplier(),
            help_visible: self.help_visible,
        }
    }

    /// The field adjustment the field controls would issue: tuning the
    /// selected field of the selected world.
    pub fn field_command(&self, adjustment: FieldAdjustment) -> (command: Option<GameCommand>)
        ensures
            command == (match self@.selected_world {
                Some(world) => Some(
                    GameCommand::TuneField { world, field: self@.selected_field, adjustment },
                ),
                None => None,
            }),
    {
        match self.selected_world {
            Some(world) => Some(GameCommand::TuneField { world, field: self.selected_field, adjustment }),
            None => None,
        }
    }

    /// Whether a field control is enabled, and its tooltip, given the
    /// simulation's `verdict` on the command [`Self::field_command`] gives.
    pub fn field_control_state(&self, adjustment: FieldAdjustment, verdict: Result<(), CommandRejection>) -> (state: (bool, &'static str))
        ensures
            match self@.selected_world {
                None => !state.0 && state.1@ == "Select a Union world"@,
                Some(_) => match verdict {
                    Ok(()) => state.0 && state.1@ == (match adjustment {
                        FieldAdjustment::Decrease => "Decrease selected field (Q)"@,
                        FieldAdjustment::Increase => "Increase selected field (E)"@,
                    }),
                    Err(rejection) => !state.0 && state.1@ == rejection_text(rejection),
                },
            },
    {
        if self.selected_world.is_none() {
            return (false, "Select a Union world");
        }
        match verdict {
            Ok(()) => (
                true,
                match adjustment {
                    FieldAdjustment::Decrease => "Decrease selected field (Q)",
                    FieldAdjustment::Increase => "Increase selected field (E)",
                },
            ),
            Err(rejection) => (false, command_rejection_label(rejection)),
        }
    }

    /// The preferences to save, once after each change.
    pub fn take_preferences_to_save(&mut self) -> (preferences: Option<UserPreferences>)
        ensures
            preferences == (if old(self)@.preferences_unsaved {
                Some(old(self)@.preferences)
            } else {
                None
            }),
            final(self)@ == (SessionView { preferences_unsaved: false, ..old(self)@ }),
    {
        if self.preferences_unsaved {
            self.preferences_unsaved = false;
            Some(self.preferences)
        } else {
            None
        }
    }

    pub fn open_settings(&mut self)
        requires
            session_consistent(old(self)@),
        ensures
            final(self)@ == settings_opened(old(self)@),
            session_consistent(final(self)@),
    {
        if self.mode != AppMode::Playing {
            return;
        }
        self.mode = AppMode::Settings;
        self.settings = SettingsState::default();
        self.ui_focus_action = None;
        self.clock.clear();
    }

    pub fn close_settings(&mut self)
        requires
            session_consistent(old(self)@),
        ensures
            final(self)@ == settings_closed(old(self)@),
            session_consistent(final(self)@),
    {
        if self.mode == AppMode::Settings {
            self.mode = AppMode::Playing;
            self.clock.clear();
        }
    }

    /// Enters the scenario editor; the caller opens it on the active
    /// scenario.
    pub fn open_editor(&mut self)
        requires
            session_consistent(old(self)@),
        ensures
            final(self)@ == editor_opened(old(self)@),
            session_consistent(final(self)@),
    {
        if self.mode == AppMode::EditingScenario {
            return;
        }
        self.mode = AppMode::EditingScenario;
        self.clock.clear();
    }

    /// Leaves the scenario editor for the game.
    pub fn close_editor(&mut self)
        requires
            session_consistent(old(self)@),
        ensures
            final(self)@ == editor_closed(old(self)@),
            session_consistent(final(self)@),
    {
        self.mode = AppMode::Playing;
        self.clock.clear();
    }

    fn clear_scene_selection(&mut self)
        ensures
            final(self)@ == selection_cleared(old(self)@),
    {
        self.selected_world = None;
        self.hovered_world = None;
        self.touch_command_target = None;
        self.ui_focus_action = None;
    }

    fn reset_session_after_restart(&mut self)
        requires
            session_consistent(old(self)@),
        ensures
            final(self)@ == restarted(old(self)@),
            session_consistent(final(self)@),
    {
        self.selected_world = None;
        self.hovered_world = None;
        self.touch_command_target = None;
        self.selected_field = FieldKind::Atmosphere;
        self.game_speed = if self.onboarding.active() {
            GameSpeed::Paused
        } else {
            GameSpeed::Normal
        };
        self.resume_speed = GameSpeed::Normal;
        self.help_visible = false;
        self.ui_focus_action = None;
        self.next_sequence = 0;
        self.clock.clear();
    }

    /// Restarts the session on the active scenario; the caller rebuilds the
    /// simulation and schedules a restart advisory.
    pub fn restart_active_scenario(&mut self)
        requires
            session_consistent(old(self)@),
        ensures
            final(self)@ == restarted(old(self)@),
            session_consistent(final(self)@),
    {
        self.reset_session_after_restart();
    }

    /// Restarts the session on a newly validated scenario whose rules run
    /// at `tick_hz` steps a second, leaving the editor for the game.
    pub fn apply_validated_scenario(&mut self, tick_hz: u32)
        requires
            session_consistent(old(self)@),
            tick_hz > 0,
        ensures
            final(self)@ == (SessionView {
                mode: AppMode::Playing,
                clock: ClockView {
                    tick_hz: tick_hz as nat,
                    remainder: 0,
                    pending_steps: 0,
                    max_steps: MAX_STEPS_PER_FRAME as nat,
                },
                ..restarted(old(self)@)
            }),
            session_consistent(final(self)@),
    {
        self.clock = FixedClock::new(tick_hz, MAX_STEPS_PER_FRAME);
        self.reset_session_after_restart();
        self.mode = AppMode::Playing;
    }

    /// How `command` is queued: under the next sequence number, while the
    /// game runs.
    pub fn queue_game_command(&self, command: GameCommand) -> (outcome: ActionOutcome)
        ensures
            outcome == queue_outcome(self@, command),
    {
        if self.mode != AppMode::Playing {
            return ActionOutcome::Ignored;
        }
        ActionOutcome::Queue { sequence: self.next_sequence, command }
    }

    /// Records that the simulation accepted `command`, which previewed as
    /// valid when `preview_valid` holds.
    pub fn command_enqueued(&mut self, command: GameCommand, preview_valid: bool)
        requires
            session_consistent(old(self)@),
        ensures
            final(self)@ == after_enqueued(old(self)@, command, preview_valid),
            session_consistent(final(self)@),
    {
        self.next_sequence = if self.next_sequence == u64::MAX {
            0
        } else {
            self.next_sequence + 1
        };
        if preview_valid {
            match command {
                GameCommand::Launch { .. } => {
                    self.touch_command_target = None;
                    self.observe_onboarding(OnboardingEvent::FleetLaunched);
                },
                GameCommand::TuneField { .. } => {
                    self.observe_onboarding(OnboardingEvent::FieldTuned);
                },
            }
        }
    }

    /// Carries out a player action while the game runs.
    pub fn handle_action(&mut self, action: Action) -> (outcome: ActionOutcome)
        requires
            session_consistent(old(self)@),
        ensures
            final(self)@ == after_action(old(self)@, action),
            outcome == action_outcome(old(self)@, action),
            session_consistent(final(self)@),
    {
        if self.mode != AppMode::Playing {
            return ActionOutcome::Ignored;
        }
        match action {
            Action::Field1 => {
                self.selected_field = FieldKind::Atmosphere;
            },
            Action::Field2 => {
                self.selected_field = FieldKind::Hydrosphere;
            },
            Action::Field3 => {
                self.selected_field = FieldKind::Topology;
            },
            Action::Pause => {
                if self.game_speed == GameSpeed::Paused {
                    let resume = self.resume_speed;
                    self.set_game_speed(resume);
                } else {
                    self.set_game_speed(GameSpeed::Paused);
                }
            },
            Action::SpeedDown => {
                let speed = self.game_speed.slower();
                self.set_game_speed(speed);
            },
            Action::SpeedUp => {
                let speed = self.game_speed.faster();
                self.set_game_speed(speed);
            },
            Action::CameraReset => {
                return ActionOutcome::ResetCamera;
            },
            Action::Settings => {
                self.open_settings();
            },
            Action::Restart => {
                self.restart_active_scenario();
                return ActionOutcome::Restart;
            },
            Action::Help => {
                self.help_visible = !self.help_visible;
            },
            Action::Cancel => {
                self.clear_scene_selection();
            },
            Action::Scenario => {
                self.observe_onboarding(OnboardingEvent::ScenarioEditorOpened);
                self.open_editor();
                return ActionOutcome::OpenEditor;
            },
            Action::Decrease | Action::Increase | Action::Launch => {
                let command = match game_command_for_action(
                    action,
                    self.selected_world,
                    self.hovered_world,
                    self.selected_field,
                ) {
                    Some(command) => command,
                    None => return ActionOutcome::Ignored,
                };
                return self.queue_game_command(command);
            },
        }
        ActionOutcome::Applied
    }

    /// Carries out a settings-screen action, reporting whether the settings
    /// screen took it.
    pub fn handle_settings_action(&mut self, action: SettingsAction) -> (handled: bool)
        requires
            session_consistent(old(self)@),
        ensures
            handled == (old(self)@.mode == AppMode::Settings),
            final(self)@ == after_settings_action(old(self)@, action),
            session_consistent(final(self)@),
    {
        if self.mode != AppMode::Settings {
            return false;
        }
        match action {
            SettingsAction::SetUiScale(scale) => {
                self.preferences.ui_scale = scale;
            },
            SettingsAction::SetMotion(motion) => {
                self.preferences.motion = motion;
            },
            SettingsAction::SetHighContrast(enabled) => {
                self.preferences.high_contrast = enabled;
            },
            SettingsAction::SetGraphicsQuality(quality) => {
                self.preferences.graphics_quality = quality;
            },
            SettingsAction::ResetOnboarding => {
                self.set_game_speed(GameSpeed::Paused);
                self.preferences.onboarding_completed = false;
                self.onboarding.reset();
            },
            SettingsAction::Close => {
                self.close_settings();
                return true;
            },
        }
        self.preferences_unsaved = true;
        true
    }

    /// The settings screen's scale control: the next scale of the cycle.
    pub fn cycle_ui_scale(&mut self) -> (handled: bool)
        requires
            session_consistent(old(self)@),
        ensures
            handled == (old(self)@.mode == AppMode::Settings),
            final(self)@ == after_settings_action(
                old(self)@,
                SettingsAction::SetUiScale(next_scale(old(self)@.preferences.ui_scale)),
            ),
            session_consistent(final(self)@),
    {
        let next = match self.preferences.ui_scale {
            UiScale::Percent85 => UiScale::Percent100,
            UiScale::Percent100 => UiScale::Percent115,
            UiScale::Percent115 => UiScale::Percent130,
            UiScale::Percent130 => UiScale::Percent85,
        };
        self.handle_settings_action(SettingsAction::SetUiScale(next))
    }

    /// The settings screen's motion control: switches between full and
    /// reduced motion.
    pub fn toggle_reduced_motion(&mut self) -> (handled: bool)
        requires
            session_consistent(old(self)@),
        ensures
            handled == (old(self)@.mode == AppMode::Settings),
            final(self)@ == after_settings_action(
                old(self)@,
                SettingsAction::SetMotion(toggled_motion(old(self)@.preferences.motion)),
            ),
            session_consistent(final(self)@),
    {
        let motion = if self.preferences.motion != MotionPreference::Reduced {
            MotionPreference::Reduced
        } else {
            MotionPreference::Full
        };
        self.handle_settings_action(SettingsAction::SetMotion(motion))
    }

    /// The settings screen's contrast control: switches high contrast.
    pub fn toggle_high_contrast(&mut self) -> (handled: bool)
        requires
            session_consistent(old(self)@),
        ensures
            handled == (old(self)@.mode == AppMode::Settings),
            final(self)@ == after_settings_action(
                old(self)@,
                SettingsAction::SetHighContrast(!old(self)@.preferences.high_contrast),
            ),
            session_consistent(final(self)@),
    {
        let enabled = !self.preferences.high_contrast;
        self.handle_settings_action(SettingsAction::SetHighContrast(enabled))
    }

    /// Ends a running guidance as if it were completed.
    pub fn skip_onboarding(&mut self)
        requires
            session_consistent(old(self)@),
        ensures
            final(self)@ == guidance_skipped(old(self)@),
            session_consistent(final(self)@),
    {
        if self.onboarding.skip() {
            self.preferences.onboarding_completed = true;
            self.preferences_unsaved = true;
            if self.game_speed == GameSpeed::Paused {
                let resume = self.resume_speed;
                self.set_game_speed(resume);
            }
        }
    }

    /// Starts the guidance again from its first step.
    pub fn reset_onboarding(&mut self)
        requires
            session_consistent(old(self)@),
        ensures
            final(self)@ == guidance_reset(old(self)@),
            session_consistent(final(self)@),
    {
        self.set_game_speed(GameSpeed::Paused);
        self.onboarding.reset();
        self.preferences.onboarding_completed = false;
        self.help_visible = false;
        self.preferences_unsaved = true;
    }

    /// Carries out a control's action.
    pub fn handle_ui_action(&mut self, action: UiAction) -> (outcome: ActionOutcome)
        requires
            session_consistent(old(self)@),
        ensures
            final(self)@ == after_ui_action(old(self)@, action),
            outcome == ui_action_outcome(old(self)@, action),
            session_consistent(final(self)@),
    {
        match action {
            UiAction::Launch => {
                let source = match self.selected_world {
                    Some(world) => world,
                    None => return ActionOutcome::Ignored,
                };
                let destination = match self.command_target() {
                    Some(world) => world,
                    None => return ActionOutcome::Ignored,
                };
                self.queue_game_command(GameCommand::Launch { source, destination })
            },
            UiAction::ClearSelection => {
                self.clear_scene_selection();
                ActionOutcome::Applied
            },
            UiAction::SpeedDown => self.handle_action(Action::SpeedDown),
            UiAction::TogglePause => self.handle_action(Action::Pause),
            UiAction::SpeedUp => self.handle_action(Action::SpeedUp),
            UiAction::ResetCamera => self.handle_action(Action::CameraReset),
            UiAction::OpenSettings => self.handle_action(Action::Settings),
            UiAction::ToggleHelp => self.handle_action(Action::Help),
            UiAction::OpenScenario => self.handle_action(Action::Scenario),
            UiAction::AcknowledgeAdvisory => {
                self.observe_onboarding(OnboardingEvent::AdvisoryRead);
                ActionOutcome::Applied
            },
            UiAction::SkipOnboarding => {
                self.skip_onboarding();
                ActionOutcome::Applied
            },
            UiAction::ResetOnboarding => {
                self.reset_onboarding();
                ActionOutcome::Applied
            },
            UiAction::SelectField(field) => self.handle_action(
                match field {
                    FieldKind::Atmosphere => Action::Field1,
                    FieldKind::Hydrosphere => Action::Field2,
                    FieldKind::Topology => Action::Field3,
                },
            ),
            UiAction::DecreaseField => self.handle_action(Action::Decrease),
            UiAction::IncreaseField => self.handle_action(Action::Increase),
            UiAction::Settings(settings_action) => {
                if self.handle_settings_action(settings_action) {
                    ActionOutcome::Applied
                } else {
                    ActionOutcome::Ignored
                }
            },
        }
    }

    /// Outside the settings screen, drops keyboard focus.
    pub fn clear_ui_focus(&mut self)
        ensures
            final(self)@ == (if old(self)@.mode == AppMode::Playing {
                SessionView { ui_focus: None, ..old(self)@ }
            } else {
                old(self)@
            }),
    {
        if self.mode == AppMode::Playing {
            self.ui_focus_action = None;
        }
    }

    /// Moves keyboard focus over the current frame's `controls`.
    pub fn focus_ui_next(&mut self, backwards: bool, controls: &Vec<UiControl>)
        requires
            session_consistent(old(self)@),
        ensures
            final(self)@ == focus_moved(old(self)@, controls@, backwards),
            session_consistent(final(self)@),
    {
        if self.mode == AppMode::Settings {
            if backwards {
                self.settings.focus_previous();
            } else {
                self.settings.focus_next();
            }
            return;
        }
        let count = controls.len();
        if count == 0 {
            self.ui_focus_action = None;
            return;
        }
        let entry: usize = if backwards {
            0
        } else {
            count - 1
        };
        let current: usize = match self.ui_focus_action {
            Some(action) => match find_control(controls, action) {
                Some(i) => i,
                None => entry,
            },
            None => entry,
        };
        let next: usize = if backwards {
            if current == 0 {
                count - 1
            } else {
                current - 1
            }
        } else {
            if current + 1 == count {
                0
            } else {
                current + 1
            }
        };
        self.ui_focus_action = Some(controls[next].action);
    }

    /// Focuses control `index` of the settings screen or of `controls`.
    pub fn focus_ui(&mut self, index: usize, controls: &Vec<UiControl>)
        requires
            session_consistent(old(self)@),
        ensures
            final(self)@ == focus_placed(old(self)@, controls@, index as int),
            session_consistent(final(self)@),
    {
        if self.mode == AppMode::Settings {
            self.settings.focus(index);
        } else if index < controls.len() {
            self.ui_focus_action = Some(controls[index].action);
        }
    }

    /// The position of the focused control among `controls`.
    pub fn ui_focus_index(&self, controls: &Vec<UiControl>) -> (index: Option<usize>)
        requires
            session_consistent(self@),
        ensures
            match index {
                Some(i) => focus_position(self@, controls@) == Some(i as int),
                None => focus_position(self@, controls@) is None,
            },
    {
        if self.mode == AppMode::Settings {
            return Some(self.settings.focus_index());
        }
        match self.ui_focus_action {
            Some(action) => find_control(controls, action),
            None => None,
        }
    }

    /// The action of the focused control of `controls`, if one is focused.
    pub fn focused_control(&self, controls: &Vec<UiControl>) -> (action: Option<UiAction>)
        requires
            session_consistent(self@),
        ensures
            action == (match focus_position(self@, controls@) {
                Some(i) => if i < controls@.len() {
                    Some(controls@[i].action)
                } else {
                    None
                },
                None => None,
            }),
    {
        match self.ui_focus_index(controls) {
            Some(index) => if index < controls.len() {
                Some(controls[index].action)
            } else {
                None
            },
            None => None,
        }
    }

    /// Activates the focused control of `controls`, when it is enabled.
    pub fn activate_focused_ui(&mut self, controls: &Vec<UiControl>) -> (outcome: ActionOutcome)
        requires
            session_consistent(old(self)@),
        ensures
            final(self)@ == after_activation(old(self)@, controls@),
            outcome == activation_outcome(old(self)@, controls@),
            session_consistent(final(self)@),
    {
        if self.mode == AppMode::Settings {
            let index = self.settings.focus_index();
            if index < controls.len() && controls[index].enabled {
                let action = controls[index].action;
                return self.handle_ui_action(action);
            }
            return ActionOutcome::Ignored;
        }
        let action = match self.ui_focus_action {
            Some(action) => action,
            None => return ActionOutcome::Ignored,
        };
        if find_enabled(controls, action) {
            self.handle_ui_action(action)
        } else {
            self.ui_focus_action = None;
            ActionOutcome::Ignored
        }
    }

    /// Selects the world under the pointer, `picked`, unless the interface
    /// took the pointer; reports whether it did.
    pub fn select_scene_world(&mut self, picked: Option<WorldId>, hud_consumed: bool) -> (selected: bool)
        ensures
            selected == (old(self)@.mode == AppMode::Playing && !hud_consumed),
            final(self)@ == (if selected {
                SessionView {
                    selected_world: picked,
                    touch_command_target: None,
                    ui_focus: None,
                    ..old(self)@
                }
            } else {
                old(self)@
            }),
    {
        if self.mode != AppMode::Playing || hud_consumed {
            return false;
        }
        self.selected_world = picked;
        self.touch_command_target = None;
        self.ui_focus_action = None;
        true
    }

    /// Hovers the world under the pointer, `picked`, while the game runs.
    pub fn hover_scene_world(&mut self, picked: Option<WorldId>)
        ensures
            final(self)@ == (if old(self)@.mode == AppMode::Playing {
                SessionView { hovered_world: picked, ..old(self)@ }
            } else {
                old(self)@
            }),
    {
        if self.mode == AppMode::Playing {
            self.hovered_world = picked;
        }
    }

    /// The pointer moved over `picked`; see [`cursor_moved`].
    pub fn set_scene_cursor(&mut self, picked: Option<WorldId>, launch_ok: bool)
        requires
            session_consistent(old(self)@),
        ensures
            final(self)@ == cursor_moved(old(self)@, picked, launch_ok),
            session_consistent(final(self)@),
    {
        if self.mode == AppMode::Playing {
            self.hovered_world = picked;
            if self.selected_world.is_some() && self.command_target().is_some() && launch_ok {
                self.observe_onboarding(OnboardingEvent::LaunchPreviewed);
            }
        }
    }

    /// A tap on the scene over `target`; see [`after_tap`]. Reports whether
    /// the game took it.
    pub fn handle_scene_tap(
        &mut self,
        target: Option<WorldId>,
        touch: bool,
        target_union: bool,
        selected_union: bool,
        launch_ok: bool,
    ) -> (handled: bool)
        requires
            session_consistent(old(self)@),
        ensures
            handled == (old(self)@.mode == AppMode::Playing),
            final(self)@ == after_tap(old(self)@, target, touch, target_union, selected_union, launch_ok),
            session_consistent(final(self)@),
    {
        if self.mode != AppMode::Playing {
            return false;
        }
        self.ui_focus_action = None;
        if touch {
            if target.is_none() {
                self.clear_scene_selection();
                return true;
            }
            if target_union {
                self.selected_world = target;
                self.hovered_world = target;
                self.touch_command_target = None;
                self.observe_onboarding(OnboardingEvent::UnionWorldSelected);
                return true;
            }
            if self.selected_world.is_some() && selected_union {
                self.hovered_world = target;
                self.touch_command_target = target;
                if launch_ok {
                    self.observe_onboarding(OnboardingEvent::LaunchPreviewed);
                }
                return true;
            }
            self.selected_world = None;
            self.hovered_world = target;
            self.touch_command_target = None;
            return true;
        }
        self.selected_world = target;
        self.hovered_world = target;
        self.touch_command_target = None;
        if target.is_some() && target_union {
            self.observe_onboarding(OnboardingEvent::UnionWorldSelected);
        }
        true
    }

    /// A launch gesture released over `destination`.
    pub fn handle_scene_launch_pointer(&mut self, destination: Option<WorldId>) -> (outcome: ActionOutcome)
        requires
            session_consistent(old(self)@),
        ensures
            final(self)@ == after_launch_pointer(old(self)@, destination),
            outcome == (if old(self)@.mode == AppMode::Playing {
                launch_pointer_outcome(final(self)@, destination)
            } else {
                ActionOutcome::Ignored
            }),
            session_consistent(final(self)@),
    {
        if self.mode != AppMode::Playing {
            return ActionOutcome::Ignored;
        }
        let destination = match destination {
            Some(world) => world,
            None => return ActionOutcome::Ignored,
        };
        let source = match self.selected_world {
            Some(world) => world,
            None => return ActionOutcome::Ignored,
        };
        self.hovered_world = Some(destination);
        self.touch_command_target = None;
        self.queue_game_command(GameCommand::Launch { source, destination })
    }

    /// Advances the clock by a frame of `delta` at the game speed and
    /// reports how many simulation steps the caller runs: none while the
    /// game is paused or another screen is up, which also discards residual
    /// time.
    pub fn advance(&mut self, delta: Duration) -> (steps: u32)
        requires
            session_consistent(old(self)@),
        ensures
            session_consistent(final(self)@),
            if old(self)@.mode != AppMode::Playing || old(self)@.game_speed == GameSpeed::Paused {
                steps == 0 && final(self)@ == (SessionView { clock: cleared(old(self)@.clock), ..old(self)@ })
            } else {
                let (taken, clock) = run_rounds(
                    old(self)@.clock,
                    duration_nanos(delta) as nat,
                    speed_multiplier(old(self)@.game_speed) as nat,
                );
                steps == taken && final(self)@ == (SessionView { clock, ..old(self)@ })
            },
    {
        if self.mode != AppMode::Playing || self.game_speed == GameSpeed::Paused {
            self.clock.clear();
            return 0;
        }
        let rounds = self.game_speed.multiplier();
        let ghost start = self@;
        let mut steps: u32 = 0;
        let mut round: u8 = 0;
        while round < rounds
            invariant
                round <= rounds,
                rounds == speed_multiplier(start.game_speed),
                rounds <= 4,
                steps <= round as nat * MAX_STEPS_PER_FRAME,
                self@ == (SessionView { clock: self@.clock, ..start }),
                (steps as nat, self@.clock) == run_rounds(start.clock, duration_nanos(delta) as nat, round as nat),
                self@.clock.pending_steps == 0,
                self@.clock.max_steps == MAX_STEPS_PER_FRAME,
                self@.clock.tick_hz > 0,
                self@.clock.remainder < NANOS_PER_SECOND,
            decreases rounds - round,
        {
            self.clock.push_frame(delta);
            let ghost pushed = self.clock@;
            let ghost base = steps;
            loop
                invariant
                    self@ == (SessionView { clock: self@.clock, ..start }),
                    self@.clock == (ClockView { pending_steps: self@.clock.pending_steps, ..pushed }),
                    pushed.pending_steps <= MAX_STEPS_PER_FRAME,
                    self@.clock.pending_steps <= pushed.pending_steps,
                    steps == base + (pushed.pending_steps - self@.clock.pending_steps),
                    base <= round as nat * MAX_STEPS_PER_FRAME,
                    round < rounds,
                    rounds <= 4,
                ensures
                    self@ == (SessionView { clock: self@.clock, ..start }),
                    self@.clock == (ClockView { pending_steps: 0, ..pushed }),
                    steps == base + pushed.pending_steps,
                decreases self@.clock.pending_steps,
            {
                if !self.clock.take_step() {
                    break;
                }
                steps = steps + 1;
            }
            round = round + 1;
        }
        steps
    }

    /// The window was suspended: residual time is discarded.
    pub fn on_suspend(&mut self)
        requires
            session_consistent(old(self)@),
        ensures
            final(self)@ == (SessionView { clock: cleared(old(self)@.clock), ..old(self)@ }),
            session_consistent(final(self)@),
    {
        self.clock.clear();
    }

    /// The window resumed: residual time is discarded.
    pub fn on_resume(&mut self)
        requires
            session_consistent(old(self)@),
        ensures
            final(self)@ == (SessionView { clock: cleared(old(self)@.clock), ..old(self)@ }),
            session_consistent(final(self)@),
    {
        self.clock.clear();
    }

    fn observe_onboarding(&mut self, event: OnboardingEvent)
        requires
            session_consistent(old(self)@),
        ensures
            final(self)@ == after_event(old(self)@, event),
            session_consistent(final(self)@),
    {
        if self.onboarding.observe(event) {
            self.preferences.onboarding_completed = true;
            self.preferences_unsaved = true;
            if self.game_speed == GameSpeed::Paused {
                let resume = self.resume_speed;
                self.set_game_speed(resume);
            }
        }
    }
}

/// While the guidance runs the game stays paused: no speed request starts
/// it, and every request keeps the session consistent.
pub proof fn lemma_guidance_holds_the_game(v: SessionView, speed: GameSpeed)
    requires
        session_consistent(v),
    ensures
        session_consistent(with_speed(v, speed)),
        v.onboarding is Some ==> with_speed(v, speed).game_speed == GameSpeed::Paused,
{
}

/// Each field control selects its own field and changes nothing else: in a
/// running game the selected field afterwards is the one the control names,
/// whatever was selected before; outside play the control does nothing.
/// So the three field controls select three different fields.
pub proof fn lemma_field_controls_select_their_field(v: SessionView, field: FieldKind, other: FieldKind)
    ensures
        after_ui_action(v, UiAction::SelectField(field)) == (if v.mode == AppMode::Playing {
            SessionView { selected_field: field, ..v }
        } else {
            v
        }),
        v.mode == AppMode::Playing && field != other ==> after_ui_action(
            v,
            UiAction::SelectField(field),
        ).selected_field != after_ui_action(v, UiAction::SelectField(other)).selected_field,
{
}

/// The speed controls move the game the way they say: the faster control
/// never slows it and the slower never speeds it up; without the guidance
/// each changes the speed unless it is already at its end of the range; and
/// the pause control stops a running game.
pub proof fn lemma_speed_controls_move_the_way_they_say(v: SessionView)
    requires
        v.mode == AppMode::Playing,
    ensures
        speed_multiplier(after_ui_action(v, UiAction::SpeedUp).game_speed) >= speed_multiplier(v.game_speed),
        speed_multiplier(after_ui_action(v, UiAction::SpeedDown).game_speed) <= speed_multiplier(
            v.game_speed,
        ),
        v.onboarding is None && v.game_speed != GameSpeed::VeryFast ==> speed_multiplier(
            after_ui_action(v, UiAction::SpeedUp).game_speed,
        ) > speed_multiplier(v.game_speed),
        v.onboarding is None && v.game_speed != GameSpeed::Paused ==> speed_multiplier(
            after_ui_action(v, UiAction::SpeedDown).game_speed,
        ) < speed_multiplier(v.game_speed),
        v.game_speed != GameSpeed::Paused ==> after_ui_action(v, UiAction::TogglePause).game_speed
            == GameSpeed::Paused,
{
}

/// Toggling pause twice restores the speed the game had and the speed it
/// resumes to.
pub proof fn lemma_pause_toggle_restores_speed(v: SessionView)
    requires
        session_consistent(v),
        v.mode == AppMode::Playing,
    ensures
        after_action(after_action(v, Action::Pause), Action::Pause).game_speed == v.game_speed,
        after_action(after_action(v, Action::Pause), Action::Pause).resume_speed == v.resume_speed,
{
}

/// Every change of speed discards the clock's residual time.
pub proof fn lemma_speed_changes_discard_residual_time(v: SessionView, speed: GameSpeed)
    ensures
        with_speed(v, speed).game_speed != v.game_speed ==> {
            &&& with_speed(v, speed).clock.remainder == 0
            &&& with_speed(v, speed).clock.pending_steps == 0
        },
{
}

/// Skipping a running guidance resumes the same match: the game runs again
/// at the speed it would resume to, while the selection, the field and the
/// command numbering are kept; completion is recorded for saving.
pub proof fn lemma_skip_resumes_the_same_match(v: SessionView)
    requires
        session_consistent(v),
        v.onboarding is Some,
    ensures
        guidance_skipped(v).onboarding is None,
        guidance_skipped(v).game_speed == v.resume_speed,
        guidance_skipped(v).selected_world == v.selected_world,
        guidance_skipped(v).hovered_world == v.hovered_world,
        guidance_skipped(v).selected_field == v.selected_field,
        guidance_skipped(v).next_sequence == v.next_sequence,
        guidance_skipped(v).preferences.onboarding_completed,
        guidance_skipped(v).preferences_unsaved,
        session_consistent(guidance_skipped(v)),
{
}

/// Resetting the guidance from the settings screen restarts the tutorial
/// from its first step with the game paused.
pub proof fn lemma_reset_guidance_restarts_the_tutorial(v: SessionView)
    requires
        session_consistent(v),
        v.mode == AppMode::Settings,
    ensures
        after_settings_action(v, SettingsAction::ResetOnboarding).onboarding == Some(0nat),
        after_settings_action(v, SettingsAction::ResetOnboarding).game_speed == GameSpeed::Paused,
        !after_settings_action(v, SettingsAction::ResetOnboarding).preferences.onboarding_completed,
        after_settings_action(v, SettingsAction::ResetOnboarding).preferences_unsaved,
        session_consistent(after_settings_action(v, SettingsAction::ResetOnboarding)),
{
}

/// A tap on the scene never launches: it issues no command and leaves the
/// command numbering as it was.
pub proof fn lemma_taps_never_launch(
    v: SessionView,
    target: Option<WorldId>,
    touch: bool,
    target_union: bool,
    selected_union: bool,
    launch_ok: bool,
)
    ensures
        after_tap(v, target, touch, target_union, selected_union, launch_ok).next_sequence
            == v.next_sequence,
{
}

/// Opening the settings screen over a running game and closing it returns
/// to the same game, with the speed, the selection and the guidance kept.
pub proof fn lemma_settings_round_trip(v: SessionView)
    requires
        session_consistent(v),
        v.mode == AppMode::Playing,
    ensures
        settings_closed(settings_opened(v)) == (SessionView {
            settings_focus: 0,
            ui_focus: None,
            clock: cleared(v.clock),
            ..v
        }),
{
}

/// A restart forgets the session's selection and numbering, keeps the
/// guidance where it stands, and pauses exactly while it runs.
pub proof fn lemma_restart_forgets_the_session(v: SessionView)
    requires
        session_consistent(v),
    ensures
        restarted(v).selected_world is None,
        restarted(v).hovered_world is None,
        restarted(v).touch_command_target is None,
        restarted(v).next_sequence == 0,
        restarted(v).onboarding == v.onboarding,
        (restarted(v).game_speed == GameSpeed::Paused) == (v.onboarding is Some),
        session_consistent(restarted(v)),
{
}

/// Paused or behind another screen, a frame runs no step of the
/// simulation; running, a frame runs at most the clock's limit per speed
/// step.
pub proof fn lemma_frames_bound_the_steps(clock: ClockView, nanos: nat, rounds: nat)
    requires
        clock.pending_steps == 0,
        clock.remainder < NANOS_PER_SECOND,
    ensures
        run_rounds(clock, nanos, rounds).0 <= rounds * clock.max_steps,
        run_rounds(clock, nanos, rounds).1.pending_steps == 0,
        run_rounds(clock, nanos, rounds).1.remainder < NANOS_PER_SECOND,
        run_rounds(clock, nanos, rounds).1.max_steps == clock.max_steps,
        run_rounds(clock, nanos, 0).0 == 0,
    decreases rounds,
{
    if rounds > 0 {
        lemma_frames_bound_the_steps(clock, nanos, (rounds - 1) as nat);
        let before = run_rounds(clock, nanos, (rounds - 1) as nat).1;
        assert(after_frame(before, nanos).pending_steps <= clock.max_steps);
        assert((rounds - 1) * clock.max_steps + clock.max_steps == rounds * clock.max_steps) by (nonlinear_arith);
    }
}

/// Four steps of the scale control return to the scale it started from,
/// passing through every scale once; two steps of the motion control
/// return to the motion it started from.
pub proof fn lemma_preference_controls_cycle(scale: UiScale, motion: MotionPreference)
    ensures
        next_scale(next_scale(next_scale(next_scale(scale)))) == scale,
        next_scale(scale) != scale,
        next_scale(next_scale(scale)) != scale,
        next_scale(next_scale(next_scale(scale))) != scale,
        toggled_motion(toggled_motion(motion)) == motion,
        toggled_motion(motion) != motion,
{
}

/// The first position of `controls` holding `action`.
fn find_control(controls: &Vec<UiControl>, action: UiAction) -> (position: Option<usize>)
    ensures
        match position {
            Some(i) => position_of(controls@, action) == Some(i as int),
            None => position_of(controls@, action) is None,
        },
{
    let mut i: usize = 0;
    while i < controls.len()
        invariant
            i <= controls.len(),
            forall|j: int| 0 <= j < i ==> controls@[j].action != action,
        decreases controls.len() - i,
    {
        if controls[i].action == action {
            proof {
                assert(is_first_position(controls@, action, i as int));
                let c = choose|k: int| is_first_position(controls@, action, k);
                assert(is_first_position(controls@, action, c));
                if c < i {
                    assert(controls@[c].action != action);
                } else if c > i {
                    assert(controls@[i as int].action != action);
                }
            }
            return Some(i);
        }
        i = i + 1;
    }
    proof {
        assert forall|k: int| !is_first_position(controls@, action, k) by {
            if 0 <= k < controls.len() {
                assert(controls@[k].action != action);
            }
        }
    }
    None
}

/// Whether an enabled control of `controls` holds `action`.
fn find_enabled(controls: &Vec<UiControl>, action: UiAction) -> (found: bool)
    ensures
        found == has_enabled(controls@, action),
{
    let mut i: usize = 0;
    while i < controls.len()
        invariant
            i <= controls.len(),
            forall|j: int| 0 <= j < i ==> !(controls@[j].action == action && controls@[j].enabled),
        decreases controls.len() - i,
    {
        if controls[i].action == action && controls[i].enabled {
            return true;
        }
        i = i + 1;
    }
    false
}

} // verus!
