use nyon::onboarding::{OnboardingEvent, OnboardingState, OnboardingStep};
use nyon::settings::{CONTROL_COUNT, SettingsState};

#[test]
fn guidance_advances_only_from_the_expected_observed_action() {
    let mut state = OnboardingState::new(false);
    assert_eq!(state.step(), Some(OnboardingStep::SelectUnionWorld));
    assert!(!state.observe(OnboardingEvent::FleetLaunched));
    assert_eq!(state.step(), Some(OnboardingStep::SelectUnionWorld));

    for event in [
        OnboardingEvent::UnionWorldSelected,
        OnboardingEvent::LaunchPreviewed,
        OnboardingEvent::FleetLaunched,
        OnboardingEvent::FieldTuned,
        OnboardingEvent::AdvisoryRead,
    ] {
        assert!(!state.observe(event));
    }
    assert!(state.observe(OnboardingEvent::ScenarioEditorOpened));
    assert!(!state.active());
}

#[test]
fn progress_counts_from_one_and_completed_guidance_shows_the_last_step() {
    let mut state = OnboardingState::new(false);
    assert_eq!(state.progress(), (1, 6));
    assert!(state.observe(OnboardingEvent::UnionWorldSelected) == false);
    assert_eq!(state.progress(), (2, 6));
    assert_eq!(state.step(), Some(OnboardingStep::PreviewLaunch));
    assert_eq!(OnboardingState::new(true).progress(), (6, 6));
    assert_eq!(OnboardingState::new(true).step(), None);
}

#[test]
fn skip_ends_guidance_once_and_reset_restarts_it() {
    let mut state = OnboardingState::new(false);
    assert!(state.skip());
    assert!(!state.active());
    assert!(!state.skip());
    assert!(!state.observe(OnboardingEvent::UnionWorldSelected));
    state.reset();
    assert_eq!(state.step(), Some(OnboardingStep::SelectUnionWorld));
}

#[test]
fn every_step_has_a_heading() {
    assert_eq!(OnboardingStep::SelectUnionWorld.title(), "SELECT A UNION WORLD");
    assert_eq!(OnboardingStep::OpenScenarioEditor.title(), "OPEN THE SCENARIO EDITOR");
}

#[test]
fn settings_focus_wraps_both_ways_and_clamps_direct_focus() {
    let mut settings = SettingsState::default();
    assert_eq!(settings.focus_index(), 0);
    settings.focus_previous();
    assert_eq!(settings.focus_index(), CONTROL_COUNT - 1);
    settings.focus_next();
    assert_eq!(settings.focus_index(), 0);
    settings.focus(4);
    settings.focus_next();
    settings.focus_previous();
    assert_eq!(settings.focus_index(), 4);
    settings.focus(99);
    assert_eq!(settings.focus_index(), 10);
}
