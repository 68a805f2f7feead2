use nyon::app_core::{AppCore, UserPreferences};
use nyon::editor::{ConfirmationAction, ConfirmedEditorAction, EditorAction, EditorError};
use nyon::input::Action;
use nyon::presentation::{GraphicsQuality, MotionPreference, UiScale};
use nyon::session::AppMode;
use nyon::editor_flow::{
    ConfirmStep, EditorDispatch, EditorFlow, apply_confirmed, editor_action_step, LoadOutcome, LoadStep, apply_verdict, NO_SAVED_SCENARIO,
    SCENARIO_LOADED, SCENARIO_SAVED,
};

#[test]
fn resets_wait_for_confirmation_and_one_question_at_a_time() {
    let mut flow: EditorFlow<u32> = EditorFlow::new();
    assert!(flow.accepts_edits());
    flow.request_revert();
    assert_eq!(flow.confirmation(), Some(ConfirmationAction::Revert));
    assert!(!flow.accepts_edits());
    flow.request_factory_defaults();
    assert_eq!(flow.confirmation(), Some(ConfirmationAction::Revert));
    assert_eq!(flow.confirm(), Ok(ConfirmStep::Reset(ConfirmationAction::Revert)));
    assert_eq!(flow.confirmation(), None);
    assert_eq!(flow.confirm(), Err(EditorError::NoConfirmation));

    flow.request_regenerate_from_seed();
    flow.cancel_confirmation();
    assert_eq!(flow.confirmation(), None);
}

#[test]
fn a_clean_draft_loads_at_once_and_a_changed_one_asks_first() {
    let mut flow: EditorFlow<u32> = EditorFlow::new();
    assert_eq!(flow.request_load(false), Ok(LoadStep::LoadNow));
    assert_eq!(flow.load_finished(LoadOutcome::NothingSaved), Ok(false));
    assert_eq!(flow.store_message(), Some(NO_SAVED_SCENARIO));

    assert_eq!(flow.request_load(true), Ok(LoadStep::AwaitConfirmation));
    assert_eq!(flow.request_load(false), Err(EditorError::ConfirmationActive));
    assert_eq!(flow.confirm(), Ok(ConfirmStep::Load));
    assert_eq!(flow.load_finished(LoadOutcome::Loaded), Ok(true));
    assert_eq!(flow.store_message(), Some(SCENARIO_LOADED));

    assert_eq!(
        flow.load_finished(LoadOutcome::DecodeFailed("bad payload".to_string())),
        Err(EditorError::Codec)
    );
    assert_eq!(flow.store_message(), Some("bad payload"));
    assert_eq!(
        flow.load_finished(LoadOutcome::StoreFailed("denied".to_string())),
        Err(EditorError::Store)
    );
    assert_eq!(flow.store_message(), Some("denied"));
}

#[test]
fn saving_over_an_occupied_slot_asks_and_then_writes_the_held_payload() {
    let mut flow: EditorFlow<u32> = EditorFlow::new();
    assert_eq!(flow.save_preflight(false), Err(EditorError::InvalidText));
    assert_eq!(flow.save_preflight(true), Ok(()));
    assert_eq!(flow.save_slot_checked("{\"a\":1}".to_string(), Ok(true)), Ok(None));
    assert_eq!(flow.confirmation(), Some(ConfirmationAction::OverwriteSave));
    assert_eq!(flow.save_preflight(true), Err(EditorError::ConfirmationActive));
    assert_eq!(flow.confirm(), Ok(ConfirmStep::Write("{\"a\":1}".to_string())));
    assert_eq!(flow.save_written(Ok(())), Ok(true));
    assert_eq!(flow.store_message(), Some(SCENARIO_SAVED));

    assert_eq!(
        flow.save_slot_checked("{}".to_string(), Ok(false)),
        Ok(Some("{}".to_string()))
    );
    assert_eq!(flow.confirmation(), None);
    assert_eq!(flow.save_written(Err("quota".to_string())), Err(EditorError::Store));
    assert_eq!(flow.store_message(), Some("quota"));
    assert_eq!(
        flow.save_slot_checked("{}".to_string(), Err("locked".to_string())),
        Err(EditorError::Store)
    );
    assert_eq!(flow.store_message(), Some("locked"));
}

#[test]
fn closing_a_changed_draft_asks_even_over_another_question() {
    let mut flow: EditorFlow<u32> = EditorFlow::new();
    assert!(flow.request_cancel(false));
    flow.save_slot_checked("{}".to_string(), Ok(true)).unwrap();
    assert!(!flow.request_cancel(true));
    assert_eq!(flow.confirmation(), Some(ConfirmationAction::CancelDirty));
    assert_eq!(flow.confirm(), Ok(ConfirmStep::Cancel));
    assert_eq!(flow.confirm(), Err(EditorError::NoConfirmation));
}

#[test]
fn apply_holds_the_validated_scenario_until_it_is_confirmed_unchanged() {
    let mut flow: EditorFlow<u32> = EditorFlow::new();
    assert_eq!(
        flow.request_apply_and_restart(Err(EditorError::Validation)),
        Err(EditorError::Validation)
    );
    assert_eq!(flow.confirmation(), None);
    assert_eq!(flow.request_apply_and_restart(Ok(7)), Ok(()));
    assert_eq!(flow.request_apply_and_restart(Ok(8)), Err(EditorError::ConfirmationActive));
    assert_eq!(flow.confirm(), Ok(ConfirmStep::CheckApply(7)));

    assert_eq!(apply_verdict(7, Ok(()), true), Ok(ConfirmedEditorAction::ApplyAndRestart(7)));
    assert_eq!(apply_verdict(7, Ok(()), false), Err(EditorError::StaleConfirmation));
    assert_eq!(apply_verdict(7, Err(EditorError::InvalidText), true), Err(EditorError::InvalidText));
}

#[test]
fn an_edit_during_a_question_dismisses_it_and_drops_what_it_held() {
    let mut flow: EditorFlow<u32> = EditorFlow::new();
    assert!(!flow.interrupt_confirmation());
    flow.request_apply_and_restart(Ok(3)).unwrap();
    assert!(flow.interrupt_confirmation());
    assert_eq!(flow.confirmation(), None);
    assert_eq!(flow.confirm(), Err(EditorError::NoConfirmation));
}

#[test]
fn editor_actions_dispatch_only_in_the_editor_and_confirmations_reach_the_session() {
    assert_eq!(editor_action_step(AppMode::Playing, EditorAction::Revert), EditorDispatch::Nothing);
    assert_eq!(
        editor_action_step(AppMode::EditingScenario, EditorAction::Revert),
        EditorDispatch::RequestRevert
    );
    assert_eq!(
        editor_action_step(AppMode::EditingScenario, EditorAction::SelectWorld(2)),
        EditorDispatch::SelectWorld(2)
    );
    let preferences = UserPreferences {
        ui_scale: UiScale::Percent100,
        motion: MotionPreference::Full,
        high_contrast: false,
        graphics_quality: GraphicsQuality::Auto,
        onboarding_completed: true,
    };
    let mut core = AppCore::new(preferences, 60);
    core.handle_action(Action::Scenario);
    assert_eq!(core.mode(), AppMode::EditingScenario);
    apply_confirmed::<u32>(&mut core, &ConfirmedEditorAction::ApplyAndRestart(7), 30);
    assert_eq!(core.mode(), AppMode::Playing);
    core.handle_action(Action::Scenario);
    apply_confirmed::<u32>(&mut core, &ConfirmedEditorAction::Cancel, 30);
    assert_eq!(core.mode(), AppMode::Playing);
}
