//! The detached editor's request and confirmation flow. Every request that
//! would discard or replace data waits for an explicit confirmation; a
//! pending save or apply lives exactly as long as the confirmation that
//! holds it.
//!
//! The draft, its text buffers and the scenario store stay with the caller,
//! which reports what they answered and carries out the steps the flow
//! hands back.

use vstd::prelude::*;

use crate::app_core::{AppCore, SessionView, editor_closed, restarted, session_consistent};
use crate::editor::{ConfirmationAction, ConfirmedEditorAction, EditorAction, EditorError, EditorSection};
use crate::session::{AppMode, MAX_STEPS_PER_FRAME};
use crate::time::ClockView;

verus! {

pub const NO_SAVED_SCENARIO: &'static str = "NO SAVED SCENARIO";
pub const SCENARIO_LOADED: &'static str = "SCENARIO LOADED INTO DRAFT";
pub const SCENARIO_SAVED: &'static str = "SCENARIO SAVED";

/// What reading the saved slot gave.
#[derive(Clone, Debug, PartialEq, Eq)]
pub enum LoadOutcome {
    /// The store failed, with its message.
    StoreFailed(String),
    /// The slot is empty.
    NothingSaved,
    /// The saved scenario does not decode or validate, with the message.
    DecodeFailed(String),
    /// The saved scenario replaced the draft.
    Loaded,
}

/// Whether a load goes ahead now.
#[derive(Clone, Copy, Debug, PartialEq, Eq, Structural)]
pub enum LoadStep {
    /// The draft has changes: the load waits for confirmation.
    AwaitConfirmation,
    /// Read the slot now and report with [`EditorFlow::load_finished`].
    LoadNow,
}

/// What a confirmation leaves the caller to do.
#[derive(Clone, Debug, PartialEq, Eq)]
pub enum ConfirmStep<S> {
    /// Write the payload over the occupied slot and report with
    /// [`EditorFlow::save_written`].
    Write(String),
    /// Reset the draft as the confirmed action says: back to the active
    /// scenario, to factory defaults, or regenerated from the seed.
    Reset(ConfirmationAction),
    /// Read the slot and report with [`EditorFlow::load_finished`].
    Load,
    /// Close the editor.
    Cancel,
    /// Check that the draft still validates to this scenario; see
    /// [`apply_verdict`].
    CheckApply(S),
}

/// The flow as the contracts speak of it.
pub struct FlowView<S> {
    pub confirmation: Option<ConfirmationAction>,
    pub pending_save: Option<Seq<char>>,
    pub pending_apply: Option<S>,
    pub message: Option<Seq<char>>,
}

/// A pending save is held only by the overwrite confirmation, and a pending
/// apply only by the apply confirmation; a close confirmation asked over
/// either keeps it until it is answered.
pub open spec fn flow_consistent<S>(v: FlowView<S>) -> bool {
    &&& v.pending_save is Some ==> (v.confirmation == Some(ConfirmationAction::OverwriteSave)
        || v.confirmation == Some(ConfirmationAction::CancelDirty))
    &&& v.pending_apply is Some ==> (v.confirmation == Some(ConfirmationAction::ApplyAndRestart)
        || v.confirmation == Some(ConfirmationAction::CancelDirty))
}

/// `v` with no confirmation and nothing pending.
pub open spec fn settled<S>(v: FlowView<S>) -> FlowView<S> {
    FlowView { confirmation: None, pending_save: None, pending_apply: None, ..v }
}

/// The confirmation `action` is asked for, unless one is already open.
pub open spec fn asked<S>(v: FlowView<S>, action: ConfirmationAction) -> FlowView<S> {
    if v.confirmation is Some {
        v
    } else {
        FlowView { confirmation: Some(action), ..v }
    }
}

pub struct EditorFlow<S> {
    confirmation: Option<ConfirmationAction>,
    pending_save: Option<String>,
    pending_apply: Option<S>,
    store_message: Option<String>,
}

impl<S> View for EditorFlow<S> {
    type V = FlowView<S>;

    closed spec fn view(&self) -> FlowView<S> {
        FlowView {
            confirmation: self.confirmation,
            pending_save: match &self.pending_save {
                Some(payload) => Some(payload@),
                None => None,
            },
            pending_apply: self.pending_apply,
            message: match &self.store_message {
                Some(message) => Some(message@),
                None => None,
            },
        }
    }
}

impl<S> EditorFlow<S> {
    pub fn new() -> (flow: Self)
        ensures
            flow@.confirmation is None,
            flow@.pending_save is None,
            flow@.pending_apply is None,
            flow@.message is None,
    {
        EditorFlow { confirmation: None, pending_save: None, pending_apply: None, store_message: None }
    }

    pub fn confirmation(&self) -> (confirmation: Option<ConfirmationAction>)
        ensures
            confirmation == self@.confirmation,
    {
        self.confirmation
    }

    /// The store's last message to the player.
    pub fn store_message(&self) -> (message: Option<&str>)
        ensures
            match message {
                Some(text) => self@.message == Some(text@),
                None => self@.message is None,
            },
    {
        match &self.store_message {
            Some(message) => Some(message.as_str()),
            None => None,
        }
    }

    /// Text edits and section changes are taken only while no confirmation
    /// is open.
    pub fn accepts_edits(&self) -> (accepts: bool)
        ensures
            accepts == self@.confirmation is None,
    {
        self.confirmation.is_none()
    }

    /// An edit that arrives during a confirmation dismisses it instead of
    /// editing; reports whether one was open.
    pub fn interrupt_confirmation(&mut self) -> (interrupted: bool)
        ensures
            interrupted == old(self)@.confirmation is Some,
            final(self)@ == (if interrupted {
                settled(old(self)@)
            } else {
                old(self)@
            }),
            flow_consistent(final(self)@) || !interrupted,
    {
        if self.confirmation.is_none() {
            return false;
        }
        self.confirmation = None;
        self.pending_apply = None;
        self.pending_save = None;
        true
    }

    pub fn request_revert(&mut self)
        requires
            flow_consistent(old(self)@),
        ensures
            final(self)@ == asked(old(self)@, ConfirmationAction::Revert),
            flow_consistent(final(self)@),
    {
        if self.confirmation.is_none() {
            self.confirmation = Some(ConfirmationAction::Revert);
        }
    }

    pub fn request_factory_defaults(&mut self)
        requires
            flow_consistent(old(self)@),
        ensures
            final(self)@ == asked(old(self)@, ConfirmationAction::FactoryDefaults),
            flow_consistent(final(self)@),
    {
        if self.confirmation.is_none() {
            self.confirmation = Some(ConfirmationAction::FactoryDefaults);
        }
    }

    pub fn request_regenerate_from_seed(&mut self)
        requires
            flow_consistent(old(self)@),
        ensures
            final(self)@ == asked(old(self)@, ConfirmationAction::RegenerateFromSeed),
            flow_consistent(final(self)@),
    {
        if self.confirmation.is_none() {
            self.confirmation = Some(ConfirmationAction::RegenerateFromSeed);
        }
    }

    /// A load: refused during a confirmation, confirmed first when the
    /// draft has changes (`dirty`), else done now.
    pub fn request_load(&mut self, dirty: bool) -> (step: Result<LoadStep, EditorError>)
        requires
            flow_consistent(old(self)@),
        ensures
            old(self)@.confirmation is Some ==> step == Err::<LoadStep, EditorError>(
                EditorError::ConfirmationActive,
            ) && final(self)@ == old(self)@,
            old(self)@.confirmation is None && dirty ==> step == Ok::<LoadStep, EditorError>(
                LoadStep::AwaitConfirmation,
            ) && final(self)@ == asked(old(self)@, ConfirmationAction::LoadDirty),
            old(self)@.confirmation is None && !dirty ==> step == Ok::<LoadStep, EditorError>(
                LoadStep::LoadNow,
            ) && final(self)@ == old(self)@,
            flow_consistent(final(self)@),
    {
        if self.confirmation.is_some() {
            return Err(EditorError::ConfirmationActive);
        }
        if dirty {
            self.confirmation = Some(ConfirmationAction::LoadDirty);
            return Ok(LoadStep::AwaitConfirmation);
        }
        Ok(LoadStep::LoadNow)
    }

    /// Records what reading the slot gave and reports whether the draft was
    /// replaced.
    pub fn load_finished(&mut self, outcome: LoadOutcome) -> (loaded: Result<bool, EditorError>)
        ensures
            final(self)@.confirmation == old(self)@.confirmation,
            final(self)@.pending_save == old(self)@.pending_save,
            final(self)@.pending_apply == old(self)@.pending_apply,
            match outcome {
                LoadOutcome::StoreFailed(message) => loaded == Err::<bool, EditorError>(
                    EditorError::Store,
                ) && final(self)@.message == Some(message@),
                LoadOutcome::NothingSaved => loaded == Ok::<bool, EditorError>(false)
                    && final(self)@.message == Some(NO_SAVED_SCENARIO@),
                LoadOutcome::DecodeFailed(message) => loaded == Err::<bool, EditorError>(
                    EditorError::Codec,
                ) && final(self)@.message == Some(message@),
                LoadOutcome::Loaded => loaded == Ok::<bool, EditorError>(true)
                    && final(self)@.message == Some(SCENARIO_LOADED@),
            },
    {
        match outcome {
            LoadOutcome::StoreFailed(message) => {
                self.store_message = Some(message);
                Err(EditorError::Store)
            },
            LoadOutcome::NothingSaved => {
                self.store_message = Some(NO_SAVED_SCENARIO.to_string());
                Ok(false)
            },
            LoadOutcome::DecodeFailed(message) => {
                self.store_message = Some(message);
                Err(EditorError::Codec)
            },
            LoadOutcome::Loaded => {
                self.store_message = Some(SCENARIO_LOADED.to_string());
                Ok(true)
            },
        }
    }

    /// Closing the editor: confirmed first when the draft has changes,
    /// whatever else was being asked; reports whether it closes now.
    pub fn request_cancel(&mut self, dirty: bool) -> (close_now: bool)
        requires
            flow_consistent(old(self)@),
        ensures
            close_now == !dirty,
            final(self)@ == (if dirty {
                FlowView { confirmation: Some(ConfirmationAction::CancelDirty), ..old(self)@ }
            } else {
                old(self)@
            }),
            flow_consistent(final(self)@),
    {
        if dirty {
            self.confirmation = Some(ConfirmationAction::CancelDirty);
            false
        } else {
            true
        }
    }

    /// Applying the draft: refused during a confirmation; otherwise the
    /// validated `candidate` is held until the restart is confirmed.
    pub fn request_apply_and_restart(&mut self, candidate: Result<S, EditorError>) -> (result: Result<(), EditorError>)
        requires
            flow_consistent(old(self)@),
        ensures
            old(self)@.confirmation is Some ==> result == Err::<(), EditorError>(
                EditorError::ConfirmationActive,
            ) && final(self)@ == old(self)@,
            old(self)@.confirmation is None ==> match candidate {
                Ok(scenario) => result == Ok::<(), EditorError>(()) && final(self)@ == (FlowView {
                    confirmation: Some(ConfirmationAction::ApplyAndRestart),
                    pending_apply: Some(scenario),
                    ..old(self)@
                }),
                Err(error) => result == Err::<(), EditorError>(error) && final(self)@ == old(
                    self,
                )@,
            },
            flow_consistent(final(self)@),
    {
        if self.confirmation.is_some() {
            return Err(EditorError::ConfirmationActive);
        }
        match candidate {
            Ok(scenario) => {
                self.pending_apply = Some(scenario);
                self.confirmation = Some(ConfirmationAction::ApplyAndRestart);
                Ok(())
            },
            Err(error) => Err(error),
        }
    }

    /// Before a save: refused during a confirmation, and while a field
    /// holds text that does not parse (`parse_ok` false).
    pub fn save_preflight(&self, parse_ok: bool) -> (result: Result<(), EditorError>)
        ensures
            result == (if self@.confirmation is Some {
                Err(EditorError::ConfirmationActive)
            } else if !parse_ok {
                Err(EditorError::InvalidText)
            } else {
                Ok(())
            }),
    {
        if self.confirmation.is_some() {
            return Err(EditorError::ConfirmationActive);
        }
        if !parse_ok {
            return Err(EditorError::InvalidText);
        }
        Ok(())
    }

    /// The slot was read before a save of `payload`: a store failure is
    /// reported, an occupied slot asks to overwrite, and an empty one is
    /// written now (the payload is handed back for writing).
    pub fn save_slot_checked(&mut self, payload: String, occupied: Result<bool, String>) -> (step: Result<Option<String>, EditorError>)
        requires
            flow_consistent(old(self)@),
            old(self)@.confirmation is None,
        ensures
            flow_consistent(final(self)@),
            match occupied {
                Err(message) => step == Err::<Option<String>, EditorError>(EditorError::Store)
                    && final(self)@ == (FlowView { message: Some(message@), ..old(self)@ }),
                Ok(true) => step == Ok::<Option<String>, EditorError>(None) && final(self)@ == (
                FlowView {
                    confirmation: Some(ConfirmationAction::OverwriteSave),
                    pending_save: Some(payload@),
                    ..old(self)@
                }),
                Ok(false) => (match step {
                    Ok(Some(written)) => written@ == payload@,
                    _ => false,
                }) && final(self)@ == old(self)@,
            },
    {
        match occupied {
            Err(message) => {
                self.store_message = Some(message);
                Err(EditorError::Store)
            },
            Ok(true) => {
                self.pending_save = Some(payload);
                self.confirmation = Some(ConfirmationAction::OverwriteSave);
                Ok(None)
            },
            Ok(false) => Ok(Some(payload)),
        }
    }

    /// Records the answer to writing the slot.
    pub fn save_written(&mut self, result: Result<(), String>) -> (saved: Result<bool, EditorError>)
        ensures
            final(self)@.confirmation == old(self)@.confirmation,
            final(self)@.pending_save == old(self)@.pending_save,
            final(self)@.pending_apply == old(self)@.pending_apply,
            match result {
                Err(message) => saved == Err::<bool, EditorError>(EditorError::Store)
                    && final(self)@.message == Some(message@),
                Ok(()) => saved == Ok::<bool, EditorError>(true) && final(self)@.message == Some(
                    SCENARIO_SAVED@,
                ),
            },
    {
        match result {
            Err(message) => {
                self.store_message = Some(message);
                Err(EditorError::Store)
            },
            Ok(()) => {
                self.store_message = Some(SCENARIO_SAVED.to_string());
                Ok(true)
            },
        }
    }

    /// Dismisses the open confirmation and whatever it held.
    pub fn cancel_confirmation(&mut self)
        ensures
            final(self)@ == settled(old(self)@),
            flow_consistent(final(self)@),
    {
        self.confirmation = None;
        self.pending_save = None;
        self.pending_apply = None;
    }

    /// Answers the open confirmation with yes; the step says what the
    /// caller carries out. Afterwards nothing is open or pending.
    pub fn confirm(&mut self) -> (step: Result<ConfirmStep<S>, EditorError>)
        requires
            flow_consistent(old(self)@),
        ensures
            final(self)@ == settled(old(self)@),
            flow_consistent(final(self)@),
            match old(self)@.confirmation {
                None => step == Err::<ConfirmStep<S>, EditorError>(EditorError::NoConfirmation),
                Some(ConfirmationAction::OverwriteSave) => match old(self)@.pending_save {
                    Some(held) => match step {
                        Ok(ConfirmStep::Write(payload)) => payload@ == held,
                        _ => false,
                    },
                    None => step == Err::<ConfirmStep<S>, EditorError>(EditorError::NoConfirmation),
                },
                Some(ConfirmationAction::LoadDirty) => step == Ok::<ConfirmStep<S>, EditorError>(
                    ConfirmStep::Load,
                ),
                Some(ConfirmationAction::CancelDirty) => step == Ok::<ConfirmStep<S>, EditorError>(
                    ConfirmStep::Cancel,
                ),
                Some(ConfirmationAction::ApplyAndRestart) => match old(self)@.pending_apply {
                    Some(scenario) => step == Ok::<ConfirmStep<S>, EditorError>(
                        ConfirmStep::CheckApply(scenario),
                    ),
                    None => step == Err::<ConfirmStep<S>, EditorError>(
                        EditorError::StaleConfirmation,
                    ),
                },
                Some(action) => step == Ok::<ConfirmStep<S>, EditorError>(ConfirmStep::Reset(action)),
            },
    {
        let action = match self.confirmation.take() {
            Some(action) => action,
            None => return Err(EditorError::NoConfirmation),
        };
        let pending_save = self.pending_save.take();
        let pending_apply = self.pending_apply.take();
        match action {
            ConfirmationAction::OverwriteSave => match pending_save {
                Some(payload) => Ok(ConfirmStep::Write(payload)),
                None => Err(EditorError::NoConfirmation),
            },
            ConfirmationAction::LoadDirty => Ok(ConfirmStep::Load),
            ConfirmationAction::CancelDirty => Ok(ConfirmStep::Cancel),
            ConfirmationAction::ApplyAndRestart => match pending_apply {
                Some(scenario) => Ok(ConfirmStep::CheckApply(scenario)),
                None => Err(EditorError::StaleConfirmation),
            },
            ConfirmationAction::Revert => Ok(ConfirmStep::Reset(ConfirmationAction::Revert)),
            ConfirmationAction::FactoryDefaults => Ok(
                ConfirmStep::Reset(ConfirmationAction::FactoryDefaults),
            ),
            ConfirmationAction::RegenerateFromSeed => Ok(
                ConfirmStep::Reset(ConfirmationAction::RegenerateFromSeed),
            ),
        }
    }
}

/// The verdict on a confirmed apply: the draft must still validate
/// (`current`) and to the very scenario that was confirmed (`unchanged`).
pub fn apply_verdict<S>(pending: S, current: Result<(), EditorError>, unchanged: bool) -> (verdict: Result<ConfirmedEditorAction<S>, EditorError>)
    ensures
        verdict == (match current {
            Err(error) => Err(error),
            Ok(()) => if unchanged {
                Ok(ConfirmedEditorAction::ApplyAndRestart(pending))
            } else {
                Err(EditorError::StaleConfirmation)
            },
        }),
{
    match current {
        Err(error) => Err(error),
        Ok(()) => if unchanged {
            Ok(ConfirmedEditorAction::ApplyAndRestart(pending))
        } else {
            Err(EditorError::StaleConfirmation)
        },
    }
}

/// While a confirmation is open, asking for another changes nothing: the
/// open question must be answered or dismissed first.
pub proof fn lemma_open_confirmation_blocks_requests<S>(v: FlowView<S>, action: ConfirmationAction)
    requires
        v.confirmation is Some,
    ensures
        asked(v, action) == v,
{
}

/// Where an editor action goes: the section or world the editor shows,
/// the flow request it makes, or nothing when the session is not in the
/// editor.
#[derive(Clone, Copy, Debug, PartialEq, Eq, Structural)]
pub enum EditorDispatch {
    Nothing,
    SelectSection(EditorSection),
    SelectWorld(usize),
    /// [`EditorFlow::request_revert`].
    RequestRevert,
    /// [`EditorFlow::request_factory_defaults`].
    RequestFactoryDefaults,
    /// [`EditorFlow::request_regenerate_from_seed`].
    RequestRegenerateFromSeed,
    /// [`EditorFlow::request_load`], with whether the draft has changes.
    RequestLoad,
    /// [`EditorFlow::save_preflight`], then the slot check and write.
    RequestSave,
    /// [`EditorFlow::request_cancel`]; the session leaves the editor when it
    /// answers that it closes now.
    RequestCancel,
    /// [`EditorFlow::request_apply_and_restart`] with the validated draft.
    RequestApplyAndRestart,
    /// [`EditorFlow::cancel_confirmation`].
    DismissConfirmation,
    /// [`EditorFlow::confirm`]; a confirmed close leaves the editor and a
    /// confirmed apply restarts the session on the validated scenario.
    Confirm,
}

/// Where `action` goes in `mode`: editor actions act only in the editor.
pub open spec fn editor_dispatch(mode: AppMode, action: EditorAction) -> EditorDispatch {
    if mode != AppMode::EditingScenario {
        EditorDispatch::Nothing
    } else {
        match action {
            EditorAction::SelectSection(section) => EditorDispatch::SelectSection(section),
            EditorAction::SelectWorld(index) => EditorDispatch::SelectWorld(index),
            EditorAction::Revert => EditorDispatch::RequestRevert,
            EditorAction::FactoryDefaults => EditorDispatch::RequestFactoryDefaults,
            EditorAction::RegenerateFromSeed => EditorDispatch::RequestRegenerateFromSeed,
            EditorAction::Load => EditorDispatch::RequestLoad,
            EditorAction::Save => EditorDispatch::RequestSave,
            EditorAction::Cancel => EditorDispatch::RequestCancel,
            EditorAction::ApplyAndRestart => EditorDispatch::RequestApplyAndRestart,
            EditorAction::DismissConfirmation => EditorDispatch::DismissConfirmation,
            EditorAction::Confirm => EditorDispatch::Confirm,
        }
    }
}

pub fn editor_action_step(mode: AppMode, action: EditorAction) -> (step: EditorDispatch)
    ensures
        step == editor_dispatch(mode, action),
{
    if mode != AppMode::EditingScenario {
        return EditorDispatch::Nothing;
    }
    match action {
        EditorAction::SelectSection(section) => EditorDispatch::SelectSection(section),
        EditorAction::SelectWorld(index) => EditorDispatch::SelectWorld(index),
        EditorAction::Revert => EditorDispatch::RequestRevert,
        EditorAction::FactoryDefaults => EditorDispatch::RequestFactoryDefaults,
        EditorAction::RegenerateFromSeed => EditorDispatch::RequestRegenerateFromSeed,
        EditorAction::Load => EditorDispatch::RequestLoad,
        EditorAction::Save => EditorDispatch::RequestSave,
        EditorAction::Cancel => EditorDispatch::RequestCancel,
        EditorAction::ApplyAndRestart => EditorDispatch::RequestApplyAndRestart,
        EditorAction::DismissConfirmation => EditorDispatch::DismissConfirmation,
        EditorAction::Confirm => EditorDispatch::Confirm,
    }
}

/// Applies a confirmed editor request to the session: a confirmed close
/// leaves the editor, and a confirmed apply restarts on the validated
/// scenario, whose rules run at `tick_hz` steps a second.
pub fn apply_confirmed<S>(core: &mut AppCore, confirmed: &ConfirmedEditorAction<S>, tick_hz: u32)
    requires
        session_consistent(old(core)@),
        tick_hz > 0,
    ensures
        session_consistent(final(core)@),
        confirmed is Cancel ==> final(core)@ == editor_closed(old(core)@),
        confirmed is ApplyAndRestart ==> final(core)@ == (SessionView {
            mode: AppMode::Playing,
            clock: ClockView {
                tick_hz: tick_hz as nat,
                remainder: 0,
                pending_steps: 0,
                max_steps: MAX_STEPS_PER_FRAME as nat,
            },
            ..restarted(old(core)@)
        }),
{
    match confirmed {
        ConfirmedEditorAction::Cancel => core.close_editor(),
        ConfirmedEditorAction::ApplyAndRestart(_) => core.apply_validated_scenario(tick_hz),
    }
}

/// The confirmation the flow request behind `dispatch` can ask for, as the
/// contracts of the flow's request functions give it: a revert, reset or
/// regeneration asks about itself, a load over changes asks `LoadDirty`, a
/// save over an occupied slot `OverwriteSave`, a close over changes
/// `CancelDirty`, and an apply `ApplyAndRestart`.
pub open spec fn question_raised(dispatch: EditorDispatch) -> Option<ConfirmationAction> {
    match dispatch {
        EditorDispatch::RequestRevert => Some(ConfirmationAction::Revert),
        EditorDispatch::RequestFactoryDefaults => Some(ConfirmationAction::FactoryDefaults),
        EditorDispatch::RequestRegenerateFromSeed => Some(ConfirmationAction::RegenerateFromSeed),
        EditorDispatch::RequestLoad => Some(ConfirmationAction::LoadDirty),
        EditorDispatch::RequestSave => Some(ConfirmationAction::OverwriteSave),
        EditorDispatch::RequestCancel => Some(ConfirmationAction::CancelDirty),
        EditorDispatch::RequestApplyAndRestart => Some(ConfirmationAction::ApplyAndRestart),
        _ => None,
    }
}

/// The change a button of the editor asks the player to confirm, if it can
/// ask one: the button's own.
pub open spec fn button_question(action: EditorAction) -> Option<ConfirmationAction> {
    match action {
        EditorAction::Revert => Some(ConfirmationAction::Revert),
        EditorAction::FactoryDefaults => Some(ConfirmationAction::FactoryDefaults),
        EditorAction::RegenerateFromSeed => Some(ConfirmationAction::RegenerateFromSeed),
        EditorAction::Load => Some(ConfirmationAction::LoadDirty),
        EditorAction::Save => Some(ConfirmationAction::OverwriteSave),
        EditorAction::Cancel => Some(ConfirmationAction::CancelDirty),
        EditorAction::ApplyAndRestart => Some(ConfirmationAction::ApplyAndRestart),
        _ => None,
    }
}

/// In the editor every button makes its own request: the request an action
/// is dispatched to can only ask about that button's change, no two
/// buttons are dispatched alike, and a section or world picked is the one
/// shown. Outside the editor no button does anything.
pub proof fn lemma_editor_buttons_make_their_own_requests(mode: AppMode, action: EditorAction, other: EditorAction)
    ensures
        mode == AppMode::EditingScenario ==> question_raised(editor_dispatch(mode, action))
            == button_question(action),
        mode == AppMode::EditingScenario && action != other ==> editor_dispatch(mode, action)
            != editor_dispatch(mode, other),
        mode != AppMode::EditingScenario ==> editor_dispatch(mode, action) == EditorDispatch::Nothing,
        mode == AppMode::EditingScenario ==> (editor_dispatch(mode, action) is Confirm <==> action is Confirm),
        mode == AppMode::EditingScenario ==> (editor_dispatch(mode, action) is DismissConfirmation
            <==> action is DismissConfirmation),
        mode == AppMode::EditingScenario ==> (action matches EditorAction::SelectSection(section)
            ==> (editor_dispatch(mode, action) matches EditorDispatch::SelectSection(shown)
            && shown == section)),
        mode == AppMode::EditingScenario ==> (action matches EditorAction::SelectWorld(index)
            ==> (editor_dispatch(mode, action) matches EditorDispatch::SelectWorld(shown) && shown
            == index)),
{
}

} // verus!
