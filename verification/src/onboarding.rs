//! Presentation-only first-run guidance.

use vstd::prelude::*;

verus! {

/// One instruction of the first-run guidance, in the order they are shown.
#[derive(Clone, Copy, Debug, PartialEq, Eq, Structural)]
pub enum OnboardingStep {
    SelectUnionWorld,
    PreviewLaunch,
    LaunchFleet,
    TuneField,
    ReadAdvisory,
    OpenScenarioEditor,
}

/// An action the session observed that the guidance may be waiting for.
#[derive(Clone, Copy, Debug, PartialEq, Eq, Structural)]
pub enum OnboardingEvent {
    UnionWorldSelected,
    LaunchPreviewed,
    FleetLaunched,
    FieldTuned,
    AdvisoryRead,
    ScenarioEditorOpened,
}

/// How many steps the guidance has.
pub const STEP_COUNT: usize = 6;

/// The step shown at position `index` of the guidance.
pub open spec fn step_at(index: int) -> OnboardingStep {
    if index == 0 {
        OnboardingStep::SelectUnionWorld
    } else if index == 1 {
        OnboardingStep::PreviewLaunch
    } else if index == 2 {
        OnboardingStep::LaunchFleet
    } else if index == 3 {
        OnboardingStep::TuneField
    } else if index == 4 {
        OnboardingStep::ReadAdvisory
    } else {
        OnboardingStep::OpenScenarioEditor
    }
}

/// The observed action that completes `step`.
pub open spec fn expected_event(step: OnboardingStep) -> OnboardingEvent {
    match step {
        OnboardingStep::SelectUnionWorld => OnboardingEvent::UnionWorldSelected,
        OnboardingStep::PreviewLaunch => OnboardingEvent::LaunchPreviewed,
        OnboardingStep::LaunchFleet => OnboardingEvent::FleetLaunched,
        OnboardingStep::TuneField => OnboardingEvent::FieldTuned,
        OnboardingStep::ReadAdvisory => OnboardingEvent::AdvisoryRead,
        OnboardingStep::OpenScenarioEditor => OnboardingEvent::ScenarioEditorOpened,
    }
}

/// The heading shown for `step`.
pub open spec fn step_title(step: OnboardingStep) -> Seq<char> {
    match step {
        OnboardingStep::SelectUnionWorld => "SELECT A UNION WORLD"@,
        OnboardingStep::PreviewLaunch => "PREVIEW A DESTINATION"@,
        OnboardingStep::LaunchFleet => "LAUNCH A FLEET"@,
        OnboardingStep::TuneField => "TUNE A FIELD"@,
        OnboardingStep::ReadAdvisory => "READ THE ADVISORY"@,
        OnboardingStep::OpenScenarioEditor => "OPEN THE SCENARIO EDITOR"@,
    }
}

impl OnboardingStep {
    /// The step at position `index`, for `index` below [`STEP_COUNT`].
    pub fn at(index: usize) -> (step: OnboardingStep)
        requires
            index < STEP_COUNT,
        ensures
            step == step_at(index as int),
    {
        if index == 0 {
            OnboardingStep::SelectUnionWorld
        } else if index == 1 {
            OnboardingStep::PreviewLaunch
        } else if index == 2 {
            OnboardingStep::LaunchFleet
        } else if index == 3 {
            OnboardingStep::TuneField
        } else if index == 4 {
            OnboardingStep::ReadAdvisory
        } else {
            OnboardingStep::OpenScenarioEditor
        }
    }

    pub fn title(self) -> (title: &'static str)
        ensures
            title@ == step_title(self),
    {
        match self {
            OnboardingStep::SelectUnionWorld => "SELECT A UNION WORLD",
            OnboardingStep::PreviewLaunch => "PREVIEW A DESTINATION",
            OnboardingStep::LaunchFleet => "LAUNCH A FLEET",
            OnboardingStep::TuneField => "TUNE A FIELD",
            OnboardingStep::ReadAdvisory => "READ THE ADVISORY",
            OnboardingStep::OpenScenarioEditor => "OPEN THE SCENARIO EDITOR",
        }
    }
}

/// The guidance's position names one of its steps, when it runs.
pub open spec fn within_steps(position: Option<nat>) -> bool {
    match position {
        Some(index) => index < STEP_COUNT,
        None => true,
    }
}

/// Where the guidance stands: the position of the current step, or nothing
/// once it is complete or skipped.
#[derive(Clone, Copy, Debug, PartialEq, Eq)]
pub struct OnboardingState {
    step_index: Option<usize>,
}

impl View for OnboardingState {
    type V = Option<nat>;

    closed spec fn view(&self) -> Option<nat> {
        match self.step_index {
            Some(index) => Some(index as nat),
            None => None,
        }
    }
}

impl OnboardingState {
    #[verifier::type_invariant]
    closed spec fn wf(self) -> bool {
        match self.step_index {
            Some(index) => index < STEP_COUNT,
            None => true,
        }
    }

    pub fn new(completed: bool) -> (state: Self)
        ensures
            within_steps(state@),
            state@ == (if completed { None } else { Some(0nat) }),
    {
        OnboardingState { step_index: if completed { None } else { Some(0) } }
    }

    /// The position of the current step; it always names a step.
    pub fn position(self) -> (position: Option<usize>)
        ensures
            match position {
                Some(index) => self@ == Some(index as nat) && index < STEP_COUNT,
                None => self@ is None,
            },
    {
        proof {
            use_type_invariant(self);
        }
        self.step_index
    }

    pub fn active(self) -> (active: bool)
        ensures
            active == self@ is Some,
    {
        self.step_index.is_some()
    }

    pub fn step(self) -> (step: Option<OnboardingStep>)
        ensures
            step == (match self@ {
                Some(index) => Some(step_at(index as int)),
                None => None,
            }),
    {
        proof {
            use_type_invariant(self);
        }
        match self.step_index {
            Some(index) => Some(OnboardingStep::at(index)),
            None => None,
        }
    }

    /// The one-based position shown to the player and the number of steps;
    /// a finished guidance shows the last position.
    pub fn progress(self) -> (progress: (usize, usize))
        ensures
            progress.0 == (match self@ {
                Some(index) => index + 1,
                None => STEP_COUNT as nat,
            }),
            progress.1 == STEP_COUNT,
    {
        proof {
            use_type_invariant(self);
        }
        (
            match self.step_index {
                Some(index) => index + 1,
                None => STEP_COUNT,
            },
            STEP_COUNT,
        )
    }

    /// Advances only when the action observed by the session matches the
    /// current instruction. Returns true when onboarding just completed.
    pub fn observe(&mut self, event: OnboardingEvent) -> (completed: bool)
        ensures
            within_steps(final(self)@),
            match old(self)@ {
                None => !completed && final(self)@ == old(self)@,
                Some(index) => if event != expected_event(step_at(index as int)) {
                    !completed && final(self)@ == old(self)@
                } else if index + 1 == STEP_COUNT {
                    completed && final(self)@ == None::<nat>
                } else {
                    !completed && final(self)@ == Some((index + 1) as nat)
                },
            },
    {
        proof {
            use_type_invariant(&*self);
        }
        let index = match self.step_index {
            Some(index) => index,
            None => return false,
        };
        let expected = match OnboardingStep::at(index) {
            OnboardingStep::SelectUnionWorld => OnboardingEvent::UnionWorldSelected,
            OnboardingStep::PreviewLaunch => OnboardingEvent::LaunchPreviewed,
            OnboardingStep::LaunchFleet => OnboardingEvent::FleetLaunched,
            OnboardingStep::TuneField => OnboardingEvent::FieldTuned,
            OnboardingStep::ReadAdvisory => OnboardingEvent::AdvisoryRead,
            OnboardingStep::OpenScenarioEditor => OnboardingEvent::ScenarioEditorOpened,
        };
        if event != expected {
            return false;
        }
        if index + 1 == STEP_COUNT {
            self.step_index = None;
            true
        } else {
            self.step_index = Some(index + 1);
            false
        }
    }

    /// Ends the guidance and reports whether it was still running.
    pub fn skip(&mut self) -> (was_active: bool)
        ensures
            within_steps(final(self)@),
            was_active == old(self)@ is Some,
            final(self)@ == None::<nat>,
    {
        let was_active = self.step_index.is_some();
        self.step_index = None;
        was_active
    }

    /// Starts the guidance again from its first step.
    pub fn reset(&mut self)
        ensures
            within_steps(final(self)@),
            final(self)@ == Some(0nat),
    {
        self.step_index = Some(0);
    }
}

} // verus!
