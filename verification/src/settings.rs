//! Settings focus and action model shared by pointer and keyboard input.

use vstd::prelude::*;

use crate::presentation::{GraphicsQuality, MotionPreference, UiScale};

verus! {

#[derive(Clone, Copy, Debug, PartialEq, Eq, Structural)]
pub enum SettingsAction {
    SetUiScale(UiScale),
    SetMotion(MotionPreference),
    SetHighContrast(bool),
    SetGraphicsQuality(GraphicsQuality),
    ResetOnboarding,
    Close,
}

/// How many focusable controls the settings screen has.
pub const CONTROL_COUNT: usize = 11;

/// The control after `index`, wrapping from the last to the first.
pub open spec fn next_focus(index: int) -> int {
    (index + 1) % (CONTROL_COUNT as int)
}

/// The control before `index`, wrapping from the first to the last.
pub open spec fn previous_focus(index: int) -> int {
    (index + CONTROL_COUNT - 1) % (CONTROL_COUNT as int)
}

/// Which settings control holds keyboard focus.
#[derive(Clone, Copy, Debug, PartialEq, Eq)]
pub struct SettingsState {
    focus_index: usize,
}

impl View for SettingsState {
    type V = nat;

    closed spec fn view(&self) -> nat {
        self.focus_index as nat
    }
}

impl Default for SettingsState {
    fn default() -> (state: Self)
        ensures
            state@ == 0,
    {
        SettingsState { focus_index: 0 }
    }
}

impl SettingsState {
    #[verifier::type_invariant]
    closed spec fn wf(self) -> bool {
        self.focus_index < CONTROL_COUNT
    }

    pub fn focus_index(self) -> (index: usize)
        ensures
            index == self@,
            index < CONTROL_COUNT,
    {
        proof {
            use_type_invariant(self);
        }
        self.focus_index
    }

    /// Focuses control `index`, or the last control when `index` is past it.
    pub fn focus(&mut self, index: usize)
        ensures
            final(self)@ == (if index < CONTROL_COUNT {
                index as nat
            } else {
                (CONTROL_COUNT - 1) as nat
            }),
    {
        self.focus_index = if index < CONTROL_COUNT - 1 {
            index
        } else {
            CONTROL_COUNT - 1
        };
    }

    pub fn focus_next(&mut self)
        ensures
            final(self)@ == next_focus(old(self)@ as int),
    {
        proof {
            use_type_invariant(&*self);
        }
        self.focus_index = (self.focus_index + 1) % CONTROL_COUNT;
    }

    pub fn focus_previous(&mut self)
        ensures
            final(self)@ == previous_focus(old(self)@ as int),
    {
        proof {
            use_type_invariant(&*self);
        }
        self.focus_index = (self.focus_index + CONTROL_COUNT - 1) % CONTROL_COUNT;
    }
}

/// Moving focus forward and then back returns to the same control, and so
/// does moving back and then forward.
pub proof fn lemma_focus_steps_undo_each_other(index: int)
    requires
        0 <= index < CONTROL_COUNT,
    ensures
        previous_focus(next_focus(index)) == index,
        next_focus(previous_focus(index)) == index,
{
}

/// Focus movement never leaves the controls.
pub proof fn lemma_focus_steps_stay_on_controls(index: int)
    requires
        0 <= index < CONTROL_COUNT,
    ensures
        0 <= next_focus(index) < CONTROL_COUNT,
        0 <= previous_focus(index) < CONTROL_COUNT,
{
}

} // verus!
