//! Presentation preferences the settings screen edits.

use vstd::prelude::*;

verus! {

/// The requested graphics quality.
#[derive(Clone, Copy, Debug, PartialEq, Eq, Structural)]
pub enum GraphicsQuality {
    Auto,
    Low,
    High,
}

/// Whether camera easing, parallax, pulsing halos and nonessential particles
/// are shown.
#[derive(Clone, Copy, Debug, PartialEq, Eq, Structural)]
pub enum MotionPreference {
    Full,
    Reduced,
}

/// The interface scale.
#[derive(Clone, Copy, Debug, PartialEq, Eq, Structural)]
pub enum UiScale {
    Percent85,
    Percent100,
    Percent115,
    Percent130,
}

/// The scale of `scale`, in percent.
pub open spec fn scale_percent(scale: UiScale) -> u32 {
    match scale {
        UiScale::Percent85 => 85,
        UiScale::Percent100 => 100,
        UiScale::Percent115 => 115,
        UiScale::Percent130 => 130,
    }
}

impl UiScale {
    pub fn percent(self) -> (percent: u32)
        ensures
            percent == scale_percent(self),
    {
        match self {
            UiScale::Percent85 => 85,
            UiScale::Percent100 => 100,
            UiScale::Percent115 => 115,
            UiScale::Percent130 => 130,
        }
    }
}

} // verus!
