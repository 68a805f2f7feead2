//! Graphics quality resolution: what a requested quality becomes on a device
//! whose optional High resources may be missing.

use vstd::prelude::*;

use crate::presentation::GraphicsQuality;

verus! {

#[derive(Clone, Copy, Debug, PartialEq, Eq, Structural)]
pub struct ResolvedGraphicsQuality {
    pub requested: GraphicsQuality,
    pub effective: GraphicsQuality,
    pub sample_count: u32,
    pub bloom: bool,
    pub particle_divisor: u32,
}

/// What `requested` resolves to when High resources are, or are not,
/// supported: High effects are used exactly when something other than Low
/// was requested and they are supported.
pub open spec fn resolved(requested: GraphicsQuality, high_supported: bool) -> ResolvedGraphicsQuality {
    let use_high = requested != GraphicsQuality::Low && high_supported;
    ResolvedGraphicsQuality {
        requested,
        effective: if use_high {
            GraphicsQuality::High
        } else {
            GraphicsQuality::Low
        },
        sample_count: if use_high {
            4
        } else {
            1
        },
        bloom: use_high,
        particle_divisor: if use_high {
            1
        } else {
            4
        },
    }
}

pub fn resolve_quality(requested: GraphicsQuality, high_resources_supported: bool) -> (resolved_quality: ResolvedGraphicsQuality)
    ensures
        resolved_quality == resolved(requested, high_resources_supported),
{
    let use_high = requested != GraphicsQuality::Low && high_resources_supported;
    ResolvedGraphicsQuality {
        requested,
        effective: if use_high {
            GraphicsQuality::High
        } else {
            GraphicsQuality::Low
        },
        sample_count: if use_high {
            4
        } else {
            1
        },
        bloom: use_high,
        particle_divisor: if use_high {
            1
        } else {
            4
        },
    }
}

/// Device-epoch state for optional High resources. Once any optional High
/// acquisition fails, the renderer stays on the required Low path until a
/// new device epoch constructs a fresh state.
#[derive(Clone, Copy, Debug, PartialEq, Eq, Structural)]
pub struct GraphicsResourceState {
    high_available: bool,
}

impl View for GraphicsResourceState {
    type V = bool;

    closed spec fn view(&self) -> bool {
        self.high_available
    }
}

impl GraphicsResourceState {
    pub fn new(high_available: bool) -> (state: Self)
        ensures
            state@ == high_available,
    {
        GraphicsResourceState { high_available }
    }

    pub fn resolve(self, requested: GraphicsQuality) -> (resolved_quality: ResolvedGraphicsQuality)
        ensures
            resolved_quality == resolved(requested, self@),
    {
        resolve_quality(requested, self.high_available)
    }

    pub fn high_available(self) -> (available: bool)
        ensures
            available == self@,
    {
        self.high_available
    }

    pub fn disable_high(&mut self)
        ensures
            !final(self)@,
    {
        self.high_available = false;
    }
}

/// Whatever is requested, a device without High resources renders the Low
/// path: one sample, no bloom, a quarter of the particles.
pub proof fn lemma_missing_high_resources_fall_back_to_low(requested: GraphicsQuality)
    ensures
        resolved(requested, false).effective == GraphicsQuality::Low,
        resolved(requested, false).sample_count == 1,
        !resolved(requested, false).bloom,
        resolved(requested, false).particle_divisor == 4,
        resolved(requested, false).requested == requested,
{
}

/// Losing High resources never raises quality: whatever is requested, the
/// resolution without them is no richer than with them.
pub proof fn lemma_fallback_is_monotonic(requested: GraphicsQuality)
    ensures
        resolved(requested, false).sample_count <= resolved(requested, true).sample_count,
        resolved(requested, false).bloom ==> resolved(requested, true).bloom,
        resolved(requested, true).particle_divisor <= resolved(requested, false).particle_divisor,
{
}

/// A Low request is honored even when High resources are available.
pub proof fn lemma_low_request_never_uses_high(high_supported: bool)
    ensures
        resolved(GraphicsQuality::Low, high_supported) == resolved(GraphicsQuality::Low, false),
{
}

} // verus!
