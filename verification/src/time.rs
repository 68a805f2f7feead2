//! Fixed-step simulation timing: wall-clock frames accumulate into whole
//! ticks at a fixed rate, carrying the rational remainder exactly.

use std::time::Duration;

use vstd::prelude::*;

verus! {

pub const NANOS_PER_SECOND: u128 = 1_000_000_000;

/// The longest frame the clock accepts, in nanoseconds; longer frames are
/// clamped to it.
pub const MAX_FRAME_DELTA_NANOS: u128 = 250_000_000;

/// The length of `delta` in whole nanoseconds.
pub uninterp spec fn duration_nanos(delta: Duration) -> u128;

/// `Duration::as_nanos`: the total whole nanoseconds of the duration.
#[verifier::external_body]
fn frame_nanos(delta: Duration) -> (nanos: u128)
    ensures
        nanos == duration_nanos(delta),
{
    delta.as_nanos()
}

/// The clock's contents: scaled remainder and pending whole steps.
pub struct ClockView {
    pub tick_hz: nat,
    pub remainder: nat,
    pub pending_steps: nat,
    pub max_steps: nat,
}

/// The clock after a frame of `nanos` nanoseconds: the frame is clamped,
/// scaled by the tick rate and added to the remainder; whole seconds of
/// scaled time become steps, up to the limit on pending steps, and the rest
/// is carried.
pub open spec fn after_frame(clock: ClockView, nanos: nat) -> ClockView {
    let accepted = if nanos < MAX_FRAME_DELTA_NANOS { nanos } else { MAX_FRAME_DELTA_NANOS as nat };
    let scaled = clock.remainder + accepted * clock.tick_hz;
    let whole = scaled / (NANOS_PER_SECOND as nat);
    let available = if clock.max_steps >= clock.pending_steps {
        (clock.max_steps - clock.pending_steps) as nat
    } else {
        0nat
    };
    ClockView {
        remainder: scaled % (NANOS_PER_SECOND as nat),
        pending_steps: clock.pending_steps + if whole < available { whole } else { available },
        ..clock
    }
}

pub struct FixedClock {
    tick_hz: u32,
    scaled_accumulator: u128,
    pending_steps: usize,
    max_steps: usize,
}

impl View for FixedClock {
    type V = ClockView;

    closed spec fn view(&self) -> ClockView {
        ClockView {
            tick_hz: self.tick_hz as nat,
            remainder: self.scaled_accumulator as nat,
            pending_steps: self.pending_steps as nat,
            max_steps: self.max_steps as nat,
        }
    }
}

impl FixedClock {
    #[verifier::type_invariant]
    closed spec fn wf(self) -> bool {
        &&& self.tick_hz > 0
        &&& self.scaled_accumulator < NANOS_PER_SECOND
        &&& self.pending_steps <= self.max_steps
    }

    pub fn new(tick_hz: u32, max_steps: usize) -> (clock: Self)
        requires
            tick_hz > 0,
        ensures
            clock@ == (ClockView {
                tick_hz: tick_hz as nat,
                remainder: 0,
                pending_steps: 0,
                max_steps: max_steps as nat,
            }),
    {
        FixedClock { tick_hz, scaled_accumulator: 0, pending_steps: 0, max_steps }
    }

    /// Accounts for a frame of `nanos` nanoseconds.
    pub fn push_frame_nanos(&mut self, nanos: u128)
        ensures
            final(self)@ == after_frame(old(self)@, nanos as nat),
            final(self)@.remainder < NANOS_PER_SECOND,
            final(self)@.pending_steps <= final(self)@.max_steps,
    {
        proof {
            use_type_invariant(&*self);
        }
        let accepted = if nanos < MAX_FRAME_DELTA_NANOS {
            nanos
        } else {
            MAX_FRAME_DELTA_NANOS
        };
        assert(accepted * (self.tick_hz as u128) <= 250_000_000 * 4_294_967_295) by (nonlinear_arith)
            requires
                accepted <= 250_000_000,
                self.tick_hz <= 4_294_967_295u32,
        ;
        let scaled = self.scaled_accumulator + accepted * (self.tick_hz as u128);
        let whole = scaled / NANOS_PER_SECOND;
        self.scaled_accumulator = scaled % NANOS_PER_SECOND;
        let available = self.max_steps - self.pending_steps;
        assert(whole < 1_100_000_000);
        let whole_steps = whole as usize;
        let added = if whole_steps < available {
            whole_steps
        } else {
            available
        };
        self.pending_steps = self.pending_steps + added;
    }

    /// Accounts for a frame of length `delta`.
    pub fn push_frame(&mut self, delta: Duration)
        ensures
            final(self)@ == after_frame(old(self)@, duration_nanos(delta) as nat),
    {
        let nanos = frame_nanos(delta);
        self.push_frame_nanos(nanos);
    }

    /// Takes one pending step, if there is one.
    pub fn take_step(&mut self) -> (stepped: bool)
        ensures
            stepped == (old(self)@.pending_steps > 0),
            final(self)@ == (if stepped {
                ClockView { pending_steps: (old(self)@.pending_steps - 1) as nat, ..old(self)@ }
            } else {
                old(self)@
            }),
    {
        proof {
            use_type_invariant(&*self);
        }
        if self.pending_steps == 0 {
            return false;
        }
        self.pending_steps = self.pending_steps - 1;
        true
    }

    /// The carried remainder of scaled time, in billionths of a step.
    pub fn remainder_nanos(&self) -> (remainder: u128)
        ensures
            remainder == self@.remainder,
            remainder < NANOS_PER_SECOND,
    {
        proof {
            use_type_invariant(self);
        }
        self.scaled_accumulator
    }

    /// Discards pending steps and the carried remainder.
    pub fn clear(&mut self)
        ensures
            final(self)@ == (ClockView { remainder: 0, pending_steps: 0, ..old(self)@ }),
    {
        proof {
            use_type_invariant(&*self);
        }
        self.scaled_accumulator = 0;
        self.pending_steps = 0;
    }
}

/// However long the frames are, the pending steps never exceed the limit
/// the clock was made with and the remainder stays below one step.
pub proof fn lemma_frames_bound_pending_work(clock: ClockView, nanos: nat)
    requires
        clock.pending_steps <= clock.max_steps,
        clock.remainder < NANOS_PER_SECOND,
    ensures
        after_frame(clock, nanos).pending_steps <= clock.max_steps,
        after_frame(clock, nanos).remainder < NANOS_PER_SECOND,
        after_frame(clock, nanos).max_steps == clock.max_steps,
        after_frame(clock, nanos).tick_hz == clock.tick_hz,
{
}

/// No simulated time is lost while the step limit is not reached: scaled
/// time before a frame plus the frame's clamped scaled length equals the
/// steps it produced, in whole seconds, plus the new remainder.
pub proof fn lemma_frames_conserve_time(clock: ClockView, nanos: nat)
    requires
        clock.pending_steps <= clock.max_steps,
        clock.remainder < NANOS_PER_SECOND,
        (clock.remainder + (if nanos < MAX_FRAME_DELTA_NANOS { nanos } else {
            MAX_FRAME_DELTA_NANOS as nat
        }) * clock.tick_hz) / (NANOS_PER_SECOND as nat) <= clock.max_steps - clock.pending_steps,
    ensures
        clock.remainder + (if nanos < MAX_FRAME_DELTA_NANOS { nanos } else {
            MAX_FRAME_DELTA_NANOS as nat
        }) * clock.tick_hz == (after_frame(clock, nanos).pending_steps - clock.pending_steps)
            * NANOS_PER_SECOND + after_frame(clock, nanos).remainder,
{
    let accepted = if nanos < MAX_FRAME_DELTA_NANOS { nanos } else { MAX_FRAME_DELTA_NANOS as nat };
    let scaled = clock.remainder + accepted * clock.tick_hz;
    assert(scaled == (scaled / (NANOS_PER_SECOND as nat)) * NANOS_PER_SECOND + scaled % (
    NANOS_PER_SECOND as nat)) by (nonlinear_arith);
}

} // verus!
