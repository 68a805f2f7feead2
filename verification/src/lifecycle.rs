//! Window-surface and GPU-initialization lifecycle decisions.

use std::collections::BTreeMap;

use vstd::prelude::*;

verus! {

/// What acquiring the next surface texture reported.
#[derive(Clone, Copy, Debug, PartialEq, Eq, Structural)]
pub enum SurfaceState {
    Success,
    Suboptimal,
    Timeout,
    Occluded,
    Outdated,
    Lost,
    Validation,
}

/// What the frame loop does about it.
#[derive(Clone, Copy, Debug, PartialEq, Eq, Structural)]
pub enum SurfaceDecision {
    Render,
    RenderThenReconfigure,
    Skip,
    Reconfigure,
    Recreate,
    Fatal,
}

pub open spec fn decision_for(state: SurfaceState) -> SurfaceDecision {
    match state {
        SurfaceState::Success => SurfaceDecision::Render,
        SurfaceState::Suboptimal => SurfaceDecision::RenderThenReconfigure,
        SurfaceState::Timeout => SurfaceDecision::Skip,
        SurfaceState::Occluded => SurfaceDecision::Skip,
        SurfaceState::Outdated => SurfaceDecision::Reconfigure,
        SurfaceState::Lost => SurfaceDecision::Recreate,
        SurfaceState::Validation => SurfaceDecision::Fatal,
    }
}

pub fn surface_decision(state: SurfaceState) -> (decision: SurfaceDecision)
    ensures
        decision == decision_for(state),
{
    match state {
        SurfaceState::Success => SurfaceDecision::Render,
        SurfaceState::Suboptimal => SurfaceDecision::RenderThenReconfigure,
        SurfaceState::Timeout | SurfaceState::Occluded => SurfaceDecision::Skip,
        SurfaceState::Outdated => SurfaceDecision::Reconfigure,
        SurfaceState::Lost => SurfaceDecision::Recreate,
        SurfaceState::Validation => SurfaceDecision::Fatal,
    }
}

/// The generation that invalidates `generation`, wrapping at the end of the
/// range.
pub fn next_gpu_generation(generation: u64) -> (next: u64)
    ensures
        next == (if generation == u64::MAX {
            0
        } else {
            generation + 1
        }),
        next != generation,
{
    if generation == u64::MAX {
        0
    } else {
        generation + 1
    }
}

/// A resume starts GPU initialization only when there is no GPU yet and no
/// initialization already running.
pub fn should_start_gpu_initialization(gpu_ready: bool, task_pending: bool) -> (start: bool)
    ensures
        start == (!gpu_ready && !task_pending),
{
    !gpu_ready && !task_pending
}

/// Whether a window of this physical size can be presented to.
pub fn has_presentable_extent(width: u32, height: u32) -> (presentable: bool)
    ensures
        presentable == (width != 0 && height != 0),
{
    width != 0 && height != 0
}

/// Whether a render target of this physical size needs surface-dependent
/// resources at all.
pub fn requires_surface_targets(size: [u32; 2]) -> (required: bool)
    ensures
        required == (size[0] > 0 && size[1] > 0),
{
    size[0] > 0 && size[1] > 0
}

/// Completed GPU initializations, held by the generation that started them
/// until that generation asks for its own.
pub struct CompletionInbox<T> {
    pending: BTreeMap<u64, T>,
}

impl<T> View for CompletionInbox<T> {
    type V = Map<u64, T>;

    closed spec fn view(&self) -> Map<u64, T> {
        self.pending@
    }
}

/// The inbox after `generation` delivered `value`; a second delivery for a
/// generation replaces the first.
pub open spec fn delivered<T>(pending: Map<u64, T>, generation: u64, value: T) -> Map<u64, T> {
    pending.insert(generation, value)
}

/// What a take of `generation` answers from `pending`.
pub open spec fn taken<T>(pending: Map<u64, T>, generation: u64) -> Option<T> {
    if pending.contains_key(generation) {
        Some(pending[generation])
    } else {
        None
    }
}

impl<T> CompletionInbox<T> {
    pub fn new() -> (inbox: Self)
        ensures
            inbox@ == Map::<u64, T>::empty(),
    {
        CompletionInbox { pending: BTreeMap::new() }
    }

    /// Records the result `generation` produced.
    pub fn deliver(&mut self, generation: u64, value: T)
        ensures
            final(self)@ == delivered(old(self)@, generation, value),
    {
        self.pending.insert(generation, value);
    }

    /// Hands out the result of `generation`, if it has arrived, and forgets
    /// it; results of other generations stay where they are.
    pub fn take(&mut self, generation: u64) -> (value: Option<T>)
        ensures
            value == taken(old(self)@, generation),
            final(self)@ == old(self)@.remove(generation),
    {
        self.pending.remove(&generation)
    }

    /// Drops every result that has arrived.
    pub fn clear(&mut self)
        ensures
            final(self)@ == Map::<u64, T>::empty(),
    {
        self.pending.clear();
    }
}

/// A take answers the value its own generation delivered, however many
/// other generations delivered in between and in whatever order.
pub proof fn lemma_take_answers_its_own_delivery<T>(
    pending: Map<u64, T>,
    generation: u64,
    value: T,
    other: u64,
    other_value: T,
)
    requires
        other != generation,
    ensures
        taken(delivered(delivered(pending, generation, value), other, other_value), generation)
            == Some(value),
        taken(delivered(delivered(pending, other, other_value), generation, value), generation)
            == Some(value),
{
}

/// A result is handed out at most once.
pub proof fn lemma_result_taken_once<T>(pending: Map<u64, T>, generation: u64)
    ensures
        taken(pending.remove(generation), generation) is None,
{
}

/// Taking a stale generation never consumes the current one's result.
pub proof fn lemma_stale_take_keeps_current<T>(pending: Map<u64, T>, stale: u64, current: u64)
    requires
        stale != current,
    ensures
        taken(pending.remove(stale), current) == taken(pending, current),
{
}

/// What a finished GPU initialization is to the window layer.
#[derive(Clone, Copy, Debug, PartialEq, Eq, Structural)]
pub enum CompletionDecision {
    /// It belongs to an invalidated generation: drop its result.
    Stale,
    /// The current generation finished without a result: a fatal failure.
    Missing,
    /// Install the result of the current generation.
    Install,
}

/// The GPU startup state as the contracts speak of it.
pub struct StartupView {
    pub generation: u64,
    pub pending: bool,
    pub ready: bool,
    pub fatal: Option<Seq<char>>,
    pub device_epoch: u64,
}

/// The generation after `generation`, wrapping at the end of the range.
pub open spec fn following_generation(generation: u64) -> u64 {
    if generation == u64::MAX {
        0
    } else {
        (generation + 1) as u64
    }
}

/// Tracks GPU startup across resumes and suspends: which initialization
/// generation is current, whether one is running, whether a GPU is
/// installed, the first fatal failure, and the device epoch that advisory
/// work is tagged with.
pub struct GpuStartup {
    generation: u64,
    pending: bool,
    ready: bool,
    fatal: Option<String>,
    device_epoch: u64,
}

impl View for GpuStartup {
    type V = StartupView;

    closed spec fn view(&self) -> StartupView {
        StartupView {
            generation: self.generation,
            pending: self.pending,
            ready: self.ready,
            fatal: match &self.fatal {
                Some(message) => Some(message@),
                None => None,
            },
            device_epoch: self.device_epoch,
        }
    }
}

impl GpuStartup {
    pub fn new() -> (startup: Self)
        ensures
            startup@ == (StartupView { generation: 0, pending: false, ready: false, fatal: None, device_epoch: 0 }),
    {
        GpuStartup { generation: 0, pending: false, ready: false, fatal: None, device_epoch: 0 }
    }

    /// A resume starts an initialization only with no GPU installed and
    /// none running.
    pub fn should_start(&self) -> (start: bool)
        ensures
            start == (!self@.ready && !self@.pending),
    {
        should_start_gpu_initialization(self.ready, self.pending)
    }

    /// Starts an initialization under a fresh generation, which its
    /// completion must carry.
    pub fn begin(&mut self) -> (generation: u64)
        requires
            !old(self)@.ready,
            !old(self)@.pending,
        ensures
            generation == following_generation(old(self)@.generation),
            final(self)@ == (StartupView { generation, pending: true, ..old(self)@ }),
    {
        self.generation = next_gpu_generation(self.generation);
        self.pending = true;
        self.generation
    }

    /// An initialization of `generation` finished, with a result when
    /// `has_result`: only the current generation's result is installed, and
    /// a current one without a result is a fatal failure.
    pub fn complete(&mut self, generation: u64, has_result: bool) -> (decision: CompletionDecision)
        ensures
            generation != old(self)@.generation ==> decision == CompletionDecision::Stale
                && final(self)@ == old(self)@,
            generation == old(self)@.generation && !has_result ==> decision
                == CompletionDecision::Missing && final(self)@ == old(self)@,
            generation == old(self)@.generation && has_result ==> decision
                == CompletionDecision::Install && final(self)@ == (StartupView {
                pending: false,
                ..old(self)@
            }),
    {
        if generation != self.generation {
            return CompletionDecision::Stale;
        }
        if !has_result {
            return CompletionDecision::Missing;
        }
        self.pending = false;
        CompletionDecision::Install
    }

    /// A GPU was installed: it starts a new device epoch, which is
    /// returned.
    pub fn installed(&mut self) -> (epoch: u64)
        ensures
            epoch == following_generation(old(self)@.device_epoch),
            final(self)@ == (StartupView { ready: true, device_epoch: epoch, ..old(self)@ }),
    {
        self.device_epoch = next_gpu_generation(self.device_epoch);
        self.ready = true;
        self.device_epoch
    }

    /// The window was suspended: the GPU is dropped and any running
    /// initialization is invalidated.
    pub fn suspend(&mut self)
        ensures
            final(self)@ == (StartupView {
                generation: following_generation(old(self)@.generation),
                pending: false,
                ready: false,
                ..old(self)@
            }),
    {
        self.generation = next_gpu_generation(self.generation);
        self.pending = false;
        self.ready = false;
    }

    /// Records a fatal failure; the first one is the one reported.
    pub fn fail(&mut self, message: String)
        ensures
            final(self)@ == (StartupView {
                fatal: if old(self)@.fatal is Some {
                    old(self)@.fatal
                } else {
                    Some(message@)
                },
                ..old(self)@
            }),
    {
        if self.fatal.is_none() {
            self.fatal = Some(message);
        }
    }

    /// Hands out the fatal failure once.
    pub fn take_fatal_message(&mut self) -> (message: Option<String>)
        ensures
            match message {
                Some(text) => old(self)@.fatal == Some(text@),
                None => old(self)@.fatal is None,
            },
            final(self)@ == (StartupView { fatal: None, ..old(self)@ }),
    {
        self.fatal.take()
    }
}

/// A suspend makes every initialization started before it stale: its
/// completion, whenever it arrives, is dropped.
pub proof fn lemma_suspend_invalidates_running_initialization(generation: u64)
    ensures
        following_generation(generation) != generation,
{
}

} // verus!
