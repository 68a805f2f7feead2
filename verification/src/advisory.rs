//! The advisory scheduler's vocabulary and its cadence and device-epoch
//! decisions. The neural scores themselves are computed outside the library.

use vstd::prelude::*;

use crate::game::Tick;

verus! {

pub const MODEL_VERSION: u32 = 1;

/// Ticks between two cadence-driven advisory requests.
pub const CADENCE_TICKS: u64 = 30;

#[derive(Clone, Copy, Debug, PartialEq, Eq, Structural)]
pub enum AdvisoryBackend {
    Cpu,
    WebGpu,
    CpuFallback,
}

#[derive(Clone, Copy, Debug, PartialEq, Eq, Structural)]
pub struct AdvisoryMetadata {
    pub device_epoch: u64,
    pub request_id: u64,
    pub model_version: u32,
    pub source_tick: Tick,
    pub source_fingerprint: u64,
}

#[derive(Clone, Copy, Debug, PartialEq, Eq, Structural)]
pub enum AdvisoryTrigger {
    Initialization,
    Restart,
    MaterialEvent,
    Tick,
}

#[derive(Clone, Copy, Debug, PartialEq, Eq, Structural)]
pub enum CompletionDisposition {
    Accepted,
    Stale,
    Fallback,
}

#[derive(Clone, Debug, PartialEq, Eq)]
pub enum GpuAdvisoryError {
    Busy,
    Shader(String),
    /// GPU score readback failed.
    Readback(String),
    Poll(String),
    Device(String),
}

/// Whether a request is due: every trigger but the tick cadence requests at
/// once; the cadence requests on multiples of [`CADENCE_TICKS`], at most once
/// per tick, and not for a tick the newest request already covers.
pub open spec fn request_due(
    trigger: AdvisoryTrigger,
    next_tick: Tick,
    last_cadence_tick: Option<Tick>,
    latest_source_tick: Option<Tick>,
) -> bool {
    trigger != AdvisoryTrigger::Tick || (next_tick.0 % CADENCE_TICKS == 0 && last_cadence_tick
        != Some(next_tick) && latest_source_tick != Some(next_tick))
}

pub fn advisory_request_due(
    trigger: AdvisoryTrigger,
    next_tick: Tick,
    last_cadence_tick: Option<Tick>,
    latest_source_tick: Option<Tick>,
) -> (due: bool)
    ensures
        due == request_due(trigger, next_tick, last_cadence_tick, latest_source_tick),
{
    if trigger != AdvisoryTrigger::Tick {
        return true;
    }
    if next_tick.0 % CADENCE_TICKS != 0 {
        return false;
    }
    let repeated = match last_cadence_tick {
        Some(tick) => tick == next_tick,
        None => false,
    };
    let covered = match latest_source_tick {
        Some(tick) => tick == next_tick,
        None => false,
    };
    !repeated && !covered
}

/// GPU advisory runs when the device offers it and it was not disabled for
/// the current device epoch.
pub fn advisory_gpu_enabled(gpu_available: bool, disabled_epoch: Option<u64>, device_epoch: u64) -> (enabled: bool)
    ensures
        enabled == (gpu_available && disabled_epoch != Some(device_epoch)),
{
    gpu_available && match disabled_epoch {
        Some(epoch) => epoch != device_epoch,
        None => true,
    }
}


/// One advisory request: its identity and the caller's payload, the packed
/// features and the CPU scores computed for it.
#[derive(Clone, Copy, Debug, PartialEq, Eq)]
pub struct AdvisoryRequest<R> {
    pub metadata: AdvisoryMetadata,
    pub payload: R,
}

/// The scores a snapshot shows: a request's own CPU scores, or scores the
/// GPU delivered.
#[derive(Clone, Copy, Debug, PartialEq, Eq)]
pub enum SnapshotScores<R, G> {
    Cpu(R),
    Gpu(G),
}

/// What the advisory panel shows.
#[derive(Clone, Copy, Debug, PartialEq, Eq)]
pub struct AdvisorySnapshot<R, G> {
    pub metadata: AdvisoryMetadata,
    pub backend: AdvisoryBackend,
    pub scores: SnapshotScores<R, G>,
}

#[derive(Clone, Copy, Debug, PartialEq, Eq)]
pub struct RequestOutcome<R, G> {
    pub snapshot: AdvisorySnapshot<R, G>,
    pub gpu_request: Option<AdvisoryRequest<R>>,
}

#[derive(Clone, Copy, Debug, PartialEq, Eq)]
pub struct CompletionOutcome<R, G> {
    pub disposition: CompletionDisposition,
    pub snapshot: Option<AdvisorySnapshot<R, G>>,
    pub gpu_request: Option<AdvisoryRequest<R>>,
}

/// The contents of an [`AdvisoryController`].
pub struct AdvisoryState<R, G> {
    pub device_epoch: u64,
    pub gpu_available: bool,
    pub gpu_disabled_epoch: Option<u64>,
    pub next_request_id: u64,
    pub latest: Option<AdvisoryMetadata>,
    pub latest_cpu: Option<AdvisoryRequest<R>>,
    pub published: Option<AdvisorySnapshot<R, G>>,
    pub in_flight: Option<AdvisoryRequest<R>>,
    pub queued: Option<AdvisoryRequest<R>>,
    pub last_cadence_tick: Option<Tick>,
}

/// The request identifier after `id`, wrapping at the end of the range.
pub open spec fn next_request_id(id: u64) -> u64 {
    if id == u64::MAX {
        0
    } else {
        (id + 1) as u64
    }
}

/// Whether the GPU may score requests: the device offers it and it was not
/// disabled for the current device epoch.
pub open spec fn gpu_enabled_in<R, G>(state: AdvisoryState<R, G>) -> bool {
    state.gpu_available && state.gpu_disabled_epoch != Some(state.device_epoch)
}

/// A request with the GPU or waiting for it belongs to the newest CPU
/// scores on record, which a fallback can republish.
pub open spec fn advisory_consistent<R, G>(state: AdvisoryState<R, G>) -> bool {
    (state.in_flight is Some || state.queued is Some) ==> state.latest_cpu is Some
}

/// `after` publishes a WebGpu snapshot that `before` did not show.
pub open spec fn newly_webgpu<R, G>(before: AdvisoryState<R, G>, after: AdvisoryState<R, G>) -> bool {
    &&& after.published != before.published
    &&& after.published matches Some(snapshot) && snapshot.backend == AdvisoryBackend::WebGpu
}

/// The CPU snapshot of `request` shown under `backend`.
pub open spec fn cpu_snapshot<R, G>(request: AdvisoryRequest<R>, backend: AdvisoryBackend) -> AdvisorySnapshot<R, G> {
    AdvisorySnapshot { metadata: request.metadata, backend, scores: SnapshotScores::Cpu(request.payload) }
}

/// Schedules read-only advisory scoring: every due request is published at
/// once from its CPU scores and, while the GPU is enabled, offered to it;
/// at most one request is with the GPU and at most one waits behind it.
pub struct AdvisoryController<R, G> {
    device_epoch: u64,
    gpu_available: bool,
    gpu_disabled_epoch: Option<u64>,
    next_request_id: u64,
    latest: Option<AdvisoryMetadata>,
    latest_cpu: Option<AdvisoryRequest<R>>,
    published: Option<AdvisorySnapshot<R, G>>,
    in_flight: Option<AdvisoryRequest<R>>,
    queued: Option<AdvisoryRequest<R>>,
    last_cadence_tick: Option<Tick>,
}

impl<R, G> View for AdvisoryController<R, G> {
    type V = AdvisoryState<R, G>;

    closed spec fn view(&self) -> AdvisoryState<R, G> {
        AdvisoryState {
            device_epoch: self.device_epoch,
            gpu_available: self.gpu_available,
            gpu_disabled_epoch: self.gpu_disabled_epoch,
            next_request_id: self.next_request_id,
            latest: self.latest,
            latest_cpu: self.latest_cpu,
            published: self.published,
            in_flight: self.in_flight,
            queued: self.queued,
            last_cadence_tick: self.last_cadence_tick,
        }
    }
}

impl<R: Copy, G: Copy> AdvisoryController<R, G> {
    pub fn new(device_epoch: u64, gpu_available: bool) -> (controller: Self)
        ensures
            advisory_consistent(controller@),
            controller@ == (AdvisoryState::<R, G> {
                device_epoch,
                gpu_available,
                gpu_disabled_epoch: None,
                next_request_id: 0,
                latest: None,
                latest_cpu: None,
                published: None,
                in_flight: None,
                queued: None,
                last_cadence_tick: None,
            }),
    {
        AdvisoryController {
            device_epoch,
            gpu_available,
            gpu_disabled_epoch: None,
            next_request_id: 0,
            latest: None,
            latest_cpu: None,
            published: None,
            in_flight: None,
            queued: None,
            last_cadence_tick: None,
        }
    }

    /// A new device epoch clears the GPU failure and forgets the requests
    /// the old device held; the same epoch only updates availability.
    pub fn set_device_epoch(&mut self, device_epoch: u64, gpu_available: bool)
        ensures
            advisory_consistent(old(self)@) ==> advisory_consistent(final(self)@),
            device_epoch != old(self)@.device_epoch ==> final(self)@ == (AdvisoryState {
                device_epoch,
                gpu_available,
                gpu_disabled_epoch: None,
                in_flight: None,
                queued: None,
                ..old(self)@
            }),
            device_epoch == old(self)@.device_epoch ==> final(self)@ == (AdvisoryState {
                gpu_available,
                ..old(self)@
            }),
    {
        if device_epoch != self.device_epoch {
            self.device_epoch = device_epoch;
            self.gpu_disabled_epoch = None;
            self.in_flight = None;
            self.queued = None;
        }
        self.gpu_available = gpu_available;
    }

    pub fn gpu_enabled(&self) -> (enabled: bool)
        ensures
            enabled == gpu_enabled_in(self@),
    {
        self.gpu_available && match self.gpu_disabled_epoch {
            Some(epoch) => epoch != self.device_epoch,
            None => true,
        }
    }

    pub fn has_in_flight_request(&self) -> (in_flight: bool)
        ensures
            in_flight == self@.in_flight is Some,
    {
        self.in_flight.is_some()
    }

    pub fn has_queued_request(&self) -> (queued: bool)
        ensures
            queued == self@.queued is Some,
    {
        self.queued.is_some()
    }

    /// The request the GPU is scoring, whose CPU scores its answer is held to.
    pub fn in_flight_request(&self) -> (request: Option<AdvisoryRequest<R>>)
        ensures
            request == self@.in_flight,
    {
        self.in_flight
    }

    pub fn published(&self) -> (snapshot: Option<AdvisorySnapshot<R, G>>)
        ensures
            snapshot == self@.published,
    {
        self.published
    }

    /// Issues a request for the campaign at `next_tick` when `trigger` makes
    /// one due, with `payload` the features and CPU scores computed for it.
    /// The CPU scores are published at once; the request goes to the GPU when
    /// it is enabled and idle, and otherwise waits, replacing any older
    /// waiting request.
    pub fn request_if_due(
        &mut self,
        next_tick: Tick,
        source_fingerprint: u64,
        trigger: AdvisoryTrigger,
        payload: R,
    ) -> (outcome: Option<RequestOutcome<R, G>>)
        ensures
            advisory_consistent(old(self)@) ==> advisory_consistent(final(self)@),
            !newly_webgpu(old(self)@, final(self)@),
            !request_due(
                trigger,
                next_tick,
                old(self)@.last_cadence_tick,
                match old(self)@.latest {
                    Some(latest) => Some(latest.source_tick),
                    None => None,
                },
            ) ==> outcome is None && final(self)@ == old(self)@,
            request_due(
                trigger,
                next_tick,
                old(self)@.last_cadence_tick,
                match old(self)@.latest {
                    Some(latest) => Some(latest.source_tick),
                    None => None,
                },
            ) ==> {
                let metadata = AdvisoryMetadata {
                    device_epoch: old(self)@.device_epoch,
                    request_id: old(self)@.next_request_id,
                    model_version: MODEL_VERSION,
                    source_tick: next_tick,
                    source_fingerprint,
                };
                let request = AdvisoryRequest { metadata, payload };
                let snapshot = cpu_snapshot::<R, G>(
                    request,
                    if old(self)@.gpu_disabled_epoch == Some(old(self)@.device_epoch) {
                        AdvisoryBackend::CpuFallback
                    } else {
                        AdvisoryBackend::Cpu
                    },
                );
                &&& final(self)@.device_epoch == old(self)@.device_epoch
                &&& final(self)@.gpu_available == old(self)@.gpu_available
                &&& final(self)@.gpu_disabled_epoch == old(self)@.gpu_disabled_epoch
                &&& final(self)@.next_request_id == next_request_id(old(self)@.next_request_id)
                &&& final(self)@.latest == Some(metadata)
                &&& final(self)@.latest_cpu == Some(request)
                &&& final(self)@.published == Some(snapshot)
                &&& final(self)@.last_cadence_tick == (if trigger == AdvisoryTrigger::Tick {
                    Some(next_tick)
                } else {
                    old(self)@.last_cadence_tick
                })
                &&& if !gpu_enabled_in(old(self)@) {
                    &&& outcome == Some(RequestOutcome { snapshot, gpu_request: None })
                    &&& final(self)@.in_flight == old(self)@.in_flight
                    &&& final(self)@.queued == old(self)@.queued
                } else if old(self)@.in_flight is None {
                    &&& outcome == Some(RequestOutcome { snapshot, gpu_request: Some(request) })
                    &&& final(self)@.in_flight == Some(request)
                    &&& final(self)@.queued == old(self)@.queued
                } else {
                    &&& outcome == Some(RequestOutcome { snapshot, gpu_request: None })
                    &&& final(self)@.in_flight == old(self)@.in_flight
                    &&& final(self)@.queued == Some(request)
                }
            },
    {
        let latest_tick = match self.latest {
            Some(latest) => Some(latest.source_tick),
            None => None,
        };
        if !advisory_request_due(trigger, next_tick, self.last_cadence_tick, latest_tick) {
            return None;
        }
        if trigger == AdvisoryTrigger::Tick {
            self.last_cadence_tick = Some(next_tick);
        }
        let metadata = AdvisoryMetadata {
            device_epoch: self.device_epoch,
            request_id: self.next_request_id,
            model_version: MODEL_VERSION,
            source_tick: next_tick,
            source_fingerprint,
        };
        self.next_request_id = if self.next_request_id == u64::MAX {
            0
        } else {
            self.next_request_id + 1
        };
        let request = AdvisoryRequest { metadata, payload };
        self.latest = Some(metadata);
        self.latest_cpu = Some(request);
        let fallen_back = match self.gpu_disabled_epoch {
            Some(epoch) => epoch == self.device_epoch,
            None => false,
        };
        let backend = if fallen_back {
            AdvisoryBackend::CpuFallback
        } else {
            AdvisoryBackend::Cpu
        };
        let snapshot = AdvisorySnapshot {
            metadata: request.metadata,
            backend,
            scores: SnapshotScores::Cpu(request.payload),
        };
        self.published = Some(snapshot);
        let gpu_request = if !self.gpu_enabled() {
            None
        } else if self.in_flight.is_none() {
            self.in_flight = Some(request);
            Some(request)
        } else {
            self.queued = Some(request);
            None
        };
        Some(RequestOutcome { snapshot, gpu_request })
    }

    /// Moves the waiting request to the GPU while it is enabled; otherwise
    /// drops it.
    fn take_next_gpu_request(&mut self) -> (next: Option<AdvisoryRequest<R>>)
        ensures
            gpu_enabled_in(old(self)@) ==> {
                &&& next == old(self)@.queued
                &&& final(self)@ == (AdvisoryState { in_flight: old(self)@.queued, queued: None, ..old(self)@ })
            },
            !gpu_enabled_in(old(self)@) ==> {
                &&& next is None
                &&& final(self)@ == (AdvisoryState { queued: None, ..old(self)@ })
            },
    {
        if !self.gpu_enabled() {
            self.queued = None;
            return None;
        }
        let next = self.queued;
        self.queued = None;
        self.in_flight = next;
        next
    }

    /// Disables the GPU for the current epoch and publishes the newest CPU
    /// scores, those of `request` when there are none newer.
    fn fallback_for_epoch(&mut self, request: AdvisoryRequest<R>) -> (outcome: CompletionOutcome<R, G>)
        ensures
            ({
                let shown = cpu_snapshot::<R, G>(
                    match old(self)@.latest_cpu {
                        Some(latest) => latest,
                        None => request,
                    },
                    AdvisoryBackend::CpuFallback,
                );
                &&& outcome == CompletionOutcome {
                    disposition: CompletionDisposition::Fallback,
                    snapshot: Some(shown),
                    gpu_request: None,
                }
                &&& final(self)@ == (AdvisoryState {
                    gpu_disabled_epoch: Some(old(self)@.device_epoch),
                    in_flight: None,
                    queued: None,
                    published: Some(shown),
                    ..old(self)@
                })
            }),
    {
        self.gpu_disabled_epoch = Some(self.device_epoch);
        let fallback = match self.latest_cpu {
            Some(latest) => latest,
            None => request,
        };
        self.in_flight = None;
        self.queued = None;
        let snapshot = AdvisorySnapshot {
            metadata: fallback.metadata,
            backend: AdvisoryBackend::CpuFallback,
            scores: SnapshotScores::Cpu(fallback.payload),
        };
        self.published = Some(snapshot);
        CompletionOutcome {
            disposition: CompletionDisposition::Fallback,
            snapshot: Some(snapshot),
            gpu_request: None,
        }
    }

    /// Takes the GPU's answer for the request `metadata` names: `scores` is
    /// `None` when the GPU failed, or its scores were out of range or
    /// disagreed with the CPU's. An answer for anything but the request in
    /// flight is stale and changes nothing; a failure disables the GPU for
    /// the epoch; scores for a request that is no longer the newest, or from
    /// another epoch or model, are stale and the waiting request moves up;
    /// otherwise the GPU scores are published.
    pub fn complete_gpu(&mut self, metadata: AdvisoryMetadata, scores: Option<G>) -> (outcome:
        CompletionOutcome<R, G>)
        ensures
            advisory_consistent(old(self)@) ==> advisory_consistent(final(self)@),
            newly_webgpu(old(self)@, final(self)@) ==> outcome.disposition
                == CompletionDisposition::Accepted,
            !(old(self)@.in_flight matches Some(in_flight) && in_flight.metadata == metadata) ==> {
                &&& outcome == CompletionOutcome::<R, G> {
                    disposition: CompletionDisposition::Stale,
                    snapshot: None,
                    gpu_request: None,
                }
                &&& final(self)@ == old(self)@
            },
            old(self)@.in_flight is Some && old(self)@.in_flight->0.metadata == metadata ==> match scores {
                None => {
                    let shown = cpu_snapshot::<R, G>(
                        match old(self)@.latest_cpu {
                            Some(latest) => latest,
                            None => old(self)@.in_flight->0,
                        },
                        AdvisoryBackend::CpuFallback,
                    );
                    &&& outcome == CompletionOutcome {
                        disposition: CompletionDisposition::Fallback,
                        snapshot: Some(shown),
                        gpu_request: None,
                    }
                    &&& final(self)@ == (AdvisoryState {
                        gpu_disabled_epoch: Some(old(self)@.device_epoch),
                        in_flight: None,
                        queued: None,
                        published: Some(shown),
                        ..old(self)@
                    })
                },
                Some(gpu) => {
                    let next = if gpu_enabled_in(old(self)@) {
                        old(self)@.queued
                    } else {
                        None
                    };
                    &&& final(self)@.in_flight == next
                    &&& final(self)@.queued is None
                    &&& if old(self)@.latest != Some(metadata) || metadata.device_epoch
                        != old(self)@.device_epoch || metadata.model_version != MODEL_VERSION {
                        &&& outcome == CompletionOutcome::<R, G> {
                            disposition: CompletionDisposition::Stale,
                            snapshot: None,
                            gpu_request: next,
                        }
                        &&& final(self)@ == (AdvisoryState {
                            in_flight: next,
                            queued: None,
                            ..old(self)@
                        })
                    } else {
                        let shown = AdvisorySnapshot {
                            metadata: metadata,
                            backend: AdvisoryBackend::WebGpu,
                            scores: SnapshotScores::Gpu(gpu),
                        };
                        &&& outcome == CompletionOutcome {
                            disposition: CompletionDisposition::Accepted,
                            snapshot: Some(shown),
                            gpu_request: next,
                        }
                        &&& final(self)@ == (AdvisoryState {
                            in_flight: next,
                            queued: None,
                            published: Some(shown),
                            ..old(self)@
                        })
                    }
                },
            },
    {
        let request = match self.in_flight {
            Some(in_flight) => in_flight,
            None => {
                return CompletionOutcome {
                    disposition: CompletionDisposition::Stale,
                    snapshot: None,
                    gpu_request: None,
                };
            },
        };
        if request.metadata != metadata {
            return CompletionOutcome {
                disposition: CompletionDisposition::Stale,
                snapshot: None,
                gpu_request: None,
            };
        }
        self.in_flight = None;
        let gpu = match scores {
            Some(gpu) => gpu,
            None => return self.fallback_for_epoch(request),
        };
        let newest = match self.latest {
            Some(latest) => latest == metadata,
            None => false,
        };
        if !newest || metadata.device_epoch != self.device_epoch || metadata.model_version
            != MODEL_VERSION {
            let next = self.take_next_gpu_request();
            return CompletionOutcome {
                disposition: CompletionDisposition::Stale,
                snapshot: None,
                gpu_request: next,
            };
        }
        let snapshot = AdvisorySnapshot {
            metadata: request.metadata,
            backend: AdvisoryBackend::WebGpu,
            scores: SnapshotScores::Gpu(gpu),
        };
        self.published = Some(snapshot);
        let next = self.take_next_gpu_request();
        CompletionOutcome {
            disposition: CompletionDisposition::Accepted,
            snapshot: Some(snapshot),
            gpu_request: next,
        }
    }

    /// Disables advisory compute for the current device epoch and
    /// republishes the newest CPU scores, even when no request is with the
    /// GPU. Only a new device epoch permits another try.
    pub fn fail_device_epoch(&mut self, error: GpuAdvisoryError) -> (outcome: CompletionOutcome<R, G>)
        ensures
            advisory_consistent(old(self)@) ==> advisory_consistent(final(self)@),
            !newly_webgpu(old(self)@, final(self)@),
            ({
                let shown = match old(self)@.latest_cpu {
                    Some(latest) => Some(cpu_snapshot::<R, G>(latest, AdvisoryBackend::CpuFallback)),
                    None => None,
                };
                &&& outcome == CompletionOutcome {
                    disposition: CompletionDisposition::Fallback,
                    snapshot: shown,
                    gpu_request: None,
                }
                &&& final(self)@ == (AdvisoryState {
                    gpu_disabled_epoch: Some(old(self)@.device_epoch),
                    in_flight: None,
                    queued: None,
                    published: if shown is Some {
                        shown
                    } else {
                        old(self)@.published
                    },
                    ..old(self)@
                })
            }),
    {
        self.gpu_disabled_epoch = Some(self.device_epoch);
        self.in_flight = None;
        self.queued = None;
        let snapshot = match self.latest_cpu {
            Some(latest) => Some(
                AdvisorySnapshot {
                    metadata: latest.metadata,
                    backend: AdvisoryBackend::CpuFallback,
                    scores: SnapshotScores::Cpu(latest.payload),
                },
            ),
            None => None,
        };
        if snapshot.is_some() {
            self.published = snapshot;
        }
        CompletionOutcome { disposition: CompletionDisposition::Fallback, snapshot, gpu_request: None }
    }
}


/// A GPU failure lasts for its device epoch: while the failure names the
/// current epoch the GPU is disabled whatever availability is reported, and
/// a new epoch on an available device enables it again.
pub proof fn lemma_gpu_failure_lasts_for_its_epoch<R, G>(
    state: AdvisoryState<R, G>,
    available: bool,
    epoch: u64,
)
    requires
        state.gpu_disabled_epoch == Some(state.device_epoch),
    ensures
        !gpu_enabled_in(state),
        !gpu_enabled_in(AdvisoryState { gpu_available: available, ..state }),
        epoch != state.device_epoch ==> gpu_enabled_in(
            AdvisoryState {
                device_epoch: epoch,
                gpu_available: true,
                gpu_disabled_epoch: None,
                in_flight: None,
                queued: None,
                ..state
            },
        ),
{
}

/// The published snapshot comes from the GPU.
pub open spec fn shows_webgpu<R, G>(state: AdvisoryState<R, G>) -> bool {
    state.published matches Some(snapshot) && snapshot.backend == AdvisoryBackend::WebGpu
}

/// WebGpu scores reach the screen only through an accepted completion: over
/// any run of operations in which a step that newly publishes WebGpu scores
/// is an accepted GPU completion (as the contracts of `request_if_due`,
/// `complete_gpu`, `fail_device_epoch` and `set_device_epoch` give), a run
/// that starts without WebGpu scores shown and ends with them contains an
/// accepted completion that published them.
pub proof fn lemma_webgpu_shown_only_after_acceptance<R, G>(
    states: Seq<AdvisoryState<R, G>>,
    accepted: Seq<bool>,
)
    requires
        states.len() == accepted.len() + 1,
        forall|i: int|
            0 <= i < accepted.len() && #[trigger] newly_webgpu(states[i], states[i + 1])
                ==> accepted[i],
        !shows_webgpu(states[0]),
        shows_webgpu(states.last()),
    ensures
        exists|i: int|
            0 <= i < accepted.len() && accepted[i] && #[trigger] newly_webgpu(
                states[i],
                states[i + 1],
            ),
    decreases accepted.len(),
{
    let n = accepted.len() as int;
    if !shows_webgpu(states[n - 1]) {
        let last: int = n - 1;
        assert(states[last + 1] == states.last());
        assert(newly_webgpu(states[last], states[last + 1]));
        assert(accepted[last]);
    } else {
        let prefix = states.drop_last();
        let prior = accepted.drop_last();
        assert forall|i: int|
            0 <= i < prior.len() && #[trigger] newly_webgpu(prefix[i], prefix[i + 1])
                implies prior[i] by {
            assert(prefix[i] == states[i] && prefix[i + 1] == states[i + 1]);
            assert(newly_webgpu(states[i], states[i + 1]));
        }
        assert(prefix[0] == states[0] && prefix.last() == states[n - 1]);
        lemma_webgpu_shown_only_after_acceptance(prefix, prior);
        let i = choose|i: int|
            0 <= i < prior.len() && prior[i] && #[trigger] newly_webgpu(prefix[i], prefix[i + 1]);
        assert(prefix[i] == states[i] && prefix[i + 1] == states[i + 1] && prior[i] == accepted[i]);
        assert(newly_webgpu(states[i], states[i + 1]));
    }
}

/// Request identifiers are issued in sequence and wrap only at the end of
/// their range, so consecutive requests never share one.
pub proof fn lemma_request_ids_advance(id: u64)
    ensures
        next_request_id(id) != id,
        id < u64::MAX ==> next_request_id(id) == id + 1,
{
}

} // verus!
