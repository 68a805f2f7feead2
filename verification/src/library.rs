//! The exact-catalog Workshop Library open algorithm, as a verified
//! poll-driven state machine.
//!
//! The algorithm lists or loads a slot, checks the row the user activated is
//! still current, resolves the archive's exact catalog (the built-in one or a
//! stored pack that must decode, re-encode canonically and hash back to the
//! declared hash), replays the archive, falls back to the same slot's retained
//! predecessor when the head fails, and, for an open, claims the Continue
//! marker by compare-and-swap before reporting the candidate ready.
//!
//! Storage and the Workshop core are outside this module. Each step hands the
//! caller one [`LibraryRequest`] to perform and takes its answer back as a
//! [`LibraryInput`]; a step that needs nothing from outside reports a
//! [`LibraryEvent`]. The catalog, decoder and replayed history produced by
//! the Workshop core are carried through unopened as the type parameters
//! `C`, `D` and `H`.

use vstd::prelude::*;
use vstd::string::*;

use crate::client::{ClientDiagnostic, ClientDiagnosticCode, diagnostic_is};
use crate::store::{LoggedStore, StoreCall, WorkshopStore, CatalogHash, LoadedSlot, SaveGeneration, SlotId, SlotSummary, StoreJobId,
    StoreJobState, WorkshopStoreError, WorkshopStoreRequest, WorkshopStoreResult, same_hash,
    store_error_text};

verus! {

/// How many archive replay units one decoder poll may process.
pub const ARCHIVE_REPLAY_UNITS_PER_UPDATE: u64 = 1024;

pub const FORGOT_LIST_JOB: &'static str = "Workshop storage forgot the active slot-list job";
pub const SELECTED_SLOT_INVALID: &'static str = "The explicitly selected Continue slot is missing or archived";
pub const LIST_UNEXPECTED: &'static str = "Workshop slot-list job returned an unexpected result";
pub const FORGOT_LOAD_JOB: &'static str = "Workshop storage forgot the active Continue load job";
pub const LOADED_OTHER_SLOT: &'static str =
    "Workshop storage loaded a slot other than the selected Continue slot";
pub const LOAD_UNEXPECTED: &'static str = "Workshop Continue load returned an unexpected result";
pub const FORGOT_PREVIOUS_JOB: &'static str = "Workshop storage forgot the previous-generation load job";
pub const INVALID_PREVIOUS: &'static str = "Workshop storage returned an invalid previous-generation load";
pub const PREVIOUS_UNEXPECTED: &'static str =
    "Workshop previous-generation load returned an unexpected result";
pub const FORGOT_CATALOG_JOB: &'static str = "Workshop storage forgot the active catalog load job";
pub const WRONG_CATALOG: &'static str =
    "Workshop storage returned a catalog other than the archive's exact catalog";
pub const CATALOG_UNEXPECTED: &'static str = "Workshop catalog load returned an unexpected result";
pub const FORGOT_SELECTION_JOB: &'static str = "Workshop storage forgot the active Continue selection job";
pub const WRONG_SELECTION: &'static str =
    "Workshop storage selected a Continue generation other than the validated one";
pub const SELECTION_UNEXPECTED: &'static str = "Workshop Continue selection returned an unexpected result";
pub const INCONSISTENT_GENERATIONS: &'static str =
    "Workshop storage returned inconsistent loaded and head generations";
pub const DRIVER_MISMATCH: &'static str = "The Library driver answered a request it was not given";

pub const BUILT_IN_CATALOG_INVALID: &'static str = "The built-in Workshop catalog failed validation";
pub const SAVED_CATALOG_INVALID: &'static str = "The saved Workshop catalog failed validation";
pub const SAVED_CATALOG_NOT_CANONICAL: &'static str = "The saved Workshop catalog could not be canonicalized";
pub const SAVED_CATALOG_MISMATCH: &'static str =
    "The saved Workshop catalog was noncanonical or had the wrong hash";

/// What a slot open is for, as far as the store is concerned.
#[derive(Clone, Copy, Debug, PartialEq, Eq, Structural)]
pub enum SlotIntent {
    /// Library Open and Use for Continue: a clean head claims the Continue
    /// marker by compare-and-swap before it is reported ready, and an
    /// archived row is refused.
    Open,
    /// Row Export: a pure read. No Continue selection is ever started, and an
    /// archived row is read like any other.
    Export,
}

/// What the caller asked the client to open.
#[derive(Clone, Copy, Debug, PartialEq, Eq, Structural)]
pub enum LibraryOpen {
    /// Startup Continue: the slot is read from the store's own Continue
    /// marker.
    SelectedContinue,
    /// An explicit activation of one row, carrying the head generation that
    /// row displayed.
    Slot { slot: SlotId, expected_generation: SaveGeneration, intent: SlotIntent },
}

/// A fully replayed, fully validated candidate.
#[derive(Debug)]
pub struct LibraryCandidate<H> {
    pub loaded: LoadedSlot,
    pub history: H,
}

/// Why a [`WorkshopLibraryClient::begin`] was refused.
#[derive(Debug, PartialEq, Eq)]
pub enum LibraryBeginError {
    /// An open is already in flight.
    Active,
    /// Storage refused the open's first request.
    Store(WorkshopStoreError),
}

/// One poll's outcome.
#[derive(Debug)]
pub enum LibraryEvent<H> {
    /// Idle, or still working. The caller does nothing.
    Pending,
    /// There is no Continue marker to open.
    NoCandidate,
    /// A validated candidate.
    Ready(LibraryCandidate<H>),
    /// A store or content failure. The client is idle again.
    Failed(ClientDiagnostic),
    /// The store broke its own protocol.
    ProtocolFailure(&'static str),
    /// The slot's head no longer matches the generation the row showed.
    StaleRow { slot: SlotId, observed: SaveGeneration, head: SaveGeneration },
    /// The slot was archived by the time the load read it.
    ArchivedRow { slot: SlotId },
    /// The candidate replayed completely, but the Continue compare-and-swap
    /// was refused; the candidate is preserved.
    ContinueConflict { candidate: LibraryCandidate<H> },
}

/// One call outside the client that the current step needs.
#[derive(Debug)]
pub enum LibraryRequest<C, D> {
    /// Poll this storage job.
    PollStore(StoreJobId),
    /// Start this storage request.
    StartStore(WorkshopStoreRequest),
    /// Decode the built-in catalog pack.
    DecodeBuiltInCatalog,
    /// Read the catalog hash an archive declares; hand the slot back with
    /// the answer.
    ArchiveCatalogHash(LoadedSlot),
    /// Compute this catalog's hash; hand the catalog back with the answer.
    CatalogHash(C),
    /// Decode these stored pack bytes; hand them back with the answer.
    DecodePack(Vec<u8>),
    /// Encode this catalog canonically; hand it back with the answer.
    EncodePack(C),
    /// Create an archive replay of the slot against the catalog; hand the
    /// slot back with the answer.
    NewDecoder(C, LoadedSlot),
    /// Advance this replay by at most this many units; hand it back.
    PollDecoder(D, u64),
    /// Finish this completed replay.
    FinishDecoder(D),
}

/// The answer to the last request, or `Poll` to take the next step.
#[derive(Debug)]
pub enum LibraryInput<C, D, H> {
    Poll,
    StorePolled(StoreJobState),
    StoreStarted(Result<StoreJobId, WorkshopStoreError>),
    BuiltInCatalog(Option<C>),
    ArchiveHashed(LoadedSlot, Result<CatalogHash, String>),
    CatalogHashed(C, CatalogHash),
    PackDecoded(Vec<u8>, Option<C>),
    PackEncoded(C, Option<Vec<u8>>),
    DecoderCreated(LoadedSlot, Result<D, String>),
    /// `Ok(true)` once the replay is complete.
    DecoderPolled(D, Result<bool, String>),
    DecoderFinished(Result<H, String>),
}

/// What one step asks of the caller or reports to it.
#[derive(Debug)]
pub enum LibraryStep<C, D, H> {
    Request(LibraryRequest<C, D>),
    Event(LibraryEvent<H>),
}

/// Where an open stands. The first seven phases persist between polls; the
/// rest last only while one of the step's outside requests is answered.
#[derive(Debug)]
pub enum LibraryPhase<C, D, H> {
    Idle,
    Listing(StoreJobId),
    Loading { job: StoreJobId, selected_slot: SlotId },
    LoadingPrevious { job: StoreJobId, selected_slot: SlotId, original_failure: ClientDiagnostic },
    LoadingCatalog {
        job: StoreJobId,
        selected_slot: SlotId,
        loaded: LoadedSlot,
        expected_hash: CatalogHash,
    },
    Decoding { loaded: LoadedSlot, decoder: D },
    Selecting { job: StoreJobId, candidate: LibraryCandidate<H> },
    StartingLoad { selected_slot: SlotId },
    ResolvingBuiltIn { selected_slot: SlotId, loaded: LoadedSlot },
    HashingArchive { selected_slot: SlotId, catalog: C },
    HashingBuiltIn { selected_slot: SlotId, loaded: LoadedSlot, expected_hash: CatalogHash },
    StartingPackLoad { selected_slot: SlotId, loaded: LoadedSlot, expected_hash: CatalogHash },
    StartingRecovery { selected_slot: SlotId, failure: ClientDiagnostic },
    DecodingPack { selected_slot: SlotId, loaded: LoadedSlot, expected_hash: CatalogHash },
    EncodingPack { loaded: LoadedSlot, expected_hash: CatalogHash, pack: Vec<u8> },
    HashingPack {
        loaded: LoadedSlot,
        expected_hash: CatalogHash,
        pack: Vec<u8>,
        canonical: Vec<u8>,
    },
    CreatingDecoder { selected_slot: SlotId },
    PollingDecoder { loaded: LoadedSlot },
    FinishingDecoder { loaded: LoadedSlot },
    StartingSelection { candidate: LibraryCandidate<H> },
}

/// The exact-catalog open algorithm as a bounded, poll-driven state machine.
pub struct WorkshopLibraryClient<C, D, H> {
    phase: LibraryPhase<C, D, H>,
    expected_generation: Option<SaveGeneration>,
    selects_continue: bool,
    refuses_archived: bool,
}

/// Whether the listing names `selected` as an unarchived row selected for
/// Continue.
pub open spec fn listing_selects(slots: Seq<SlotSummary>, selected: SlotId) -> bool {
    exists|i: int|
        0 <= i < slots.len() && #[trigger] slots[i].id == selected && slots[i].selected_for_continue
            && !slots[i].archived
}

/// `event` reports a storage failure with `error`'s text.
pub open spec fn is_store_failure(diagnostic: ClientDiagnostic, error: WorkshopStoreError) -> bool {
    diagnostic_is(diagnostic, ClientDiagnosticCode::Store, store_error_text(error))
}

/// The output is the event `Failed` with a diagnostic `ok` accepts.
pub open spec fn fails_with<C, D, H>(
    out: LibraryStep<C, D, H>,
    ok: spec_fn(ClientDiagnostic) -> bool,
) -> bool {
    out matches LibraryStep::Event(LibraryEvent::Failed(diagnostic)) && ok(diagnostic)
}

/// The output is the protocol failure `message`.
pub open spec fn protocol_failure<C, D, H>(out: LibraryStep<C, D, H>, message: &'static str) -> bool {
    out matches LibraryStep::Event(LibraryEvent::ProtocolFailure(text)) && text@ == message@
}

/// After a failure of the loaded generation: a head asks for its retained
/// predecessor and keeps the failure for the case that load fails too; a
/// predecessor reports the failure.
pub open spec fn recovers<C, D, H>(
    after: LibraryPhase<C, D, H>,
    out: LibraryStep<C, D, H>,
    loaded: LoadedSlot,
    ok: spec_fn(ClientDiagnostic) -> bool,
) -> bool {
    if loaded.recovered_from_previous {
        after is Idle && fails_with(out, ok)
    } else {
        &&& out == LibraryStep::<C, D, H>::Request(
            LibraryRequest::StartStore(
                WorkshopStoreRequest::LoadPreviousGeneration {
                    slot: loaded.slot,
                    expected_head_generation: loaded.head_generation,
                },
            ),
        )
        &&& after matches LibraryPhase::StartingRecovery { selected_slot, failure }
            && selected_slot == loaded.slot && ok(failure)
    }
}

/// Starting the replay of `loaded` against `catalog`.
pub open spec fn replays<C, D, H>(
    after: LibraryPhase<C, D, H>,
    out: LibraryStep<C, D, H>,
    loaded: LoadedSlot,
    catalog: C,
) -> bool {
    &&& out == LibraryStep::<C, D, H>::Request(LibraryRequest::NewDecoder(catalog, loaded))
    &&& after == (LibraryPhase::<C, D, H>::CreatingDecoder { selected_slot: loaded.slot })
}

/// The step that follows a usable load of `loaded` for `selected_slot`.
pub open spec fn prepares<C, D, H>(
    refuses_archived: bool,
    after: LibraryPhase<C, D, H>,
    out: LibraryStep<C, D, H>,
    selected_slot: SlotId,
    loaded: LoadedSlot,
) -> bool {
    if loaded.recovered_from_previous != (loaded.generation != loaded.head_generation) {
        after is Idle && protocol_failure(out, INCONSISTENT_GENERATIONS)
    } else if refuses_archived && loaded.archived {
        after is Idle && out == LibraryStep::<C, D, H>::Event(
            LibraryEvent::ArchivedRow { slot: loaded.slot },
        )
    } else {
        &&& out == LibraryStep::<C, D, H>::Request(LibraryRequest::DecodeBuiltInCatalog)
        &&& after == LibraryPhase::<C, D, H>::ResolvingBuiltIn { selected_slot, loaded }
    }
}

/// The step that follows a completed replay of `loaded`.
pub open spec fn finishes<C, D, H>(
    selects_continue: bool,
    after: LibraryPhase<C, D, H>,
    out: LibraryStep<C, D, H>,
    loaded: LoadedSlot,
    history: H,
) -> bool {
    let candidate = LibraryCandidate { loaded, history };
    if !selects_continue || loaded.recovered_from_previous {
        after is Idle && out == LibraryStep::<C, D, H>::Event(LibraryEvent::Ready(candidate))
    } else {
        &&& out == LibraryStep::<C, D, H>::Request(
            LibraryRequest::StartStore(
                WorkshopStoreRequest::SelectContinue {
                    slot: loaded.slot,
                    expected_generation: loaded.generation,
                },
            ),
        )
        &&& after == LibraryPhase::<C, D, H>::StartingSelection { candidate }
    }
}

/// A reply the current phase cannot use ends the open.
pub open spec fn mismatched<C, D, H>(next: LibraryPhase<C, D, H>, out: LibraryStep<C, D, H>) -> bool {
    next is Idle && protocol_failure(out, DRIVER_MISMATCH)
}

/// The output reports nothing yet.
pub open spec fn pending<C, D, H>(out: LibraryStep<C, D, H>) -> bool {
    out == LibraryStep::<C, D, H>::Event(LibraryEvent::Pending)
}

pub open spec fn listing_step<C, D, H>(
    job: StoreJobId,
    input: LibraryInput<C, D, H>,
    next: LibraryPhase<C, D, H>,
    out: LibraryStep<C, D, H>,
) -> bool {
    match input {
        LibraryInput::Poll => next == LibraryPhase::<C, D, H>::Listing(job)
            && out == LibraryStep::<C, D, H>::Request(LibraryRequest::PollStore(job)),
        LibraryInput::StorePolled(state) => match state {
            StoreJobState::Pending => next == LibraryPhase::<C, D, H>::Listing(job) && pending(out),
            StoreJobState::Unknown => next is Idle && protocol_failure(out, FORGOT_LIST_JOB),
            StoreJobState::Complete(Err(error)) => next is Idle && fails_with(
                out,
                |d: ClientDiagnostic| is_store_failure(d, error),
            ),
            StoreJobState::Complete(Ok(WorkshopStoreResult::Slots(list))) => match list.selected_continue {
                None => next is Idle && out == LibraryStep::<C, D, H>::Event(LibraryEvent::NoCandidate),
                Some(selected) => if !listing_selects(list.slots@, selected) {
                    next is Idle && protocol_failure(out, SELECTED_SLOT_INVALID)
                } else {
                    &&& out == LibraryStep::<C, D, H>::Request(
                        LibraryRequest::StartStore(WorkshopStoreRequest::LoadSlot { slot: selected }),
                    )
                    &&& next == LibraryPhase::<C, D, H>::StartingLoad { selected_slot: selected }
                },
            },
            StoreJobState::Complete(Ok(_)) => next is Idle && protocol_failure(out, LIST_UNEXPECTED),
        },
        _ => mismatched(next, out),
    }
}

pub open spec fn loading_step<C, D, H>(
    refuses_archived: bool,
    expected_generation: Option<SaveGeneration>,
    job: StoreJobId,
    selected_slot: SlotId,
    input: LibraryInput<C, D, H>,
    next: LibraryPhase<C, D, H>,
    out: LibraryStep<C, D, H>,
) -> bool {
    match input {
        LibraryInput::Poll => next == LibraryPhase::<C, D, H>::Loading { job, selected_slot }
            && out == LibraryStep::<C, D, H>::Request(LibraryRequest::PollStore(job)),
        LibraryInput::StorePolled(state) => match state {
            StoreJobState::Pending => next == LibraryPhase::<C, D, H>::Loading { job, selected_slot }
                && pending(out),
            StoreJobState::Unknown => next is Idle && protocol_failure(out, FORGOT_LOAD_JOB),
            StoreJobState::Complete(Err(error)) => next is Idle && fails_with(
                out,
                |d: ClientDiagnostic| is_store_failure(d, error),
            ),
            StoreJobState::Complete(Ok(WorkshopStoreResult::SlotLoaded(loaded))) => if loaded.slot
                != selected_slot {
                next is Idle && protocol_failure(out, LOADED_OTHER_SLOT)
            } else if expected_generation is Some && loaded.head_generation
                != expected_generation->0 {
                &&& next is Idle
                &&& out == LibraryStep::<C, D, H>::Event(
                    LibraryEvent::StaleRow {
                        slot: loaded.slot,
                        observed: expected_generation->0,
                        head: loaded.head_generation,
                    },
                )
            } else {
                prepares(refuses_archived, next, out, selected_slot, loaded)
            },
            StoreJobState::Complete(Ok(_)) => next is Idle && protocol_failure(out, LOAD_UNEXPECTED),
        },
        _ => mismatched(next, out),
    }
}

pub open spec fn previous_step<C, D, H>(
    refuses_archived: bool,
    job: StoreJobId,
    selected_slot: SlotId,
    original_failure: ClientDiagnostic,
    input: LibraryInput<C, D, H>,
    next: LibraryPhase<C, D, H>,
    out: LibraryStep<C, D, H>,
) -> bool {
    match input {
        LibraryInput::Poll => next == LibraryPhase::<C, D, H>::LoadingPrevious {
            job,
            selected_slot,
            original_failure,
        } && out == LibraryStep::<C, D, H>::Request(LibraryRequest::PollStore(job)),
        LibraryInput::StorePolled(state) => match state {
            StoreJobState::Pending => next == LibraryPhase::<C, D, H>::LoadingPrevious {
                job,
                selected_slot,
                original_failure,
            } && pending(out),
            StoreJobState::Unknown => next is Idle && protocol_failure(out, FORGOT_PREVIOUS_JOB),
            StoreJobState::Complete(Err(_)) => next is Idle && out == LibraryStep::<C, D, H>::Event(
                LibraryEvent::Failed(original_failure),
            ),
            StoreJobState::Complete(Ok(WorkshopStoreResult::SlotLoaded(loaded))) => if loaded.slot
                != selected_slot || !loaded.recovered_from_previous {
                next is Idle && protocol_failure(out, INVALID_PREVIOUS)
            } else {
                prepares(refuses_archived, next, out, selected_slot, loaded)
            },
            StoreJobState::Complete(Ok(_)) => next is Idle && protocol_failure(
                out,
                PREVIOUS_UNEXPECTED,
            ),
        },
        _ => mismatched(next, out),
    }
}

pub open spec fn catalog_step<C, D, H>(
    job: StoreJobId,
    selected_slot: SlotId,
    loaded: LoadedSlot,
    expected_hash: CatalogHash,
    input: LibraryInput<C, D, H>,
    next: LibraryPhase<C, D, H>,
    out: LibraryStep<C, D, H>,
) -> bool {
    match input {
        LibraryInput::Poll => next == LibraryPhase::<C, D, H>::LoadingCatalog {
            job,
            selected_slot,
            loaded,
            expected_hash,
        } && out == LibraryStep::<C, D, H>::Request(LibraryRequest::PollStore(job)),
        LibraryInput::StorePolled(state) => match state {
            StoreJobState::Pending => next == LibraryPhase::<C, D, H>::LoadingCatalog {
                job,
                selected_slot,
                loaded,
                expected_hash,
            } && pending(out),
            StoreJobState::Unknown => next is Idle && protocol_failure(out, FORGOT_CATALOG_JOB),
            StoreJobState::Complete(Err(error)) => recovers(
                next,
                out,
                loaded,
                |d: ClientDiagnostic| is_store_failure(d, error),
            ),
            StoreJobState::Complete(
                Ok(WorkshopStoreResult::PackLoaded { hash, canonical_pack }),
            ) => if loaded.slot != selected_slot || !same_hash(hash, expected_hash) {
                next is Idle && protocol_failure(out, WRONG_CATALOG)
            } else {
                &&& out == LibraryStep::<C, D, H>::Request(LibraryRequest::DecodePack(canonical_pack))
                &&& next == LibraryPhase::<C, D, H>::DecodingPack {
                    selected_slot,
                    loaded,
                    expected_hash,
                }
            },
            StoreJobState::Complete(Ok(_)) => next is Idle && protocol_failure(
                out,
                CATALOG_UNEXPECTED,
            ),
        },
        _ => mismatched(next, out),
    }
}

pub open spec fn selecting_step<C, D, H>(
    job: StoreJobId,
    candidate: LibraryCandidate<H>,
    input: LibraryInput<C, D, H>,
    next: LibraryPhase<C, D, H>,
    out: LibraryStep<C, D, H>,
) -> bool {
    match input {
        LibraryInput::Poll => next == LibraryPhase::<C, D, H>::Selecting { job, candidate }
            && out == LibraryStep::<C, D, H>::Request(LibraryRequest::PollStore(job)),
        LibraryInput::StorePolled(state) => match state {
            StoreJobState::Pending => next == LibraryPhase::<C, D, H>::Selecting { job, candidate }
                && pending(out),
            StoreJobState::Unknown => next is Idle && protocol_failure(out, FORGOT_SELECTION_JOB),
            StoreJobState::Complete(Err(error)) => if error is StaleGeneration {
                next is Idle && out == LibraryStep::<C, D, H>::Event(
                    LibraryEvent::ContinueConflict { candidate },
                )
            } else {
                next is Idle && fails_with(out, |d: ClientDiagnostic| is_store_failure(d, error))
            },
            StoreJobState::Complete(
                Ok(WorkshopStoreResult::ContinueSelected { slot, generation }),
            ) => if slot != candidate.loaded.slot || generation != candidate.loaded.generation {
                next is Idle && protocol_failure(out, WRONG_SELECTION)
            } else {
                next is Idle && out == LibraryStep::<C, D, H>::Event(LibraryEvent::Ready(candidate))
            },
            StoreJobState::Complete(Ok(_)) => next is Idle && protocol_failure(
                out,
                SELECTION_UNEXPECTED,
            ),
        },
        _ => mismatched(next, out),
    }
}

/// What one step does from `phase` with `input`, given the settings the open
/// was begun with.
pub open spec fn phase_step<C, D, H>(
    refuses_archived: bool,
    selects_continue: bool,
    expected_generation: Option<SaveGeneration>,
    phase: LibraryPhase<C, D, H>,
    input: LibraryInput<C, D, H>,
    next: LibraryPhase<C, D, H>,
    out: LibraryStep<C, D, H>,
) -> bool {
    match phase {
        LibraryPhase::Idle => next is Idle && pending(out),
        LibraryPhase::Listing(job) => listing_step(job, input, next, out),
        LibraryPhase::Loading { job, selected_slot } => loading_step(
            refuses_archived,
            expected_generation,
            job,
            selected_slot,
            input,
            next,
            out,
        ),
        LibraryPhase::LoadingPrevious { job, selected_slot, original_failure } => previous_step(
            refuses_archived,
            job,
            selected_slot,
            original_failure,
            input,
            next,
            out,
        ),
        LibraryPhase::LoadingCatalog { job, selected_slot, loaded, expected_hash } => catalog_step(
            job,
            selected_slot,
            loaded,
            expected_hash,
            input,
            next,
            out,
        ),
        LibraryPhase::Decoding { loaded, decoder } => match input {
            LibraryInput::Poll => {
                &&& out == LibraryStep::<C, D, H>::Request(
                    LibraryRequest::PollDecoder(decoder, ARCHIVE_REPLAY_UNITS_PER_UPDATE),
                )
                &&& next == LibraryPhase::<C, D, H>::PollingDecoder { loaded }
            },
            _ => mismatched(next, out),
        },
        LibraryPhase::Selecting { job, candidate } => selecting_step(job, candidate, input, next, out),
        LibraryPhase::StartingLoad { selected_slot } => match input {
            LibraryInput::StoreStarted(Ok(job)) => next == LibraryPhase::<C, D, H>::Loading {
                job,
                selected_slot,
            } && pending(out),
            LibraryInput::StoreStarted(Err(error)) => next is Idle && fails_with(
                out,
                |d: ClientDiagnostic| is_store_failure(d, error),
            ),
            _ => mismatched(next, out),
        },
        LibraryPhase::ResolvingBuiltIn { selected_slot, loaded } => match input {
            LibraryInput::BuiltInCatalog(None) => next is Idle && fails_with(
                out,
                |d: ClientDiagnostic|
                    diagnostic_is(d, ClientDiagnosticCode::Catalog, BUILT_IN_CATALOG_INVALID@),
            ),
            LibraryInput::BuiltInCatalog(Some(catalog)) => {
                &&& out == LibraryStep::<C, D, H>::Request(LibraryRequest::ArchiveCatalogHash(loaded))
                &&& next == LibraryPhase::<C, D, H>::HashingArchive { selected_slot, catalog }
            },
            _ => mismatched(next, out),
        },
        LibraryPhase::HashingArchive { selected_slot, catalog } => match input {
            LibraryInput::ArchiveHashed(loaded, hashed) => if loaded.slot != selected_slot {
                mismatched(next, out)
            } else {
                match hashed {
                    Err(message) => recovers(
                        next,
                        out,
                        loaded,
                        |d: ClientDiagnostic| diagnostic_is(d, ClientDiagnosticCode::Archive, message@),
                    ),
                    Ok(expected_hash) => {
                        &&& out == LibraryStep::<C, D, H>::Request(LibraryRequest::CatalogHash(catalog))
                        &&& next == LibraryPhase::<C, D, H>::HashingBuiltIn {
                            selected_slot,
                            loaded,
                            expected_hash,
                        }
                    },
                }
            },
            _ => mismatched(next, out),
        },
        LibraryPhase::HashingBuiltIn { selected_slot, loaded, expected_hash } => match input {
            LibraryInput::CatalogHashed(catalog, hash) => if same_hash(hash, expected_hash) {
                replays(next, out, loaded, catalog)
            } else {
                &&& out == LibraryStep::<C, D, H>::Request(
                    LibraryRequest::StartStore(WorkshopStoreRequest::GetPack { hash: expected_hash }),
                )
                &&& next == LibraryPhase::<C, D, H>::StartingPackLoad {
                    selected_slot,
                    loaded,
                    expected_hash,
                }
            },
            _ => mismatched(next, out),
        },
        LibraryPhase::StartingPackLoad { selected_slot, loaded, expected_hash } => match input {
            LibraryInput::StoreStarted(Ok(job)) => next == LibraryPhase::<C, D, H>::LoadingCatalog {
                job,
                selected_slot,
                loaded,
                expected_hash,
            } && pending(out),
            LibraryInput::StoreStarted(Err(error)) => recovers(
                next,
                out,
                loaded,
                |d: ClientDiagnostic| is_store_failure(d, error),
            ),
            _ => mismatched(next, out),
        },
        LibraryPhase::StartingRecovery { selected_slot, failure } => match input {
            LibraryInput::StoreStarted(Ok(job)) => next == LibraryPhase::<C, D, H>::LoadingPrevious {
                job,
                selected_slot,
                original_failure: failure,
            } && pending(out),
            LibraryInput::StoreStarted(Err(error)) => next is Idle && fails_with(
                out,
                |d: ClientDiagnostic| is_store_failure(d, error),
            ),
            _ => mismatched(next, out),
        },
        LibraryPhase::DecodingPack { selected_slot, loaded, expected_hash } => match input {
            LibraryInput::PackDecoded(_, None) => recovers(
                next,
                out,
                loaded,
                |d: ClientDiagnostic|
                    diagnostic_is(d, ClientDiagnosticCode::Catalog, SAVED_CATALOG_INVALID@),
            ),
            LibraryInput::PackDecoded(pack, Some(catalog)) => {
                &&& out == LibraryStep::<C, D, H>::Request(LibraryRequest::EncodePack(catalog))
                &&& next == LibraryPhase::<C, D, H>::EncodingPack { loaded, expected_hash, pack }
            },
            _ => mismatched(next, out),
        },
        LibraryPhase::EncodingPack { loaded, expected_hash, pack } => match input {
            LibraryInput::PackEncoded(_, None) => recovers(
                next,
                out,
                loaded,
                |d: ClientDiagnostic|
                    diagnostic_is(d, ClientDiagnosticCode::Catalog, SAVED_CATALOG_NOT_CANONICAL@),
            ),
            LibraryInput::PackEncoded(catalog, Some(canonical)) => {
                &&& out == LibraryStep::<C, D, H>::Request(LibraryRequest::CatalogHash(catalog))
                &&& next == LibraryPhase::<C, D, H>::HashingPack {
                    loaded,
                    expected_hash,
                    pack,
                    canonical,
                }
            },
            _ => mismatched(next, out),
        },
        LibraryPhase::HashingPack { loaded, expected_hash, pack, canonical } => match input {
            LibraryInput::CatalogHashed(catalog, hash) => if !same_hash(hash, expected_hash)
                || canonical@ != pack@ {
                recovers(
                    next,
                    out,
                    loaded,
                    |d: ClientDiagnostic|
                        diagnostic_is(d, ClientDiagnosticCode::Catalog, SAVED_CATALOG_MISMATCH@),
                )
            } else {
                replays(next, out, loaded, catalog)
            },
            _ => mismatched(next, out),
        },
        LibraryPhase::CreatingDecoder { selected_slot } => match input {
            LibraryInput::DecoderCreated(loaded, created) => if loaded.slot != selected_slot {
                mismatched(next, out)
            } else {
                match created {
                    Ok(decoder) => next == LibraryPhase::<C, D, H>::Decoding { loaded, decoder }
                        && pending(out),
                    Err(message) => recovers(
                        next,
                        out,
                        loaded,
                        |d: ClientDiagnostic| diagnostic_is(d, ClientDiagnosticCode::Archive, message@),
                    ),
                }
            },
            _ => mismatched(next, out),
        },
        LibraryPhase::PollingDecoder { loaded } => match input {
            LibraryInput::DecoderPolled(decoder, Ok(complete)) => if complete {
                &&& out == LibraryStep::<C, D, H>::Request(LibraryRequest::FinishDecoder(decoder))
                &&& next == LibraryPhase::<C, D, H>::FinishingDecoder { loaded }
            } else {
                next == LibraryPhase::<C, D, H>::Decoding { loaded, decoder } && pending(out)
            },
            LibraryInput::DecoderPolled(_, Err(message)) => recovers(
                next,
                out,
                loaded,
                |d: ClientDiagnostic| diagnostic_is(d, ClientDiagnosticCode::Archive, message@),
            ),
            _ => mismatched(next, out),
        },
        LibraryPhase::FinishingDecoder { loaded } => match input {
            LibraryInput::DecoderFinished(Ok(history)) => finishes(
                selects_continue,
                next,
                out,
                loaded,
                history,
            ),
            LibraryInput::DecoderFinished(Err(message)) => recovers(
                next,
                out,
                loaded,
                |d: ClientDiagnostic| diagnostic_is(d, ClientDiagnosticCode::Archive, message@),
            ),
            _ => mismatched(next, out),
        },
        LibraryPhase::StartingSelection { candidate } => match input {
            LibraryInput::StoreStarted(Ok(job)) => next == LibraryPhase::<C, D, H>::Selecting {
                job,
                candidate,
            } && pending(out),
            LibraryInput::StoreStarted(Err(error)) => next is Idle && fails_with(
                out,
                |d: ClientDiagnostic| is_store_failure(d, error),
            ),
            _ => mismatched(next, out),
        },
    }
}

/// One step of the client: the open's settings are unchanged, and the phase
/// and output follow [`phase_step`].
pub open spec fn library_step<C, D, H>(
    before: WorkshopLibraryClient<C, D, H>,
    input: LibraryInput<C, D, H>,
    after: WorkshopLibraryClient<C, D, H>,
    out: LibraryStep<C, D, H>,
) -> bool {
    &&& after.same_open(&before)
    &&& phase_step(
        before.refuses_archived_rows(),
        before.claims_continue(),
        before.observed_generation(),
        before.phase(),
        input,
        after.phase(),
        out,
    )
}

impl<C, D, H> WorkshopLibraryClient<C, D, H> {
    pub closed spec fn phase(&self) -> LibraryPhase<C, D, H> {
        self.phase
    }

    /// The head generation the activated row showed, for a row open.
    pub closed spec fn observed_generation(&self) -> Option<SaveGeneration> {
        self.expected_generation
    }

    /// Whether a validated head must claim the Continue marker.
    pub closed spec fn claims_continue(&self) -> bool {
        self.selects_continue
    }

    /// Whether an archived row is refused.
    pub closed spec fn refuses_archived_rows(&self) -> bool {
        self.refuses_archived
    }

    /// The settings `begin` fixed are unchanged.
    pub open spec fn same_open(&self, other: &Self) -> bool {
        &&& self.observed_generation() == other.observed_generation()
        &&& self.claims_continue() == other.claims_continue()
        &&& self.refuses_archived_rows() == other.refuses_archived_rows()
    }
}

/// The store job the phase holds, if any.
pub open spec fn phase_job<C, D, H>(phase: LibraryPhase<C, D, H>) -> Option<StoreJobId> {
    match phase {
        LibraryPhase::Listing(job) => Some(job),
        LibraryPhase::Loading { job, .. } => Some(job),
        LibraryPhase::LoadingPrevious { job, .. } => Some(job),
        LibraryPhase::LoadingCatalog { job, .. } => Some(job),
        LibraryPhase::Selecting { job, .. } => Some(job),
        _ => None,
    }
}

/// The row the phase is working on, once one is chosen: the selected slot
/// until a load of it is in hand, then the loaded slot, then the candidate's.
pub open spec fn held_slot<C, D, H>(phase: LibraryPhase<C, D, H>) -> Option<SlotId> {
    match phase {
        LibraryPhase::Idle => None,
        LibraryPhase::Listing(_) => None,
        LibraryPhase::Loading { selected_slot, .. } => Some(selected_slot),
        LibraryPhase::LoadingPrevious { selected_slot, .. } => Some(selected_slot),
        LibraryPhase::StartingLoad { selected_slot } => Some(selected_slot),
        LibraryPhase::StartingRecovery { selected_slot, .. } => Some(selected_slot),
        LibraryPhase::ResolvingBuiltIn { selected_slot, .. } => Some(selected_slot),
        LibraryPhase::HashingArchive { selected_slot, .. } => Some(selected_slot),
        LibraryPhase::CreatingDecoder { selected_slot } => Some(selected_slot),
        LibraryPhase::HashingBuiltIn { loaded, .. } => Some(loaded.slot),
        LibraryPhase::StartingPackLoad { loaded, .. } => Some(loaded.slot),
        LibraryPhase::LoadingCatalog { loaded, .. } => Some(loaded.slot),
        LibraryPhase::DecodingPack { loaded, .. } => Some(loaded.slot),
        LibraryPhase::EncodingPack { loaded, .. } => Some(loaded.slot),
        LibraryPhase::HashingPack { loaded, .. } => Some(loaded.slot),
        LibraryPhase::Decoding { loaded, .. } => Some(loaded.slot),
        LibraryPhase::PollingDecoder { loaded } => Some(loaded.slot),
        LibraryPhase::FinishingDecoder { loaded } => Some(loaded.slot),
        LibraryPhase::StartingSelection { candidate } => Some(candidate.loaded.slot),
        LibraryPhase::Selecting { candidate, .. } => Some(candidate.loaded.slot),
    }
}

/// The first storage request of `open`.
pub open spec fn first_request(open: LibraryOpen) -> WorkshopStoreRequest {
    match open {
        LibraryOpen::SelectedContinue => WorkshopStoreRequest::ListSlots,
        LibraryOpen::Slot { slot, .. } => WorkshopStoreRequest::LoadSlot { slot },
    }
}

fn diagnostic(code: ClientDiagnosticCode, text: &'static str) -> (diagnostic: ClientDiagnostic)
    ensures
        diagnostic_is(diagnostic, code, text@),
{
    ClientDiagnostic { code, message: String::from_str(text) }
}

fn store_failure(error: WorkshopStoreError) -> (diagnostic: ClientDiagnostic)
    ensures
        is_store_failure(diagnostic, error),
{
    ClientDiagnostic { code: ClientDiagnosticCode::Store, message: error.into_message() }
}

fn bytes_equal(a: &Vec<u8>, b: &Vec<u8>) -> (same: bool)
    ensures
        same == (a@ == b@),
{
    if a.len() != b.len() {
        return false;
    }
    let mut index: usize = 0;
    while index < a.len()
        invariant
            a.len() == b.len(),
            index <= a.len(),
            forall|i: int| 0 <= i < index ==> a@[i] == b@[i],
        decreases a.len() - index,
    {
        if a[index] != b[index] {
            return false;
        }
        index = index + 1;
    }
    assert(a@ =~= b@);
    true
}

fn listing_selects_exec(slots: &Vec<SlotSummary>, selected: SlotId) -> (found: bool)
    ensures
        found == listing_selects(slots@, selected),
{
    let mut index: usize = 0;
    while index < slots.len()
        invariant
            index <= slots.len(),
            forall|i: int|
                0 <= i < index ==> !(#[trigger] slots@[i].id == selected
                    && slots@[i].selected_for_continue && !slots@[i].archived),
        decreases slots.len() - index,
    {
        let summary = &slots[index];
        if summary.id == selected && summary.selected_for_continue && !summary.archived {
            assert(slots@[index as int].id == selected);
            return true;
        }
        index = index + 1;
    }
    false
}

impl<C, D, H> Default for WorkshopLibraryClient<C, D, H> {
    fn default() -> (client: Self)
        ensures
            client.phase() is Idle,
            client.observed_generation() is None,
            !client.claims_continue(),
            client.refuses_archived_rows(),
    {
        WorkshopLibraryClient::new()
    }
}

impl<C, D, H> WorkshopLibraryClient<C, D, H> {
    /// An idle client.
    pub fn new() -> (client: Self)
        ensures
            client.phase() is Idle,
            client.observed_generation() is None,
            !client.claims_continue(),
            client.refuses_archived_rows(),
    {
        WorkshopLibraryClient {
            phase: LibraryPhase::Idle,
            expected_generation: None,
            selects_continue: false,
            refuses_archived: true,
        }
    }

    pub fn is_active(&self) -> (active: bool)
        ensures
            active == !(self.phase() is Idle),
    {
        !matches!(self.phase, LibraryPhase::Idle)
    }

    /// The storage job the open in flight holds: the one a caller that
    /// abandons the open must release in the store.
    pub fn held_job(&self) -> (job: Option<StoreJobId>)
        ensures
            job == phase_job(self.phase()),
    {
        match &self.phase {
            LibraryPhase::Listing(job) => Some(*job),
            LibraryPhase::Loading { job, .. } => Some(*job),
            LibraryPhase::LoadingPrevious { job, .. } => Some(*job),
            LibraryPhase::LoadingCatalog { job, .. } => Some(*job),
            LibraryPhase::Selecting { job, .. } => Some(*job),
            _ => None,
        }
    }

    /// The storage request that starts `open`.
    pub fn begin_request(open: LibraryOpen) -> (request: WorkshopStoreRequest)
        ensures
            request == first_request(open),
    {
        match open {
            LibraryOpen::SelectedContinue => WorkshopStoreRequest::ListSlots,
            LibraryOpen::Slot { slot, .. } => WorkshopStoreRequest::LoadSlot { slot },
        }
    }

    /// `self` is the idle `before` after an open of `open` began with
    /// storage's answer `started` to its first request: a refusal leaves
    /// the client idle, and an accepted start holds the job in the open's
    /// first phase with the settings the open fixes.
    pub open spec fn began_from(
        &self,
        before: &Self,
        open: LibraryOpen,
        started: Result<StoreJobId, WorkshopStoreError>,
        result: Result<(), LibraryBeginError>,
    ) -> bool {
        match started {
            Err(error) => {
                &&& result == Err::<(), LibraryBeginError>(LibraryBeginError::Store(error))
                &&& self.phase() is Idle
                &&& self.same_open(before)
            },
            Ok(job) => {
                &&& result is Ok
                &&& match open {
                    LibraryOpen::SelectedContinue => {
                        &&& self.phase() == LibraryPhase::<C, D, H>::Listing(job)
                        &&& self.observed_generation() is None
                        &&& !self.claims_continue()
                        &&& self.refuses_archived_rows()
                    },
                    LibraryOpen::Slot { slot, expected_generation, intent } => {
                        &&& self.phase() == LibraryPhase::<C, D, H>::Loading {
                            job,
                            selected_slot: slot,
                        }
                        &&& self.observed_generation() == Some(expected_generation)
                        &&& self.claims_continue() == (intent == SlotIntent::Open)
                        &&& self.refuses_archived_rows() == (intent == SlotIntent::Open)
                    },
                }
            },
        }
    }

    /// Starts one open of an idle client from storage's answer `started` to
    /// [`Self::begin_request`], for a caller that made that start itself.
    pub(crate) fn begin_answered(&mut self, open: LibraryOpen, started: Result<StoreJobId, WorkshopStoreError>) -> (result: Result<(), LibraryBeginError>)
        requires
            old(self).phase() is Idle,
        ensures
            final(self).began_from(old(self), open, started, result),
    {
        let job = match started {
            Ok(job) => job,
            Err(error) => return Err(LibraryBeginError::Store(error)),
        };
        match open {
            LibraryOpen::SelectedContinue => {
                self.expected_generation = None;
                self.selects_continue = false;
                self.refuses_archived = true;
                self.phase = LibraryPhase::Listing(job);
            },
            LibraryOpen::Slot { slot, expected_generation, intent } => {
                self.expected_generation = Some(expected_generation);
                self.selects_continue = intent == SlotIntent::Open;
                self.refuses_archived = intent == SlotIntent::Open;
                self.phase = LibraryPhase::Loading { job, selected_slot: slot };
            },
        }
        Ok(())
    }

    /// Starts one open: refused, with no call to storage, while one is
    /// already in flight, so the job the current phase holds is never
    /// stranded; otherwise storage is asked for the open's first request,
    /// and a storage refusal is returned and leaves the client idle.
    pub fn begin<S: WorkshopStore>(&mut self, store: &mut LoggedStore<S>, open: LibraryOpen) -> (result: Result<(), LibraryBeginError>)
        ensures
            !(old(self).phase() is Idle) ==> {
                &&& result == Err::<(), LibraryBeginError>(LibraryBeginError::Active)
                &&& final(self).phase() == old(self).phase()
                &&& final(self).same_open(old(self))
                &&& final(store).calls() == old(store).calls()
            },
            old(self).phase() is Idle ==> {
                &&& final(store).calls() == old(store).calls().push(
                    StoreCall::Start(first_request(open)@),
                )
                &&& exists|started: Result<StoreJobId, WorkshopStoreError>|
                    #[trigger] final(self).began_from(old(self), open, started, result)
            },
    {
        if self.is_active() {
            return Err(LibraryBeginError::Active);
        }
        let started = store.start(Self::begin_request(open));
        let ghost answer = started;
        let result = self.begin_answered(open, started);
        assert(self.began_from(old(self), open, answer, result));
        result
    }

    /// Gives up on the open in flight and returns whether there was one.
    /// The storage job the open held, if any, is abandoned in storage; the
    /// discarded open never reports anything.
    pub fn abandon<S: WorkshopStore>(&mut self, store: &mut LoggedStore<S>) -> (was_active: bool)
        ensures
            was_active == !(old(self).phase() is Idle),
            final(self).phase() is Idle,
            final(self).same_open(old(self)),
            final(store).calls() == (match phase_job(old(self).phase()) {
                Some(job) => old(store).calls().push(StoreCall::Abandon(job)),
                None => old(store).calls(),
            }),
    {
        let held = self.held_job();
        let was_active = self.is_active();
        self.phase = LibraryPhase::Idle;
        if let Some(job) = held {
            store.abandon(job);
        }
        was_active
    }

    fn recover(&mut self, loaded: LoadedSlot, failure: ClientDiagnostic) -> (out: LibraryStep<C, D, H>)
        ensures
            final(self).same_open(old(self)),
            loaded.recovered_from_previous ==> {
                &&& final(self).phase() is Idle
                &&& out == LibraryStep::<C, D, H>::Event(LibraryEvent::Failed(failure))
            },
            !loaded.recovered_from_previous ==> {
                &&& out == LibraryStep::<C, D, H>::Request(
                    LibraryRequest::StartStore(
                        WorkshopStoreRequest::LoadPreviousGeneration {
                            slot: loaded.slot,
                            expected_head_generation: loaded.head_generation,
                        },
                    ),
                )
                &&& final(self).phase() == LibraryPhase::<C, D, H>::StartingRecovery {
                    selected_slot: loaded.slot,
                    failure,
                }
            },
    {
        if loaded.recovered_from_previous {
            self.phase = LibraryPhase::Idle;
            return LibraryStep::Event(LibraryEvent::Failed(failure));
        }
        let slot = loaded.slot;
        let head = loaded.head_generation;
        self.phase = LibraryPhase::StartingRecovery { selected_slot: slot, failure };
        LibraryStep::Request(
            LibraryRequest::StartStore(
                WorkshopStoreRequest::LoadPreviousGeneration { slot, expected_head_generation: head },
            ),
        )
    }

    fn prepare(&mut self, selected_slot: SlotId, loaded: LoadedSlot) -> (out: LibraryStep<C, D, H>)
        ensures
            final(self).same_open(old(self)),
            prepares(old(self).refuses_archived_rows(), final(self).phase(), out, selected_slot, loaded),
    {
        if loaded.recovered_from_previous != (loaded.generation.0 != loaded.head_generation.0) {
            self.phase = LibraryPhase::Idle;
            return LibraryStep::Event(LibraryEvent::ProtocolFailure(INCONSISTENT_GENERATIONS));
        }
        if self.refuses_archived && loaded.archived {
            let slot = loaded.slot;
            self.phase = LibraryPhase::Idle;
            return LibraryStep::Event(LibraryEvent::ArchivedRow { slot });
        }
        self.phase = LibraryPhase::ResolvingBuiltIn { selected_slot, loaded };
        LibraryStep::Request(LibraryRequest::DecodeBuiltInCatalog)
    }

    fn replay(&mut self, loaded: LoadedSlot, catalog: C) -> (out: LibraryStep<C, D, H>)
        ensures
            final(self).same_open(old(self)),
            replays(final(self).phase(), out, loaded, catalog),
    {
        self.phase = LibraryPhase::CreatingDecoder { selected_slot: loaded.slot };
        LibraryStep::Request(LibraryRequest::NewDecoder(catalog, loaded))
    }

    fn finish(&mut self, loaded: LoadedSlot, history: H) -> (out: LibraryStep<C, D, H>)
        ensures
            final(self).same_open(old(self)),
            finishes(old(self).claims_continue(), final(self).phase(), out, loaded, history),
    {
        let candidate = LibraryCandidate { loaded, history };
        if !self.selects_continue || candidate.loaded.recovered_from_previous {
            self.phase = LibraryPhase::Idle;
            return LibraryStep::Event(LibraryEvent::Ready(candidate));
        }
        let slot = candidate.loaded.slot;
        let generation = candidate.loaded.generation;
        self.phase = LibraryPhase::StartingSelection { candidate };
        LibraryStep::Request(
            LibraryRequest::StartStore(
                WorkshopStoreRequest::SelectContinue { slot, expected_generation: generation },
            ),
        )
    }

    fn fail(&mut self, failure: ClientDiagnostic) -> (out: LibraryStep<C, D, H>)
        ensures
            final(self).same_open(old(self)),
            final(self).phase() is Idle,
            out == LibraryStep::<C, D, H>::Event(LibraryEvent::Failed(failure)),
    {
        self.phase = LibraryPhase::Idle;
        LibraryStep::Event(LibraryEvent::Failed(failure))
    }

    fn stop(&mut self, message: &'static str) -> (out: LibraryStep<C, D, H>)
        ensures
            final(self).same_open(old(self)),
            final(self).phase() is Idle,
            out == LibraryStep::<C, D, H>::Event(LibraryEvent::ProtocolFailure(message)),
    {
        self.phase = LibraryPhase::Idle;
        LibraryStep::Event(LibraryEvent::ProtocolFailure(message))
    }
}

impl<C, D, H> WorkshopLibraryClient<C, D, H> {
    fn on_listing(&mut self, job: StoreJobId, input: LibraryInput<C, D, H>) -> (out: LibraryStep<C, D, H>)
        ensures
            final(self).same_open(old(self)),
            listing_step(job, input, final(self).phase(), out),
    {
        let state = match input {
            LibraryInput::Poll => {
                self.phase = LibraryPhase::Listing(job);
                return LibraryStep::Request(LibraryRequest::PollStore(job));
            },
            LibraryInput::StorePolled(state) => state,
            _ => return self.stop(DRIVER_MISMATCH),
        };
        match state {
            StoreJobState::Pending => {
                self.phase = LibraryPhase::Listing(job);
                LibraryStep::Event(LibraryEvent::Pending)
            },
            StoreJobState::Unknown => self.stop(FORGOT_LIST_JOB),
            StoreJobState::Complete(Err(error)) => self.fail(store_failure(error)),
            StoreJobState::Complete(Ok(WorkshopStoreResult::Slots(list))) => {
                let selected = match list.selected_continue {
                    None => {
                        self.phase = LibraryPhase::Idle;
                        return LibraryStep::Event(LibraryEvent::NoCandidate);
                    },
                    Some(selected) => selected,
                };
                if !listing_selects_exec(&list.slots, selected) {
                    return self.stop(SELECTED_SLOT_INVALID);
                }
                self.phase = LibraryPhase::StartingLoad { selected_slot: selected };
                LibraryStep::Request(
                    LibraryRequest::StartStore(WorkshopStoreRequest::LoadSlot { slot: selected }),
                )
            },
            StoreJobState::Complete(Ok(_)) => self.stop(LIST_UNEXPECTED),
        }
    }

    fn on_loading(&mut self, job: StoreJobId, selected_slot: SlotId, input: LibraryInput<C, D, H>) -> (out: LibraryStep<C, D, H>)
        ensures
            final(self).same_open(old(self)),
            loading_step(
                old(self).refuses_archived_rows(),
                old(self).observed_generation(),
                job,
                selected_slot,
                input,
                final(self).phase(),
                out,
            ),
    {
        let state = match input {
            LibraryInput::Poll => {
                self.phase = LibraryPhase::Loading { job, selected_slot };
                return LibraryStep::Request(LibraryRequest::PollStore(job));
            },
            LibraryInput::StorePolled(state) => state,
            _ => return self.stop(DRIVER_MISMATCH),
        };
        match state {
            StoreJobState::Pending => {
                self.phase = LibraryPhase::Loading { job, selected_slot };
                LibraryStep::Event(LibraryEvent::Pending)
            },
            StoreJobState::Unknown => self.stop(FORGOT_LOAD_JOB),
            StoreJobState::Complete(Err(error)) => self.fail(store_failure(error)),
            StoreJobState::Complete(Ok(WorkshopStoreResult::SlotLoaded(loaded))) => {
                if loaded.slot != selected_slot {
                    return self.stop(LOADED_OTHER_SLOT);
                }
                if let Some(observed) = self.expected_generation {
                    if loaded.head_generation != observed {
                        let slot = loaded.slot;
                        let head = loaded.head_generation;
                        self.phase = LibraryPhase::Idle;
                        return LibraryStep::Event(LibraryEvent::StaleRow { slot, observed, head });
                    }
                }
                self.prepare(selected_slot, loaded)
            },
            StoreJobState::Complete(Ok(_)) => self.stop(LOAD_UNEXPECTED),
        }
    }

    fn on_previous(
        &mut self,
        job: StoreJobId,
        selected_slot: SlotId,
        original_failure: ClientDiagnostic,
        input: LibraryInput<C, D, H>,
    ) -> (out: LibraryStep<C, D, H>)
        ensures
            final(self).same_open(old(self)),
            previous_step(
                old(self).refuses_archived_rows(),
                job,
                selected_slot,
                original_failure,
                input,
                final(self).phase(),
                out,
            ),
    {
        let state = match input {
            LibraryInput::Poll => {
                self.phase = LibraryPhase::LoadingPrevious { job, selected_slot, original_failure };
                return LibraryStep::Request(LibraryRequest::PollStore(job));
            },
            LibraryInput::StorePolled(state) => state,
            _ => return self.stop(DRIVER_MISMATCH),
        };
        match state {
            StoreJobState::Pending => {
                self.phase = LibraryPhase::LoadingPrevious { job, selected_slot, original_failure };
                LibraryStep::Event(LibraryEvent::Pending)
            },
            StoreJobState::Unknown => self.stop(FORGOT_PREVIOUS_JOB),
            StoreJobState::Complete(Err(_)) => self.fail(original_failure),
            StoreJobState::Complete(Ok(WorkshopStoreResult::SlotLoaded(loaded))) => {
                if loaded.slot != selected_slot || !loaded.recovered_from_previous {
                    return self.stop(INVALID_PREVIOUS);
                }
                self.prepare(selected_slot, loaded)
            },
            StoreJobState::Complete(Ok(_)) => self.stop(PREVIOUS_UNEXPECTED),
        }
    }

    fn on_catalog(
        &mut self,
        job: StoreJobId,
        selected_slot: SlotId,
        loaded: LoadedSlot,
        expected_hash: CatalogHash,
        input: LibraryInput<C, D, H>,
    ) -> (out: LibraryStep<C, D, H>)
        ensures
            final(self).same_open(old(self)),
            catalog_step(job, selected_slot, loaded, expected_hash, input, final(self).phase(), out),
    {
        let state = match input {
            LibraryInput::Poll => {
                self.phase = LibraryPhase::LoadingCatalog { job, selected_slot, loaded, expected_hash };
                return LibraryStep::Request(LibraryRequest::PollStore(job));
            },
            LibraryInput::StorePolled(state) => state,
            _ => return self.stop(DRIVER_MISMATCH),
        };
        match state {
            StoreJobState::Pending => {
                self.phase = LibraryPhase::LoadingCatalog { job, selected_slot, loaded, expected_hash };
                LibraryStep::Event(LibraryEvent::Pending)
            },
            StoreJobState::Unknown => self.stop(FORGOT_CATALOG_JOB),
            StoreJobState::Complete(Err(error)) => self.recover(loaded, store_failure(error)),
            StoreJobState::Complete(
                Ok(WorkshopStoreResult::PackLoaded { hash, canonical_pack }),
            ) => {
                if loaded.slot != selected_slot || !hash.matches(&expected_hash) {
                    return self.stop(WRONG_CATALOG);
                }
                self.phase = LibraryPhase::DecodingPack { selected_slot, loaded, expected_hash };
                LibraryStep::Request(LibraryRequest::DecodePack(canonical_pack))
            },
            StoreJobState::Complete(Ok(_)) => self.stop(CATALOG_UNEXPECTED),
        }
    }

    fn on_selecting(&mut self, job: StoreJobId, candidate: LibraryCandidate<H>, input: LibraryInput<C, D, H>) -> (out: LibraryStep<C, D, H>)
        ensures
            final(self).same_open(old(self)),
            selecting_step(job, candidate, input, final(self).phase(), out),
    {
        let state = match input {
            LibraryInput::Poll => {
                self.phase = LibraryPhase::Selecting { job, candidate };
                return LibraryStep::Request(LibraryRequest::PollStore(job));
            },
            LibraryInput::StorePolled(state) => state,
            _ => return self.stop(DRIVER_MISMATCH),
        };
        match state {
            StoreJobState::Pending => {
                self.phase = LibraryPhase::Selecting { job, candidate };
                LibraryStep::Event(LibraryEvent::Pending)
            },
            StoreJobState::Unknown => self.stop(FORGOT_SELECTION_JOB),
            StoreJobState::Complete(Err(error)) => {
                if let WorkshopStoreError::StaleGeneration { .. } = error {
                    self.phase = LibraryPhase::Idle;
                    LibraryStep::Event(LibraryEvent::ContinueConflict { candidate })
                } else {
                    self.fail(store_failure(error))
                }
            },
            StoreJobState::Complete(
                Ok(WorkshopStoreResult::ContinueSelected { slot, generation }),
            ) => {
                if slot != candidate.loaded.slot || generation != candidate.loaded.generation {
                    return self.stop(WRONG_SELECTION);
                }
                self.phase = LibraryPhase::Idle;
                LibraryStep::Event(LibraryEvent::Ready(candidate))
            },
            StoreJobState::Complete(Ok(_)) => self.stop(SELECTION_UNEXPECTED),
        }
    }

    /// Takes one step of the open: answers `Poll` with the request the phase
    /// needs, and every other input with what that answer means. See
    /// [`phase_step`] for each phase and answer.
    pub fn poll(&mut self, input: LibraryInput<C, D, H>) -> (out: LibraryStep<C, D, H>)
        ensures
            library_step(*old(self), input, *final(self), out),
    {
        let mut phase = LibraryPhase::Idle;
        core::mem::swap(&mut phase, &mut self.phase);
        match phase {
            LibraryPhase::Idle => LibraryStep::Event(LibraryEvent::Pending),
            LibraryPhase::Listing(job) => self.on_listing(job, input),
            LibraryPhase::Loading { job, selected_slot } => self.on_loading(job, selected_slot, input),
            LibraryPhase::LoadingPrevious { job, selected_slot, original_failure } => self.on_previous(
                job,
                selected_slot,
                original_failure,
                input,
            ),
            LibraryPhase::LoadingCatalog { job, selected_slot, loaded, expected_hash } => self.on_catalog(
                job,
                selected_slot,
                loaded,
                expected_hash,
                input,
            ),
            LibraryPhase::Decoding { loaded, decoder } => match input {
                LibraryInput::Poll => {
                    self.phase = LibraryPhase::PollingDecoder { loaded };
                    LibraryStep::Request(
                        LibraryRequest::PollDecoder(decoder, ARCHIVE_REPLAY_UNITS_PER_UPDATE),
                    )
                },
                _ => self.stop(DRIVER_MISMATCH),
            },
            LibraryPhase::Selecting { job, candidate } => self.on_selecting(job, candidate, input),
            LibraryPhase::StartingLoad { selected_slot } => match input {
                LibraryInput::StoreStarted(Ok(job)) => {
                    self.phase = LibraryPhase::Loading { job, selected_slot };
                    LibraryStep::Event(LibraryEvent::Pending)
                },
                LibraryInput::StoreStarted(Err(error)) => self.fail(store_failure(error)),
                _ => self.stop(DRIVER_MISMATCH),
            },
            LibraryPhase::ResolvingBuiltIn { selected_slot, loaded } => match input {
                LibraryInput::BuiltInCatalog(None) => self.fail(
                    diagnostic(ClientDiagnosticCode::Catalog, BUILT_IN_CATALOG_INVALID),
                ),
                LibraryInput::BuiltInCatalog(Some(catalog)) => {
                    self.phase = LibraryPhase::HashingArchive { selected_slot, catalog };
                    LibraryStep::Request(LibraryRequest::ArchiveCatalogHash(loaded))
                },
                _ => self.stop(DRIVER_MISMATCH),
            },
            LibraryPhase::HashingArchive { selected_slot, catalog } => match input {
                LibraryInput::ArchiveHashed(loaded, hashed) => {
                    if loaded.slot != selected_slot {
                        return self.stop(DRIVER_MISMATCH);
                    }
                    match hashed {
                        Err(message) => self.recover(
                            loaded,
                            ClientDiagnostic { code: ClientDiagnosticCode::Archive, message },
                        ),
                        Ok(expected_hash) => {
                            self.phase = LibraryPhase::HashingBuiltIn {
                                selected_slot,
                                loaded,
                                expected_hash,
                            };
                            LibraryStep::Request(LibraryRequest::CatalogHash(catalog))
                        },
                    }
                },
                _ => self.stop(DRIVER_MISMATCH),
            },
            LibraryPhase::HashingBuiltIn { selected_slot, loaded, expected_hash } => match input {
                LibraryInput::CatalogHashed(catalog, hash) => {
                    if hash.matches(&expected_hash) {
                        self.replay(loaded, catalog)
                    } else {
                        self.phase = LibraryPhase::StartingPackLoad {
                            selected_slot,
                            loaded,
                            expected_hash,
                        };
                        LibraryStep::Request(
                            LibraryRequest::StartStore(
                                WorkshopStoreRequest::GetPack { hash: expected_hash },
                            ),
                        )
                    }
                },
                _ => self.stop(DRIVER_MISMATCH),
            },
            LibraryPhase::StartingPackLoad { selected_slot, loaded, expected_hash } => match input {
                LibraryInput::StoreStarted(Ok(job)) => {
                    self.phase = LibraryPhase::LoadingCatalog {
                        job,
                        selected_slot,
                        loaded,
                        expected_hash,
                    };
                    LibraryStep::Event(LibraryEvent::Pending)
                },
                LibraryInput::StoreStarted(Err(error)) => self.recover(loaded, store_failure(error)),
                _ => self.stop(DRIVER_MISMATCH),
            },
            LibraryPhase::StartingRecovery { selected_slot, failure } => match input {
                LibraryInput::StoreStarted(Ok(job)) => {
                    self.phase = LibraryPhase::LoadingPrevious {
                        job,
                        selected_slot,
                        original_failure: failure,
                    };
                    LibraryStep::Event(LibraryEvent::Pending)
                },
                LibraryInput::StoreStarted(Err(error)) => self.fail(store_failure(error)),
                _ => self.stop(DRIVER_MISMATCH),
            },
            LibraryPhase::DecodingPack { selected_slot, loaded, expected_hash } => match input {
                LibraryInput::PackDecoded(_, None) => self.recover(
                    loaded,
                    diagnostic(ClientDiagnosticCode::Catalog, SAVED_CATALOG_INVALID),
                ),
                LibraryInput::PackDecoded(pack, Some(catalog)) => {
                    self.phase = LibraryPhase::EncodingPack { loaded, expected_hash, pack };
                    LibraryStep::Request(LibraryRequest::EncodePack(catalog))
                },
                _ => self.stop(DRIVER_MISMATCH),
            },
            LibraryPhase::EncodingPack { loaded, expected_hash, pack } => match input {
                LibraryInput::PackEncoded(_, None) => self.recover(
                    loaded,
                    diagnostic(ClientDiagnosticCode::Catalog, SAVED_CATALOG_NOT_CANONICAL),
                ),
                LibraryInput::PackEncoded(catalog, Some(canonical)) => {
                    self.phase = LibraryPhase::HashingPack { loaded, expected_hash, pack, canonical };
                    LibraryStep::Request(LibraryRequest::CatalogHash(catalog))
                },
                _ => self.stop(DRIVER_MISMATCH),
            },
            LibraryPhase::HashingPack { loaded, expected_hash, pack, canonical } => match input {
                LibraryInput::CatalogHashed(catalog, hash) => {
                    if !hash.matches(&expected_hash) || !bytes_equal(&canonical, &pack) {
                        self.recover(
                            loaded,
                            diagnostic(ClientDiagnosticCode::Catalog, SAVED_CATALOG_MISMATCH),
                        )
                    } else {
                        self.replay(loaded, catalog)
                    }
                },
                _ => self.stop(DRIVER_MISMATCH),
            },
            LibraryPhase::CreatingDecoder { selected_slot } => match input {
                LibraryInput::DecoderCreated(loaded, created) => {
                    if loaded.slot != selected_slot {
                        return self.stop(DRIVER_MISMATCH);
                    }
                    match created {
                        Ok(decoder) => {
                            self.phase = LibraryPhase::Decoding { loaded, decoder };
                            LibraryStep::Event(LibraryEvent::Pending)
                        },
                        Err(message) => self.recover(
                            loaded,
                            ClientDiagnostic { code: ClientDiagnosticCode::Archive, message },
                        ),
                    }
                },
                _ => self.stop(DRIVER_MISMATCH),
            },
            LibraryPhase::PollingDecoder { loaded } => match input {
                LibraryInput::DecoderPolled(decoder, Ok(complete)) => {
                    if complete {
                        self.phase = LibraryPhase::FinishingDecoder { loaded };
                        LibraryStep::Request(LibraryRequest::FinishDecoder(decoder))
                    } else {
                        self.phase = LibraryPhase::Decoding { loaded, decoder };
                        LibraryStep::Event(LibraryEvent::Pending)
                    }
                },
                LibraryInput::DecoderPolled(_, Err(message)) => self.recover(
                    loaded,
                    ClientDiagnostic { code: ClientDiagnosticCode::Archive, message },
                ),
                _ => self.stop(DRIVER_MISMATCH),
            },
            LibraryPhase::FinishingDecoder { loaded } => match input {
                LibraryInput::DecoderFinished(Ok(history)) => self.finish(loaded, history),
                LibraryInput::DecoderFinished(Err(message)) => self.recover(
                    loaded,
                    ClientDiagnostic { code: ClientDiagnosticCode::Archive, message },
                ),
                _ => self.stop(DRIVER_MISMATCH),
            },
            LibraryPhase::StartingSelection { candidate } => match input {
                LibraryInput::StoreStarted(Ok(job)) => {
                    self.phase = LibraryPhase::Selecting { job, candidate };
                    LibraryStep::Event(LibraryEvent::Pending)
                },
                LibraryInput::StoreStarted(Err(error)) => self.fail(store_failure(error)),
                _ => self.stop(DRIVER_MISMATCH),
            },
        }
    }
}

/// The output starts a Continue selection.
pub open spec fn starts_selection<C, D, H>(out: LibraryStep<C, D, H>) -> bool {
    out matches LibraryStep::Request(
        LibraryRequest::StartStore(WorkshopStoreRequest::SelectContinue { .. }),
    )
}

/// An open that does not claim Continue (a row export) never starts a
/// Continue selection, whatever storage and the Workshop core answer.
pub proof fn lemma_export_never_selects_continue<C, D, H>(
    before: WorkshopLibraryClient<C, D, H>,
    input: LibraryInput<C, D, H>,
    after: WorkshopLibraryClient<C, D, H>,
    out: LibraryStep<C, D, H>,
)
    requires
        !before.claims_continue(),
        library_step(before, input, after, out),
    ensures
        !starts_selection(out),
{
}

/// An export, begun as one, reports neither an archived row nor a Continue
/// conflict over any number of polls: a step from an export client that
/// has not entered a selection leaves it so, and its output is neither.
pub proof fn lemma_exports_never_report_archived_rows_or_conflicts<C, D, H>(
    before: WorkshopLibraryClient<C, D, H>,
    input: LibraryInput<C, D, H>,
    after: WorkshopLibraryClient<C, D, H>,
    out: LibraryStep<C, D, H>,
)
    requires
        !before.claims_continue(),
        !before.refuses_archived_rows(),
        !(before.phase() is Selecting),
        !(before.phase() is StartingSelection),
        library_step(before, input, after, out),
    ensures
        !(out matches LibraryStep::Event(LibraryEvent::ArchivedRow { .. })),
        !(out matches LibraryStep::Event(LibraryEvent::ContinueConflict { .. })),
        !after.claims_continue(),
        !after.refuses_archived_rows(),
        !(after.phase() is Selecting),
        !(after.phase() is StartingSelection),
{
}

/// Only a clean head claims the Continue marker, and only at the generation
/// that was replayed: whenever a step starts a Continue selection, the
/// candidate it holds is not a recovered predecessor and the selection names
/// that candidate's slot and generation.
pub proof fn lemma_selection_names_validated_head<C, D, H>(
    before: WorkshopLibraryClient<C, D, H>,
    input: LibraryInput<C, D, H>,
    after: WorkshopLibraryClient<C, D, H>,
    out: LibraryStep<C, D, H>,
)
    requires
        library_step(before, input, after, out),
        starts_selection(out),
    ensures
        after.phase() matches LibraryPhase::StartingSelection { candidate } && {
            &&& !candidate.loaded.recovered_from_previous
            &&& out == LibraryStep::<C, D, H>::Request(
                LibraryRequest::StartStore(
                    WorkshopStoreRequest::SelectContinue {
                        slot: candidate.loaded.slot,
                        expected_generation: candidate.loaded.generation,
                    },
                ),
            )
        },
{
}

/// Every reported outcome other than `Pending` ends the open: the client is
/// idle again and holds nothing.
pub proof fn lemma_outcomes_leave_client_idle<C, D, H>(
    before: WorkshopLibraryClient<C, D, H>,
    input: LibraryInput<C, D, H>,
    after: WorkshopLibraryClient<C, D, H>,
    out: LibraryStep<C, D, H>,
)
    requires
        library_step(before, input, after, out),
        out is Event,
        !(out matches LibraryStep::Event(LibraryEvent::Pending)),
    ensures
        after.phase() is Idle,
{
}

/// An open in flight stays in flight until it reports an outcome: a step
/// from an active client leaves it idle exactly when it reports something
/// other than `Pending`.
pub proof fn lemma_active_until_outcome<C, D, H>(
    before: WorkshopLibraryClient<C, D, H>,
    input: LibraryInput<C, D, H>,
    after: WorkshopLibraryClient<C, D, H>,
    out: LibraryStep<C, D, H>,
)
    requires
        library_step(before, input, after, out),
        !(before.phase() is Idle),
    ensures
        after.phase() is Idle <==> (out is Event && !(out matches LibraryStep::Event(
            LibraryEvent::Pending,
        ))),
{
}

/// An open of a row stays on that row: whatever it is given, a step that
/// leaves it in flight keeps the row it works on, and a candidate it reports
/// ready is a load of that row.
pub proof fn lemma_open_keeps_its_row<C, D, H>(
    before: WorkshopLibraryClient<C, D, H>,
    input: LibraryInput<C, D, H>,
    after: WorkshopLibraryClient<C, D, H>,
    out: LibraryStep<C, D, H>,
)
    requires
        held_slot(before.phase()) is Some,
        library_step(before, input, after, out),
    ensures
        !(after.phase() is Idle) ==> held_slot(after.phase()) == held_slot(before.phase()),
        out matches LibraryStep::Event(LibraryEvent::Ready(candidate)) ==> Some(
            candidate.loaded.slot,
        ) == held_slot(before.phase()),
{
}

/// A retained predecessor never claims the Continue marker: when the replay
/// of a recovered predecessor completes, the open reports it as ready at
/// once and ends, whether or not the open selects Continue.
pub proof fn lemma_recovered_replay_finishes_ready<C, D, H>(
    before: WorkshopLibraryClient<C, D, H>,
    loaded: LoadedSlot,
    history: H,
    after: WorkshopLibraryClient<C, D, H>,
    out: LibraryStep<C, D, H>,
)
    requires
        before.phase() == (LibraryPhase::<C, D, H>::FinishingDecoder { loaded }),
        loaded.recovered_from_previous,
        library_step(before, LibraryInput::DecoderFinished(Ok(history)), after, out),
    ensures
        after.phase() is Idle,
        out == LibraryStep::<C, D, H>::Event(
            LibraryEvent::Ready((LibraryCandidate { loaded, history })),
        ),
        !starts_selection(out),
{
}

/// An idle client, such as one whose open was abandoned, reports nothing
/// and stays idle, whatever it is given.
pub proof fn lemma_idle_client_reports_nothing<C, D, H>(
    before: WorkshopLibraryClient<C, D, H>,
    input: LibraryInput<C, D, H>,
    after: WorkshopLibraryClient<C, D, H>,
    out: LibraryStep<C, D, H>,
)
    requires
        before.phase() is Idle,
        library_step(before, input, after, out),
    ensures
        after.phase() is Idle,
        out == LibraryStep::<C, D, H>::Event(LibraryEvent::Pending),
{
}

/// A row whose head moved since it was listed is reported stale from the
/// load itself: nothing is fetched or replayed, and the client is idle.
pub proof fn lemma_stale_row_stops_before_replay<C, D, H>(
    before: WorkshopLibraryClient<C, D, H>,
    loaded: LoadedSlot,
    after: WorkshopLibraryClient<C, D, H>,
    out: LibraryStep<C, D, H>,
)
    requires
        before.phase() matches LibraryPhase::Loading { selected_slot, .. }
            && loaded.slot == selected_slot,
        before.observed_generation() matches Some(observed)
            && loaded.head_generation != observed,
        library_step(
            before,
            LibraryInput::StorePolled(
                StoreJobState::Complete(Ok(WorkshopStoreResult::SlotLoaded(loaded))),
            ),
            after,
            out,
        ),
    ensures
        after.phase() is Idle,
        out == LibraryStep::<C, D, H>::Event(
            LibraryEvent::StaleRow {
                slot: loaded.slot,
                observed: before.observed_generation()->0,
                head: loaded.head_generation,
            },
        ),
{
}

/// An open refuses an archived row as soon as it is loaded, while a row
/// export reads it like any other: the archived flag alone decides nothing
/// for an export.
pub proof fn lemma_archived_rows_refused_only_by_opens<C, D, H>(
    before: WorkshopLibraryClient<C, D, H>,
    loaded: LoadedSlot,
    after: WorkshopLibraryClient<C, D, H>,
    out: LibraryStep<C, D, H>,
)
    requires
        before.phase() matches LibraryPhase::Loading { selected_slot, .. }
            && loaded.slot == selected_slot,
        !(before.observed_generation() matches Some(observed)
            && loaded.head_generation != observed),
        loaded.recovered_from_previous == (loaded.generation != loaded.head_generation),
        loaded.archived,
        library_step(
            before,
            LibraryInput::StorePolled(
                StoreJobState::Complete(Ok(WorkshopStoreResult::SlotLoaded(loaded))),
            ),
            after,
            out,
        ),
    ensures
        before.refuses_archived_rows() ==> out == LibraryStep::<C, D, H>::Event(
            LibraryEvent::ArchivedRow { slot: loaded.slot },
        ),
        !before.refuses_archived_rows() ==> out == LibraryStep::<C, D, H>::Request(
            LibraryRequest::DecodeBuiltInCatalog,
        ),
{
}

} // verus!
