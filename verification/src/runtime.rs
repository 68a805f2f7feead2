//! The product shell's decisions: screens and main-menu routes, the
//! Library's one slot-request lane, row opens and exports, the portable
//! handoff, catalog import and the bounded diagnostic log.
//!
//! The Classic and Workshop sessions themselves are held by the caller. The
//! shell reads what it needs of them as [`SessionFacts`], and where a route
//! replaces the session it hands the caller what to install.

use vstd::prelude::*;
use vstd::string::*;

use crate::client::{
    CatalogImportStatus, ClientRuntimeEffect, MainMenuCapability, MainMenuRoute, ClientDiagnostic, ClientDiagnosticCode, ClientRuntimeError, ClientScreen, ExportSource,
    LibrarySlotsStatus, OpenPurpose, PreparedExport, SlotRequestKind, diagnostic_is,
    export_slot, exports_load, prepared_export, purpose_kind, request_kind, request_slot,
};
use crate::library::{
    BUILT_IN_CATALOG_INVALID, LibraryBeginError, LibraryCandidate, LibraryEvent, LibraryInput, LibraryOpen, LibraryPhase,
    LibraryRequest, LibraryStep, phase_job, SlotIntent, WorkshopLibraryClient, first_request,
    lemma_active_until_outcome, lemma_open_keeps_its_row, held_slot, library_step,
};
use crate::store::{
    LoggedStore, StoreCall, StoreRequestView, CatalogHash, same_hash, LoadedSlot, SaveGeneration, SlotId, SlotList, StoreJobId, StoreJobState, WorkshopStore,
    WorkshopStoreError, WorkshopStoreRequest, WorkshopStoreResult, store_error_text,
};
use crate::transfer::{
    TransferKind, LoggedAdapter, TransferCall, TransferRequestView,
    HandoffOutcome, TransferAdapter, TransferError, TransferFailureCode, TransferJobId,
    TransferJobState, TransferOutcome, TransferRequest, copy_bytes, failure_message,
};

verus! {

/// The most diagnostics the shell keeps; the oldest is dropped first.
pub const MAX_CLIENT_DIAGNOSTICS: usize = 100;

pub const RESIDENT_SLOT_ARCHIVE: &'static str = "The resident Workshop's own slot cannot be archived";
pub const FORGOT_SLOT_REQUEST: &'static str = "Workshop storage forgot the active Library slot request";
pub const SLOT_REQUEST_UNEXPECTED: &'static str =
    "Workshop storage answered a Library slot request with an unexpected result";
pub const NO_RETRYABLE_SLOT_REQUEST: &'static str = "No retryable Workshop Library slot request is waiting";
pub const CONTINUE_FOLLOWS_RESIDENT: &'static str = "Continue follows the resident Workshop while it is open";
pub const RESIDENT_SLOT_OPEN: &'static str = "The resident Workshop's own slot is already open";
pub const REPLACEMENT_BLOCKED: &'static str = "Save the resident Workshop before replacing its active session";
pub const OPEN_WITHOUT_CANDIDATE: &'static str =
    "A Library open reported no Continue candidate it never asked for";
pub const ROW_CHANGED: &'static str = "The Library row changed before it could be opened";
pub const NO_EXPORT_RECOVERY: &'static str = "No Workshop Library export recovery is waiting";
pub const NO_HELD_OPEN: &'static str = "No validated Workshop Library open is waiting";
pub const NO_PREPARED_COPY: &'static str = "No prepared Workshop Library copy is waiting for a handoff";
pub const MENU_NOT_ACTIVE: &'static str = "Main-menu route requested while the main menu was not active";
pub const CONTINUE_WITHOUT_SAVE: &'static str = "Continue requested without a selected, validated save";
pub const LIBRARY_ENTRY: &'static str =
    "Library opens from the main menu, Classic Sector, or Galaxy Workshop";
pub const PREVIOUS_GENERATION_AVAILABLE: &'static str =
    "The latest save was invalid; a previous valid generation is available";
pub const UNREQUESTED_CONFLICT: &'static str =
    "Workshop Continue bootstrap received a generation conflict it never requested";
pub const WORKSHOP_INACTIVE: &'static str = "Workshop action requested without an active Workshop";
pub const IMPORT_INVALID: &'static str = "The imported Workshop catalog failed validation";
pub const IMPORT_NOT_CANONICAL: &'static str = "The imported Workshop catalog could not be canonicalized";
pub const NO_RETRYABLE_IMPORT: &'static str = "No retryable Workshop catalog import is waiting";
pub const NO_CANCELLABLE_IMPORT: &'static str = "No cancellable Workshop catalog import is waiting";
pub const NO_BLOCKED_IMPORT: &'static str = "No stored Workshop catalog is waiting to start a new Workshop";
pub const FORGOT_IMPORT_JOB: &'static str = "Workshop storage forgot the active catalog import job";
pub const IMPORT_UNEXPECTED: &'static str = "Workshop catalog import returned an unexpected result";
pub const IMPORT_WRONG_HASH: &'static str = "Workshop storage persisted a catalog under the wrong hash";
pub const IMPORT_START_BLOCKED: &'static str =
    "The imported Workshop catalog was saved, but the resident Workshop changed while it was saving. Save the resident Workshop, then start a new Workshop from the imported catalog.";
pub const NO_CANCELLABLE_SLOT_REQUEST: &'static str =
    "No cancellable Workshop Library slot request is waiting";

/// Which product session is active.
#[derive(Clone, Copy, Debug, PartialEq, Eq, Structural)]
pub enum SessionKind {
    NoSession,
    Classic,
    Workshop,
}

/// What the shell reads of the active session. The Workshop facts count only
/// while a Workshop is resident.
#[derive(Clone, Copy, Debug, PartialEq, Eq, Structural)]
pub struct SessionFacts {
    pub kind: SessionKind,
    /// The slot the resident Workshop occupies.
    pub resident_slot: Option<SlotId>,
    /// The resident Workshop is the saved generation selected for Continue.
    pub continue_ready: bool,
    /// The resident Workshop holds unsaved work or a persistence obligation,
    /// so no route may replace it.
    pub replacement_blocked: bool,
}

/// The slot a resident Workshop occupies, if any.
pub open spec fn resident_slot_of(facts: SessionFacts) -> Option<SlotId> {
    if facts.kind == SessionKind::Workshop {
        facts.resident_slot
    } else {
        None
    }
}

/// Whether the resident Workshop forbids replacing the session.
pub open spec fn blocks_replacement(facts: SessionFacts) -> bool {
    facts.kind == SessionKind::Workshop && facts.replacement_blocked
}

/// Whether the resident Workshop is itself the Continue save.
pub open spec fn resident_continue_ready(facts: SessionFacts) -> bool {
    facts.kind == SessionKind::Workshop && facts.continue_ready
}

/// The Library's one slot-request lane. Exactly one request is outstanding
/// at a time, and a failure waits on the user rather than on the store.
#[derive(Debug)]
pub enum LibrarySlots<H> {
    Idle,
    Working { job: StoreJobId, request: WorkshopStoreRequest },
    Failed { request: WorkshopStoreRequest, code: ClientDiagnosticCode },
    /// An exact-catalog open of one row is in flight in the open client.
    Opening { slot: SlotId, generation: SaveGeneration, purpose: OpenPurpose },
    OpenFailed {
        slot: SlotId,
        generation: SaveGeneration,
        purpose: OpenPurpose,
        code: ClientDiagnosticCode,
    },
    /// A validated candidate waiting for the user.
    Held { candidate: LibraryCandidate<H> },
    /// A row export found an invalid head and a valid predecessor.
    ExportRecoveryOffered { loaded: LoadedSlot },
    ExportReady { export: PreparedExport },
    HandingOff { job: TransferJobId, export: PreparedExport },
    HandOffFailed { export: PreparedExport, code: TransferFailureCode },
    ExportHandedOff { source: ExportSource, outcome: HandoffOutcome },
}

/// The status the Library presents for `lane`.
pub open spec fn lane_status<H>(lane: LibrarySlots<H>) -> LibrarySlotsStatus {
    match lane {
        LibrarySlots::Idle => LibrarySlotsStatus::Idle,
        LibrarySlots::Working { request, .. } => LibrarySlotsStatus::Working {
            kind: request_kind(request),
            slot: request_slot(request),
        },
        LibrarySlots::Failed { request, code } => LibrarySlotsStatus::Failed {
            kind: request_kind(request),
            slot: request_slot(request),
            code,
        },
        LibrarySlots::Opening { slot, purpose, .. } => LibrarySlotsStatus::Working {
            kind: purpose_kind(purpose),
            slot: Some(slot),
        },
        LibrarySlots::OpenFailed { slot, purpose, code, .. } => LibrarySlotsStatus::Failed {
            kind: purpose_kind(purpose),
            slot: Some(slot),
            code,
        },
        LibrarySlots::Held { candidate } => LibrarySlotsStatus::Held {
            slot: candidate.loaded.slot,
            recovered: candidate.loaded.recovered_from_previous,
        },
        LibrarySlots::ExportRecoveryOffered { loaded } => LibrarySlotsStatus::ExportRecoveryOffered {
            slot: loaded.slot,
        },
        LibrarySlots::ExportReady { export } => LibrarySlotsStatus::ExportReady {
            source: export.source,
        },
        LibrarySlots::HandingOff { export, .. } => LibrarySlotsStatus::Working {
            kind: SlotRequestKind::HandOff,
            slot: export_slot(export.source),
        },
        LibrarySlots::HandOffFailed { export, code } => LibrarySlotsStatus::HandOffFailed {
            source: export.source,
            code,
        },
        LibrarySlots::ExportHandedOff { source, outcome } => LibrarySlotsStatus::ExportHandedOff {
            source,
            outcome,
        },
    }
}

/// `log` with its oldest entry dropped when it is full, ready for one more.
pub open spec fn trimmed(log: Seq<ClientDiagnostic>) -> Seq<ClientDiagnostic> {
    if log.len() >= MAX_CLIENT_DIAGNOSTICS {
        log.drop_first()
    } else {
        log
    }
}

/// `after` is `before` with one diagnostic of `code` reading `text` recorded.
pub open spec fn logs(
    before: Seq<ClientDiagnostic>,
    after: Seq<ClientDiagnostic>,
    code: ClientDiagnosticCode,
    text: Seq<char>,
) -> bool {
    &&& after.len() > 0
    &&& after.drop_last() == trimmed(before)
    &&& diagnostic_is(after.last(), code, text)
}

/// `after` is `before` with one diagnostic of `code` recorded.
pub open spec fn logs_code(
    before: Seq<ClientDiagnostic>,
    after: Seq<ClientDiagnostic>,
    code: ClientDiagnosticCode,
) -> bool {
    logs(before, after, code, after.last().message@)
}

/// `diagnostic` reports the storage failure `error`.
pub open spec fn is_store_failure_of(diagnostic: ClientDiagnostic, error: WorkshopStoreError) -> bool {
    diagnostic_is(diagnostic, ClientDiagnosticCode::Store, store_error_text(error))
}

/// Whether `request` changes what a listing shows.
pub open spec fn request_mutates(request: WorkshopStoreRequest) -> bool {
    !(request is ListSlots)
}

/// A catalog pack the caller decoded, validated and canonicalized.
#[derive(Debug)]
pub struct ValidatedPack<C> {
    pub catalog: C,
    pub hash: CatalogHash,
    pub canonical_pack: Vec<u8>,
}

/// What validating imported pack bytes gave.
#[derive(Debug)]
pub enum PackValidation<C> {
    /// The bytes are not a valid catalog pack.
    Invalid,
    /// The catalog could not be encoded canonically.
    NotCanonical,
    Valid(ValidatedPack<C>),
}

/// Retained retry material for one catalog import.
#[derive(Debug)]
pub struct ImportMaterial<C> {
    pub pack: ValidatedPack<C>,
    pub start_seed: Option<u64>,
}

/// The request that stores `material`'s canonical pack.
pub open spec fn store_pack_request<C>(material: ImportMaterial<C>) -> StoreRequestView {
    StoreRequestView::PutPack { canonical_pack: material.pack.canonical_pack@ }
}

/// The catalog-import machine. A failure and a blocked start wait on the
/// user; a stored pack is never withdrawn.
#[derive(Debug)]
pub enum CatalogImport<C> {
    Idle,
    Storing { job: StoreJobId, material: ImportMaterial<C> },
    Stored { hash: CatalogHash },
    StoreFailed { code: ClientDiagnosticCode, material: ImportMaterial<C> },
    /// Carries its own catalog, so Start When Safe installs exactly the
    /// pack that was stored for it.
    StartBlocked { hash: CatalogHash, seed: u64, catalog: C },
}

/// The most recently stored imported catalog.
#[derive(Debug)]
pub struct ImportedCatalog<C> {
    pub catalog: C,
    pub hash: CatalogHash,
}

/// The status the Library presents for `import`.
pub open spec fn import_status<C>(import: CatalogImport<C>) -> CatalogImportStatus {
    match import {
        CatalogImport::Idle => CatalogImportStatus::Idle,
        CatalogImport::Storing { material, .. } => CatalogImportStatus::Storing {
            expected_hash: material.pack.hash,
            starts_new_workshop: material.start_seed is Some,
        },
        CatalogImport::Stored { hash } => CatalogImportStatus::Stored { hash },
        CatalogImport::StoreFailed { code, material } => CatalogImportStatus::StoreFailed {
            expected_hash: material.pack.hash,
            code,
            starts_new_workshop: material.start_seed is Some,
        },
        CatalogImport::StartBlocked { hash, .. } => CatalogImportStatus::StartBlocked { hash },
    }
}

/// Whether the import machine holds intent only the user can resolve.
pub open spec fn import_unresolved<C>(import: CatalogImport<C>) -> bool {
    import is Storing || import is StoreFailed || import is StartBlocked
}

/// `after` is `before` with two diagnostics of `code` recorded, reading
/// `first` and then `second`.
pub open spec fn logs_twice(
    before: Seq<ClientDiagnostic>,
    after: Seq<ClientDiagnostic>,
    code: ClientDiagnosticCode,
    first: Seq<char>,
    second: Seq<char>,
) -> bool {
    exists|middle: Seq<ClientDiagnostic>|
        #[trigger] logs(before, middle, code, first) && logs(middle, after, code, second)
}

/// The product shell's state: the screen and where each lateral screen
/// returns to, the two Library clients, the slot-request lane with the list
/// and the Continue candidate it keeps, the transfer adapter, the recovery
/// diagnostic and the bounded log.
pub struct ClientRuntime<C, D, H, T> {
    screen: ClientScreen,
    settings_return: ClientScreen,
    bootstrap_return: ClientScreen,
    library_return: ClientScreen,
    library: WorkshopLibraryClient<C, D, H>,
    open_client: WorkshopLibraryClient<C, D, H>,
    slot_requests: LibrarySlots<H>,
    slot_list: Option<SlotList>,
    continue_candidate: Option<LibraryCandidate<H>>,
    catalog_import: CatalogImport<C>,
    imported_catalog: Option<ImportedCatalog<C>>,
    transfer: Option<LoggedAdapter<T>>,
    diagnostics: Vec<ClientDiagnostic>,
    recovery: Option<ClientDiagnostic>,
    credits_visible: bool,
}

impl<C, D, H, T> ClientRuntime<C, D, H, T> {
    pub closed spec fn current_screen(&self) -> ClientScreen {
        self.screen
    }

    pub closed spec fn settings_return_screen(&self) -> ClientScreen {
        self.settings_return
    }

    pub closed spec fn bootstrap_return_screen(&self) -> ClientScreen {
        self.bootstrap_return
    }

    pub closed spec fn library_return_screen(&self) -> ClientScreen {
        self.library_return
    }

    /// The client running startup Continue.
    pub closed spec fn bootstrap_client(&self) -> WorkshopLibraryClient<C, D, H> {
        self.library
    }

    /// The client running Library row opens.
    pub closed spec fn row_client(&self) -> WorkshopLibraryClient<C, D, H> {
        self.open_client
    }

    pub closed spec fn lane(&self) -> LibrarySlots<H> {
        self.slot_requests
    }

    pub closed spec fn listed(&self) -> Option<SlotList> {
        self.slot_list
    }

    pub closed spec fn candidate(&self) -> Option<LibraryCandidate<H>> {
        self.continue_candidate
    }

    pub closed spec fn adapter(&self) -> Option<LoggedAdapter<T>> {
        self.transfer
    }

    pub closed spec fn import(&self) -> CatalogImport<C> {
        self.catalog_import
    }

    pub closed spec fn imported(&self) -> Option<ImportedCatalog<C>> {
        self.imported_catalog
    }

    pub closed spec fn log(&self) -> Seq<ClientDiagnostic> {
        self.diagnostics@
    }

    pub closed spec fn recovery(&self) -> Option<ClientDiagnostic> {
        self.recovery
    }

    pub closed spec fn credits(&self) -> bool {
        self.credits_visible
    }

    /// The shell's invariant: the log is bounded, and the row client is busy
    /// exactly while the lane holds an open.
    pub closed spec fn wf(&self) -> bool {
        &&& self.diagnostics.len() <= MAX_CLIENT_DIAGNOSTICS
        &&& (self.open_client.phase() is Idle <==> !(self.slot_requests is Opening))
        &&& (self.slot_requests matches LibrarySlots::Opening { slot, .. } ==> held_slot(
            self.open_client.phase(),
        ) == Some(slot))
    }

    /// Where each lateral screen returns to, the credits overlay and the
    /// catalog import agree.
    pub open spec fn same_returns(&self, other: &Self) -> bool {
        &&& self.import() == other.import()
        &&& self.imported() == other.imported()
        &&& self.settings_return_screen() == other.settings_return_screen()
        &&& self.bootstrap_return_screen() == other.bootstrap_return_screen()
        &&& self.library_return_screen() == other.library_return_screen()
        &&& self.credits() == other.credits()
    }

    /// The screens, the credits overlay and the recovery diagnostic agree.
    pub open spec fn same_screens(&self, other: &Self) -> bool {
        &&& self.same_returns(other)
        &&& self.current_screen() == other.current_screen()
        &&& self.recovery() == other.recovery()
    }

    /// Both Library clients agree.
    pub open spec fn same_clients(&self, other: &Self) -> bool {
        &&& self.bootstrap_client() == other.bootstrap_client()
        &&& self.row_client() == other.row_client()
    }
}

impl<C, D, H, T> ClientRuntime<C, D, H, T> {
    /// A shell on the main menu with no session, nothing listed and nothing
    /// in flight.
    pub fn new() -> (runtime: Self)
        ensures
            runtime.wf(),
            runtime.current_screen() == ClientScreen::MainMenu,
            runtime.settings_return_screen() == ClientScreen::MainMenu,
            runtime.bootstrap_return_screen() == ClientScreen::MainMenu,
            runtime.library_return_screen() == ClientScreen::MainMenu,
            runtime.bootstrap_client().phase() is Idle,
            runtime.row_client().phase() is Idle,
            runtime.lane() is Idle,
            runtime.listed() is None,
            runtime.candidate() is None,
            runtime.import() is Idle,
            runtime.imported() is None,
            runtime.adapter() is None,
            runtime.log() == Seq::<ClientDiagnostic>::empty(),
            runtime.recovery() is None,
            !runtime.credits(),
    {
        ClientRuntime {
            screen: ClientScreen::MainMenu,
            settings_return: ClientScreen::MainMenu,
            bootstrap_return: ClientScreen::MainMenu,
            library_return: ClientScreen::MainMenu,
            library: WorkshopLibraryClient::new(),
            open_client: WorkshopLibraryClient::new(),
            slot_requests: LibrarySlots::Idle,
            slot_list: None,
            continue_candidate: None,
            catalog_import: CatalogImport::Idle,
            imported_catalog: None,
            transfer: None,
            diagnostics: Vec::new(),
            recovery: None,
            credits_visible: false,
        }
    }

    pub fn screen(&self) -> (screen: ClientScreen)
        ensures
            screen == self.current_screen(),
    {
        self.screen
    }

    pub fn credits_visible(&self) -> (visible: bool)
        ensures
            visible == self.credits(),
    {
        self.credits_visible
    }

    pub fn diagnostics(&self) -> (log: &Vec<ClientDiagnostic>)
        ensures
            log@ == self.log(),
    {
        &self.diagnostics
    }

    pub fn recovery_diagnostic(&self) -> (diagnostic: &Option<ClientDiagnostic>)
        ensures
            *diagnostic == self.recovery(),
    {
        &self.recovery
    }

    /// The listed slots, or `None` when there is no list worth trusting. An
    /// empty store lists as `Some` with no slots.
    pub fn library_slots(&self) -> (list: &Option<SlotList>)
        ensures
            *list == self.listed(),
    {
        &self.slot_list
    }

    pub fn library_slots_status(&self) -> (status: LibrarySlotsStatus)
        ensures
            status == lane_status(self.lane()),
    {
        match &self.slot_requests {
            LibrarySlots::Idle => LibrarySlotsStatus::Idle,
            LibrarySlots::Working { request, .. } => LibrarySlotsStatus::Working {
                kind: crate::client::slot_request_kind(request),
                slot: crate::client::slot_request_slot(request),
            },
            LibrarySlots::Failed { request, code } => LibrarySlotsStatus::Failed {
                kind: crate::client::slot_request_kind(request),
                slot: crate::client::slot_request_slot(request),
                code: *code,
            },
            LibrarySlots::Opening { slot, purpose, .. } => LibrarySlotsStatus::Working {
                kind: purpose.kind(),
                slot: Some(*slot),
            },
            LibrarySlots::OpenFailed { slot, purpose, code, .. } => LibrarySlotsStatus::Failed {
                kind: purpose.kind(),
                slot: Some(*slot),
                code: *code,
            },
            LibrarySlots::Held { candidate } => LibrarySlotsStatus::Held {
                slot: candidate.loaded.slot,
                recovered: candidate.loaded.recovered_from_previous,
            },
            LibrarySlots::ExportRecoveryOffered { loaded } => LibrarySlotsStatus::ExportRecoveryOffered {
                slot: loaded.slot,
            },
            LibrarySlots::ExportReady { export } => LibrarySlotsStatus::ExportReady {
                source: export.source,
            },
            LibrarySlots::HandingOff { export, .. } => LibrarySlotsStatus::Working {
                kind: SlotRequestKind::HandOff,
                slot: export.source.slot(),
            },
            LibrarySlots::HandOffFailed { export, code } => LibrarySlotsStatus::HandOffFailed {
                source: export.source,
                code: *code,
            },
            LibrarySlots::ExportHandedOff { source, outcome } => LibrarySlotsStatus::ExportHandedOff {
                source: *source,
                outcome: *outcome,
            },
        }
    }

    /// The validated export bytes, while the lane holds them.
    pub fn prepared_export(&self) -> (export: Option<&PreparedExport>)
        ensures
            export == (match self.lane() {
                LibrarySlots::ExportReady { export } => Some(&export),
                LibrarySlots::HandingOff { export, .. } => Some(&export),
                LibrarySlots::HandOffFailed { export, .. } => Some(&export),
                _ => None,
            }),
    {
        match &self.slot_requests {
            LibrarySlots::ExportReady { export } => Some(export),
            LibrarySlots::HandingOff { export, .. } => Some(export),
            LibrarySlots::HandOffFailed { export, .. } => Some(export),
            _ => None,
        }
    }

    /// Records one diagnostic, dropping the oldest when the log is full.
    fn push_diagnostic(&mut self, code: ClientDiagnosticCode, message: String)
        requires
            old(self).wf(),
        ensures
            final(self).wf(),
            logs(old(self).log(), final(self).log(), code, message@),
            final(self).same_screens(old(self)),
            final(self).same_clients(old(self)),
            final(self).lane() == old(self).lane(),
            final(self).listed() == old(self).listed(),
            final(self).candidate() == old(self).candidate(),
            final(self).adapter() == old(self).adapter(),
    {
        if self.diagnostics.len() >= MAX_CLIENT_DIAGNOSTICS {
            self.diagnostics.remove(0);
        }
        self.diagnostics.push(ClientDiagnostic { code, message });
        proof {
            assert(self.diagnostics@.drop_last() =~= trimmed(old(self).diagnostics@));
        }
    }

    /// Drops a validated Continue candidate that names `slot`.
    fn withdraw_continue_candidate(&mut self, slot: SlotId)
        ensures
            final(self).candidate() == (match old(self).candidate() {
                Some(candidate) => if candidate.loaded.slot == slot {
                    None
                } else {
                    Some(candidate)
                },
                None => None,
            }),
            final(self).same_screens(old(self)),
            final(self).same_clients(old(self)),
            final(self).lane() == old(self).lane(),
            final(self).listed() == old(self).listed(),
            final(self).log() == old(self).log(),
            final(self).adapter() == old(self).adapter(),
            old(self).wf() ==> final(self).wf(),
    {
        let withdraw = match &self.continue_candidate {
            Some(candidate) => candidate.loaded.slot == slot,
            None => false,
        };
        if withdraw {
            self.continue_candidate = None;
        }
    }
}


/// `candidate` without one that names `slot`.
pub open spec fn withdrawn<H>(candidate: Option<LibraryCandidate<H>>, slot: SlotId) -> Option<
    LibraryCandidate<H>,
> {
    match candidate {
        Some(held) => if held.loaded.slot == slot {
            None
        } else {
            Some(held)
        },
        None => None,
    }
}

/// The Continue candidate once `request` reaches the store: an archive
/// withdraws a candidate for its slot, whatever the store later answers.
pub open spec fn after_start<H>(candidate: Option<LibraryCandidate<H>>, request: WorkshopStoreRequest) -> Option<
    LibraryCandidate<H>,
> {
    match request {
        WorkshopStoreRequest::ArchiveSlot { slot } => withdrawn(candidate, slot),
        _ => candidate,
    }
}

/// An archive of the slot the resident Workshop occupies is refused.
pub open spec fn archives_resident(request: WorkshopStoreRequest, resident: Option<SlotId>) -> bool {
    request matches WorkshopStoreRequest::ArchiveSlot { slot } && resident == Some(slot)
}

/// The calls storage has seen once a row open held by `lane` settled with
/// `event`: Use for Continue on a clean head re-lists.
pub open spec fn settle_calls<H>(lane: LibrarySlots<H>, event: LibraryEvent<H>, calls: Seq<StoreCall>) -> Seq<
    StoreCall,
> {
    match (lane, event) {
        (LibrarySlots::Opening { purpose, .. }, LibraryEvent::Ready(candidate)) => if purpose
            == OpenPurpose::SelectOnly && !candidate.loaded.recovered_from_previous {
            calls.push(StoreCall::Start(StoreRequestView::ListSlots))
        } else {
            calls
        },
        _ => calls,
    }
}

/// The calls storage has seen once the lane took `state` for its working
/// request: a change the store confirmed is followed by a re-listing.
pub open spec fn relist_calls<H>(calls: Seq<StoreCall>, lane: LibrarySlots<H>, state: StoreJobState) -> Seq<
    StoreCall,
> {
    match lane {
        LibrarySlots::Working { request, .. } => match state {
            StoreJobState::Complete(Ok(result)) => if answers(request, result) && !(
            result is Slots) {
                calls.push(StoreCall::Start(StoreRequestView::ListSlots))
            } else {
                calls
            },
            _ => calls,
        },
        _ => calls,
    }
}

/// Whether the store's answer `result` is the one `request` asked for.
pub open spec fn answers(request: WorkshopStoreRequest, result: WorkshopStoreResult) -> bool {
    match (request, result) {
        (WorkshopStoreRequest::ListSlots, WorkshopStoreResult::Slots(_)) => true,
        (
            WorkshopStoreRequest::RenameSlot { slot, .. },
            WorkshopStoreResult::SlotRenamed { slot: answered },
        ) => slot == answered,
        (
            WorkshopStoreRequest::ArchiveSlot { slot },
            WorkshopStoreResult::SlotArchived { slot: answered },
        ) => slot == answered,
        (
            WorkshopStoreRequest::UnarchiveSlot { slot },
            WorkshopStoreResult::SlotUnarchived { slot: answered },
        ) => slot == answered,
        _ => false,
    }
}

impl<C, D, H, T> ClientRuntime<C, D, H, T> {
    /// `self` is `before` with `request` started on the lane, given only
    /// that the store answered something: the request is held as working,
    /// or retained as a storage failure that was logged.
    pub open spec fn started_from(
        &self,
        before: &Self,
        request: WorkshopStoreRequest,
        result: Result<(), ClientRuntimeError>,
    ) -> bool {
        &&& self.same_screens(before)
        &&& self.same_clients(before)
        &&& self.listed() == before.listed()
        &&& self.adapter() == before.adapter()
        &&& match result {
            Ok(()) => {
                &&& self.lane() matches LibrarySlots::Working { request: held, .. } && held == request
                &&& self.log() == before.log()
                &&& self.candidate() == after_start(before.candidate(), request)
            },
            Err(ClientRuntimeError::Store(error)) => {
                &&& self.lane() == LibrarySlots::<H>::Failed {
                    request,
                    code: ClientDiagnosticCode::Store,
                }
                &&& logs(before.log(), self.log(), ClientDiagnosticCode::Store, store_error_text(error))
                &&& self.candidate() == before.candidate()
            },
            _ => false,
        }
    }

    /// The lane moved from `before` to `self` and nothing else but the log
    /// changed.
    pub open spec fn lane_moved(&self, before: &Self) -> bool {
        &&& self.same_screens(before)
        &&& self.same_clients(before)
        &&& self.adapter() == before.adapter()
    }
}

impl<C, D, H, T> ClientRuntime<C, D, H, T> {
    /// Records what storage answered to starting `request` from an idle
    /// lane: the job is held as working, and an archive withdraws a Continue
    /// candidate for its slot from that moment; a refusal is retained for
    /// Retry and logged.
    pub fn record_slot_request_start(
        &mut self,
        request: WorkshopStoreRequest,
        started: Result<StoreJobId, WorkshopStoreError>,
    ) -> (result: Result<(), ClientRuntimeError>)
        requires
            old(self).wf(),
            old(self).lane() is Idle,
        ensures
            final(self).wf(),
            final(self).lane_moved(old(self)),
            final(self).listed() == old(self).listed(),
            match started {
                Ok(job) => {
                    &&& result == Ok::<(), ClientRuntimeError>(())
                    &&& final(self).lane() == LibrarySlots::<H>::Working { job, request }
                    &&& final(self).log() == old(self).log()
                    &&& final(self).candidate() == after_start(old(self).candidate(), request)
                },
                Err(error) => {
                    &&& result == Err::<(), ClientRuntimeError>(ClientRuntimeError::Store(error))
                    &&& final(self).lane() == LibrarySlots::<H>::Failed {
                        request,
                        code: ClientDiagnosticCode::Store,
                    }
                    &&& logs(
                        old(self).log(),
                        final(self).log(),
                        ClientDiagnosticCode::Store,
                        store_error_text(error),
                    )
                    &&& final(self).candidate() == old(self).candidate()
                },
            },
    {
        match started {
            Ok(job) => {
                if let WorkshopStoreRequest::ArchiveSlot { slot } = &request {
                    self.withdraw_continue_candidate(*slot);
                }
                self.slot_requests = LibrarySlots::Working { job, request };
                Ok(())
            },
            Err(error) => {
                let message = error.duplicate().into_message();
                self.push_diagnostic(ClientDiagnosticCode::Store, message);
                self.slot_requests = LibrarySlots::Failed { request, code: ClientDiagnosticCode::Store };
                Err(ClientRuntimeError::Store(error))
            },
        }
    }

    /// The one point at which a Library slot request reaches the store. An
    /// archive of the resident Workshop's own slot is refused here, so the
    /// first attempt and every Retry are gated by the same rule.
    fn dispatch_slot_request<S: WorkshopStore>(
        &mut self,
        store: &mut LoggedStore<S>,
        resident: Option<SlotId>,
        request: WorkshopStoreRequest,
    ) -> (result: Result<(), ClientRuntimeError>)
        requires
            old(self).wf(),
            old(self).lane() is Idle,
        ensures
            final(self).wf(),
            archives_resident(request, resident) ==> {
                &&& result == Err::<(), ClientRuntimeError>(ClientRuntimeError::ResidentSlot)
                &&& logs(
                    old(self).log(),
                    final(self).log(),
                    ClientDiagnosticCode::ResidentSlot,
                    RESIDENT_SLOT_ARCHIVE@,
                )
                &&& final(self).lane_moved(old(self))
                &&& final(self).lane() is Idle
                &&& final(self).listed() == old(self).listed()
                &&& final(self).candidate() == old(self).candidate()
            },
            !archives_resident(request, resident) ==> final(self).started_from(
                old(self),
                request,
                result,
            ),
            archives_resident(request, resident) ==> final(store).calls() == old(store).calls(),
            !archives_resident(request, resident) ==> final(store).calls() == old(store).calls().push(
                StoreCall::Start(request@),
            ),
    {
        if let WorkshopStoreRequest::ArchiveSlot { slot } = &request {
            if resident == Some(*slot) {
                self.push_diagnostic(
                    ClientDiagnosticCode::ResidentSlot,
                    String::from_str(RESIDENT_SLOT_ARCHIVE),
                );
                return Err(ClientRuntimeError::ResidentSlot);
            }
        }
        let started = store.start(request.duplicate());
        self.record_slot_request_start(request, started)
    }

    /// Accepts a request only from an idle lane: a working or failed lane
    /// holds a live job or a decision the user has not made yet.
    fn start_slot_request<S: WorkshopStore>(
        &mut self,
        store: &mut LoggedStore<S>,
        facts: SessionFacts,
        request: WorkshopStoreRequest,
    ) -> (result: Result<(), ClientRuntimeError>)
        requires
            old(self).wf(),
        ensures
            final(self).wf(),
            !(old(self).lane() is Idle) ==> {
                &&& result == Err::<(), ClientRuntimeError>(ClientRuntimeError::LibraryRequestActive)
                &&& *final(self) == *old(self)
            },
            old(self).lane() is Idle && archives_resident(request, resident_slot_of(facts)) ==> {
                &&& result == Err::<(), ClientRuntimeError>(ClientRuntimeError::ResidentSlot)
                &&& logs(
                    old(self).log(),
                    final(self).log(),
                    ClientDiagnosticCode::ResidentSlot,
                    RESIDENT_SLOT_ARCHIVE@,
                )
                &&& final(self).lane_moved(old(self))
                &&& final(self).lane() is Idle
                &&& final(self).listed() == old(self).listed()
                &&& final(self).candidate() == old(self).candidate()
            },
            old(self).lane() is Idle && !archives_resident(request, resident_slot_of(facts))
                ==> final(self).started_from(old(self), request, result),
            old(self).lane() is Idle && !archives_resident(request, resident_slot_of(facts))
                ==> final(store).calls() == old(store).calls().push(StoreCall::Start(request@)),
            !(old(self).lane() is Idle && !archives_resident(request, resident_slot_of(facts)))
                ==> final(store).calls() == old(store).calls(),
    {
        if !matches!(self.slot_requests, LibrarySlots::Idle) {
            return Err(ClientRuntimeError::LibraryRequestActive);
        }
        let resident = if facts.kind == SessionKind::Workshop {
            facts.resident_slot
        } else {
            None
        };
        self.dispatch_slot_request(store, resident, request)
    }

    /// Re-lists the slots.
    pub fn refresh_library_slots<S: WorkshopStore>(&mut self, store: &mut LoggedStore<S>, facts: SessionFacts) -> (result: Result<(), ClientRuntimeError>)
        requires
            old(self).wf(),
        ensures
            final(self).wf(),
            !(old(self).lane() is Idle) ==> {
                &&& result == Err::<(), ClientRuntimeError>(ClientRuntimeError::LibraryRequestActive)
                &&& *final(self) == *old(self)
            },
            old(self).lane() is Idle ==> final(self).started_from(
                old(self),
                WorkshopStoreRequest::ListSlots,
                result,
            ),
            old(self).lane() is Idle ==> final(store).calls() == old(store).calls().push(
                StoreCall::Start((WorkshopStoreRequest::ListSlots)@),
            ),
            !(old(self).lane() is Idle) ==> final(store).calls() == old(store).calls(),
    {
        self.start_slot_request(store, facts, WorkshopStoreRequest::ListSlots)
    }

    /// Renames one slot. Not gated on the resident Workshop: contention is
    /// the store's lane to refuse.
    pub fn rename_library_slot<S: WorkshopStore>(
        &mut self,
        store: &mut LoggedStore<S>,
        facts: SessionFacts,
        slot: SlotId,
        name: crate::store::SlotName,
    ) -> (result: Result<(), ClientRuntimeError>)
        requires
            old(self).wf(),
        ensures
            final(self).wf(),
            !(old(self).lane() is Idle) ==> {
                &&& result == Err::<(), ClientRuntimeError>(ClientRuntimeError::LibraryRequestActive)
                &&& *final(self) == *old(self)
            },
            old(self).lane() is Idle ==> final(self).started_from(
                old(self),
                WorkshopStoreRequest::RenameSlot { slot, name },
                result,
            ),
            old(self).lane() is Idle ==> final(store).calls() == old(store).calls().push(
                StoreCall::Start((WorkshopStoreRequest::RenameSlot { slot, name })@),
            ),
            !(old(self).lane() is Idle) ==> final(store).calls() == old(store).calls(),
    {
        self.start_slot_request(store, facts, WorkshopStoreRequest::RenameSlot { slot, name })
    }

    /// Archives one slot; the resident Workshop's own slot is refused.
    pub fn archive_library_slot<S: WorkshopStore>(
        &mut self,
        store: &mut LoggedStore<S>,
        facts: SessionFacts,
        slot: SlotId,
    ) -> (result: Result<(), ClientRuntimeError>)
        requires
            old(self).wf(),
        ensures
            final(self).wf(),
            !(old(self).lane() is Idle) ==> {
                &&& result == Err::<(), ClientRuntimeError>(ClientRuntimeError::LibraryRequestActive)
                &&& *final(self) == *old(self)
            },
            old(self).lane() is Idle && resident_slot_of(facts) == Some(slot) ==> {
                &&& result == Err::<(), ClientRuntimeError>(ClientRuntimeError::ResidentSlot)
                &&& logs(
                    old(self).log(),
                    final(self).log(),
                    ClientDiagnosticCode::ResidentSlot,
                    RESIDENT_SLOT_ARCHIVE@,
                )
                &&& final(self).lane_moved(old(self))
                &&& final(self).lane() is Idle
                &&& final(self).listed() == old(self).listed()
                &&& final(self).candidate() == old(self).candidate()
            },
            old(self).lane() is Idle && resident_slot_of(facts) != Some(slot)
                ==> final(self).started_from(
                old(self),
                WorkshopStoreRequest::ArchiveSlot { slot },
                result,
            ),
            old(self).lane() is Idle && resident_slot_of(facts) != Some(slot) ==> final(store).calls()
                == old(store).calls().push(
                StoreCall::Start((WorkshopStoreRequest::ArchiveSlot { slot })@),
            ),
            !(old(self).lane() is Idle && resident_slot_of(facts) != Some(slot))
                ==> final(store).calls() == old(store).calls(),
    {
        self.start_slot_request(store, facts, WorkshopStoreRequest::ArchiveSlot { slot })
    }

    /// Clears one slot's archived flag and nothing else.
    pub fn unarchive_library_slot<S: WorkshopStore>(
        &mut self,
        store: &mut LoggedStore<S>,
        facts: SessionFacts,
        slot: SlotId,
    ) -> (result: Result<(), ClientRuntimeError>)
        requires
            old(self).wf(),
        ensures
            final(self).wf(),
            !(old(self).lane() is Idle) ==> {
                &&& result == Err::<(), ClientRuntimeError>(ClientRuntimeError::LibraryRequestActive)
                &&& *final(self) == *old(self)
            },
            old(self).lane() is Idle ==> final(self).started_from(
                old(self),
                WorkshopStoreRequest::UnarchiveSlot { slot },
                result,
            ),
            old(self).lane() is Idle ==> final(store).calls() == old(store).calls().push(
                StoreCall::Start((WorkshopStoreRequest::UnarchiveSlot { slot })@),
            ),
            !(old(self).lane() is Idle) ==> final(store).calls() == old(store).calls(),
    {
        self.start_slot_request(store, facts, WorkshopStoreRequest::UnarchiveSlot { slot })
    }
}


/// The intent the Library client runs an open for `purpose` with.
pub open spec fn purpose_intent(purpose: OpenPurpose) -> SlotIntent {
    if purpose == OpenPurpose::Export {
        SlotIntent::Export
    } else {
        SlotIntent::Open
    }
}

/// The open of `slot` for `purpose`, with the generation the row showed.
pub open spec fn row_open(slot: SlotId, generation: SaveGeneration, purpose: OpenPurpose) -> LibraryOpen {
    LibraryOpen::Slot { slot, expected_generation: generation, intent: purpose_intent(purpose) }
}

/// Whether an open is refused before anything starts, other than for a
/// running startup Continue: Use for Continue while any Workshop is
/// resident, and, for an open that installs or selects, the resident's own
/// slot or a resident that cannot be replaced. An export is refused by
/// neither residency rule.
pub open spec fn open_refused(facts: SessionFacts, slot: SlotId, purpose: OpenPurpose) -> bool {
    ||| purpose == OpenPurpose::SelectOnly && facts.kind == SessionKind::Workshop
    ||| purpose != OpenPurpose::Export && resident_slot_of(facts) == Some(slot)
    ||| purpose != OpenPurpose::Export && blocks_replacement(facts)
}

/// The diagnostic an open refusal is logged with.
pub open spec fn open_refusal_text(facts: SessionFacts, slot: SlotId, purpose: OpenPurpose) -> Seq<char> {
    if purpose == OpenPurpose::SelectOnly && facts.kind == SessionKind::Workshop {
        CONTINUE_FOLLOWS_RESIDENT@
    } else if resident_slot_of(facts) == Some(slot) {
        RESIDENT_SLOT_OPEN@
    } else {
        REPLACEMENT_BLOCKED@
    }
}

/// What stepping a row open asks of the caller.
#[derive(Debug)]
pub enum OpenProgress<C, D, H> {
    /// No row open is in flight.
    Idle,
    /// Perform this request for the open and hand its answer back.
    Request(LibraryRequest<C, D>),
    /// The open is still working.
    Pending,
    /// The open settled into the lane.
    Settled,
    /// The open settled by replacing the session with this candidate.
    Install(LibraryCandidate<H>),
}

impl<C, D, H, T> ClientRuntime<C, D, H, T> {
    /// `self` is `before` after its row client began the open of `slot` for
    /// `purpose` with storage's answer `started`.
    pub open spec fn open_started_from(
        &self,
        before: &Self,
        slot: SlotId,
        generation: SaveGeneration,
        purpose: OpenPurpose,
        started: Result<StoreJobId, WorkshopStoreError>,
        result: Result<(), ClientRuntimeError>,
    ) -> bool {
        &&& self.same_screens(before)
        &&& self.bootstrap_client() == before.bootstrap_client()
        &&& self.listed() == before.listed()
        &&& self.candidate() == before.candidate()
        &&& self.adapter() == before.adapter()
        &&& match started {
            Ok(job) => {
                &&& result == Ok::<(), ClientRuntimeError>(())
                &&& self.lane() == LibrarySlots::<H>::Opening { slot, generation, purpose }
                &&& self.row_client().phase() == LibraryPhase::<C, D, H>::Loading {
                    job,
                    selected_slot: slot,
                }
                &&& self.row_client().observed_generation() == Some(generation)
                &&& self.row_client().claims_continue() == (purpose != OpenPurpose::Export)
                &&& self.row_client().refuses_archived_rows() == (purpose != OpenPurpose::Export)
                &&& self.log() == before.log()
            },
            Err(error) => {
                &&& result == Err::<(), ClientRuntimeError>(ClientRuntimeError::Store(error))
                &&& self.lane() == LibrarySlots::<H>::OpenFailed {
                    slot,
                    generation,
                    purpose,
                    code: ClientDiagnosticCode::Store,
                }
                &&& self.row_client().phase() is Idle
                &&& logs(before.log(), self.log(), ClientDiagnosticCode::Store, store_error_text(error))
            },
        }
    }

    /// Records what storage answered to the first request of a row open
    /// from an idle lane: the open is in flight, or it failed at the store
    /// and is retained for Retry.
    pub fn record_open_start(
        &mut self,
        slot: SlotId,
        generation: SaveGeneration,
        purpose: OpenPurpose,
        started: Result<StoreJobId, WorkshopStoreError>,
    ) -> (result: Result<(), ClientRuntimeError>)
        requires
            old(self).wf(),
            old(self).lane() is Idle,
        ensures
            final(self).wf(),
            final(self).open_started_from(old(self), slot, generation, purpose, started, result),
    {
        let open = LibraryOpen::Slot {
            slot,
            expected_generation: generation,
            intent: purpose.intent(),
        };
        match self.open_client.begin_answered(open, started) {
            Ok(()) => {
                self.slot_requests = LibrarySlots::Opening { slot, generation, purpose };
                Ok(())
            },
            Err(LibraryBeginError::Active) => Err(ClientRuntimeError::LibraryRequestActive),
            Err(LibraryBeginError::Store(error)) => {
                let message = error.duplicate().into_message();
                self.push_diagnostic(ClientDiagnosticCode::Store, message);
                self.slot_requests = LibrarySlots::OpenFailed {
                    slot,
                    generation,
                    purpose,
                    code: ClientDiagnosticCode::Store,
                };
                Err(ClientRuntimeError::Store(error))
            },
        }
    }

    /// The one point at which a row open starts, for the first attempt and
    /// for Retry alike. Every refusal is checked before the store is asked,
    /// so a refused open reaches no store lane.
    fn dispatch_open<S: WorkshopStore>(
        &mut self,
        store: &mut LoggedStore<S>,
        facts: SessionFacts,
        slot: SlotId,
        generation: SaveGeneration,
        purpose: OpenPurpose,
    ) -> (result: Result<(), ClientRuntimeError>)
        requires
            old(self).wf(),
            old(self).lane() is Idle,
        ensures
            final(self).wf(),
            !(old(self).bootstrap_client().phase() is Idle) ==> {
                &&& result == Err::<(), ClientRuntimeError>(ClientRuntimeError::BootstrapActive)
                &&& *final(self) == *old(self)
            },
            old(self).bootstrap_client().phase() is Idle && open_refused(facts, slot, purpose) ==> {
                &&& result == Err::<(), ClientRuntimeError>(ClientRuntimeError::RouteUnavailable)
                &&& logs(
                    old(self).log(),
                    final(self).log(),
                    ClientDiagnosticCode::RouteUnavailable,
                    open_refusal_text(facts, slot, purpose),
                )
                &&& final(self).lane_moved(old(self))
                &&& final(self).lane() is Idle
                &&& final(self).listed() == old(self).listed()
                &&& final(self).candidate() == old(self).candidate()
            },
            old(self).bootstrap_client().phase() is Idle && !open_refused(facts, slot, purpose)
                ==> exists|started: Result<StoreJobId, WorkshopStoreError>|
                final(self).open_started_from(old(self), slot, generation, purpose, started, result),
            final(store).calls() == Self::open_calls(old(self), facts, slot, purpose, old(store).calls()),
    {
        if self.library.is_active() {
            return Err(ClientRuntimeError::BootstrapActive);
        }
        if purpose == OpenPurpose::SelectOnly && facts.kind == SessionKind::Workshop {
            self.push_diagnostic(
                ClientDiagnosticCode::RouteUnavailable,
                String::from_str(CONTINUE_FOLLOWS_RESIDENT),
            );
            return Err(ClientRuntimeError::RouteUnavailable);
        }
        if purpose != OpenPurpose::Export {
            if facts.kind == SessionKind::Workshop && facts.resident_slot == Some(slot) {
                self.push_diagnostic(
                    ClientDiagnosticCode::RouteUnavailable,
                    String::from_str(RESIDENT_SLOT_OPEN),
                );
                return Err(ClientRuntimeError::RouteUnavailable);
            }
            if facts.kind == SessionKind::Workshop && facts.replacement_blocked {
                self.push_diagnostic(
                    ClientDiagnosticCode::RouteUnavailable,
                    String::from_str(REPLACEMENT_BLOCKED),
                );
                return Err(ClientRuntimeError::RouteUnavailable);
            }
        }
        let request = WorkshopLibraryClient::<C, D, H>::begin_request(
            LibraryOpen::Slot { slot, expected_generation: generation, intent: purpose.intent() },
        );
        let started = store.start(request);
        let ghost answer = started;
        let result = self.record_open_start(slot, generation, purpose, started);
        assert(self.open_started_from(old(self), slot, generation, purpose, answer, result));
        result
    }
}


impl<C, D, H, T> ClientRuntime<C, D, H, T> {
    /// After a list was dropped, the lane re-lists: the listing is working,
    /// or storage refused it and the refusal was logged.
    pub open spec fn relisting(&self, before: &Self) -> bool {
        ||| {
            &&& self.lane() matches LibrarySlots::Working { request, .. } && request is ListSlots
            &&& self.log() == before.log()
        }
        ||| {
            &&& self.lane() == LibrarySlots::<H>::Failed {
                request: WorkshopStoreRequest::ListSlots,
                code: ClientDiagnosticCode::Store,
            }
            &&& logs_code(before.log(), self.log(), ClientDiagnosticCode::Store)
        }
    }

    /// The lane holds a row open whose client has just reported its outcome.
    pub closed spec fn settling(&self) -> bool {
        &&& self.diagnostics.len() <= MAX_CLIENT_DIAGNOSTICS
        &&& self.slot_requests is Opening
        &&& self.open_client.phase() is Idle
    }

    /// `self` is `before` after the row open it held reported `event`:
    /// an export keeps its bytes or offers the predecessor; Use for Continue
    /// keeps a clean candidate for the Continue route and re-lists; an open
    /// installs a clean head while the Library is on screen and nothing
    /// forbids it, and otherwise holds the candidate; a failure is retained
    /// for Retry, and a changed row for a refreshed one.
    pub open spec fn settled_from(
        &self,
        before: &Self,
        facts: SessionFacts,
        event: LibraryEvent<H>,
        progress: OpenProgress<C, D, H>,
    ) -> bool {
        &&& self.same_returns(before)
        &&& self.bootstrap_client() == before.bootstrap_client()
        &&& self.adapter() == before.adapter()
        &&& before.lane() matches LibrarySlots::Opening { slot, generation, purpose }
        &&& match event {
            LibraryEvent::Ready(candidate) => if purpose == OpenPurpose::Export {
                &&& progress is Settled
                &&& self.current_screen() == before.current_screen()
                &&& self.recovery() == before.recovery()
                &&& self.listed() == before.listed()
                &&& self.candidate() == before.candidate()
                &&& self.log() == before.log()
                &&& if candidate.loaded.recovered_from_previous {
                    self.lane() == LibrarySlots::<H>::ExportRecoveryOffered { loaded: candidate.loaded }
                } else {
                    self.lane() matches LibrarySlots::ExportReady { export } && exports_load(
                        export,
                        candidate.loaded,
                    )
                }
            } else if purpose == OpenPurpose::SelectOnly && !candidate.loaded.recovered_from_previous {
                &&& progress is Settled
                &&& self.current_screen() == before.current_screen()
                &&& self.recovery() == before.recovery()
                &&& self.candidate() == Some(candidate)
                &&& self.listed() is None
                &&& self.relisting(before)
            } else if candidate.loaded.recovered_from_previous || before.current_screen()
                != ClientScreen::Library || blocks_replacement(facts) {
                &&& progress is Settled
                &&& self.lane() == LibrarySlots::<H>::Held { candidate }
                &&& self.current_screen() == before.current_screen()
                &&& self.recovery() == before.recovery()
                &&& self.listed() == before.listed()
                &&& self.candidate() == before.candidate()
                &&& self.log() == before.log()
            } else {
                &&& progress == OpenProgress::<C, D, H>::Install(candidate)
                &&& self.lane() is Idle
                &&& self.current_screen() == ClientScreen::GalaxyWorkshop
                &&& self.recovery() is None
                &&& self.listed() is None
                &&& self.candidate() is None
                &&& self.log() == before.log()
            },
            _ => {
                &&& progress is Settled
                &&& self.current_screen() == before.current_screen()
                &&& self.recovery() == before.recovery()
                &&& self.listed() == before.listed()
                &&& self.candidate() == before.candidate()
                &&& match event {
                    LibraryEvent::Failed(diagnostic) => {
                        &&& self.lane() == LibrarySlots::<H>::OpenFailed {
                            slot,
                            generation,
                            purpose,
                            code: diagnostic.code,
                        }
                        &&& logs(before.log(), self.log(), diagnostic.code, diagnostic.message@)
                    },
                    LibraryEvent::ProtocolFailure(message) => {
                        &&& self.lane() == LibrarySlots::<H>::OpenFailed {
                            slot,
                            generation,
                            purpose,
                            code: ClientDiagnosticCode::StoreProtocol,
                        }
                        &&& logs(before.log(), self.log(), ClientDiagnosticCode::StoreProtocol, message@)
                    },
                    LibraryEvent::NoCandidate => {
                        &&& self.lane() == LibrarySlots::<H>::OpenFailed {
                            slot,
                            generation,
                            purpose,
                            code: ClientDiagnosticCode::StoreProtocol,
                        }
                        &&& logs(
                            before.log(),
                            self.log(),
                            ClientDiagnosticCode::StoreProtocol,
                            OPEN_WITHOUT_CANDIDATE@,
                        )
                    },
                    _ => {
                        &&& self.lane() == LibrarySlots::<H>::OpenFailed {
                            slot,
                            generation,
                            purpose,
                            code: ClientDiagnosticCode::StaleSave,
                        }
                        &&& logs(before.log(), self.log(), ClientDiagnosticCode::StaleSave, ROW_CHANGED@)
                    },
                }
            },
        }
    }

    /// Translates a row open's outcome into Library state. Never the global
    /// recovery screen: Library failures stay on the Library.
    fn settle_library_open<S: WorkshopStore>(
        &mut self,
        store: &mut LoggedStore<S>,
        facts: SessionFacts,
        event: LibraryEvent<H>,
    ) -> (progress: OpenProgress<C, D, H>)
        requires
            old(self).settling(),
            !(event is Pending),
        ensures
            final(self).wf(),
            final(self).settled_from(old(self), facts, event, progress),
            final(self).row_client() == old(self).row_client(),
            final(store).calls() == settle_calls(old(self).lane(), event, old(store).calls()),
    {
        let mut lane = LibrarySlots::Idle;
        core::mem::swap(&mut lane, &mut self.slot_requests);
        let (slot, generation, purpose) = match lane {
            LibrarySlots::Opening { slot, generation, purpose } => (slot, generation, purpose),
            _ => {
                proof {
                    assert(false);
                }
                return OpenProgress::Settled;
            },
        };
        assert(self.wf());
        match event {
            LibraryEvent::Pending => {
                proof {
                    assert(false);
                }
                OpenProgress::Settled
            },
            LibraryEvent::Ready(candidate) => {
                if purpose == OpenPurpose::Export {
                    let loaded = candidate.loaded;
                    if loaded.recovered_from_previous {
                        self.slot_requests = LibrarySlots::ExportRecoveryOffered { loaded };
                    } else {
                        self.slot_requests = LibrarySlots::ExportReady {
                            export: prepared_export(loaded),
                        };
                    }
                    OpenProgress::Settled
                } else if purpose == OpenPurpose::SelectOnly
                    && !candidate.loaded.recovered_from_previous {
                    self.continue_candidate = Some(candidate);
                    self.slot_list = None;
                    let _ = self.dispatch_slot_request(store, None, WorkshopStoreRequest::ListSlots);
                    OpenProgress::Settled
                } else if candidate.loaded.recovered_from_previous || self.screen
                    != ClientScreen::Library || (facts.kind == SessionKind::Workshop
                    && facts.replacement_blocked) {
                    self.slot_requests = LibrarySlots::Held { candidate };
                    OpenProgress::Settled
                } else {
                    self.continue_candidate = None;
                    self.slot_list = None;
                    self.screen = ClientScreen::GalaxyWorkshop;
                    self.recovery = None;
                    OpenProgress::Install(candidate)
                }
            },
            LibraryEvent::Failed(diagnostic) => {
                let code = diagnostic.code;
                self.slot_requests = LibrarySlots::OpenFailed { slot, generation, purpose, code };
                self.push_diagnostic(code, diagnostic.message);
                OpenProgress::Settled
            },
            LibraryEvent::ProtocolFailure(message) => {
                self.slot_requests = LibrarySlots::OpenFailed {
                    slot,
                    generation,
                    purpose,
                    code: ClientDiagnosticCode::StoreProtocol,
                };
                self.push_diagnostic(ClientDiagnosticCode::StoreProtocol, String::from_str(message));
                OpenProgress::Settled
            },
            LibraryEvent::NoCandidate => {
                self.slot_requests = LibrarySlots::OpenFailed {
                    slot,
                    generation,
                    purpose,
                    code: ClientDiagnosticCode::StoreProtocol,
                };
                self.push_diagnostic(
                    ClientDiagnosticCode::StoreProtocol,
                    String::from_str(OPEN_WITHOUT_CANDIDATE),
                );
                OpenProgress::Settled
            },
            _ => {
                self.slot_requests = LibrarySlots::OpenFailed {
                    slot,
                    generation,
                    purpose,
                    code: ClientDiagnosticCode::StaleSave,
                };
                self.push_diagnostic(ClientDiagnosticCode::StaleSave, String::from_str(ROW_CHANGED));
                OpenProgress::Settled
            },
        }
    }

    /// Advances the row open in flight with the answer to its last request,
    /// or with `Poll`. A request is handed back for the caller to perform;
    /// an outcome settles into the lane.
    pub fn step_library_open<S: WorkshopStore>(
        &mut self,
        store: &mut LoggedStore<S>,
        facts: SessionFacts,
        input: LibraryInput<C, D, H>,
    ) -> (progress: OpenProgress<C, D, H>)
        requires
            old(self).wf(),
        ensures
            final(self).wf(),
            !(old(self).lane() is Opening) ==> progress is Idle && *final(self) == *old(self),
            old(self).lane() is Opening ==> !(progress is Idle),
            !(progress is Settled || progress is Install) ==> final(store).calls() == old(store).calls(),
            progress matches OpenProgress::Request(request) ==> {
                &&& library_step(
                    old(self).row_client(),
                    input,
                    final(self).row_client(),
                    LibraryStep::Request(request),
                )
                &&& final(self).lane() == old(self).lane()
                &&& final(self).same_screens(old(self))
                &&& final(self).bootstrap_client() == old(self).bootstrap_client()
                &&& final(self).listed() == old(self).listed()
                &&& final(self).candidate() == old(self).candidate()
                &&& final(self).log() == old(self).log()
                &&& final(self).adapter() == old(self).adapter()
            },
            progress is Pending ==> {
                &&& library_step(
                    old(self).row_client(),
                    input,
                    final(self).row_client(),
                    LibraryStep::Event(LibraryEvent::Pending),
                )
                &&& final(self).lane() == old(self).lane()
                &&& final(self).same_screens(old(self))
                &&& final(self).bootstrap_client() == old(self).bootstrap_client()
                &&& final(self).listed() == old(self).listed()
                &&& final(self).candidate() == old(self).candidate()
                &&& final(self).log() == old(self).log()
                &&& final(self).adapter() == old(self).adapter()
            },
            progress is Settled || progress is Install ==> exists|event: LibraryEvent<H>|
                {
                    &&& !(event is Pending)
                    &&& library_step(
                        old(self).row_client(),
                        input,
                        final(self).row_client(),
                        LibraryStep::Event(event),
                    )
                    &&& #[trigger] final(self).settled_from(old(self), facts, event, progress)
                    &&& final(store).calls() == settle_calls(old(self).lane(), event, old(store).calls())
                    &&& (event matches LibraryEvent::Ready(candidate) ==> (old(self).lane() matches LibrarySlots::Opening { slot, .. }
                        && candidate.loaded.slot == slot))
                },
    {
        if !matches!(self.slot_requests, LibrarySlots::Opening { .. }) {
            return OpenProgress::Idle;
        }
        let out = self.open_client.poll(input);
        let ghost stepped_out = out;
        proof {
            lemma_active_until_outcome(old(self).open_client, input, self.open_client, out);
            lemma_open_keeps_its_row(old(self).open_client, input, self.open_client, out);
        }
        match out {
            LibraryStep::Request(request) => OpenProgress::Request(request),
            LibraryStep::Event(LibraryEvent::Pending) => OpenProgress::Pending,
            LibraryStep::Event(event) => {
                let ghost reported = event;
                let progress = self.settle_library_open(store, facts, event);
                assert(self.settled_from(old(self), facts, reported, progress));
                progress
            },
        }
    }
}


impl<C, D, H, T> ClientRuntime<C, D, H, T> {
    /// `self` is `before`, whose lane was working on a request, after storage
    /// reported `state` for it: a failure is retained for Retry; a listing
    /// is kept; a confirmed mutation drops the list that now misstates a row,
    /// withdraws an archived slot's Continue candidate, and re-lists.
    pub open spec fn polled_from(&self, before: &Self, state: StoreJobState) -> bool {
        &&& self.lane_moved(before)
        &&& before.lane() matches LibrarySlots::Working { request, .. }
        &&& match state {
            StoreJobState::Pending => *self == *before,
            StoreJobState::Unknown => {
                &&& self.lane() == LibrarySlots::<H>::Failed {
                    request,
                    code: ClientDiagnosticCode::StoreProtocol,
                }
                &&& logs(before.log(), self.log(), ClientDiagnosticCode::StoreProtocol, FORGOT_SLOT_REQUEST@)
                &&& self.listed() == before.listed()
                &&& self.candidate() == before.candidate()
            },
            StoreJobState::Complete(Err(error)) => {
                &&& self.lane() == LibrarySlots::<H>::Failed {
                    request,
                    code: ClientDiagnosticCode::Store,
                }
                &&& logs(before.log(), self.log(), ClientDiagnosticCode::Store, store_error_text(error))
                &&& self.listed() == before.listed()
                &&& self.candidate() == before.candidate()
            },
            StoreJobState::Complete(Ok(result)) => if !answers(request, result) {
                &&& self.lane() == LibrarySlots::<H>::Failed {
                    request,
                    code: ClientDiagnosticCode::StoreProtocol,
                }
                &&& logs(
                    before.log(),
                    self.log(),
                    ClientDiagnosticCode::StoreProtocol,
                    SLOT_REQUEST_UNEXPECTED@,
                )
                &&& self.listed() == before.listed()
                &&& self.candidate() == before.candidate()
            } else if result is Slots {
                &&& self.lane() is Idle
                &&& self.listed() == Some(result->Slots_0)
                &&& self.log() == before.log()
                &&& self.candidate() == before.candidate()
            } else {
                &&& self.listed() is None
                &&& self.candidate() == (match result {
                    WorkshopStoreResult::SlotArchived { slot } => withdrawn(before.candidate(), slot),
                    _ => before.candidate(),
                })
                &&& self.relisting(before)
            },
        }
    }

    /// Takes storage's report `state` for the working request.
    pub fn slot_request_polled<S: WorkshopStore>(&mut self, store: &mut LoggedStore<S>, state: StoreJobState)
        requires
            old(self).wf(),
            old(self).lane() is Working,
        ensures
            final(self).wf(),
            final(self).polled_from(old(self), state),
            final(store).calls() == relist_calls(old(store).calls(), old(self).lane(), state),
    {
        if let StoreJobState::Pending = state {
            return;
        }
        let mut lane = LibrarySlots::Idle;
        core::mem::swap(&mut lane, &mut self.slot_requests);
        let request = match lane {
            LibrarySlots::Working { request, .. } => request,
            _ => {
                proof {
                    assert(false);
                }
                return;
            },
        };
        match state {
            StoreJobState::Pending => {},
            StoreJobState::Unknown => {
                self.push_diagnostic(
                    ClientDiagnosticCode::StoreProtocol,
                    String::from_str(FORGOT_SLOT_REQUEST),
                );
                self.slot_requests = LibrarySlots::Failed {
                    request,
                    code: ClientDiagnosticCode::StoreProtocol,
                };
            },
            StoreJobState::Complete(Err(error)) => {
                self.push_diagnostic(ClientDiagnosticCode::Store, error.into_message());
                self.slot_requests = LibrarySlots::Failed { request, code: ClientDiagnosticCode::Store };
            },
            StoreJobState::Complete(Ok(result)) => {
                let answered = match (&request, &result) {
                    (WorkshopStoreRequest::ListSlots, WorkshopStoreResult::Slots(_)) => true,
                    (
                        WorkshopStoreRequest::RenameSlot { slot, .. },
                        WorkshopStoreResult::SlotRenamed { slot: answered },
                    ) => *slot == *answered,
                    (
                        WorkshopStoreRequest::ArchiveSlot { slot },
                        WorkshopStoreResult::SlotArchived { slot: answered },
                    ) => *slot == *answered,
                    (
                        WorkshopStoreRequest::UnarchiveSlot { slot },
                        WorkshopStoreResult::SlotUnarchived { slot: answered },
                    ) => *slot == *answered,
                    _ => false,
                };
                if !answered {
                    self.push_diagnostic(
                        ClientDiagnosticCode::StoreProtocol,
                        String::from_str(SLOT_REQUEST_UNEXPECTED),
                    );
                    self.slot_requests = LibrarySlots::Failed {
                        request,
                        code: ClientDiagnosticCode::StoreProtocol,
                    };
                    return;
                }
                match result {
                    WorkshopStoreResult::Slots(list) => {
                        self.slot_list = Some(list);
                    },
                    other => {
                        if let WorkshopStoreResult::SlotArchived { slot } = other {
                            self.withdraw_continue_candidate(slot);
                        }
                        self.slot_list = None;
                        let _ = self.dispatch_slot_request(store, None, WorkshopStoreRequest::ListSlots);
                    },
                }
            },
        }
    }

    /// Polls the working request, if there is one. Not gated on the Library
    /// being on screen: a request started there must still reach a terminal
    /// state after the user leaves.
    pub fn poll_library_slots<S: WorkshopStore>(&mut self, store: &mut LoggedStore<S>)
        requires
            old(self).wf(),
        ensures
            final(self).wf(),
            !(old(self).lane() is Working) ==> *final(self) == *old(self) && final(store).calls()
                == old(store).calls(),
            old(self).lane() matches LibrarySlots::Working { job, .. } ==> exists|
                state: StoreJobState,
            |
                #[trigger] final(self).polled_from(old(self), state) && final(store).calls()
                    == relist_calls(old(store).calls().push(StoreCall::Poll(job)), old(self).lane(), state),
    {
        let job = match &self.slot_requests {
            LibrarySlots::Working { job, .. } => *job,
            _ => return,
        };
        let state = store.poll(job);
        let ghost reported = state;
        let ghost polled_calls = store.calls();
        self.slot_request_polled(store, state);
        assert(self.polled_from(old(self), reported) && store.calls() == relist_calls(
            polled_calls,
            old(self).lane(),
            reported,
        ));
    }

    /// Makes a failed request's retry from its retained request, or a
    /// failed open's retry; a conflict is retried by re-listing, never by
    /// repeating the request with the generation it already found stale.
    pub fn retry_library_slot_request<S: WorkshopStore>(
        &mut self,
        store: &mut LoggedStore<S>,
        facts: SessionFacts,
    ) -> (result: Result<(), ClientRuntimeError>)
        requires
            old(self).wf(),
        ensures
            final(self).wf(),
            final(store).calls() == (match old(self).lane() {
                LibrarySlots::Failed { request, .. } => if archives_resident(
                    request,
                    resident_slot_of(facts),
                ) {
                    old(store).calls()
                } else {
                    old(store).calls().push(StoreCall::Start(request@))
                },
                LibrarySlots::OpenFailed { code, .. } if code == ClientDiagnosticCode::StaleSave => old(
                    store,
                ).calls().push(StoreCall::Start(StoreRequestView::ListSlots)),
                LibrarySlots::OpenFailed { slot, purpose, .. } => if old(self).bootstrap_client().phase() is Idle
                    && !open_refused(facts, slot, purpose) {
                    old(store).calls().push(StoreCall::Start(StoreRequestView::LoadSlot { slot }))
                } else {
                    old(store).calls()
                },
                _ => old(store).calls(),
            }),
            match old(self).lane() {
                LibrarySlots::Failed { request, .. } => if archives_resident(
                    request,
                    resident_slot_of(facts),
                ) {
                    &&& result == Err::<(), ClientRuntimeError>(ClientRuntimeError::ResidentSlot)
                    &&& logs(
                        old(self).log(),
                        final(self).log(),
                        ClientDiagnosticCode::ResidentSlot,
                        RESIDENT_SLOT_ARCHIVE@,
                    )
                    &&& final(self).lane_moved(old(self))
                    &&& final(self).lane() == old(self).lane()
                    &&& final(self).listed() == old(self).listed()
                    &&& final(self).candidate() == old(self).candidate()
                } else {
                    final(self).started_from(old(self), request, result)
                },
                LibrarySlots::OpenFailed { code, .. } if code == ClientDiagnosticCode::StaleSave => {
                    &&& final(self).lane_moved(old(self))
                    &&& final(self).listed() is None
                    &&& final(self).candidate() == old(self).candidate()
                    &&& final(self).relisting(old(self))
                    &&& (result is Ok <==> final(self).lane() is Working)
                },
                LibrarySlots::OpenFailed { slot, generation, purpose, .. } => if !(old(
                    self,
                ).bootstrap_client().phase() is Idle) {
                    &&& result == Err::<(), ClientRuntimeError>(ClientRuntimeError::BootstrapActive)
                    &&& *final(self) == *old(self)
                } else if open_refused(facts, slot, purpose) {
                    &&& result == Err::<(), ClientRuntimeError>(ClientRuntimeError::RouteUnavailable)
                    &&& logs(
                        old(self).log(),
                        final(self).log(),
                        ClientDiagnosticCode::RouteUnavailable,
                        open_refusal_text(facts, slot, purpose),
                    )
                    &&& final(self).lane_moved(old(self))
                    &&& final(self).lane() == old(self).lane()
                    &&& final(self).listed() == old(self).listed()
                    &&& final(self).candidate() == old(self).candidate()
                } else {
                    exists|started: Result<StoreJobId, WorkshopStoreError>|
                        #[trigger] final(self).open_started_from(
                            old(self),
                            slot,
                            generation,
                            purpose,
                            started,
                            result,
                        )
                },
                _ => {
                    &&& result == Err::<(), ClientRuntimeError>(ClientRuntimeError::RouteUnavailable)
                    &&& logs(
                        old(self).log(),
                        final(self).log(),
                        ClientDiagnosticCode::RouteUnavailable,
                        NO_RETRYABLE_SLOT_REQUEST@,
                    )
                    &&& final(self).lane_moved(old(self))
                    &&& final(self).lane() == old(self).lane()
                    &&& final(self).listed() == old(self).listed()
                    &&& final(self).candidate() == old(self).candidate()
                },
            },
    {
        let resident = if facts.kind == SessionKind::Workshop {
            facts.resident_slot
        } else {
            None
        };
        match &self.slot_requests {
            LibrarySlots::Failed { request, .. } => {
                let refused = match request {
                    WorkshopStoreRequest::ArchiveSlot { slot } => resident == Some(*slot),
                    _ => false,
                };
                if refused {
                    self.push_diagnostic(
                        ClientDiagnosticCode::ResidentSlot,
                        String::from_str(RESIDENT_SLOT_ARCHIVE),
                    );
                    return Err(ClientRuntimeError::ResidentSlot);
                }
                let mut lane = LibrarySlots::Idle;
                core::mem::swap(&mut lane, &mut self.slot_requests);
                match lane {
                    LibrarySlots::Failed { request, .. } => self.dispatch_slot_request(
                        store,
                        resident,
                        request,
                    ),
                    _ => {
                        proof {
                            assert(false);
                        }
                        Err(ClientRuntimeError::RouteUnavailable)
                    },
                }
            },
            LibrarySlots::OpenFailed { slot, generation, purpose, code } => {
                let slot = *slot;
                let generation = *generation;
                let purpose = *purpose;
                let code = *code;
                self.slot_requests = LibrarySlots::Idle;
                if code == ClientDiagnosticCode::StaleSave {
                    self.slot_list = None;
                    return self.dispatch_slot_request(store, None, WorkshopStoreRequest::ListSlots);
                }
                let ghost reopened = *self;
                let outcome = self.dispatch_open(store, facts, slot, generation, purpose);
                if outcome.is_err() && matches!(self.slot_requests, LibrarySlots::Idle) {
                    self.slot_requests = LibrarySlots::OpenFailed { slot, generation, purpose, code };
                }
                proof {
                    if reopened.bootstrap_client().phase() is Idle && !open_refused(
                        facts,
                        slot,
                        purpose,
                    ) {
                        let started = choose|started: Result<StoreJobId, WorkshopStoreError>|
                            #[trigger] self.open_started_from(
                                &reopened,
                                slot,
                                generation,
                                purpose,
                                started,
                                outcome,
                            );
                        assert(self.open_started_from(
                            old(self),
                            slot,
                            generation,
                            purpose,
                            started,
                            outcome,
                        ));
                    }
                }
                outcome
            },
            _ => {
                self.push_diagnostic(
                    ClientDiagnosticCode::RouteUnavailable,
                    String::from_str(NO_RETRYABLE_SLOT_REQUEST),
                );
                Err(ClientRuntimeError::RouteUnavailable)
            },
        }
    }

    /// Accepts the export-recovery offer: the already validated predecessor
    /// becomes the prepared bytes, labelled as the predecessor. Nothing is
    /// promoted or selected.
    pub fn accept_library_export_recovery(&mut self) -> (result: Result<(), ClientRuntimeError>)
        requires
            old(self).wf(),
        ensures
            final(self).wf(),
            final(self).lane_moved(old(self)),
            final(self).listed() == old(self).listed(),
            final(self).candidate() == old(self).candidate(),
            match old(self).lane() {
                LibrarySlots::ExportRecoveryOffered { loaded } => {
                    &&& result == Ok::<(), ClientRuntimeError>(())
                    &&& final(self).lane() matches LibrarySlots::ExportReady { export }
                        && exports_load(export, loaded)
                    &&& final(self).log() == old(self).log()
                },
                _ => {
                    &&& result == Err::<(), ClientRuntimeError>(ClientRuntimeError::RouteUnavailable)
                    &&& final(self).lane() == old(self).lane()
                    &&& logs(
                        old(self).log(),
                        final(self).log(),
                        ClientDiagnosticCode::RouteUnavailable,
                        NO_EXPORT_RECOVERY@,
                    )
                },
            },
    {
        if !matches!(self.slot_requests, LibrarySlots::ExportRecoveryOffered { .. }) {
            self.push_diagnostic(
                ClientDiagnosticCode::RouteUnavailable,
                String::from_str(NO_EXPORT_RECOVERY),
            );
            return Err(ClientRuntimeError::RouteUnavailable);
        }
        let mut lane = LibrarySlots::Idle;
        core::mem::swap(&mut lane, &mut self.slot_requests);
        match lane {
            LibrarySlots::ExportRecoveryOffered { loaded } => {
                self.slot_requests = LibrarySlots::ExportReady { export: prepared_export(loaded) };
                Ok(())
            },
            _ => {
                proof {
                    assert(false);
                }
                Err(ClientRuntimeError::RouteUnavailable)
            },
        }
    }

    /// Hands the held candidate over for installation once the resident
    /// Workshop can be replaced; otherwise it stays held, so accepting again
    /// needs no replay.
    pub fn accept_library_open(&mut self, facts: SessionFacts) -> (result: Result<
        LibraryCandidate<H>,
        ClientRuntimeError,
    >)
        requires
            old(self).wf(),
        ensures
            final(self).wf(),
            final(self).same_returns(old(self)),
            final(self).same_clients(old(self)),
            final(self).adapter() == old(self).adapter(),
            match old(self).lane() {
                LibrarySlots::Held { candidate } => if blocks_replacement(facts) {
                    &&& result == Err::<LibraryCandidate<H>, ClientRuntimeError>(
                        ClientRuntimeError::RouteUnavailable,
                    )
                    &&& final(self).lane() == old(self).lane()
                    &&& final(self).current_screen() == old(self).current_screen()
                    &&& final(self).recovery() == old(self).recovery()
                    &&& final(self).listed() == old(self).listed()
                    &&& final(self).candidate() == old(self).candidate()
                    &&& logs(
                        old(self).log(),
                        final(self).log(),
                        ClientDiagnosticCode::RouteUnavailable,
                        REPLACEMENT_BLOCKED@,
                    )
                } else {
                    &&& result == Ok::<LibraryCandidate<H>, ClientRuntimeError>(candidate)
                    &&& final(self).lane() is Idle
                    &&& final(self).current_screen() == ClientScreen::GalaxyWorkshop
                    &&& final(self).recovery() is None
                    &&& final(self).listed() is None
                    &&& final(self).candidate() is None
                    &&& final(self).log() == old(self).log()
                },
                _ => {
                    &&& result == Err::<LibraryCandidate<H>, ClientRuntimeError>(
                        ClientRuntimeError::RouteUnavailable,
                    )
                    &&& final(self).lane() == old(self).lane()
                    &&& final(self).current_screen() == old(self).current_screen()
                    &&& final(self).recovery() == old(self).recovery()
                    &&& final(self).listed() == old(self).listed()
                    &&& final(self).candidate() == old(self).candidate()
                    &&& logs(
                        old(self).log(),
                        final(self).log(),
                        ClientDiagnosticCode::RouteUnavailable,
                        NO_HELD_OPEN@,
                    )
                },
            },
    {
        if !matches!(self.slot_requests, LibrarySlots::Held { .. }) {
            self.push_diagnostic(ClientDiagnosticCode::RouteUnavailable, String::from_str(NO_HELD_OPEN));
            return Err(ClientRuntimeError::RouteUnavailable);
        }
        if facts.kind == SessionKind::Workshop && facts.replacement_blocked {
            self.push_diagnostic(
                ClientDiagnosticCode::RouteUnavailable,
                String::from_str(REPLACEMENT_BLOCKED),
            );
            return Err(ClientRuntimeError::RouteUnavailable);
        }
        let mut lane = LibrarySlots::Idle;
        core::mem::swap(&mut lane, &mut self.slot_requests);
        match lane {
            LibrarySlots::Held { candidate } => {
                self.continue_candidate = None;
                self.slot_list = None;
                self.screen = ClientScreen::GalaxyWorkshop;
                self.recovery = None;
                Ok(candidate)
            },
            _ => {
                proof {
                    assert(false);
                }
                Err(ClientRuntimeError::RouteUnavailable)
            },
        }
    }

    /// Starts one row open for `purpose` from an idle lane.
    fn open_row<S: WorkshopStore>(
        &mut self,
        store: &mut LoggedStore<S>,
        facts: SessionFacts,
        slot: SlotId,
        generation: SaveGeneration,
        purpose: OpenPurpose,
    ) -> (result: Result<(), ClientRuntimeError>)
        requires
            old(self).wf(),
        ensures
            final(self).wf(),
            final(self).opens_from(old(self), facts, slot, generation, purpose, result),
            final(store).calls() == Self::open_calls(old(self), facts, slot, purpose, old(store).calls()),
    {
        if !matches!(self.slot_requests, LibrarySlots::Idle) {
            return Err(ClientRuntimeError::LibraryRequestActive);
        }
        self.dispatch_open(store, facts, slot, generation, purpose)
    }

    /// The calls storage has seen after a row open of `slot` for `purpose`
    /// was asked for from `before`: the load of the row, unless the open is
    /// refused before the store is asked.
    pub open spec fn open_calls(
        before: &Self,
        facts: SessionFacts,
        slot: SlotId,
        purpose: OpenPurpose,
        calls: Seq<StoreCall>,
    ) -> Seq<StoreCall> {
        if before.lane() is Idle && before.bootstrap_client().phase() is Idle && !open_refused(
            facts,
            slot,
            purpose,
        ) {
            calls.push(StoreCall::Start(StoreRequestView::LoadSlot { slot }))
        } else {
            calls
        }
    }

    /// `self` is `before` after a row open of `slot` for `purpose` was
    /// asked for: refused while the lane is busy or startup Continue runs,
    /// refused and logged by the residency rules, and otherwise begun with
    /// whatever storage answered.
    pub open spec fn opens_from(
        &self,
        before: &Self,
        facts: SessionFacts,
        slot: SlotId,
        generation: SaveGeneration,
        purpose: OpenPurpose,
        result: Result<(), ClientRuntimeError>,
    ) -> bool {
        if !(before.lane() is Idle) {
            &&& result == Err::<(), ClientRuntimeError>(ClientRuntimeError::LibraryRequestActive)
            &&& *self == *before
        } else if !(before.bootstrap_client().phase() is Idle) {
            &&& result == Err::<(), ClientRuntimeError>(ClientRuntimeError::BootstrapActive)
            &&& *self == *before
        } else if open_refused(facts, slot, purpose) {
            &&& result == Err::<(), ClientRuntimeError>(ClientRuntimeError::RouteUnavailable)
            &&& logs(
                before.log(),
                self.log(),
                ClientDiagnosticCode::RouteUnavailable,
                open_refusal_text(facts, slot, purpose),
            )
            &&& self.lane_moved(before)
            &&& self.lane() is Idle
            &&& self.listed() == before.listed()
            &&& self.candidate() == before.candidate()
        } else {
            exists|started: Result<StoreJobId, WorkshopStoreError>|
                #[trigger] self.open_started_from(before, slot, generation, purpose, started, result)
        }
    }

    /// Opens one listed row: the exact-catalog open claims the Continue
    /// marker before anything is installed.
    pub fn open_library_slot<S: WorkshopStore>(
        &mut self,
        store: &mut LoggedStore<S>,
        facts: SessionFacts,
        slot: SlotId,
        generation: SaveGeneration,
    ) -> (result: Result<(), ClientRuntimeError>)
        requires
            old(self).wf(),
        ensures
            final(self).wf(),
            final(self).opens_from(old(self), facts, slot, generation, OpenPurpose::Install, result),
            final(store).calls() == Self::open_calls(old(self), facts, slot, OpenPurpose::Install, old(store).calls()),
    {
        self.open_row(store, facts, slot, generation, OpenPurpose::Install)
    }

    /// Makes one listed row the Continue save without opening it. Refused
    /// while any Workshop is resident, since a resident session re-selects
    /// its own slot whenever it saves.
    pub fn use_library_slot_for_continue<S: WorkshopStore>(
        &mut self,
        store: &mut LoggedStore<S>,
        facts: SessionFacts,
        slot: SlotId,
        generation: SaveGeneration,
    ) -> (result: Result<(), ClientRuntimeError>)
        requires
            old(self).wf(),
        ensures
            final(self).wf(),
            final(self).opens_from(old(self), facts, slot, generation, OpenPurpose::SelectOnly, result),
            final(store).calls() == Self::open_calls(old(self), facts, slot, OpenPurpose::SelectOnly, old(store).calls()),
    {
        self.open_row(store, facts, slot, generation, OpenPurpose::SelectOnly)
    }

    /// Prepares a portable copy of one listed row as a pure read. Not gated
    /// on the resident Workshop.
    pub fn export_library_slot<S: WorkshopStore>(
        &mut self,
        store: &mut LoggedStore<S>,
        facts: SessionFacts,
        slot: SlotId,
        generation: SaveGeneration,
    ) -> (result: Result<(), ClientRuntimeError>)
        requires
            old(self).wf(),
        ensures
            final(self).wf(),
            final(self).opens_from(old(self), facts, slot, generation, OpenPurpose::Export, result),
            final(store).calls() == Self::open_calls(old(self), facts, slot, OpenPurpose::Export, old(store).calls()),
    {
        self.open_row(store, facts, slot, generation, OpenPurpose::Export)
    }
}


/// The prepared export a lane holds and may hand off.
/// The request that hands `export` to the platform: its kind, its
/// suggested name and its bytes.
pub open spec fn handoff_request(export: PreparedExport) -> TransferRequestView {
    TransferRequestView::HandOffExport {
        kind: if export.source is ActivePack {
            TransferKind::ContentPack
        } else {
            TransferKind::WorkshopArchive
        },
        suggested_name: export.suggested_name@,
        bytes: export.bytes@,
    }
}

pub open spec fn handoff_export<H>(lane: LibrarySlots<H>) -> Option<PreparedExport> {
    match lane {
        LibrarySlots::ExportReady { export } => Some(export),
        LibrarySlots::HandOffFailed { export, .. } => Some(export),
        _ => None,
    }
}

impl<C, D, H, T> ClientRuntime<C, D, H, T> {
    /// Whether a portable transfer adapter is installed.
    pub fn transfer_available(&self) -> (available: bool)
        ensures
            available == self.adapter() is Some,
    {
        self.transfer.is_some()
    }

    /// `self` is `before` after the adapter answered `started` to the
    /// handoff of `export`: the bytes are with the adapter, or the failure
    /// keeps them for the handoff control and is logged by its code.
    pub open spec fn handoff_started_from(
        &self,
        before: &Self,
        export: PreparedExport,
        started: Result<TransferJobId, TransferError>,
        result: Result<(), ClientRuntimeError>,
    ) -> bool {
        &&& self.same_screens(before)
        &&& self.same_clients(before)
        &&& self.listed() == before.listed()
        &&& self.candidate() == before.candidate()
        &&& match started {
            Ok(job) => {
                &&& result == Ok::<(), ClientRuntimeError>(())
                &&& self.lane() == LibrarySlots::<H>::HandingOff { job, export }
                &&& self.log() == before.log()
            },
            Err(error) => {
                &&& result == Err::<(), ClientRuntimeError>(ClientRuntimeError::Transfer(error.code))
                &&& self.lane() == LibrarySlots::<H>::HandOffFailed { export, code: error.code }
                &&& logs(
                    before.log(),
                    self.log(),
                    ClientDiagnosticCode::Transfer,
                    failure_message(error.code),
                )
            },
        }
    }

    /// Records what the adapter answered to the handoff of `export`.
    pub fn record_handoff_start(
        &mut self,
        export: PreparedExport,
        started: Result<TransferJobId, TransferError>,
    ) -> (result: Result<(), ClientRuntimeError>)
        requires
            old(self).wf(),
            old(self).lane() is Idle,
        ensures
            final(self).wf(),
            final(self).handoff_started_from(old(self), export, started, result),
            final(self).adapter() == old(self).adapter(),
    {
        match started {
            Ok(job) => {
                self.slot_requests = LibrarySlots::HandingOff { job, export };
                Ok(())
            },
            Err(error) => {
                self.fail_handoff(export, error.code);
                Err(ClientRuntimeError::Transfer(error.code))
            },
        }
    }

    fn fail_handoff(&mut self, export: PreparedExport, code: TransferFailureCode)
        requires
            old(self).wf(),
            old(self).lane() is Idle,
        ensures
            final(self).wf(),
            final(self).lane_moved(old(self)),
            final(self).lane() == (LibrarySlots::<H>::HandOffFailed { export, code }),
            logs(
                old(self).log(),
                final(self).log(),
                ClientDiagnosticCode::Transfer,
                failure_message(code),
            ),
            final(self).listed() == old(self).listed(),
            final(self).candidate() == old(self).candidate(),
    {
        self.push_diagnostic(ClientDiagnosticCode::Transfer, String::from_str(code.message()));
        self.slot_requests = LibrarySlots::HandOffFailed { export, code };
    }

    /// `self` is `before`, whose bytes were with the adapter, after it
    /// reported `state`: a handed-off copy releases the bytes and keeps only
    /// what may be claimed of where they went; a dismissed save returns to
    /// the prepared bytes; anything else keeps them and is logged.
    pub open spec fn handoff_polled_from(&self, before: &Self, state: TransferJobState) -> bool {
        &&& self.same_screens(before)
        &&& self.same_clients(before)
        &&& self.listed() == before.listed()
        &&& self.candidate() == before.candidate()
        &&& before.lane() matches LibrarySlots::HandingOff { export, .. }
        &&& match state {
            TransferJobState::Pending => {
                &&& self.lane() == before.lane()
                &&& self.log() == before.log()
            },
            TransferJobState::Complete(Ok(TransferOutcome::ExportHandedOff(outcome))) => {
                &&& self.lane() == LibrarySlots::<H>::ExportHandedOff { source: export.source, outcome }
                &&& self.log() == before.log()
            },
            TransferJobState::Complete(Ok(TransferOutcome::Cancelled)) => {
                &&& self.lane() == LibrarySlots::<H>::ExportReady { export }
                &&& self.log() == before.log()
            },
            TransferJobState::Complete(Err(error)) => {
                &&& self.lane() == LibrarySlots::<H>::HandOffFailed { export, code: error.code }
                &&& logs(
                    before.log(),
                    self.log(),
                    ClientDiagnosticCode::Transfer,
                    failure_message(error.code),
                )
            },
            _ => {
                &&& self.lane() == LibrarySlots::<H>::HandOffFailed {
                    export,
                    code: TransferFailureCode::Protocol,
                }
                &&& logs(
                    before.log(),
                    self.log(),
                    ClientDiagnosticCode::Transfer,
                    failure_message(TransferFailureCode::Protocol),
                )
            },
        }
    }

    /// Takes the adapter's report `state` for the handoff in flight.
    pub fn handoff_polled(&mut self, state: TransferJobState)
        requires
            old(self).wf(),
            old(self).lane() is HandingOff,
        ensures
            final(self).wf(),
            final(self).handoff_polled_from(old(self), state),
            final(self).adapter() == old(self).adapter(),
    {
        if let TransferJobState::Pending = state {
            return;
        }
        let mut lane = LibrarySlots::Idle;
        core::mem::swap(&mut lane, &mut self.slot_requests);
        let export = match lane {
            LibrarySlots::HandingOff { export, .. } => export,
            _ => {
                proof {
                    assert(false);
                }
                return;
            },
        };
        match state {
            TransferJobState::Complete(Ok(TransferOutcome::ExportHandedOff(outcome))) => {
                self.slot_requests = LibrarySlots::ExportHandedOff { source: export.source, outcome };
            },
            TransferJobState::Complete(Ok(TransferOutcome::Cancelled)) => {
                self.slot_requests = LibrarySlots::ExportReady { export };
            },
            TransferJobState::Complete(Err(error)) => {
                self.fail_handoff(export, error.code);
            },
            _ => {
                self.fail_handoff(export, TransferFailureCode::Protocol);
            },
        }
    }
}

impl<C, D, H, T: TransferAdapter> ClientRuntime<C, D, H, T> {
    /// The installed transfer adapter, for reading.
    pub fn transfer_adapter(&self) -> (adapter: Option<&T>)
        ensures
            match adapter {
                Some(installed) => self.adapter() matches Some(held) && *installed == held.adapter(),
                None => self.adapter() is None,
            },
    {
        match &self.transfer {
            Some(logged) => Some(logged.inner()),
            None => None,
        }
    }

    /// Installs the portable transfer adapter. Refused while a handoff is in
    /// flight, because its job belongs to the adapter being replaced.
    pub fn install_transfer_adapter(&mut self, adapter: T) -> (result: Result<(), ClientRuntimeError>)
        requires
            old(self).wf(),
        ensures
            final(self).wf(),
            old(self).lane() is HandingOff ==> {
                &&& result == Err::<(), ClientRuntimeError>(ClientRuntimeError::LibraryRequestActive)
                &&& *final(self) == *old(self)
            },
            !(old(self).lane() is HandingOff) ==> {
                &&& result == Ok::<(), ClientRuntimeError>(())
                &&& final(self).adapter() matches Some(installed) && installed.adapter() == adapter
                    && installed.calls().len() == 0
                &&& final(self).same_screens(old(self))
                &&& final(self).same_clients(old(self))
                &&& final(self).lane() == old(self).lane()
                &&& final(self).listed() == old(self).listed()
                &&& final(self).candidate() == old(self).candidate()
                &&& final(self).log() == old(self).log()
            },
    {
        if matches!(self.slot_requests, LibrarySlots::HandingOff { .. }) {
            return Err(ClientRuntimeError::LibraryRequestActive);
        }
        self.transfer = Some(LoggedAdapter::new(adapter));
        Ok(())
    }

    /// Hands the prepared bytes to the adapter. Every refusal and failure
    /// keeps the bytes; with no adapter installed nothing changes.
    pub fn hand_off_library_export(&mut self) -> (result: Result<(), ClientRuntimeError>)
        requires
            old(self).wf(),
        ensures
            final(self).wf(),
            match handoff_export(old(self).lane()) {
                Some(export) => if old(self).adapter() is None {
                    &&& result == Err::<(), ClientRuntimeError>(ClientRuntimeError::TransferUnavailable)
                    &&& *final(self) == *old(self)
                } else {
                    &&& final(self).adapter() matches Some(after) && old(self).adapter() matches Some(
                        before,
                    ) && after.calls() == before.calls().push(
                        TransferCall::Start(handoff_request(export)),
                    )
                    &&& exists|started: Result<TransferJobId, TransferError>|
                        #[trigger] final(self).handoff_started_from(old(self), export, started, result)
                },
                None => {
                    &&& result == Err::<(), ClientRuntimeError>(ClientRuntimeError::RouteUnavailable)
                    &&& final(self).lane_moved(old(self))
                    &&& final(self).lane() == old(self).lane()
                    &&& final(self).listed() == old(self).listed()
                    &&& final(self).candidate() == old(self).candidate()
                    &&& logs(
                        old(self).log(),
                        final(self).log(),
                        ClientDiagnosticCode::RouteUnavailable,
                        NO_PREPARED_COPY@,
                    )
                },
            },
    {
        let ready = matches!(
            self.slot_requests,
            LibrarySlots::ExportReady { .. } | LibrarySlots::HandOffFailed { .. }
        );
        if !ready {
            self.push_diagnostic(ClientDiagnosticCode::RouteUnavailable, String::from_str(NO_PREPARED_COPY));
            return Err(ClientRuntimeError::RouteUnavailable);
        }
        if self.transfer.is_none() {
            return Err(ClientRuntimeError::TransferUnavailable);
        }
        let mut lane = LibrarySlots::Idle;
        core::mem::swap(&mut lane, &mut self.slot_requests);
        let export = match lane {
            LibrarySlots::ExportReady { export } => export,
            LibrarySlots::HandOffFailed { export, .. } => export,
            _ => {
                proof {
                    assert(false);
                }
                return Err(ClientRuntimeError::RouteUnavailable);
            },
        };
        let request = TransferRequest::HandOffExport {
            kind: export.kind(),
            suggested_name: export.suggested_name.clone(),
            bytes: copy_bytes(&export.bytes),
        };
        let started = match &mut self.transfer {
            Some(adapter) => adapter.start(request),
            None => Err(TransferError::new(TransferFailureCode::Unavailable)),
        };
        let ghost answer = started;
        let ghost handed = export;
        let ghost mid = *self;
        let result = self.record_handoff_start(export, started);
        assert(self.handoff_started_from(&mid, handed, answer, result));
        assert(self.handoff_started_from(old(self), handed, answer, result));
        result
    }

    /// Delivers the handoff's one terminal answer. Not gated on the Library
    /// being on screen.
    pub fn poll_library_handoff(&mut self)
        requires
            old(self).wf(),
        ensures
            final(self).wf(),
            !(old(self).lane() is HandingOff) ==> *final(self) == *old(self),
            old(self).lane() is HandingOff ==> exists|state: TransferJobState|
                #[trigger] final(self).handoff_polled_from(old(self), state),
            old(self).lane() matches LibrarySlots::HandingOff { job, .. } ==> match old(self).adapter() {
                Some(before) => final(self).adapter() matches Some(after) && after.calls()
                    == before.calls().push(TransferCall::Poll(job)),
                None => final(self).adapter() is None,
            },
    {
        let job = match &self.slot_requests {
            LibrarySlots::HandingOff { job, .. } => *job,
            _ => return,
        };
        let state = match &mut self.transfer {
            Some(adapter) => adapter.poll(job),
            None => TransferJobState::Unknown,
        };
        let ghost reported = state;
        let ghost polled = *self;
        self.handoff_polled(state);
        assert(self.handoff_polled_from(&polled, reported));
        assert(self.handoff_polled_from(old(self), reported));
    }
}


impl<C, D, H, T: TransferAdapter> ClientRuntime<C, D, H, T> {
    /// Clears pending Library slot intent and nothing else. An in-flight
    /// request or open is abandoned in the store, which drops its outcome,
    /// not its work, so a list it may have invalidated is dropped with it;
    /// an export never mutates, so its list is kept. A handoff stops waiting
    /// for the adapter and returns to the prepared bytes.
    pub fn cancel_library_slot_request<S: WorkshopStore>(&mut self, store: &mut LoggedStore<S>) -> (result: Result<
        (),
        ClientRuntimeError,
    >)
        requires
            old(self).wf(),
        ensures
            final(self).wf(),
            final(self).same_screens(old(self)),
            final(self).bootstrap_client() == old(self).bootstrap_client(),
            final(self).candidate() == old(self).candidate(),
            !(old(self).lane() is HandingOff) ==> final(self).adapter() == old(self).adapter(),
            !(old(self).lane() is Opening) ==> final(self).row_client() == old(self).row_client(),
            final(store).calls() == (match old(self).lane() {
                LibrarySlots::Working { job, .. } => old(store).calls().push(StoreCall::Abandon(job)),
                LibrarySlots::Opening { .. } => match phase_job(old(self).row_client().phase()) {
                    Some(job) => old(store).calls().push(StoreCall::Abandon(job)),
                    None => old(store).calls(),
                },
                _ => old(store).calls(),
            }),
            match old(self).lane() {
                LibrarySlots::Idle => {
                    &&& result == Err::<(), ClientRuntimeError>(ClientRuntimeError::RouteUnavailable)
                    &&& final(self).lane() is Idle
                    &&& final(self).listed() == old(self).listed()
                    &&& logs(
                        old(self).log(),
                        final(self).log(),
                        ClientDiagnosticCode::RouteUnavailable,
                        NO_CANCELLABLE_SLOT_REQUEST@,
                    )
                },
                LibrarySlots::HandingOff { job, export } => {
                    &&& result == Ok::<(), ClientRuntimeError>(())
                    &&& final(self).lane() == LibrarySlots::<H>::ExportReady { export }
                    &&& final(self).listed() == old(self).listed()
                    &&& final(self).log() == old(self).log()
                    &&& match old(self).adapter() {
                        Some(before) => final(self).adapter() matches Some(after) && after.calls()
                            == before.calls().push(TransferCall::Abandon(job)),
                        None => final(self).adapter() is None,
                    }
                },
                other => {
                    &&& result == Ok::<(), ClientRuntimeError>(())
                    &&& final(self).lane() is Idle
                    &&& final(self).row_client().phase() is Idle
                    &&& final(self).log() == old(self).log()
                    &&& final(self).listed() == (match other {
                        LibrarySlots::Working { request, .. } => if request_mutates(request) {
                            None
                        } else {
                            old(self).listed()
                        },
                        LibrarySlots::Failed { request, .. } => if request_mutates(request) {
                            None
                        } else {
                            old(self).listed()
                        },
                        LibrarySlots::Opening { purpose, .. } => if purpose == OpenPurpose::Export {
                            old(self).listed()
                        } else {
                            None
                        },
                        LibrarySlots::Held { .. } => None,
                        _ => old(self).listed(),
                    })
                },
            },
    {
        let mut lane = LibrarySlots::Idle;
        core::mem::swap(&mut lane, &mut self.slot_requests);
        match lane {
            LibrarySlots::Idle => {
                self.push_diagnostic(
                    ClientDiagnosticCode::RouteUnavailable,
                    String::from_str(NO_CANCELLABLE_SLOT_REQUEST),
                );
                Err(ClientRuntimeError::RouteUnavailable)
            },
            LibrarySlots::Working { job, request } => {
                store.abandon(job);
                if !matches!(request, WorkshopStoreRequest::ListSlots) {
                    self.slot_list = None;
                }
                Ok(())
            },
            LibrarySlots::Failed { request, .. } => {
                if !matches!(request, WorkshopStoreRequest::ListSlots) {
                    self.slot_list = None;
                }
                Ok(())
            },
            LibrarySlots::Opening { purpose, .. } => {
                self.open_client.abandon(store);
                if purpose != OpenPurpose::Export {
                    self.slot_list = None;
                }
                Ok(())
            },
            LibrarySlots::HandingOff { job, export } => {
                if let Some(adapter) = &mut self.transfer {
                    adapter.abandon(job);
                }
                self.slot_requests = LibrarySlots::ExportReady { export };
                Ok(())
            },
            LibrarySlots::Held { .. } => {
                self.slot_list = None;
                Ok(())
            },
            _ => Ok(()),
        }
    }
}


/// The screen of the active session.
pub open spec fn session_screen(facts: SessionFacts) -> ClientScreen {
    match facts.kind {
        SessionKind::NoSession => ClientScreen::MainMenu,
        SessionKind::Classic => ClientScreen::ClassicSector,
        SessionKind::Workshop => ClientScreen::GalaxyWorkshop,
    }
}

/// Whether Continue has somewhere to go: the resident Workshop when it is
/// the Continue save, or a validated candidate that may replace the session.
pub open spec fn continue_offered<H>(facts: SessionFacts, candidate: Option<LibraryCandidate<H>>) -> bool {
    if facts.kind == SessionKind::Workshop {
        facts.continue_ready || (!facts.replacement_blocked && candidate is Some)
    } else {
        candidate is Some
    }
}

/// The main-menu routes and whether each is enabled: replacing the session
/// is disabled while the resident Workshop forbids it, and Continue needs
/// somewhere to go.
pub open spec fn menu(facts: SessionFacts, continue_available: bool) -> Seq<MainMenuCapability> {
    seq![
        MainMenuCapability { route: MainMenuRoute::NewWorkshop, enabled: !blocks_replacement(facts) },
        MainMenuCapability { route: MainMenuRoute::Continue, enabled: continue_available },
        MainMenuCapability { route: MainMenuRoute::Library, enabled: true },
        MainMenuCapability { route: MainMenuRoute::ClassicSector, enabled: !blocks_replacement(facts) },
        MainMenuCapability { route: MainMenuRoute::Settings, enabled: true },
        MainMenuCapability { route: MainMenuRoute::Credits, enabled: true },
        MainMenuCapability { route: MainMenuRoute::Quit, enabled: true },
    ]
}

/// What a main-menu route asks the caller to do with the session.
#[derive(Debug)]
pub enum RouteOutcome<H> {
    /// The session is kept.
    Effect(ClientRuntimeEffect),
    /// Replace the session with a new Workshop from the built-in catalog.
    StartNewWorkshop { seed: u64 },
    /// Replace the session with Classic Sector.
    StartClassic,
    /// Replace the session with this validated Continue candidate.
    Install(LibraryCandidate<H>),
}

impl<C, D, H, T> ClientRuntime<C, D, H, T> {
    pub fn dismiss_credits(&mut self)
        requires
            old(self).wf(),
        ensures
            final(self).wf(),
            !final(self).credits(),
            final(self).current_screen() == old(self).current_screen(),
            final(self).recovery() == old(self).recovery(),
            final(self).settings_return_screen() == old(self).settings_return_screen(),
            final(self).bootstrap_return_screen() == old(self).bootstrap_return_screen(),
            final(self).library_return_screen() == old(self).library_return_screen(),
            final(self).same_clients(old(self)),
            final(self).lane() == old(self).lane(),
            final(self).listed() == old(self).listed(),
            final(self).candidate() == old(self).candidate(),
            final(self).log() == old(self).log(),
            final(self).adapter() == old(self).adapter(),
    {
        self.credits_visible = false;
    }

    /// Whether startup Continue is running.
    pub fn continue_bootstrap_active(&self) -> (active: bool)
        ensures
            active == !(self.bootstrap_client().phase() is Idle),
    {
        self.library.is_active()
    }

    pub fn continue_available(&self, facts: SessionFacts) -> (available: bool)
        ensures
            available == continue_offered(facts, self.candidate()),
    {
        if facts.kind == SessionKind::Workshop {
            facts.continue_ready || (!facts.replacement_blocked && self.continue_candidate.is_some())
        } else {
            self.continue_candidate.is_some()
        }
    }

    pub fn menu_capabilities(&self, facts: SessionFacts) -> (capabilities: Vec<MainMenuCapability>)
        ensures
            capabilities@ == menu(facts, continue_offered(facts, self.candidate())),
    {
        let replacement_blocked = facts.kind == SessionKind::Workshop && facts.replacement_blocked;
        let continue_available = self.continue_available(facts);
        let mut capabilities = Vec::new();
        capabilities.push(
            MainMenuCapability { route: MainMenuRoute::NewWorkshop, enabled: !replacement_blocked },
        );
        capabilities.push(
            MainMenuCapability { route: MainMenuRoute::Continue, enabled: continue_available },
        );
        capabilities.push(MainMenuCapability { route: MainMenuRoute::Library, enabled: true });
        capabilities.push(
            MainMenuCapability { route: MainMenuRoute::ClassicSector, enabled: !replacement_blocked },
        );
        capabilities.push(MainMenuCapability { route: MainMenuRoute::Settings, enabled: true });
        capabilities.push(MainMenuCapability { route: MainMenuRoute::Credits, enabled: true });
        capabilities.push(MainMenuCapability { route: MainMenuRoute::Quit, enabled: true });
        assert(capabilities@ =~= menu(facts, continue_available));
        capabilities
    }

    /// Shows the recovery screen with `code` and `message`, and logs it.
    fn enter_recovery(&mut self, code: ClientDiagnosticCode, message: String)
        requires
            old(self).wf(),
        ensures
            final(self).wf(),
            final(self).current_screen() == ClientScreen::RecoverableError,
            final(self).recovery() matches Some(diagnostic) && diagnostic_is(diagnostic, code, message@),
            logs(old(self).log(), final(self).log(), code, message@),
            final(self).same_returns(old(self)),
            final(self).same_clients(old(self)),
            final(self).lane() == old(self).lane(),
            final(self).listed() == old(self).listed(),
            final(self).candidate() == old(self).candidate(),
            final(self).adapter() == old(self).adapter(),
    {
        self.recovery = Some(ClientDiagnostic { code, message: message.clone() });
        self.push_diagnostic(code, message);
        self.screen = ClientScreen::RecoverableError;
    }

    /// Records what storage answered to startup Continue's listing. The
    /// Continue candidate is dropped and the return screen fixed first; a
    /// refusal is shown on the recovery screen.
    pub fn record_bootstrap_start(
        &mut self,
        facts: SessionFacts,
        started: Result<StoreJobId, WorkshopStoreError>,
    ) -> (result: Result<(), ClientRuntimeError>)
        requires
            old(self).wf(),
            old(self).bootstrap_client().phase() is Idle,
        ensures
            final(self).wf(),
            final(self).bootstrap_started_from(old(self), facts, started, result),
    {
        self.continue_candidate = None;
        self.bootstrap_return = match self.screen {
            ClientScreen::Loading | ClientScreen::RecoverableError => match facts.kind {
                SessionKind::NoSession => ClientScreen::MainMenu,
                SessionKind::Classic => ClientScreen::ClassicSector,
                SessionKind::Workshop => ClientScreen::GalaxyWorkshop,
            },
            screen => screen,
        };
        match self.library.begin_answered(LibraryOpen::SelectedContinue, started) {
            Ok(()) => {
                self.screen = ClientScreen::Loading;
                Ok(())
            },
            Err(LibraryBeginError::Active) => Err(ClientRuntimeError::BootstrapActive),
            Err(LibraryBeginError::Store(error)) => {
                self.enter_recovery(ClientDiagnosticCode::Store, error.duplicate().into_message());
                Err(ClientRuntimeError::Store(error))
            },
        }
    }

    /// `self` is `before` after startup Continue's listing was started with
    /// storage's answer `started`.
    pub open spec fn bootstrap_started_from(
        &self,
        before: &Self,
        facts: SessionFacts,
        started: Result<StoreJobId, WorkshopStoreError>,
        result: Result<(), ClientRuntimeError>,
    ) -> bool {
        &&& self.candidate() is None
        &&& self.bootstrap_return_screen() == (match before.current_screen() {
            ClientScreen::Loading => session_screen(facts),
            ClientScreen::RecoverableError => session_screen(facts),
            screen => screen,
        })
        &&& self.settings_return_screen() == before.settings_return_screen()
        &&& self.library_return_screen() == before.library_return_screen()
        &&& self.credits() == before.credits()
        &&& self.row_client() == before.row_client()
        &&& self.lane() == before.lane()
        &&& self.listed() == before.listed()
        &&& self.adapter() == before.adapter()
        &&& match started {
            Ok(job) => {
                &&& result == Ok::<(), ClientRuntimeError>(())
                &&& self.current_screen() == ClientScreen::Loading
                &&& self.recovery() == before.recovery()
                &&& self.log() == before.log()
                &&& self.bootstrap_client().phase() == LibraryPhase::<C, D, H>::Listing(job)
            },
            Err(error) => {
                &&& result == Err::<(), ClientRuntimeError>(ClientRuntimeError::Store(error))
                &&& self.current_screen() == ClientScreen::RecoverableError
                &&& self.recovery() matches Some(diagnostic) && is_store_failure_of(diagnostic, error)
                &&& logs(before.log(), self.log(), ClientDiagnosticCode::Store, store_error_text(error))
                &&& self.bootstrap_client().phase() is Idle
            },
        }
    }

    /// Starts startup Continue: the store's own Continue marker is listed,
    /// loaded and replayed; the slot is never inferred from another slot.
    pub fn begin_continue_bootstrap<S: WorkshopStore>(&mut self, store: &mut LoggedStore<S>, facts: SessionFacts) -> (result: Result<
        (),
        ClientRuntimeError,
    >)
        requires
            old(self).wf(),
        ensures
            final(self).wf(),
            !(old(self).bootstrap_client().phase() is Idle) ==> {
                &&& result == Err::<(), ClientRuntimeError>(ClientRuntimeError::BootstrapActive)
                &&& *final(self) == *old(self)
            },
            old(self).bootstrap_client().phase() is Idle ==> exists|
                started: Result<StoreJobId, WorkshopStoreError>,
            | #[trigger] final(self).bootstrap_started_from(old(self), facts, started, result),
            final(store).calls() == if old(self).bootstrap_client().phase() is Idle {
                old(store).calls().push(StoreCall::Start(StoreRequestView::ListSlots))
            } else {
                old(store).calls()
            },
    {
        if self.library.is_active() {
            return Err(ClientRuntimeError::BootstrapActive);
        }
        let started = store.start(WorkshopStoreRequest::ListSlots);
        let ghost answer = started;
        let result = self.record_bootstrap_start(facts, started);
        assert(self.bootstrap_started_from(old(self), facts, answer, result));
        result
    }

    /// `self` is `before` after startup Continue reported `event`: nothing
    /// to continue, or a slot archived under it, returns to where the user
    /// was; a clean candidate is kept for the Continue route; a predecessor
    /// is kept and offered on the recovery screen; a failure is shown there,
    /// and a protocol fault drops the candidate first.
    pub open spec fn bootstrap_settled_from(&self, before: &Self, event: LibraryEvent<H>) -> bool {
        &&& self.same_returns(before)
        &&& self.row_client() == before.row_client()
        &&& self.lane() == before.lane()
        &&& self.listed() == before.listed()
        &&& self.adapter() == before.adapter()
        &&& match event {
            LibraryEvent::NoCandidate => {
                &&& self.current_screen() == before.bootstrap_return_screen()
                &&& self.recovery() == before.recovery()
                &&& self.candidate() == before.candidate()
                &&& self.log() == before.log()
            },
            LibraryEvent::ArchivedRow { .. } => {
                &&& self.current_screen() == before.bootstrap_return_screen()
                &&& self.recovery() == before.recovery()
                &&& self.candidate() == before.candidate()
                &&& self.log() == before.log()
            },
            LibraryEvent::Ready(candidate) => {
                &&& self.candidate() == Some(candidate)
                &&& if candidate.loaded.recovered_from_previous {
                    &&& self.current_screen() == ClientScreen::RecoverableError
                    &&& self.recovery() matches Some(diagnostic) && diagnostic_is(
                        diagnostic,
                        ClientDiagnosticCode::Archive,
                        PREVIOUS_GENERATION_AVAILABLE@,
                    )
                    &&& logs(
                        before.log(),
                        self.log(),
                        ClientDiagnosticCode::Archive,
                        PREVIOUS_GENERATION_AVAILABLE@,
                    )
                } else {
                    &&& self.current_screen() == before.bootstrap_return_screen()
                    &&& self.recovery() == before.recovery()
                    &&& self.log() == before.log()
                }
            },
            LibraryEvent::Failed(failure) => {
                &&& self.current_screen() == ClientScreen::RecoverableError
                &&& self.recovery() == Some(failure)
                &&& logs(before.log(), self.log(), failure.code, failure.message@)
                &&& self.candidate() == before.candidate()
            },
            LibraryEvent::ProtocolFailure(message) => {
                &&& self.current_screen() == ClientScreen::RecoverableError
                &&& self.recovery() matches Some(diagnostic) && diagnostic_is(
                    diagnostic,
                    ClientDiagnosticCode::StoreProtocol,
                    message@,
                )
                &&& logs(before.log(), self.log(), ClientDiagnosticCode::StoreProtocol, message@)
                &&& self.candidate() is None
            },
            _ => {
                &&& self.current_screen() == ClientScreen::RecoverableError
                &&& self.recovery() matches Some(diagnostic) && diagnostic_is(
                    diagnostic,
                    ClientDiagnosticCode::StoreProtocol,
                    UNREQUESTED_CONFLICT@,
                )
                &&& logs(
                    before.log(),
                    self.log(),
                    ClientDiagnosticCode::StoreProtocol,
                    UNREQUESTED_CONFLICT@,
                )
                &&& self.candidate() is None
            },
        }
    }

    fn settle_bootstrap(&mut self, event: LibraryEvent<H>)
        requires
            old(self).wf(),
            !(event is Pending),
        ensures
            final(self).wf(),
            final(self).bootstrap_settled_from(old(self), event),
            final(self).bootstrap_client() == old(self).bootstrap_client(),
    {
        match event {
            LibraryEvent::Pending => {},
            LibraryEvent::NoCandidate => {
                self.screen = self.bootstrap_return;
            },
            LibraryEvent::ArchivedRow { .. } => {
                self.screen = self.bootstrap_return;
            },
            LibraryEvent::Ready(candidate) => {
                let recovered = candidate.loaded.recovered_from_previous;
                self.continue_candidate = Some(candidate);
                if recovered {
                    self.enter_recovery(
                        ClientDiagnosticCode::Archive,
                        String::from_str(PREVIOUS_GENERATION_AVAILABLE),
                    );
                } else {
                    self.screen = self.bootstrap_return;
                }
            },
            LibraryEvent::Failed(failure) => {
                self.recovery = Some(ClientDiagnostic {
                    code: failure.code,
                    message: failure.message.clone(),
                });
                self.push_diagnostic(failure.code, failure.message);
                self.screen = ClientScreen::RecoverableError;
            },
            LibraryEvent::ProtocolFailure(message) => {
                self.continue_candidate = None;
                self.enter_recovery(ClientDiagnosticCode::StoreProtocol, String::from_str(message));
            },
            _ => {
                self.continue_candidate = None;
                self.enter_recovery(
                    ClientDiagnosticCode::StoreProtocol,
                    String::from_str(UNREQUESTED_CONFLICT),
                );
            },
        }
    }

    /// Advances startup Continue with the answer to its last request, or
    /// with `Poll`. A request is handed back for the caller to perform; an
    /// outcome becomes screen policy.
    pub fn step_continue_bootstrap(&mut self, input: LibraryInput<C, D, H>) -> (progress: OpenProgress<
        C,
        D,
        H,
    >)
        requires
            old(self).wf(),
        ensures
            final(self).wf(),
            old(self).bootstrap_client().phase() is Idle ==> progress is Idle && *final(self)
                == *old(self),
            !(old(self).bootstrap_client().phase() is Idle) ==> !(progress is Idle) && !(
            progress is Install),
            progress matches OpenProgress::Request(request) ==> {
                &&& library_step(
                    old(self).bootstrap_client(),
                    input,
                    final(self).bootstrap_client(),
                    LibraryStep::Request(request),
                )
                &&& final(self).row_client() == old(self).row_client()
                &&& final(self).same_screens(old(self))
                &&& final(self).lane() == old(self).lane()
                &&& final(self).listed() == old(self).listed()
                &&& final(self).candidate() == old(self).candidate()
                &&& final(self).log() == old(self).log()
                &&& final(self).adapter() == old(self).adapter()
            },
            progress is Pending ==> {
                &&& library_step(
                    old(self).bootstrap_client(),
                    input,
                    final(self).bootstrap_client(),
                    LibraryStep::Event(LibraryEvent::Pending),
                )
                &&& final(self).row_client() == old(self).row_client()
                &&& final(self).same_screens(old(self))
                &&& final(self).lane() == old(self).lane()
                &&& final(self).listed() == old(self).listed()
                &&& final(self).candidate() == old(self).candidate()
                &&& final(self).log() == old(self).log()
                &&& final(self).adapter() == old(self).adapter()
            },
            progress is Settled ==> exists|event: LibraryEvent<H>|
                {
                    &&& !(event is Pending)
                    &&& library_step(
                        old(self).bootstrap_client(),
                        input,
                        final(self).bootstrap_client(),
                        LibraryStep::Event(event),
                    )
                    &&& #[trigger] final(self).bootstrap_settled_from(old(self), event)
                },
    {
        if !self.library.is_active() {
            return OpenProgress::Idle;
        }
        let out = self.library.poll(input);
        proof {
            lemma_active_until_outcome(old(self).library, input, self.library, out);
        }
        match out {
            LibraryStep::Request(request) => OpenProgress::Request(request),
            LibraryStep::Event(LibraryEvent::Pending) => OpenProgress::Pending,
            LibraryStep::Event(event) => {
                let ghost reported = event;
                self.settle_bootstrap(event);
                assert(self.bootstrap_settled_from(old(self), reported));
                OpenProgress::Settled
            },
        }
    }
}


/// A new Workshop the caller is to build: this catalog, this seed.
#[derive(Debug, PartialEq, Eq)]
pub struct NewWorkshop<C> {
    pub catalog: C,
    pub seed: u64,
}

/// Whether the Library may open from `screen`: only from the three product
/// screens, so it can never be its own return screen.
pub open spec fn library_entry(screen: ClientScreen) -> bool {
    screen == ClientScreen::MainMenu || screen == ClientScreen::ClassicSector || screen
        == ClientScreen::GalaxyWorkshop
}

impl<C, D, H, T> ClientRuntime<C, D, H, T> {
    /// Nothing but the screen and the recovery diagnostic changed.
    pub open spec fn screen_moved(&self, before: &Self) -> bool {
        &&& self.same_returns(before)
        &&& self.same_clients(before)
        &&& self.lane() == before.lane()
        &&& self.listed() == before.listed()
        &&& self.candidate() == before.candidate()
        &&& self.adapter() == before.adapter()
    }

    /// `self` is `before` with one refusal of `code` reading `text` logged
    /// and nothing else changed.
    pub open spec fn refused_from(&self, before: &Self, code: ClientDiagnosticCode, text: Seq<char>) -> bool {
        &&& self.screen_moved(before)
        &&& self.current_screen() == before.current_screen()
        &&& self.recovery() == before.recovery()
        &&& logs(before.log(), self.log(), code, text)
    }

    /// Refuses a Workshop action while no Workshop is resident.
    pub fn require_active_workshop(&mut self, facts: SessionFacts) -> (result: Result<(), ClientRuntimeError>)
        requires
            old(self).wf(),
        ensures
            final(self).wf(),
            facts.kind == SessionKind::Workshop ==> result is Ok && *final(self) == *old(self),
            facts.kind != SessionKind::Workshop ==> {
                &&& result == Err::<(), ClientRuntimeError>(ClientRuntimeError::WorkshopInactive)
                &&& final(self).refused_from(
                    old(self),
                    ClientDiagnosticCode::WorkshopInactive,
                    WORKSHOP_INACTIVE@,
                )
            },
    {
        if facts.kind != SessionKind::Workshop {
            self.push_diagnostic(
                ClientDiagnosticCode::WorkshopInactive,
                String::from_str(WORKSHOP_INACTIVE),
            );
            return Err(ClientRuntimeError::WorkshopInactive);
        }
        Ok(())
    }

    pub fn open_settings(&mut self, facts: SessionFacts)
        requires
            old(self).wf(),
        ensures
            final(self).wf(),
            final(self).current_screen() == ClientScreen::Settings,
            final(self).settings_return_screen() == session_screen(facts),
            final(self).bootstrap_return_screen() == old(self).bootstrap_return_screen(),
            final(self).library_return_screen() == old(self).library_return_screen(),
            final(self).credits() == old(self).credits(),
            final(self).recovery() == old(self).recovery(),
            final(self).same_clients(old(self)),
            final(self).lane() == old(self).lane(),
            final(self).listed() == old(self).listed(),
            final(self).candidate() == old(self).candidate(),
            final(self).log() == old(self).log(),
            final(self).adapter() == old(self).adapter(),
    {
        self.settings_return = match facts.kind {
            SessionKind::NoSession => ClientScreen::MainMenu,
            SessionKind::Classic => ClientScreen::ClassicSector,
            SessionKind::Workshop => ClientScreen::GalaxyWorkshop,
        };
        self.screen = ClientScreen::Settings;
    }

    pub fn close_settings(&mut self)
        requires
            old(self).wf(),
        ensures
            final(self).wf(),
            final(self).screen_moved(old(self)),
            final(self).recovery() == old(self).recovery(),
            final(self).log() == old(self).log(),
            final(self).current_screen() == (if old(self).current_screen() == ClientScreen::Settings {
                old(self).settings_return_screen()
            } else {
                old(self).current_screen()
            }),
    {
        if self.screen == ClientScreen::Settings {
            self.screen = self.settings_return;
        }
    }

    /// Opens the Library laterally from one of the three product screens and
    /// lists the slots when nothing else holds the lane. It prepares no
    /// durable transition: the resident session is left untouched.
    pub fn open_library<S: WorkshopStore>(&mut self, store: &mut LoggedStore<S>) -> (result: Result<(), ClientRuntimeError>)
        requires
            old(self).wf(),
        ensures
            final(self).wf(),
            final(self).opened_library_from(old(self), result),
            final(store).calls() == if library_entry(old(self).current_screen()) && old(self).lane() is Idle {
                old(store).calls().push(StoreCall::Start(StoreRequestView::ListSlots))
            } else {
                old(store).calls()
            },
    {
        if !(self.screen == ClientScreen::MainMenu || self.screen == ClientScreen::ClassicSector
            || self.screen == ClientScreen::GalaxyWorkshop) {
            self.push_diagnostic(ClientDiagnosticCode::RouteUnavailable, String::from_str(LIBRARY_ENTRY));
            return Err(ClientRuntimeError::RouteUnavailable);
        }
        self.library_return = self.screen;
        self.screen = ClientScreen::Library;
        if matches!(self.slot_requests, LibrarySlots::Idle) {
            let ghost entered = *self;
            let listing = self.dispatch_slot_request(store, None, WorkshopStoreRequest::ListSlots);
            assert(self.started_from(&entered, WorkshopStoreRequest::ListSlots, listing));
        }
        Ok(())
    }

    /// `self` is `before` after the Library was asked to open.
    pub open spec fn opened_library_from(&self, before: &Self, result: Result<(), ClientRuntimeError>) -> bool {
        if !library_entry(before.current_screen()) {
            &&& result == Err::<(), ClientRuntimeError>(ClientRuntimeError::RouteUnavailable)
            &&& self.refused_from(before, ClientDiagnosticCode::RouteUnavailable, LIBRARY_ENTRY@)
        } else {
            &&& result == Ok::<(), ClientRuntimeError>(())
            &&& self.current_screen() == ClientScreen::Library
            &&& self.library_return_screen() == before.current_screen()
            &&& self.settings_return_screen() == before.settings_return_screen()
            &&& self.bootstrap_return_screen() == before.bootstrap_return_screen()
            &&& self.credits() == before.credits()
            &&& self.recovery() == before.recovery()
            &&& self.same_clients(before)
            &&& self.adapter() == before.adapter()
            &&& self.listed() == before.listed()
            &&& self.candidate() == before.candidate()
            &&& if before.lane() is Idle {
                self.relisting(before)
            } else {
                &&& self.lane() == before.lane()
                &&& self.log() == before.log()
            }
        }
    }

    /// Returns to the exact screen the Library was opened from.
    pub fn close_library(&mut self)
        requires
            old(self).wf(),
        ensures
            final(self).wf(),
            final(self).screen_moved(old(self)),
            final(self).recovery() == old(self).recovery(),
            final(self).log() == old(self).log(),
            final(self).current_screen() == (if old(self).current_screen() == ClientScreen::Library {
                old(self).library_return_screen()
            } else {
                old(self).current_screen()
            }),
    {
        if self.screen == ClientScreen::Library {
            self.screen = self.library_return;
        }
    }

    /// Leaves the active product surface for the main menu. A resident
    /// Workshop's pause, save and Continue selection are prepared by the
    /// caller before this is called.
    pub fn return_to_main_menu(&mut self)
        requires
            old(self).wf(),
        ensures
            final(self).wf(),
            final(self).current_screen() == ClientScreen::MainMenu,
            !final(self).credits(),
            final(self).recovery() == old(self).recovery(),
            final(self).settings_return_screen() == old(self).settings_return_screen(),
            final(self).bootstrap_return_screen() == old(self).bootstrap_return_screen(),
            final(self).library_return_screen() == old(self).library_return_screen(),
            final(self).same_clients(old(self)),
            final(self).lane() == old(self).lane(),
            final(self).listed() == old(self).listed(),
            final(self).candidate() == old(self).candidate(),
            final(self).log() == old(self).log(),
            final(self).adapter() == old(self).adapter(),
    {
        self.screen = ClientScreen::MainMenu;
        self.credits_visible = false;
    }

    pub fn return_to_active_session(&mut self, facts: SessionFacts)
        requires
            old(self).wf(),
        ensures
            final(self).wf(),
            final(self).screen_moved(old(self)),
            final(self).recovery() == old(self).recovery(),
            final(self).log() == old(self).log(),
            final(self).current_screen() == session_screen(facts),
    {
        self.screen = match facts.kind {
            SessionKind::NoSession => ClientScreen::MainMenu,
            SessionKind::Classic => ClientScreen::ClassicSector,
            SessionKind::Workshop => ClientScreen::GalaxyWorkshop,
        };
    }

    pub fn dismiss_recovery(&mut self, facts: SessionFacts)
        requires
            old(self).wf(),
        ensures
            final(self).wf(),
            final(self).screen_moved(old(self)),
            final(self).recovery() is None,
            final(self).log() == old(self).log(),
            final(self).current_screen() == (if old(self).current_screen()
                == ClientScreen::RecoverableError {
                session_screen(facts)
            } else {
                old(self).current_screen()
            }),
    {
        self.recovery = None;
        if self.screen == ClientScreen::RecoverableError {
            self.screen = match facts.kind {
                SessionKind::NoSession => ClientScreen::MainMenu,
                SessionKind::Classic => ClientScreen::ClassicSector,
                SessionKind::Workshop => ClientScreen::GalaxyWorkshop,
            };
        }
    }

    /// `self` is `before` after Continue was chosen: a resident Workshop
    /// that is the Continue save is shown; otherwise the validated candidate
    /// replaces the session, once the resident may be replaced.
    pub open spec fn continued_from(
        &self,
        before: &Self,
        facts: SessionFacts,
        result: Result<RouteOutcome<H>, ClientRuntimeError>,
    ) -> bool {
        &&& self.same_returns(before)
        &&& self.same_clients(before)
        &&& self.lane() == before.lane()
        &&& self.listed() == before.listed()
        &&& self.adapter() == before.adapter()
        &&& if resident_continue_ready(facts) {
            &&& result == Ok::<RouteOutcome<H>, ClientRuntimeError>(
                RouteOutcome::Effect(ClientRuntimeEffect::NoEffect),
            )
            &&& self.current_screen() == ClientScreen::GalaxyWorkshop
            &&& self.recovery() is None
            &&& self.candidate() == before.candidate()
            &&& self.log() == before.log()
        } else if blocks_replacement(facts) {
            &&& result == Err::<RouteOutcome<H>, ClientRuntimeError>(ClientRuntimeError::RouteUnavailable)
            &&& self.refused_from(before, ClientDiagnosticCode::RouteUnavailable, REPLACEMENT_BLOCKED@)
        } else if before.candidate() is None {
            &&& result == Err::<RouteOutcome<H>, ClientRuntimeError>(
                ClientRuntimeError::ContinueUnavailable,
            )
            &&& self.refused_from(
                before,
                ClientDiagnosticCode::ContinueUnavailable,
                CONTINUE_WITHOUT_SAVE@,
            )
        } else {
            &&& result == Ok::<RouteOutcome<H>, ClientRuntimeError>(
                RouteOutcome::Install(before.candidate()->0),
            )
            &&& self.candidate() is None
            &&& self.current_screen() == ClientScreen::GalaxyWorkshop
            &&& self.recovery() is None
            &&& self.log() == before.log()
        }
    }

    fn continue_selected_workshop(&mut self, facts: SessionFacts) -> (result: Result<
        RouteOutcome<H>,
        ClientRuntimeError,
    >)
        requires
            old(self).wf(),
        ensures
            final(self).wf(),
            final(self).continued_from(old(self), facts, result),
    {
        if facts.kind == SessionKind::Workshop && facts.continue_ready {
            self.screen = ClientScreen::GalaxyWorkshop;
            self.recovery = None;
            return Ok(RouteOutcome::Effect(ClientRuntimeEffect::NoEffect));
        }
        if facts.kind == SessionKind::Workshop && facts.replacement_blocked {
            self.push_diagnostic(
                ClientDiagnosticCode::RouteUnavailable,
                String::from_str(REPLACEMENT_BLOCKED),
            );
            return Err(ClientRuntimeError::RouteUnavailable);
        }
        let mut taken = None;
        core::mem::swap(&mut taken, &mut self.continue_candidate);
        match taken {
            None => {
                self.push_diagnostic(
                    ClientDiagnosticCode::ContinueUnavailable,
                    String::from_str(CONTINUE_WITHOUT_SAVE),
                );
                Err(ClientRuntimeError::ContinueUnavailable)
            },
            Some(candidate) => {
                self.screen = ClientScreen::GalaxyWorkshop;
                self.recovery = None;
                Ok(RouteOutcome::Install(candidate))
            },
        }
    }

    /// Starts a new Workshop from the built-in catalog, as the caller
    /// decoded it: refused while the resident Workshop cannot be replaced,
    /// and shown on the recovery screen when the built-in catalog does not
    /// validate.
    pub fn start_new_workshop(&mut self, facts: SessionFacts, built_in: Option<C>, seed: u64) -> (result: Result<
        NewWorkshop<C>,
        ClientRuntimeError,
    >)
        requires
            old(self).wf(),
        ensures
            final(self).wf(),
            final(self).screen_moved(old(self)),
            blocks_replacement(facts) ==> {
                &&& result == Err::<NewWorkshop<C>, ClientRuntimeError>(ClientRuntimeError::RouteUnavailable)
                &&& final(self).refused_from(
                    old(self),
                    ClientDiagnosticCode::RouteUnavailable,
                    REPLACEMENT_BLOCKED@,
                )
            },
            !blocks_replacement(facts) ==> match built_in {
                None => {
                    &&& result == Err::<NewWorkshop<C>, ClientRuntimeError>(ClientRuntimeError::BuiltInCatalog)
                    &&& final(self).current_screen() == ClientScreen::RecoverableError
                    &&& final(self).recovery() matches Some(diagnostic) && diagnostic_is(
                        diagnostic,
                        ClientDiagnosticCode::Catalog,
                        BUILT_IN_CATALOG_INVALID@,
                    )
                    &&& logs(
                        old(self).log(),
                        final(self).log(),
                        ClientDiagnosticCode::Catalog,
                        BUILT_IN_CATALOG_INVALID@,
                    )
                },
                Some(catalog) => {
                    &&& result == Ok::<NewWorkshop<C>, ClientRuntimeError>(NewWorkshop { catalog, seed })
                    &&& final(self).current_screen() == ClientScreen::GalaxyWorkshop
                    &&& final(self).recovery() is None
                    &&& final(self).log() == old(self).log()
                },
            },
    {
        if facts.kind == SessionKind::Workshop && facts.replacement_blocked {
            self.push_diagnostic(
                ClientDiagnosticCode::RouteUnavailable,
                String::from_str(REPLACEMENT_BLOCKED),
            );
            return Err(ClientRuntimeError::RouteUnavailable);
        }
        match built_in {
            None => {
                self.enter_recovery(
                    ClientDiagnosticCode::Catalog,
                    String::from_str(BUILT_IN_CATALOG_INVALID),
                );
                Err(ClientRuntimeError::BuiltInCatalog)
            },
            Some(catalog) => {
                self.screen = ClientScreen::GalaxyWorkshop;
                self.recovery = None;
                Ok(NewWorkshop { catalog, seed })
            },
        }
    }

    /// Dispatches one main-menu route. Routes are taken only from the main
    /// menu, except Continue from the recovery screen when it is available;
    /// New Workshop and Classic Sector are refused while the resident
    /// Workshop cannot be replaced. New Workshop uses seed zero.
    pub fn select_menu_route<S: WorkshopStore>(
        &mut self,
        store: &mut LoggedStore<S>,
        facts: SessionFacts,
        route: MainMenuRoute,
    ) -> (result: Result<RouteOutcome<H>, ClientRuntimeError>)
        requires
            old(self).wf(),
        ensures
            final(self).wf(),
            final(self).routed_from(old(self), facts, route, result),
            final(store).calls() == if route == MainMenuRoute::Library && old(self).current_screen()
                == ClientScreen::MainMenu && old(self).lane() is Idle {
                old(store).calls().push(StoreCall::Start(StoreRequestView::ListSlots))
            } else {
                old(store).calls()
            },
    {
        let recovery_continue = self.screen == ClientScreen::RecoverableError && route
            == MainMenuRoute::Continue && self.continue_available(facts);
        if self.screen != ClientScreen::MainMenu && !recovery_continue {
            self.push_diagnostic(ClientDiagnosticCode::RouteUnavailable, String::from_str(MENU_NOT_ACTIVE));
            return Err(ClientRuntimeError::RouteUnavailable);
        }
        if (route == MainMenuRoute::NewWorkshop || route == MainMenuRoute::ClassicSector)
            && facts.kind == SessionKind::Workshop && facts.replacement_blocked {
            self.push_diagnostic(
                ClientDiagnosticCode::RouteUnavailable,
                String::from_str(REPLACEMENT_BLOCKED),
            );
            return Err(ClientRuntimeError::RouteUnavailable);
        }
        match route {
            MainMenuRoute::NewWorkshop => Ok(RouteOutcome::StartNewWorkshop { seed: 0 }),
            MainMenuRoute::Continue => self.continue_selected_workshop(facts),
            MainMenuRoute::Library => match self.open_library(store) {
                Ok(()) => Ok(RouteOutcome::Effect(ClientRuntimeEffect::NoEffect)),
                Err(error) => Err(error),
            },
            MainMenuRoute::ClassicSector => {
                self.screen = ClientScreen::ClassicSector;
                self.recovery = None;
                Ok(RouteOutcome::StartClassic)
            },
            MainMenuRoute::Settings => {
                self.settings_return = ClientScreen::MainMenu;
                self.screen = ClientScreen::Settings;
                Ok(RouteOutcome::Effect(ClientRuntimeEffect::NoEffect))
            },
            MainMenuRoute::Credits => {
                self.credits_visible = true;
                Ok(RouteOutcome::Effect(ClientRuntimeEffect::CreditsOpened))
            },
            MainMenuRoute::Quit => Ok(RouteOutcome::Effect(ClientRuntimeEffect::QuitRequested)),
        }
    }

    /// `self` is `before` after the main-menu `route` was chosen.
    pub open spec fn routed_from(
        &self,
        before: &Self,
        facts: SessionFacts,
        route: MainMenuRoute,
        result: Result<RouteOutcome<H>, ClientRuntimeError>,
    ) -> bool {
        if before.current_screen() != ClientScreen::MainMenu && !(before.current_screen()
            == ClientScreen::RecoverableError && route == MainMenuRoute::Continue
            && continue_offered(facts, before.candidate())) {
            &&& result == Err::<RouteOutcome<H>, ClientRuntimeError>(ClientRuntimeError::RouteUnavailable)
            &&& self.refused_from(before, ClientDiagnosticCode::RouteUnavailable, MENU_NOT_ACTIVE@)
        } else if (route == MainMenuRoute::NewWorkshop || route == MainMenuRoute::ClassicSector)
            && blocks_replacement(facts) {
            &&& result == Err::<RouteOutcome<H>, ClientRuntimeError>(ClientRuntimeError::RouteUnavailable)
            &&& self.refused_from(before, ClientDiagnosticCode::RouteUnavailable, REPLACEMENT_BLOCKED@)
        } else {
            match route {
                MainMenuRoute::NewWorkshop => {
                    &&& result == Ok::<RouteOutcome<H>, ClientRuntimeError>(
                        RouteOutcome::StartNewWorkshop { seed: 0 },
                    )
                    &&& *self == *before
                },
                MainMenuRoute::Continue => self.continued_from(before, facts, result),
                MainMenuRoute::Library => {
                    &&& self.opened_library_from(
                        before,
                        match result {
                            Ok(_) => Ok(()),
                            Err(error) => Err(error),
                        },
                    )
                    &&& result is Ok ==> result == Ok::<RouteOutcome<H>, ClientRuntimeError>(
                        RouteOutcome::Effect(ClientRuntimeEffect::NoEffect),
                    )
                },
                MainMenuRoute::ClassicSector => {
                    &&& result == Ok::<RouteOutcome<H>, ClientRuntimeError>(RouteOutcome::StartClassic)
                    &&& self.screen_moved(before)
                    &&& self.current_screen() == ClientScreen::ClassicSector
                    &&& self.recovery() is None
                    &&& self.log() == before.log()
                },
                MainMenuRoute::Settings => {
                    &&& result == Ok::<RouteOutcome<H>, ClientRuntimeError>(
                        RouteOutcome::Effect(ClientRuntimeEffect::NoEffect),
                    )
                    &&& self.current_screen() == ClientScreen::Settings
                    &&& self.settings_return_screen() == ClientScreen::MainMenu
                    &&& self.bootstrap_return_screen() == before.bootstrap_return_screen()
                    &&& self.library_return_screen() == before.library_return_screen()
                    &&& self.credits() == before.credits()
                    &&& self.recovery() == before.recovery()
                    &&& self.same_clients(before)
                    &&& self.lane() == before.lane()
                    &&& self.listed() == before.listed()
                    &&& self.candidate() == before.candidate()
                    &&& self.log() == before.log()
                    &&& self.adapter() == before.adapter()
                },
                MainMenuRoute::Credits => {
                    &&& result == Ok::<RouteOutcome<H>, ClientRuntimeError>(
                        RouteOutcome::Effect(ClientRuntimeEffect::CreditsOpened),
                    )
                    &&& self.credits()
                    &&& self.current_screen() == before.current_screen()
                    &&& self.settings_return_screen() == before.settings_return_screen()
                    &&& self.bootstrap_return_screen() == before.bootstrap_return_screen()
                    &&& self.library_return_screen() == before.library_return_screen()
                    &&& self.recovery() == before.recovery()
                    &&& self.same_clients(before)
                    &&& self.lane() == before.lane()
                    &&& self.listed() == before.listed()
                    &&& self.candidate() == before.candidate()
                    &&& self.log() == before.log()
                    &&& self.adapter() == before.adapter()
                },
                MainMenuRoute::Quit => {
                    &&& result == Ok::<RouteOutcome<H>, ClientRuntimeError>(
                        RouteOutcome::Effect(ClientRuntimeEffect::QuitRequested),
                    )
                    &&& *self == *before
                },
            }
        }
    }
}


impl<C, D, H, T> ClientRuntime<C, D, H, T> {
    /// Nothing but the import machine, the imported catalog, the log, and
    /// possibly the screen and the recovery diagnostic changed.
    pub open spec fn import_moved(&self, before: &Self) -> bool {
        &&& self.settings_return_screen() == before.settings_return_screen()
        &&& self.bootstrap_return_screen() == before.bootstrap_return_screen()
        &&& self.library_return_screen() == before.library_return_screen()
        &&& self.credits() == before.credits()
        &&& self.same_clients(before)
        &&& self.lane() == before.lane()
        &&& self.listed() == before.listed()
        &&& self.candidate() == before.candidate()
        &&& self.adapter() == before.adapter()
    }

    /// Only the log changed, by one refusal of `code` reading `text`.
    pub open spec fn import_refused(&self, before: &Self, code: ClientDiagnosticCode, text: Seq<char>) -> bool {
        &&& self.import_moved(before)
        &&& self.import() == before.import()
        &&& self.imported() == before.imported()
        &&& self.current_screen() == before.current_screen()
        &&& self.recovery() == before.recovery()
        &&& logs(before.log(), self.log(), code, text)
    }

    /// True only while a pack is being stored.
    pub fn catalog_import_active(&self) -> (active: bool)
        ensures
            active == self.import() is Storing,
    {
        matches!(self.catalog_import, CatalogImport::Storing { .. })
    }

    pub fn catalog_import_status(&self) -> (status: CatalogImportStatus)
        ensures
            status == import_status(self.import()),
    {
        match &self.catalog_import {
            CatalogImport::Idle => CatalogImportStatus::Idle,
            CatalogImport::Storing { material, .. } => CatalogImportStatus::Storing {
                expected_hash: material.pack.hash,
                starts_new_workshop: material.start_seed.is_some(),
            },
            CatalogImport::Stored { hash } => CatalogImportStatus::Stored { hash: *hash },
            CatalogImport::StoreFailed { code, material } => CatalogImportStatus::StoreFailed {
                expected_hash: material.pack.hash,
                code: *code,
                starts_new_workshop: material.start_seed.is_some(),
            },
            CatalogImport::StartBlocked { hash, .. } => CatalogImportStatus::StartBlocked {
                hash: *hash,
            },
        }
    }

    pub fn imported_catalog_hash(&self) -> (hash: Option<CatalogHash>)
        ensures
            hash == (match self.imported() {
                Some(imported) => Some(imported.hash),
                None => None,
            }),
    {
        match &self.imported_catalog {
            Some(imported) => Some(imported.hash),
            None => None,
        }
    }

    /// `self` is `before` after storage answered `started` to storing
    /// `material`'s canonical pack.
    pub open spec fn import_started_from(
        &self,
        before: &Self,
        material: ImportMaterial<C>,
        started: Result<StoreJobId, WorkshopStoreError>,
        result: Result<CatalogHash, ClientRuntimeError>,
    ) -> bool {
        &&& self.import_moved(before)
        &&& self.imported() == before.imported()
        &&& self.current_screen() == before.current_screen()
        &&& self.recovery() == before.recovery()
        &&& match started {
            Ok(job) => {
                &&& result == Ok::<CatalogHash, ClientRuntimeError>(material.pack.hash)
                &&& self.import() == CatalogImport::<C>::Storing { job, material }
                &&& self.log() == before.log()
            },
            Err(error) => {
                &&& result == Err::<CatalogHash, ClientRuntimeError>(ClientRuntimeError::Store(error))
                &&& self.import() == CatalogImport::<C>::StoreFailed {
                    code: ClientDiagnosticCode::Store,
                    material,
                }
                &&& logs(before.log(), self.log(), ClientDiagnosticCode::Store, store_error_text(error))
            },
        }
    }

    /// Records what storage answered to storing `material`'s canonical pack:
    /// the import is storing, or the refusal is retained for Retry.
    pub fn record_import_start(
        &mut self,
        material: ImportMaterial<C>,
        started: Result<StoreJobId, WorkshopStoreError>,
    ) -> (result: Result<CatalogHash, ClientRuntimeError>)
        requires
            old(self).wf(),
            !import_unresolved(old(self).import()),
        ensures
            final(self).wf(),
            final(self).import_started_from(old(self), material, started, result),
    {
        match started {
            Ok(job) => {
                let hash = material.pack.hash;
                self.catalog_import = CatalogImport::Storing { job, material };
                Ok(hash)
            },
            Err(error) => {
                self.push_diagnostic(ClientDiagnosticCode::Store, error.duplicate().into_message());
                self.catalog_import = CatalogImport::StoreFailed {
                    code: ClientDiagnosticCode::Store,
                    material,
                };
                Err(ClientRuntimeError::Store(error))
            },
        }
    }

    fn start_catalog_store<S: WorkshopStore>(&mut self, store: &mut LoggedStore<S>, material: ImportMaterial<C>) -> (result:
        Result<CatalogHash, ClientRuntimeError>)
        requires
            old(self).wf(),
            !import_unresolved(old(self).import()),
        ensures
            final(self).wf(),
            exists|started: Result<StoreJobId, WorkshopStoreError>|
                #[trigger] final(self).import_started_from(old(self), material, started, result),
            final(store).calls() == old(store).calls().push(StoreCall::Start(store_pack_request(material))),
    {
        let request = WorkshopStoreRequest::PutPack {
            canonical_pack: copy_bytes(&material.pack.canonical_pack),
        };
        let started = store.start(request);
        let ghost answer = started;
        let ghost retained = material;
        let result = self.record_import_start(material, started);
        assert(self.import_started_from(old(self), retained, answer, result));
        result
    }

    /// The calls storage has seen after an import of `validation` was
    /// asked for from `before`: the pack is stored unless the import is
    /// refused first.
    pub open spec fn import_calls(
        before: &Self,
        facts: SessionFacts,
        validation: PackValidation<C>,
        start_seed: Option<u64>,
        calls: Seq<StoreCall>,
    ) -> Seq<StoreCall> {
        if import_unresolved(before.import()) || (start_seed is Some && blocks_replacement(facts)) {
            calls
        } else {
            match validation {
                PackValidation::Valid(pack) => calls.push(
                    StoreCall::Start(store_pack_request(ImportMaterial { pack, start_seed })),
                ),
                _ => calls,
            }
        }
    }

    /// `self` is `before` after an import of `validation` was asked for,
    /// with `start_seed` when a new Workshop is to start from it.
    pub open spec fn import_begun_from(
        &self,
        before: &Self,
        facts: SessionFacts,
        validation: PackValidation<C>,
        start_seed: Option<u64>,
        result: Result<CatalogHash, ClientRuntimeError>,
    ) -> bool {
        if import_unresolved(before.import()) {
            &&& result == Err::<CatalogHash, ClientRuntimeError>(ClientRuntimeError::CatalogImportActive)
            &&& *self == *before
        } else if start_seed is Some && blocks_replacement(facts) {
            &&& result == Err::<CatalogHash, ClientRuntimeError>(ClientRuntimeError::RouteUnavailable)
            &&& self.import_refused(before, ClientDiagnosticCode::RouteUnavailable, REPLACEMENT_BLOCKED@)
        } else {
            match validation {
                PackValidation::Invalid => {
                    &&& result == Err::<CatalogHash, ClientRuntimeError>(ClientRuntimeError::InvalidCatalog)
                    &&& self.import_refused(before, ClientDiagnosticCode::Catalog, IMPORT_INVALID@)
                },
                PackValidation::NotCanonical => {
                    &&& result == Err::<CatalogHash, ClientRuntimeError>(ClientRuntimeError::InvalidCatalog)
                    &&& self.import_refused(before, ClientDiagnosticCode::Catalog, IMPORT_NOT_CANONICAL@)
                },
                PackValidation::Valid(pack) => exists|started: Result<StoreJobId, WorkshopStoreError>|
                    #[trigger] self.import_started_from(
                        before,
                        ImportMaterial { pack, start_seed },
                        started,
                        result,
                    ),
            }
        }
    }

    /// A fresh import is accepted from an idle or finished machine and
    /// refused while it holds intent only Retry, Cancel or Start When Safe
    /// can resolve. Content that does not validate is a typed rejection that
    /// leaves the machine where it was.
    fn begin_import<S: WorkshopStore>(
        &mut self,
        store: &mut LoggedStore<S>,
        facts: SessionFacts,
        validation: PackValidation<C>,
        start_seed: Option<u64>,
    ) -> (result: Result<CatalogHash, ClientRuntimeError>)
        requires
            old(self).wf(),
        ensures
            final(self).wf(),
            final(self).import_begun_from(old(self), facts, validation, start_seed, result),
            final(store).calls() == Self::import_calls(old(self), facts, validation, start_seed, old(store).calls()),
    {
        let unresolved = matches!(
            self.catalog_import,
            CatalogImport::Storing { .. } | CatalogImport::StoreFailed { .. }
                | CatalogImport::StartBlocked { .. }
        );
        if unresolved {
            return Err(ClientRuntimeError::CatalogImportActive);
        }
        if start_seed.is_some() && facts.kind == SessionKind::Workshop && facts.replacement_blocked {
            self.push_diagnostic(
                ClientDiagnosticCode::RouteUnavailable,
                String::from_str(REPLACEMENT_BLOCKED),
            );
            return Err(ClientRuntimeError::RouteUnavailable);
        }
        match validation {
            PackValidation::Invalid => {
                self.push_diagnostic(ClientDiagnosticCode::Catalog, String::from_str(IMPORT_INVALID));
                Err(ClientRuntimeError::InvalidCatalog)
            },
            PackValidation::NotCanonical => {
                self.push_diagnostic(
                    ClientDiagnosticCode::Catalog,
                    String::from_str(IMPORT_NOT_CANONICAL),
                );
                Err(ClientRuntimeError::InvalidCatalog)
            },
            PackValidation::Valid(pack) => self.start_catalog_store(
                store,
                ImportMaterial { pack, start_seed },
            ),
        }
    }

    /// Stores a validated, canonical catalog pack; the session is left
    /// untouched.
    pub fn begin_catalog_import<S: WorkshopStore>(
        &mut self,
        store: &mut LoggedStore<S>,
        facts: SessionFacts,
        validation: PackValidation<C>,
    ) -> (result: Result<CatalogHash, ClientRuntimeError>)
        requires
            old(self).wf(),
        ensures
            final(self).wf(),
            final(self).import_begun_from(old(self), facts, validation, None, result),
            final(store).calls() == Self::import_calls(old(self), facts, validation, None, old(store).calls()),
    {
        self.begin_import(store, facts, validation, None)
    }

    /// Stores a validated, canonical catalog pack and starts a new Workshop
    /// from it with `seed` once storage confirms the expected hash.
    pub fn begin_new_workshop_from_catalog<S: WorkshopStore>(
        &mut self,
        store: &mut LoggedStore<S>,
        facts: SessionFacts,
        validation: PackValidation<C>,
        seed: u64,
    ) -> (result: Result<CatalogHash, ClientRuntimeError>)
        requires
            old(self).wf(),
        ensures
            final(self).wf(),
            final(self).import_begun_from(old(self), facts, validation, Some(seed), result),
            final(store).calls() == Self::import_calls(old(self), facts, validation, Some(seed), old(store).calls()),
    {
        self.begin_import(store, facts, validation, Some(seed))
    }

    /// Retries a failed import from its retained material, without asking
    /// the user to reselect the file.
    pub fn retry_catalog_import<S: WorkshopStore>(&mut self, store: &mut LoggedStore<S>) -> (result: Result<
        CatalogHash,
        ClientRuntimeError,
    >)
        requires
            old(self).wf(),
        ensures
            final(self).wf(),
            match old(self).import() {
                CatalogImport::StoreFailed { material, .. } => (exists|
                    started: Result<StoreJobId, WorkshopStoreError>,
                | #[trigger] final(self).import_started_from(old(self), material, started, result))
                    && final(store).calls() == old(store).calls().push(
                    StoreCall::Start(store_pack_request(material)),
                ),
                _ => {
                    &&& result == Err::<CatalogHash, ClientRuntimeError>(ClientRuntimeError::RouteUnavailable)
                    &&& final(self).import_refused(
                        old(self),
                        ClientDiagnosticCode::RouteUnavailable,
                        NO_RETRYABLE_IMPORT@,
                    )
                    &&& final(store).calls() == old(store).calls()
                },
            },
    {
        if !matches!(self.catalog_import, CatalogImport::StoreFailed { .. }) {
            self.push_diagnostic(
                ClientDiagnosticCode::RouteUnavailable,
                String::from_str(NO_RETRYABLE_IMPORT),
            );
            return Err(ClientRuntimeError::RouteUnavailable);
        }
        let mut import = CatalogImport::Idle;
        core::mem::swap(&mut import, &mut self.catalog_import);
        match import {
            CatalogImport::StoreFailed { material, .. } => {
                let ghost retained = material;
                let ghost cleared = *self;
                let result = self.start_catalog_store(store, material);
                proof {
                    let started = choose|started: Result<StoreJobId, WorkshopStoreError>|
                        #[trigger] self.import_started_from(&cleared, retained, started, result);
                    assert(self.import_started_from(old(self), retained, started, result));
                }
                result
            },
            _ => {
                proof {
                    assert(false);
                }
                Err(ClientRuntimeError::RouteUnavailable)
            },
        }
    }

    /// Clears pending import intent and nothing else. An in-flight store is
    /// abandoned, which drops the outcome, not the write; a stored pack is
    /// never withdrawn.
    pub fn cancel_catalog_import<S: WorkshopStore>(&mut self, store: &mut LoggedStore<S>) -> (result: Result<
        (),
        ClientRuntimeError,
    >)
        requires
            old(self).wf(),
        ensures
            final(self).wf(),
            final(store).calls() == (match old(self).import() {
                CatalogImport::Storing { job, .. } => old(store).calls().push(StoreCall::Abandon(job)),
                _ => old(store).calls(),
            }),
            import_unresolved(old(self).import()) ==> {
                &&& result == Ok::<(), ClientRuntimeError>(())
                &&& final(self).import() is Idle
                &&& final(self).imported() == old(self).imported()
                &&& final(self).import_moved(old(self))
                &&& final(self).current_screen() == old(self).current_screen()
                &&& final(self).recovery() == old(self).recovery()
                &&& final(self).log() == old(self).log()
            },
            !import_unresolved(old(self).import()) ==> {
                &&& result == Err::<(), ClientRuntimeError>(ClientRuntimeError::RouteUnavailable)
                &&& final(self).import_refused(
                    old(self),
                    ClientDiagnosticCode::RouteUnavailable,
                    NO_CANCELLABLE_IMPORT@,
                )
            },
    {
        match &self.catalog_import {
            CatalogImport::Storing { job, .. } => {
                let job = *job;
                store.abandon(job);
                self.catalog_import = CatalogImport::Idle;
                Ok(())
            },
            CatalogImport::StoreFailed { .. } | CatalogImport::StartBlocked { .. } => {
                self.catalog_import = CatalogImport::Idle;
                Ok(())
            },
            _ => {
                self.push_diagnostic(
                    ClientDiagnosticCode::RouteUnavailable,
                    String::from_str(NO_CANCELLABLE_IMPORT),
                );
                Err(ClientRuntimeError::RouteUnavailable)
            },
        }
    }

    /// Starts the Workshop a blocked import still owes, once the resident
    /// Workshop may be replaced; the stored pack's own catalog is used.
    pub fn start_workshop_from_blocked_import(&mut self, facts: SessionFacts) -> (result: Result<
        NewWorkshop<C>,
        ClientRuntimeError,
    >)
        requires
            old(self).wf(),
        ensures
            final(self).wf(),
            match old(self).import() {
                CatalogImport::StartBlocked { hash, seed, catalog } => if blocks_replacement(facts) {
                    &&& result == Err::<NewWorkshop<C>, ClientRuntimeError>(
                        ClientRuntimeError::RouteUnavailable,
                    )
                    &&& final(self).import_refused(
                        old(self),
                        ClientDiagnosticCode::RouteUnavailable,
                        REPLACEMENT_BLOCKED@,
                    )
                } else {
                    &&& result == Ok::<NewWorkshop<C>, ClientRuntimeError>(NewWorkshop { catalog, seed })
                    &&& final(self).import() == CatalogImport::<C>::Stored { hash }
                    &&& final(self).imported() == old(self).imported()
                    &&& final(self).import_moved(old(self))
                    &&& final(self).current_screen() == ClientScreen::GalaxyWorkshop
                    &&& final(self).recovery() is None
                    &&& final(self).log() == old(self).log()
                },
                _ => {
                    &&& result == Err::<NewWorkshop<C>, ClientRuntimeError>(
                        ClientRuntimeError::RouteUnavailable,
                    )
                    &&& final(self).import_refused(
                        old(self),
                        ClientDiagnosticCode::RouteUnavailable,
                        NO_BLOCKED_IMPORT@,
                    )
                },
            },
    {
        if !matches!(self.catalog_import, CatalogImport::StartBlocked { .. }) {
            self.push_diagnostic(
                ClientDiagnosticCode::RouteUnavailable,
                String::from_str(NO_BLOCKED_IMPORT),
            );
            return Err(ClientRuntimeError::RouteUnavailable);
        }
        if facts.kind == SessionKind::Workshop && facts.replacement_blocked {
            self.push_diagnostic(
                ClientDiagnosticCode::RouteUnavailable,
                String::from_str(REPLACEMENT_BLOCKED),
            );
            return Err(ClientRuntimeError::RouteUnavailable);
        }
        let mut import = CatalogImport::Idle;
        core::mem::swap(&mut import, &mut self.catalog_import);
        match import {
            CatalogImport::StartBlocked { hash, seed, catalog } => {
                self.catalog_import = CatalogImport::Stored { hash };
                self.screen = ClientScreen::GalaxyWorkshop;
                self.recovery = None;
                Ok(NewWorkshop { catalog, seed })
            },
            _ => {
                proof {
                    assert(false);
                }
                Err(ClientRuntimeError::RouteUnavailable)
            },
        }
    }
}


impl<C: Clone, D, H, T> ClientRuntime<C, D, H, T> {
    /// `self` is `before`, whose import was storing, after storage reported
    /// `state`: a failure is retained for Retry; a pack stored under the
    /// expected hash becomes the imported catalog and, when a new Workshop
    /// was asked for, starts it if the resident Workshop may be replaced and
    /// otherwise waits as a blocked start.
    pub open spec fn import_polled_from(
        &self,
        before: &Self,
        facts: SessionFacts,
        state: StoreJobState,
        started: Option<NewWorkshop<C>>,
    ) -> bool {
        &&& self.import_moved(before)
        &&& before.import() matches CatalogImport::Storing { material, .. }
        &&& match state {
            StoreJobState::Pending => {
                &&& started is None
                &&& *self == *before
            },
            StoreJobState::Complete(Ok(WorkshopStoreResult::PackStored { hash })) => if !same_hash(
                hash,
                material.pack.hash,
            ) {
                &&& started is None
                &&& self.import() == CatalogImport::<C>::StoreFailed {
                    code: ClientDiagnosticCode::StoreProtocol,
                    material,
                }
                &&& self.imported() == before.imported()
                &&& self.current_screen() == before.current_screen()
                &&& self.recovery() == before.recovery()
                &&& logs(before.log(), self.log(), ClientDiagnosticCode::StoreProtocol, IMPORT_WRONG_HASH@)
            } else {
                &&& self.imported() matches Some(imported) && imported.hash == hash && cloned(
                    material.pack.catalog,
                    imported.catalog,
                )
                &&& match material.start_seed {
                    None => {
                        &&& started is None
                        &&& self.import() == CatalogImport::<C>::Stored { hash }
                        &&& self.current_screen() == before.current_screen()
                        &&& self.recovery() == before.recovery()
                        &&& self.log() == before.log()
                    },
                    Some(seed) => if blocks_replacement(facts) {
                        &&& started is None
                        &&& self.import() == CatalogImport::<C>::StartBlocked {
                            hash,
                            seed,
                            catalog: material.pack.catalog,
                        }
                        &&& self.current_screen() == before.current_screen()
                        &&& self.recovery() == before.recovery()
                        &&& logs_twice(
                            before.log(),
                            self.log(),
                            ClientDiagnosticCode::RouteUnavailable,
                            REPLACEMENT_BLOCKED@,
                            IMPORT_START_BLOCKED@,
                        )
                    } else {
                        &&& started == Some(NewWorkshop { catalog: material.pack.catalog, seed })
                        &&& self.import() == CatalogImport::<C>::Stored { hash }
                        &&& self.current_screen() == ClientScreen::GalaxyWorkshop
                        &&& self.recovery() is None
                        &&& self.log() == before.log()
                    },
                }
            },
            _ => {
                &&& started is None
                &&& self.imported() == before.imported()
                &&& self.current_screen() == before.current_screen()
                &&& self.recovery() == before.recovery()
                &&& match state {
                    StoreJobState::Complete(Err(error)) => {
                        &&& self.import() == CatalogImport::<C>::StoreFailed {
                            code: ClientDiagnosticCode::Store,
                            material,
                        }
                        &&& logs(
                            before.log(),
                            self.log(),
                            ClientDiagnosticCode::Store,
                            store_error_text(error),
                        )
                    },
                    StoreJobState::Unknown => {
                        &&& self.import() == CatalogImport::<C>::StoreFailed {
                            code: ClientDiagnosticCode::StoreProtocol,
                            material,
                        }
                        &&& logs(
                            before.log(),
                            self.log(),
                            ClientDiagnosticCode::StoreProtocol,
                            FORGOT_IMPORT_JOB@,
                        )
                    },
                    _ => {
                        &&& self.import() == CatalogImport::<C>::StoreFailed {
                            code: ClientDiagnosticCode::StoreProtocol,
                            material,
                        }
                        &&& logs(
                            before.log(),
                            self.log(),
                            ClientDiagnosticCode::StoreProtocol,
                            IMPORT_UNEXPECTED@,
                        )
                    },
                }
            },
        }
    }

    /// Takes storage's report `state` for the pack being stored, and hands
    /// back the new Workshop to build when the import starts one.
    pub fn import_polled(&mut self, facts: SessionFacts, state: StoreJobState) -> (started: Option<
        NewWorkshop<C>,
    >)
        requires
            old(self).wf(),
            old(self).import() is Storing,
        ensures
            final(self).wf(),
            final(self).import_polled_from(old(self), facts, state, started),
    {
        if let StoreJobState::Pending = state {
            return None;
        }
        let mut import = CatalogImport::Idle;
        core::mem::swap(&mut import, &mut self.catalog_import);
        let material = match import {
            CatalogImport::Storing { material, .. } => material,
            _ => {
                proof {
                    assert(false);
                }
                return None;
            },
        };
        match state {
            StoreJobState::Complete(Ok(WorkshopStoreResult::PackStored { hash })) => {
                if !hash.matches(&material.pack.hash) {
                    self.push_diagnostic(
                        ClientDiagnosticCode::StoreProtocol,
                        String::from_str(IMPORT_WRONG_HASH),
                    );
                    self.catalog_import = CatalogImport::StoreFailed {
                        code: ClientDiagnosticCode::StoreProtocol,
                        material,
                    };
                    return None;
                }
                let ImportMaterial { pack, start_seed } = material;
                let ValidatedPack { catalog, .. } = pack;
                let kept = catalog.clone();
                self.imported_catalog = Some(ImportedCatalog { catalog: kept, hash });
                match start_seed {
                    None => {
                        self.catalog_import = CatalogImport::Stored { hash };
                        None
                    },
                    Some(seed) => {
                        if facts.kind == SessionKind::Workshop && facts.replacement_blocked {
                            self.push_diagnostic(
                                ClientDiagnosticCode::RouteUnavailable,
                                String::from_str(REPLACEMENT_BLOCKED),
                            );
                            let ghost middle = self.log();
                            self.push_diagnostic(
                                ClientDiagnosticCode::RouteUnavailable,
                                String::from_str(IMPORT_START_BLOCKED),
                            );
                            assert(logs(old(self).log(), middle, ClientDiagnosticCode::RouteUnavailable, REPLACEMENT_BLOCKED@));
                            self.catalog_import = CatalogImport::StartBlocked { hash, seed, catalog };
                            None
                        } else {
                            self.catalog_import = CatalogImport::Stored { hash };
                            self.screen = ClientScreen::GalaxyWorkshop;
                            self.recovery = None;
                            Some(NewWorkshop { catalog, seed })
                        }
                    },
                }
            },
            StoreJobState::Complete(Err(error)) => {
                self.push_diagnostic(ClientDiagnosticCode::Store, error.into_message());
                self.catalog_import = CatalogImport::StoreFailed {
                    code: ClientDiagnosticCode::Store,
                    material,
                };
                None
            },
            StoreJobState::Unknown => {
                self.push_diagnostic(
                    ClientDiagnosticCode::StoreProtocol,
                    String::from_str(FORGOT_IMPORT_JOB),
                );
                self.catalog_import = CatalogImport::StoreFailed {
                    code: ClientDiagnosticCode::StoreProtocol,
                    material,
                };
                None
            },
            _ => {
                self.push_diagnostic(
                    ClientDiagnosticCode::StoreProtocol,
                    String::from_str(IMPORT_UNEXPECTED),
                );
                self.catalog_import = CatalogImport::StoreFailed {
                    code: ClientDiagnosticCode::StoreProtocol,
                    material,
                };
                None
            },
        }
    }

    /// Polls the pack being stored, if any. Every other import state is
    /// terminal or waits on the user.
    pub fn poll_catalog_import<S: WorkshopStore>(&mut self, store: &mut LoggedStore<S>, facts: SessionFacts) -> (started:
        Option<NewWorkshop<C>>)
        requires
            old(self).wf(),
        ensures
            final(self).wf(),
            !(old(self).import() is Storing) ==> started is None && *final(self) == *old(self)
                && final(store).calls() == old(store).calls(),
            old(self).import() is Storing ==> exists|state: StoreJobState|
                #[trigger] final(self).import_polled_from(old(self), facts, state, started),
            old(self).import() matches CatalogImport::Storing { job, .. } ==> final(store).calls()
                == old(store).calls().push(StoreCall::Poll(job)),
    {
        let job = match &self.catalog_import {
            CatalogImport::Storing { job, .. } => *job,
            _ => return None,
        };
        let state = store.poll(job);
        let ghost reported = state;
        let started = self.import_polled(facts, state);
        assert(self.import_polled_from(old(self), facts, reported, started));
        started
    }

    /// Starts a new Workshop from the most recently stored imported catalog.
    pub fn start_new_workshop_from_imported_catalog(&mut self, facts: SessionFacts, seed: u64) -> (result:
        Result<NewWorkshop<C>, ClientRuntimeError>)
        requires
            old(self).wf(),
        ensures
            final(self).wf(),
            final(self).screen_moved(old(self)),
            blocks_replacement(facts) ==> {
                &&& result == Err::<NewWorkshop<C>, ClientRuntimeError>(ClientRuntimeError::RouteUnavailable)
                &&& final(self).refused_from(
                    old(self),
                    ClientDiagnosticCode::RouteUnavailable,
                    REPLACEMENT_BLOCKED@,
                )
            },
            !blocks_replacement(facts) && old(self).imported() is None ==> {
                &&& result == Err::<NewWorkshop<C>, ClientRuntimeError>(
                    ClientRuntimeError::ImportedCatalogUnavailable,
                )
                &&& *final(self) == *old(self)
            },
            !blocks_replacement(facts) && old(self).imported() is Some ==> {
                &&& result matches Ok(workshop) && workshop.seed == seed && cloned(
                    old(self).imported()->0.catalog,
                    workshop.catalog,
                )
                &&& final(self).current_screen() == ClientScreen::GalaxyWorkshop
                &&& final(self).recovery() is None
                &&& final(self).log() == old(self).log()
            },
    {
        if facts.kind == SessionKind::Workshop && facts.replacement_blocked {
            self.push_diagnostic(
                ClientDiagnosticCode::RouteUnavailable,
                String::from_str(REPLACEMENT_BLOCKED),
            );
            return Err(ClientRuntimeError::RouteUnavailable);
        }
        let catalog = match &self.imported_catalog {
            Some(imported) => imported.catalog.clone(),
            None => return Err(ClientRuntimeError::ImportedCatalogUnavailable),
        };
        self.screen = ClientScreen::GalaxyWorkshop;
        self.recovery = None;
        Ok(NewWorkshop { catalog, seed })
    }
}


/// The diagnostic log keeps the newest entries: recording one more into a
/// log within the bound stays within it, keeps every earlier entry while
/// there is room, and otherwise drops only the oldest.
pub proof fn lemma_log_keeps_newest(
    before: Seq<ClientDiagnostic>,
    after: Seq<ClientDiagnostic>,
    code: ClientDiagnosticCode,
    text: Seq<char>,
)
    requires
        before.len() <= MAX_CLIENT_DIAGNOSTICS,
        logs(before, after, code, text),
    ensures
        after.len() <= MAX_CLIENT_DIAGNOSTICS,
        before.len() < MAX_CLIENT_DIAGNOSTICS ==> after.len() == before.len() + 1 && after.subrange(
            0,
            before.len() as int,
        ) == before,
        before.len() == MAX_CLIENT_DIAGNOSTICS ==> after.len() == before.len() && after.subrange(
            0,
            before.len() - 1,
        ) == before.subrange(1, before.len() as int),
{
    assert(after =~= after.drop_last().push(after.last()));
    if before.len() < MAX_CLIENT_DIAGNOSTICS {
        assert(after.subrange(0, before.len() as int) =~= before);
    } else {
        assert(after.subrange(0, before.len() - 1) =~= before.subrange(1, before.len() as int));
    }
}

/// The shell's log never grows past its bound, and the row client is busy
/// exactly while the lane holds a row open, so no open can be stranded and
/// none can start over another; the row the client works on is the row the
/// lane shows as opening.
pub proof fn lemma_shell_invariant<C, D, H, T>(runtime: ClientRuntime<C, D, H, T>)
    requires
        runtime.wf(),
    ensures
        runtime.log().len() <= MAX_CLIENT_DIAGNOSTICS,
        runtime.row_client().phase() is Idle <==> !(runtime.lane() is Opening),
        runtime.lane() matches LibrarySlots::Opening { slot, .. } ==> held_slot(
            runtime.row_client().phase(),
        ) == Some(slot),
{
}

} // verus!
