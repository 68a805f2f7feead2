//! The product shell's public vocabulary: screens, main-menu routes,
//! diagnostics, the Library's slot-request facts and prepared exports.

use vstd::prelude::*;

use crate::store::{CatalogHash, LoadedSlot, SaveGeneration, SlotId, WorkshopStoreError,
    WorkshopStoreRequest};
use crate::transfer::{HandoffOutcome, SuggestedName, TransferFailureCode, TransferKind,
    archive_name};
use crate::library::SlotIntent;

verus! {

/// The only top-level screens backed by V1 capability.
#[derive(Clone, Copy, Debug, PartialEq, Eq, Structural)]
pub enum ClientScreen {
    MainMenu,
    ClassicSector,
    GalaxyWorkshop,
    Settings,
    /// Workshop slot management and portable transfer, reached laterally.
    Library,
    Loading,
    RecoverableError,
}

/// The one selected product session. Classic and Workshop remain siblings
/// with independent rules; the Workshop session is held as it is.
#[derive(Debug)]
pub enum ActiveSession<W> {
    NoSession,
    Classic,
    Workshop(W),
}

/// Main-menu routes with working V1 behavior.
#[derive(Clone, Copy, Debug, PartialEq, Eq, Structural)]
pub enum MainMenuRoute {
    NewWorkshop,
    Continue,
    /// A lateral route: it replaces nothing.
    Library,
    ClassicSector,
    Settings,
    Credits,
    Quit,
}

#[derive(Clone, Copy, Debug, PartialEq, Eq, Structural)]
pub struct MainMenuCapability {
    pub route: MainMenuRoute,
    pub enabled: bool,
}

#[derive(Clone, Copy, Debug, PartialEq, Eq, Structural)]
pub enum ClientRuntimeEffect {
    /// The route changed nothing beyond the screen.
    NoEffect,
    CreditsOpened,
    QuitRequested,
}

#[derive(Clone, Copy, Debug, PartialEq, Eq, Structural)]
pub enum ClientDiagnosticCode {
    Store,
    StoreProtocol,
    Catalog,
    Archive,
    ContinueUnavailable,
    WorkshopInactive,
    RouteUnavailable,
    /// A Library action named the slot the resident Workshop occupies.
    ResidentSlot,
    /// A Library open found the row changed under it.
    StaleSave,
    /// A portable transfer failed or the adapter broke the protocol.
    Transfer,
}

#[derive(Debug, PartialEq, Eq)]
pub struct ClientDiagnostic {
    pub code: ClientDiagnosticCode,
    pub message: String,
}

/// Whether `diagnostic` has `code` and reads `text`.
pub open spec fn diagnostic_is(
    diagnostic: ClientDiagnostic,
    code: ClientDiagnosticCode,
    text: Seq<char>,
) -> bool {
    diagnostic.code == code && diagnostic.message@ == text
}

/// The fixed, safe sentence a diagnostic of `code` is shown with.
pub open spec fn safe_diagnostic_text(code: ClientDiagnosticCode) -> Seq<char> {
    match code {
        ClientDiagnosticCode::Store => "Workshop storage is temporarily unavailable."@,
        ClientDiagnosticCode::StoreProtocol =>
            "Workshop storage returned an unexpected recoverable result."@,
        ClientDiagnosticCode::Catalog => "The built-in Workshop catalog did not validate."@,
        ClientDiagnosticCode::Archive => "The selected Workshop archive did not validate."@,
        ClientDiagnosticCode::ContinueUnavailable =>
            "No explicitly selected valid Workshop save is available."@,
        ClientDiagnosticCode::WorkshopInactive => "Galaxy Workshop is not currently active."@,
        ClientDiagnosticCode::ResidentSlot =>
            "Close the Workshop using that slot before archiving it."@,
        ClientDiagnosticCode::RouteUnavailable =>
            "That product route is unavailable from the current screen."@,
        ClientDiagnosticCode::StaleSave =>
            "That save changed before it opened. Refresh the list and try again."@,
        ClientDiagnosticCode::Transfer => "The portable copy could not be handed off."@,
    }
}

/// The user-facing sentence for a diagnostic code. It never carries the
/// diagnostic's own message, which may hold storage or platform detail.
pub fn safe_client_diagnostic(code: ClientDiagnosticCode) -> (text: &'static str)
    ensures
        text@ == safe_diagnostic_text(code),
{
    match code {
        ClientDiagnosticCode::Store => "Workshop storage is temporarily unavailable.",
        ClientDiagnosticCode::StoreProtocol =>
            "Workshop storage returned an unexpected recoverable result.",
        ClientDiagnosticCode::Catalog => "The built-in Workshop catalog did not validate.",
        ClientDiagnosticCode::Archive => "The selected Workshop archive did not validate.",
        ClientDiagnosticCode::ContinueUnavailable =>
            "No explicitly selected valid Workshop save is available.",
        ClientDiagnosticCode::WorkshopInactive => "Galaxy Workshop is not currently active.",
        ClientDiagnosticCode::ResidentSlot =>
            "Close the Workshop using that slot before archiving it.",
        ClientDiagnosticCode::RouteUnavailable =>
            "That product route is unavailable from the current screen.",
        ClientDiagnosticCode::StaleSave =>
            "That save changed before it opened. Refresh the list and try again.",
        ClientDiagnosticCode::Transfer => "The portable copy could not be handed off.",
    }
}

/// The public snapshot of the catalog-import state machine.
#[derive(Clone, Copy, Debug, PartialEq, Eq)]
pub enum CatalogImportStatus {
    Idle,
    Storing { expected_hash: CatalogHash, starts_new_workshop: bool },
    Stored { hash: CatalogHash },
    /// The store rejected the pack; offers Retry and Cancel.
    StoreFailed { expected_hash: CatalogHash, code: ClientDiagnosticCode, starts_new_workshop: bool },
    /// The pack is stored but the resident Workshop was not replaceable.
    StartBlocked { hash: CatalogHash },
}

/// Which Library slot request a machine state names.
#[derive(Clone, Copy, Debug, PartialEq, Eq, Structural)]
pub enum SlotRequestKind {
    List,
    Rename,
    Archive,
    Unarchive,
    /// An exact-catalog open of one row.
    Open,
    /// The same validation, selecting the row for Continue without opening it.
    UseForContinue,
    /// The same validation as a pure read, preparing portable bytes.
    Export,
    /// Stage two of row Export: prepared bytes are with the transfer adapter.
    HandOff,
}

/// Where prepared export bytes came from, so the label cannot claim more than
/// the bytes are.
#[derive(Clone, Copy, Debug, PartialEq, Eq)]
pub enum ExportSource {
    /// A row's stored head, exactly as listed.
    Head { slot: SlotId, generation: SaveGeneration },
    /// A row's retained predecessor, because the head did not validate.
    RecoveredPredecessor { slot: SlotId, generation: SaveGeneration },
    /// The open Workshop's in-memory state.
    ActiveWorkshop { continue_ready: bool },
    /// The open Workshop's exact catalog.
    ActivePack { hash: CatalogHash },
}

/// The origin label of `source`.
pub open spec fn export_label(source: ExportSource) -> Seq<char> {
    match source {
        ExportSource::Head { .. } => "Latest save"@,
        ExportSource::RecoveredPredecessor { .. } =>
            "Recovered predecessor; stored head and Continue unchanged"@,
        ExportSource::ActiveWorkshop { continue_ready } => if continue_ready {
            "Open Workshop, as saved for Continue"@
        } else {
            "Portable export; Workshop not saved for Continue"@
        },
        ExportSource::ActivePack { .. } => "Content pack of the open Workshop"@,
    }
}

/// Whether a status line about `source` must carry its label to the end.
pub open spec fn export_needs_qualifier(source: ExportSource) -> bool {
    match source {
        ExportSource::RecoveredPredecessor { .. } => true,
        ExportSource::ActiveWorkshop { continue_ready } => !continue_ready,
        _ => false,
    }
}

/// The row an export's bytes were read from, for a row export.
pub open spec fn export_slot(source: ExportSource) -> Option<SlotId> {
    match source {
        ExportSource::Head { slot, .. } => Some(slot),
        ExportSource::RecoveredPredecessor { slot, .. } => Some(slot),
        _ => None,
    }
}

impl ExportSource {
    /// The origin's label.
    pub fn label(self) -> (label: &'static str)
        ensures
            label@ == export_label(self),
    {
        match self {
            ExportSource::Head { .. } => "Latest save",
            ExportSource::RecoveredPredecessor { .. } =>
                "Recovered predecessor; stored head and Continue unchanged",
            ExportSource::ActiveWorkshop { continue_ready } => if continue_ready {
                "Open Workshop, as saved for Continue"
            } else {
                "Portable export; Workshop not saved for Continue"
            },
            ExportSource::ActivePack { .. } => "Content pack of the open Workshop",
        }
    }

    /// The label a status line must carry to the end, when the bytes are
    /// something other than what a plain "portable copy" suggests.
    pub fn qualifier(self) -> (qualifier: Option<&'static str>)
        ensures
            qualifier is Some <==> export_needs_qualifier(self),
            qualifier matches Some(text) ==> text@ == export_label(self),
    {
        match self {
            ExportSource::RecoveredPredecessor { .. } => Some(self.label()),
            ExportSource::ActiveWorkshop { continue_ready } => if continue_ready {
                None
            } else {
                Some(self.label())
            },
            ExportSource::Head { .. } | ExportSource::ActivePack { .. } => None,
        }
    }

    /// The row the bytes were read from, for a row export.
    pub fn slot(self) -> (slot: Option<SlotId>)
        ensures
            slot == export_slot(self),
    {
        match self {
            ExportSource::Head { slot, .. } | ExportSource::RecoveredPredecessor { slot, .. } =>
                Some(slot),
            ExportSource::ActiveWorkshop { .. } | ExportSource::ActivePack { .. } => None,
        }
    }

    /// The stored generation the bytes were read from, for a row export.
    pub fn generation(self) -> (generation: Option<SaveGeneration>)
        ensures
            generation == (match self {
                ExportSource::Head { generation, .. } => Some(generation),
                ExportSource::RecoveredPredecessor { generation, .. } => Some(generation),
                _ => None,
            }),
    {
        match self {
            ExportSource::Head { generation, .. }
            | ExportSource::RecoveredPredecessor { generation, .. } => Some(generation),
            ExportSource::ActiveWorkshop { .. } | ExportSource::ActivePack { .. } => None,
        }
    }

    /// What the bytes are.
    pub fn kind(self) -> (kind: TransferKind)
        ensures
            kind == (if self is ActivePack {
                TransferKind::ContentPack
            } else {
                TransferKind::WorkshopArchive
            }),
    {
        match self {
            ExportSource::ActivePack { .. } => TransferKind::ContentPack,
            ExportSource::Head { .. }
            | ExportSource::RecoveredPredecessor { .. }
            | ExportSource::ActiveWorkshop { .. } => TransferKind::WorkshopArchive,
        }
    }
}

/// Validated export bytes waiting for the platform handoff.
#[derive(Debug, PartialEq, Eq)]
pub struct PreparedExport {
    pub source: ExportSource,
    /// The sanitized name the handoff suggests.
    pub suggested_name: SuggestedName,
    pub bytes: Vec<u8>,
}

impl PreparedExport {
    pub fn kind(&self) -> (kind: TransferKind)
        ensures
            kind == (if self.source is ActivePack {
                TransferKind::ContentPack
            } else {
                TransferKind::WorkshopArchive
            }),
    {
        self.source.kind()
    }
}

/// The bounded typed facts the Library presents for its slot-request machine.
#[derive(Clone, Copy, Debug, PartialEq, Eq)]
pub enum LibrarySlotsStatus {
    /// Nothing in flight and nothing waiting on the user.
    Idle,
    /// A request is in flight. Offers Cancel.
    Working { kind: SlotRequestKind, slot: Option<SlotId> },
    /// The store rejected the request; offers Retry and Cancel.
    Failed { kind: SlotRequestKind, slot: Option<SlotId>, code: ClientDiagnosticCode },
    /// A validated open is waiting for the user.
    Held { slot: SlotId, recovered: bool },
    /// A row export found an invalid head and a valid predecessor.
    ExportRecoveryOffered { slot: SlotId },
    /// Row-export bytes are validated and waiting for the platform handoff.
    ExportReady { source: ExportSource },
    /// The handoff failed or was refused; the prepared bytes are still held.
    HandOffFailed { source: ExportSource, code: TransferFailureCode },
    /// The adapter reported the copy handed off.
    ExportHandedOff { source: ExportSource, outcome: HandoffOutcome },
}

/// Why the runtime refused a request.
#[derive(Debug, PartialEq, Eq)]
pub enum ClientRuntimeError {
    BootstrapActive,
    CatalogImportActive,
    LibraryRequestActive,
    ResidentSlot,
    ContinueUnavailable,
    WorkshopInactive,
    TransferUnavailable,
    Transfer(TransferFailureCode),
    RouteUnavailable,
    BuiltInCatalog,
    InvalidCatalog,
    ImportedCatalogUnavailable,
    Store(WorkshopStoreError),
}

/// What an exact-catalog open of one row is for.
#[derive(Clone, Copy, Debug, PartialEq, Eq, Structural)]
pub enum OpenPurpose {
    /// Library Open: validate, claim Continue, then replace the session.
    Install,
    /// Use for Continue: validate and claim Continue; install nothing.
    SelectOnly,
    /// Row Export: validate as a pure read and keep the bytes.
    Export,
}

/// The request kind an open for `purpose` is shown as.
pub open spec fn purpose_kind(purpose: OpenPurpose) -> SlotRequestKind {
    match purpose {
        OpenPurpose::Install => SlotRequestKind::Open,
        OpenPurpose::SelectOnly => SlotRequestKind::UseForContinue,
        OpenPurpose::Export => SlotRequestKind::Export,
    }
}

impl OpenPurpose {
    pub fn kind(self) -> (kind: SlotRequestKind)
        ensures
            kind == purpose_kind(self),
    {
        match self {
            OpenPurpose::Install => SlotRequestKind::Open,
            OpenPurpose::SelectOnly => SlotRequestKind::UseForContinue,
            OpenPurpose::Export => SlotRequestKind::Export,
        }
    }

    pub fn intent(self) -> (intent: SlotIntent)
        ensures
            intent == (if self == OpenPurpose::Export {
                SlotIntent::Export
            } else {
                SlotIntent::Open
            }),
    {
        match self {
            OpenPurpose::Install | OpenPurpose::SelectOnly => SlotIntent::Open,
            OpenPurpose::Export => SlotIntent::Export,
        }
    }
}

/// Whether `export` holds the bytes of `loaded`, labelled by where they came
/// from and named after the slot.
pub open spec fn exports_load(export: PreparedExport, loaded: LoadedSlot) -> bool {
    &&& export.source == (if loaded.recovered_from_previous {
        ExportSource::RecoveredPredecessor { slot: loaded.slot, generation: loaded.generation }
    } else {
        ExportSource::Head { slot: loaded.slot, generation: loaded.generation }
    })
    &&& export.suggested_name@ == archive_name(loaded.name@)
    &&& export.bytes == loaded.archive
}

/// Row-export bytes from a validated load. The source follows the load, so a
/// predecessor can never be labelled as the head.
pub fn prepared_export(loaded: LoadedSlot) -> (export: PreparedExport)
    ensures
        exports_load(export, loaded),
{
    let slot = loaded.slot;
    let generation = loaded.generation;
    let suggested_name = SuggestedName::workshop_archive(&loaded.name);
    PreparedExport {
        source: if loaded.recovered_from_previous {
            ExportSource::RecoveredPredecessor { slot, generation }
        } else {
            ExportSource::Head { slot, generation }
        },
        suggested_name,
        bytes: loaded.archive,
    }
}

/// The kind a slot request is shown as: every request the Library does not
/// mutate a slot with is shown as a listing.
pub open spec fn request_kind(request: WorkshopStoreRequest) -> SlotRequestKind {
    match request {
        WorkshopStoreRequest::RenameSlot { .. } => SlotRequestKind::Rename,
        WorkshopStoreRequest::ArchiveSlot { .. } => SlotRequestKind::Archive,
        WorkshopStoreRequest::UnarchiveSlot { .. } => SlotRequestKind::Unarchive,
        _ => SlotRequestKind::List,
    }
}

/// The slot a mutating slot request names.
pub open spec fn request_slot(request: WorkshopStoreRequest) -> Option<SlotId> {
    match request {
        WorkshopStoreRequest::RenameSlot { slot, .. } => Some(slot),
        WorkshopStoreRequest::ArchiveSlot { slot } => Some(slot),
        WorkshopStoreRequest::UnarchiveSlot { slot } => Some(slot),
        _ => None,
    }
}

/// The typed identity of a slot request, for the public status only.
pub fn slot_request_kind(request: &WorkshopStoreRequest) -> (kind: SlotRequestKind)
    ensures
        kind == request_kind(*request),
{
    match request {
        WorkshopStoreRequest::RenameSlot { .. } => SlotRequestKind::Rename,
        WorkshopStoreRequest::ArchiveSlot { .. } => SlotRequestKind::Archive,
        WorkshopStoreRequest::UnarchiveSlot { .. } => SlotRequestKind::Unarchive,
        _ => SlotRequestKind::List,
    }
}

/// The slot a request names, for the mutating slot requests.
pub fn slot_request_slot(request: &WorkshopStoreRequest) -> (slot: Option<SlotId>)
    ensures
        slot == request_slot(*request),
{
    match request {
        WorkshopStoreRequest::RenameSlot { slot, .. }
        | WorkshopStoreRequest::ArchiveSlot { slot }
        | WorkshopStoreRequest::UnarchiveSlot { slot } => Some(*slot),
        _ => None,
    }
}

/// Whether a request advances a slot's observable state, and therefore
/// invalidates any generation a caller is holding from an earlier list.
pub fn slot_request_mutates(request: &WorkshopStoreRequest) -> (mutates: bool)
    ensures
        mutates == !(request is ListSlots),
{
    !matches!(request, WorkshopStoreRequest::ListSlots)
}

} // verus!
