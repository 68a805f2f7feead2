//! The Library's confirmation dialog: rename, archive and unarchive each
//! ask first. A rename starts from the save's current name; only the
//! request that is open can be submitted, and a refusal keeps the dialog
//! open so the player sees why nothing happened.

use vstd::prelude::*;

use crate::store::{SaveGeneration, SlotId, SlotList, SlotName, SlotSummary, valid_slot_name};

verus! {

#[derive(Clone, Copy, Debug, PartialEq, Eq, Structural)]
pub enum LibraryConfirmationKind {
    Rename,
    Archive,
    Unarchive,
}

/// The change a dialog asks about, and the save it changes.
#[derive(Clone, Copy, Debug, PartialEq, Eq, Structural)]
pub struct LibraryConfirmationRequest {
    pub kind: LibraryConfirmationKind,
    pub slot: SlotId,
}

/// What submitting a dialog leaves the caller to do.
#[derive(Clone, Debug, PartialEq, Eq)]
pub enum ConfirmationSubmission {
    /// The request is not the one open: nothing happens.
    Stale,
    /// The rename draft is not a valid name: the dialog stays open.
    Refused,
    /// Rename the save; report the answer with [`LibraryDialog::submitted`].
    Rename { slot: SlotId, name: SlotName },
    /// Archive the save; report the answer with [`LibraryDialog::submitted`].
    Archive { slot: SlotId },
    /// Unarchive the save; report the answer with [`LibraryDialog::submitted`].
    Unarchive { slot: SlotId },
}

/// The dialog as the contracts speak of it.
pub struct DialogView {
    pub open: Option<LibraryConfirmationRequest>,
    pub draft: Seq<char>,
    pub edited: bool,
}

/// `i` is the first row of `rows` for `slot`.
pub open spec fn is_first_row(rows: Seq<SlotSummary>, slot: SlotId, i: int) -> bool {
    &&& 0 <= i < rows.len()
    &&& rows[i].id == slot
    &&& forall|j: int| 0 <= j < i ==> rows[j].id != slot
}

/// The name the listing shows for `slot`, from its first row.
pub open spec fn listed_name(listing: Option<SlotList>, slot: SlotId) -> Option<Seq<char>> {
    match listing {
        Some(list) => if exists|i: int| is_first_row(list.slots@, slot, i) {
            Some(list.slots@[choose|i: int| is_first_row(list.slots@, slot, i)].name@)
        } else {
            None
        },
        None => None,
    }
}

/// The dialog after `request` was asked to open: nothing changes while
/// another is open, or for a rename of a save the listing does not show;
/// a rename starts from the save's listed name, unedited.
pub open spec fn opened(v: DialogView, request: LibraryConfirmationRequest, listing: Option<SlotList>) -> DialogView {
    if v.open is Some {
        v
    } else if request.kind == LibraryConfirmationKind::Rename {
        match listed_name(listing, request.slot) {
            Some(name) => DialogView { open: Some(request), draft: name, edited: false },
            None => v,
        }
    } else {
        DialogView { open: Some(request), ..v }
    }
}

/// The closed dialog.
pub open spec fn closed() -> DialogView {
    DialogView { open: None, draft: Seq::empty(), edited: false }
}

pub struct LibraryDialog {
    open: Option<LibraryConfirmationRequest>,
    rename_draft: String,
    rename_edited: bool,
}

impl View for LibraryDialog {
    type V = DialogView;

    closed spec fn view(&self) -> DialogView {
        DialogView { open: self.open, draft: self.rename_draft@, edited: self.rename_edited }
    }
}

/// The first row of `rows` for `slot`.
fn find_row(rows: &Vec<SlotSummary>, slot: SlotId) -> (row: Option<usize>)
    ensures
        match row {
            Some(i) => is_first_row(rows@, slot, i as int) && (choose|k: int|
                is_first_row(rows@, slot, k)) == i as int,
            None => !exists|i: int| is_first_row(rows@, slot, i),
        },
{
    let mut i: usize = 0;
    while i < rows.len()
        invariant
            i <= rows.len(),
            forall|j: int| 0 <= j < i ==> rows@[j].id != slot,
        decreases rows.len() - i,
    {
        if rows[i].id == slot {
            proof {
                assert(is_first_row(rows@, slot, i as int));
                let c = choose|k: int| is_first_row(rows@, slot, k);
                assert(is_first_row(rows@, slot, c));
                if c < i {
                    assert(rows@[c].id != slot);
                } else if c > i {
                    assert(rows@[i as int].id != slot);
                }
            }
            return Some(i);
        }
        i = i + 1;
    }
    proof {
        assert forall|k: int| !is_first_row(rows@, slot, k) by {
            if 0 <= k < rows.len() {
                assert(rows@[k].id != slot);
            }
        }
    }
    None
}

impl LibraryDialog {
    pub fn new() -> (dialog: Self)
        ensures
            dialog@ == closed(),
    {
        LibraryDialog { open: None, rename_draft: String::new(), rename_edited: false }
    }

    /// The request the dialog asks about, if one is open.
    pub fn confirmation(&self) -> (request: Option<LibraryConfirmationRequest>)
        ensures
            request == self@.open,
    {
        self.open
    }

    pub fn rename_draft(&self) -> (draft: &str)
        ensures
            draft@ == self@.draft,
    {
        self.rename_draft.as_str()
    }

    /// Whether the player has typed in the rename field since it opened.
    pub fn rename_edited(&self) -> (edited: bool)
        ensures
            edited == self@.edited,
    {
        self.rename_edited
    }

    /// Opens the dialog for `request`; `listing` is the Library's current
    /// slot listing.
    pub fn open(&mut self, request: LibraryConfirmationRequest, listing: &Option<SlotList>)
        ensures
            final(self)@ == opened(old(self)@, request, *listing),
    {
        if self.open.is_some() {
            return;
        }
        if request.kind == LibraryConfirmationKind::Rename {
            let list = match listing {
                Some(list) => list,
                None => return,
            };
            let row = match find_row(&list.slots, request.slot) {
                Some(row) => row,
                None => return,
            };
            self.rename_draft = list.slots[row].name.as_str().to_string();
            self.rename_edited = false;
        }
        self.open = Some(request);
    }

    /// Replaces the rename draft with `value` while a rename is open and
    /// the field takes the text (`acceptable`); reports whether it did.
    pub fn set_rename_draft(&mut self, value: String, acceptable: bool) -> (applied: bool)
        ensures
            applied == ((old(self)@.open matches Some(request) && request.kind
                == LibraryConfirmationKind::Rename) && acceptable),
            final(self)@ == (if applied {
                DialogView { draft: value@, edited: true, ..old(self)@ }
            } else {
                old(self)@
            }),
    {
        let renaming = match self.open {
            Some(request) => request.kind == LibraryConfirmationKind::Rename,
            None => false,
        };
        if !renaming || !acceptable {
            return false;
        }
        self.rename_draft = value;
        self.rename_edited = true;
        true
    }

    /// Closes the dialog and forgets the draft.
    pub fn close(&mut self)
        ensures
            final(self)@ == closed(),
    {
        self.rename_draft = String::new();
        self.rename_edited = false;
        self.open = None;
    }

    /// Submits `request`: only the open request goes through, and a rename
    /// only with a draft that is a valid slot name. The dialog stays open
    /// until [`Self::submitted`] reports success.
    pub fn submit(&self, request: LibraryConfirmationRequest) -> (submission: ConfirmationSubmission)
        ensures
            self@.open != Some(request) ==> submission == ConfirmationSubmission::Stale,
            self@.open == Some(request) ==> match request.kind {
                LibraryConfirmationKind::Rename => if valid_slot_name(self@.draft) {
                    submission matches ConfirmationSubmission::Rename { slot, name } && slot
                        == request.slot && name@ == self@.draft
                } else {
                    submission == ConfirmationSubmission::Refused
                },
                LibraryConfirmationKind::Archive => submission == (ConfirmationSubmission::Archive {
                    slot: request.slot,
                }),
                LibraryConfirmationKind::Unarchive => submission
                    == (ConfirmationSubmission::Unarchive { slot: request.slot }),
            },
    {
        match self.open {
            Some(open) => if open != request {
                return ConfirmationSubmission::Stale;
            },
            None => return ConfirmationSubmission::Stale,
        }
        match request.kind {
            LibraryConfirmationKind::Rename => match SlotName::new(self.rename_draft.as_str()) {
                Some(name) => ConfirmationSubmission::Rename { slot: request.slot, name },
                None => ConfirmationSubmission::Refused,
            },
            LibraryConfirmationKind::Archive => ConfirmationSubmission::Archive { slot: request.slot },
            LibraryConfirmationKind::Unarchive => ConfirmationSubmission::Unarchive {
                slot: request.slot,
            },
        }
    }

    /// Reports the store's answer to a submitted change: success closes the
    /// dialog, a refusal keeps it open.
    pub fn submitted(&mut self, accepted: bool)
        ensures
            final(self)@ == (if accepted {
                closed()
            } else {
                old(self)@
            }),
    {
        if accepted {
            self.close();
        }
    }
}

/// While a dialog is open, asking to open another changes nothing.
pub proof fn lemma_one_dialog_at_a_time(
    v: DialogView,
    request: LibraryConfirmationRequest,
    listing: Option<SlotList>,
)
    requires
        v.open is Some,
    ensures
        opened(v, request, listing) == v,
{
}

/// What the player asked for on the Library screen.
#[derive(Clone, Copy, Debug, PartialEq, Eq, Structural)]
pub enum LibraryUiIntent {
    Close,
    RefreshSlots,
    RetrySlotRequest,
    CancelSlotRequest,
    RenameSlot { slot: SlotId },
    ArchiveSlot { slot: SlotId },
    UnarchiveSlot { slot: SlotId },
    CancelConfirmation,
    SubmitConfirmation(LibraryConfirmationRequest),
    SelectSlot(SlotId),
    OpenSlot { slot: SlotId, generation: SaveGeneration },
    AcceptOpen,
    UseForContinue { slot: SlotId, generation: SaveGeneration },
    ExportSlot { slot: SlotId, generation: SaveGeneration },
    AcceptExportRecovery,
    HandOffExport,
    ExportActiveArchive,
    ExportActivePack,
    ImportPack,
    ImportArchive,
}

/// Where a Library intent goes: a shell route, the confirmation dialog, or
/// the row selection.
#[derive(Clone, Copy, Debug, PartialEq, Eq, Structural)]
pub enum LibraryIntentAction {
    CloseLibrary,
    RefreshSlots,
    RetrySlotRequest,
    CancelSlotRequest,
    /// Ask first: open the dialog for this change.
    OpenDialog(LibraryConfirmationRequest),
    CloseDialog,
    SubmitDialog(LibraryConfirmationRequest),
    /// Select the row; in the compact layout, which has no docked panel,
    /// also open the row's actions sheet.
    SelectRow { slot: SlotId, open_actions_sheet: bool },
    OpenSlot { slot: SlotId, generation: SaveGeneration },
    AcceptOpen,
    UseForContinue { slot: SlotId, generation: SaveGeneration },
    ExportSlot { slot: SlotId, generation: SaveGeneration },
    AcceptExportRecovery,
    HandOffExport,
    ExportActiveArchive,
    ExportActivePack,
    ImportPack,
    ImportArchive,
}

/// Where `intent` goes; `compact` says the Library is laid out without a
/// docked panel. Rename, archive and unarchive each ask first.
pub open spec fn library_intent_action(intent: LibraryUiIntent, compact: bool) -> LibraryIntentAction {
    match intent {
        LibraryUiIntent::Close => LibraryIntentAction::CloseLibrary,
        LibraryUiIntent::RefreshSlots => LibraryIntentAction::RefreshSlots,
        LibraryUiIntent::RetrySlotRequest => LibraryIntentAction::RetrySlotRequest,
        LibraryUiIntent::CancelSlotRequest => LibraryIntentAction::CancelSlotRequest,
        LibraryUiIntent::RenameSlot { slot } => LibraryIntentAction::OpenDialog(
            LibraryConfirmationRequest { kind: LibraryConfirmationKind::Rename, slot },
        ),
        LibraryUiIntent::ArchiveSlot { slot } => LibraryIntentAction::OpenDialog(
            LibraryConfirmationRequest { kind: LibraryConfirmationKind::Archive, slot },
        ),
        LibraryUiIntent::UnarchiveSlot { slot } => LibraryIntentAction::OpenDialog(
            LibraryConfirmationRequest { kind: LibraryConfirmationKind::Unarchive, slot },
        ),
        LibraryUiIntent::CancelConfirmation => LibraryIntentAction::CloseDialog,
        LibraryUiIntent::SubmitConfirmation(request) => LibraryIntentAction::SubmitDialog(request),
        LibraryUiIntent::SelectSlot(slot) => LibraryIntentAction::SelectRow {
            slot,
            open_actions_sheet: compact,
        },
        LibraryUiIntent::OpenSlot { slot, generation } => LibraryIntentAction::OpenSlot { slot, generation },
        LibraryUiIntent::AcceptOpen => LibraryIntentAction::AcceptOpen,
        LibraryUiIntent::UseForContinue { slot, generation } => LibraryIntentAction::UseForContinue {
            slot,
            generation,
        },
        LibraryUiIntent::ExportSlot { slot, generation } => LibraryIntentAction::ExportSlot {
            slot,
            generation,
        },
        LibraryUiIntent::AcceptExportRecovery => LibraryIntentAction::AcceptExportRecovery,
        LibraryUiIntent::HandOffExport => LibraryIntentAction::HandOffExport,
        LibraryUiIntent::ExportActiveArchive => LibraryIntentAction::ExportActiveArchive,
        LibraryUiIntent::ExportActivePack => LibraryIntentAction::ExportActivePack,
        LibraryUiIntent::ImportPack => LibraryIntentAction::ImportPack,
        LibraryUiIntent::ImportArchive => LibraryIntentAction::ImportArchive,
    }
}

pub fn library_intent_step(intent: LibraryUiIntent, compact: bool) -> (action: LibraryIntentAction)
    ensures
        action == library_intent_action(intent, compact),
{
    match intent {
        LibraryUiIntent::Close => LibraryIntentAction::CloseLibrary,
        LibraryUiIntent::RefreshSlots => LibraryIntentAction::RefreshSlots,
        LibraryUiIntent::RetrySlotRequest => LibraryIntentAction::RetrySlotRequest,
        LibraryUiIntent::CancelSlotRequest => LibraryIntentAction::CancelSlotRequest,
        LibraryUiIntent::RenameSlot { slot } => LibraryIntentAction::OpenDialog(
            LibraryConfirmationRequest { kind: LibraryConfirmationKind::Rename, slot },
        ),
        LibraryUiIntent::ArchiveSlot { slot } => LibraryIntentAction::OpenDialog(
            LibraryConfirmationRequest { kind: LibraryConfirmationKind::Archive, slot },
        ),
        LibraryUiIntent::UnarchiveSlot { slot } => LibraryIntentAction::OpenDialog(
            LibraryConfirmationRequest { kind: LibraryConfirmationKind::Unarchive, slot },
        ),
        LibraryUiIntent::CancelConfirmation => LibraryIntentAction::CloseDialog,
        LibraryUiIntent::SubmitConfirmation(request) => LibraryIntentAction::SubmitDialog(request),
        LibraryUiIntent::SelectSlot(slot) => LibraryIntentAction::SelectRow {
            slot,
            open_actions_sheet: compact,
        },
        LibraryUiIntent::OpenSlot { slot, generation } => LibraryIntentAction::OpenSlot { slot, generation },
        LibraryUiIntent::AcceptOpen => LibraryIntentAction::AcceptOpen,
        LibraryUiIntent::UseForContinue { slot, generation } => LibraryIntentAction::UseForContinue {
            slot,
            generation,
        },
        LibraryUiIntent::ExportSlot { slot, generation } => LibraryIntentAction::ExportSlot {
            slot,
            generation,
        },
        LibraryUiIntent::AcceptExportRecovery => LibraryIntentAction::AcceptExportRecovery,
        LibraryUiIntent::HandOffExport => LibraryIntentAction::HandOffExport,
        LibraryUiIntent::ExportActiveArchive => LibraryIntentAction::ExportActiveArchive,
        LibraryUiIntent::ExportActivePack => LibraryIntentAction::ExportActivePack,
        LibraryUiIntent::ImportPack => LibraryIntentAction::ImportPack,
        LibraryUiIntent::ImportArchive => LibraryIntentAction::ImportArchive,
    }
}

/// No change to a save reaches the store from the Library screen without
/// the dialog: rename, archive and unarchive intents only open it.
pub proof fn lemma_changes_ask_first(intent: LibraryUiIntent, compact: bool)
    ensures
        (intent is RenameSlot || intent is ArchiveSlot || intent is UnarchiveSlot)
            ==> library_intent_action(intent, compact) is OpenDialog,
{
}

/// The Library control a route answers: each route names what the player
/// asked for, so the control can be read back from it.
pub open spec fn intent_answered(action: LibraryIntentAction) -> LibraryUiIntent {
    match action {
        LibraryIntentAction::CloseLibrary => LibraryUiIntent::Close,
        LibraryIntentAction::RefreshSlots => LibraryUiIntent::RefreshSlots,
        LibraryIntentAction::RetrySlotRequest => LibraryUiIntent::RetrySlotRequest,
        LibraryIntentAction::CancelSlotRequest => LibraryUiIntent::CancelSlotRequest,
        LibraryIntentAction::OpenDialog(request) => match request.kind {
            LibraryConfirmationKind::Rename => LibraryUiIntent::RenameSlot { slot: request.slot },
            LibraryConfirmationKind::Archive => LibraryUiIntent::ArchiveSlot { slot: request.slot },
            LibraryConfirmationKind::Unarchive => LibraryUiIntent::UnarchiveSlot { slot: request.slot },
        },
        LibraryIntentAction::CloseDialog => LibraryUiIntent::CancelConfirmation,
        LibraryIntentAction::SubmitDialog(request) => LibraryUiIntent::SubmitConfirmation(request),
        LibraryIntentAction::SelectRow { slot, .. } => LibraryUiIntent::SelectSlot(slot),
        LibraryIntentAction::OpenSlot { slot, generation } => LibraryUiIntent::OpenSlot { slot, generation },
        LibraryIntentAction::AcceptOpen => LibraryUiIntent::AcceptOpen,
        LibraryIntentAction::UseForContinue { slot, generation } => LibraryUiIntent::UseForContinue {
            slot,
            generation,
        },
        LibraryIntentAction::ExportSlot { slot, generation } => LibraryUiIntent::ExportSlot {
            slot,
            generation,
        },
        LibraryIntentAction::AcceptExportRecovery => LibraryUiIntent::AcceptExportRecovery,
        LibraryIntentAction::HandOffExport => LibraryUiIntent::HandOffExport,
        LibraryIntentAction::ExportActiveArchive => LibraryUiIntent::ExportActiveArchive,
        LibraryIntentAction::ExportActivePack => LibraryUiIntent::ExportActivePack,
        LibraryIntentAction::ImportPack => LibraryUiIntent::ImportPack,
        LibraryIntentAction::ImportArchive => LibraryUiIntent::ImportArchive,
    }
}

/// Every Library control does its own thing: the route a control takes
/// answers that very control (with its row and generation), so no two
/// controls share a route, and the layout only decides whether selecting a
/// row also opens its actions sheet.
pub proof fn lemma_controls_take_their_own_routes(
    intent: LibraryUiIntent,
    other: LibraryUiIntent,
    compact: bool,
    other_compact: bool,
)
    ensures
        intent_answered(library_intent_action(intent, compact)) == intent,
        intent != other ==> library_intent_action(intent, compact) != library_intent_action(
            other,
            other_compact,
        ),
        !(intent is SelectSlot) ==> library_intent_action(intent, compact) == library_intent_action(
            intent,
            other_compact,
        ),
        intent is SelectSlot ==> (library_intent_action(intent, compact) matches LibraryIntentAction::SelectRow {
            open_actions_sheet,
            ..
        } && open_actions_sheet == compact),
{
    assert(intent_answered(library_intent_action(other, other_compact)) == other);
}

} // verus!
