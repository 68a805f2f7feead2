use nyon::library_dialog::{
    LibraryIntentAction, LibraryUiIntent, library_intent_step, ConfirmationSubmission, LibraryConfirmationKind, LibraryConfirmationRequest, LibraryDialog,
};
use nyon::store::{SaveGeneration, SlotId, SlotList, SlotName, SlotSummary};

fn listing() -> Option<SlotList> {
    Some(SlotList {
        slots: vec![
            SlotSummary {
                id: SlotId(3),
                name: SlotName::new("Harbor").unwrap(),
                head_generation: SaveGeneration(2),
                archived: false,
                selected_for_continue: true,
            },
            SlotSummary {
                id: SlotId(5),
                name: SlotName::new("Outpost").unwrap(),
                head_generation: SaveGeneration(1),
                archived: true,
                selected_for_continue: false,
            },
        ],
        selected_continue: Some(SlotId(3)),
    })
}

fn rename(slot: u64) -> LibraryConfirmationRequest {
    LibraryConfirmationRequest { kind: LibraryConfirmationKind::Rename, slot: SlotId(slot) }
}

#[test]
fn a_rename_starts_from_the_listed_name_and_only_a_valid_draft_is_submitted() {
    let mut dialog = LibraryDialog::new();
    dialog.open(rename(5), &listing());
    assert_eq!(dialog.confirmation(), Some(rename(5)));
    assert_eq!(dialog.rename_draft(), "Outpost");
    assert!(!dialog.rename_edited());

    assert!(!dialog.set_rename_draft("New".to_string(), false));
    assert_eq!(dialog.rename_draft(), "Outpost");
    assert!(dialog.set_rename_draft(String::new(), true));
    assert!(dialog.rename_edited());
    assert_eq!(dialog.submit(rename(5)), ConfirmationSubmission::Refused);

    dialog.set_rename_draft("Far Outpost".to_string(), true);
    assert_eq!(
        dialog.submit(rename(5)),
        ConfirmationSubmission::Rename { slot: SlotId(5), name: SlotName::new("Far Outpost").unwrap() }
    );
    dialog.submitted(false);
    assert_eq!(dialog.confirmation(), Some(rename(5)));
    assert_eq!(dialog.rename_draft(), "Far Outpost");
    dialog.submitted(true);
    assert_eq!(dialog.confirmation(), None);
    assert_eq!(dialog.rename_draft(), "");
}

#[test]
fn a_rename_of_an_unlisted_save_does_not_open() {
    let mut dialog = LibraryDialog::new();
    dialog.open(rename(9), &listing());
    assert_eq!(dialog.confirmation(), None);
    dialog.open(rename(3), &None);
    assert_eq!(dialog.confirmation(), None);
}

#[test]
fn only_the_open_request_is_submitted_and_one_dialog_at_a_time() {
    let mut dialog = LibraryDialog::new();
    let archive = LibraryConfirmationRequest { kind: LibraryConfirmationKind::Archive, slot: SlotId(3) };
    let unarchive =
        LibraryConfirmationRequest { kind: LibraryConfirmationKind::Unarchive, slot: SlotId(5) };
    assert_eq!(dialog.submit(archive), ConfirmationSubmission::Stale);
    dialog.open(archive, &listing());
    dialog.open(unarchive, &listing());
    assert_eq!(dialog.confirmation(), Some(archive));
    assert!(!dialog.set_rename_draft("x".to_string(), true));
    assert_eq!(dialog.submit(unarchive), ConfirmationSubmission::Stale);
    assert_eq!(dialog.submit(archive), ConfirmationSubmission::Archive { slot: SlotId(3) });
    dialog.close();
    dialog.open(unarchive, &listing());
    assert_eq!(dialog.submit(unarchive), ConfirmationSubmission::Unarchive { slot: SlotId(5) });
}

#[test]
fn changes_to_a_save_open_the_dialog_and_selection_opens_the_sheet_only_when_compact() {
    assert_eq!(
        library_intent_step(LibraryUiIntent::ArchiveSlot { slot: SlotId(3) }, false),
        LibraryIntentAction::OpenDialog(LibraryConfirmationRequest {
            kind: LibraryConfirmationKind::Archive,
            slot: SlotId(3),
        })
    );
    assert_eq!(
        library_intent_step(LibraryUiIntent::SelectSlot(SlotId(5)), true),
        LibraryIntentAction::SelectRow { slot: SlotId(5), open_actions_sheet: true }
    );
    assert_eq!(
        library_intent_step(LibraryUiIntent::SelectSlot(SlotId(5)), false),
        LibraryIntentAction::SelectRow { slot: SlotId(5), open_actions_sheet: false }
    );
    assert_eq!(library_intent_step(LibraryUiIntent::Close, true), LibraryIntentAction::CloseLibrary);
}
