use std::collections::VecDeque;

use nyon::client::{
    CatalogImportStatus, ClientDiagnosticCode, ClientRuntimeEffect, ClientRuntimeError,
    ClientScreen, ExportSource, LibrarySlotsStatus, MainMenuCapability, MainMenuRoute,
    SlotRequestKind,
};
use nyon::library::{LibraryInput, LibraryRequest};
use nyon::runtime::{
    ClientRuntime, CONTINUE_FOLLOWS_RESIDENT, IMPORT_START_BLOCKED, LIBRARY_ENTRY,
    MAX_CLIENT_DIAGNOSTICS, MENU_NOT_ACTIVE, NewWorkshop, OpenProgress, PackValidation,
    REPLACEMENT_BLOCKED, RESIDENT_SLOT_ARCHIVE, ROW_CHANGED, RouteOutcome, SessionFacts,
    SessionKind, ValidatedPack,
};
use nyon::store::{
    LoggedStore, CatalogHash, LoadedSlot, SaveGeneration, SlotId, SlotList, SlotName, SlotSummary, StoreJobId,
    StoreJobState, WorkshopStore, WorkshopStoreError, WorkshopStoreRequest, WorkshopStoreResult,
};
use nyon::transfer::{HandoffOutcome, ScriptedTransfer, TransferRequest};

type Runtime = ClientRuntime<u8, u32, String, ScriptedTransfer>;

/// A store that records what it was asked, answers starts with fresh job
/// numbers unless told to refuse, and answers polls from a script.
#[derive(Default)]
struct ScriptStore {
    started: Vec<WorkshopStoreRequest>,
    refusal: Option<WorkshopStoreError>,
    answers: VecDeque<StoreJobState>,
    next_job: u64,
    abandoned: Vec<StoreJobId>,
}

impl WorkshopStore for ScriptStore {
    fn start(&mut self, request: WorkshopStoreRequest) -> Result<StoreJobId, WorkshopStoreError> {
        if let Some(error) = self.refusal.take() {
            return Err(error);
        }
        self.started.push(request);
        self.next_job += 1;
        Ok(StoreJobId(self.next_job))
    }

    fn poll(&mut self, _job: StoreJobId) -> StoreJobState {
        self.answers.pop_front().unwrap_or(StoreJobState::Pending)
    }

    fn abandon(&mut self, job: StoreJobId) -> bool {
        self.abandoned.push(job);
        true
    }
}

fn no_session() -> SessionFacts {
    SessionFacts {
        kind: SessionKind::NoSession,
        resident_slot: None,
        continue_ready: false,
        replacement_blocked: false,
    }
}

fn resident(slot: u64, blocked: bool) -> SessionFacts {
    SessionFacts {
        kind: SessionKind::Workshop,
        resident_slot: Some(SlotId(slot)),
        continue_ready: false,
        replacement_blocked: blocked,
    }
}

fn hash(byte: u8) -> CatalogHash {
    CatalogHash([byte; 32])
}

fn row(generation: u64) -> LoadedSlot {
    LoadedSlot {
        slot: SlotId(3),
        name: SlotName::new("Deep Field").unwrap(),
        generation: SaveGeneration(generation),
        head_generation: SaveGeneration(generation),
        recovered_from_previous: false,
        archived: false,
        archive: vec![4, 5, 6],
    }
}

fn listing() -> SlotList {
    SlotList {
        slots: vec![SlotSummary {
            id: SlotId(3),
            name: SlotName::new("Deep Field").unwrap(),
            head_generation: SaveGeneration(5),
            archived: false,
            selected_for_continue: false,
        }],
        selected_continue: None,
    }
}

/// Drives the row open in flight from its load to the finished replay of
/// `loaded` with the built-in catalog, and returns what the last step gave.
fn replay_row(
    runtime: &mut Runtime,
    store: &mut LoggedStore<ScriptStore>,
    facts: SessionFacts,
    loaded: &LoadedSlot,
) -> OpenProgress<u8, u32, String> {
    assert!(matches!(
        runtime.step_library_open(store, facts, LibraryInput::Poll),
        OpenProgress::Request(LibraryRequest::PollStore(_))
    ));
    let answers = [
        LibraryInput::StorePolled(StoreJobState::Complete(Ok(WorkshopStoreResult::SlotLoaded(
            loaded.clone(),
        )))),
        LibraryInput::BuiltInCatalog(Some(7)),
        LibraryInput::ArchiveHashed(loaded.clone(), Ok(hash(1))),
        LibraryInput::CatalogHashed(7, hash(1)),
        LibraryInput::DecoderCreated(loaded.clone(), Ok(100)),
        LibraryInput::Poll,
        LibraryInput::DecoderPolled(100, Ok(true)),
    ];
    for answer in answers {
        let progress = runtime.step_library_open(store, facts, answer);
        assert!(
            matches!(progress, OpenProgress::Request(_) | OpenProgress::Pending),
            "the open settled early: {progress:?}"
        );
    }
    runtime.step_library_open(
        store,
        facts,
        LibraryInput::DecoderFinished(Ok(String::from("history"))),
    )
}

/// Completes the Continue claim the open asked for.
fn claim_continue(
    runtime: &mut Runtime,
    store: &mut LoggedStore<ScriptStore>,
    facts: SessionFacts,
) -> OpenProgress<u8, u32, String> {
    assert!(matches!(
        runtime.step_library_open(store, facts, LibraryInput::StoreStarted(Ok(StoreJobId(40)))),
        OpenProgress::Pending
    ));
    assert!(matches!(
        runtime.step_library_open(store, facts, LibraryInput::Poll),
        OpenProgress::Request(LibraryRequest::PollStore(StoreJobId(40)))
    ));
    runtime.step_library_open(
        store,
        facts,
        LibraryInput::StorePolled(StoreJobState::Complete(Ok(
            WorkshopStoreResult::ContinueSelected {
                slot: SlotId(3),
                generation: SaveGeneration(5),
            },
        ))),
    )
}

#[test]
fn the_library_lists_on_entry_and_close_returns_to_the_menu() {
    let mut runtime = Runtime::new();
    let mut store = LoggedStore::new(ScriptStore::default());
    runtime.open_library(&mut store).unwrap();
    assert_eq!(runtime.screen(), ClientScreen::Library);
    assert_eq!(store.store.started, vec![WorkshopStoreRequest::ListSlots]);
    assert_eq!(
        runtime.library_slots_status(),
        LibrarySlotsStatus::Working {
            kind: SlotRequestKind::List,
            slot: None,
        }
    );
    store
        .store.answers
        .push_back(StoreJobState::Complete(Ok(WorkshopStoreResult::Slots(listing()))));
    runtime.poll_library_slots(&mut store);
    assert_eq!(runtime.library_slots_status(), LibrarySlotsStatus::Idle);
    assert_eq!(runtime.library_slots(), &Some(listing()));
    runtime.close_library();
    assert_eq!(runtime.screen(), ClientScreen::MainMenu);
}

#[test]
fn the_library_opens_only_from_product_screens() {
    let mut runtime = Runtime::new();
    let mut store = LoggedStore::new(ScriptStore::default());
    runtime.open_settings(no_session());
    assert_eq!(
        runtime.open_library(&mut store),
        Err(ClientRuntimeError::RouteUnavailable)
    );
    assert_eq!(runtime.screen(), ClientScreen::Settings);
    assert!(store.store.started.is_empty());
    let last = runtime.diagnostics().last().unwrap();
    assert_eq!(last.code, ClientDiagnosticCode::RouteUnavailable);
    assert_eq!(last.message, LIBRARY_ENTRY);
    runtime.close_settings();
    assert_eq!(runtime.screen(), ClientScreen::MainMenu);
}

#[test]
fn one_slot_request_holds_the_lane() {
    let mut runtime = Runtime::new();
    let mut store = LoggedStore::new(ScriptStore::default());
    runtime
        .refresh_library_slots(&mut store, no_session())
        .unwrap();
    assert_eq!(
        runtime.rename_library_slot(
            &mut store,
            no_session(),
            SlotId(3),
            SlotName::new("Renamed").unwrap()
        ),
        Err(ClientRuntimeError::LibraryRequestActive)
    );
    assert_eq!(store.store.started.len(), 1);
}

#[test]
fn the_resident_slot_cannot_be_archived() {
    let mut runtime = Runtime::new();
    let mut store = LoggedStore::new(ScriptStore::default());
    assert_eq!(
        runtime.archive_library_slot(&mut store, resident(3, false), SlotId(3)),
        Err(ClientRuntimeError::ResidentSlot)
    );
    assert!(store.store.started.is_empty());
    assert_eq!(runtime.library_slots_status(), LibrarySlotsStatus::Idle);
    assert_eq!(runtime.diagnostics().last().unwrap().message, RESIDENT_SLOT_ARCHIVE);
    runtime
        .archive_library_slot(&mut store, resident(4, false), SlotId(3))
        .unwrap();
    assert_eq!(
        store.store.started,
        vec![WorkshopStoreRequest::ArchiveSlot { slot: SlotId(3) }]
    );
}

#[test]
fn a_confirmed_rename_drops_the_list_and_relists() {
    let mut runtime = Runtime::new();
    let mut store = LoggedStore::new(ScriptStore::default());
    runtime.open_library(&mut store).unwrap();
    store
        .store.answers
        .push_back(StoreJobState::Complete(Ok(WorkshopStoreResult::Slots(listing()))));
    runtime.poll_library_slots(&mut store);
    runtime
        .rename_library_slot(
            &mut store,
            no_session(),
            SlotId(3),
            SlotName::new("Renamed").unwrap(),
        )
        .unwrap();
    assert_eq!(
        runtime.library_slots_status(),
        LibrarySlotsStatus::Working {
            kind: SlotRequestKind::Rename,
            slot: Some(SlotId(3)),
        }
    );
    store.store.answers.push_back(StoreJobState::Complete(Ok(
        WorkshopStoreResult::SlotRenamed { slot: SlotId(3) },
    )));
    runtime.poll_library_slots(&mut store);
    assert_eq!(runtime.library_slots(), &None);
    assert_eq!(store.store.started.last(), Some(&WorkshopStoreRequest::ListSlots));
    assert_eq!(
        runtime.library_slots_status(),
        LibrarySlotsStatus::Working {
            kind: SlotRequestKind::List,
            slot: None,
        }
    );
}

#[test]
fn an_answer_for_another_slot_is_a_protocol_failure() {
    let mut runtime = Runtime::new();
    let mut store = LoggedStore::new(ScriptStore::default());
    runtime
        .unarchive_library_slot(&mut store, no_session(), SlotId(3))
        .unwrap();
    store.store.answers.push_back(StoreJobState::Complete(Ok(
        WorkshopStoreResult::SlotUnarchived { slot: SlotId(4) },
    )));
    runtime.poll_library_slots(&mut store);
    assert_eq!(
        runtime.library_slots_status(),
        LibrarySlotsStatus::Failed {
            kind: SlotRequestKind::Unarchive,
            slot: Some(SlotId(3)),
            code: ClientDiagnosticCode::StoreProtocol,
        }
    );
}

#[test]
fn a_failed_request_is_retried_or_cancelled() {
    let mut runtime = Runtime::new();
    let mut store = LoggedStore::new(ScriptStore::default());
    store.store.refusal = Some(WorkshopStoreError::Rejected(String::from("lane busy")));
    assert_eq!(
        runtime.archive_library_slot(&mut store, no_session(), SlotId(3)),
        Err(ClientRuntimeError::Store(WorkshopStoreError::Rejected(
            String::from("lane busy")
        )))
    );
    assert_eq!(
        runtime.library_slots_status(),
        LibrarySlotsStatus::Failed {
            kind: SlotRequestKind::Archive,
            slot: Some(SlotId(3)),
            code: ClientDiagnosticCode::Store,
        }
    );
    assert_eq!(runtime.diagnostics().last().unwrap().message, "lane busy");
    assert_eq!(
        runtime.retry_library_slot_request(&mut store, resident(3, false)),
        Err(ClientRuntimeError::ResidentSlot)
    );
    assert!(matches!(
        runtime.library_slots_status(),
        LibrarySlotsStatus::Failed { .. }
    ));
    runtime
        .retry_library_slot_request(&mut store, no_session())
        .unwrap();
    assert_eq!(
        store.store.started,
        vec![WorkshopStoreRequest::ArchiveSlot { slot: SlotId(3) }]
    );
    runtime.cancel_library_slot_request(&mut store).unwrap();
    assert_eq!(store.store.abandoned, vec![StoreJobId(1)]);
    assert_eq!(runtime.library_slots_status(), LibrarySlotsStatus::Idle);
    assert_eq!(
        runtime.cancel_library_slot_request(&mut store),
        Err(ClientRuntimeError::RouteUnavailable)
    );
}

#[test]
fn an_open_installs_a_clean_head_from_the_library() {
    let mut runtime = Runtime::new();
    let mut store = LoggedStore::new(ScriptStore::default());
    let facts = no_session();
    runtime.open_library(&mut store).unwrap();
    store
        .store.answers
        .push_back(StoreJobState::Complete(Ok(WorkshopStoreResult::Slots(listing()))));
    runtime.poll_library_slots(&mut store);
    runtime
        .open_library_slot(&mut store, facts, SlotId(3), SaveGeneration(5))
        .unwrap();
    assert_eq!(
        store.store.started.last(),
        Some(&WorkshopStoreRequest::LoadSlot { slot: SlotId(3) })
    );
    assert_eq!(
        runtime.library_slots_status(),
        LibrarySlotsStatus::Working {
            kind: SlotRequestKind::Open,
            slot: Some(SlotId(3)),
        }
    );
    let loaded = row(5);
    assert!(matches!(
        replay_row(&mut runtime, &mut store, facts, &loaded),
        OpenProgress::Request(LibraryRequest::StartStore(
            WorkshopStoreRequest::SelectContinue { .. }
        ))
    ));
    match claim_continue(&mut runtime, &mut store, facts) {
        OpenProgress::Install(candidate) => {
            assert_eq!(candidate.loaded, loaded);
            assert_eq!(candidate.history, "history");
        }
        other => panic!("expected an installation, got {other:?}"),
    }
    assert_eq!(runtime.screen(), ClientScreen::GalaxyWorkshop);
    assert_eq!(runtime.library_slots_status(), LibrarySlotsStatus::Idle);
    assert_eq!(runtime.library_slots(), &None);
}

#[test]
fn an_open_away_from_the_library_is_held_until_accepted() {
    let mut runtime = Runtime::new();
    let mut store = LoggedStore::new(ScriptStore::default());
    let facts = no_session();
    runtime
        .open_library_slot(&mut store, facts, SlotId(3), SaveGeneration(5))
        .unwrap();
    replay_row(&mut runtime, &mut store, facts, &row(5));
    assert!(matches!(
        claim_continue(&mut runtime, &mut store, facts),
        OpenProgress::Settled
    ));
    assert_eq!(
        runtime.library_slots_status(),
        LibrarySlotsStatus::Held {
            slot: SlotId(3),
            recovered: false,
        }
    );
    assert_eq!(
        runtime.accept_library_open(resident(8, true)).err(),
        Some(ClientRuntimeError::RouteUnavailable)
    );
    assert_eq!(runtime.diagnostics().last().unwrap().message, REPLACEMENT_BLOCKED);
    let candidate = runtime.accept_library_open(facts).unwrap();
    assert_eq!(candidate.loaded, row(5));
    assert_eq!(runtime.screen(), ClientScreen::GalaxyWorkshop);
}

#[test]
fn use_for_continue_keeps_the_candidate_and_relists() {
    let mut runtime = Runtime::new();
    let mut store = LoggedStore::new(ScriptStore::default());
    assert_eq!(
        runtime.use_library_slot_for_continue(
            &mut store,
            resident(8, false),
            SlotId(3),
            SaveGeneration(5)
        ),
        Err(ClientRuntimeError::RouteUnavailable)
    );
    assert_eq!(
        runtime.diagnostics().last().unwrap().message,
        CONTINUE_FOLLOWS_RESIDENT
    );
    let facts = no_session();
    assert!(!runtime.continue_available(facts));
    runtime
        .use_library_slot_for_continue(&mut store, facts, SlotId(3), SaveGeneration(5))
        .unwrap();
    replay_row(&mut runtime, &mut store, facts, &row(5));
    assert!(matches!(
        claim_continue(&mut runtime, &mut store, facts),
        OpenProgress::Settled
    ));
    assert!(runtime.continue_available(facts));
    assert_eq!(store.store.started.last(), Some(&WorkshopStoreRequest::ListSlots));
    match runtime.select_menu_route(&mut store, facts, MainMenuRoute::Continue) {
        Ok(RouteOutcome::Install(candidate)) => assert_eq!(candidate.loaded, row(5)),
        other => panic!("expected the Continue candidate, got {other:?}"),
    }
    assert!(!runtime.continue_available(facts));
}

#[test]
fn a_changed_row_is_retried_by_relisting() {
    let mut runtime = Runtime::new();
    let mut store = LoggedStore::new(ScriptStore::default());
    let facts = no_session();
    runtime
        .open_library_slot(&mut store, facts, SlotId(3), SaveGeneration(5))
        .unwrap();
    runtime.step_library_open(&mut store, facts, LibraryInput::Poll);
    let progress = runtime.step_library_open(
        &mut store,
        facts,
        LibraryInput::StorePolled(StoreJobState::Complete(Ok(WorkshopStoreResult::SlotLoaded(
            row(6),
        )))),
    );
    assert!(matches!(progress, OpenProgress::Settled));
    assert_eq!(
        runtime.library_slots_status(),
        LibrarySlotsStatus::Failed {
            kind: SlotRequestKind::Open,
            slot: Some(SlotId(3)),
            code: ClientDiagnosticCode::StaleSave,
        }
    );
    assert_eq!(runtime.diagnostics().last().unwrap().message, ROW_CHANGED);
    runtime
        .retry_library_slot_request(&mut store, facts)
        .unwrap();
    assert_eq!(store.store.started.last(), Some(&WorkshopStoreRequest::ListSlots));
}

#[test]
fn the_residents_own_slot_is_not_opened_but_may_be_exported() {
    let mut runtime = Runtime::new();
    let mut store = LoggedStore::new(ScriptStore::default());
    assert_eq!(
        runtime.open_library_slot(&mut store, resident(3, false), SlotId(3), SaveGeneration(5)),
        Err(ClientRuntimeError::RouteUnavailable)
    );
    assert!(store.store.started.is_empty());
    runtime
        .export_library_slot(&mut store, resident(3, true), SlotId(3), SaveGeneration(5))
        .unwrap();
    assert_eq!(
        store.store.started,
        vec![WorkshopStoreRequest::LoadSlot { slot: SlotId(3) }]
    );
}

#[test]
fn an_export_is_prepared_and_handed_off() {
    let mut runtime = Runtime::new();
    let mut store = LoggedStore::new(ScriptStore::default());
    let facts = no_session();
    runtime
        .export_library_slot(&mut store, facts, SlotId(3), SaveGeneration(5))
        .unwrap();
    assert!(matches!(
        replay_row(&mut runtime, &mut store, facts, &row(5)),
        OpenProgress::Settled
    ));
    let source = ExportSource::Head {
        slot: SlotId(3),
        generation: SaveGeneration(5),
    };
    assert_eq!(
        runtime.library_slots_status(),
        LibrarySlotsStatus::ExportReady { source }
    );
    assert_eq!(runtime.prepared_export().unwrap().bytes, vec![4, 5, 6]);
    assert_eq!(
        runtime.hand_off_library_export(),
        Err(ClientRuntimeError::TransferUnavailable)
    );
    runtime
        .install_transfer_adapter(ScriptedTransfer::default())
        .unwrap();
    assert!(runtime.transfer_available());
    runtime.hand_off_library_export().unwrap();
    let started = runtime.transfer_adapter().unwrap().started();
    assert_eq!(started.len(), 1);
    match &started[0] {
        TransferRequest::HandOffExport { bytes, .. } => assert_eq!(bytes, &vec![4, 5, 6]),
        other => panic!("unexpected transfer request {other:?}"),
    }
    assert_eq!(
        runtime.library_slots_status(),
        LibrarySlotsStatus::Working {
            kind: SlotRequestKind::HandOff,
            slot: Some(SlotId(3)),
        }
    );
    runtime.poll_library_handoff();
    assert_eq!(
        runtime.library_slots_status(),
        LibrarySlotsStatus::ExportHandedOff {
            source,
            outcome: HandoffOutcome::DownloadStarted,
        }
    );
    assert!(runtime.prepared_export().is_none());
    runtime.cancel_library_slot_request(&mut store).unwrap();
    assert_eq!(runtime.library_slots_status(), LibrarySlotsStatus::Idle);
}

#[test]
fn the_menu_offers_only_what_can_run() {
    let runtime = Runtime::new();
    let enabled = |capabilities: Vec<MainMenuCapability>| -> Vec<bool> {
        capabilities.iter().map(|c| c.enabled).collect()
    };
    assert_eq!(
        enabled(runtime.menu_capabilities(no_session())),
        vec![true, false, true, true, true, true, true]
    );
    assert_eq!(
        enabled(runtime.menu_capabilities(resident(2, true))),
        vec![false, false, true, false, true, true, true]
    );
    let ready = SessionFacts {
        continue_ready: true,
        ..resident(2, false)
    };
    assert_eq!(
        runtime.menu_capabilities(ready)[1],
        MainMenuCapability {
            route: MainMenuRoute::Continue,
            enabled: true,
        }
    );
}

#[test]
fn routes_run_only_from_the_main_menu() {
    let mut runtime = Runtime::new();
    let mut store = LoggedStore::new(ScriptStore::default());
    let facts = no_session();
    assert!(matches!(
        runtime.select_menu_route(&mut store, facts, MainMenuRoute::Credits),
        Ok(RouteOutcome::Effect(ClientRuntimeEffect::CreditsOpened))
    ));
    assert!(runtime.credits_visible());
    runtime.dismiss_credits();
    assert!(matches!(
        runtime.select_menu_route(&mut store, facts, MainMenuRoute::NewWorkshop),
        Ok(RouteOutcome::StartNewWorkshop { seed: 0 })
    ));
    assert!(matches!(
        runtime.select_menu_route(&mut store, resident(1, true), MainMenuRoute::ClassicSector),
        Err(ClientRuntimeError::RouteUnavailable)
    ));
    assert!(matches!(
        runtime.select_menu_route(&mut store, facts, MainMenuRoute::ClassicSector),
        Ok(RouteOutcome::StartClassic)
    ));
    assert_eq!(runtime.screen(), ClientScreen::ClassicSector);
    assert!(matches!(
        runtime.select_menu_route(&mut store, facts, MainMenuRoute::Settings),
        Err(ClientRuntimeError::RouteUnavailable)
    ));
    assert_eq!(runtime.diagnostics().last().unwrap().message, MENU_NOT_ACTIVE);
    runtime.return_to_main_menu();
    assert!(matches!(
        runtime.select_menu_route(&mut store, facts, MainMenuRoute::Continue),
        Err(ClientRuntimeError::ContinueUnavailable)
    ));
    assert!(matches!(
        runtime.select_menu_route(&mut store, facts, MainMenuRoute::Quit),
        Ok(RouteOutcome::Effect(ClientRuntimeEffect::QuitRequested))
    ));
}

#[test]
fn a_new_workshop_needs_a_valid_built_in_catalog() {
    let mut runtime = Runtime::new();
    assert_eq!(
        runtime.start_new_workshop(no_session(), Some(7), 0),
        Ok(NewWorkshop {
            catalog: 7,
            seed: 0,
        })
    );
    assert_eq!(runtime.screen(), ClientScreen::GalaxyWorkshop);
    runtime.return_to_main_menu();
    assert_eq!(
        runtime.start_new_workshop(no_session(), None, 0),
        Err(ClientRuntimeError::BuiltInCatalog)
    );
    assert_eq!(runtime.screen(), ClientScreen::RecoverableError);
    assert_eq!(
        runtime.recovery_diagnostic().as_ref().unwrap().code,
        ClientDiagnosticCode::Catalog
    );
    runtime.dismiss_recovery(no_session());
    assert_eq!(runtime.screen(), ClientScreen::MainMenu);
    assert!(runtime.recovery_diagnostic().is_none());
}

#[test]
fn startup_continue_returns_when_nothing_is_selected() {
    let mut runtime = Runtime::new();
    let mut store = LoggedStore::new(ScriptStore::default());
    runtime
        .begin_continue_bootstrap(&mut store, no_session())
        .unwrap();
    assert_eq!(runtime.screen(), ClientScreen::Loading);
    assert!(runtime.continue_bootstrap_active());
    assert_eq!(
        runtime.begin_continue_bootstrap(&mut store, no_session()),
        Err(ClientRuntimeError::BootstrapActive)
    );
    assert!(matches!(
        runtime.step_continue_bootstrap(LibraryInput::Poll),
        OpenProgress::Request(LibraryRequest::PollStore(StoreJobId(1)))
    ));
    let progress = runtime.step_continue_bootstrap(LibraryInput::StorePolled(
        StoreJobState::Complete(Ok(WorkshopStoreResult::Slots(SlotList {
            slots: Vec::new(),
            selected_continue: None,
        }))),
    ));
    assert!(matches!(progress, OpenProgress::Settled));
    assert_eq!(runtime.screen(), ClientScreen::MainMenu);
    assert!(!runtime.continue_bootstrap_active());
}

#[test]
fn a_refused_bootstrap_shows_the_recovery_screen() {
    let mut runtime = Runtime::new();
    let mut store = LoggedStore::new(ScriptStore::default());
    store.store.refusal = Some(WorkshopStoreError::Rejected(String::from("offline")));
    assert!(runtime
        .begin_continue_bootstrap(&mut store, no_session())
        .is_err());
    assert_eq!(runtime.screen(), ClientScreen::RecoverableError);
    assert_eq!(
        runtime.recovery_diagnostic().as_ref().unwrap().message,
        "offline"
    );
}

fn pack() -> PackValidation<u8> {
    PackValidation::Valid(ValidatedPack {
        catalog: 8,
        hash: hash(2),
        canonical_pack: vec![1, 2, 3],
    })
}

#[test]
fn an_import_is_stored_under_its_expected_hash() {
    let mut runtime = Runtime::new();
    let mut store = LoggedStore::new(ScriptStore::default());
    assert_eq!(
        runtime.begin_catalog_import(&mut store, no_session(), pack()),
        Ok(hash(2))
    );
    assert_eq!(
        store.store.started,
        vec![WorkshopStoreRequest::PutPack {
            canonical_pack: vec![1, 2, 3],
        }]
    );
    assert!(runtime.catalog_import_active());
    assert_eq!(
        runtime.catalog_import_status(),
        CatalogImportStatus::Storing {
            expected_hash: hash(2),
            starts_new_workshop: false,
        }
    );
    assert_eq!(
        runtime.begin_catalog_import(&mut store, no_session(), pack()),
        Err(ClientRuntimeError::CatalogImportActive)
    );
    store.store.answers.push_back(StoreJobState::Complete(Ok(
        WorkshopStoreResult::PackStored { hash: hash(2) },
    )));
    assert_eq!(runtime.poll_catalog_import(&mut store, no_session()), None);
    assert_eq!(
        runtime.catalog_import_status(),
        CatalogImportStatus::Stored { hash: hash(2) }
    );
    assert_eq!(runtime.imported_catalog_hash(), Some(hash(2)));
    assert_eq!(
        runtime.start_new_workshop_from_imported_catalog(no_session(), 11),
        Ok(NewWorkshop {
            catalog: 8,
            seed: 11,
        })
    );
}

#[test]
fn an_invalid_pack_is_refused_without_touching_the_store() {
    let mut runtime = Runtime::new();
    let mut store = LoggedStore::new(ScriptStore::default());
    assert_eq!(
        runtime.begin_catalog_import(&mut store, no_session(), PackValidation::Invalid),
        Err(ClientRuntimeError::InvalidCatalog)
    );
    assert_eq!(
        runtime.begin_catalog_import(&mut store, no_session(), PackValidation::NotCanonical),
        Err(ClientRuntimeError::InvalidCatalog)
    );
    assert!(store.store.started.is_empty());
    assert_eq!(runtime.catalog_import_status(), CatalogImportStatus::Idle);
    assert_eq!(runtime.diagnostics().len(), 2);
}

#[test]
fn a_wrong_hash_is_retained_for_retry_and_cancel_abandons_the_store() {
    let mut runtime = Runtime::new();
    let mut store = LoggedStore::new(ScriptStore::default());
    runtime
        .begin_catalog_import(&mut store, no_session(), pack())
        .unwrap();
    store.store.answers.push_back(StoreJobState::Complete(Ok(
        WorkshopStoreResult::PackStored { hash: hash(3) },
    )));
    runtime.poll_catalog_import(&mut store, no_session());
    assert_eq!(
        runtime.catalog_import_status(),
        CatalogImportStatus::StoreFailed {
            expected_hash: hash(2),
            code: ClientDiagnosticCode::StoreProtocol,
            starts_new_workshop: false,
        }
    );
    assert_eq!(runtime.imported_catalog_hash(), None);
    runtime.retry_catalog_import(&mut store).unwrap();
    assert_eq!(store.store.started.len(), 2);
    runtime.cancel_catalog_import(&mut store).unwrap();
    assert_eq!(store.store.abandoned, vec![StoreJobId(2)]);
    assert_eq!(runtime.catalog_import_status(), CatalogImportStatus::Idle);
    assert_eq!(
        runtime.cancel_catalog_import(&mut store),
        Err(ClientRuntimeError::RouteUnavailable)
    );
}

#[test]
fn a_start_blocked_by_the_resident_waits_until_it_is_safe() {
    let mut runtime = Runtime::new();
    let mut store = LoggedStore::new(ScriptStore::default());
    runtime
        .begin_new_workshop_from_catalog(&mut store, no_session(), pack(), 9)
        .unwrap();
    store.store.answers.push_back(StoreJobState::Complete(Ok(
        WorkshopStoreResult::PackStored { hash: hash(2) },
    )));
    assert_eq!(runtime.poll_catalog_import(&mut store, resident(1, true)), None);
    assert_eq!(
        runtime.catalog_import_status(),
        CatalogImportStatus::StartBlocked { hash: hash(2) }
    );
    let log = runtime.diagnostics();
    assert_eq!(log[log.len() - 2].message, REPLACEMENT_BLOCKED);
    assert_eq!(log[log.len() - 1].message, IMPORT_START_BLOCKED);
    assert_eq!(
        runtime.start_workshop_from_blocked_import(resident(1, true)),
        Err(ClientRuntimeError::RouteUnavailable)
    );
    assert_eq!(
        runtime.start_workshop_from_blocked_import(resident(1, false)),
        Ok(NewWorkshop {
            catalog: 8,
            seed: 9,
        })
    );
    assert_eq!(
        runtime.catalog_import_status(),
        CatalogImportStatus::Stored { hash: hash(2) }
    );
    assert_eq!(runtime.screen(), ClientScreen::GalaxyWorkshop);
}

#[test]
fn an_import_that_starts_a_workshop_lands_in_it() {
    let mut runtime = Runtime::new();
    let mut store = LoggedStore::new(ScriptStore::default());
    runtime
        .begin_new_workshop_from_catalog(&mut store, no_session(), pack(), 9)
        .unwrap();
    store.store.answers.push_back(StoreJobState::Complete(Ok(
        WorkshopStoreResult::PackStored { hash: hash(2) },
    )));
    assert_eq!(
        runtime.poll_catalog_import(&mut store, no_session()),
        Some(NewWorkshop {
            catalog: 8,
            seed: 9,
        })
    );
    assert_eq!(runtime.screen(), ClientScreen::GalaxyWorkshop);
}

#[test]
fn the_diagnostic_log_keeps_the_newest_hundred() {
    let mut runtime = Runtime::new();
    let mut store = LoggedStore::new(ScriptStore::default());
    for _ in 0..MAX_CLIENT_DIAGNOSTICS + 5 {
        let _ = runtime.cancel_library_slot_request(&mut store);
    }
    assert_eq!(runtime.diagnostics().len(), MAX_CLIENT_DIAGNOSTICS);
    let _ = runtime.archive_library_slot(&mut store, resident(3, false), SlotId(3));
    assert_eq!(runtime.diagnostics().len(), MAX_CLIENT_DIAGNOSTICS);
    assert_eq!(
        runtime.diagnostics().last().unwrap().code,
        ClientDiagnosticCode::ResidentSlot
    );
}

#[test]
fn workshop_actions_need_a_resident_workshop() {
    let mut runtime = Runtime::new();
    assert_eq!(
        runtime.require_active_workshop(no_session()),
        Err(ClientRuntimeError::WorkshopInactive)
    );
    assert_eq!(runtime.require_active_workshop(resident(1, false)), Ok(()));
}
