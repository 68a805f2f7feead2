use nyon::client::{ClientDiagnostic, ClientDiagnosticCode};
use nyon::library::{
    ARCHIVE_REPLAY_UNITS_PER_UPDATE, DRIVER_MISMATCH, INCONSISTENT_GENERATIONS,
    LibraryBeginError, LibraryEvent, LibraryInput, LibraryOpen, LibraryRequest, LibraryStep,
    SAVED_CATALOG_MISMATCH, SELECTED_SLOT_INVALID, SlotIntent, WRONG_SELECTION,
    WorkshopLibraryClient,
};
use nyon::store::{
    LoggedStore, WorkshopStore, CatalogHash, LoadedSlot, SaveGeneration, SlotId, SlotList, SlotName, SlotSummary,
    StoreJobId, StoreJobState, WorkshopStoreError, WorkshopStoreRequest, WorkshopStoreResult,
};

type Client = WorkshopLibraryClient<u8, u32, String>;

/// Storage that answers every start with one scripted answer and records
/// the requests and abandons it sees.
struct AnswerStore {
    answer: Result<StoreJobId, WorkshopStoreError>,
    started: Vec<WorkshopStoreRequest>,
    abandoned: Vec<StoreJobId>,
}

impl WorkshopStore for AnswerStore {
    fn start(&mut self, request: WorkshopStoreRequest) -> Result<StoreJobId, WorkshopStoreError> {
        self.started.push(request);
        self.answer.clone()
    }

    fn poll(&mut self, _job: StoreJobId) -> StoreJobState {
        StoreJobState::Unknown
    }

    fn abandon(&mut self, job: StoreJobId) -> bool {
        self.abandoned.push(job);
        true
    }
}

fn answering(answer: Result<StoreJobId, WorkshopStoreError>) -> LoggedStore<AnswerStore> {
    LoggedStore::new(AnswerStore { answer, started: Vec::new(), abandoned: Vec::new() })
}
type Step = LibraryStep<u8, u32, String>;

const BUILT_IN: u8 = 7;
const DECODER: u32 = 100;

fn hash(byte: u8) -> CatalogHash {
    CatalogHash([byte; 32])
}

fn slot(generation: u64, head: u64, recovered: bool, archived: bool) -> LoadedSlot {
    LoadedSlot {
        slot: SlotId(3),
        name: SlotName::new("Alpha").unwrap(),
        generation: SaveGeneration(generation),
        head_generation: SaveGeneration(head),
        recovered_from_previous: recovered,
        archived,
        archive: vec![9, 9, 9],
    }
}

fn row_open(intent: SlotIntent, expected: u64) -> LibraryOpen {
    LibraryOpen::Slot {
        slot: SlotId(3),
        expected_generation: SaveGeneration(expected),
        intent,
    }
}

fn loaded_reply(loaded: LoadedSlot) -> LibraryInput<u8, u32, String> {
    LibraryInput::StorePolled(StoreJobState::Complete(Ok(WorkshopStoreResult::SlotLoaded(
        loaded,
    ))))
}

fn is_pending(step: &Step) -> bool {
    matches!(step, LibraryStep::Event(LibraryEvent::Pending))
}

fn polls(step: &Step, job: u64) -> bool {
    matches!(step, LibraryStep::Request(LibraryRequest::PollStore(StoreJobId(j))) if *j == job)
}

/// Drives a begun open through a clean load of `loaded` with the built-in
/// catalog, up to the finished replay.
fn replay_with_built_in(client: &mut Client, loaded: &LoadedSlot) -> Step {
    assert!(polls(&client.poll(LibraryInput::Poll), 1));
    assert!(is_pending(&client.poll(LibraryInput::StorePolled(StoreJobState::Pending))));
    assert!(polls(&client.poll(LibraryInput::Poll), 1));
    let step = client.poll(loaded_reply(loaded.clone()));
    assert!(matches!(step, LibraryStep::Request(LibraryRequest::DecodeBuiltInCatalog)));
    let step = client.poll(LibraryInput::BuiltInCatalog(Some(BUILT_IN)));
    assert!(matches!(
        step,
        LibraryStep::Request(LibraryRequest::ArchiveCatalogHash(ref s)) if s == loaded
    ));
    let step = client.poll(LibraryInput::ArchiveHashed(loaded.clone(), Ok(hash(1))));
    assert!(matches!(step, LibraryStep::Request(LibraryRequest::CatalogHash(BUILT_IN))));
    let step = client.poll(LibraryInput::CatalogHashed(BUILT_IN, hash(1)));
    assert!(matches!(
        step,
        LibraryStep::Request(LibraryRequest::NewDecoder(BUILT_IN, ref s)) if s == loaded
    ));
    assert!(is_pending(&client.poll(LibraryInput::DecoderCreated(loaded.clone(), Ok(DECODER)))));
    let step = client.poll(LibraryInput::Poll);
    assert!(matches!(
        step,
        LibraryStep::Request(LibraryRequest::PollDecoder(DECODER, units))
            if units == ARCHIVE_REPLAY_UNITS_PER_UPDATE
    ));
    assert!(is_pending(&client.poll(LibraryInput::DecoderPolled(DECODER, Ok(false)))));
    assert!(matches!(
        client.poll(LibraryInput::Poll),
        LibraryStep::Request(LibraryRequest::PollDecoder(DECODER, _))
    ));
    let step = client.poll(LibraryInput::DecoderPolled(DECODER, Ok(true)));
    assert!(matches!(step, LibraryStep::Request(LibraryRequest::FinishDecoder(DECODER))));
    client.poll(LibraryInput::DecoderFinished(Ok(String::from("history"))))
}

#[test]
fn an_open_claims_continue_before_the_candidate_is_ready() {
    let mut client = Client::new();
    assert_eq!(
        Client::begin_request(row_open(SlotIntent::Open, 5)),
        WorkshopStoreRequest::LoadSlot { slot: SlotId(3) }
    );
    assert_eq!(client.begin(&mut answering(Ok(StoreJobId(1))), row_open(SlotIntent::Open, 5)), Ok(()));
    assert!(client.is_active());
    assert_eq!(client.held_job(), Some(StoreJobId(1)));
    let loaded = slot(5, 5, false, false);

    let step = replay_with_built_in(&mut client, &loaded);
    assert!(matches!(
        step,
        LibraryStep::Request(LibraryRequest::StartStore(WorkshopStoreRequest::SelectContinue {
            slot: SlotId(3),
            expected_generation: SaveGeneration(5),
        }))
    ));
    assert!(is_pending(&client.poll(LibraryInput::StoreStarted(Ok(StoreJobId(2))))));
    assert_eq!(client.held_job(), Some(StoreJobId(2)));
    assert!(polls(&client.poll(LibraryInput::Poll), 2));
    let step = client.poll(LibraryInput::StorePolled(StoreJobState::Complete(Ok(
        WorkshopStoreResult::ContinueSelected {
            slot: SlotId(3),
            generation: SaveGeneration(5),
        },
    ))));
    match step {
        LibraryStep::Event(LibraryEvent::Ready(candidate)) => {
            assert_eq!(candidate.loaded, loaded);
            assert_eq!(candidate.history, "history");
        }
        other => panic!("expected a ready candidate, got {other:?}"),
    }
    assert!(!client.is_active());
    assert!(is_pending(&client.poll(LibraryInput::Poll)));
}

#[test]
fn an_export_is_ready_without_selecting_continue() {
    let mut client = Client::new();
    assert_eq!(client.begin(&mut answering(Ok(StoreJobId(1))), row_open(SlotIntent::Export, 5)), Ok(()));
    let loaded = slot(5, 5, false, true);
    let step = replay_with_built_in(&mut client, &loaded);
    match step {
        LibraryStep::Event(LibraryEvent::Ready(candidate)) => {
            assert_eq!(candidate.loaded, loaded);
        }
        other => panic!("expected a ready candidate, got {other:?}"),
    }
    assert!(!client.is_active());
}

#[test]
fn a_row_whose_head_moved_is_reported_stale_before_any_replay() {
    let mut client = Client::new();
    client.begin(&mut answering(Ok(StoreJobId(1))), row_open(SlotIntent::Open, 5)).unwrap();
    assert!(polls(&client.poll(LibraryInput::Poll), 1));
    let step = client.poll(loaded_reply(slot(6, 6, false, false)));
    assert!(matches!(
        step,
        LibraryStep::Event(LibraryEvent::StaleRow {
            slot: SlotId(3),
            observed: SaveGeneration(5),
            head: SaveGeneration(6),
        })
    ));
    assert!(!client.is_active());
}

#[test]
fn archived_rows_are_refused_by_opens_only() {
    let mut client = Client::new();
    client.begin(&mut answering(Ok(StoreJobId(1))), row_open(SlotIntent::Open, 5)).unwrap();
    client.poll(LibraryInput::Poll);
    let step = client.poll(loaded_reply(slot(5, 5, false, true)));
    assert!(matches!(
        step,
        LibraryStep::Event(LibraryEvent::ArchivedRow { slot: SlotId(3) })
    ));

    let mut export = Client::new();
    export.begin(&mut answering(Ok(StoreJobId(1))), row_open(SlotIntent::Export, 5)).unwrap();
    export.poll(LibraryInput::Poll);
    let step = export.poll(loaded_reply(slot(5, 5, false, true)));
    assert!(matches!(step, LibraryStep::Request(LibraryRequest::DecodeBuiltInCatalog)));
}

#[test]
fn a_failed_head_falls_back_to_its_retained_predecessor() {
    let mut client = Client::new();
    client.begin(&mut answering(Ok(StoreJobId(1))), row_open(SlotIntent::Open, 5)).unwrap();
    let head = slot(5, 5, false, false);
    client.poll(LibraryInput::Poll);
    client.poll(loaded_reply(head.clone()));
    client.poll(LibraryInput::BuiltInCatalog(Some(BUILT_IN)));
    client.poll(LibraryInput::ArchiveHashed(head.clone(), Ok(hash(1))));
    client.poll(LibraryInput::CatalogHashed(BUILT_IN, hash(1)));
    let step = client.poll(LibraryInput::DecoderCreated(head.clone(), Err(String::from("bad"))));
    assert!(matches!(
        step,
        LibraryStep::Request(LibraryRequest::StartStore(
            WorkshopStoreRequest::LoadPreviousGeneration {
                slot: SlotId(3),
                expected_head_generation: SaveGeneration(5),
            }
        ))
    ));
    assert!(is_pending(&client.poll(LibraryInput::StoreStarted(Ok(StoreJobId(9))))));
    assert!(polls(&client.poll(LibraryInput::Poll), 9));
    let previous = slot(4, 5, true, false);
    let step = client.poll(loaded_reply(previous.clone()));
    assert!(matches!(step, LibraryStep::Request(LibraryRequest::DecodeBuiltInCatalog)));
    client.poll(LibraryInput::BuiltInCatalog(Some(BUILT_IN)));
    client.poll(LibraryInput::ArchiveHashed(previous.clone(), Ok(hash(1))));
    client.poll(LibraryInput::CatalogHashed(BUILT_IN, hash(1)));
    client.poll(LibraryInput::DecoderCreated(previous.clone(), Ok(DECODER)));
    client.poll(LibraryInput::Poll);
    client.poll(LibraryInput::DecoderPolled(DECODER, Ok(true)));
    let step = client.poll(LibraryInput::DecoderFinished(Ok(String::from("older"))));
    match step {
        LibraryStep::Event(LibraryEvent::Ready(candidate)) => {
            assert_eq!(candidate.loaded, previous);
            assert_eq!(candidate.history, "older");
        }
        other => panic!("a recovered predecessor is ready without a selection, got {other:?}"),
    }
}

#[test]
fn a_failed_predecessor_reports_the_original_failure() {
    let mut client = Client::new();
    client.begin(&mut answering(Ok(StoreJobId(1))), row_open(SlotIntent::Open, 5)).unwrap();
    let head = slot(5, 5, false, false);
    client.poll(LibraryInput::Poll);
    client.poll(loaded_reply(head.clone()));
    client.poll(LibraryInput::BuiltInCatalog(Some(BUILT_IN)));
    client.poll(LibraryInput::ArchiveHashed(head.clone(), Err(String::from("truncated"))));
    client.poll(LibraryInput::StoreStarted(Ok(StoreJobId(9))));
    client.poll(LibraryInput::Poll);
    let step = client.poll(LibraryInput::StorePolled(StoreJobState::Complete(Err(
        WorkshopStoreError::Rejected(String::from("no predecessor")),
    ))));
    match step {
        LibraryStep::Event(LibraryEvent::Failed(diagnostic)) => assert_eq!(
            diagnostic,
            ClientDiagnostic {
                code: ClientDiagnosticCode::Archive,
                message: String::from("truncated"),
            }
        ),
        other => panic!("expected the head's failure, got {other:?}"),
    }
    assert!(!client.is_active());
}

#[test]
fn a_refused_continue_claim_preserves_the_candidate() {
    let mut client = Client::new();
    client.begin(&mut answering(Ok(StoreJobId(1))), row_open(SlotIntent::Open, 5)).unwrap();
    let loaded = slot(5, 5, false, false);
    replay_with_built_in(&mut client, &loaded);
    client.poll(LibraryInput::StoreStarted(Ok(StoreJobId(2))));
    client.poll(LibraryInput::Poll);
    let step = client.poll(LibraryInput::StorePolled(StoreJobState::Complete(Err(
        WorkshopStoreError::StaleGeneration {
            slot: SlotId(3),
            expected: SaveGeneration(5),
            head: SaveGeneration(6),
        },
    ))));
    match step {
        LibraryStep::Event(LibraryEvent::ContinueConflict { candidate }) => {
            assert_eq!(candidate.loaded, loaded);
            assert_eq!(candidate.history, "history");
        }
        other => panic!("expected a conflict, got {other:?}"),
    }
}

#[test]
fn a_selection_of_another_generation_breaks_the_protocol() {
    let mut client = Client::new();
    client.begin(&mut answering(Ok(StoreJobId(1))), row_open(SlotIntent::Open, 5)).unwrap();
    replay_with_built_in(&mut client, &slot(5, 5, false, false));
    client.poll(LibraryInput::StoreStarted(Ok(StoreJobId(2))));
    client.poll(LibraryInput::Poll);
    let step = client.poll(LibraryInput::StorePolled(StoreJobState::Complete(Ok(
        WorkshopStoreResult::ContinueSelected {
            slot: SlotId(3),
            generation: SaveGeneration(4),
        },
    ))));
    assert!(matches!(
        step,
        LibraryStep::Event(LibraryEvent::ProtocolFailure(message)) if message == WRONG_SELECTION
    ));
}

#[test]
fn a_stored_pack_must_decode_reencode_and_hash_back() {
    let mut client = Client::new();
    client.begin(&mut answering(Ok(StoreJobId(1))), row_open(SlotIntent::Export, 5)).unwrap();
    let loaded = slot(5, 5, false, false);
    client.poll(LibraryInput::Poll);
    client.poll(loaded_reply(loaded.clone()));
    client.poll(LibraryInput::BuiltInCatalog(Some(BUILT_IN)));
    client.poll(LibraryInput::ArchiveHashed(loaded.clone(), Ok(hash(2))));
    let step = client.poll(LibraryInput::CatalogHashed(BUILT_IN, hash(1)));
    assert!(matches!(
        step,
        LibraryStep::Request(LibraryRequest::StartStore(WorkshopStoreRequest::GetPack { hash: h }))
            if h == hash(2)
    ));
    assert!(is_pending(&client.poll(LibraryInput::StoreStarted(Ok(StoreJobId(4))))));
    assert!(polls(&client.poll(LibraryInput::Poll), 4));
    let step = client.poll(LibraryInput::StorePolled(StoreJobState::Complete(Ok(
        WorkshopStoreResult::PackLoaded {
            hash: hash(2),
            canonical_pack: vec![1, 2, 3],
        },
    ))));
    assert!(matches!(
        step,
        LibraryStep::Request(LibraryRequest::DecodePack(ref bytes)) if *bytes == vec![1, 2, 3]
    ));
    let step = client.poll(LibraryInput::PackDecoded(vec![1, 2, 3], Some(8)));
    assert!(matches!(step, LibraryStep::Request(LibraryRequest::EncodePack(8))));
    let step = client.poll(LibraryInput::PackEncoded(8, Some(vec![1, 2, 3])));
    assert!(matches!(step, LibraryStep::Request(LibraryRequest::CatalogHash(8))));
    let step = client.poll(LibraryInput::CatalogHashed(8, hash(2)));
    assert!(matches!(
        step,
        LibraryStep::Request(LibraryRequest::NewDecoder(8, ref s)) if *s == loaded
    ));
}

#[test]
fn a_noncanonical_pack_fails_the_head() {
    let mut client = Client::new();
    client.begin(&mut answering(Ok(StoreJobId(1))), row_open(SlotIntent::Export, 5)).unwrap();
    let loaded = slot(5, 5, false, false);
    client.poll(LibraryInput::Poll);
    client.poll(loaded_reply(loaded.clone()));
    client.poll(LibraryInput::BuiltInCatalog(Some(BUILT_IN)));
    client.poll(LibraryInput::ArchiveHashed(loaded.clone(), Ok(hash(2))));
    client.poll(LibraryInput::CatalogHashed(BUILT_IN, hash(1)));
    client.poll(LibraryInput::StoreStarted(Ok(StoreJobId(4))));
    client.poll(LibraryInput::Poll);
    client.poll(LibraryInput::StorePolled(StoreJobState::Complete(Ok(
        WorkshopStoreResult::PackLoaded {
            hash: hash(2),
            canonical_pack: vec![1, 2, 3],
        },
    ))));
    client.poll(LibraryInput::PackDecoded(vec![1, 2, 3], Some(8)));
    client.poll(LibraryInput::PackEncoded(8, Some(vec![1, 2])));
    let step = client.poll(LibraryInput::CatalogHashed(8, hash(2)));
    assert!(matches!(
        step,
        LibraryStep::Request(LibraryRequest::StartStore(
            WorkshopStoreRequest::LoadPreviousGeneration { .. }
        ))
    ));
    client.poll(LibraryInput::StoreStarted(Ok(StoreJobId(9))));
    client.poll(LibraryInput::Poll);
    let step = client.poll(LibraryInput::StorePolled(StoreJobState::Complete(Err(
        WorkshopStoreError::Rejected(String::from("none")),
    ))));
    match step {
        LibraryStep::Event(LibraryEvent::Failed(diagnostic)) => {
            assert_eq!(diagnostic.code, ClientDiagnosticCode::Catalog);
            assert_eq!(diagnostic.message, SAVED_CATALOG_MISMATCH);
        }
        other => panic!("expected the catalog failure, got {other:?}"),
    }
}

#[test]
fn startup_continue_opens_the_marked_slot_or_reports_none() {
    let mut client = Client::new();
    assert_eq!(
        Client::begin_request(LibraryOpen::SelectedContinue),
        WorkshopStoreRequest::ListSlots
    );
    client.begin(&mut answering(Ok(StoreJobId(1))), LibraryOpen::SelectedContinue).unwrap();
    client.poll(LibraryInput::Poll);
    let step = client.poll(LibraryInput::StorePolled(StoreJobState::Complete(Ok(
        WorkshopStoreResult::Slots(SlotList {
            slots: Vec::new(),
            selected_continue: None,
        }),
    ))));
    assert!(matches!(step, LibraryStep::Event(LibraryEvent::NoCandidate)));

    let row = SlotSummary {
        id: SlotId(3),
        name: SlotName::new("Alpha").unwrap(),
        head_generation: SaveGeneration(5),
        archived: false,
        selected_for_continue: true,
    };
    client.begin(&mut answering(Ok(StoreJobId(1))), LibraryOpen::SelectedContinue).unwrap();
    client.poll(LibraryInput::Poll);
    let step = client.poll(LibraryInput::StorePolled(StoreJobState::Complete(Ok(
        WorkshopStoreResult::Slots(SlotList {
            slots: vec![row.clone()],
            selected_continue: Some(SlotId(3)),
        }),
    ))));
    assert!(matches!(
        step,
        LibraryStep::Request(LibraryRequest::StartStore(WorkshopStoreRequest::LoadSlot {
            slot: SlotId(3)
        }))
    ));
    assert!(is_pending(&client.poll(LibraryInput::StoreStarted(Ok(StoreJobId(2))))));
    let loaded = slot(5, 5, false, false);
    assert!(polls(&client.poll(LibraryInput::Poll), 2));
    let step = client.poll(loaded_reply(loaded.clone()));
    assert!(matches!(step, LibraryStep::Request(LibraryRequest::DecodeBuiltInCatalog)));

    let mut missing = Client::new();
    missing.begin(&mut answering(Ok(StoreJobId(1))), LibraryOpen::SelectedContinue).unwrap();
    missing.poll(LibraryInput::Poll);
    let archived_row = SlotSummary { archived: true, ..row };
    let step = missing.poll(LibraryInput::StorePolled(StoreJobState::Complete(Ok(
        WorkshopStoreResult::Slots(SlotList {
            slots: vec![archived_row],
            selected_continue: Some(SlotId(3)),
        }),
    ))));
    assert!(matches!(
        step,
        LibraryStep::Event(LibraryEvent::ProtocolFailure(message))
            if message == SELECTED_SLOT_INVALID
    ));
}

#[test]
fn inconsistent_generations_break_the_protocol() {
    let mut client = Client::new();
    client.begin(&mut answering(Ok(StoreJobId(1))), row_open(SlotIntent::Open, 5)).unwrap();
    client.poll(LibraryInput::Poll);
    let step = client.poll(loaded_reply(slot(4, 5, false, false)));
    assert!(matches!(
        step,
        LibraryStep::Event(LibraryEvent::ProtocolFailure(message))
            if message == INCONSISTENT_GENERATIONS
    ));
}

#[test]
fn only_one_open_runs_and_a_refused_start_leaves_the_client_idle() {
    let mut client = Client::new();
    let refusal = WorkshopStoreError::Rejected(String::from("busy"));
    let mut refusing = answering(Err(refusal.clone()));
    assert_eq!(
        client.begin(&mut refusing, row_open(SlotIntent::Open, 5)),
        Err(LibraryBeginError::Store(refusal))
    );
    assert_eq!(refusing.store.started, vec![WorkshopStoreRequest::LoadSlot { slot: SlotId(3) }]);
    assert!(!client.is_active());
    let mut store = answering(Ok(StoreJobId(1)));
    client.begin(&mut store, row_open(SlotIntent::Open, 5)).unwrap();
    assert_eq!(
        client.begin(&mut store, LibraryOpen::SelectedContinue),
        Err(LibraryBeginError::Active)
    );
    assert_eq!(store.store.started.len(), 1);
    assert_eq!(client.held_job(), Some(StoreJobId(1)));
    assert!(client.abandon(&mut store));
    assert_eq!(store.store.abandoned, vec![StoreJobId(1)]);
    assert!(!client.is_active());
    assert_eq!(client.held_job(), None);
    assert!(!client.abandon(&mut store));
    assert_eq!(store.store.abandoned, vec![StoreJobId(1)]);
}

#[test]
fn a_continue_open_starts_by_listing_the_slots() {
    let mut client = Client::new();
    let mut store = answering(Ok(StoreJobId(4)));
    client.begin(&mut store, LibraryOpen::SelectedContinue).unwrap();
    assert_eq!(store.store.started, vec![WorkshopStoreRequest::ListSlots]);
    assert_eq!(client.held_job(), Some(StoreJobId(4)));
}

#[test]
fn an_answer_to_a_request_that_was_not_made_ends_the_open() {
    let mut client = Client::new();
    client.begin(&mut answering(Ok(StoreJobId(1))), row_open(SlotIntent::Open, 5)).unwrap();
    let step = client.poll(LibraryInput::BuiltInCatalog(Some(BUILT_IN)));
    assert!(matches!(
        step,
        LibraryStep::Event(LibraryEvent::ProtocolFailure(message)) if message == DRIVER_MISMATCH
    ));
    assert!(!client.is_active());
}

#[test]
fn a_storage_failure_reports_its_message() {
    let mut client = Client::new();
    client.begin(&mut answering(Ok(StoreJobId(1))), row_open(SlotIntent::Open, 5)).unwrap();
    client.poll(LibraryInput::Poll);
    let step = client.poll(LibraryInput::StorePolled(StoreJobState::Complete(Err(
        WorkshopStoreError::Rejected(String::from("disk full")),
    ))));
    match step {
        LibraryStep::Event(LibraryEvent::Failed(diagnostic)) => {
            assert_eq!(diagnostic.code, ClientDiagnosticCode::Store);
            assert_eq!(diagnostic.message, "disk full");
        }
        other => panic!("expected a store failure, got {other:?}"),
    }
}

#[test]
fn a_load_of_another_row_handed_back_by_the_driver_ends_the_open() {
    let mut client = Client::new();
    client.begin(&mut answering(Ok(StoreJobId(1))), row_open(SlotIntent::Export, 5)).unwrap();
    let loaded = slot(5, 5, false, false);
    client.poll(LibraryInput::Poll);
    client.poll(loaded_reply(loaded.clone()));
    client.poll(LibraryInput::BuiltInCatalog(Some(BUILT_IN)));
    let mut other = loaded.clone();
    other.slot = SlotId(4);
    let step = client.poll(LibraryInput::ArchiveHashed(other, Ok(hash(1))));
    assert!(matches!(
        step,
        LibraryStep::Event(LibraryEvent::ProtocolFailure(message)) if message == DRIVER_MISMATCH
    ));
    assert!(!client.is_active());
}

#[test]
fn a_decoder_for_another_row_ends_the_open() {
    let mut client = Client::new();
    client.begin(&mut answering(Ok(StoreJobId(1))), row_open(SlotIntent::Export, 5)).unwrap();
    let loaded = slot(5, 5, false, false);
    client.poll(LibraryInput::Poll);
    client.poll(loaded_reply(loaded.clone()));
    client.poll(LibraryInput::BuiltInCatalog(Some(BUILT_IN)));
    client.poll(LibraryInput::ArchiveHashed(loaded.clone(), Ok(hash(1))));
    client.poll(LibraryInput::CatalogHashed(BUILT_IN, hash(1)));
    let mut other = loaded.clone();
    other.slot = SlotId(4);
    let step = client.poll(LibraryInput::DecoderCreated(other, Ok(DECODER)));
    assert!(matches!(
        step,
        LibraryStep::Event(LibraryEvent::ProtocolFailure(message)) if message == DRIVER_MISMATCH
    ));
    assert!(!client.is_active());
}
