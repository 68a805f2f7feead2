use nyon::store::{CatalogHash, MAX_WORKSHOP_ARCHIVE_BYTES, MAX_WORKSHOP_PACK_BYTES, SlotName};
use nyon::transfer::{
    HandoffOutcome, ScriptedHandoff, ScriptedReply, ScriptedTransfer, SuggestedName,
    TransferAdapter, TransferError, TransferFailureCode, TransferJobId, TransferJobState,
    TransferKind, TransferOutcome, TransferRequest, sanitize_char,
};

fn handoff(bytes: &[u8]) -> TransferRequest {
    TransferRequest::HandOffExport {
        kind: TransferKind::WorkshopArchive,
        suggested_name: SuggestedName::workshop_archive(&SlotName::new("Forge").unwrap()),
        bytes: bytes.to_vec(),
    }
}

#[test]
fn suggested_archive_names_keep_only_safe_characters() {
    for (name, expected) in [
        ("Two-System Forge", "Two-System-Forge.nyonworkshop.json"),
        (
            r#"a/b\c:d*e?f"g<h>i|j"#,
            "a_b_c_d_e_f_g_h_i_j.nyonworkshop.json",
        ),
        (".hidden", "_hidden.nyonworkshop.json"),
        ("..", "__.nyonworkshop.json"),
        ("snake_case 42", "snake_case-42.nyonworkshop.json"),
        (
            "~`!@#$%^&()+={}[];',",
            "____________________.nyonworkshop.json",
        ),
    ] {
        let suggested = SuggestedName::workshop_archive(&SlotName::new(name).unwrap());
        assert_eq!(suggested.as_str(), expected, "{name}");
        assert_eq!(suggested.as_str().to_string(), expected);
    }
    // The widest name a slot can have stays one path component.
    let widest = SlotName::new(&"/".repeat(64)).unwrap();
    let suggested = SuggestedName::workshop_archive(&widest);
    assert_eq!(suggested.as_str().len(), 64 + ".nyonworkshop.json".len());
    assert!(!suggested.as_str().contains('/'));
}

#[test]
fn suggested_pack_names_use_a_sixteen_digit_hash_prefix() {
    // Only the first eight bytes may reach the name.
    let mut hash = [0xff_u8; 32];
    for (index, byte) in hash.iter_mut().take(8).enumerate() {
        *byte = u8::try_from(index * 17).unwrap();
    }
    assert_eq!(
        SuggestedName::content_pack(CatalogHash(hash)).as_str(),
        "0011223344556677.nyonpack.json"
    );
    assert_eq!(
        SuggestedName::content_pack(CatalogHash([0xab; 32])).as_str(),
        "abababababababab.nyonpack.json"
    );
}

#[test]
fn kinds_carry_the_store_limits_and_hints() {
    assert_eq!(
        TransferKind::WorkshopArchive.max_bytes(),
        MAX_WORKSHOP_ARCHIVE_BYTES
    );
    assert_eq!(
        TransferKind::ContentPack.max_bytes(),
        MAX_WORKSHOP_PACK_BYTES
    );
    assert_eq!(TransferKind::ContentPack.extension(), ".nyonpack.json");
    assert_eq!(
        TransferKind::WorkshopArchive.media_type(),
        "application/json"
    );
}

#[test]
fn requests_are_bounded_before_anything_starts() {
    let too_large = TransferError::new(TransferFailureCode::TooLarge);
    assert_eq!(handoff(b"{}").check(), Ok(()));
    assert_eq!(handoff(b"").check(), Err(too_large));
    let over = TransferRequest::HandOffExport {
        kind: TransferKind::ContentPack,
        suggested_name: SuggestedName::content_pack(CatalogHash([0; 32])),
        bytes: vec![b' '; MAX_WORKSHOP_PACK_BYTES + 1],
    };
    assert_eq!(over.check(), Err(too_large));
    let at = TransferRequest::HandOffExport {
        kind: TransferKind::ContentPack,
        suggested_name: SuggestedName::content_pack(CatalogHash([0; 32])),
        bytes: vec![b' '; MAX_WORKSHOP_PACK_BYTES],
    };
    assert_eq!(at.check(), Ok(()));
    for (max_bytes, expected) in [
        (0, Err(too_large)),
        (1, Ok(())),
        (MAX_WORKSHOP_PACK_BYTES, Ok(())),
        (MAX_WORKSHOP_PACK_BYTES + 1, Err(too_large)),
    ] {
        let request = TransferRequest::ChooseImport {
            kind: TransferKind::ContentPack,
            max_bytes,
        };
        assert_eq!(request.check(), expected, "{max_bytes}");
    }

    let mut adapter = ScriptedTransfer::default();
    assert_eq!(adapter.start(handoff(b"")), Err(too_large));
    assert!(adapter.started().is_empty());
    assert!(!adapter.busy());
}

#[test]
fn only_durable_saves_say_saved() {
    for outcome in [
        HandoffOutcome::DownloadStarted,
        HandoffOutcome::HandedToSystem,
        HandoffOutcome::Written,
    ] {
        assert!(
            !outcome.label().to_ascii_lowercase().contains("saved"),
            "{outcome:?}"
        );
    }
    assert_eq!(HandoffOutcome::DownloadStarted.label(), "Download started.");
    assert_eq!(
        HandoffOutcome::HandedToSystem.label(),
        "Copy handed to the operating system."
    );
    assert_eq!(HandoffOutcome::Written.label(), "Copy written.");
    assert_eq!(HandoffOutcome::DurablySaved.label(), "Copy saved.");
}

#[test]
fn the_adapter_holds_one_job_and_answers_it_once() {
    let mut adapter = ScriptedTransfer::default();
    adapter.set_pending_polls(1);
    let job = adapter.start(handoff(b"{\"a\":1}")).unwrap();
    assert!(adapter.busy());
    assert_eq!(
        adapter.start(handoff(b"{}")),
        Err(TransferError::new(TransferFailureCode::Busy))
    );
    assert_eq!(
        adapter.poll(TransferJobId(job.0 + 1)),
        TransferJobState::Unknown
    );
    assert_eq!(adapter.poll(job), TransferJobState::Pending);
    assert!(
        adapter.handed_off().is_empty(),
        "nothing is handed off early"
    );
    assert_eq!(
        adapter.poll(job),
        TransferJobState::Complete(Ok(TransferOutcome::ExportHandedOff(
            HandoffOutcome::DownloadStarted
        )))
    );
    assert_eq!(adapter.poll(job), TransferJobState::Unknown);
    assert!(!adapter.busy());
    assert_eq!(
        adapter.handed_off(),
        vec![ScriptedHandoff {
            kind: TransferKind::WorkshopArchive,
            suggested_name: SuggestedName::workshop_archive(&SlotName::new("Forge").unwrap()),
            bytes: b"{\"a\":1}".to_vec(),
        }]
    );
    assert_eq!(adapter.started().len(), 1);

    let second = adapter.start(handoff(b"{}")).unwrap();
    assert_ne!(second, job);
}

#[test]
fn abandoning_frees_the_job_and_forgets_its_outcome() {
    let mut adapter = ScriptedTransfer::default();
    adapter.set_pending_polls(3);
    let job = adapter.start(handoff(b"{}")).unwrap();
    assert!(!adapter.abandon(TransferJobId(job.0 + 1)));
    assert!(adapter.abandon(job));
    assert!(!adapter.abandon(job));
    assert_eq!(adapter.abandoned(), 1);
    assert_eq!(adapter.poll(job), TransferJobState::Unknown);
    assert!(adapter.handed_off().is_empty());
    adapter.start(handoff(b"{}")).unwrap();
}

#[test]
fn scripted_replies_cover_every_terminal_shape() {
    let mut adapter = ScriptedTransfer::default();
    adapter.push_reply(ScriptedReply::Cancel);
    adapter.push_reply(ScriptedReply::Fail(TransferFailureCode::Platform));
    adapter.push_reply(ScriptedReply::Refuse(TransferFailureCode::Busy));
    adapter.push_reply(ScriptedReply::WrongShape);
    adapter.push_reply(ScriptedReply::Forget);
    adapter.set_default_reply(ScriptedReply::Complete(HandoffOutcome::DurablySaved));

    let job = adapter.start(handoff(b"{}")).unwrap();
    assert_eq!(
        adapter.poll(job),
        TransferJobState::Complete(Ok(TransferOutcome::Cancelled))
    );
    let job = adapter.start(handoff(b"{}")).unwrap();
    assert_eq!(
        adapter.poll(job),
        TransferJobState::Complete(Err(TransferError::new(TransferFailureCode::Platform)))
    );
    assert_eq!(
        adapter.start(handoff(b"{}")),
        Err(TransferError::new(TransferFailureCode::Busy))
    );
    assert!(!adapter.busy(), "a refused start holds nothing");
    let job = adapter.start(handoff(b"{}")).unwrap();
    assert!(matches!(
        adapter.poll(job),
        TransferJobState::Complete(Ok(TransferOutcome::ImportChosen { .. }))
    ));
    let job = adapter.start(handoff(b"{}")).unwrap();
    assert_eq!(adapter.poll(job), TransferJobState::Unknown);
    assert!(!adapter.busy());
    let job = adapter.start(handoff(b"{}")).unwrap();
    assert_eq!(
        adapter.poll(job),
        TransferJobState::Complete(Ok(TransferOutcome::ExportHandedOff(
            HandoffOutcome::DurablySaved
        )))
    );
    assert_eq!(adapter.handed_off().len(), 1, "only the completed handoff");
    assert_eq!(
        adapter.started().len(),
        5,
        "the refused start is not recorded"
    );
}

#[test]
fn imports_deliver_at_most_the_requested_bytes() {
    let mut adapter = ScriptedTransfer::default();
    let choose = |max_bytes| TransferRequest::ChooseImport {
        kind: TransferKind::ContentPack,
        max_bytes,
    };

    let job = adapter.start(choose(4)).unwrap();
    assert_eq!(
        adapter.poll(job),
        TransferJobState::Complete(Ok(TransferOutcome::Cancelled)),
        "no file chosen"
    );

    adapter.set_import_bytes(Some(b"abcd".to_vec()));
    let job = adapter.start(choose(4)).unwrap();
    assert_eq!(
        adapter.poll(job),
        TransferJobState::Complete(Ok(TransferOutcome::ImportChosen {
            kind: TransferKind::ContentPack,
            bytes: b"abcd".to_vec(),
        }))
    );
    let job = adapter.start(choose(3)).unwrap();
    assert_eq!(
        adapter.poll(job),
        TransferJobState::Complete(Err(TransferError::new(TransferFailureCode::TooLarge)))
    );

    adapter.push_reply(ScriptedReply::WrongShape);
    let job = adapter.start(choose(4)).unwrap();
    assert!(matches!(
        adapter.poll(job),
        TransferJobState::Complete(Ok(TransferOutcome::ExportHandedOff(_)))
    ));
    assert!(adapter.handed_off().is_empty());
}

#[test]
fn the_protocol_is_object_safe() {
    let mut boxed: Box<dyn TransferAdapter> = Box::new(ScriptedTransfer::default());
    let job = boxed.start(handoff(b"{}")).unwrap();
    assert!(matches!(boxed.poll(job), TransferJobState::Complete(Ok(_))));
}

#[test]
fn failure_messages_are_fixed_text() {
    for code in [
        TransferFailureCode::Unavailable,
        TransferFailureCode::Busy,
        TransferFailureCode::TooLarge,
        TransferFailureCode::Exhausted,
        TransferFailureCode::Platform,
        TransferFailureCode::Protocol,
    ] {
        assert_eq!(TransferError::new(code).to_text(), code.message());
        assert!(code.message().ends_with('.'));
    }
}

#[test]
fn sanitizing_keeps_letters_digits_dash_and_underscore_only() {
    assert_eq!(sanitize_char('a'), 'a');
    assert_eq!(sanitize_char('Z'), 'Z');
    assert_eq!(sanitize_char('7'), '7');
    assert_eq!(sanitize_char('-'), '-');
    assert_eq!(sanitize_char('_'), '_');
    assert_eq!(sanitize_char(' '), '-');
    assert_eq!(sanitize_char('.'), '_');
    assert_eq!(sanitize_char('é'), '_');
}

#[test]
fn slot_names_are_one_to_sixty_four_printable_characters() {
    assert!(SlotName::new("").is_none());
    assert!(SlotName::new(&"x".repeat(65)).is_none());
    assert!(SlotName::new("tab\there").is_none());
    assert_eq!(SlotName::new("Forge").unwrap().as_str(), "Forge");
}

#[test]
fn a_wrong_shaped_handoff_answer_carries_an_empty_object() {
    let mut adapter = ScriptedTransfer::default();
    adapter.push_reply(ScriptedReply::WrongShape);
    let job = adapter.start(handoff(b"{}")).unwrap();
    assert_eq!(
        adapter.poll(job),
        TransferJobState::Complete(Ok(TransferOutcome::ImportChosen {
            kind: TransferKind::WorkshopArchive,
            bytes: b"{}".to_vec(),
        }))
    );
}
