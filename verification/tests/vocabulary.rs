use nyon::advisory::{AdvisoryTrigger, advisory_gpu_enabled, advisory_request_due};
use nyon::client::{
    ClientDiagnosticCode, ExportSource, OpenPurpose, SlotRequestKind, prepared_export,
    safe_client_diagnostic, slot_request_kind, slot_request_mutates, slot_request_slot,
};
use nyon::editor::{
    ConfirmationAction, EditorAction, EditorSection, action_id, confirmation_message,
    section_label, truncate_ascii, widget_id_for_issue,
};
use nyon::game::{
    CommandRejection, Faction, FieldAdjustment, FieldKind, GameCommand, HazardKind, Tick,
    WorldId, command_rejection_label, faction_tag, hazard_parameter, route_key,
};
use nyon::input::Action;
use nyon::library::SlotIntent;
use nyon::presentation::UiScale;
use nyon::session::{GameSpeed, PointerIntent, game_command_for_action, pointer_command};
use nyon::shader::{ShaderError, validate_wgsl};
use nyon::store::{
    CatalogHash, LoadedSlot, SaveGeneration, SlotId, SlotName, WorkshopStoreError,
    WorkshopStoreRequest,
};
use nyon::transfer::TransferKind;

const VALID_SHADER: &str = "@vertex
fn vs_main(@builtin(vertex_index) index: u32) -> @builtin(position) vec4<f32> {
    return vec4<f32>(f32(index), 0.0, 0.0, 1.0);
}
";

#[test]
fn valid_wgsl_passes_and_broken_wgsl_names_its_shader() {
    assert!(validate_wgsl("primitives", VALID_SHADER).is_ok());
    match validate_wgsl("primitives", "fn broken( {") {
        Err(ShaderError::Parse { label, diagnostic }) => {
            assert_eq!(label, "primitives");
            assert!(!diagnostic.is_empty());
        }
        other => panic!("expected a parse error, got {other:?}"),
    }
    let invalid = "@vertex
fn vs_main() -> @builtin(position) vec4<f32> {
    let value: f32 = 1u;
    return vec4<f32>(value, 0.0, 0.0, 1.0);
}
";
    match validate_wgsl("scene", invalid) {
        Err(ShaderError::Parse { label, .. }) | Err(ShaderError::Validation { label, .. }) => {
            assert_eq!(label, "scene")
        }
        Ok(_) => panic!("a mistyped shader must be refused"),
    }
}

#[test]
fn diagnostics_are_fixed_sentences() {
    assert_eq!(
        safe_client_diagnostic(ClientDiagnosticCode::Store),
        "Workshop storage is temporarily unavailable."
    );
    assert_eq!(
        safe_client_diagnostic(ClientDiagnosticCode::StaleSave),
        "That save changed before it opened. Refresh the list and try again."
    );
    assert_eq!(
        safe_client_diagnostic(ClientDiagnosticCode::Transfer),
        "The portable copy could not be handed off."
    );
}

#[test]
fn export_labels_never_claim_more_than_the_bytes_are() {
    let head = ExportSource::Head {
        slot: SlotId(1),
        generation: SaveGeneration(4),
    };
    let predecessor = ExportSource::RecoveredPredecessor {
        slot: SlotId(1),
        generation: SaveGeneration(3),
    };
    let unsaved = ExportSource::ActiveWorkshop {
        continue_ready: false,
    };
    let saved = ExportSource::ActiveWorkshop {
        continue_ready: true,
    };
    let pack = ExportSource::ActivePack {
        hash: CatalogHash([0; 32]),
    };
    assert_eq!(head.label(), "Latest save");
    assert_eq!(head.qualifier(), None);
    assert_eq!(
        predecessor.qualifier(),
        Some("Recovered predecessor; stored head and Continue unchanged")
    );
    assert_eq!(
        unsaved.qualifier(),
        Some("Portable export; Workshop not saved for Continue")
    );
    assert_eq!(saved.qualifier(), None);
    assert_eq!(saved.label(), "Open Workshop, as saved for Continue");
    assert_eq!(pack.label(), "Content pack of the open Workshop");
    assert_eq!(pack.kind(), TransferKind::ContentPack);
    assert_eq!(head.kind(), TransferKind::WorkshopArchive);
    assert_eq!(predecessor.slot(), Some(SlotId(1)));
    assert_eq!(predecessor.generation(), Some(SaveGeneration(3)));
    assert_eq!(pack.slot(), None);
    assert_eq!(unsaved.generation(), None);
}

#[test]
fn a_predecessor_export_is_labelled_as_one() {
    let loaded = LoadedSlot {
        slot: SlotId(2),
        name: SlotName::new("Deep Field").unwrap(),
        generation: SaveGeneration(6),
        head_generation: SaveGeneration(7),
        recovered_from_previous: true,
        archived: false,
        archive: vec![1, 2, 3],
    };
    let export = prepared_export(loaded);
    assert_eq!(
        export.source,
        ExportSource::RecoveredPredecessor {
            slot: SlotId(2),
            generation: SaveGeneration(6),
        }
    );
    assert_eq!(export.bytes, vec![1, 2, 3]);
    assert_eq!(export.kind(), TransferKind::WorkshopArchive);
    assert!(export.suggested_name.as_str().starts_with("Deep-Field"));
}

#[test]
fn slot_requests_name_their_kind_and_slot() {
    let rename = WorkshopStoreRequest::RenameSlot {
        slot: SlotId(5),
        name: SlotName::new("Renamed").unwrap(),
    };
    assert_eq!(slot_request_kind(&rename), SlotRequestKind::Rename);
    assert_eq!(slot_request_slot(&rename), Some(SlotId(5)));
    assert!(slot_request_mutates(&rename));
    let archive = WorkshopStoreRequest::ArchiveSlot { slot: SlotId(6) };
    assert_eq!(slot_request_kind(&archive), SlotRequestKind::Archive);
    let unarchive = WorkshopStoreRequest::UnarchiveSlot { slot: SlotId(6) };
    assert_eq!(slot_request_kind(&unarchive), SlotRequestKind::Unarchive);
    assert_eq!(
        slot_request_kind(&WorkshopStoreRequest::ListSlots),
        SlotRequestKind::List
    );
    assert_eq!(slot_request_slot(&WorkshopStoreRequest::ListSlots), None);
    assert!(!slot_request_mutates(&WorkshopStoreRequest::ListSlots));
    assert_eq!(OpenPurpose::Install.kind(), SlotRequestKind::Open);
    assert_eq!(OpenPurpose::SelectOnly.kind(), SlotRequestKind::UseForContinue);
    assert_eq!(OpenPurpose::Export.kind(), SlotRequestKind::Export);
    assert_eq!(OpenPurpose::SelectOnly.intent(), SlotIntent::Open);
    assert_eq!(OpenPurpose::Export.intent(), SlotIntent::Export);
}

#[test]
fn store_failures_carry_their_reason() {
    assert_eq!(
        WorkshopStoreError::Rejected(String::from("quota exceeded")).into_message(),
        "quota exceeded"
    );
    assert_eq!(
        WorkshopStoreError::StaleGeneration {
            slot: SlotId(1),
            expected: SaveGeneration(2),
            head: SaveGeneration(3),
        }
        .into_message(),
        "the slot changed before the request completed"
    );
}

#[test]
fn catalog_hashes_match_byte_for_byte() {
    let a = CatalogHash([7; 32]);
    let mut bytes = [7; 32];
    assert!(a.matches(&CatalogHash(bytes)));
    bytes[31] = 8;
    assert!(!a.matches(&CatalogHash(bytes)));
}

#[test]
fn issue_fields_point_at_their_widgets() {
    assert_eq!(widget_id_for_issue("rules.tick_rate"), "rule.tick_rate");
    assert_eq!(widget_id_for_issue("worlds[2].position"), "world.2.x");
    assert_eq!(widget_id_for_issue("worlds[0].fields"), "world.0.atmosphere");
    assert_eq!(widget_id_for_issue("worlds[11]..name"), "world.11.name");
    assert_eq!(widget_id_for_issue("worlds[3]"), "world.3.");
    assert_eq!(widget_id_for_issue("worlds[3"), "worlds[3");
    assert_eq!(widget_id_for_issue("seed"), "seed");
}

#[test]
fn long_labels_are_cut_with_an_ellipsis() {
    assert_eq!(truncate_ascii("SHORT", 8), "SHORT");
    assert_eq!(truncate_ascii("CONSTELLATION", 8), "CONST...");
    assert_eq!(truncate_ascii("CONSTELLATION", 3), "CON");
    assert_eq!(truncate_ascii("CONSTELLATION", 0), "");
}

#[test]
fn editor_controls_have_fixed_identifiers_and_questions() {
    assert_eq!(action_id(EditorAction::ApplyAndRestart), "action.apply");
    assert_eq!(
        action_id(EditorAction::SelectSection(EditorSection::Rules)),
        "action.select_section"
    );
    assert_eq!(section_label(EditorSection::Validation), "VALIDATION");
    assert_eq!(
        confirmation_message(ConfirmationAction::OverwriteSave),
        "REPLACE THE OCCUPIED SAVE SLOT?"
    );
}

#[test]
fn actions_become_commands_only_with_the_worlds_they_need() {
    let selected = Some(WorldId(1));
    let hovered = Some(WorldId(4));
    assert_eq!(
        game_command_for_action(Action::Launch, selected, hovered, FieldKind::Topology),
        Some(GameCommand::Launch {
            source: WorldId(1),
            destination: WorldId(4),
        })
    );
    assert_eq!(
        game_command_for_action(Action::Launch, selected, None, FieldKind::Topology),
        None
    );
    assert_eq!(
        game_command_for_action(Action::Decrease, selected, None, FieldKind::Hydrosphere),
        Some(GameCommand::TuneField {
            world: WorldId(1),
            field: FieldKind::Hydrosphere,
            adjustment: FieldAdjustment::Decrease,
        })
    );
    assert_eq!(
        game_command_for_action(Action::Increase, None, hovered, FieldKind::Hydrosphere),
        None
    );
    assert_eq!(
        game_command_for_action(Action::Pause, selected, hovered, FieldKind::Atmosphere),
        None
    );
    assert_eq!(
        pointer_command(Some(WorldId(4)), selected, PointerIntent::Launch),
        Some(GameCommand::Launch {
            source: WorldId(1),
            destination: WorldId(4),
        })
    );
    assert_eq!(
        pointer_command(Some(WorldId(4)), selected, PointerIntent::Select),
        None
    );
    assert_eq!(pointer_command(None, selected, PointerIntent::Launch), None);
}

#[test]
fn game_speed_steps_stop_at_the_ends() {
    assert_eq!(GameSpeed::default(), GameSpeed::Normal);
    assert_eq!(GameSpeed::VeryFast.faster(), GameSpeed::VeryFast);
    assert_eq!(GameSpeed::Paused.slower(), GameSpeed::Paused);
    assert_eq!(GameSpeed::Normal.faster().slower(), GameSpeed::Normal);
    assert_eq!(GameSpeed::Fast.multiplier(), 2);
    assert_eq!(GameSpeed::VeryFast.multiplier(), 4);
    assert_eq!(GameSpeed::Paused.multiplier(), 0);
}

#[test]
fn game_vocabulary_has_fixed_labels_and_tags() {
    assert_eq!(
        command_rejection_label(CommandRejection::InsufficientEnergy),
        "REJECTED - INSUFFICIENT ENERGY"
    );
    assert_eq!(faction_tag(Faction::Choir), 2);
    assert_eq!(hazard_parameter(None), 0);
    assert_eq!(hazard_parameter(Some(HazardKind::GravityTide)), 2);
    assert_eq!(route_key(WorldId(3), WorldId(9), Faction::Helix), (3, 9, 1));
    assert_eq!(UiScale::Percent115.percent(), 115);
}

#[test]
fn advisory_cadence_requests_once_per_multiple() {
    assert!(advisory_request_due(
        AdvisoryTrigger::Restart,
        Tick(7),
        None,
        None
    ));
    assert!(advisory_request_due(AdvisoryTrigger::Tick, Tick(60), None, None));
    assert!(!advisory_request_due(AdvisoryTrigger::Tick, Tick(61), None, None));
    assert!(!advisory_request_due(
        AdvisoryTrigger::Tick,
        Tick(60),
        Some(Tick(60)),
        None
    ));
    assert!(!advisory_request_due(
        AdvisoryTrigger::Tick,
        Tick(60),
        Some(Tick(30)),
        Some(Tick(60))
    ));
    assert!(advisory_gpu_enabled(true, Some(1), 2));
    assert!(!advisory_gpu_enabled(true, Some(2), 2));
    assert!(!advisory_gpu_enabled(false, None, 2));
}
