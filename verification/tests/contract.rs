use envoix_ffi::api::application_engine::{
    check_state_directory, command_envelope_identifiers, non_empty_string,
    require_state_directory, EngineRefusal, FfiApplicationEngine,
};
use envoix_ffi::api::contract::{
    envoix_application_binding_info, vault_error_text, FfiApplicationCommand,
    FfiApplicationError, FfiApplicationErrorCode, FfiApplicationEvent,
    FfiApplicationEventEnvelope, FfiApplicationVaultError, FfiApplyOutcome,
    FfiCapabilityAvailability, FfiPlatformCapability, FfiTransferRejection,
    ENVOIX_APPLICATION_BINDING_VERSION, MAX_PENDING_RELATIONSHIPS,
};
use envoix_ffi::api::contract_engine::{
    ApplicationErrorCode, ApplyError, ApplyOutcome, CapabilityAvailability, CapabilityTable,
    CommandEnvelope, DeviceRecord, EffectEnvelope, EngineCommand, EngineEffect, EngineEvent,
    EngineSnapshot, EngineStoreError, EventEnvelope, FailureCode, FailurePhase, FailureRecord,
    PlatformPortError, PreparedRememberedDevice, RecoveryAction, RelationshipRecord,
    RelationshipState, RememberedDeviceRecord, RoomCloseReason, RoomRecord, RoomState,
    StoreErrorKind, TransferDirection, TransferFailure, TransferRecord, TransferRejection,
    TransferState,
};
use envoix_ffi::api::contract_map::{
    core_command_envelope, core_event_envelope, core_vault_error, ffi_command_envelope,
    ffi_effect_envelope, ffi_event_envelope, ffi_snapshot, store_error,
};
use envoix_ffi::api::types::{
    envoix_core_info, FfiFailureCode, FfiRecoveryAction, FfiTransferDirection,
};

const CONTRACT_VERSION: u16 = 6;

fn table() -> CapabilityTable {
    CapabilityTable {
        secure_vault: CapabilityAvailability::Available,
        file_source: CapabilityAvailability::Limited,
        file_destination: CapabilityAvailability::Unavailable,
        nearby_discovery: CapabilityAvailability::Available,
        clipboard_read: CapabilityAvailability::Available,
        clipboard_write: CapabilityAvailability::Available,
        background_execution: CapabilityAvailability::Available,
        notifications: CapabilityAvailability::Limited,
    }
}

fn snapshot() -> EngineSnapshot {
    EngineSnapshot {
        contract_version: CONTRACT_VERSION,
        last_sequence: 0,
        capabilities: table(),
        devices: Vec::new(),
        relationships: Vec::new(),
        rooms: Vec::new(),
        transfers: Vec::new(),
    }
}

fn command(command: EngineCommand) -> CommandEnvelope {
    CommandEnvelope { contract_version: CONTRACT_VERSION, command_id: "command-1".into(), command }
}

fn commands() -> Vec<CommandEnvelope> {
    let id = || "transfer-1".to_string();
    vec![
        command(EngineCommand::CreateRoom),
        command(EngineCommand::JoinRoom { invitation: "invite".into() }),
        command(EngineCommand::VerifyPairing {
            room_id: "room-1".into(),
            verification_code: "123456".into(),
        }),
        command(EngineCommand::ReconnectRelationship { relationship_id: "r-1".into() }),
        command(EngineCommand::CreateTransfer {
            relationship_id: "r-1".into(),
            content_id: "c-1".into(),
            direction: TransferDirection::Receive,
        }),
        command(EngineCommand::AcceptTransfer { transfer_id: id() }),
        command(EngineCommand::RejectTransfer {
            transfer_id: id(),
            reason: TransferRejection::InsufficientSpace,
        }),
        command(EngineCommand::PauseTransfer { transfer_id: id() }),
        command(EngineCommand::ResumeTransfer { transfer_id: id() }),
        command(EngineCommand::RecoverTransfer { transfer_id: id() }),
        command(EngineCommand::CancelTransfer { transfer_id: id() }),
        command(EngineCommand::RemoveTransfer { transfer_id: id() }),
        command(EngineCommand::RevokeRelationship { relationship_id: "r-1".into() }),
    ]
}

fn code(error: &FfiApplicationError) -> FfiApplicationErrorCode {
    match error {
        FfiApplicationError::Failed { code, .. } => *code,
    }
}

fn reason(error: &FfiApplicationError) -> String {
    match error {
        FfiApplicationError::Failed { reason, .. } => reason.clone(),
    }
}

fn store_failure(kind: StoreErrorKind) -> EngineStoreError {
    EngineStoreError { kind, message: "store".into() }
}

fn device(index: usize) -> PreparedRememberedDevice {
    PreparedRememberedDevice { id: format!("device-{index}"), label: format!("Android {index}") }
}

fn record(generation: u64, previous: Option<u64>, label: &str) -> RememberedDeviceRecord {
    RememberedDeviceRecord {
        id: "device-0".into(),
        label: label.into(),
        generation,
        previous_generation: previous,
        broker: "broker".into(),
        relay: Some("https://relay".into()),
    }
}

fn persistent() -> FfiApplicationEngine {
    FfiApplicationEngine::open_persistent(&Ok(())).ok().unwrap()
}

#[test]
fn every_current_command_round_trips_without_json() {
    for command in commands() {
        let projected = ffi_command_envelope(&command);
        let round_trip = core_command_envelope(&projected, &None).ok().unwrap();
        assert!(round_trip == command);
    }
}

#[test]
fn refused_identifiers_are_invalid_input() {
    let projected = ffi_command_envelope(&commands()[1]);
    let error = core_command_envelope(&projected, &Some("bad id".into())).err().unwrap();
    assert_eq!(code(&error), FfiApplicationErrorCode::InvalidInput);
    assert_eq!(reason(&error), "bad id");
    let ids = command_envelope_identifiers(&projected);
    assert_eq!(ids.len(), 2);
    assert_eq!(ids[0].text, "command-1");
    assert_eq!(ids[1].text, "invite");
}

#[test]
fn engine_answers_to_events_are_mapped() {
    let engine = FfiApplicationEngine::new();
    assert_eq!(
        engine.apply(&Ok(ApplyOutcome::Applied)).ok().unwrap(),
        FfiApplyOutcome::Applied
    );
    assert_eq!(
        engine.apply(&Ok(ApplyOutcome::IgnoredDuplicate)).ok().unwrap(),
        FfiApplyOutcome::IgnoredDuplicate
    );
    let gap = EngineRefusal::Apply(ApplyError {
        code: ApplicationErrorCode::EventGap,
        message: "gap".into(),
    });
    assert!(matches!(
        engine.apply(&Err(gap)),
        Err(FfiApplicationError::Failed { code: FfiApplicationErrorCode::EventGap, .. })
    ));
}

#[test]
fn binding_negotiation_is_explicit_and_secret_free() {
    let binding = envoix_application_binding_info(CONTRACT_VERSION);
    assert_eq!(binding.binding_version, ENVOIX_APPLICATION_BINDING_VERSION);
    assert_eq!(binding.contract_version, CONTRACT_VERSION);
    let info = envoix_core_info("0.3.0");
    assert!(info.capabilities.contains(&"typed_application_contract_v6".to_string()));
    assert!(info.capabilities.contains(&"persistent_application_engine_v1".to_string()));

    let engine = FfiApplicationEngine::new();
    let diagnostic = format!("{:?}", engine.snapshot(&snapshot())).to_ascii_lowercase();
    assert!(!diagnostic.contains("credential"));
    assert!(!diagnostic.contains("invitation"));
    assert!(!diagnostic.contains("verification"));
    assert!(matches!(
        engine.relationships(&Vec::new()),
        Err(FfiApplicationError::Failed {
            code: FfiApplicationErrorCode::StateUnavailable,
            ..
        })
    ));
}

#[test]
fn events_come_back_as_they_went() {
    let event = EventEnvelope {
        contract_version: CONTRACT_VERSION,
        sequence: 3,
        event: EngineEvent::RoomClosed {
            room_id: "room-1".into(),
            reason: RoomCloseReason::NetworkLost,
        },
    };
    let shown = ffi_event_envelope(&event, &table(), "").ok().unwrap();
    let back = core_event_envelope(&shown, &None).ok().unwrap();
    assert!(back == event);
    assert_eq!(back.sequence, 3);
}

#[test]
fn failed_transfers_carry_their_message_key() {
    let event = EventEnvelope {
        contract_version: CONTRACT_VERSION,
        sequence: 9,
        event: EngineEvent::TransferFailed {
            transfer_id: "t".into(),
            failure: TransferFailure {
                code: FailureCode::NetworkLost,
                phase: FailurePhase::Transferring,
                retryable: true,
                recovery_action: RecoveryAction::Retry,
            },
        },
    };
    let shown = ffi_event_envelope(&event, &table(), "transfer.network_lost").ok().unwrap();
    match &shown.event {
        FfiApplicationEvent::TransferFailed { transfer_id, failure } => {
            assert_eq!(transfer_id, "t");
            assert_eq!(failure.code, FfiFailureCode::NetworkLost);
            assert_eq!(failure.recovery_action, FfiRecoveryAction::Retry);
            assert_eq!(failure.user_message_key, "transfer.network_lost");
        }
        _ => panic!("expected a failed transfer"),
    }
    assert!(core_event_envelope(&shown, &None).ok().unwrap() == event);
}

#[test]
fn retired_events_are_not_shown() {
    for event in [
        EngineEvent::RoomConnected { room_id: "r".into() },
        EngineEvent::TransferDelivered { transfer_id: "t".into() },
    ] {
        let envelope = EventEnvelope { contract_version: CONTRACT_VERSION, sequence: 1, event };
        let error = ffi_event_envelope(&envelope, &table(), "").err().unwrap();
        assert_eq!(code(&error), FfiApplicationErrorCode::UnsupportedEvent);
    }
}

#[test]
fn capabilities_are_shown_in_a_fixed_order() {
    let shown = ffi_snapshot(&snapshot());
    let values = &shown.capabilities.values;
    assert_eq!(values.len(), 8);
    assert_eq!(values[0].capability, FfiPlatformCapability::SecureVault);
    assert_eq!(values[1].availability, FfiCapabilityAvailability::Limited);
    assert_eq!(values[2].availability, FfiCapabilityAvailability::Unavailable);
    assert_eq!(values[7].capability, FfiPlatformCapability::Notifications);
    let event = FfiApplicationEventEnvelope {
        contract_version: CONTRACT_VERSION,
        sequence: 1,
        event: FfiApplicationEvent::CapabilitiesChanged { capabilities: shown.capabilities },
    };
    let core = core_event_envelope(&event, &None).ok().unwrap();
    let again = ffi_event_envelope(&core, &table(), "").ok().unwrap();
    assert!(again == event);
}

#[test]
fn snapshots_show_every_record() {
    let mut full = snapshot();
    full.last_sequence = 12;
    full.devices.push(DeviceRecord { id: "d".into(), display_name: "Phone".into() });
    full.relationships.push(RelationshipRecord {
        id: "r".into(),
        device_id: "d".into(),
        generation: 2,
        previous_generation: Some(1),
        state: RelationshipState::Revoked,
    });
    full.rooms.push(RoomRecord {
        id: "room".into(),
        relationship_id: Some("r".into()),
        state: RoomState::Closed,
        close_reason: Some(RoomCloseReason::Replaced),
        replacement_room_id: Some("next".into()),
    });
    full.transfers.push(TransferRecord {
        id: "t".into(),
        relationship_id: "r".into(),
        room_id: None,
        content_id: "c".into(),
        direction: TransferDirection::Send,
        state: TransferState::Failed,
        transferred_bytes: 3,
        total_bytes: 5,
        failure: Some(FailureRecord {
            failure: TransferFailure {
                code: FailureCode::InternalError,
                phase: FailurePhase::Setup,
                retryable: false,
                recovery_action: RecoveryAction::NoAction,
            },
            message_key: "key".into(),
        }),
        rejection: Some(TransferRejection::Busy),
    });
    let shown = ffi_snapshot(&full);
    assert_eq!(shown.last_sequence, 12);
    assert_eq!(shown.devices[0].display_name, "Phone");
    assert_eq!(shown.relationships[0].previous_generation, Some(1));
    assert_eq!(shown.rooms[0].replacement_room_id.as_deref(), Some("next"));
    let transfer = &shown.transfers[0];
    assert_eq!(transfer.direction, FfiTransferDirection::Send);
    assert_eq!(transfer.rejection, Some(FfiTransferRejection::Busy));
    let failure = transfer.failure.as_ref().unwrap();
    assert_eq!(failure.code, FfiFailureCode::InternalError);
    assert_eq!(failure.user_message_key, "key");
}

#[test]
fn effects_are_shown() {
    let shown = ffi_effect_envelope(&EffectEnvelope {
        contract_version: CONTRACT_VERSION,
        command_id: "c".into(),
        effect: EngineEffect::RecoverTransfer {
            transfer_id: "t".into(),
            action: RecoveryAction::RePair,
        },
    });
    assert_eq!(shown.command_id, "c");
    let engine = FfiApplicationEngine::new();
    let refused = engine.decide(&Err(ApplyError {
        code: ApplicationErrorCode::EntityNotFound,
        message: "no such room".into(),
    }));
    let error = refused.err().unwrap();
    assert_eq!(code(&error), FfiApplicationErrorCode::EntityNotFound);
    assert_eq!(reason(&error), "no such room");
}

#[test]
fn persistent_relationships_use_engine_state_and_the_foreign_vault() {
    let mut engine = persistent();
    let prepared = PreparedRememberedDevice {
        id: "device-0".into(),
        label: "Android Tablet".into(),
    };
    let pending = engine.prepare_relationship(Ok(prepared)).ok().unwrap();
    let committed = engine
        .commit_relationship(
            &pending.relationship_id,
            &Ok(()),
            &Some(record(7, None, "Android Tablet")),
        )
        .ok()
        .unwrap();
    assert_eq!(committed.label, "Android Tablet");
    assert_eq!(committed.generation, 7);
    assert_eq!(committed.relay, "https://relay");
    let listed = engine.relationships(&vec![record(7, None, "Android Tablet")]).ok().unwrap();
    assert_eq!(listed, vec![committed]);
    let loaded = engine
        .load_relationship(&Some(record(7, None, "Android Tablet")), &Ok(vec![0x42; 32]))
        .ok()
        .unwrap()
        .unwrap();
    assert_eq!(loaded.opaque_credential, vec![0x42; 32]);
    let rotated = engine
        .rotate_relationship(&Ok(()), &Some(record(8, Some(7), "Android Tablet")))
        .ok()
        .unwrap();
    assert_eq!(rotated.previous_generation, Some(7));
    assert_eq!(
        engine.rename_relationship(&Ok(record(8, Some(7), "Pixel Tablet"))).ok().unwrap().label,
        "Pixel Tablet"
    );
    assert!(engine.revoke_relationship(&Ok(record(8, Some(7), "Pixel Tablet"))).is_ok());
    assert!(engine.relationships(&Vec::new()).ok().unwrap().is_empty());
    assert!(engine.load_relationship(&None, &Ok(Vec::new())).ok().unwrap().is_none());
    // the pending entry left with its commit
    assert!(engine.relationship_to_commit("device-0").is_err());
}

#[test]
fn persistent_engine_has_one_owner_and_typed_legacy_rejection() {
    let error = check_state_directory("relative-state").err().unwrap();
    assert_eq!(code(&error), FfiApplicationErrorCode::InvalidInput);
    assert!(check_state_directory("/absolute/state").is_ok());
    assert!(check_state_directory("relative/state").is_err());
    assert!(require_state_directory(true).is_ok());
    let opened = |kind| {
        code(&FfiApplicationEngine::open_persistent(&Err(store_failure(kind))).err().unwrap())
    };
    assert_eq!(opened(StoreErrorKind::AlreadyOwned), FfiApplicationErrorCode::StateAlreadyOwned);
    assert_eq!(
        opened(StoreErrorKind::UnsupportedLegacyState),
        FfiApplicationErrorCode::UnsupportedPersistentState
    );
}

#[test]
fn vault_interaction_failure_does_not_commit_or_expose_a_relationship() {
    let mut engine = persistent();
    let pending = engine.prepare_relationship(Ok(device(0))).ok().unwrap();
    let error = engine
        .commit_relationship(
            &pending.relationship_id,
            &Err(store_failure(StoreErrorKind::PlatformPort(
                PlatformPortError::InteractionRequired,
            ))),
            &None,
        )
        .err()
        .unwrap();
    assert_eq!(code(&error), FfiApplicationErrorCode::VaultInteractionRequired);
    assert!(engine.relationships(&Vec::new()).ok().unwrap().is_empty());
    assert!(engine.snapshot(&snapshot()).relationships.is_empty());
    assert!(matches!(
        store_error(&store_failure(StoreErrorKind::PlatformPort(PlatformPortError::Canceled))),
        FfiApplicationError::Failed { code: FfiApplicationErrorCode::VaultCanceled, .. }
    ));
}

#[test]
fn missing_vault_material_is_typed_and_preserves_the_relationship() {
    let engine = persistent();
    let known = record(0, None, "Android");
    let error = engine
        .load_relationship(
            &Some(known),
            &Err(store_failure(StoreErrorKind::MissingVaultCredential)),
        )
        .err()
        .unwrap();
    assert_eq!(code(&error), FfiApplicationErrorCode::VaultCorrupt);
    assert_eq!(engine.relationships(&vec![record(0, None, "Android")]).ok().unwrap().len(), 1);
}

#[test]
fn pending_relationships_are_bounded_and_discardable() {
    let mut engine = persistent();
    for index in 0..MAX_PENDING_RELATIONSHIPS {
        assert!(engine.prepare_refusal().is_none());
        assert!(engine.prepare_relationship(Ok(device(index))).is_ok());
    }

    let overflow = PreparedRememberedDevice { id: "overflow".into(), label: "overflow".into() };
    assert!(matches!(
        engine.prepare_relationship(Ok(overflow)),
        Err(FfiApplicationError::Failed { code: FfiApplicationErrorCode::InvalidInput, .. })
    ));
    assert!(engine.discard_prepared_relationship("device-0").is_ok());
    let replacement =
        PreparedRememberedDevice { id: "replacement".into(), label: "replacement".into() };
    assert!(engine.prepare_relationship(Ok(replacement)).is_ok());
}

#[test]
fn volatile_engines_keep_no_relationships() {
    let mut engine = FfiApplicationEngine::new();
    assert_eq!(
        code(&engine.prepare_refusal().unwrap()),
        FfiApplicationErrorCode::StateUnavailable
    );
    assert!(engine.prepare_relationship(Ok(device(0))).is_err());
    assert!(engine.discard_prepared_relationship("x").is_err());
    assert!(engine.load_relationship(&None, &Ok(Vec::new())).is_err());
    assert!(engine.rotate_relationship(&Ok(()), &None).is_err());
}

#[test]
fn store_errors_keep_their_kind() {
    let of = |kind| code(&store_error(&store_failure(kind)));
    assert_eq!(
        of(StoreErrorKind::UnsupportedSchema),
        FfiApplicationErrorCode::UnsupportedPersistentState
    );
    assert_eq!(
        of(StoreErrorKind::PlatformPort(PlatformPortError::PermissionDenied)),
        FfiApplicationErrorCode::VaultPermissionDenied
    );
    assert_eq!(
        of(StoreErrorKind::PlatformPort(PlatformPortError::CorruptData)),
        FfiApplicationErrorCode::VaultCorrupt
    );
    assert_eq!(
        of(StoreErrorKind::PlatformPort(PlatformPortError::Unavailable)),
        FfiApplicationErrorCode::VaultUnavailable
    );
    assert_eq!(
        of(StoreErrorKind::Io { invalid_input: true }),
        FfiApplicationErrorCode::InvalidInput
    );
    assert_eq!(
        of(StoreErrorKind::Io { invalid_input: false }),
        FfiApplicationErrorCode::StateUnavailable
    );
    assert_eq!(of(StoreErrorKind::Decode), FfiApplicationErrorCode::StateUnavailable);
    assert_eq!(
        core_vault_error(FfiApplicationVaultError::Limited),
        PlatformPortError::Limited
    );
    assert_eq!(
        vault_error_text(FfiApplicationVaultError::Canceled),
        "secure vault operation was canceled"
    );
    assert_eq!(non_empty_string(""), None);
    assert_eq!(non_empty_string(" "), Some(" "));
}

#[test]
fn joins_show_their_invitation() {
    let shown = ffi_command_envelope(&commands()[1]);
    assert!(matches!(
        shown.command,
        FfiApplicationCommand::JoinRoom { invitation } if invitation == "invite"
    ));
}
