use envoix_ffi::api::agent_engine::{
    AgentCredentialProtection, AgentDiagnostics, AgentControlTransport, AgentEvent,
    AgentEventCursor, AgentEventEnvelope, AgentHostErrorCode, AgentHostFailure,
    AgentHostLifecycleState, AgentOfferDecision, AgentPathKind, AgentPendingOffer,
    AgentRelationshipChange, AgentRequest, AgentResponse, AgentSnapshot, AgentStatus,
    AgentTransferPath, DeviceSummary, InboxItem, InboxRoot, IoErrorKind, IoFailure,
    PairingInvitation,
};
use envoix_ffi::api::agent_host::{
    bounded_usize, check_control_endpoint, control_io_error, core_agent_request,
    ffi_agent_response, validate_control_endpoint, FfiAgentControlClient, FfiAgentHost,
    HostPlatform, HostTaskEnd, ReadyStep,
};
use envoix_ffi::api::agent_types::{
    FfiAgentControlError, FfiAgentControlErrorCode, FfiAgentControlTransport,
    FfiAgentCredentialProtection, FfiAgentEvent, FfiAgentEventCursor, FfiAgentHostConfiguration,
    FfiAgentHostError, FfiAgentHostErrorCode, FfiAgentHostLifecycleState, FfiAgentOfferDecision,
    FfiAgentPairingInput, FfiAgentPairingInvitation, FfiAgentPathKind, FfiAgentRelationshipChange,
    FfiAgentRequest, FfiAgentResponse,
};
use envoix_ffi::api::contract_engine::{
    CapabilityAvailability, CapabilityTable, EngineSnapshot, TransferDirection, TransferRecord,
    TransferState,
};
use envoix_ffi::api::types::{envoix_core_info, FfiTransferDirection};

fn control_code(error: &FfiAgentControlError) -> FfiAgentControlErrorCode {
    match error {
        FfiAgentControlError::Failed { code, .. } => *code,
    }
}

fn control_reason(error: &FfiAgentControlError) -> String {
    match error {
        FfiAgentControlError::Failed { reason, .. } => reason.clone(),
    }
}

fn io(kind: IoErrorKind, message: &str) -> IoFailure {
    IoFailure { kind, message: message.into() }
}

#[test]
fn api_v25_advertises_the_agent_host_control_capability() {
    let info = envoix_core_info("0.3.0");
    assert_eq!(info.ffi_api_version, 25);
    assert!(info
        .capabilities
        .iter()
        .any(|capability| capability == "agent_host_control_v2"));
}

#[test]
fn typed_requests_cover_every_agent_command() {
    let sensitive = FfiAgentRequest::JoinPairing {
        pairing: FfiAgentPairingInput {
            label: "Fixture WSL".into(),
            invitation: "123456-debug-redaction".into(),
            verification_code: "654321".into(),
        },
    };
    let debug = sensitive.debug_text();
    assert!(!debug.contains("debug-redaction"));
    assert!(!debug.contains("654321"));

    let requests = vec![
        FfiAgentRequest::Status,
        FfiAgentRequest::Snapshot { inbox_limit: 20 },
        FfiAgentRequest::Events {
            after: FfiAgentEventCursor { instance_id: "agent_fixture".into(), sequence: 0 },
            limit: 64,
        },
        FfiAgentRequest::Pair { label: "Fixture Mac".into() },
        FfiAgentRequest::JoinPairing {
            pairing: FfiAgentPairingInput {
                label: "Fixture WSL".into(),
                invitation: "123456-fixture-room".into(),
                verification_code: "654321".into(),
            },
        },
        FfiAgentRequest::ListDevices,
        FfiAgentRequest::RevokeDevice { device: "relationship_fixture".into() },
        FfiAgentRequest::UpdateDeviceRoute {
            device: "relationship_fixture".into(),
            broker: "https://broker.example".into(),
            relay: Some("https://relay.example".into()),
        },
        FfiAgentRequest::CreateTransfer {
            device: "relationship_fixture".into(),
            paths: vec!["/tmp/fixture.txt".into()],
        },
        FfiAgentRequest::ListTransfers,
        FfiAgentRequest::ListTransferPaths,
        FfiAgentRequest::GetTransfer { transfer_id: "transfer_fixture".into() },
        FfiAgentRequest::ListPendingOffers,
        FfiAgentRequest::DecidePendingOffer {
            offer_id: "offer_fixture".into(),
            decision: FfiAgentOfferDecision::Approve,
        },
        FfiAgentRequest::ListInbox { limit: 20 },
        FfiAgentRequest::LatestInbox,
        FfiAgentRequest::Diagnostics,
    ];

    for request in requests {
        assert!(core_agent_request(&request, &None).is_ok());
    }
}

#[test]
fn requests_reach_the_agent_as_they_were_made() {
    let request = FfiAgentRequest::Events {
        after: FfiAgentEventCursor { instance_id: "agent_fixture".into(), sequence: 3 },
        limit: 64,
    };
    match core_agent_request(&request, &None) {
        Ok(AgentRequest::Events { after, limit }) => {
            assert_eq!(after, AgentEventCursor { instance_id: "agent_fixture".into(), sequence: 3 });
            assert_eq!(limit, 64);
        }
        _ => panic!("expected an event request"),
    }
    let request = FfiAgentRequest::CreateTransfer {
        device: "d".into(),
        paths: vec!["/a".into(), "/b".into()],
    };
    match core_agent_request(&request, &None) {
        Ok(AgentRequest::CreateTransfer { device, paths }) => {
            assert_eq!(device, "d");
            assert_eq!(paths, vec!["/a".to_string(), "/b".to_string()]);
        }
        _ => panic!("expected a transfer request"),
    }
}

#[test]
fn invalid_typed_request_fails_before_control_transport() {
    let request = FfiAgentRequest::CreateTransfer {
        device: "relationship_fixture".into(),
        paths: Vec::new(),
    };
    let error = core_agent_request(
        &request,
        &Some(io(IoErrorKind::InvalidInput, "a transfer needs at least one path")),
    )
    .err()
    .unwrap();

    assert!(matches!(
        error,
        FfiAgentControlError::Failed { code: FfiAgentControlErrorCode::InvalidInput, .. }
    ));
}

#[test]
fn incompatible_protocol_has_a_stable_control_error() {
    let error = control_io_error(&io(
        IoErrorKind::Unsupported,
        "unsupported Agent protocol 9; expected 10",
    ));

    assert!(matches!(
        error,
        FfiAgentControlError::Failed { code: FfiAgentControlErrorCode::IncompatibleProtocol, .. }
    ));
}

#[test]
fn control_errors_are_told_by_kind() {
    let code = |kind, message: &str| control_code(&control_io_error(&io(kind, message)));
    assert_eq!(code(IoErrorKind::Unsupported, "no"), FfiAgentControlErrorCode::UnsupportedPlatform);
    assert_eq!(code(IoErrorKind::InvalidInput, ""), FfiAgentControlErrorCode::InvalidInput);
    assert_eq!(code(IoErrorKind::PermissionDenied, ""), FfiAgentControlErrorCode::PermissionDenied);
    assert_eq!(code(IoErrorKind::NotFound, ""), FfiAgentControlErrorCode::Unavailable);
    assert_eq!(code(IoErrorKind::TimedOut, ""), FfiAgentControlErrorCode::Unavailable);
    assert_eq!(code(IoErrorKind::InvalidData, ""), FfiAgentControlErrorCode::InvalidResponse);
    assert_eq!(code(IoErrorKind::UnexpectedEof, ""), FfiAgentControlErrorCode::InvalidResponse);
    assert_eq!(code(IoErrorKind::Other, ""), FfiAgentControlErrorCode::IoFailure);
}

#[test]
fn control_endpoints_are_bounded_visible_paths() {
    let reason = |endpoint: &str| {
        check_control_endpoint(endpoint, HostPlatform::UnixSocket, true)
            .err()
            .map(|error| control_reason(&error))
    };
    let refused = Some("Agent control endpoint must be a bounded visible path".to_string());
    assert_eq!(reason(""), refused);
    assert_eq!(reason("/run/a\u{7}"), refused);
    assert_eq!(reason("/run/\u{85}"), refused);
    assert_eq!(reason(&"é".repeat(2049)), refused);
    assert_eq!(reason(&"é".repeat(2048)), None);
    assert_eq!(reason("/run/agent.sock"), None);
    assert_eq!(
        check_control_endpoint("agent.sock", HostPlatform::UnixSocket, false)
            .err()
            .map(|error| control_reason(&error)),
        Some("Agent control endpoint must be absolute".to_string())
    );
    assert!(check_control_endpoint("agent", HostPlatform::WindowsNamedPipe, false).is_ok());
}

#[test]
fn the_platform_tells_which_endpoints_are_absolute() {
    assert!(validate_control_endpoint("/run/agent.sock", HostPlatform::UnixSocket).is_ok());
    for relative in ["run/agent.sock", "C:/agent.sock", "\\run\\agent"] {
        let error = validate_control_endpoint(relative, HostPlatform::UnixSocket).err().unwrap();
        assert_eq!(control_reason(&error), "Agent control endpoint must be absolute");
        assert!(FfiAgentControlClient::new(relative, HostPlatform::UnixSocket).is_err());
        assert!(validate_control_endpoint(relative, HostPlatform::WindowsNamedPipe).is_ok());
    }
    let client = FfiAgentControlClient::new("/run/agent.sock", HostPlatform::UnixSocket).unwrap();
    assert_eq!(client.endpoint(), "/run/agent.sock");
    let error = FfiAgentControlClient::new("/run/agent.sock", HostPlatform::Unsupported)
        .err()
        .unwrap();
    assert_eq!(control_code(&error), FfiAgentControlErrorCode::UnsupportedPlatform);
}

#[test]
fn counts_have_to_fit_the_platform() {
    assert_eq!(bounded_usize(7, "event limit").unwrap(), 7);
    assert_eq!(bounded_usize(0, "event limit").unwrap(), 0);
}

fn status() -> AgentStatus {
    AgentStatus {
        protocol_version: 9,
        pid: 77,
        device_name: "mac".into(),
        state_directory: "/s".into(),
        inbox_directory: "/i".into(),
        broker: "b".into(),
        relay: Some("r".into()),
        paired_devices: 1,
        active_receivers: 2,
        active_pairings: 3,
        active_paths: 4,
        pending_offers: 5,
    }
}

fn device() -> DeviceSummary {
    DeviceSummary {
        id: "d".into(),
        label: "Tablet".into(),
        generation: 4,
        previous_generation: Some(3),
        broker: "b".into(),
        relay: None,
    }
}

fn transfer() -> TransferRecord {
    TransferRecord {
        id: "t".into(),
        relationship_id: "rel".into(),
        room_id: None,
        content_id: "c".into(),
        direction: TransferDirection::Receive,
        state: TransferState::Queued,
        transferred_bytes: 1,
        total_bytes: 2,
        failure: None,
        rejection: None,
    }
}

fn path() -> AgentTransferPath {
    AgentTransferPath {
        transfer_id: "t".into(),
        direction: TransferDirection::Send,
        path: AgentPathKind::WifiAware,
    }
}

fn offer() -> AgentPendingOffer {
    AgentPendingOffer {
        offer_id: "o".into(),
        from_device_id: "d".into(),
        from_device_label: "Tablet".into(),
        root_names: vec!["a".into(), "b".into()],
        item_count: 2,
        directory_count: 1,
        total_bytes: 9,
        allocatable_bytes: 10,
    }
}

fn item() -> InboxItem {
    InboxItem {
        id: "i".into(),
        received_at_unix_ms: 5,
        from_device_id: "d".into(),
        from_device_label: "Tablet".into(),
        roots: vec![InboxRoot { name: "n".into(), path: "/p".into() }],
        file_count: 1,
        directory_count: 0,
        total_bytes: 3,
    }
}

fn cursor() -> AgentEventCursor {
    AgentEventCursor { instance_id: "agent".into(), sequence: 8 }
}

fn engine() -> EngineSnapshot {
    let on = CapabilityAvailability::Available;
    EngineSnapshot {
        contract_version: 6,
        last_sequence: 4,
        capabilities: CapabilityTable {
            secure_vault: on,
            file_source: on,
            file_destination: on,
            nearby_discovery: on,
            clipboard_read: on,
            clipboard_write: on,
            background_execution: on,
            notifications: CapabilityAvailability::Limited,
        },
        devices: Vec::new(),
        relationships: Vec::new(),
        rooms: Vec::new(),
        transfers: vec![transfer()],
    }
}

fn diagnostics() -> AgentDiagnostics {
    AgentDiagnostics {
        agent_protocol_version: 9,
        application_contract_version: 6,
        engine_schema_version: 2,
        platform: "linux".into(),
        control_transport: AgentControlTransport::UnixSocket,
        credential_protection: AgentCredentialProtection::AppleKeychain,
        engine_sequence: 3,
        relationships: 1,
        transfers: 2,
        inbox_items: 3,
        active_paths: 4,
        pending_offers: 5,
    }
}

#[test]
fn typed_responses_cover_every_agent_response() {
    let event = AgentEventEnvelope {
        protocol_version: 9,
        instance_id: "agent".into(),
        sequence: 1,
        event: AgentEvent::TransferPathChanged {
            transfer_id: "t".into(),
            direction: TransferDirection::Receive,
            path: Some(AgentPathKind::Lan),
        },
    };
    let changed = AgentEventEnvelope {
        protocol_version: 9,
        instance_id: "agent".into(),
        sequence: 2,
        event: AgentEvent::RelationshipChanged {
            relationship_id: "rel".into(),
            change: AgentRelationshipChange::RouteUpdated,
        },
    };
    match ffi_agent_response(&AgentResponse::Status { status: status() }) {
        FfiAgentResponse::Status { status } => {
            assert_eq!(status.pid, 77);
            assert_eq!(status.pending_offers, 5);
            assert_eq!(status.relay.as_deref(), Some("r"));
        }
        _ => panic!("expected a status"),
    }
    match ffi_agent_response(&AgentResponse::Pairing {
        pairing: PairingInvitation {
            label: "Mac".into(),
            room_code: "room".into(),
            verification_code: "code".into(),
            expires_at_unix_seconds: 12,
        },
    }) {
        FfiAgentResponse::Pairing { pairing } => {
            assert_eq!(pairing.room_code, "room");
            assert_eq!(pairing.expires_at_unix_seconds, 12);
        }
        _ => panic!("expected a pairing"),
    }
    match ffi_agent_response(&AgentResponse::Devices { devices: vec![device(), device()] }) {
        FfiAgentResponse::Devices { devices } => {
            assert_eq!(devices.len(), 2);
            assert_eq!(devices[0].previous_generation, Some(3));
        }
        _ => panic!("expected devices"),
    }
    match ffi_agent_response(&AgentResponse::Transfers { transfers: vec![transfer()] }) {
        FfiAgentResponse::Transfers { transfers } => {
            assert_eq!(transfers[0].direction, FfiTransferDirection::Receive);
        }
        _ => panic!("expected transfers"),
    }
    match ffi_agent_response(&AgentResponse::TransferPaths { paths: vec![path()] }) {
        FfiAgentResponse::TransferPaths { paths } => {
            assert_eq!(paths[0].path, FfiAgentPathKind::WifiAware);
        }
        _ => panic!("expected paths"),
    }
    match ffi_agent_response(&AgentResponse::PendingOfferDecided {
        offer: offer(),
        decision: AgentOfferDecision::Reject,
    }) {
        FfiAgentResponse::PendingOfferDecided { offer, decision } => {
            assert_eq!(offer.root_names, vec!["a".to_string(), "b".to_string()]);
            assert_eq!(decision, FfiAgentOfferDecision::Reject);
        }
        _ => panic!("expected a decided offer"),
    }
    match ffi_agent_response(&AgentResponse::Inbox { items: vec![item()] }) {
        FfiAgentResponse::Inbox { items } => assert_eq!(items[0].roots[0].path, "/p"),
        _ => panic!("expected an inbox"),
    }
    assert!(matches!(
        ffi_agent_response(&AgentResponse::Latest { item: None }),
        FfiAgentResponse::Latest { item: None }
    ));
    match ffi_agent_response(&AgentResponse::Snapshot {
        snapshot: AgentSnapshot {
            status: status(),
            engine: engine(),
            inbox: vec![item()],
            active_paths: vec![path()],
            pending_offers: vec![offer()],
            event_cursor: cursor(),
        },
    }) {
        FfiAgentResponse::Snapshot { snapshot } => {
            assert_eq!(snapshot.engine.capabilities.values.len(), 8);
            assert_eq!(snapshot.engine.transfers.len(), 1);
            assert_eq!(snapshot.event_cursor.sequence, 8);
        }
        _ => panic!("expected a snapshot"),
    }
    match ffi_agent_response(&AgentResponse::Events {
        cursor: cursor(),
        events: vec![event, changed],
    }) {
        FfiAgentResponse::Events { events, .. } => {
            assert_eq!(
                events[0].event,
                FfiAgentEvent::TransferPathChanged {
                    transfer_id: "t".into(),
                    direction: FfiTransferDirection::Receive,
                    path: Some(FfiAgentPathKind::Lan),
                }
            );
            assert_eq!(
                events[1].event,
                FfiAgentEvent::RelationshipChanged {
                    relationship_id: "rel".into(),
                    change: FfiAgentRelationshipChange::RouteUpdated,
                }
            );
        }
        _ => panic!("expected events"),
    }
    match ffi_agent_response(&AgentResponse::Diagnostics { diagnostics: diagnostics() }) {
        FfiAgentResponse::Diagnostics { diagnostics } => {
            assert_eq!(diagnostics.control_transport, FfiAgentControlTransport::UnixSocket);
            assert_eq!(
                diagnostics.credential_protection,
                FfiAgentCredentialProtection::AppleKeychain
            );
        }
        _ => panic!("expected diagnostics"),
    }
    match ffi_agent_response(&AgentResponse::Error { code: "c".into(), message: "m".into() }) {
        FfiAgentResponse::Error { code, message } => {
            assert_eq!((code.as_str(), message.as_str()), ("c", "m"));
        }
        _ => panic!("expected an error"),
    }
}

#[test]
fn pairing_debug_output_redacts_ephemeral_codes() {
    let pairing = FfiAgentPairingInvitation {
        label: "Mac".into(),
        room_code: "room-secret".into(),
        verification_code: "verify-secret".into(),
        expires_at_unix_seconds: 1,
    };

    let output = pairing.debug_text();
    assert!(!output.contains("room-secret"));
    assert!(!output.contains("verify-secret"));
    assert_eq!(
        output,
        "FfiAgentPairingInvitation { label: \"Mac\", room_code: \"<redacted>\", \
         verification_code: \"<redacted>\", expires_at_unix_seconds: 1 }"
    );
}

#[test]
fn request_text_quotes_what_is_no_secret() {
    let request = FfiAgentRequest::CreateTransfer {
        device: "a \"b\"".into(),
        paths: vec!["/x".into(), "/y".into()],
    };
    assert_eq!(
        request.debug_text(),
        "CreateTransfer { device: \"a \\\"b\\\"\", paths: [\"/x\", \"/y\"] }"
    );
}

fn configuration() -> FfiAgentHostConfiguration {
    FfiAgentHostConfiguration {
        state_directory: "/s".into(),
        inbox_directory: "/i".into(),
        control_endpoint: "/run/agent.sock".into(),
        device_name: "ffi-host-test".into(),
        broker: "b".into(),
        relay: None,
        credential_protection: FfiAgentCredentialProtection::AppleKeychain,
    }
}

fn host() -> FfiAgentHost {
    FfiAgentHost::start(&configuration(), HostPlatform::UnixSocket, 9, 6).unwrap()
}

fn host_code(error: &FfiAgentHostError) -> FfiAgentHostErrorCode {
    match error {
        FfiAgentHostError::Failed { code, .. } => *code,
    }
}

fn failed() -> AgentHostLifecycleState {
    AgentHostLifecycleState::Failed {
        failure: AgentHostFailure {
            code: AgentHostErrorCode::StateAlreadyOwned,
            reason: "owned".into(),
        },
    }
}

#[test]
fn waiting_for_a_host_follows_its_lifecycle() {
    let host = host();
    match host.wait_until_ready(&AgentHostLifecycleState::Ready) {
        ReadyStep::Ready(ready) => {
            assert_eq!(ready.control_endpoint, "/run/agent.sock");
            assert_eq!(ready.agent_protocol_version, 9);
            assert_eq!(ready.application_contract_version, 6);
        }
        _ => panic!("expected readiness"),
    }
    assert!(matches!(
        host.wait_until_ready(&AgentHostLifecycleState::Starting),
        ReadyStep::Wait
    ));
    match host.wait_until_ready(&AgentHostLifecycleState::Stopped) {
        ReadyStep::Failed(error) => {
            assert_eq!(host_code(&error), FfiAgentHostErrorCode::ShutdownBeforeReady);
        }
        _ => panic!("expected a failure"),
    }
    match host.wait_until_ready(&failed()) {
        ReadyStep::Failed(error) => {
            assert_eq!(host_code(&error), FfiAgentHostErrorCode::StateAlreadyOwned);
        }
        _ => panic!("expected a failure"),
    }
    assert_eq!(host_code(&host.lifecycle_ended()), FfiAgentHostErrorCode::Internal);
}

#[test]
fn hosts_are_refused_where_there_is_no_desktop() {
    let error = FfiAgentHost::start(&configuration(), HostPlatform::Unsupported, 9, 6)
        .err()
        .unwrap();
    assert_eq!(host_code(&error), FfiAgentHostErrorCode::UnsupportedPlatform);
}

#[test]
fn shutdown_reports_how_the_host_ended() {
    let host = host();
    let stopped = AgentHostLifecycleState::Stopped;
    assert_eq!(
        host.shutdown(&Some(HostTaskEnd::Finished), &stopped).unwrap(),
        FfiAgentHostLifecycleState::Stopped
    );
    assert_eq!(host.shutdown(&None, &stopped).unwrap(), FfiAgentHostLifecycleState::Stopped);
    for end in [HostTaskEnd::Canceled, HostTaskEnd::Broken] {
        let error = host.shutdown(&Some(end), &stopped).err().unwrap();
        assert_eq!(host_code(&error), FfiAgentHostErrorCode::Internal);
    }
    let error = host.shutdown(&None, &failed()).err().unwrap();
    assert_eq!(host_code(&error), FfiAgentHostErrorCode::StateAlreadyOwned);
}
