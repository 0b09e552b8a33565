use envoix_ffi::bridge::activity::{
    failure_from_activity, fold_transfer_activity, request_file_name, transfer_activity_actions,
};
use envoix_ffi::bridge::driver::{
    announce_fallback, begin_attempt, can_fallback_after_error, fallback_timeout_for_attempt,
    is_progress_only_snapshot, settle_attempt, settle_setup_error, AttemptState, AttemptVerdict,
    DurableNoticeState, TransferAttemptOutcome,
};
use envoix_ffi::bridge::engine::{
    CanonicalState, ClientContext, DataPath, FailureCategory, FailureCode, FailureOrigin,
    FailurePhase, PairingStep, PathPolicy, PauseOrigin, PeerDescriptor, PeerSource,
    QrInvitePayload, RecoveryAction, Role, Session, SessionContext, SessionFailureCode,
    SessionParams, SessionSnapshot, TransferDirection, TransferError, TransferFailure,
    TransferMode, TransferOptions, TransferSummary,
};
use envoix_ffi::bridge::events::{
    event_direction, observe_durable_transfer_event, observe_transfer_event,
    should_emit_native_event, to_ffi_event, ManifestEntryResult, ManifestEntryResultStatus,
    StampedEvent, TransferCallback, TransferEvent,
};
use envoix_ffi::bridge::labels::{
    advertised_endpoint_debug, attempt_debug_summary, broker_label, code_room, file_label,
    invite_source_debug, labelled_request_summary, optional_code_room, peer_source_debug,
    request_debug_summary, request_path_label, short_endpoint_id, token_state,
};
use envoix_ffi::bridge::models::{
    EnvoixError, EnvoixRuntimeSettings, FfiDataPathKind, FfiFailureCategory, FfiFailureCode,
    FfiFailurePhase, FfiInviteRole, FfiPairingStep, FfiRecoveryAction, FfiTransferActivityRecord,
    FfiTransferActivityState, FfiTransferDirection, FfiTransferEvent, FfiTransferEventKind,
    FfiTransferLimits, FfiTransferMode, FfiTransferRequest,
};
use envoix_ffi::bridge::projection::{core_invite_role, ffi_invite_role, ffi_path_policy, path_policy};
use envoix_ffi::bridge::queue::TransferStop;
use envoix_ffi::bridge::reports::{
    report_activity_setup_failure, report_durable_state_transition, report_queued_cancel,
    report_terminal,
};
use envoix_ffi::bridge::routes::{
    broker_for_pairing_invite, build_transfer_for_source, effective_parallel_limit,
    next_activity_id, next_attempt_id, normalize_transfer_limits, peer_sources_for_request,
    relay_for_pairing_invite, required_value, transfer_options_for_request,
    validate_direction_mode, validate_transfer_request, SourceLookups, TransferAttemptSource,
    DEFAULT_RELAY_URL, DEFAULT_RENDEZVOUS_BROKER, INVITE_TTL_SECS,
};
use envoix_ffi::bridge::snapshot::apply_canonical_snapshot;
use envoix_ffi::common::{FfiFailureOrigin, FfiPathPolicy, FfiRendezvousPlan};

fn settings() -> EnvoixRuntimeSettings {
    EnvoixRuntimeSettings::default()
}

fn send_request(mode: FfiTransferMode) -> FfiTransferRequest {
    FfiTransferRequest::send("ffi-1".into(), "/photos/cat.jpg".into(), mode)
}

fn receive_request(mode: FfiTransferMode) -> FfiTransferRequest {
    FfiTransferRequest::receive("ffi-2".into(), "/downloads".into(), mode)
}

fn peer() -> PeerDescriptor {
    PeerDescriptor {
        compact: "compact".into(),
        endpoint_id: "0123456789abcdef".into(),
        direct_addrs: vec!["192.0.2.1:1".into()],
    }
}

fn payload(relays: usize) -> QrInvitePayload {
    QrInvitePayload { peer: peer(), relay_urls: vec!["https://r".into(); relays] }
}

fn lookups() -> SourceLookups {
    SourceLookups {
        descriptor: Some(peer()),
        descriptor_error: "bad descriptor".into(),
        invite: None,
    }
}

fn reason(error: EnvoixError) -> String {
    match error {
        EnvoixError::Operation { reason } => reason,
    }
}

fn card() -> FfiTransferActivityRecord {
    FfiTransferActivityRecord::from_request(&send_request(FfiTransferMode::Room), 10)
}

fn stamped(ts_ms: u64, event: TransferEvent) -> StampedEvent {
    StampedEvent { ts_ms, event }
}

fn progress(ts_ms: u64, bytes: u64) -> StampedEvent {
    stamped(
        ts_ms,
        TransferEvent::Progress {
            transfer_id: "t".into(),
            bytes_transferred: bytes,
            total_bytes: 100,
        },
    )
}

fn started() -> StampedEvent {
    stamped(
        20,
        TransferEvent::Started {
            transfer_id: "t".into(),
            direction: TransferDirection::Send,
            file_name: "cat.jpg".into(),
            total_bytes: 100,
            bytes_resumed: 30,
        },
    )
}

fn engine_failure(code: FailureCode) -> TransferFailure {
    TransferFailure {
        code,
        category: FailureCategory::Network,
        phase: FailurePhase::Connecting,
        origin: FailureOrigin::Unknown,
        direction: Some(TransferDirection::Send),
        transfer_id: None,
        attempt_id: None,
        retryable: true,
        recovery_action: RecoveryAction::Retry,
        user_message_key: "transfer.network_lost".into(),
        diagnostic_message: "lost".into(),
    }
}

fn lost() -> TransferError {
    TransferError {
        paused: false,
        message: "connection lost".into(),
        failure: engine_failure(FailureCode::NetworkLost),
    }
}

fn session(state: CanonicalState) -> Session {
    Session {
        attempt: 3,
        direction: TransferDirection::Receive,
        state,
        transfer_id: Some("t".into()),
        file_name: Some("cat.jpg".into()),
        bytes: 40,
        total: 100,
        bytes_resumed: 5,
        path: Some(DataPath::Relay { url: "https://r".into() }),
        reason: None,
        reason_code: None,
        completed_file_path: None,
        failure: None,
    }
}

fn snapshot(state: CanonicalState) -> SessionSnapshot {
    SessionSnapshot { seq: 9, speed_bps: 7, avg_bps: 6, session: session(state) }
}

fn context() -> SessionContext {
    SessionContext {
        client: ClientContext { config_path: None, receipt_server: None, identity_file: None },
        params: SessionParams {
            direction: TransferDirection::Receive,
            path: "/downloads".into(),
            sources: Vec::new(),
            options: TransferOptions {
                relay: None,
                path: PathPolicy::Auto,
                resume: true,
                listen_addrs: None,
            },
            publication_required: false,
        },
    }
}

fn shown(state: CanonicalState) -> FfiTransferActivityRecord {
    let mut record = card();
    apply_canonical_snapshot(&mut record, &snapshot(state), &context(), 50);
    record
}

fn statuses(calls: &[TransferCallback]) -> Vec<String> {
    calls
        .iter()
        .filter_map(|call| match call {
            TransferCallback::Status { message } => Some(message.clone()),
            _ => None,
        })
        .collect()
}

#[test]
fn identifiers_count_on() {
    let mut counter: u64 = 1;
    assert_eq!(next_activity_id(&mut counter), "ffi-1");
    assert_eq!(next_activity_id(&mut counter), "ffi-2");
    let mut attempts: u64 = 9;
    assert_eq!(next_attempt_id(&mut attempts), "attempt-9");
    assert_eq!(attempts, 10);
    let mut last: u64 = u64::MAX;
    assert_eq!(next_attempt_id(&mut last), "attempt-18446744073709551615");
    assert_eq!(last, 0);
}

#[test]
fn limits_follow_the_settings() {
    let mut serial = settings();
    serial.concurrent_transfers = false;
    let mut limits = FfiTransferLimits {
        max_parallel_transfers: 4,
        max_parallel_files: 1,
        max_parallel_chunks_per_file: 1,
        speed_limit_bps: 0,
    };
    assert_eq!(effective_parallel_limit(&settings(), &limits), 4);
    assert_eq!(effective_parallel_limit(&serial, &limits), 1);
    limits.max_parallel_transfers = 0;
    normalize_transfer_limits(&settings(), &mut limits);
    assert_eq!(limits.max_parallel_transfers, 1);
}

#[test]
fn directions_support_their_modes() {
    assert!(validate_direction_mode(FfiTransferDirection::Send, FfiTransferMode::Manual).is_ok());
    assert_eq!(
        reason(
            validate_direction_mode(FfiTransferDirection::Receive, FfiTransferMode::Invite)
                .err()
                .unwrap()
        ),
        "transfer mode Invite is not supported for Receive"
    );
    assert_eq!(
        reason(
            validate_direction_mode(FfiTransferDirection::Unknown, FfiTransferMode::Unknown)
                .err()
                .unwrap()
        ),
        "transfer direction must be send or receive"
    );
    assert_eq!(
        reason(
            validate_direction_mode(FfiTransferDirection::Send, FfiTransferMode::Unknown)
                .err()
                .unwrap()
        ),
        "transfer mode must not be unknown"
    );
}

#[test]
fn values_are_trimmed_and_required() {
    assert_eq!(required_value(" x ", "code").ok().unwrap(), "x");
    assert_eq!(reason(required_value("\n", "code").err().unwrap()), "code must not be empty");
    assert_eq!(broker_for_pairing_invite(" "), DEFAULT_RENDEZVOUS_BROKER);
    assert_eq!(relay_for_pairing_invite("", "").as_deref(), Some(DEFAULT_RELAY_URL));
    assert_eq!(relay_for_pairing_invite("b", " "), None);
    assert_eq!(relay_for_pairing_invite("b", " r "), Some("r".into()));
}

#[test]
fn rooms_fall_back_to_relays_and_the_local_network() {
    let mut request = send_request(FfiTransferMode::Room);
    request.code = " 123456-abc ".into();
    let routes = peer_sources_for_request(&settings(), &request, &lookups()).ok().unwrap();
    assert_eq!(routes.len(), 3);
    assert_eq!(
        routes[0].source,
        PeerSource::Room {
            code: "123456-abc".into(),
            broker: DEFAULT_RENDEZVOUS_BROKER.into(),
        }
    );
    assert_eq!(routes[1].path_policy_override, Some(FfiPathPolicy::RelayOnly));
    assert_eq!(routes[2].source, PeerSource::Mdns { token: Some("123456-abc".into()) });

    request.rendezvous.internet_available = false;
    let offline = peer_sources_for_request(&settings(), &request, &lookups()).ok().unwrap();
    assert_eq!(offline.len(), 1);
    assert_eq!(offline[0].mode, FfiTransferMode::Mdns);
    request.rendezvous.use_mdns = false;
    assert_eq!(
        reason(peer_sources_for_request(&settings(), &request, &lookups()).err().unwrap()),
        "room rendezvous is disabled while internet is unavailable and mDNS fallback is disabled"
    );
    request.rendezvous.use_room = false;
    assert_eq!(
        reason(peer_sources_for_request(&settings(), &request, &lookups()).err().unwrap()),
        "at least one rendezvous route must be enabled"
    );
}

#[test]
fn invites_with_relays_are_retried_through_them() {
    let mut request = send_request(FfiTransferMode::Invite);
    request.invite = "envoix:x".into();
    let with = SourceLookups { invite: Some(payload(1)), ..lookups() };
    assert_eq!(peer_sources_for_request(&settings(), &request, &with).ok().unwrap().len(), 2);
    let without = SourceLookups { invite: Some(payload(0)), ..lookups() };
    assert_eq!(peer_sources_for_request(&settings(), &request, &without).ok().unwrap().len(), 1);
    request.path_policy = FfiPathPolicy::DirectOnly;
    assert_eq!(peer_sources_for_request(&settings(), &request, &with).ok().unwrap().len(), 1);
}

#[test]
fn other_modes_have_one_route() {
    let mut manual = send_request(FfiTransferMode::Manual);
    assert_eq!(
        reason(peer_sources_for_request(&settings(), &manual, &lookups()).err().unwrap()),
        "peer_descriptor must not be empty"
    );
    manual.peer_descriptor = "compact".into();
    let bad = SourceLookups { descriptor: None, ..lookups() };
    assert_eq!(
        reason(peer_sources_for_request(&settings(), &manual, &bad).err().unwrap()),
        "bad descriptor"
    );
    manual.token = "t".into();
    let routes = peer_sources_for_request(&settings(), &manual, &lookups()).ok().unwrap();
    assert_eq!(routes[0].source, PeerSource::Manual { peer: peer(), token: "t".into() });
    let show = receive_request(FfiTransferMode::ShowInvite);
    let routes = peer_sources_for_request(&settings(), &show, &lookups()).ok().unwrap();
    assert_eq!(
        routes[0].source,
        PeerSource::ShowInvite { ttl_secs: INVITE_TTL_SECS, token: None }
    );
}

#[test]
fn requests_are_checked_in_order() {
    let check = |request: &FfiTransferRequest, client: Option<String>| {
        validate_transfer_request(&settings(), request, &client, &lookups()).err().map(reason)
    };
    let mut request = send_request(FfiTransferMode::Mdns);
    assert_eq!(check(&request, None), None);
    assert_eq!(check(&request, Some("no client".into())).as_deref(), Some("no client"));
    request.file_path = " ".into();
    assert_eq!(check(&request, None).as_deref(), Some("file_path must not be empty"));
    let mut receive = receive_request(FfiTransferMode::Room);
    assert_eq!(check(&receive, None).as_deref(), Some("code must not be empty"));
    receive.output_dir = String::new();
    assert_eq!(check(&receive, None).as_deref(), Some("output_dir must not be empty"));
    let mut relayed = send_request(FfiTransferMode::Mdns);
    relayed.path_policy = FfiPathPolicy::RelayOnly;
    relayed.broker = "b".into();
    assert_eq!(
        check(&relayed, None).as_deref(),
        Some("relay-only transfers require a relay URL")
    );
}

#[test]
fn transfers_are_built_from_their_request() {
    let request = send_request(FfiTransferMode::Mdns);
    let source = || PeerSource::Mdns { token: None };
    let start = build_transfer_for_source(
        &settings(),
        &request,
        source(),
        Some(FfiPathPolicy::RelayOnly),
        &None,
    )
    .ok()
    .unwrap();
    assert_eq!(start.direction, TransferDirection::Send);
    assert_eq!(start.path, "/photos/cat.jpg");
    assert_eq!(start.options.path, PathPolicy::RelayOnly);
    assert_eq!(start.options.relay.as_deref(), Some(DEFAULT_RELAY_URL));
    assert!(start.options.listen_addrs.is_some());
    assert!(build_transfer_for_source(
        &settings(),
        &request,
        source(),
        None,
        &Some("no client".into())
    )
    .is_err());
    let options = transfer_options_for_request(&settings(), &request, None).ok().unwrap();
    assert!(options.resume);
}

#[test]
fn labels_hide_secrets() {
    assert_eq!(code_room("123456-secret"), "123456");
    assert_eq!(optional_code_room("  "), None);
    assert_eq!(broker_label("key@host:1"), "host:1");
    assert_eq!(broker_label("host:1"), "host:1");
    assert_eq!(file_label("/a/b.txt "), "file=b.txt");
    assert_eq!(file_label("/"), "file=<none>");
    assert_eq!(file_label(" "), "file=<none>");
    assert_eq!(file_label("/a/.."), "file=<none>");
    assert_eq!(file_label("/a/b//"), "file=b");
    assert_eq!(file_label("/a/b/./"), "file=b");
    assert_eq!(file_label("./10:30.jpg"), "file=10:30.jpg");
    assert_eq!(file_label("10:30.jpg"), "file=10:30.jpg");
    assert_eq!(file_label("."), "file=<none>");
    assert_eq!(short_endpoint_id("0123456789abcdef"), "0123456789ab");
    assert_eq!(token_state(Some(" ")), "generated");
    assert_eq!(token_state(Some("x")), "set");
    assert_eq!(
        peer_source_debug(&PeerSource::Mdns { token: Some("123456-secret".into()) }, &None),
        "source=mdns token=123456"
    );
    assert_eq!(
        peer_source_debug(
            &PeerSource::Room { code: "123456-secret".into(), broker: "key@host".into() },
            &None
        ),
        "source=room room=123456 broker=host"
    );
    assert_eq!(
        peer_source_debug(&PeerSource::ShowInvite { ttl_secs: 300, token: None }, &None),
        "source=show-invite ttl=300s token=generated"
    );
    assert_eq!(invite_source_debug("héllo", &None), "source=invite len=6 parse=failed");
    assert_eq!(
        invite_source_debug("abc", &Some(payload(2))),
        "source=invite len=3 endpoint=0123456789ab direct=1 relay=2"
    );
    assert_eq!(
        advertised_endpoint_debug(&peer(), &None),
        "advertised endpoint=0123456789ab direct=1 relay=0"
    );
}

#[test]
fn summaries_describe_requests_and_attempts() {
    let mut request = send_request(FfiTransferMode::Room);
    request.code = "123456-secret".into();
    let routes = peer_sources_for_request(&settings(), &request, &lookups()).ok().unwrap();
    assert_eq!(
        request_debug_summary(&settings(), &request, &routes),
        "request direction=send mode=room room=123456 routes=[room -> room -> mDNS] \
         file=cat.jpg broker=default relay=default internet=true"
    );
    assert_eq!(
        attempt_debug_summary(1, 3, &routes[1], &None),
        format!(
            "attempt 2/3 via room path=relay-only source=room room=123456 broker={}",
            broker_label(DEFAULT_RENDEZVOUS_BROKER)
        )
    );
}

#[test]
fn roles_and_policies_come_back() {
    for role in [FfiInviteRole::Send, FfiInviteRole::Receive, FfiInviteRole::Unknown] {
        assert_eq!(ffi_invite_role(core_invite_role(role)), role);
    }
    assert_eq!(core_invite_role(FfiInviteRole::Receive), Some(Role::Receive));
    for policy in [FfiPathPolicy::Auto, FfiPathPolicy::RelayOnly, FfiPathPolicy::DirectOnly] {
        assert_eq!(ffi_path_policy(path_policy(policy)), policy);
    }
}

#[test]
fn cards_start_queued() {
    let record = card();
    assert_eq!(record.state, FfiTransferActivityState::Queued);
    assert_eq!(record.file_name, "cat.jpg");
    assert_eq!(record.created_at_ms, 10);
    assert_eq!(record.recovery_action, FfiRecoveryAction::NoAction);
    assert_eq!(request_file_name(&receive_request(FfiTransferMode::Room)), "");
}

#[test]
fn events_move_cards() {
    let mut record = card();
    record.apply_event(&to_ffi_event(&started(), "ffi-1"));
    assert_eq!(record.state, FfiTransferActivityState::Transferring);
    assert_eq!(record.started_at_ms, 20);
    assert_eq!(record.bytes_transferred, 30);
    record.apply_event(&to_ffi_event(&stamped(30, TransferEvent::Connecting), "ffi-1"));
    assert_eq!(record.state, FfiTransferActivityState::Transferring);
    let completed = stamped(
        40,
        TransferEvent::Completed {
            transfer_id: "t".into(),
            file_name: "cat.jpg".into(),
            bytes_transferred: 100,
        },
    );
    record.apply_event(&to_ffi_event(&completed, "ffi-1"));
    assert_eq!(record.state, FfiTransferActivityState::Verifying);
    let folded = fold_transfer_activity(
        record,
        to_ffi_event(
            &stamped(
                50,
                TransferEvent::Failed {
                    direction: TransferDirection::Send,
                    reason: "broken".into(),
                },
            ),
            "ffi-1",
        ),
    );
    assert_eq!(folded.state, FfiTransferActivityState::Failed);
    assert_eq!(folded.completed_at_ms, 50);
    assert_eq!(folded.diagnostic_message, "broken");
}

#[test]
fn observations_leave_the_state_alone() {
    let mut record = card();
    record.apply_observation(&to_ffi_event(&started(), ""));
    assert_eq!(record.state, FfiTransferActivityState::Queued);
    assert_eq!(record.total_bytes, 100);
    assert_eq!(record.activity_id, "ffi-1");
}

#[test]
fn pauses_are_undone_by_requeueing() {
    let mut record = card();
    record.attempt_id = "attempt-1".into();
    record.apply_peer_paused(20);
    assert_eq!(record.diagnostic_message, "peer paused; waiting for resume");
    assert_eq!(record.failure_origin, FfiFailureOrigin::Peer);
    assert!(record.retryable);
    record.apply_requeued(30);
    let mut fresh = card();
    fresh.updated_at_ms = 30;
    assert_eq!(record, fresh);
}

#[test]
fn actions_depend_on_the_state() {
    let of = |state| {
        let mut record = card();
        record.state = state;
        transfer_activity_actions(record)
    };
    let running = of(FfiTransferActivityState::Transferring);
    assert!(running.can_pause && running.can_cancel && !running.can_resume);
    let paused = of(FfiTransferActivityState::Paused);
    assert!(paused.can_resume && !paused.can_pause);
    let done = of(FfiTransferActivityState::Completed);
    assert!(done.can_delete && !done.can_cancel && !done.can_pause);
}

#[test]
fn events_are_shown_to_native_clients() {
    let shown = to_ffi_event(
        &stamped(
            5,
            TransferEvent::Verified {
                transfer_id: "t".into(),
                direction: TransferDirection::Receive,
                file_name: "cat.jpg".into(),
                bytes_hashed: 12,
            },
        ),
        "ffi-1",
    );
    assert_eq!(shown.kind, FfiTransferEventKind::Verified);
    assert_eq!(shown.bytes_resumed, 12);
    let pairing =
        to_ffi_event(&stamped(5, TransferEvent::Pairing { step: PairingStep::Matched }), "a");
    assert_eq!(pairing.pairing_step, FfiPairingStep::Matched);
    let planned = to_ffi_event(
        &stamped(
            5,
            TransferEvent::ManifestPlanned {
                direction: TransferDirection::Send,
                manifest_id: "m".into(),
                file_count: 2,
                directory_count: 1,
                root_count: 1,
                total_bytes: 3,
            },
        ),
        "a",
    );
    assert_eq!(planned.diagnostic_message, "manifest planned files=2 directories=1 roots=1");
    let entry = to_ffi_event(
        &stamped(
            5,
            TransferEvent::ManifestEntryCompleted {
                manifest_id: "m".into(),
                result: ManifestEntryResult {
                    entry_id: 4,
                    status: ManifestEntryResultStatus::Cancelled,
                    offered_relative_path: "a/b".into(),
                    final_relative_path: None,
                    failure_code: Some("x".into()),
                },
            },
        ),
        "a",
    );
    assert_eq!(entry.kind, FfiTransferEventKind::Failed);
    assert_eq!(entry.diagnostic_message, "entry_id=4 status=cancelled final= failure=x");
    let bytes = to_ffi_event(
        &stamped(
            5,
            TransferEvent::ManifestProgress {
                manifest_id: "m".into(),
                entry_id: 1,
                entry_bytes: 2,
                entry_total_bytes: 3,
                completed_bytes: 4,
                total_bytes: 5,
            },
        ),
        "a",
    );
    assert_eq!(bytes.diagnostic_message, "entry_id=1 entry_bytes=2/3");
    let nothing = to_ffi_event(&stamped(7, TransferEvent::Unlisted), "a");
    assert_eq!(nothing, FfiTransferEvent::empty("a", 7));
    assert_eq!(event_direction(&started().event), Some(TransferDirection::Send));
    assert_eq!(event_direction(&TransferEvent::Connecting), None);
}

#[test]
fn progress_is_shown_twice_a_second() {
    let mut last: u64 = 0;
    let emits = |ts: u64, bytes: u64, last: &mut u64| {
        should_emit_native_event(&to_ffi_event(&progress(ts, bytes), "a"), last)
    };
    assert!(emits(1000, 1, &mut last));
    assert!(!emits(1499, 2, &mut last));
    assert!(emits(1500, 3, &mut last));
    assert!(emits(1501, 100, &mut last));
    assert_eq!(last, 1501);
}

#[test]
fn observed_events_call_back() {
    let mut record = card();
    let mut last: u64 = 0;
    let calls = observe_transfer_event(&mut record, &started(), &mut last, &None).unwrap();
    assert_eq!(calls.len(), 3);
    assert!(matches!(&calls[0], TransferCallback::Event { .. }));
    assert!(matches!(&calls[1], TransferCallback::Activity { .. }));
    assert!(matches!(
        &calls[2],
        TransferCallback::Started { file_name, total_bytes: 100 } if file_name == "cat.jpg"
    ));
    assert!(observe_transfer_event(&mut record, &progress(30, 1), &mut last, &None).is_some());
    assert!(observe_transfer_event(&mut record, &progress(31, 2), &mut last, &None).is_none());
    assert_eq!(record.bytes_transferred, 2);
    let advertised = stamped(
        40,
        TransferEvent::Advertised {
            peer: peer(),
            token: None,
            invite: Some("envoix:x".into()),
        },
    );
    let calls =
        observe_durable_transfer_event(&mut record, &advertised, &mut last, &Some(payload(1)))
            .unwrap();
    assert_eq!(
        statuses(&calls),
        vec![
            "advertised endpoint=0123456789ab direct=1 relay=1".to_string(),
            "invite ready; waiting for sender".to_string(),
        ]
    );
    assert_eq!(record.state, FfiTransferActivityState::Transferring);
    let binding = stamped(
        41,
        TransferEvent::Binding {
            direction: TransferDirection::Send,
            mode: TransferMode::ShowInvite,
        },
    );
    let calls = observe_transfer_event(&mut record, &binding, &mut last, &None).unwrap();
    assert_eq!(statuses(&calls), vec!["binding Send via ShowInvite".to_string()]);
}

#[test]
fn terminal_outcomes_are_reported_once() {
    let mut record = FfiTransferActivityRecord::from_request(
        &receive_request(FfiTransferMode::Room),
        1,
    );
    let summary = TransferSummary { file_name: "cat.jpg".into(), bytes_transferred: 9 };
    let calls = report_terminal(
        &mut record,
        &receive_request(FfiTransferMode::Room),
        &Ok(summary),
        false,
        2,
    );
    assert_eq!(record.completed_file_path, "/downloads/cat.jpg");
    assert_eq!(record.state, FfiTransferActivityState::Completed);
    assert!(matches!(calls.last(), Some(TransferCallback::Completed { bytes: 9 })));

    let mut failed = card();
    let calls =
        report_terminal(&mut failed, &send_request(FfiTransferMode::Room), &Err(lost()), false, 3);
    assert_eq!(failed.failure_code, FfiFailureCode::NetworkLost);
    assert!(matches!(
        calls.last(),
        Some(TransferCallback::Failed { reason }) if reason == "connection lost"
    ));
    let mut canceled = card();
    let calls = report_terminal(
        &mut canceled,
        &send_request(FfiTransferMode::Room),
        &Err(lost()),
        true,
        3,
    );
    assert_eq!(canceled.state, FfiTransferActivityState::Canceled);
    assert!(calls.iter().any(|call| matches!(
        call,
        TransferCallback::TransferFailed { failure }
            if failure.code == FfiFailureCode::UserCanceled
                && failure.diagnostic_message == "canceled"
                && !failure.retryable
    )));
    let mut setup = card();
    report_activity_setup_failure(
        &mut setup,
        &EnvoixError::Operation { reason: "no route".into() },
        4,
    );
    assert_eq!(setup.user_message_key, "transfer.setup_failed");
    assert_eq!(setup.failure_category, FfiFailureCategory::Internal);
    assert_eq!(failure_from_activity(&setup).diagnostic_message, "no route");
}

#[test]
fn queued_cancels_say_what_was_canceled() {
    let mut waiting = card();
    assert_eq!(
        statuses(&report_queued_cancel(&mut waiting, 2)),
        vec!["canceled before start".to_string()]
    );
    let mut resting = card();
    resting.apply_paused(1);
    assert_eq!(
        statuses(&report_queued_cancel(&mut resting, 2)),
        vec!["canceled paused transfer".to_string()]
    );
}

#[test]
fn snapshots_decide_durable_cards() {
    let confirming = shown(CanonicalState::Confirming);
    assert_eq!(confirming.state, FfiTransferActivityState::Verifying);
    assert_eq!(confirming.diagnostic_message, "confirming");
    assert_eq!(confirming.attempt_id, "attempt-3");
    assert_eq!(confirming.started_at_ms, 50);
    assert_eq!(confirming.data_path_kind, FfiDataPathKind::Relay);
    assert_eq!(confirming.speed_bps, 7);
    let lost = shown(CanonicalState::Paused(PauseOrigin::Lost));
    assert_eq!(lost.user_message_key, "transfer.network_lost");
    assert_eq!(lost.diagnostic_message, "connection lost; partial retained");
    assert_eq!(lost.recovery_action, FfiRecoveryAction::Resume);
    let unconfirmed = shown(CanonicalState::Unconfirmed);
    assert_eq!(unconfirmed.failure_phase, FfiFailurePhase::Acknowledging);
    let publishing = shown(CanonicalState::AwaitingPublication);
    assert_eq!(publishing.completed_file_path, "/downloads/cat.jpg");
    assert_eq!(publishing.completed_at_ms, 0);
    let completed = shown(CanonicalState::Completed);
    assert_eq!(completed.completed_at_ms, 50);
    assert_eq!(completed.completed_file_path, "/downloads/cat.jpg");
    let canceled = shown(CanonicalState::Cancelled);
    assert_eq!(canceled.failure_code, FfiFailureCode::UserCanceled);
}

#[test]
fn failed_snapshots_tell_why() {
    let with = |reason_code: Option<SessionFailureCode>| {
        let mut failed = snapshot(CanonicalState::Failed);
        failed.session.reason_code = reason_code;
        let mut record = card();
        apply_canonical_snapshot(&mut record, &failed, &context(), 60);
        record
    };
    let peer = with(Some(SessionFailureCode::PeerCancelled));
    assert_eq!(peer.failure_code, FfiFailureCode::PeerCanceled);
    assert_eq!(peer.diagnostic_message, "transfer failed");
    let lost = with(Some(SessionFailureCode::ConnectionLost));
    assert_eq!(lost.recovery_action, FfiRecoveryAction::Resume);
    let paused = with(Some(SessionFailureCode::PeerPaused));
    assert_eq!(paused.failure_origin, FfiFailureOrigin::Peer);
    let other = with(None);
    assert_eq!(other.failure_code, FfiFailureCode::Unknown);
    assert!(!other.retryable);
    let mut typed = snapshot(CanonicalState::Failed);
    typed.session.failure = Some(engine_failure(FailureCode::DiskFull));
    let mut record = card();
    apply_canonical_snapshot(&mut record, &typed, &context(), 60);
    assert_eq!(record.failure_code, FfiFailureCode::DiskFull);
    assert_eq!(record.direction, FfiTransferDirection::Send);
}

#[test]
fn durable_transitions_are_announced() {
    let calls = report_durable_state_transition(&shown(CanonicalState::Completed));
    assert_eq!(statuses(&calls), vec!["completed".to_string()]);
    assert!(matches!(calls.last(), Some(TransferCallback::Completed { bytes: 40 })));
    assert_eq!(
        statuses(&report_durable_state_transition(&shown(CanonicalState::Unconfirmed))),
        vec!["delivery unconfirmed; checking receipt".to_string()]
    );
    assert!(report_durable_state_transition(&shown(CanonicalState::Waiting)).is_empty());
}

#[test]
fn durable_notices_are_spaced() {
    let mut notices = DurableNoticeState::new();
    let mut record = card();
    let with = |bytes: u64| {
        let mut shown = snapshot(CanonicalState::Transferring);
        shown.session.bytes = bytes;
        shown
    };
    assert_eq!(notices.on_snapshot(&mut record, with(1), &context(), 1000).len(), 1);
    assert_eq!(notices.on_snapshot(&mut record, with(2), &context(), 1001).len(), 1);
    assert!(notices.on_snapshot(&mut record, with(3), &context(), 1002).is_empty());
    assert_eq!(record.bytes_transferred, 3);
    assert_eq!(notices.on_snapshot(&mut record, with(4), &context(), 1501).len(), 1);
    assert_eq!(notices.on_snapshot(&mut record, with(100), &context(), 1502).len(), 1);
    let paused = snapshot(CanonicalState::Paused(PauseOrigin::Peer));
    let calls = notices.on_snapshot(&mut record, paused, &context(), 1503);
    assert_eq!(statuses(&calls), vec!["paused by peer".to_string()]);
    assert!(is_progress_only_snapshot(&with(4).session, &with(5)));
    assert!(!is_progress_only_snapshot(&with(4).session, &with(4)));
}

#[test]
fn fallbacks_need_an_untouched_transfer() {
    assert!(can_fallback_after_error(None, false, true));
    assert!(!can_fallback_after_error(None, true, true));
    assert!(!can_fallback_after_error(Some(TransferStop::Pause), false, true));
    assert!(!can_fallback_after_error(None, false, false));
    let send = send_request(FfiTransferMode::Room);
    assert_eq!(fallback_timeout_for_attempt(&send, FfiTransferMode::Room, true), Some(60));
    assert_eq!(fallback_timeout_for_attempt(&send, FfiTransferMode::Room, false), None);
    assert_eq!(fallback_timeout_for_attempt(&send, FfiTransferMode::Mdns, true), None);
    let receive = receive_request(FfiTransferMode::Room);
    assert_eq!(fallback_timeout_for_attempt(&receive, FfiTransferMode::Room, true), None);
}

fn outcome(
    result: Result<TransferSummary, TransferError>,
    transfer_started: bool,
    stop_requested: Option<TransferStop>,
) -> TransferAttemptOutcome {
    TransferAttemptOutcome { result, direction: None, transfer_started, stop_requested }
}

#[test]
fn attempts_are_settled() {
    let request = send_request(FfiTransferMode::Room);
    let settle = |outcome: TransferAttemptOutcome, next: Option<FfiTransferMode>| {
        let mut record = card();
        settle_attempt(&mut record, &request, &outcome, FfiTransferMode::Room, next, 5)
    };
    let next = Some(FfiTransferMode::Mdns);
    let fell = settle(outcome(Err(lost()), false, None), next);
    assert_eq!(fell.verdict, AttemptVerdict::TryNext);
    assert_eq!(
        statuses(&fell.calls),
        vec!["room failed before transfer started (connection lost); trying mDNS".to_string()]
    );
    assert_eq!(
        settle(outcome(Err(lost()), true, None), next).verdict,
        AttemptVerdict::Ended { canceled: false }
    );
    assert_eq!(
        settle(outcome(Err(lost()), false, Some(TransferStop::Pause)), next).verdict,
        AttemptVerdict::PausedLocally
    );
    assert_eq!(
        settle(outcome(Err(lost()), false, Some(TransferStop::Cancel)), next).verdict,
        AttemptVerdict::Ended { canceled: true }
    );
    let paused = settle(outcome(Err(TransferError { paused: true, ..lost() }), false, None), next);
    assert_eq!(paused.verdict, AttemptVerdict::PausedByPeer);
    assert_eq!(statuses(&paused.calls), vec!["peer paused; waiting for resume".to_string()]);
    let summary = TransferSummary { file_name: "cat.jpg".into(), bytes_transferred: 1 };
    assert_eq!(
        settle(outcome(Ok(summary), true, None), next).verdict,
        AttemptVerdict::Finished
    );
    let mut record = card();
    let step = settle_setup_error(
        &mut record,
        &EnvoixError::Operation { reason: "bad".into() },
        FfiTransferMode::Room,
        next,
        5,
    );
    assert_eq!(step.verdict, AttemptVerdict::TryNext);
    assert_eq!(
        statuses(&step.calls),
        vec!["room setup failed (bad); trying mDNS".to_string()]
    );
}

#[test]
fn later_attempts_get_their_own_id() {
    let attempt = TransferAttemptSource::new(
        FfiTransferMode::Mdns,
        PeerSource::Mdns { token: None },
    );
    let mut record = card();
    let mut next: u64 = 4;
    let calls = begin_attempt(&mut record, 0, 2, &attempt, &None, &mut next, 5);
    assert_eq!(calls.len(), 1);
    assert_eq!(record.attempt_id, "");
    let calls = begin_attempt(&mut record, 1, 2, &attempt, &None, &mut next, 6);
    assert_eq!(calls.len(), 2);
    assert_eq!(record.attempt_id, "attempt-4");
    assert_eq!(next, 5);
}

#[test]
fn attempts_heed_the_user_before_the_clock() {
    let mut state = AttemptState::new(None);
    assert!(state.heeds_fallback(true));
    assert!(!state.heeds_fallback(false));
    let mut record = card();
    assert!(state.on_event(&mut record, &started(), &None).is_some());
    assert!(state.transfer_started);
    assert_eq!(state.direction, Some(TransferDirection::Send));
    assert!(!state.heeds_fallback(true));
    let (stop, call) = state.on_stop(None);
    assert_eq!(stop, TransferStop::Cancel);
    assert!(matches!(call, TransferCallback::Status { message } if message == "cancelling"));
    let mut waiting = AttemptState::new(None);
    let call = waiting.on_fallback();
    assert!(matches!(
        call,
        TransferCallback::Status { message }
            if message == "room send timed out before transfer started; trying fallback"
    ));
    assert!(waiting.fallback_elapsed);
}

#[test]
fn rendezvous_plans_follow_the_mode() {
    let room = FfiRendezvousPlan::for_mode(FfiTransferMode::Room);
    assert!(room.use_room && room.use_mdns && room.internet_available);
}

#[test]
fn fallback_timeouts_are_announced() {
    assert!(announce_fallback(None).is_none());
    assert!(matches!(
        announce_fallback(Some(8)),
        Some(TransferCallback::Status { message })
            if message == "fallback timeout armed: 8s before connection"
    ));
}

#[test]
fn planned_requests_can_be_tried() {
    for mode in [FfiTransferMode::Manual, FfiTransferMode::Mdns, FfiTransferMode::Room] {
        let mut request = send_request(mode);
        request.peer_descriptor = "compact".into();
        request.token = "t".into();
        request.code = "123456-abc".into();
        let attempts = peer_sources_for_request(&settings(), &request, &lookups()).ok().unwrap();
        assert!(!attempts.is_empty());
    }
}

#[test]
fn request_lines_hide_pairing_secrets() {
    let mut a = send_request(FfiTransferMode::Room);
    a.code = "123456-apple-pear".into();
    a.token = "token-a".into();
    let mut b = a.clone();
    b.code = "123456-plum ".into();
    b.token = "token-b".into();
    b.invite = "invite".into();
    b.peer_descriptor = "descriptor".into();
    let line = request_debug_summary(&settings(), &a, &Vec::new());
    assert_eq!(line, request_debug_summary(&settings(), &b, &Vec::new()));
    assert!(line.contains("room=123456 "));
    let label = request_path_label(&a);
    assert_eq!(line, labelled_request_summary(&settings(), &b, &Vec::new(), &label));
    let shown = |token: &str| {
        peer_source_debug(&PeerSource::Mdns { token: Some(token.into()) }, &None)
    };
    assert_eq!(shown("123456-apple"), shown("123456-plum"));
}

#[test]
fn attempts_are_numbered_from_one() {
    let attempt = TransferAttemptSource {
        source: PeerSource::Mdns { token: None },
        mode: FfiTransferMode::Mdns,
        path_policy_override: None,
    };
    assert_eq!(
        attempt_debug_summary(3, 2, &attempt, &None),
        "attempt 4/2 via mDNS source=mdns token=generated"
    );
}
