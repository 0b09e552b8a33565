use envoix_ffi::bridge::durable::{
    check_record_collision, find_durable_record, list_durable_transfer_records,
    new_listener_identity, restore_durable_transfer, restored_extras, restored_listener_identity,
    start_durable_transfer,
    DurableEnvoixSession,
};
use envoix_ffi::bridge::engine::{
    CanonicalState, ClientContext, PathPolicy, PeerSource, Session, SessionContext, SessionParams,
    TransferDirection, TransferOptions,
};
use envoix_ffi::bridge::events::{
    ManifestEntryResult, ManifestEntryResultStatus, StampedEvent, TransferEvent,
};
use envoix_ffi::bridge::manifest::{
    canonical_manifest_context, check_manifest_collision, find_manifest_record,
    is_manifest_progress_only, list_durable_manifest_records, manifest_display_name,
    manifest_preparation, manifest_record_from_activity, observe_manifest_transport_event,
    prepare_manifest_send, projection_context, proposed_manifest_context,
    restore_durable_manifest_transfer, start_durable_manifest_receive,
    start_durable_manifest_send, EntrySource, FfiManifestEntryKind, FfiManifestEntryPhase,
    FfiManifestEntryResultStatus, FfiPreparedManifestSend, ManifestActivity,
    ManifestCurrentEntry, ManifestEntryKind, ManifestEntryPhase, ManifestEntryV1, ManifestHash,
    ManifestNoticeState, ManifestOperation, ManifestSendRequest, ManifestSessionContext,
    ManifestSessionSnapshot, ManifestTransferRecord, ManifestV1,
};
use envoix_ffi::bridge::models::{
    EnvoixError, EnvoixRuntimeSettings, FfiFailureCategory, FfiFailureCode, FfiFailurePhase,
    FfiNativePublicationTarget, FfiRecoveryAction, FfiTransferActivityRecord,
    FfiTransferActivityState, FfiTransferDirection, FfiTransferFailure, FfiTransferMode,
    FfiTransferRequest,
};
use envoix_ffi::bridge::records::{
    canonical_context_for_request, normalized_receipt_server, request_from_canonical_context,
    ExtraMember, PlatformExtras, TransferRecord,
};
use envoix_ffi::bridge::routes::SourceLookups;
use envoix_ffi::common::FfiFailureOrigin;

fn settings() -> EnvoixRuntimeSettings {
    EnvoixRuntimeSettings::default()
}

fn lookups() -> SourceLookups {
    SourceLookups { descriptor: None, descriptor_error: "bad".into(), invite: None }
}

fn client() -> ClientContext {
    ClientContext { config_path: None, receipt_server: None, identity_file: None }
}

fn reason(error: EnvoixError) -> String {
    match error {
        EnvoixError::Operation { reason } => reason,
    }
}

fn session(state: CanonicalState) -> Session {
    Session {
        attempt: 1,
        direction: TransferDirection::Receive,
        state,
        transfer_id: Some("t".into()),
        file_name: Some("cat.jpg".into()),
        bytes: 1,
        total: 2,
        bytes_resumed: 0,
        path: None,
        reason: None,
        reason_code: None,
        completed_file_path: None,
        failure: None,
    }
}

fn context(source: PeerSource) -> SessionContext {
    SessionContext {
        client: client(),
        params: SessionParams {
            direction: TransferDirection::Receive,
            path: "/downloads".into(),
            sources: vec![source],
            options: TransferOptions {
                relay: Some("r".into()),
                path: PathPolicy::DirectOnly,
                resume: false,
                listen_addrs: None,
            },
            publication_required: true,
        },
    }
}

fn record(id: &str, state: CanonicalState) -> TransferRecord {
    TransferRecord {
        id: id.into(),
        created_ms: 1,
        updated_ms: 2,
        session: session(state),
        context: context(PeerSource::Room { code: "c".into(), broker: "b".into() }),
        platform_extras: None,
    }
}

fn failure() -> FfiTransferFailure {
    FfiTransferFailure {
        code: FfiFailureCode::DiskFull,
        category: FfiFailureCategory::Storage,
        phase: FfiFailurePhase::Committing,
        origin: FfiFailureOrigin::Local,
        direction: FfiTransferDirection::Receive,
        transfer_id: "t".into(),
        attempt_id: "attempt-1".into(),
        retryable: true,
        recovery_action: FfiRecoveryAction::ChooseFolder,
        user_message_key: "transfer.disk_full".into(),
        diagnostic_message: "full".into(),
    }
}

fn target(path: &str) -> FfiNativePublicationTarget {
    FfiNativePublicationTarget { destination_path: path.into(), bookmark: vec![1, 2] }
}

fn card(state: FfiTransferActivityState) -> FfiTransferActivityRecord {
    let request =
        FfiTransferRequest::receive("a".into(), "/downloads".into(), FfiTransferMode::Room);
    let mut record = FfiTransferActivityRecord::from_request(&request, 1);
    record.state = state;
    record.transfer_id = "t".into();
    record.attempt_id = "attempt-1".into();
    record
}

fn durable(state: FfiTransferActivityState) -> DurableEnvoixSession {
    DurableEnvoixSession::started(card(state), PlatformExtras::of_activity("a"))
}

#[test]
fn durable_controls_need_a_fitting_state() {
    let running = durable(FfiTransferActivityState::Transferring);
    assert!(running.pause() && running.cancel() && !running.resume());
    let paused = durable(FfiTransferActivityState::Paused);
    assert!(paused.resume() && !paused.pause());
    let mut gone = durable(FfiTransferActivityState::Transferring);
    assert!(gone.remove());
    assert!(!gone.remove());
    assert!(!gone.pause());
}

#[test]
fn receipts_answer_the_pending_request() {
    let mut session = durable(FfiTransferActivityState::Unconfirmed);
    assert!(session.receipt_response(vec![1]).is_none());
    session.fetch_receipt("key".into());
    let reply = session.receipt_response(vec![1]).unwrap();
    assert_eq!(reply.key, "key");
    assert_eq!(reply.blob, Some(vec![1]));
    session.fetch_receipt("key".into());
    assert_eq!(session.receipt_response(Vec::new()).unwrap().blob, None);
    assert!(session.receipt_response(Vec::new()).is_none());
}

#[test]
fn publication_targets_are_read_back() {
    let mut session = durable(FfiTransferActivityState::Publishing);
    assert!(!session.set_publication_target(&target(" "), true, 5));
    assert!(!session.set_publication_target(&target("/x"), false, 5));
    assert!(session.publication_target().is_none());
    assert!(session.set_publication_target(&target(" /public "), true, 5));
    let stored = session.publication_target().unwrap();
    assert_eq!(stored.destination_path, "/public");
    assert_eq!(stored.bookmark, vec![1, 2]);
    assert!(session.publication_failed(&failure(), true, 6));
    assert_eq!(session.publication_target().unwrap().destination_path, "/public");
    assert_eq!(session.activity().failure_code, FfiFailureCode::DiskFull);
    assert_eq!(session.activity().state, FfiTransferActivityState::Publishing);
    assert_eq!(session.publication_succeeded(" /public/cat.jpg "), Some("/public/cat.jpg".into()));
    assert_eq!(session.publication_succeeded(" "), None);
    let done = durable(FfiTransferActivityState::Completed);
    assert_eq!(done.publication_succeeded("/x"), None);
}

#[test]
fn restored_cards_can_be_resumed() {
    let records = vec![
        record("one", CanonicalState::Transferring),
        record("two", CanonicalState::AwaitingPublication),
    ];
    let cards = list_durable_transfer_records("/records", &records).ok().unwrap();
    assert_eq!(cards[0].activity_id, "one");
    assert_eq!(cards[0].state, FfiTransferActivityState::Paused);
    assert_eq!(cards[0].diagnostic_message, "interrupted by an app restart");
    assert_eq!(cards[0].recovery_action, FfiRecoveryAction::Resume);
    assert_eq!(cards[0].mode, FfiTransferMode::Room);
    assert_eq!(cards[1].state, FfiTransferActivityState::Publishing);
    assert_eq!(cards[1].completed_file_path, "/downloads/cat.jpg");
}

#[test]
fn stored_publication_failures_stay_visible() {
    let mut held = durable(FfiTransferActivityState::Publishing);
    assert!(held.set_publication_target(&target("/public"), true, 1));
    assert!(held.publication_failed(&failure(), true, 2));
    let mut stored = record("raw", CanonicalState::AwaitingPublication);
    stored.platform_extras = Some(held.platform_extras);
    let cards = list_durable_transfer_records("/records", &vec![stored]).ok().unwrap();
    assert_eq!(cards[0].activity_id, "a");
    assert_eq!(cards[0].failure_code, FfiFailureCode::DiskFull);
    assert_eq!(cards[0].state, FfiTransferActivityState::Publishing);
}

#[test]
fn records_are_found_by_their_activity() {
    let records = vec![
        record("one", CanonicalState::Completed),
        record("two", CanonicalState::Completed),
    ];
    assert_eq!(find_durable_record(&records, " two ", "/records").ok().unwrap(), 1);
    assert_eq!(
        reason(find_durable_record(&records, "three", "/records").err().unwrap()),
        "transfer record not found: three"
    );
    assert_eq!(
        reason(find_durable_record(&records, "", "").err().unwrap()),
        "activity_id must not be empty"
    );
    assert_eq!(
        reason(find_durable_record(&records, "one", " ").err().unwrap()),
        "records_dir must not be empty"
    );
    assert_eq!(
        reason(list_durable_transfer_records("", &records).err().unwrap()),
        "records_dir must not be empty"
    );
    assert!(check_record_collision(&None, "x").is_ok());
    assert!(check_record_collision(&Some(record("x", CanonicalState::Completed)), "x").is_ok());
    assert_eq!(
        reason(
            check_record_collision(&Some(record("y", CanonicalState::Completed)), "x")
                .err()
                .unwrap()
        ),
        "activity id collided with an existing durable record"
    );
    let extras = restored_extras(&record("y", CanonicalState::Completed), "x");
    assert_eq!(extras.external_record_id.as_deref(), Some("x"));
}

#[test]
fn foreign_extras_are_kept() {
    let mut session = durable(FfiTransferActivityState::Publishing);
    session.platform_extras.others.push(ExtraMember { key: "k".into(), json: "1".into() });
    let candidate = session.target_candidate(&target("/public")).unwrap();
    assert_eq!(candidate.others.len(), 1);
    assert_eq!(candidate.external_record_id.as_deref(), Some("a"));
}

#[test]
fn requests_come_back_from_their_context() {
    let request = request_from_canonical_context(
        "a",
        &context(PeerSource::Room { code: "c".into(), broker: "b".into() }),
    );
    assert_eq!(request.activity_id, "a");
    assert_eq!(request.code, "c");
    assert_eq!(request.broker, "b");
    assert_eq!(request.relay, "r");
    assert!(!request.resume);
    assert!(request.publication_required);
    let mdns = request_from_canonical_context("a", &context(PeerSource::Mdns { token: None }));
    assert_eq!(mdns.token, "");
    assert_eq!(mdns.mode, FfiTransferMode::Mdns);
}

#[test]
fn contexts_hold_each_source_once() {
    let mut request =
        FfiTransferRequest::send("a".into(), "/cat.jpg".into(), FfiTransferMode::Room);
    request.code = "123456-abc".into();
    let made =
        canonical_context_for_request(&settings(), &request, Ok(client()), &lookups()).ok().unwrap();
    // the relay retry shares the room's source
    assert_eq!(made.params.sources.len(), 2);
    assert_eq!(
        reason(
            canonical_context_for_request(&settings(), &request, Err("no".into()), &lookups())
                .err()
                .unwrap()
        ),
        "no"
    );
}

#[test]
fn receipt_servers_are_http_endpoints() {
    assert_eq!(normalized_receipt_server(" ").ok().unwrap(), None);
    assert_eq!(
        normalized_receipt_server(" https://r.example// ").ok().unwrap().as_deref(),
        Some("https://r.example")
    );
    for bad in ["ftp://x", "https://a b", "r.example"] {
        assert_eq!(
            reason(normalized_receipt_server(bad).err().unwrap()),
            "receipt_server must be an HTTP(S) endpoint"
        );
    }
}

#[test]
fn durable_transfers_are_started_from_their_request() {
    let mut request =
        FfiTransferRequest::send(String::new(), "/cat.jpg".into(), FfiTransferMode::Mdns);
    request.token = "t".into();
    let mut next: u64 = 5;
    let start = start_durable_transfer(
        &settings(),
        request,
        "/records",
        Some("https://receipts".into()),
        Ok(client()),
        &None,
        &lookups(),
        &mut next,
        9,
    )
    .ok()
    .unwrap();
    assert_eq!(start.request.activity_id, "ffi-5");
    assert_eq!(next, 6);
    assert_eq!(start.activity.file_name, "cat.jpg");
    assert_eq!(start.extras.external_record_id.as_deref(), Some("ffi-5"));
    assert_eq!(start.context.client.receipt_server.as_deref(), Some("https://receipts"));
}

#[test]
fn listeners_keep_their_identity() {
    assert_eq!(new_listener_identity(&Some("old".into()), true, "rec").as_deref(), Some("rec"));
    assert_eq!(new_listener_identity(&Some("old".into()), false, "rec").as_deref(), Some("old"));
    assert_eq!(
        restored_listener_identity(&Some("old".into()), true, "rec").as_deref(),
        Some("old")
    );
    assert_eq!(restored_listener_identity(&None, true, "rec").as_deref(), Some("rec"));
    assert_eq!(restored_listener_identity(&None, false, "rec"), None);
}

fn entry(entry_id: u32, path: &str, size: Option<u64>) -> ManifestEntryV1 {
    ManifestEntryV1 {
        entry_id,
        relative_path: path.into(),
        kind: if size.is_some() {
            ManifestEntryKind::RegularFile
        } else {
            ManifestEntryKind::Directory
        },
        size: size.unwrap_or(0),
        hash: size.map(|_| ManifestHash { bytes: vec![7; 32] }),
        modified_at_unix_ms: None,
    }
}

fn source(entry_id: u32, path: &str) -> EntrySource {
    EntrySource { entry_id, path: path.into() }
}

fn album() -> ManifestSendRequest {
    ManifestSendRequest {
        manifest: ManifestV1 {
            manifest_id: "ffi-manifest".into(),
            entries: vec![
                entry(0, "Album", None),
                entry(1, "Album/a.jpg", Some(2)),
                entry(2, "Album/b.jpg", Some(1)),
            ],
            file_count: 2,
            directory_count: 1,
            root_count: 1,
            total_bytes: 3,
        },
        source_paths: vec![source(1, "/sel/Album/a.jpg"), source(2, "/sel/Album/b.jpg")],
    }
}

fn photo(id: &str) -> ManifestSendRequest {
    ManifestSendRequest {
        manifest: ManifestV1 {
            manifest_id: id.into(),
            entries: vec![entry(0, "Album", None), entry(1, "Album/photo.jpg", Some(5))],
            file_count: 1,
            directory_count: 1,
            root_count: 1,
            total_bytes: 5,
        },
        source_paths: vec![source(1, "/sel/Album/photo.jpg")],
    }
}

fn manifest_request(id: &str) -> FfiTransferRequest {
    let mut request = FfiTransferRequest::send(id.into(), "/sel".into(), FfiTransferMode::Mdns);
    request.token = "stable-test-token".into();
    request
}

fn manifest_context(id: &str) -> ManifestSessionContext {
    canonical_manifest_context(
        &settings(),
        &manifest_request(id),
        ManifestOperation::Send { request: photo(id) },
        Ok(client()),
        &lookups(),
        &None,
    )
    .ok()
    .unwrap()
}

fn manifest_activity(id: &str) -> ManifestActivity {
    let mut idle = session(CanonicalState::Preparing);
    idle.direction = TransferDirection::Send;
    idle.transfer_id = None;
    idle.file_name = None;
    ManifestActivity {
        session: idle,
        manifest: Some(photo(id).manifest),
        current_entry: None,
        completed_files: 0,
        entry_results: Vec::new(),
    }
}

fn prepared_album() -> FfiPreparedManifestSend {
    FfiPreparedManifestSend::from_core(&album(), "missing").ok().unwrap()
}

#[test]
fn async_preparation_returns_a_typed_revalidatable_plan() {
    let prepared = prepared_album();
    assert_eq!(prepared.manifest_id, "ffi-manifest");
    assert_eq!(prepared.file_count, 2);
    assert_eq!(prepared.directory_count, 1);
    assert_eq!(prepared.root_count, 1);
    assert_eq!(
        prepared.entries.iter().map(|entry| entry.relative_path.as_str()).collect::<Vec<_>>(),
        ["Album", "Album/a.jpg", "Album/b.jpg"]
    );
    assert!(prepared.to_core(&None).is_ok());

    let mut tampered = prepared;
    tampered.entries[1].hash.pop();
    assert!(tampered.to_core(&None).is_err());
}

#[test]
fn projection_keeps_common_card_and_manifest_inventory_together() {
    let id = "projection-manifest";
    let projected = manifest_record_from_activity(
        &manifest_request(id),
        &manifest_context(id),
        manifest_activity(id),
        7,
        10,
        20,
    );
    assert_eq!(projected.activity.activity_id, "projection-manifest");
    assert_eq!(projected.activity.sequence, 7);
    assert_eq!(projected.activity.file_name, "Album");
    assert_eq!(projected.manifest_id, "projection-manifest");
    assert_eq!(projected.root_count, 1);
    assert_eq!(projected.file_count, 1);
    assert_eq!(projected.directory_count, 1);
    assert_eq!(projected.entries.len(), 2);
}

#[test]
fn accepted_plans_come_back() {
    let back = prepared_album().to_core(&None).ok().unwrap();
    assert_eq!(back, album());
    let mut missing = album();
    missing.source_paths.pop();
    assert_eq!(
        reason(FfiPreparedManifestSend::from_core(&missing, "no source").err().unwrap()),
        "no source"
    );
    let mut folder = prepared_album();
    assert_eq!(folder.entries[0].kind, FfiManifestEntryKind::Directory);
    folder.entries[0].source_path = "/x".into();
    assert!(folder.to_core(&None).is_err());
    let mut unnamed = prepared_album();
    unnamed.manifest_id = " ".into();
    assert_eq!(reason(unnamed.to_core(&None).err().unwrap()), "manifest_id must not be empty");
}

#[test]
fn selections_hold_paths() {
    let mut next: u64 = 2;
    assert_eq!(
        manifest_preparation(" ", &vec!["/a".into()], &mut next).ok().unwrap(),
        "ffi-2"
    );
    assert_eq!(next, 3);
    assert_eq!(manifest_preparation(" m ", &vec!["/a".into()], &mut next).ok().unwrap(), "m");
    for bad in [Vec::new(), vec!["/a".to_string(), String::new()]] {
        assert_eq!(
            reason(manifest_preparation("m", &bad, &mut next).err().unwrap()),
            "selected_paths must contain at least one non-empty path"
        );
    }
}

#[test]
fn manifests_are_named_after_their_roots() {
    let mut manifest = album().manifest;
    assert_eq!(manifest_display_name(&manifest), "Album");
    manifest.root_count = 3;
    assert_eq!(manifest_display_name(&manifest), "3 items");
    manifest.root_count = 1;
    manifest.entries.clear();
    assert_eq!(manifest_display_name(&manifest), "ffi-manifest");
}

#[test]
fn entries_in_flight_and_their_results_are_shown() {
    let id = "m";
    let mut activity = manifest_activity(id);
    activity.current_entry = Some(ManifestCurrentEntry {
        entry_id: 1,
        phase: ManifestEntryPhase::Transferring,
        transfer_id: None,
        relative_path: "Album/photo.jpg".into(),
        bytes: 2,
        total: 5,
        bytes_resumed: 1,
    });
    activity.entry_results.push(ManifestEntryResult {
        entry_id: 0,
        status: ManifestEntryResultStatus::Cancelled,
        offered_relative_path: "Album".into(),
        final_relative_path: None,
        failure_code: None,
    });
    let shown = manifest_record_from_activity(
        &manifest_request(id),
        &manifest_context(id),
        activity,
        1,
        1,
        1,
    );
    let current = shown.current_entry.unwrap();
    assert_eq!(current.phase, FfiManifestEntryPhase::Transferring);
    assert_eq!(current.transfer_id, "");
    assert_eq!(current.bytes_transferred, 2);
    assert_eq!(shown.entry_results[0].status, FfiManifestEntryResultStatus::Canceled);
    assert_eq!(shown.entry_results[0].final_relative_path, "");
    let mut later = manifest_activity(id);
    later.session.bytes += 1;
    assert!(is_manifest_progress_only(&manifest_activity(id), &later));
    assert!(!is_manifest_progress_only(&later, &later));
}

fn manifest_record(id: &str, state: CanonicalState) -> ManifestTransferRecord {
    let mut activity = manifest_activity(id);
    activity.session.state = state;
    ManifestTransferRecord {
        id: id.into(),
        created_ms: 1,
        updated_ms: 2,
        activity,
        context: manifest_context(id),
        platform_extras: None,
    }
}

#[test]
fn manifest_records_are_listed_and_found() {
    let records = vec![
        manifest_record("one", CanonicalState::Transferring),
        manifest_record("two", CanonicalState::Failed),
    ];
    let cards = list_durable_manifest_records("/records", &records).ok().unwrap();
    assert_eq!(cards[0].activity.state, FfiTransferActivityState::Paused);
    assert_eq!(cards[1].activity.state, FfiTransferActivityState::Failed);
    assert_eq!(cards[1].activity.activity_id, "two");
    assert_eq!(find_manifest_record(&records, "two", "/records").ok().unwrap(), 1);
    assert_eq!(
        reason(find_manifest_record(&records, "x", "/records").err().unwrap()),
        "Manifest transfer record not found: x"
    );
    assert_eq!(
        reason(find_manifest_record(&records, "two", "").err().unwrap()),
        "records_dir must not be empty"
    );
    assert_eq!(
        reason(list_durable_manifest_records(" ", &records).err().unwrap()),
        "records_dir must not be empty"
    );
    assert_eq!(
        reason(
            check_manifest_collision(&Some(manifest_record("y", CanonicalState::Failed)), "x")
                .err()
                .unwrap()
        ),
        "activity id collided with an existing durable Manifest record"
    );
}

#[test]
fn manifest_transfers_are_started() {
    let mut next: u64 = 1;
    let start = start_durable_manifest_send(
        &settings(),
        manifest_request("ffi-manifest"),
        &prepared_album(),
        "/records",
        Ok(client()),
        &None,
        &lookups(),
        &None,
        &None,
        &mut next,
    )
    .ok()
    .unwrap();
    assert!(matches!(
        &start.context.params.operation,
        ManifestOperation::Send { request } if *request == album()
    ));
    let mut receive =
        FfiTransferRequest::receive("r".into(), "/out".into(), FfiTransferMode::Mdns);
    let started = start_durable_manifest_receive(
        &settings(),
        receive.clone(),
        "/records",
        Ok(client()),
        &None,
        &lookups(),
        &None,
        &mut next,
    )
    .ok()
    .unwrap();
    assert!(matches!(
        &started.context.params.operation,
        ManifestOperation::Receive { output_dir } if output_dir == "/out"
    ));
    receive.output_dir = String::new();
    assert!(start_durable_manifest_receive(
        &settings(),
        receive,
        "/records",
        Ok(client()),
        &None,
        &lookups(),
        &None,
        &mut next,
    )
    .is_err());
}

#[test]
fn stored_transfers_run_again() {
    let restored =
        restore_durable_transfer(record("one", CanonicalState::Transferring), true, "/ids/one");
    assert_eq!(restored.record.context.client.identity_file.as_deref(), Some("/ids/one"));
    assert_eq!(restored.session.activity().state, FfiTransferActivityState::Paused);
    assert_eq!(restored.session.platform_extras.external_record_id.as_deref(), Some("one"));
    assert!(restored.session.has_driver);
    assert_eq!(restored.session.pending_receipt_key, None);
    let mut known = record("two", CanonicalState::Completed);
    known.context.client.identity_file = Some("/old".into());
    let restored = restore_durable_transfer(known, true, "/ids/two");
    assert_eq!(restored.record.context.client.identity_file.as_deref(), Some("/old"));
    let dialing = record("three", CanonicalState::Completed);
    let restored = restore_durable_transfer(dialing, false, "/ids/three");
    assert_eq!(restored.record.context.client.identity_file, None);
}

#[test]
fn stored_manifest_transfers_run_again() {
    let stored = manifest_record("one", CanonicalState::Transferring);
    let restored = restore_durable_manifest_transfer(stored, true, "/ids/one");
    assert_eq!(restored.record.context.client.identity_file.as_deref(), Some("/ids/one"));
    assert_eq!(restored.session.activity().activity.state, FfiTransferActivityState::Paused);
    assert_eq!(restored.session.activity().activity.activity_id, "one");
    assert_eq!(restored.session.activity().file_count, 1);
    assert_eq!(restored.session.platform_extras.external_record_id.as_deref(), Some("one"));
    assert!(restored.session.has_driver);
}

#[test]
fn prepared_sends_are_reported() {
    let plan = prepare_manifest_send(&Ok(album()), "missing").ok().unwrap();
    assert_eq!(plan, prepared_album());
    assert_eq!(
        reason(prepare_manifest_send(&Err("unreadable".into()), "missing").err().unwrap()),
        "unreadable"
    );
    let mut orphan = album();
    orphan.source_paths.clear();
    assert_eq!(reason(prepare_manifest_send(&Ok(orphan), "missing").err().unwrap()), "missing");
}

#[test]
fn manifest_cards_observe_engine_events() {
    let id = "m";
    let mut shown = manifest_record_from_activity(
        &manifest_request(id),
        &manifest_context(id),
        manifest_activity(id),
        1,
        1,
        1,
    );
    let before = shown.clone();
    observe_manifest_transport_event(
        &mut shown,
        &StampedEvent {
            ts_ms: 77,
            event: TransferEvent::Progress {
                transfer_id: "t".into(),
                bytes_transferred: 3,
                total_bytes: 5,
            },
        },
    );
    // what a transfer is doing comes from its snapshots alone
    assert_eq!(shown.activity.state, before.activity.state);
    assert_eq!(shown.activity.updated_at_ms, 77);
    assert_eq!(shown.activity.bytes_transferred, 3);
    assert_eq!(shown.activity.total_bytes, 5);
    assert_eq!(shown.entries, before.entries);
    assert_eq!(shown.manifest_id, before.manifest_id);
}

#[test]
fn shown_manifest_progress_is_spaced() {
    let id = "m";
    let projection = projection_context(&manifest_context(id));
    let mut shown = manifest_record_from_activity(
        &manifest_request(id),
        &manifest_context(id),
        manifest_activity(id),
        1,
        1,
        1,
    );
    let mut state = ManifestNoticeState::new();
    let mut snapshot = |seq: u64, bytes: u64, now: u64| {
        let mut activity = manifest_activity(id);
        activity.session.state = CanonicalState::Transferring;
        activity.session.bytes = bytes;
        let next = ManifestSessionSnapshot { seq, speed_bps: 0, avg_bps: 0, activity };
        let emitted = state.on_snapshot(&mut shown, next, &projection, now);
        (emitted, shown.activity.bytes_transferred)
    };
    assert_eq!(snapshot(1, 1, 1_000), (true, 1));
    assert_eq!(snapshot(2, 2, 1_001), (true, 2));
    assert_eq!(snapshot(3, 3, 1_002), (false, 3));
    assert_eq!(snapshot(4, 4, 9_000), (true, 4));
}

#[test]
fn engines_can_refuse_plans_and_contexts() {
    let refused = Some("duplicate path".to_string());
    assert_eq!(reason(prepared_album().to_core(&refused).err().unwrap()), "duplicate path");
    assert_eq!(prepared_album().proposed_request().ok().unwrap(), album());
    let mut unnamed = prepared_album();
    unnamed.manifest_id = String::new();
    // what is wrong with the plan itself comes first
    assert_eq!(reason(unnamed.to_core(&refused).err().unwrap()), "manifest_id must not be empty");

    let operation = || ManifestOperation::Send { request: album() };
    let request = manifest_request("ffi-manifest");
    let proposed =
        proposed_manifest_context(&settings(), &request, operation(), Ok(client()), &lookups());
    assert_eq!(proposed.ok().unwrap().params.sources.len(), 1);
    let context = |client: Result<ClientContext, String>| {
        canonical_manifest_context(
            &settings(),
            &request,
            operation(),
            client,
            &lookups(),
            &Some("no sources".into()),
        )
    };
    assert_eq!(reason(context(Ok(client())).err().unwrap()), "no sources");
    assert_eq!(reason(context(Err("no client".into())).err().unwrap()), "no client");
}

#[test]
fn refused_manifest_transfers_do_not_start() {
    let start = |id: &str, records: &str, plan: Option<&str>, context: Option<&str>| {
        let mut next: u64 = 1;
        let started = start_durable_manifest_send(
            &settings(),
            manifest_request(id),
            &prepared_album(),
            records,
            Ok(client()),
            &None,
            &lookups(),
            &plan.map(|text| text.to_string()),
            &context.map(|text| text.to_string()),
            &mut next,
        );
        started.map_err(reason).err()
    };
    assert_eq!(start("ffi-manifest", "/records", None, None), None);
    // a refused plan is told before the id is looked at
    assert_eq!(start("other", "/records", Some("bad plan"), None), Some("bad plan".into()));
    assert_eq!(
        start("other", "/records", None, Some("bad context")),
        Some("prepared Manifest id must match activity_id".into())
    );
    assert_eq!(
        start("ffi-manifest", "", None, Some("bad context")),
        Some("records_dir must not be empty".into())
    );
    assert_eq!(
        start("ffi-manifest", "/records", None, Some("bad context")),
        Some("bad context".into())
    );
    let mut next: u64 = 4;
    let receive = FfiTransferRequest::receive(" ".into(), "/out".into(), FfiTransferMode::Mdns);
    let refused = start_durable_manifest_receive(
        &settings(),
        receive,
        "/records",
        Ok(client()),
        &None,
        &lookups(),
        &Some("bad context".into()),
        &mut next,
    );
    assert_eq!(reason(refused.err().unwrap()), "bad context");
    assert_eq!(next, 5);
}

#[test]
fn received_names_may_hold_a_colon() {
    let mut stored = record("one", CanonicalState::AwaitingPublication);
    stored.session.file_name = Some("10:30.jpg".into());
    let cards = list_durable_transfer_records("/records", &vec![stored]).ok().unwrap();
    assert_eq!(cards[0].completed_file_path, "/downloads/10:30.jpg");
}
