use envoix_ffi::api::failures::{
    io_failure_recovery, manifest_v2_cause_projection, rendezvous_cause_projection,
    report_v2_failure, session_cause_projection, FailureVerdict, RendezvousCause, SessionCause,
    SessionError,
};
use envoix_ffi::api::invitations::{PeerSource, RouteAttempt};
use envoix_ffi::api::job::{
    create_transfer_job_v2, CanonicalTransferJob, CompressionPolicyV2, FfiInventorySummaryV2,
    FfiTransferJobV2, JobIdV2, JobLifecycle, ManifestEntryKindV2,
};
use envoix_ffi::api::session::{
    core_destination_request, failure_report, on_event, pairing_phase, project_connection_path,
    project_pending_offer, required_directory, FfiManifestV2Cancellation, ReceiveSummary,
};
use envoix_ffi::api::session_routes::{
    check_receive_request, check_send_request, generate_token, invitation_authentication,
    receive_generations, receive_offer_attempt, receive_offer_from_attempts,
    receive_one_offer_attempt, send_attempt, send_generations, send_started,
    should_consume_invitation, should_stop_remembered_fallback, single_route_failed, start_send,
    AttemptPlan, FallbackStep, NativeAuthentication, RaceAction, RaceEvent, ReceiveRouting,
    RememberedFallback, RouteRace, SendProgress, SendSession, SendStart, SendStep,
};
use envoix_ffi::api::session_types::{
    DataPath, DestinationDecisionV2, FfiDestinationDecisionV2, FfiDestinationRequestV2,
    FfiManifestEntryKindV2, JudgedError, ManifestEntryV2, ManifestRootV2, ManifestTotalsV2, ManifestV2,
    ManifestV2ProgressPhase, ObserverCall, PairingStep, RenderedError, SessionSummary,
    TransferEvent,
};
use envoix_ffi::api::transports::{
    receive, receive_datagram, FfiNativeDatagram, FfiNativeTransportError, FfiNativeTransportRead,
};
use envoix_ffi::api::types::{
    EnvoixError, EnvoixRuntimeSettings, FfiConnectionPathEvent, FfiConnectionPathEventKind,
    FfiDataPathKind, FfiFailureCategory, FfiFailureCode, FfiFailureOutcome,
    FfiFailurePhase, FfiFailureSessionDisposition, FfiManifestV2Phase, FfiRecoveryAction,
    FfiTransferDirection, FfiTransferFailure, FfiTransferMode, FfiTransferRequest,
};
use envoix_ffi::common::{FfiFailureOrigin, FfiPathPolicy, FfiRendezvousPlan};

fn verdict() -> FailureVerdict {
    FailureVerdict {
        outcome: FfiFailureOutcome::Failed,
        session_disposition: FfiFailureSessionDisposition::RetainForRecovery,
    }
}

fn own(cause: SessionCause) -> SessionError {
    SessionError { cause, invitation_consumed: false }
}

fn consumed(cause: SessionCause, phase: FfiFailurePhase) -> FfiTransferFailure {
    report_v2_failure(
        &SessionError { cause, invitation_consumed: true },
        "one-time invitation was consumed after authentication: connection lost",
        verdict(),
        FfiTransferDirection::Send,
        phase,
    )
}

fn rendered(cause: SessionCause, text: &str) -> RenderedError {
    RenderedError { error: own(cause), rendered: text.into() }
}

fn judged(cause: SessionCause, text: &str) -> JudgedError {
    JudgedError { failure: rendered(cause, text), verdict: verdict() }
}

fn job(manifest: Option<ManifestV2>) -> FfiTransferJobV2 {
    let job = CanonicalTransferJob {
        job_id: JobIdV2 { bytes: [0x0a; 16] },
        selection_revision: 3,
        lifecycle: if manifest.is_some() {
            JobLifecycle::Sealed
        } else {
            JobLifecycle::ReadyToSend
        },
        compression_policy: CompressionPolicyV2::Smart,
        created_unix_ms: 1,
        updated_unix_ms: 2,
        inventory: FfiInventorySummaryV2 {
            root_count: 1,
            file_count: 2,
            directory_count: 1,
            total_plaintext_bytes: 100,
            warning_count: 0,
        },
        selections: Vec::new(),
        manifest,
    };
    create_transfer_job_v2("/store", Ok(job)).ok().unwrap()
}

fn sealed() -> SendStart {
    start_send(&request(), "/state", &job(Some(manifest(3)))).ok().unwrap()
}

fn reason(error: EnvoixError) -> String {
    match error {
        EnvoixError::Operation { reason } => reason,
        EnvoixError::Invitation { reason, .. } => reason,
    }
}

fn manifest(entries: u32) -> ManifestV2 {
    ManifestV2 {
        job_id: JobIdV2 { bytes: [0x0a; 16] },
        generation: 2,
        selection_revision: 3,
        roots: vec![ManifestRootV2 { root_id: 0, root_entry_id: 0, requested_name: "r".into() }],
        entries: (0..entries)
            .map(|entry_id| ManifestEntryV2 {
                entry_id,
                root_id: 0,
                parent_entry_id: if entry_id == 0 { None } else { Some(0) },
                component: format!("entry-{entry_id}"),
                kind: if entry_id == 0 {
                    ManifestEntryKindV2::Directory
                } else {
                    ManifestEntryKindV2::RegularFile
                },
                plaintext_size: 1,
                digest_known: false,
            })
            .collect(),
        totals: ManifestTotalsV2 {
            file_count: entries,
            directory_count: 1,
            total_plaintext_bytes: 100,
        },
    }
}

fn request() -> FfiTransferRequest {
    FfiTransferRequest {
        direction: FfiTransferDirection::Send,
        mode: FfiTransferMode::Mdns,
        peer_descriptor: String::new(),
        invite: String::new(),
        code: String::new(),
        token: String::new(),
        remember_consent: false,
        remembered_credential_ref: String::new(),
        remembered_generation: 0,
        remembered_previous_generation: None,
        broker: String::new(),
        relay: String::new(),
        config_path: String::new(),
        path_policy: FfiPathPolicy::Auto,
        rendezvous: FfiRendezvousPlan::default(),
    }
}

fn destination() -> FfiDestinationRequestV2 {
    FfiDestinationRequestV2 {
        target_directory: " /downloads ".into(),
        copy_staging_directory: Some(" ".into()),
        decision: FfiDestinationDecisionV2::CopyAfterVerify,
        target_allocatable_bytes: Some(9),
        staging_allocatable_bytes: None,
        stable_object_identity: true,
        exceptional_transfer_approved: false,
    }
}

#[test]
fn room_joining_reports_native_receiver_readiness() {
    assert_eq!(pairing_phase(PairingStep::Joining), Some(FfiManifestV2Phase::WaitingForPeer));
    assert_eq!(pairing_phase(PairingStep::Matched), Some(FfiManifestV2Phase::Pairing));
    assert_eq!(pairing_phase(PairingStep::Exchanged), Some(FfiManifestV2Phase::Pairing));
}

#[test]
fn generic_io_recovery_matches_platform_resume_semantics() {
    assert_eq!(io_failure_recovery(FfiTransferDirection::Receive), FfiRecoveryAction::Resume);
    assert_eq!(io_failure_recovery(FfiTransferDirection::Send), FfiRecoveryAction::Retry);
}

#[test]
fn rendezvous_causes_project_without_parsing_diagnostics() {
    let rate_limited = rendezvous_cause_projection(RendezvousCause::RoomRateLimited);
    assert_eq!(rate_limited.code, FfiFailureCode::RoomRateLimited);
    assert!(rate_limited.retryable);
    assert_eq!(rate_limited.recovery_action, FfiRecoveryAction::Retry);

    let exhausted = rendezvous_cause_projection(RendezvousCause::RoomUnderAttack);
    assert_eq!(exhausted.code, FfiFailureCode::RoomUnderAttack);
    assert_eq!(exhausted.recovery_action, FfiRecoveryAction::RePair);
}

#[test]
fn consumed_invitation_failure_requires_repair() {
    let failure = consumed(
        SessionCause::Transport { detail: "connection lost".into() },
        FfiFailurePhase::Transferring,
    );
    assert_eq!(failure.code, FfiFailureCode::NetworkLost);
    assert_eq!(failure.recovery_action, FfiRecoveryAction::RePair);
    assert!(failure
        .diagnostic_message
        .contains("one-time invitation was consumed after authentication"));
}

#[test]
fn consumed_invitation_preserves_receiver_save_failure() {
    let failure = consumed(
        SessionCause::Cause {
            code: "receiver_save_failed".into(),
            detail: "destination contended".into(),
        },
        FfiFailurePhase::Transferring,
    );
    assert_eq!(failure.code, FfiFailureCode::ReceiverSaveFailed);
    assert_eq!(failure.category, FfiFailureCategory::Storage);
    assert_eq!(failure.phase, FfiFailurePhase::Committing);
    assert_eq!(failure.recovery_action, FfiRecoveryAction::RePair);
}

#[test]
fn consumed_invitation_does_not_make_integrity_failure_retryable() {
    let failure = consumed(
        SessionCause::Protocol { detail: "bad digest".into() },
        FfiFailurePhase::Verifying,
    );
    assert_eq!(failure.code, FfiFailureCode::ProtocolOrIntegrityFailure);
    assert!(!failure.retryable);
    assert_eq!(failure.recovery_action, FfiRecoveryAction::NoAction);
}

#[test]
fn failures_ignore_diagnostic_texts() {
    let shown = |detail: &str| {
        session_cause_projection(
            &SessionCause::Transport { detail: detail.into() },
            FfiTransferDirection::Receive,
            FfiFailurePhase::Transferring,
        )
    };
    let one = shown("receiver_save_failed");
    let other = shown("");
    assert_eq!(one.code, other.code);
    assert_eq!(one.phase, FfiFailurePhase::Transferring);
    let unknown = manifest_v2_cause_projection("brand_new_cause");
    assert_eq!(unknown.code, FfiFailureCode::ProtocolOrIntegrityFailure);
    assert_eq!(unknown.origin, FfiFailureOrigin::Unknown);
    assert_eq!(unknown.message_key, "transfer.protocol_or_integrity_failure");
    let folder = manifest_v2_cause_projection("receiver_destination_unavailable");
    assert_eq!(folder.recovery_action, FfiRecoveryAction::ChooseFolder);
}

#[test]
fn authentication_milestone_precedes_credential_persistence() {
    let mut authentication = NativeAuthentication::rotation(vec![1], 1);

    let step = authentication.on_authenticated(None);
    let credential = step.credential.unwrap();
    assert_eq!(credential.opaque, vec![1]);
    assert_eq!(credential.generation, 1);
    assert!(!step.consume_invitation);
    let result = authentication.on_credential_stored(false);

    assert!(matches!(
        &result,
        Err(SessionError { cause: SessionCause::Storage { .. }, .. })
    ));
    assert!(authentication.authenticated());
    assert!(!authentication.persisted());
    assert!(should_stop_remembered_fallback(result.is_ok(), &authentication, false));
}

#[test]
fn invitations_are_used_up_by_authentication() {
    let mut authentication = NativeAuthentication::invitation(true);
    assert!(authentication.remember_consent());
    assert!(!should_consume_invitation(false, &authentication));
    assert!(should_consume_invitation(true, &authentication));
    let step = authentication.on_authenticated(Some(vec![7]));
    assert!(step.consume_invitation);
    assert_eq!(step.credential.unwrap().generation, 0);
    assert!(authentication.on_credential_stored(true).is_ok());
    assert!(authentication.persisted());
    assert!(should_consume_invitation(false, &authentication));
    assert!(NativeAuthentication::invitation(false).on_authenticated(None).credential.is_none());
}

#[test]
fn connection_path_projection_classifies_without_endpoint_details() {
    let direct = DataPath::Direct { addr: "198.51.100.42:4242".into() };
    let relay = DataPath::Relay { url: "https://sensitive-relay.example".into() };
    let other = DataPath::Other { description: "sensitive transport details".into() };

    let projections = [
        project_connection_path(&direct, FfiConnectionPathEventKind::Selected),
        project_connection_path(&relay, FfiConnectionPathEventKind::Changed),
        project_connection_path(&other, FfiConnectionPathEventKind::Changed),
    ];

    assert_eq!(projections[0].path_kind, FfiDataPathKind::Direct);
    assert_eq!(projections[0].event_kind, FfiConnectionPathEventKind::Selected);
    assert_eq!(projections[1].path_kind, FfiDataPathKind::Relay);
    assert_eq!(projections[2].path_kind, FfiDataPathKind::Other);
    let rendered = format!("{projections:?}");
    assert!(!rendered.contains("198.51.100.42"));
    assert!(!rendered.contains("sensitive-relay.example"));
    assert!(!rendered.contains("sensitive transport details"));
}

#[test]
fn native_events_forward_selected_and_changed_paths() {
    let mut calls = on_event(&TransferEvent::Connected {
        path: DataPath::Relay { url: "https://relay.example".into() },
    });
    calls.extend(on_event(&TransferEvent::PathChanged {
        path: DataPath::Direct { addr: "127.0.0.1:443".into() },
    }));
    let mut paths = Vec::new();
    let mut diagnostics = Vec::new();
    for call in calls {
        match call {
            ObserverCall::ConnectionPath { path } => paths.push(path),
            ObserverCall::Diagnostic { message } => diagnostics.push(message),
            _ => {}
        }
    }
    assert_eq!(
        paths,
        vec![
            FfiConnectionPathEvent {
                path_kind: FfiDataPathKind::Relay,
                event_kind: FfiConnectionPathEventKind::Selected,
            },
            FfiConnectionPathEvent {
                path_kind: FfiDataPathKind::Direct,
                event_kind: FfiConnectionPathEventKind::Changed,
            },
        ]
    );
    let diagnostics = diagnostics.join("\n");
    assert!(diagnostics.contains("Relay"));
    assert!(diagnostics.contains("Direct"));
    assert!(!diagnostics.contains("relay.example"));
    assert!(!diagnostics.contains("127.0.0.1"));
}

#[test]
fn progress_events_are_forwarded() {
    let calls = on_event(&TransferEvent::Progress { bytes_transferred: 3, total_bytes: 8 });
    assert!(calls
        .iter()
        .any(|call| matches!(call, ObserverCall::Progress { transferred: 3, total: 8 })));
    let calls = on_event(&TransferEvent::ManifestV2Phase {
        phase: ManifestV2ProgressPhase::WaitingForReceiverSave,
    });
    assert!(calls.iter().any(|call| matches!(
        call,
        ObserverCall::Phase { phase: FfiManifestV2Phase::WaitingForReceiverSave }
    )));
}

#[test]
fn destinations_are_read_from_their_request() {
    let core = core_destination_request(&destination()).ok().unwrap();
    assert_eq!(core.target_directory, " /downloads ");
    assert_eq!(core.copy_staging_directory, None);
    assert_eq!(core.decision, DestinationDecisionV2::ContinueWithCopyAfterVerify);
    assert!(core.preplanned_root_names.is_none());
    let mut blank = destination();
    blank.target_directory = " ".into();
    assert_eq!(
        reason(core_destination_request(&blank).err().unwrap()),
        "target_directory must not be empty"
    );
    assert_eq!(required_directory("/x ", "field").ok().unwrap(), "/x ");
    assert_eq!(
        reason(required_directory(" \t", "field").err().unwrap()),
        "field must not be empty"
    );
}

#[test]
fn offers_are_walked_page_by_page() {
    let offer = project_pending_offer(&manifest(5), 99, "/state");
    let summary = offer.summary();
    assert_eq!(summary.job_id, "0a".repeat(16));
    assert_eq!(summary.root_count, 1);
    assert!(summary.exceptional_offer);
    assert!(!project_pending_offer(&manifest(5), 100, "/state").summary().exceptional_offer);
    assert_eq!(offer.state_directory(), "/state");
    let first = offer.list_entries(0, 2);
    assert_eq!(first.entries.len(), 2);
    assert_eq!(first.entries[0].kind, FfiManifestEntryKindV2::Directory);
    assert_eq!(first.next_offset, Some(2));
    let last = offer.list_entries(4, 2);
    assert_eq!(last.entries[0].name, "entry-4");
    assert_eq!(last.next_offset, None);
    assert!(offer.list_entries(9, 2).entries.is_empty());
    // a page holds at least one entry
    assert_eq!(offer.list_entries(0, 0).entries.len(), 1);
}

#[test]
fn offers_are_continued_once() {
    let mut offer = project_pending_offer(&manifest(2), 1000, "/state");
    let (_, calls) = offer.begin_receive(&destination()).ok().unwrap();
    assert!(matches!(
        calls[0],
        ObserverCall::Started { item_count: 2, total_bytes: 100 }
    ));
    assert_eq!(
        reason(offer.begin_receive(&destination()).err().unwrap()),
        "this authenticated offer has already been continued"
    );
    let done = offer.finish_receive(
        &Ok(ReceiveSummary {
            session: SessionSummary { entry_result_count: 2, delivery_proof_digest: vec![5] },
            root_paths: vec![Some("/downloads/r".into()), None],
        }),
    );
    let completion = done.result.ok().unwrap();
    assert_eq!(completion.saved_paths, vec!["/downloads/r".to_string()]);
    assert_eq!(completion.delivery_proof_digest, vec![5]);
    assert_eq!(completion.entry_count, 2);
    assert!(done.calls.iter().any(|call| matches!(call, ObserverCall::Completed { bytes: 100 })));
    let failed = offer.finish_receive(&Err(judged(SessionCause::Cancelled, "gone")));
    assert_eq!(reason(failed.result.err().unwrap()), "gone");
    assert!(failed.calls.iter().any(|call| matches!(
        call,
        ObserverCall::Failed { failure } if failure.code == FfiFailureCode::UserCanceled
    )));
}

#[test]
fn cancellation_stays_set() {
    let mut cancellation = FfiManifestV2Cancellation::new();
    assert!(!cancellation.is_cancelled());
    cancellation.cancel();
    cancellation.cancel();
    assert!(cancellation.is_cancelled());
}

#[test]
fn generations_fall_back_and_forth() {
    assert_eq!(send_generations(5, Some(4)), vec![5, 5, 4]);
    assert_eq!(send_generations(5, None), vec![5, 5]);
    assert_eq!(receive_generations(5, Some(4)), vec![5, 4, 5]);
    assert_eq!(receive_generations(5, None), vec![5]);
    let mut fallback = RememberedFallback::new(vec![5, 4]);
    assert!(matches!(
        fallback.step(),
        FallbackStep::Try { generation: 5, next_generation: 6, limited: true }
    ));
    fallback.failed(own(SessionCause::Transport { detail: "a".into() }));
    assert!(matches!(
        fallback.step(),
        FallbackStep::Try { generation: 4, next_generation: 5, limited: false }
    ));
    fallback.failed(own(SessionCause::Transport { detail: "b".into() }));
    assert!(matches!(
        fallback.step(),
        FallbackStep::Fail(SessionError { cause: SessionCause::Transport { detail }, .. })
            if detail == "b"
    ));
}

#[test]
fn attempts_follow_their_source() {
    let remembered = || PeerSource::Remembered {
        credential_ref: "ref".into(),
        generation: 2,
        previous_generation: Some(1),
        broker: "b".into(),
    };
    assert!(matches!(
        send_attempt(&remembered()),
        Ok(AttemptPlan::Remembered { generations, .. }) if generations == vec![2, 2, 1]
    ));
    assert!(send_attempt(&PeerSource::ShowManual { token: None }).is_err());
    assert!(matches!(
        receive_offer_attempt(&PeerSource::ShowManual { token: Some("t".into()) }),
        Ok(AttemptPlan::ShowManual { token }) if token == "t"
    ));
    assert!(matches!(
        receive_offer_attempt(&PeerSource::ShowManual { token: None }),
        Err(SessionError { cause: SessionCause::InvalidInput { detail }, .. })
            if detail == "manual receiver display requires a caller-owned pairing token"
    ));
    assert!(matches!(
        receive_offer_attempt(&PeerSource::Mdns { token: None }),
        Ok(AttemptPlan::Mdns { token: None })
    ));
    assert!(send_attempt(&PeerSource::Mdns { token: None }).is_err());
}

#[test]
fn tokens_are_fresh_and_fit_links() {
    let one = generate_token().ok().unwrap();
    let two = generate_token().ok().unwrap();
    assert_ne!(one, two);
    assert_eq!(one.len(), 24);
    assert!(one.bytes().all(|b| b.is_ascii_alphanumeric() || b == b'-' || b == b'_'));
}

#[test]
fn requests_must_match_their_operation() {
    assert_eq!(check_send_request(&request(), "/state").ok().unwrap(), "/state");
    assert!(check_send_request(&request(), "").is_err());
    assert!(check_receive_request(&request(), "/state").is_err());
    let mut receiving = request();
    receiving.direction = FfiTransferDirection::Receive;
    assert!(check_send_request(&receiving, "/state").is_err());
    assert!(check_receive_request(&receiving, "/state").is_ok());
}

fn attempts(count: usize) -> Vec<RouteAttempt> {
    (0..count)
        .map(|_| RouteAttempt {
            source: PeerSource::Mdns { token: None },
            path_policy_override: None,
        })
        .collect()
}

#[test]
fn sends_try_their_routes_in_turn() {
    assert!(matches!(
        send_started(&manifest(3)),
        ObserverCall::Started { item_count: 3, total_bytes: 100 }
    ));
    let settings = EnvoixRuntimeSettings::default();
    let mut session = SendSession::new(&sealed(), attempts(2));
    assert!(matches!(session.step(&settings, &request(), &None), SendStep::Try { .. }));
    let lost = || Err(judged(SessionCause::Transport { detail: "lost".into() }, "lost"));
    match session.tried(&lost(), false) {
        SendProgress::Next(calls) => assert!(matches!(
            &calls[0],
            ObserverCall::Diagnostic { message }
                if message == "route failed; trying next route: lost"
        )),
        SendProgress::Done(_) => panic!("a second route is left"),
    }
    assert!(matches!(session.tried(&lost(), false), SendProgress::Next(_)));
    match session.step(&settings, &request(), &None) {
        SendStep::Fail(SessionError { cause: SessionCause::Transport { detail }, .. }) => {
            assert_eq!(detail, "lost")
        }
        _ => panic!("no route is left"),
    }
    let report =
        session.exhausted(&rendered(SessionCause::Cancelled, "nothing left"), verdict());
    assert_eq!(reason(report.result.err().unwrap()), "nothing left");
    let mut stopped = SendSession::new(&sealed(), attempts(2));
    assert!(matches!(stopped.tried(&lost(), true), SendProgress::Done(_)));
    let mut won = SendSession::new(&sealed(), attempts(2));
    let summary = SessionSummary { entry_result_count: 3, delivery_proof_digest: vec![1] };
    match won.tried(&Ok(summary), false) {
        SendProgress::Done(report) => {
            assert_eq!(report.result.ok().unwrap().entry_count, 3);
        }
        SendProgress::Next(_) => panic!("the send is done"),
    }
    let none = SendSession::new(&sealed(), Vec::new());
    assert!(matches!(none.step(&settings, &request(), &None), SendStep::Fail(_)));
}

#[test]
fn races_are_won_by_the_first_route() {
    let mut race = RouteRace::new(2);
    let failed = RaceEvent::Failed(rendered(
        SessionCause::Transport { detail: "x".into() },
        "x",
    ));
    assert!(matches!(race.on_event(failed), RaceAction::Wait(_)));
    assert!(matches!(race.on_event(RaceEvent::Won(1)), RaceAction::Accept(1)));
    let mut cancelled = RouteRace::new(1);
    assert!(matches!(
        cancelled.on_event(RaceEvent::Cancelled),
        RaceAction::Abort { error: SessionError { cause: SessionCause::Cancelled, .. }, .. }
    ));
}

#[test]
fn stream_reads_are_bounded() {
    let read = |len: usize| FfiNativeTransportRead { bytes: vec![0; len], end_of_stream: true };
    let taken = receive(4, Ok(read(4))).ok().unwrap();
    assert_eq!(taken.bytes.len(), 4);
    assert!(taken.end_of_stream);
    let detail = |error: SessionError| match error.cause {
        SessionCause::Transport { detail } => detail,
        _ => panic!("expected a transport error"),
    };
    assert_eq!(
        detail(receive(4, Ok(read(5))).err().unwrap()),
        "platform Wi-Fi Aware transport exceeded its read bound"
    );
    let refused = || FfiNativeTransportError::Operation { reason: "off".into() };
    assert_eq!(
        detail(receive(4, Err(refused())).err().unwrap()),
        "platform Wi-Fi Aware transport failed: off"
    );
    assert_eq!(
        receive_datagram(2, Ok(FfiNativeDatagram { bytes: vec![1, 2] })).ok().unwrap(),
        vec![1, 2]
    );
    assert_eq!(
        detail(receive_datagram(1, Ok(FfiNativeDatagram { bytes: vec![1, 2] })).err().unwrap()),
        "platform Wi-Fi Aware datagram exceeded its receive bound"
    );
    assert_eq!(
        detail(receive_datagram(1, Err(refused())).err().unwrap()),
        "platform Wi-Fi Aware datagram transport failed: off"
    );
}

#[test]
fn only_proofs_tell_of_a_delivery() {
    let delivery = |call: &ObserverCall| {
        matches!(
            call,
            ObserverCall::Completed { .. }
                | ObserverCall::Phase { phase: FfiManifestV2Phase::Delivered }
        )
    };
    let all_sent = on_event(&TransferEvent::Progress { bytes_transferred: 8, total_bytes: 8 });
    assert!(!all_sent.iter().any(delivery));
    let waiting = on_event(&TransferEvent::ManifestV2Phase {
        phase: ManifestV2ProgressPhase::WaitingForReceiverSave,
    });
    assert!(!waiting.iter().any(delivery));
    let failed = failure_report(
        &rendered(SessionCause::Transport { detail: "lost".into() }, "connection lost"),
        verdict(),
        FfiTransferDirection::Send,
        FfiFailurePhase::Transferring,
    );
    assert_eq!(reason(failed.result.err().unwrap()), "connection lost");
    assert_eq!(failed.calls.len(), 1);
    assert!(!failed.calls.iter().any(delivery));
}

#[test]
fn only_sealed_jobs_are_sent() {
    let start = sealed();
    assert!(matches!(
        start.started(),
        ObserverCall::Started { item_count: 3, total_bytes: 100 }
    ));
    assert_eq!(start.state_directory(), "/state");
    assert_eq!(start.job().lifecycle, JobLifecycle::Sealed);
    let refused = |request: FfiTransferRequest, directory: &str| {
        reason(start_send(&request, directory, &job(None)).err().unwrap())
    };
    let mut receiving = request();
    receiving.direction = FfiTransferDirection::Receive;
    assert_eq!(refused(receiving, ""), "send_transfer_job_v2 requires a send request");
    assert_eq!(refused(request(), " "), "state_directory must not be empty");
    assert_eq!(
        refused(request(), "/state"),
        "transfer job must be sealed by an explicit Send action"
    );
}

#[test]
fn clients_that_cannot_be_built_end_a_session() {
    let settings = EnvoixRuntimeSettings::default();
    let broken = Some("bad config".to_string());
    let session = SendSession::new(&sealed(), attempts(2));
    match session.step(&settings, &request(), &broken) {
        SendStep::Refuse(error) => assert_eq!(reason(error), "bad config"),
        _ => panic!("the send cannot go on"),
    }
    // without a route left no client is built
    let none = SendSession::new(&sealed(), Vec::new());
    assert!(matches!(none.step(&settings, &request(), &broken), SendStep::Fail(_)));
    let attempt = &attempts(1)[0];
    assert!(receive_one_offer_attempt(&settings, &request(), attempt, &None).is_ok());
    let error = receive_one_offer_attempt(&settings, &request(), attempt, &broken).err().unwrap();
    assert!(matches!(
        error.cause,
        SessionCause::InvalidInput { detail } if detail == "bad config"
    ));
}

#[test]
fn single_routes_are_not_raced() {
    let single = receive_offer_from_attempts(attempts(1));
    assert!(single.shares_cancellation());
    assert!(matches!(single, ReceiveRouting::Single(_)));
    for count in [0, 2] {
        let routing = receive_offer_from_attempts(attempts(count));
        assert!(!routing.shares_cancellation());
        assert!(matches!(
            routing,
            ReceiveRouting::Race { attempts, .. } if attempts.len() == count
        ));
    }
    let used_up = RenderedError {
        error: SessionError {
            cause: SessionCause::Transport { detail: "lost".into() },
            invitation_consumed: true,
        },
        rendered: "used up".into(),
    };
    let report = single_route_failed(&used_up, verdict());
    assert_eq!(report.calls.len(), 1);
    assert_eq!(reason(report.result.err().unwrap()), "used up");
}

#[test]
fn only_invitations_are_authenticated_as_such() {
    let plan = AttemptPlan::Invitation { secret_ref: "s".into(), broker: "b".into() };
    let authentication = invitation_authentication(&plan, true).unwrap();
    assert!(authentication.remember_consent());
    assert!(!authentication.authenticated());
    assert!(invitation_authentication(&AttemptPlan::Mdns { token: None }, true).is_none());
    let manual = AttemptPlan::ShowManual { token: "t".into() };
    assert!(invitation_authentication(&manual, true).is_none());
}
