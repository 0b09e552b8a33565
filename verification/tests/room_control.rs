use envoix_ffi::api::failures::{RendezvousCause, SessionCause, SessionError};
use envoix_ffi::api::invitations::HostedEndpoints;
use envoix_ffi::api::nearby::{
    core_endpoint, inbox_relay, project_endpoint, start_nearby_invite_inbox, NearbyInvite,
    NearbyInviteEndpoint,
};
use envoix_ffi::api::room_control::{
    connect_remembered_room_control_session, connect_room_control_session, core_offer,
    derive_remembered_presence_tag,
    ffi_lifetime, ffi_offer, make_room_control_invite, parse_room_control_invite,
    presence_credential, project_event, project_invite, remembered_connect_err,
    remembered_connect_metadata, remembered_session_connect_err, room_control_err, room_endpoints,
    CoreError, FfiRememberedRoomConnectError, FfiRememberedRoomConnectMode, FfiRoomCloseReason,
    FfiRoomConnectMode, FfiRoomControlCancellation, FfiRoomControlError, FfiRoomControlEventKind,
    FfiRoomControlSession, FfiRoomLifetimePolicy, FfiRoomLifetimeState, FfiRoomOfferRejection,
    FfiRoomTransferOffer, RememberedRoomControlRole, RoomCloseReason, RoomControlEvent,
    RoomControlInvite, RoomLifetimePolicy, RoomLifetimeState, RoomOfferRejection,
    RoomSessionState,
};
use envoix_ffi::api::types::{envoix_core_info, EnvoixError, FfiFailureCode};

fn invite(relay: Option<&str>, expires: u64) -> RoomControlInvite {
    RoomControlInvite {
        code: "123456-a1b2-c3d4".into(),
        payload: "envoix://room/123456-a1b2-c3d4?broker=test&expires=42".into(),
        broker: "test".into(),
        relay: relay.map(|relay| relay.into()),
        expires_at_unix_secs: expires,
    }
}

fn hosted() -> HostedEndpoints {
    HostedEndpoints { rendezvous_broker: "hosted-b".into(), relay_url: "hosted-r".into() }
}

#[test]
fn invite_projection_uses_epoch_milliseconds() {
    assert_eq!(project_invite(&invite(None, 42)).expires_at_epoch_ms, 42_000);
    assert_eq!(project_invite(&invite(None, u64::MAX)).expires_at_epoch_ms, u64::MAX);
    assert_eq!(project_invite(&invite(None, 1)).relay, "");
}

#[test]
fn room_endpoints_fall_back_to_the_hosted_ones() {
    let given = room_endpoints(" https://broker.example.test ", "https://relay", &hosted());
    assert_eq!(given.rendezvous_broker, "https://broker.example.test");
    assert_eq!(given.relay_url, "https://relay");
    assert_eq!(room_endpoints(" ", "", &hosted()), hosted());
}

#[test]
fn invite_results_are_reported() {
    assert_eq!(parse_room_control_invite(&Ok(invite(Some("r"), 1))).ok().unwrap().relay, "r");
    assert!(parse_room_control_invite(&Err("legacy".into())).is_err());
    assert_eq!(make_room_control_invite(&Ok(invite(None, 2))).ok().unwrap().broker, "test");
}

#[test]
fn event_projection_preserves_offer_id() {
    let event = project_event(&RoomControlEvent::OfferAccepted { offer_id: "opaque_7".into() });
    assert_eq!(event.kind, FfiRoomControlEventKind::OfferAccepted);
    assert_eq!(event.offer_id, "opaque_7");
}

#[test]
fn verification_events_cross_the_ffi_boundary() {
    assert_eq!(
        project_event(&RoomControlEvent::VerificationRequested).kind,
        FfiRoomControlEventKind::VerificationRequested
    );
    assert_eq!(
        project_event(&RoomControlEvent::VerificationSucceeded).kind,
        FfiRoomControlEventKind::VerificationSucceeded
    );
    assert_eq!(
        project_event(&RoomControlEvent::VerificationFailed).kind,
        FfiRoomControlEventKind::VerificationFailed
    );
}

#[test]
fn offer_projection_preserves_directory_count() {
    let offer = FfiRoomTransferOffer {
        offer_id: "opaque_7".into(),
        transfer_invite: "opaque_invite".into(),
        root_names: vec!["Photos".into()],
        item_count: 7,
        directory_count: 3,
        total_bytes: 42,
    };
    assert_eq!(ffi_offer(&core_offer(&offer)), offer);
    let event = project_event(&RoomControlEvent::IncomingOffer { offer: core_offer(&offer) });
    assert_eq!(event.offer, Some(offer));
}

#[test]
fn lifetime_projection_preserves_revision_policy_and_nullable_deadline() {
    let state = RoomLifetimeState {
        revision: 7,
        policy: RoomLifetimePolicy::Idle15Minutes,
        idle_deadline_unix_ms: Some(123_456),
    };
    let event = project_event(&RoomControlEvent::LifetimeChanged { lifetime: state });
    assert_eq!(event.kind, FfiRoomControlEventKind::LifetimeChanged);
    assert_eq!(
        event.lifetime,
        Some(FfiRoomLifetimeState {
            revision: 7,
            policy: FfiRoomLifetimePolicy::Idle15Minutes,
            idle_deadline_epoch_ms: Some(123_456),
        })
    );

    let paused = ffi_lifetime(RoomLifetimeState {
        revision: 8,
        policy: RoomLifetimePolicy::Idle15Minutes,
        idle_deadline_unix_ms: None,
    });
    assert_eq!(paused.idle_deadline_epoch_ms, None);
}

#[test]
fn other_events_tell_their_own_fields() {
    let rejected = project_event(&RoomControlEvent::OfferRejected {
        offer_id: "o".into(),
        reason: RoomOfferRejection::Busy,
    });
    assert_eq!(rejected.rejection, Some(FfiRoomOfferRejection::Busy));
    let closed = project_event(&RoomControlEvent::PeerClosed { reason: RoomCloseReason::PeerEnded });
    assert_eq!(closed.close_reason, Some(FfiRoomCloseReason::PeerEnded));
    assert_eq!(closed.offer, None);
    let pong = project_event(&RoomControlEvent::Pong { nonce: 5 });
    assert_eq!(pong.kind, FfiRoomControlEventKind::Pong);
    assert_eq!(pong.nonce, 5);
}

#[test]
fn remembered_connect_error_preserves_authenticated_phase() {
    assert!(matches!(
        remembered_connect_err("control hello failed", true),
        FfiRememberedRoomConnectError::Failed {
            reason,
            peer_authenticated: true,
            failure_code: None,
            retry_after_seconds: None,
        } if reason == "control hello failed"
    ));
}

fn rendezvous(cause: RendezvousCause, retry_after: Option<u64>) -> SessionError {
    SessionError {
        cause: SessionCause::Rendezvous { cause, retry_after },
        invitation_consumed: false,
    }
}

#[test]
fn remembered_connect_error_exposes_typed_rendezvous_cause_and_retry_delay() {
    assert_eq!(
        remembered_connect_metadata(&rendezvous(RendezvousCause::RoomExpired, None)),
        (Some(FfiFailureCode::RoomExpired), None)
    );
    assert_eq!(
        remembered_connect_metadata(&rendezvous(RendezvousCause::ServerBusy, Some(17))),
        (Some(FfiFailureCode::ServerBusy), Some(17))
    );
    let other = SessionError { cause: SessionCause::Cancelled, invitation_consumed: false };
    assert_eq!(remembered_connect_metadata(&other), (None, None));
    assert!(matches!(
        remembered_session_connect_err(
            &rendezvous(RendezvousCause::UnsupportedVersion, None),
            "unsupported",
            true,
        ),
        FfiRememberedRoomConnectError::Failed {
            peer_authenticated: true,
            failure_code: Some(FfiFailureCode::UnsupportedRendezvousVersion),
            ..
        }
    ));
}

#[test]
fn room_control_errors_have_stable_session_dispositions() {
    assert!(matches!(
        room_control_err(&CoreError::InvalidInput { reason: "offer rejected".into() }),
        FfiRoomControlError::Rejected { reason } if reason == "offer rejected"
    ));
    assert!(matches!(
        room_control_err(&CoreError::Io { reason: "socket closed".into() }),
        FfiRoomControlError::NetworkLost { reason } if reason == "socket closed"
    ));
    assert!(matches!(
        room_control_err(&CoreError::Transport { reason: "relay unavailable".into() }),
        FfiRoomControlError::NetworkLost { reason } if reason == "relay unavailable"
    ));
    assert!(matches!(
        room_control_err(&CoreError::InvitationConsumed {
            source: Box::new(CoreError::Transport { reason: "peer disconnected".into() }),
        }),
        FfiRoomControlError::NetworkLost { reason } if reason == "peer disconnected"
    ));
    assert!(matches!(
        room_control_err(&CoreError::Cancelled),
        FfiRoomControlError::Canceled { .. }
    ));
    assert!(matches!(
        room_control_err(&CoreError::Protocol { reason: "invalid event".into() }),
        FfiRoomControlError::Failed { reason } if reason == "protocol error: invalid event"
    ));
    assert!(matches!(
        room_control_err(&CoreError::Other { rendered: "odd".into() }),
        FfiRoomControlError::Failed { reason } if reason == "odd"
    ));
}

#[test]
fn core_info_advertises_room_control_v5_ffi_v25() {
    let info = envoix_core_info("0.3.0");
    assert_eq!(info.ffi_api_version, 25);
    for wanted in [
        "foreground_room_control_v5",
        "remembered_room_control_v1",
        "structured_stage_timing_v1",
        "canonical_failure_projection_v1",
        "typed_room_control_errors_v1",
        "typed_remembered_credential_vault_v1",
    ] {
        assert!(info.capabilities.iter().any(|capability| capability == wanted));
    }
}

#[test]
fn connections_are_planned_from_their_inputs() {
    let plan = connect_room_control_session(
        &invite(Some("r"), 1),
        FfiRoomConnectMode::Host,
        true,
        " /id ",
    );
    assert!(plan.host && plan.verified_pairing);
    assert_eq!(plan.identity_path.as_deref(), Some("/id"));
    assert_eq!(plan.relay.as_deref(), Some("r"));
    let plan = connect_remembered_room_control_session(
        " ref ",
        FfiRememberedRoomConnectMode::Responder,
        "",
        "",
        "r",
        &hosted(),
    )
    .ok()
    .unwrap();
    assert_eq!(plan.credential_ref, "ref");
    assert_eq!(plan.endpoints.rendezvous_broker, "hosted-b");
    assert_eq!(plan.endpoints.relay_url, "r");
    assert_eq!(plan.identity_path, None);
    assert_eq!(plan.role, RememberedRoomControlRole::Responder);
    let refused = connect_remembered_room_control_session(
        " ",
        FfiRememberedRoomConnectMode::Connector,
        "",
        "",
        "",
        &hosted(),
    );
    assert!(matches!(
        refused,
        Err(FfiRememberedRoomConnectError::Failed { reason, peer_authenticated: false, .. })
            if reason == "remembered credential reference is missing"
    ));
    assert!(presence_credential("").is_err());
    assert_eq!(presence_credential(" h ").ok().unwrap(), "h");
}

#[test]
fn sessions_report_their_operations() {
    let lifetime = RoomLifetimeState {
        revision: 1,
        policy: RoomLifetimePolicy::UntilForegroundEnds,
        idle_deadline_unix_ms: None,
    };
    let mut session = FfiRoomControlSession::new(RoomSessionState {
        peer_name: "peer".into(),
        creator: true,
        remembered_generation: Some(3),
        lifetime,
    });
    let snapshot = session.snapshot();
    assert_eq!(snapshot.peer_name, "peer");
    assert_eq!(snapshot.remembered_generation, Some(3));
    assert_eq!(session.lifetime_snapshot().revision, 1);
    session.set_lifetime(RoomLifetimeState { revision: 2, ..lifetime });
    assert_eq!(session.lifetime_snapshot().revision, 2);
    assert_eq!(session.accept_offer(&Ok(None)).ok().unwrap(), None);
    assert_eq!(session.offer_transfer(&Ok(Some(lifetime))).ok().unwrap().unwrap().revision, 1);
    assert!(session.ping(&Ok(())).is_ok());
    assert!(matches!(
        session.close(&Err(CoreError::Cancelled)),
        Err(FfiRoomControlError::Canceled { .. })
    ));
    assert!(session.store_pairing_credential(Some(true)));
    assert!(!session.store_pairing_credential(Some(false)));
    assert!(!session.store_pairing_credential(None));
    let mut cancellation = FfiRoomControlCancellation::new();
    assert!(!cancellation.is_cancelled());
    cancellation.cancel();
    assert!(cancellation.is_cancelled());
}

#[test]
fn invite_projection_preserves_sender_and_saturates_expiry_millis() {
    let projected = envoix_ffi::api::nearby::project_invite(&NearbyInvite {
        request_id: 9,
        sender_endpoint_id: "endpoint".into(),
        sender_peer_key: "0011223344556677".into(),
        sender_display_name: "Sender".into(),
        invite: "secret".into(),
        expires_at_unix_secs: u64::MAX,
    });
    assert_eq!(projected.request_id, 9);
    assert_eq!(projected.sender_endpoint_id, "endpoint");
    assert_eq!(projected.sender_peer_key, "0011223344556677");
    assert_eq!(projected.sender_display_name, "Sender");
    assert_eq!(projected.invite, "secret");
    assert_eq!(projected.expires_at_epoch_ms, u64::MAX);
}

fn endpoint() -> NearbyInviteEndpoint {
    NearbyInviteEndpoint {
        endpoint_id: "endpoint".into(),
        relay_url: Some("https://relay.example".into()),
        direct_addresses: vec!["192.0.2.1:4433".into(), "[2001:db8::1]:4433".into()],
    }
}

#[test]
fn endpoint_projection_preserves_explicit_routes() {
    let ffi = project_endpoint(&endpoint());
    assert_eq!(ffi.endpoint_id, "endpoint");
    assert_eq!(ffi.relay_url.as_deref(), Some("https://relay.example"));
    assert_eq!(ffi.direct_addresses, ["192.0.2.1:4433", "[2001:db8::1]:4433"]);
    assert_eq!(core_endpoint(&ffi), endpoint());
}

#[test]
fn core_info_advertises_nearby_invite_inbox_v1_ffi_v25() {
    let info = envoix_core_info("0.3.0");
    assert_eq!(info.ffi_api_version, 25);
    assert!(info.capabilities.iter().any(|capability| capability == "nearby_invite_inbox_v1"));
}

#[test]
fn inboxes_report_their_endpoint_and_invites() {
    let inbox = start_nearby_invite_inbox(Ok(endpoint())).ok().unwrap();
    assert_eq!(inbox.endpoint().endpoint_id, "endpoint");
    assert!(inbox.next_invite(&Err("closed".into())).is_err());
    assert!(inbox.send_invite(&Ok(())).is_ok());
    assert!(start_nearby_invite_inbox(Err("no socket".into())).is_err());
    assert_eq!(inbox_relay(" ", "hosted"), "hosted");
    assert_eq!(inbox_relay(" r ", "hosted"), "r");
}

#[test]
fn presence_tags_need_a_credential() {
    let derived = Ok("tag".to_string());
    assert_eq!(derive_remembered_presence_tag("h", &derived).ok().unwrap(), "tag");
    assert!(matches!(
        derive_remembered_presence_tag(" ", &derived),
        Err(EnvoixError::Operation { reason })
            if reason == "remembered credential reference is missing"
    ));
    assert!(matches!(
        derive_remembered_presence_tag("h", &Err("unknown handle".into())),
        Err(EnvoixError::Operation { reason }) if reason == "unknown handle"
    ));
}

#[test]
fn sessions_report_events_and_policies() {
    let lifetime = RoomLifetimeState {
        revision: 4,
        policy: RoomLifetimePolicy::UntilForegroundEnds,
        idle_deadline_unix_ms: Some(9),
    };
    let session = FfiRoomControlSession::new(RoomSessionState {
        peer_name: "peer".into(),
        creator: false,
        remembered_generation: None,
        lifetime,
    });
    let event = session.next_event(&Ok(RoomControlEvent::VerificationRequested)).ok().unwrap();
    assert_eq!(event.kind, FfiRoomControlEventKind::VerificationRequested);
    assert!(matches!(
        session.next_event(&Err(CoreError::Cancelled)),
        Err(FfiRoomControlError::Canceled { .. })
    ));
    for shown in [
        session.reject_offer(&Ok(Some(lifetime))),
        session.set_policy(&Ok(Some(lifetime))),
        session.set_local_transfer_active(&Ok(Some(lifetime))),
    ] {
        let shown = shown.ok().unwrap().unwrap();
        assert_eq!(shown.revision, 4);
        assert_eq!(shown, ffi_lifetime(lifetime));
    }
    assert!(session.request_verification(&Ok(())).is_ok());
    assert!(session.submit_verification_code(&Err(CoreError::Cancelled)).is_err());
}

#[test]
fn core_info_tells_of_staged_jobs_and_platform_destinations() {
    let info = envoix_core_info("0.3.0");
    for capability in ["typed_staged_provider_job_v1", "platform_manifest_v2_destination_v1"] {
        assert!(info.capabilities.contains(&capability.to_string()));
    }
}
