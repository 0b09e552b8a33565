use envoix_ffi::api::invitations::{
    build_client_for_request, generate_room_code, invitation_err, non_empty, normalize_room_code,
    pairing_invite_order, parse_pairing_invite, parse_pairing_invite_for_role,
    peer_sources_for_request, register_protected_remembered_credential, relay_for_pairing_invite,
    required, shown_invite_order, transfer_invitation_room_id, transfer_options_for_request,
    CreatedInvitation, CreatedInvitations, HostedEndpoints, InvitationError, InvitationErrorCode,
    PathPolicy, PeerSource, RouteLookups, TransferRole, ValidatedInvitation,
};
use envoix_ffi::api::types::{
    envoix_core_info, EnvoixError, EnvoixRuntimeSettings, FfiInvitationErrorCode, FfiInviteRole,
    FfiPairingInvite, FfiTransferDirection, FfiTransferMode, FfiTransferRequest,
};
use envoix_ffi::common::{FfiPathPolicy, FfiRendezvousPlan};

const TEST_BROKER: &str = "https://broker.example";

fn hosted() -> HostedEndpoints {
    HostedEndpoints {
        rendezvous_broker: "https://hosted-broker".into(),
        relay_url: "https://hosted-relay".into(),
    }
}

fn request(mode: FfiTransferMode) -> FfiTransferRequest {
    FfiTransferRequest {
        direction: FfiTransferDirection::Send,
        mode,
        peer_descriptor: String::new(),
        invite: String::new(),
        code: String::new(),
        token: String::new(),
        remember_consent: false,
        remembered_credential_ref: String::new(),
        remembered_generation: 0,
        remembered_previous_generation: None,
        broker: TEST_BROKER.into(),
        relay: String::new(),
        config_path: String::new(),
        path_policy: FfiPathPolicy::Auto,
        rendezvous: FfiRendezvousPlan::default(),
    }
}

fn room_request(code: String) -> FfiTransferRequest {
    let mut request = request(FfiTransferMode::Room);
    request.code = code;
    request
}

fn malformed() -> InvitationError {
    InvitationError { code: InvitationErrorCode::Malformed, message: "malformed".into() }
}

fn validated() -> ValidatedInvitation {
    ValidatedInvitation {
        broker: "https://invite-broker".into(),
        relay_urls: vec!["https://invite-relay".into()],
        creator_role: TransferRole::Sender,
        joiner_role: TransferRole::Receiver,
        expires_at: 99,
        room_id: "123456".into(),
        secret_ref: "secret-1".into(),
    }
}

fn lookups() -> RouteLookups {
    RouteLookups {
        descriptor_error: None,
        invitation: Err(malformed()),
        room_code: Err(malformed()),
        source_error: None,
    }
}

fn code_lookups(code: &str) -> RouteLookups {
    RouteLookups { room_code: Ok(code.into()), ..lookups() }
}

fn created() -> CreatedInvitation {
    CreatedInvitation {
        room_code: "123456-k7m4-9v2d".into(),
        payload: "envoix:payload".into(),
        broker: TEST_BROKER.into(),
        relay_urls: Vec::new(),
        creator_role: TransferRole::Sender,
        joiner_role: TransferRole::Receiver,
        expires_at: 7,
        room_id: "123456".into(),
        secret_ref: "secret-9".into(),
    }
}

fn reason(error: &EnvoixError) -> String {
    match error {
        EnvoixError::Operation { reason } => reason.clone(),
        EnvoixError::Invitation { reason, .. } => reason.clone(),
    }
}

fn route_error(request: &FfiTransferRequest, lookups: &RouteLookups) -> String {
    reason(
        &peer_sources_for_request(
            &EnvoixRuntimeSettings::default(),
            request,
            &hosted(),
            &CreatedInvitations::new(),
            lookups,
        )
        .err()
        .unwrap(),
    )
}

fn route(request: &FfiTransferRequest, lookups: &RouteLookups) -> PeerSource {
    let mut routes = peer_sources_for_request(
        &EnvoixRuntimeSettings::default(),
        request,
        &hosted(),
        &CreatedInvitations::new(),
        lookups,
    )
    .ok()
    .unwrap();
    assert_eq!(routes.len(), 1);
    assert!(routes[0].path_policy_override.is_none());
    routes.remove(0).source
}

#[test]
fn creator_and_joiner_share_public_invitation_room_id() {
    let mut store = CreatedInvitations::new();
    let invitation = store.make_pairing_invite(&Ok(created()), &None).ok().unwrap();

    let creator_room_id = transfer_invitation_room_id(
        &room_request(invitation.room_code.clone()),
        &store,
        &code_lookups("123456-k7m4-9v2d"),
    )
    .ok()
    .unwrap();
    let mut joiner = request(FfiTransferMode::Invite);
    joiner.direction = FfiTransferDirection::Receive;
    joiner.invite = invitation.payload.clone();
    let joiner_room_id = transfer_invitation_room_id(
        &joiner,
        &store,
        &RouteLookups { invitation: Ok(validated()), ..lookups() },
    )
    .ok()
    .unwrap();

    assert_eq!(creator_room_id, joiner_room_id);
    assert_eq!(creator_room_id.len(), 6);
    assert!(creator_room_id.bytes().all(|byte| byte.is_ascii_digit()));
    assert_ne!(creator_room_id, invitation.room_code);
}

#[test]
fn invitation_room_id_rejects_non_invitation_modes() {
    let mut request = room_request("123456-k7m4-9v2d".into());
    request.mode = FfiTransferMode::Mdns;

    assert!(matches!(
        transfer_invitation_room_id(&request, &CreatedInvitations::new(), &lookups()),
        Err(EnvoixError::Operation { reason })
            if reason == "invitation Room ID requires Room or Invite mode"
    ));
}

#[test]
fn external_naked_invite_v2_room_code_is_rejected() {
    let settings = EnvoixRuntimeSettings::default();
    let store = CreatedInvitations::new();
    let parsed = code_lookups("123456-k7m4-9v2d");
    let result = peer_sources_for_request(
        &settings,
        &room_request("123456-k7m4-9v2d".into()),
        &hosted(),
        &store,
        &parsed,
    );

    assert!(matches!(
        result,
        Err(EnvoixError::Operation { reason })
            if reason == "Naked InviteV2 Room Codes are no longer supported"
    ));

    let mut offline = room_request("123456-k7m4-9v2d".into());
    offline.rendezvous.internet_available = false;
    assert!(matches!(
        peer_sources_for_request(&settings, &offline, &hosted(), &store, &parsed),
        Err(EnvoixError::Operation { reason })
            if reason == "Naked InviteV2 Room Codes are no longer supported"
    ));
}

#[test]
fn creator_room_source_survives_pre_authentication_retry() {
    let invitation = created();
    let room_code = invitation.room_code.clone();
    let mut store = CreatedInvitations::new();
    assert!(store.register_created_invitation(&invitation, &None).is_ok());

    let first = store.created_invitation_source(&room_code, TransferRole::Sender).unwrap();
    let second = store.created_invitation_source(&room_code, TransferRole::Sender).unwrap();
    assert_eq!(first, second);
    assert!(store.created_invitation_source(&room_code, TransferRole::Receiver).is_none());
    let routed = peer_sources_for_request(
        &EnvoixRuntimeSettings::default(),
        &room_request(room_code.clone()),
        &hosted(),
        &store,
        &code_lookups(&room_code),
    )
    .ok()
    .unwrap();
    assert_eq!(routed.len(), 1);
    assert_eq!(routed[0].source, first);
    assert!(matches!(first, PeerSource::Invitation { .. }));
}

#[test]
fn offline_creators_cannot_bootstrap() {
    let mut store = CreatedInvitations::new();
    assert!(store.register_created_invitation(&created(), &None).is_ok());
    let mut offline = room_request("123456-k7m4-9v2d".into());
    offline.rendezvous.internet_available = false;
    let error = peer_sources_for_request(
        &EnvoixRuntimeSettings::default(),
        &offline,
        &hosted(),
        &store,
        &code_lookups("123456-k7m4-9v2d"),
    )
    .err()
    .unwrap();
    assert_eq!(
        reason(&error),
        "Creator invitation bootstrap requires an available rendezvous broker"
    );
}

#[test]
fn refused_invitations_are_not_registered() {
    let mut store = CreatedInvitations::new();
    let error = store.make_pairing_invite(&Ok(created()), &Some("no source".into())).err().unwrap();
    assert_eq!(reason(&error), "no source");
    assert!(store.created_invitation_source("123456-k7m4-9v2d", TransferRole::Sender).is_none());
    assert!(store.make_pairing_invite(&Err(malformed()), &None).is_err());
}

#[test]
fn every_mode_names_its_source() {
    let mut manual = request(FfiTransferMode::Manual);
    assert_eq!(route_error(&manual, &lookups()), "peer_descriptor must not be empty");
    manual.peer_descriptor = " peer ".into();
    assert_eq!(route_error(&manual, &lookups()), "token must not be empty");
    manual.token = " shared-token ".into();
    assert_eq!(
        route(&manual, &lookups()),
        PeerSource::Manual { peer_descriptor: "peer".into(), token: "shared-token".into() }
    );
    assert_eq!(
        route_error(&manual, &RouteLookups { descriptor_error: Some("bad".into()), ..lookups() }),
        "bad"
    );
    assert_eq!(
        route_error(&manual, &RouteLookups { source_error: Some("short".into()), ..lookups() }),
        "short"
    );

    let mut invite = request(FfiTransferMode::Invite);
    assert_eq!(route_error(&invite, &lookups()), "invite must not be empty");
    invite.invite = "envoix:x".into();
    assert_eq!(route_error(&invite, &lookups()), "malformed");
    assert_eq!(
        route(&invite, &RouteLookups { invitation: Ok(validated()), ..lookups() }),
        PeerSource::Invitation {
            room_id: "123456".into(),
            secret_ref: "secret-1".into(),
            broker: "https://invite-broker".into(),
        }
    );

    let mut remembered = request(FfiTransferMode::Remembered);
    assert_eq!(
        route_error(&remembered, &lookups()),
        "remembered_credential_ref must not be empty"
    );
    remembered.rendezvous.use_room = false;
    assert_eq!(
        route_error(&remembered, &lookups()),
        "remembered devices require an available rendezvous broker"
    );
    remembered.rendezvous.use_room = true;
    remembered.remembered_credential_ref = " ref ".into();
    remembered.remembered_generation = 4;
    remembered.remembered_previous_generation = Some(3);
    assert_eq!(
        route(&remembered, &lookups()),
        PeerSource::Remembered {
            credential_ref: "ref".into(),
            generation: 4,
            previous_generation: Some(3),
            broker: TEST_BROKER.into(),
        }
    );

    let show = request(FfiTransferMode::ShowManual);
    assert_eq!(route(&show, &lookups()), PeerSource::ShowManual { token: None });
    let mut shown = request(FfiTransferMode::ShowInvite);
    shown.broker = "  ".into();
    assert_eq!(
        route(&shown, &RouteLookups { invitation: Ok(validated()), ..lookups() }),
        PeerSource::Invitation {
            room_id: "123456".into(),
            secret_ref: "secret-1".into(),
            broker: "https://hosted-broker".into(),
        }
    );
    let mut mdns = request(FfiTransferMode::Mdns);
    mdns.token = "t".into();
    assert_eq!(route(&mdns, &lookups()), PeerSource::Mdns { token: Some("t".into()) });

    assert_eq!(route_error(&room_request(" ".into()), &lookups()), "code must not be empty");
    assert_eq!(route_error(&room_request("x".into()), &lookups()), "malformed");
}

#[test]
fn options_need_a_relay_where_only_relays_are_allowed() {
    let mut settings = EnvoixRuntimeSettings::default();
    let mut relayed = request(FfiTransferMode::Mdns);
    relayed.path_policy = FfiPathPolicy::RelayOnly;
    let error = transfer_options_for_request(&settings, &relayed, None).err().unwrap();
    assert_eq!(reason(&error), "relay-only routing requires a relay URL");
    let direct = transfer_options_for_request(&settings, &relayed, Some(PathPolicy::DirectOnly))
        .ok()
        .unwrap();
    assert_eq!(direct.path, PathPolicy::DirectOnly);
    assert_eq!(direct.relay, None);
    settings.relay_url = " https://settings-relay ".into();
    let options = transfer_options_for_request(&settings, &relayed, None).ok().unwrap();
    assert_eq!(options.relay.as_deref(), Some("https://settings-relay"));
    relayed.relay = "https://own".into();
    let options = transfer_options_for_request(&settings, &relayed, None).ok().unwrap();
    assert_eq!(options.relay.as_deref(), Some("https://own"));
}

#[test]
fn configuration_paths_prefer_the_request() {
    let mut settings = EnvoixRuntimeSettings::default();
    let mut wanted = request(FfiTransferMode::Mdns);
    assert_eq!(build_client_for_request(&settings, &wanted), None);
    settings.config_path = " /s ".into();
    assert_eq!(build_client_for_request(&settings, &wanted).as_deref(), Some("/s"));
    wanted.config_path = "/r".into();
    assert_eq!(build_client_for_request(&settings, &wanted).as_deref(), Some("/r"));
}

#[test]
fn invites_are_ordered_with_hosted_fallbacks() {
    let order = pairing_invite_order(FfiInviteRole::Receive, "  ", "", &hosted());
    assert_eq!(order.broker, "https://hosted-broker");
    assert_eq!(order.relay_urls, vec!["https://hosted-relay".to_string()]);
    assert_eq!(order.role, TransferRole::Receiver);
    let order = pairing_invite_order(FfiInviteRole::Send, " b ", "", &hosted());
    assert_eq!(order.broker, "b");
    assert!(order.relay_urls.is_empty());
    assert_eq!(relay_for_pairing_invite("b", " r ", &hosted()).as_deref(), Some("r"));
    let mut shown = request(FfiTransferMode::ShowInvite);
    shown.relay = "r".into();
    let order = shown_invite_order(&EnvoixRuntimeSettings::default(), &shown, &hosted());
    assert_eq!(order.broker, TEST_BROKER);
    assert_eq!(order.relay_urls, vec!["r".to_string()]);
    assert_eq!(order.role, TransferRole::Sender);
}

#[test]
fn invitation_errors_keep_their_code() {
    let code = |code| match invitation_err(&InvitationError { code, message: "m".into() }) {
        EnvoixError::Invitation { code, reason } => {
            assert_eq!(reason, "m");
            code
        }
        _ => panic!("expected an invitation error"),
    };
    assert_eq!(code(InvitationErrorCode::Expired), FfiInvitationErrorCode::Expired);
    assert_eq!(code(InvitationErrorCode::Oversized), FfiInvitationErrorCode::Oversized);
    assert_eq!(
        code(InvitationErrorCode::AuthenticationFailed),
        FfiInvitationErrorCode::AuthenticationFailure
    );
    assert_eq!(code(InvitationErrorCode::Replay), FfiInvitationErrorCode::Replay);
    assert_eq!(code(InvitationErrorCode::RoleConflict), FfiInvitationErrorCode::RoleConflict);
    assert_eq!(
        code(InvitationErrorCode::UnsupportedVersion),
        FfiInvitationErrorCode::UnsupportedVersion
    );
    assert_eq!(
        code(InvitationErrorCode::UnsupportedCapability),
        FfiInvitationErrorCode::UnsupportedCapability
    );
    assert_eq!(code(InvitationErrorCode::Unlisted), FfiInvitationErrorCode::Malformed);
}

#[test]
fn parsed_invites_show_no_secrets() {
    let shown = parse_pairing_invite(&Ok(validated())).ok().unwrap();
    assert_eq!(shown.room_code, "");
    assert_eq!(shown.payload, "");
    assert_eq!(shown.broker, "https://invite-broker");
    assert_eq!(shown.creator_role, FfiInviteRole::Send);
    assert_eq!(shown.joiner_role, FfiInviteRole::Receive);
    let created = FfiPairingInvite::from_created(&created());
    assert_eq!(created.room_code, "123456-k7m4-9v2d");
    assert_eq!(created.payload, "envoix:payload");
}

#[test]
fn invite_and_request_texts_hide_secrets() {
    let mut invite = FfiPairingInvite::from_created(&created());
    invite.relay_urls = vec!["https://r".into(), "https://s".into()];
    assert_eq!(
        invite.debug_text(),
        "FfiPairingInvite { room_code: \"<redacted>\", payload: \"<redacted>\", \
         broker: \"https://broker.example\", relay_urls: [\"https://r\", \"https://s\"], \
         creator_role: Send, joiner_role: Receive, expires_at: 7 }"
    );
    let mut secret = request(FfiTransferMode::Remembered);
    secret.invite = "invite-secret".into();
    secret.code = "code-secret".into();
    secret.token = "token-secret".into();
    secret.remembered_credential_ref = "ref-secret".into();
    secret.remembered_generation = 3;
    secret.remembered_previous_generation = Some(2);
    assert_eq!(
        secret.debug_text(),
        "FfiTransferRequest { direction: Send, mode: Remembered, peer_descriptor: \"\", \
         invite: \"<redacted>\", code: \"<redacted>\", token: \"<redacted>\", \
         remember_consent: false, remembered_credential_ref: \"<redacted>\", \
         remembered_generation: 3, remembered_previous_generation: Some(2), \
         broker: \"https://broker.example\", relay: \"\", config_path: \"\", path_policy: Auto, \
         rendezvous: FfiRendezvousPlan { use_room: true, use_mdns: true, \
         internet_available: true } }"
    );
}

#[test]
fn required_fields_are_trimmed() {
    assert_eq!(required(" x ", "field").ok().unwrap(), "x");
    assert_eq!(reason(&required("\t", "field").err().unwrap()), "field must not be empty");
    assert_eq!(non_empty(" \n"), None);
    assert_eq!(non_empty(" y").as_deref(), Some("y"));
}

#[test]
fn core_info_advertises_the_typed_log_sink() {
    let info = envoix_core_info("1.2.3");
    assert_eq!(info.ffi_api_version, 25);
    assert_eq!(info.core_version, "1.2.3");
    assert!(info.capabilities.iter().any(|capability| capability == "typed_log_sink_v1"));
    assert_eq!(info.capabilities.len(), 22);
}

#[test]
fn settings_default_to_concurrent_english() {
    let settings = EnvoixRuntimeSettings::default();
    assert!(settings.concurrent_transfers);
    assert_eq!(settings.language, "en");
    assert_eq!(settings.speed_limit_mbps, 0);
    assert_eq!(settings.server_url, "");
}

#[test]
fn room_codes_are_reported() {
    assert_eq!(generate_room_code(&Ok("123456-k7m4-9v2d".into())).ok().unwrap(), "123456-k7m4-9v2d");
    assert_eq!(normalize_room_code(&Ok("123456".into())).ok().unwrap(), "123456");
    for refused in [generate_room_code(&Err(malformed())), normalize_room_code(&Err(malformed()))] {
        assert!(matches!(
            refused.err().unwrap(),
            EnvoixError::Invitation { code: FfiInvitationErrorCode::Malformed, reason }
                if reason == "malformed"
        ));
    }
}

#[test]
fn invitations_are_shown_for_the_local_role() {
    let shown = parse_pairing_invite_for_role(&Ok(validated())).ok().unwrap();
    assert_eq!(shown.broker, "https://invite-broker");
    assert_eq!(shown.relay_urls, ["https://invite-relay"]);
    assert_eq!(shown.payload, "");
    assert_eq!(reason(&parse_pairing_invite_for_role(&Err(malformed())).err().unwrap()), "malformed");
}

#[test]
fn protected_credentials_get_a_handle() {
    let handle = register_protected_remembered_credential(&Ok("handle-1".into()));
    assert_eq!(handle.ok().unwrap(), "handle-1");
    let refused = register_protected_remembered_credential(&Err("bad credential".into()));
    assert_eq!(reason(&refused.err().unwrap()), "bad credential");
}
