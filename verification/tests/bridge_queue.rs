use envoix_ffi::bridge::driver::AttemptVerdict;
use envoix_ffi::bridge::engine::Role;
use envoix_ffi::bridge::events::TransferCallback;
use envoix_ffi::bridge::models::{
    EnvoixError, EnvoixRuntimeSettings, FfiInviteRole, FfiTransferActivityState, FfiTransferMode,
    FfiTransferRequest,
};
use envoix_ffi::bridge::queue::{
    QueuedTransfer, TransferStop, TRANSFER_ACTIVITY_HISTORY_CAP,
};
use envoix_ffi::bridge::routes::SourceLookups;
use envoix_ffi::bridge::session::{
    cleanup_canceled_receive, envoix_core_info, make_transfer_activity_record, pairing_input,
    parse_pairing_invite, receive_request, receive_room_request, send_invite_request,
    send_mdns_request, EnvoixSession, IdCounters, Invite, StartFacts,
};

fn facts(now_ms: u64) -> StartFacts {
    StartFacts {
        client_error: None,
        lookups: SourceLookups {
            descriptor: None,
            descriptor_error: "bad descriptor".into(),
            invite: None,
        },
        now_ms,
    }
}

fn ids() -> IdCounters {
    IdCounters { next_activity: 1, next_attempt: 1 }
}

fn request(id: &str) -> FfiTransferRequest {
    send_mdns_request(id.into(), "/photos/cat.jpg".into(), "token".into())
}

fn serial() -> EnvoixSession {
    let mut settings = EnvoixRuntimeSettings::default();
    settings.concurrent_transfers = false;
    EnvoixSession::new_with_settings(settings)
}

fn start(session: &mut EnvoixSession, ids: &mut IdCounters, id: &str, now: u64) -> Vec<QueuedTransfer> {
    session.start_transfer(request(id), 7, &facts(now), ids).ok().unwrap().started
}

fn reason(error: EnvoixError) -> String {
    match error {
        EnvoixError::Operation { reason } => reason,
    }
}

fn state(session: &EnvoixSession, id: &str) -> Option<FfiTransferActivityState> {
    session.get_transfer_activity(id).map(|record| record.state)
}

#[test]
fn transfers_wait_for_their_turn() {
    let mut session = serial();
    let mut ids = ids();
    let started = start(&mut session, &mut ids, "a", 1);
    assert_eq!(started.len(), 1);
    assert_eq!(started[0].activity.attempt_id, "attempt-1");
    assert_eq!(started[0].observer, 7);
    assert!(start(&mut session, &mut ids, "b", 2).is_empty());
    assert_eq!(state(&session, "b"), Some(FfiTransferActivityState::Queued));
    let (notice, next) = session.finish_transfer_activity("a", None, &mut ids, 3);
    assert!(notice.is_none());
    assert_eq!(next.len(), 1);
    assert_eq!(next[0].activity.activity_id, "b");
    assert_eq!(next[0].activity.attempt_id, "attempt-2");
    assert!(session.get_transfer_activity("a").is_none());
}

#[test]
fn names_are_given_once() {
    let mut session = serial();
    let mut ids = ids();
    start(&mut session, &mut ids, "a", 1);
    assert_eq!(
        reason(session.start_transfer(request("a"), 1, &facts(2), &mut ids).err().unwrap()),
        "activity_id already exists: a"
    );
    let unnamed = session.start_transfer(request(" "), 1, &facts(2), &mut ids).ok().unwrap();
    assert_eq!(ids.next_activity, 2);
    assert!(session.get_transfer_activity("ffi-1").is_some());
    assert!(matches!(
        &unnamed.calls[0].call,
        TransferCallback::Activity { record } if record.activity_id == "ffi-1"
    ));
}

#[test]
fn refused_requests_change_nothing() {
    let mut session = serial();
    let mut ids = ids();
    let mut bad = request("a");
    bad.file_path = String::new();
    assert_eq!(
        reason(session.start_transfer(bad, 1, &facts(1), &mut ids).err().unwrap()),
        "file_path must not be empty"
    );
    assert!(session.list_transfer_activities().is_empty());
}

#[test]
fn cards_are_listed_by_their_last_change() {
    let mut session = serial();
    let mut ids = ids();
    start(&mut session, &mut ids, "a", 1);
    start(&mut session, &mut ids, "b", 5);
    start(&mut session, &mut ids, "c", 3);
    let listed: Vec<String> =
        session.list_transfer_activities().into_iter().map(|record| record.activity_id).collect();
    assert_eq!(listed, vec!["b".to_string(), "c".to_string(), "a".to_string()]);
}

#[test]
fn waiting_cards_are_paused_and_resumed() {
    let mut session = serial();
    let mut ids = ids();
    start(&mut session, &mut ids, "a", 1);
    start(&mut session, &mut ids, "b", 2);
    let paused = session.pause_activity(" b ", 3);
    assert!(paused.accepted);
    assert_eq!(paused.signal, None);
    assert!(matches!(
        &paused.calls.last().unwrap().call,
        TransferCallback::Status { message } if message == "paused"
    ));
    assert_eq!(state(&session, "b"), Some(FfiTransferActivityState::Paused));
    let (resumed, started) = session.resume_activity("b", &mut ids, 4);
    assert!(resumed.accepted);
    assert!(started.is_empty());
    assert_eq!(state(&session, "b"), Some(FfiTransferActivityState::Queued));
    assert!(!session.resume_activity("b", &mut ids, 5).0.accepted);
    assert!(!session.pause_activity("", 5).accepted);
}

#[test]
fn running_cards_rest_after_their_task_ended() {
    let mut session = serial();
    let mut ids = ids();
    let job = start(&mut session, &mut ids, "a", 1).remove(0);
    let paused = session.pause_activity("a", 2);
    assert_eq!(paused.signal, Some(TransferStop::Pause));
    // the stop signal is sent once
    assert!(!session.pause_activity("a", 3).accepted);
    let mut card = job.activity;
    card.apply_paused(4);
    session.settle_activity(&card, AttemptVerdict::PausedLocally);
    let held = QueuedTransfer { request: job.request, observer: job.observer, activity: card };
    let (notice, _) = session.finish_transfer_activity("a", Some(held), &mut ids, 5);
    assert_eq!(notice.unwrap().status, "paused");
    assert_eq!(state(&session, "a"), Some(FfiTransferActivityState::Paused));
    let (resumed, started) = session.resume_activity("a", &mut ids, 6);
    assert!(resumed.accepted);
    assert_eq!(started.len(), 1);
    assert_eq!(started[0].activity.attempt_id, "attempt-2");
}

#[test]
fn peer_pauses_resume_by_themselves_unless_the_user_cancels() {
    let mut session = serial();
    let mut ids = ids();
    let job = start(&mut session, &mut ids, "a", 1).remove(0);
    let mut card = job.activity;
    card.apply_peer_paused(2);
    session.settle_activity(&card, AttemptVerdict::PausedByPeer);
    let held = QueuedTransfer { request: job.request, observer: job.observer, activity: card };
    let (notice, mut started) = session.finish_transfer_activity("a", Some(held), &mut ids, 3);
    assert_eq!(notice.unwrap().status, "resuming");
    assert_eq!(started.len(), 1);

    let job = started.remove(0);
    let mut card = job.activity;
    card.apply_peer_paused(4);
    session.settle_activity(&card, AttemptVerdict::PausedByPeer);
    assert!(session.cancel_activity("a", 5).accepted);
    let held = QueuedTransfer { request: job.request, observer: job.observer, activity: card };
    let (notice, started) = session.finish_transfer_activity("a", Some(held), &mut ids, 6);
    let notice = notice.unwrap();
    assert_eq!(notice.status, "canceled");
    assert!(notice.cleanup_request.is_some());
    assert!(started.is_empty());
    assert_eq!(state(&session, "a"), Some(FfiTransferActivityState::Canceled));
}

#[test]
fn ended_cards_are_remembered() {
    let mut session = serial();
    let mut ids = ids();
    let job = start(&mut session, &mut ids, "a", 1).remove(0);
    let mut card = job.activity;
    card.file_name = "late.jpg".into();
    session.store_active_activity(&card);
    assert_eq!(session.get_transfer_activity("a").unwrap().file_name, "late.jpg");
    card.state = FfiTransferActivityState::Failed;
    session.settle_activity(&card, AttemptVerdict::TryNext);
    assert_eq!(state(&session, "a"), Some(FfiTransferActivityState::Queued));
    session.settle_activity(&card, AttemptVerdict::Ended { canceled: false });
    session.finish_transfer_activity("a", None, &mut ids, 2);
    assert_eq!(state(&session, "a"), Some(FfiTransferActivityState::Failed));
    let (removed, cleanup) = session.clear_transfer_history();
    assert_eq!(removed, 1);
    assert_eq!(cleanup.len(), 1);
    assert!(session.list_transfer_activities().is_empty());
}

#[test]
fn waiting_cards_are_canceled_into_the_history() {
    let mut session = serial();
    let mut ids = ids();
    start(&mut session, &mut ids, "a", 1);
    start(&mut session, &mut ids, "b", 2);
    let canceled = session.cancel_activity("b", 3);
    assert!(canceled.accepted);
    assert!(canceled.calls.iter().any(|call| matches!(
        &call.call,
        TransferCallback::Status { message } if message == "canceled before start"
    )));
    assert_eq!(state(&session, "b"), Some(FfiTransferActivityState::Canceled));
    let running = session.cancel_activity("a", 4);
    assert_eq!(running.signal, Some(TransferStop::Cancel));
    assert!(!session.cancel_activity("nobody", 5).accepted);
}

#[test]
fn discarded_cards_stay_hidden() {
    let mut session = serial();
    let mut ids = ids();
    let job = start(&mut session, &mut ids, "a", 1).remove(0);
    start(&mut session, &mut ids, "b", 2);
    let hidden = session.discard_transfer_activity("a", 3);
    assert!(hidden.accepted);
    assert_eq!(hidden.signal, Some(TransferStop::Cancel));
    assert!(session.get_transfer_activity("a").is_none());
    let mut card = job.activity;
    card.state = FfiTransferActivityState::Canceled;
    session.settle_activity(&card, AttemptVerdict::Ended { canceled: true });
    session.finish_transfer_activity("a", None, &mut ids, 4);
    assert!(session.get_transfer_activity("a").is_none());
    assert!(session.get_transfer_activity("b").is_some());
    assert!(!session.discard_transfer_activity("nobody", 5).accepted);
}

#[test]
fn everything_can_be_canceled() {
    let mut session = serial();
    let mut ids = ids();
    start(&mut session, &mut ids, "a", 1);
    start(&mut session, &mut ids, "b", 2);
    start(&mut session, &mut ids, "c", 3);
    session.pause_activity("c", 4);
    let outcome = session.cancel(5);
    assert_eq!(outcome.signals, vec!["a".to_string()]);
    assert_eq!(state(&session, "b"), Some(FfiTransferActivityState::Canceled));
    assert_eq!(state(&session, "c"), Some(FfiTransferActivityState::Canceled));
}

#[test]
fn the_history_is_bounded() {
    let mut session = serial();
    let mut ids = ids();
    start(&mut session, &mut ids, "running", 1);
    for index in 0..TRANSFER_ACTIVITY_HISTORY_CAP + 5 {
        let id = format!("card-{index}");
        start(&mut session, &mut ids, &id, 2);
        session.cancel_activity(&id, 3);
    }
    assert_eq!(session.list_transfer_activities().len(), TRANSFER_ACTIVITY_HISTORY_CAP + 1);
    assert!(session.get_transfer_activity("card-0").is_none());
    assert!(session.get_transfer_activity("card-54").is_some());
}

#[test]
fn cards_can_be_made_without_a_queue() {
    let mut next: u64 = 3;
    let record = make_transfer_activity_record(request(""), &mut next, 9);
    assert_eq!(record.activity_id, "ffi-3");
    assert_eq!(next, 4);
    assert_eq!(receive_request("i".into(), "/out".into()).mode, FfiTransferMode::ShowInvite);
    assert_eq!(
        send_invite_request("i".into(), "inv".into(), "/f".into()).mode,
        FfiTransferMode::Invite
    );
    assert_eq!(receive_room_request("i".into(), "/out".into(), "c".into()).code, "c");
}

#[test]
fn foreign_links_are_refused() {
    assert_eq!(pairing_input(" 123456 ").ok().unwrap(), "123456");
    assert_eq!(pairing_input("ENVOIX://PAIR/x").ok().unwrap(), "ENVOIX://PAIR/x");
    assert_eq!(
        reason(pairing_input("envoix://room/x").err().unwrap()),
        "unsupported Envoix pairing invite scheme"
    );
    let invite = Invite {
        code: "c".into(),
        payload: "p".into(),
        broker: None,
        relay: Some("r".into()),
        role: Some(Role::Send),
    };
    let parsed = parse_pairing_invite("c", &Ok(invite)).ok().unwrap();
    assert_eq!(parsed.broker, "");
    assert_eq!(parsed.relay, "r");
    assert_eq!(parsed.role, FfiInviteRole::Send);
    assert_eq!(reason(parse_pairing_invite("c", &Err("no".into())).err().unwrap()), "no");
}

#[test]
fn partial_files_of_canceled_receives_are_cleaned_up() {
    let request = receive_room_request("i".into(), " /out ".into(), "c".into());
    let mut next: u64 = 1;
    let mut record = make_transfer_activity_record(
        receive_room_request("i".into(), "/out".into(), "c".into()),
        &mut next,
        1,
    );
    assert!(cleanup_canceled_receive(&request, &record).is_none());
    record.transfer_id = "t".into();
    record.file_name = "f".into();
    let partial = cleanup_canceled_receive(&request, &record).unwrap();
    assert_eq!(partial.output_dir, "/out");
    assert_eq!(partial.file_name, "f");
}

#[test]
fn card_capabilities_are_listed() {
    let info = envoix_core_info("0.2.0");
    assert_eq!(info.ffi_api_version, 3);
    assert_eq!(info.capabilities.len(), 8);
    assert!(info.capabilities.contains(&"native_publication_v1".to_string()));
}

#[test]
fn cards_of_one_time_keep_the_order_of_the_queue() {
    let mut session = serial();
    let mut ids = ids();
    for id in ["a", "b", "c", "d"] {
        start(&mut session, &mut ids, id, 5);
    }
    let shown = |session: &EnvoixSession| -> Vec<String> {
        session.list_transfer_activities().into_iter().map(|record| record.activity_id).collect()
    };
    // the running card, then the waiting ones in their turn
    assert_eq!(shown(&session), ["a", "b", "c", "d"]);
    assert!(session.cancel_activity("c", 5).accepted);
    // ended cards come first
    assert_eq!(shown(&session), ["c", "a", "b", "d"]);
    let fresh = EnvoixSession::new();
    assert!(shown(&fresh).is_empty());
}
