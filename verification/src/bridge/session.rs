//! A session: the transfer queue together with its settings, and the entry
//! points through which native clients start, pause and discard transfers.
use vstd::prelude::*;
use vstd::string::*;

use crate::bridge::activity::is_request_file_name;
use crate::bridge::driver::AttemptVerdict;
use crate::bridge::events::{CallbackView, TransferCallback};
use crate::bridge::models::{
    ActivityView, EnvoixError, EnvoixRuntimeSettings, FfiCoreInfo, FfiPairingInvite,
    FfiTransferActivityRecord, FfiTransferDirection, FfiTransferLimits, FfiTransferMode,
    FfiTransferRequest, PairingInviteView, RequestView, SettingsView,
};
use crate::bridge::engine::Role;
use crate::bridge::projection::{ffi_invite_role, ffi_role_of};
use crate::bridge::queue::{
    call_views, card_views, cleanup_views, has_card, job_views, lists_resting, CancelAllOutcome,
    CleanupJob, FinishedActivityNotice, JobView, ObserverCall, ObserverCallView, QueueOutcome, QueueView,
    QueuedTransfer, TransferQueueState,
};
use crate::bridge::queue_laws::lines_are_served_in_order;
use crate::bridge::routes::{
    activity_id_text, next_activity_id, normalize_transfer_limits, op_error, parallel_limit,
    request_problem, validate_transfer_request, LookupsView, SourceLookups,
};
use crate::bridge::snapshot::{or_empty, text_or_empty};
use crate::text::{
    ascii_lowercase, ascii_lowercase_text, has_prefix, is_blank, text_option, text_seq, trimmed, trimmed_text,
};

verus! {

broadcast use vstd::seq_lib::group_seq_properties;

/// Version of the additive native API contract of the durable cards.
pub const ENVOIX_FFI_API_VERSION: u32 = 3;

/// Numbers of the next activity and the next attempt of the process.
#[derive(Clone, Copy, Debug, PartialEq, Eq, Structural)]
pub struct IdCounters {
    pub next_activity: u64,
    pub next_attempt: u64,
}

/// What has to be known of a request before it can be queued.
#[derive(Debug, PartialEq, Eq)]
pub struct StartFacts {
    /// Why the client of the request cannot be built, if it cannot.
    pub client_error: Option<String>,
    /// How the peer descriptor and the invite of the request decode.
    pub lookups: SourceLookups,
    pub now_ms: u64,
}

/// What a [`StartFacts`] holds.
#[verifier::ext_equal]
pub struct FactsView {
    pub client_error: Option<Seq<char>>,
    pub lookups: LookupsView,
    pub now_ms: u64,
}

impl View for StartFacts {
    type V = FactsView;

    open spec fn view(&self) -> FactsView {
        FactsView {
            client_error: text_option(self.client_error),
            lookups: self.lookups@,
            now_ms: self.now_ms,
        }
    }
}

impl Clone for StartFacts {
    fn clone(&self) -> (r: Self)
        ensures
            r@ == self@,
    {
        let r = StartFacts {
            client_error: self.client_error.clone(),
            lookups: self.lookups.clone(),
            now_ms: self.now_ms,
        };
        r
    }
}

/// The request as it is queued: with an id of its own and effective limits.
pub open spec fn prepared_request(request: RequestView, settings: SettingsView, next_activity: u64) -> RequestView {
    RequestView {
        activity_id: if is_blank(request.activity_id) {
            activity_id_text(next_activity)
        } else {
            request.activity_id
        },
        limits: FfiTransferLimits {
            max_parallel_transfers: parallel_limit(settings.concurrent_transfers, request.limits),
            ..request.limits
        },
        ..request
    }
}

/// Gives a request an id of its own and effective limits.
pub fn prepare_request(
    request: FfiTransferRequest,
    settings: &EnvoixRuntimeSettings,
    next_activity: &mut u64,
) -> (r: FfiTransferRequest)
    ensures
        r@ == prepared_request(request@, settings@, *old(next_activity)),
        *final(next_activity) == (if is_blank(request@.activity_id) {
            old(next_activity).wrapping_add(1)
        } else {
            *old(next_activity)
        }),
{
    let mut request = request;
    if request.activity_id.as_str().trim().is_empty() {
        request.activity_id = next_activity_id(next_activity);
    }
    let mut limits = request.limits;
    normalize_transfer_limits(settings, &mut limits);
    request.limits = limits;
    request
}

/// Creates the initial card of a request.
pub fn make_transfer_activity_record(
    request: FfiTransferRequest,
    next_activity: &mut u64,
    now_ms: u64,
) -> (r: FfiTransferActivityRecord)
    ensures
        ({
            let named = RequestView {
                activity_id: if is_blank(request@.activity_id) {
                    activity_id_text(*old(next_activity))
                } else {
                    request@.activity_id
                },
                ..request@
            };
            &&& r@ == ActivityView::queued(named, r@.file_name, now_ms)
            &&& is_request_file_name(named, r@.file_name)
        }),
        *final(next_activity) == (if is_blank(request@.activity_id) {
            old(next_activity).wrapping_add(1)
        } else {
            *old(next_activity)
        }),
{
    let mut request = request;
    if request.activity_id.as_str().trim().is_empty() {
        request.activity_id = next_activity_id(next_activity);
    }
    FfiTransferActivityRecord::from_request(&request, now_ms)
}

/// What starting a transfer leaves to do: the observer calls, and the jobs
/// whose tasks are to be spawned.
pub struct StartOutcome {
    pub calls: Vec<ObserverCall>,
    pub started: Vec<QueuedTransfer>,
}

/// A send/receive session.
pub struct EnvoixSession {
    queue: TransferQueueState,
    settings: EnvoixRuntimeSettings,
}

impl EnvoixSession {
    /// The transfer queue.
    pub closed spec fn queue_view(self) -> QueueView {
        self.queue@
    }

    /// The settings.
    pub closed spec fn settings_view(self) -> SettingsView {
        self.settings@
    }

    /// The jobs that rest, in the order in which they are kept.
    pub closed spec fn resting_jobs(self) -> Seq<JobView> {
        self.queue.resting_jobs()
    }

    /// What every operation keeps.
    pub open spec fn wf(self) -> bool {
        self.queue_view().wf()
    }

    /// A session with default settings.
    pub fn new() -> (r: Self)
        ensures
            r.wf(),
            r.queue_view() == QueueView::idle(),
            r.settings_view() == (SettingsView {
                concurrent_transfers: true,
                language: "en"@,
                server_url: Seq::empty(),
                relay_url: Seq::empty(),
                config_path: Seq::empty(),
                speed_limit_mbps: 40,
            }),
    {
        EnvoixSession::new_with_settings(EnvoixRuntimeSettings::default())
    }

    /// A session with explicit settings.
    pub fn new_with_settings(settings: EnvoixRuntimeSettings) -> (r: Self)
        ensures
            r.wf(),
            r.queue_view() == QueueView::idle(),
            r.settings_view() == settings@,
    {
        EnvoixSession { queue: TransferQueueState::new(), settings }
    }

    /// Every visible card, the latest changed first.
    pub fn list_transfer_activities(&self) -> (r: Vec<FfiTransferActivityRecord>)
        requires
            self.wf(),
        ensures
            self.queue_view().is_listed_as(card_views(r@)),
    {
        self.queue.activities()
    }

    /// One visible card.
    pub fn get_transfer_activity(&self, activity_id: &str) -> (r: Option<FfiTransferActivityRecord>)
        ensures
            (match r {
                Some(card) => Some(card@),
                None => None,
            }) == (if is_blank(activity_id@) {
                None
            } else {
                self.queue_view().shown_card(trimmed(activity_id@))
            }),
    {
        let id = activity_id.trim();
        if id.is_empty() {
            return None;
        }
        self.queue.activity(id)
    }

    /// Removes a card from the queue and the history for good.
    pub fn discard_transfer_activity(&mut self, activity_id: &str, now_ms: u64) -> (r: QueueOutcome)
        requires
            old(self).wf(),
        ensures
            final(self).wf(),
            final(self).settings_view() == old(self).settings_view(),
            (final(self).queue_view(), r@) == old(self).queue_view().discarding(
                trimmed(activity_id@),
                now_ms,
            ),
    {
        self.queue.discard_transfer_activity(activity_id, now_ms)
    }

    /// Forgets ended cards and keeps waiting, running and resting ones.
    pub fn clear_transfer_history(&mut self) -> (r: (u32, Vec<CleanupJob>))
        requires
            old(self).wf(),
        ensures
            final(self).wf(),
            final(self).settings_view() == old(self).settings_view(),
            r.0 == old(self).queue_view().history.len(),
            final(self).queue_view() == (QueueView {
                history: Seq::empty(),
                requests: old(self).queue_view().requests.remove_keys(
                    Set::new(|id: Seq<char>| has_card(old(self).queue_view().history, id)),
                ),
                ..old(self).queue_view()
            }),
            cleanup_views(r.1@) == crate::bridge::queue::cleanups_of(
                old(self).queue_view().history,
                old(self).queue_view().requests,
            ),
    {
        self.queue.clear_transfer_history()
    }

    /// Cancels one card.
    pub fn cancel_activity(&mut self, activity_id: &str, now_ms: u64) -> (r: QueueOutcome)
        requires
            old(self).wf(),
        ensures
            final(self).wf(),
            final(self).settings_view() == old(self).settings_view(),
            (final(self).queue_view(), r@) == old(self).queue_view().canceling(
                trimmed(activity_id@),
                now_ms,
            ),
    {
        self.queue.cancel_activity(activity_id, now_ms)
    }

    /// Pauses one card.
    pub fn pause_activity(&mut self, activity_id: &str, now_ms: u64) -> (r: QueueOutcome)
        requires
            old(self).wf(),
        ensures
            final(self).wf(),
            final(self).settings_view() == old(self).settings_view(),
            (final(self).queue_view(), r@) == old(self).queue_view().pausing(
                trimmed(activity_id@),
                now_ms,
            ),
    {
        self.queue.pause_activity(activity_id, now_ms)
    }

    /// Resumes one card and starts whatever may start then.
    pub fn resume_activity(&mut self, activity_id: &str, ids: &mut IdCounters, now_ms: u64) -> (r: (
        QueueOutcome,
        Vec<QueuedTransfer>,
    ))
        requires
            old(self).wf(),
        ensures
            final(self).wf(),
            final(self).settings_view() == old(self).settings_view(),
            ({
                let resumed = old(self).queue_view().resuming(trimmed(activity_id@), now_ms);
                let drained = resumed.0.draining(
                    old(self).settings_view().concurrent_transfers,
                    old(ids).next_attempt,
                    now_ms,
                );
                &&& r.0@ == resumed.1
                &&& resumed.1.calls.len() > 0 ==> final(self).queue_view() == drained.0
                    && job_views(r.1@) == drained.1 && *final(ids) == (IdCounters {
                    next_attempt: drained.2,
                    ..*old(ids)
                })
                &&& resumed.1.calls.len() == 0 ==> final(self).queue_view() == resumed.0
                    && r.1@.len() == 0 && *final(ids) == *old(ids)
            }),
    {
        let outcome = self.queue.resume_activity(activity_id, now_ms);
        assert(outcome@.calls.len() == outcome.calls@.len());
        if outcome.calls.len() == 0 {
            return (outcome, Vec::new());
        }
        let mut next: u64 = ids.next_attempt;
        let started = self.queue.drain_transfer_queue(&self.settings, &mut next, now_ms);
        ids.next_attempt = next;
        (outcome, started)
    }

    /// Keeps the latest form of a running card.
    pub fn store_active_activity(&mut self, activity: &FfiTransferActivityRecord)
        requires
            old(self).wf(),
        ensures
            final(self).wf(),
            final(self).settings_view() == old(self).settings_view(),
            final(self).queue_view() == old(self).queue_view().storing(activity@),
    {
        self.queue.store_active_activity(activity);
    }

    /// Takes in how an attempt on a card was settled.
    pub fn settle_activity(&mut self, activity: &FfiTransferActivityRecord, verdict: AttemptVerdict)
        requires
            old(self).wf(),
        ensures
            final(self).wf(),
            final(self).settings_view() == old(self).settings_view(),
            final(self).queue_view() == old(self).queue_view().settling(activity@, verdict),
    {
        self.queue.settle_activity(activity, verdict);
    }

    /// Ends the task of a running card and starts whatever may start then.
    /// `paused_job` is what the task leaves behind where the transfer is to go
    /// on later.
    pub fn finish_transfer_activity(
        &mut self,
        activity_id: &str,
        paused_job: Option<QueuedTransfer>,
        ids: &mut IdCounters,
        now_ms: u64,
    ) -> (r: (Option<FinishedActivityNotice>, Vec<QueuedTransfer>))
        requires
            old(self).wf(),
            paused_job matches Some(job) ==> job@.activity.activity_id == activity_id@ && old(
                self,
            ).queue_view().active.contains_key(activity_id@),
        ensures
            final(self).wf(),
            final(self).settings_view() == old(self).settings_view(),
            ({
                let finished = old(self).queue_view().finishing(
                    activity_id@,
                    match paused_job {
                        Some(job) => Some(job@),
                        None => None,
                    },
                    now_ms,
                );
                let drained = finished.0.draining(
                    old(self).settings_view().concurrent_transfers,
                    old(ids).next_attempt,
                    now_ms,
                );
                &&& (match r.0 {
                    Some(notice) => Some(notice@),
                    None => None,
                }) == finished.1
                &&& final(self).queue_view() == drained.0
                &&& job_views(r.1@) == drained.1
                &&& *final(ids) == (IdCounters { next_attempt: drained.2, ..*old(ids) })
            }),
    {
        let notice = self.queue.finish_transfer_activity(activity_id, paused_job, now_ms);
        let mut next: u64 = ids.next_attempt;
        let started = self.queue.drain_transfer_queue(&self.settings, &mut next, now_ms);
        ids.next_attempt = next;
        (notice, started)
    }

    /// Cancels everything.
    pub fn cancel(&mut self, now_ms: u64) -> (r: CancelAllOutcome)
        requires
            old(self).wf(),
        ensures
            final(self).wf(),
            final(self).settings_view() == old(self).settings_view(),
            final(self).queue_view() == old(self).queue_view().halted().remembering_canceled(
                old(self).queue_view().pending + old(self).resting_jobs(),
                now_ms,
            ),
            r@.calls == crate::bridge::queue::all_cancel_calls(
                old(self).queue_view().pending + old(self).resting_jobs(),
                now_ms,
            ),
            lists_resting(old(self).queue_view().paused, old(self).resting_jobs()),
            r@.signals.no_duplicates(),
            forall|id: Seq<char>| #[trigger]
                r@.signals.contains(id) <==> old(self).queue_view().can_stop(id),
    {
        self.queue.cancel(now_ms)
    }

    /// What is left of a request that is queued: the session after it, the
    /// calls to make and the jobs to spawn, for the name that its card shows.
    pub open spec fn queued_with(
        self,
        request: RequestView,
        observer: u64,
        next_attempt: u64,
        file_name: Seq<char>,
        now_ms: u64,
    ) -> (QueueView, Seq<JobView>, u64) {
        let card = ActivityView::queued(request, file_name, now_ms);
        self.queue_view().submitting(JobView { request, observer, activity: card }).draining(
            self.settings_view().concurrent_transfers,
            next_attempt,
            now_ms,
        )
    }

    /// Starts a transfer from one request: it is checked, queued, and started
    /// together with whatever else may start.
    pub fn start_transfer(
        &mut self,
        request: FfiTransferRequest,
        observer: u64,
        facts: &StartFacts,
        ids: &mut IdCounters,
    ) -> (r: Result<StartOutcome, EnvoixError>)
        requires
            old(self).wf(),
        ensures
            final(self).wf(),
            final(self).settings_view() == old(self).settings_view(),
            final(ids).next_activity == (if is_blank(request@.activity_id) {
                old(ids).next_activity.wrapping_add(1)
            } else {
                old(ids).next_activity
            }),
            ({
                let prepared = prepared_request(
                    request@,
                    old(self).settings_view(),
                    old(ids).next_activity,
                );
                let problem = request_problem(
                    old(self).settings_view(),
                    prepared,
                    facts@.client_error,
                    facts@.lookups,
                );
                match r {
                    Ok(outcome) => {
                        &&& problem is None
                        &&& !old(self).queue_view().knows(prepared.activity_id)
                        &&& exists|file_name: Seq<char>|
                            #![trigger is_request_file_name(prepared, file_name)]
                            is_request_file_name(prepared, file_name) && (
                                final(self).queue_view(),
                                job_views(outcome.started@),
                                final(ids).next_attempt,
                            ) == old(self).queued_with(
                                prepared,
                                observer,
                                old(ids).next_attempt,
                                file_name,
                                facts@.now_ms,
                            ) && call_views(outcome.calls@) == seq![
                                ObserverCallView {
                                    observer,
                                    call: CallbackView::Activity {
                                        record: ActivityView::queued(
                                            prepared,
                                            file_name,
                                            facts@.now_ms,
                                        ),
                                    },
                                },
                            ]
                    },
                    Err(error) => {
                        &&& final(self).queue_view() == old(self).queue_view()
                        &&& final(ids).next_attempt == old(ids).next_attempt
                        &&& match problem {
                            Some(reason) => error.reason_view() == reason,
                            None => {
                                &&& old(self).queue_view().knows(prepared.activity_id)
                                &&& error.reason_view() == "activity_id already exists: "@
                                    + prepared.activity_id
                            },
                        }
                    },
                }
            }),
    {
        let mut next_activity: u64 = ids.next_activity;
        let request = prepare_request(request, &self.settings, &mut next_activity);
        ids.next_activity = next_activity;
        if let Err(error) = validate_transfer_request(
            &self.settings,
            &request,
            &facts.client_error,
            &facts.lookups,
        ) {
            return Err(error);
        }
        let activity = FfiTransferActivityRecord::from_request(&request, facts.now_ms);
        let ghost name = activity@.file_name;
        let ghost prepared = request@;
        assert(is_request_file_name(prepared, name));
        if let Err(error) = self.queue.submit(request, observer, activity.clone()) {
            return Err(error);
        }
        let mut calls: Vec<ObserverCall> = Vec::new();
        let ghost card = activity@;
        calls.push(
            ObserverCall { observer, call: TransferCallback::Activity { record: activity } },
        );
        assert(call_views(calls@) =~= seq![
            ObserverCallView { observer, call: CallbackView::Activity { record: card } },
        ]);
        let mut next_attempt: u64 = ids.next_attempt;
        let started = self.queue.drain_transfer_queue(
            &self.settings,
            &mut next_attempt,
            facts.now_ms,
        );
        ids.next_attempt = next_attempt;
        Ok(StartOutcome { calls, started })
    }
}

/// A request to receive one file, paired by showing an invite.
pub fn receive_request(activity_id: String, output_dir: String) -> (r: FfiTransferRequest)
    ensures
        r@ == (RequestView {
            output_dir: output_dir@,
            ..crate::bridge::routes::plain_request(
                activity_id@,
                FfiTransferDirection::Receive,
                FfiTransferMode::ShowInvite,
            )
        }),
{
    FfiTransferRequest::receive(activity_id, output_dir, FfiTransferMode::ShowInvite)
}

/// A request to send one file to the peer behind an invite.
pub fn send_invite_request(activity_id: String, invite: String, file_path: String) -> (r:
    FfiTransferRequest)
    ensures
        r@ == (RequestView {
            file_path: file_path@,
            invite: invite@,
            ..crate::bridge::routes::plain_request(
                activity_id@,
                FfiTransferDirection::Send,
                FfiTransferMode::Invite,
            )
        }),
{
    let mut request = FfiTransferRequest::send(activity_id, file_path, FfiTransferMode::Invite);
    request.invite = invite;
    request
}

/// A request to receive one file on the local network with a shared token.
pub fn receive_mdns_request(activity_id: String, output_dir: String, token: String) -> (r:
    FfiTransferRequest)
    ensures
        r@ == (RequestView {
            output_dir: output_dir@,
            token: token@,
            ..crate::bridge::routes::plain_request(
                activity_id@,
                FfiTransferDirection::Receive,
                FfiTransferMode::Mdns,
            )
        }),
{
    let mut request = FfiTransferRequest::receive(activity_id, output_dir, FfiTransferMode::Mdns);
    request.token = token;
    request
}

/// A request to send one file on the local network with a shared token.
pub fn send_mdns_request(activity_id: String, file_path: String, token: String) -> (r:
    FfiTransferRequest)
    ensures
        r@ == (RequestView {
            file_path: file_path@,
            token: token@,
            ..crate::bridge::routes::plain_request(
                activity_id@,
                FfiTransferDirection::Send,
                FfiTransferMode::Mdns,
            )
        }),
{
    let mut request = FfiTransferRequest::send(activity_id, file_path, FfiTransferMode::Mdns);
    request.token = token;
    request
}

/// A request to receive one file through a rendezvous room.
pub fn receive_room_request(activity_id: String, output_dir: String, code: String) -> (r:
    FfiTransferRequest)
    ensures
        r@ == (RequestView {
            output_dir: output_dir@,
            code: code@,
            ..crate::bridge::routes::plain_request(
                activity_id@,
                FfiTransferDirection::Receive,
                FfiTransferMode::Room,
            )
        }),
{
    let mut request = FfiTransferRequest::receive(activity_id, output_dir, FfiTransferMode::Room);
    request.code = code;
    request
}

/// A request to send one file through a rendezvous room.
pub fn send_room_request(activity_id: String, file_path: String, code: String) -> (r:
    FfiTransferRequest)
    ensures
        r@ == (RequestView {
            file_path: file_path@,
            code: code@,
            ..crate::bridge::routes::plain_request(
                activity_id@,
                FfiTransferDirection::Send,
                FfiTransferMode::Room,
            )
        }),
{
    let mut request = FfiTransferRequest::send(activity_id, file_path, FfiTransferMode::Room);
    request.code = code;
    request
}

/// A room invite as the engine makes or parses it.
#[derive(Debug, PartialEq, Eq)]
pub struct Invite {
    pub code: String,
    pub payload: String,
    pub broker: Option<String>,
    pub relay: Option<String>,
    pub role: Option<Role>,
}

/// What a [`Invite`] holds.
#[verifier::ext_equal]
pub struct InviteView {
    pub code: Seq<char>,
    pub payload: Seq<char>,
    pub broker: Option<Seq<char>>,
    pub relay: Option<Seq<char>>,
    pub role: Option<Role>,
}

impl View for Invite {
    type V = InviteView;

    open spec fn view(&self) -> InviteView {
        InviteView {
            code: self.code@,
            payload: self.payload@,
            broker: text_option(self.broker),
            relay: text_option(self.relay),
            role: self.role,
        }
    }
}

impl Clone for Invite {
    fn clone(&self) -> (r: Self)
        ensures
            r == *self,
    {
        Invite {
            code: self.code.clone(),
            payload: self.payload.clone(),
            broker: self.broker.clone(),
            relay: self.relay.clone(),
            role: self.role,
        }
    }
}

impl FfiPairingInvite {
    /// Projects a room invite.
    pub fn from_invite(invite: &Invite) -> (r: Self)
        ensures
            r@ == (PairingInviteView {
                code: invite@.code,
                payload: invite@.payload,
                broker: or_empty(invite@.broker),
                relay: or_empty(invite@.relay),
                role: ffi_role_of(invite@.role),
            }),
    {
        FfiPairingInvite {
            code: invite.code.clone(),
            payload: invite.payload.clone(),
            broker: text_or_empty(&invite.broker),
            relay: text_or_empty(&invite.relay),
            role: ffi_invite_role(invite.role),
        }
    }
}

/// Whether an input is an Envoix link of another kind than a pairing invite.
pub open spec fn is_foreign_link(input: Seq<char>) -> bool {
    let lowered = ascii_lowercase(trimmed(input));
    "envoix:"@.is_prefix_of(lowered) && !"envoix://pair/"@.is_prefix_of(lowered)
}

/// The text in which to look for a pairing invite: a typed room code or a
/// scanned pairing link. Other Envoix links are refused.
pub fn pairing_input(input: &str) -> (r: Result<String, EnvoixError>)
    ensures
        match r {
            Ok(text) => !is_foreign_link(input@) && text@ == trimmed(input@),
            Err(error) => is_foreign_link(input@) && error.reason_view()
                == "unsupported Envoix pairing invite scheme"@,
        },
{
    let text = input.trim();
    let lowered = ascii_lowercase_text(text);
    if has_prefix(lowered.as_str(), "envoix:") && !has_prefix(lowered.as_str(), "envoix://pair/") {
        return Err(op_error("unsupported Envoix pairing invite scheme"));
    }
    Ok(text.to_owned())
}

/// Parses a pairing input, given how its text parses as a room invite.
pub fn parse_pairing_invite(input: &str, parsed: &Result<Invite, String>) -> (r: Result<
    FfiPairingInvite,
    EnvoixError,
>)
    ensures
        match r {
            Ok(invite) => !is_foreign_link(input@) && (parsed matches Ok(source) && invite@ == (
            PairingInviteView {
                code: source@.code,
                payload: source@.payload,
                broker: or_empty(source@.broker),
                relay: or_empty(source@.relay),
                role: ffi_role_of(source@.role),
            })),
            Err(error) => if is_foreign_link(input@) {
                error.reason_view() == "unsupported Envoix pairing invite scheme"@
            } else {
                parsed matches Err(reason) && error.reason_view() == reason@
            },
        },
{
    if let Err(error) = pairing_input(input) {
        return Err(error);
    }
    match parsed {
        Ok(invite) => Ok(FfiPairingInvite::from_invite(invite)),
        Err(reason) => Err(op_error(reason.as_str())),
    }
}

/// The optional capabilities of the durable cards.
pub open spec fn card_capabilities() -> Seq<Seq<char>> {
    seq![
        "activity_actions_v1"@,
        "durable_activity_sequence_v1"@,
        "native_publication_v1"@,
        "durable_publication_recovery_v1"@,
        "per_session_receipt_endpoint_v1"@,
        "manifest_activity_v1"@,
        "manifest_selection_builder_v1"@,
        "manifest_diagnostic_events_v1"@,
    ]
}

/// Reports the bridge version and its optional capabilities.
pub fn envoix_core_info(core_version: &str) -> (r: FfiCoreInfo)
    ensures
        r@.ffi_api_version == ENVOIX_FFI_API_VERSION,
        r@.core_version == core_version@,
        r@.capabilities == card_capabilities(),
{
    let mut capabilities: Vec<String> = Vec::new();
    capabilities.push("activity_actions_v1".to_owned());
    capabilities.push("durable_activity_sequence_v1".to_owned());
    capabilities.push("native_publication_v1".to_owned());
    capabilities.push("durable_publication_recovery_v1".to_owned());
    capabilities.push("per_session_receipt_endpoint_v1".to_owned());
    capabilities.push("manifest_activity_v1".to_owned());
    capabilities.push("manifest_selection_builder_v1".to_owned());
    capabilities.push("manifest_diagnostic_events_v1".to_owned());
    assert(text_seq(capabilities@) =~= card_capabilities());
    FfiCoreInfo {
        ffi_api_version: ENVOIX_FFI_API_VERSION,
        core_version: core_version.to_owned(),
        capabilities,
    }
}

/// A partial file of a canceled receive.
#[derive(Debug, PartialEq, Eq)]
pub struct CanceledPartial {
    pub output_dir: String,
    pub file_name: String,
    pub transfer_id: String,
}

/// The partial file that a canceled transfer leaves to clean up: only a
/// receive that has learned its transfer and its file has one.
pub fn cleanup_canceled_receive(
    request: &FfiTransferRequest,
    activity: &FfiTransferActivityRecord,
) -> (r: Option<CanceledPartial>)
    ensures
        match r {
            Some(partial) => {
                &&& request@.direction == FfiTransferDirection::Receive
                &&& !is_blank(activity@.transfer_id) && !is_blank(activity@.file_name)
                &&& partial.output_dir@ == trimmed(request@.output_dir)
                &&& partial.file_name@ == activity@.file_name
                &&& partial.transfer_id@ == activity@.transfer_id
            },
            None => request@.direction != FfiTransferDirection::Receive || is_blank(
                activity@.transfer_id,
            ) || is_blank(activity@.file_name),
        },
{
    if request.direction != FfiTransferDirection::Receive
        || activity.transfer_id.as_str().trim().is_empty()
        || activity.file_name.as_str().trim().is_empty() {
        return None;
    }
    Some(
        CanceledPartial {
            output_dir: trimmed_text(request.output_dir.as_str()),
            file_name: activity.file_name.clone(),
            transfer_id: activity.transfer_id.clone(),
        },
    )
}

/// A prepared request keeps everything that it names; only a missing id is given,
/// and its limit fits the session.
pub proof fn prepared_requests_keep_what_they_name(
    request: RequestView,
    settings: SettingsView,
    next_activity: u64,
)
    ensures
        ({
            let ready = prepared_request(request, settings, next_activity);
            &&& !is_blank(request.activity_id) ==> ready.activity_id == request.activity_id
            &&& is_blank(request.activity_id) ==> ready.activity_id == activity_id_text(
                next_activity,
            )
            &&& ready.direction == request.direction
            &&& ready.mode == request.mode
            &&& ready.token == request.token
            &&& ready.code == request.code
            &&& ready.invite == request.invite
            &&& ready.peer_descriptor == request.peer_descriptor
            &&& ready.file_path == request.file_path
            &&& ready.output_dir == request.output_dir
            &&& ready.broker == request.broker
            &&& ready.relay == request.relay
            &&& ready.path_policy == request.path_policy
            &&& ready.resume == request.resume
            &&& ready.rendezvous == request.rendezvous
            &&& ready.limits.max_parallel_files == request.limits.max_parallel_files
            &&& ready.limits.speed_limit_bps == request.limits.speed_limit_bps
            &&& !settings.concurrent_transfers ==> ready.limits.max_parallel_transfers == 1
            &&& settings.concurrent_transfers && request.limits.max_parallel_transfers > 0
                ==> ready.limits.max_parallel_transfers == request.limits.max_parallel_transfers
        }),
{
}

/// A transfer that is queued waits under its own request, as a card of its own, and
/// starts in its turn.
pub proof fn queued_transfers_wait_for_their_turn(
    session: EnvoixSession,
    request: RequestView,
    observer: u64,
    next_attempt: u64,
    file_name: Seq<char>,
    now_ms: u64,
)
    ensures
        ({
            let (after, started, number) = session.queued_with(
                request,
                observer,
                next_attempt,
                file_name,
                now_ms,
            );
            let line = session.queue_view().pending.push(
                JobView {
                    request,
                    observer,
                    activity: ActivityView::queued(request, file_name, now_ms),
                },
            );
            &&& started.len() + after.pending.len() == line.len()
            &&& after.pending == line.skip(started.len() as int)
            &&& forall|i: int|
                0 <= i < started.len() ==> (#[trigger] started[i]).activity.activity_id
                    == line[i].activity.activity_id && started[i].request == line[i].request
            &&& after.paused == session.queue_view().paused
            &&& after.history == session.queue_view().history
        }),
{
    let queue = session.queue_view().submitting(
        JobView {
            request,
            observer,
            activity: ActivityView::queued(request, file_name, now_ms),
        },
    );
    lines_are_served_in_order(
        queue,
        session.settings_view().concurrent_transfers,
        next_attempt,
        now_ms,
    );
}

/// A link of another kind is told from a pairing link, whatever its case and the
/// blanks around it.
pub proof fn foreign_links_are_recognised(input: Seq<char>, other: Seq<char>)
    ensures
        is_foreign_link(input) ==> !("envoix://pair/"@.is_prefix_of(
            ascii_lowercase(trimmed(input)),
        )),
        is_foreign_link(input) ==> "envoix:"@.is_prefix_of(ascii_lowercase(trimmed(input))),
        "envoix:"@.is_prefix_of(ascii_lowercase(trimmed(input))) && !("envoix://pair/"@.is_prefix_of(
            ascii_lowercase(trimmed(input)),
        )) ==> is_foreign_link(input),
        trimmed(input) == trimmed(other) ==> is_foreign_link(input) == is_foreign_link(other),
{
}

/// Every capability of cards is named, and nothing else.
pub proof fn every_card_capability_is_named()
    ensures
        card_capabilities().len() == 8,
        card_capabilities().contains("activity_actions_v1"@),
        card_capabilities().contains("durable_activity_sequence_v1"@),
        card_capabilities().contains("native_publication_v1"@),
        card_capabilities().contains("durable_publication_recovery_v1"@),
        card_capabilities().contains("per_session_receipt_endpoint_v1"@),
        card_capabilities().contains("manifest_activity_v1"@),
        card_capabilities().contains("manifest_selection_builder_v1"@),
        card_capabilities().contains("manifest_diagnostic_events_v1"@),
{
    let names = card_capabilities();
    assert(names[0] == "activity_actions_v1"@);
    assert(names[1] == "durable_activity_sequence_v1"@);
    assert(names[2] == "native_publication_v1"@);
    assert(names[3] == "durable_publication_recovery_v1"@);
    assert(names[4] == "per_session_receipt_endpoint_v1"@);
    assert(names[5] == "manifest_activity_v1"@);
    assert(names[6] == "manifest_selection_builder_v1"@);
    assert(names[7] == "manifest_diagnostic_events_v1"@);
}

} // verus!
