//! Decisions of the tasks that drive transfers: when to fall back to the next
//! route, what an attempt leaves on its card, and what durable snapshots tell
//! observers.
use vstd::prelude::*;
use vstd::string::*;

use crate::bridge::engine::{
    DataPath, DataPathView, QrInvitePayload, Session, SessionContext, SessionSnapshot, SessionView,
    TransferDirection, TransferError, TransferFailure, TransferSummary,
};
use crate::bridge::events::{
    callback_views, event_of, is_shown, last_progress_after, observe_transfer_event,
    observed_callbacks, payload_view, told_direction, event_direction, CallbackView, StampedEvent,
    TransferCallback, TransferEvent, NATIVE_PROGRESS_INTERVAL_MS,
};
use crate::bridge::labels::{
    attempt_debug_summary, attempt_line, is_source_description, mode_label, transfer_mode_label,
};
use crate::bridge::models::{
    ActivityView, EnvoixError, FfiTransferActivityRecord, FfiTransferDirection, FfiTransferMode,
    FfiTransferRequest,
};
use crate::bridge::queue::TransferStop;
use crate::bridge::reports::{
    as_canceled, failure_of, is_received_path, report_activity_setup_failure,
    report_durable_state_transition, report_terminal, setup_failure_of, transition_callbacks,
};
use crate::bridge::routes::{attempt_id_text, next_attempt_id, TransferAttemptSource};
use crate::bridge::snapshot::{apply_canonical_snapshot, is_completed_path, is_stored_state};
use crate::text::{decimal, decimal_text, joined3, same_text, text_option};

verus! {

broadcast use vstd::seq_lib::group_seq_properties;

/// How long a room send waits for its peer before it falls back, in seconds.
pub const ROOM_SEND_FALLBACK_TIMEOUT_SECS: u64 = 60;

/// Whether a failed attempt may be followed by the next route: nobody asked it
/// to stop, no bytes have moved, and there is a next route.
pub open spec fn may_fall_back(
    stop_requested: Option<TransferStop>,
    transfer_started: bool,
    has_fallback: bool,
) -> bool {
    stop_requested is None && !transfer_started && has_fallback
}

/// Whether a failed attempt may be followed by the next route.
pub fn can_fallback_after_error(
    stop_requested: Option<TransferStop>,
    transfer_started: bool,
    has_fallback: bool,
) -> (r: bool)
    ensures
        r == may_fall_back(stop_requested, transfer_started, has_fallback),
{
    stop_requested.is_none() && !transfer_started && has_fallback
}

/// How long an attempt waits for its peer before it falls back.
pub open spec fn fallback_timeout(
    direction: FfiTransferDirection,
    mode: FfiTransferMode,
    has_fallback: bool,
) -> Option<u64> {
    if has_fallback && direction == FfiTransferDirection::Send && mode == FfiTransferMode::Room {
        Some(ROOM_SEND_FALLBACK_TIMEOUT_SECS)
    } else {
        None
    }
}

/// How many seconds an attempt waits for its peer before it falls back.
pub fn fallback_timeout_for_attempt(
    request: &FfiTransferRequest,
    mode: FfiTransferMode,
    has_fallback: bool,
) -> (r: Option<u64>)
    ensures
        r == fallback_timeout(request@.direction, mode, has_fallback),
{
    if has_fallback && request.direction == FfiTransferDirection::Send && mode
        == FfiTransferMode::Room {
        Some(ROOM_SEND_FALLBACK_TIMEOUT_SECS)
    } else {
        None
    }
}

/// What becomes of a request after one of its attempts.
#[derive(Clone, Copy, Debug, PartialEq, Eq, Structural)]
pub enum AttemptVerdict {
    /// The transfer is complete.
    Finished,
    /// The local user paused it.
    PausedLocally,
    /// The peer paused it.
    PausedByPeer,
    /// The next route is tried.
    TryNext,
    /// The transfer failed, or was canceled by the local user.
    Ended { canceled: bool },
}

/// What becomes of a request after one of its attempts. Pauses come before
/// fallbacks, fallbacks before failures.
pub open spec fn verdict_of(
    succeeded: bool,
    peer_paused: bool,
    stop_requested: Option<TransferStop>,
    transfer_started: bool,
    has_fallback: bool,
) -> AttemptVerdict {
    if succeeded {
        AttemptVerdict::Finished
    } else if stop_requested == Some(TransferStop::Pause) {
        AttemptVerdict::PausedLocally
    } else if stop_requested is None && peer_paused {
        AttemptVerdict::PausedByPeer
    } else if may_fall_back(stop_requested, transfer_started, has_fallback) {
        AttemptVerdict::TryNext
    } else {
        AttemptVerdict::Ended { canceled: stop_requested == Some(TransferStop::Cancel) }
    }
}

/// How an attempt ended.
pub struct TransferAttemptOutcome {
    pub result: Result<TransferSummary, TransferError>,
    pub direction: Option<TransferDirection>,
    pub transfer_started: bool,
    pub stop_requested: Option<TransferStop>,
}

impl TransferAttemptOutcome {
    /// What becomes of the request.
    pub open spec fn verdict(self, has_fallback: bool) -> AttemptVerdict {
        verdict_of(
            self.result is Ok,
            self.result matches Err(error) && error.paused,
            self.stop_requested,
            self.transfer_started,
            has_fallback,
        )
    }
}

/// What an attempt leaves to do: what becomes of the request, and the observer
/// calls to make, in order.
pub struct AttemptStep {
    pub verdict: AttemptVerdict,
    pub calls: Vec<TransferCallback>,
}

/// The status line of a fallback.
pub open spec fn fallback_line(
    mode: FfiTransferMode,
    what: Seq<char>,
    error: Seq<char>,
    next: FfiTransferMode,
) -> Seq<char> {
    mode_label(mode) + what + error + "); trying "@ + mode_label(next)
}

fn fallback_text(mode: FfiTransferMode, what: &str, error: &str, next: FfiTransferMode) -> (r: String)
    ensures
        r@ == fallback_line(mode, what@, error@, next),
{
    joined3(transfer_mode_label(mode), what, error).concat("); trying ").concat(
        transfer_mode_label(next),
    )
}

fn one_status(message: String) -> (r: Vec<TransferCallback>)
    ensures
        callback_views(r@) == seq![CallbackView::Status { message: message@ }],
{
    let mut calls: Vec<TransferCallback> = Vec::new();
    calls.push(TransferCallback::Status { message });
    assert(callback_views(calls@) =~= seq![calls@[0]@]);
    calls
}

/// Begins attempt `index` of `count`: later ones get a fresh attempt id.
pub fn begin_attempt(
    activity: &mut FfiTransferActivityRecord,
    index: usize,
    count: usize,
    attempt: &TransferAttemptSource,
    payload: &Option<QrInvitePayload>,
    next_attempt: &mut u64,
    now_ms: u64,
) -> (r: Vec<TransferCallback>)
    requires
        index < usize::MAX,
    ensures
        index == 0 ==> final(activity)@ == old(activity)@ && *final(next_attempt) == *old(
            next_attempt,
        ),
        index > 0 ==> final(activity)@ == (ActivityView {
            attempt_id: attempt_id_text(*old(next_attempt)),
            updated_at_ms: now_ms,
            ..old(activity)@
        }) && *final(next_attempt) == old(next_attempt).wrapping_add(1),
        exists|source: Seq<char>|
            is_source_description(attempt.source, payload_view(*payload), source)
                && callback_views(r@) == (if index > 0 {
                seq![CallbackView::Activity { record: final(activity)@ }]
            } else {
                Seq::empty()
            }).push(
                CallbackView::Status {
                    message: #[trigger] attempt_line(
                        (index + 1) as nat,
                        count as nat,
                        attempt.mode,
                        attempt.path_policy_override,
                        source,
                    ),
                },
            ),
{
    let mut calls: Vec<TransferCallback> = Vec::new();
    if index > 0 {
        activity.attempt_id = next_attempt_id(next_attempt);
        activity.updated_at_ms = now_ms;
        calls.push(TransferCallback::Activity { record: activity.clone() });
    }
    let ghost head = callback_views(calls@);
    assert(index > 0 ==> head =~= seq![CallbackView::Activity { record: activity@ }]);
    assert(index == 0 ==> head =~= Seq::empty());
    let line = attempt_debug_summary(index, count, attempt, payload);
    let ghost text = line@;
    calls.push(TransferCallback::Status { message: line });
    assert(callback_views(calls@) =~= head.push(CallbackView::Status { message: text }));
    calls
}

/// What an observer is told when a fallback is armed.
pub open spec fn armed_line(seconds: u64) -> Seq<char> {
    "fallback timeout armed: "@ + decimal(seconds as nat) + "s before connection"@
}

/// What an observer is told before an attempt that has to connect in time.
pub fn announce_fallback(timeout: Option<u64>) -> (r: Option<TransferCallback>)
    ensures
        (match r {
            Some(call) => Some(call@),
            None => None,
        }) == (match timeout {
            Some(seconds) => Some(CallbackView::Status { message: armed_line(seconds) }),
            None => None,
        }),
{
    match timeout {
        Some(seconds) => Some(
            TransferCallback::Status {
                message: joined3(
                    "fallback timeout armed: ",
                    decimal_text(seconds).as_str(),
                    "s before connection",
                ),
            },
        ),
        None => None,
    }
}

/// Settles an attempt whose engine call could not be built: the next route is
/// tried where there is one, else the card fails.
pub fn settle_setup_error(
    activity: &mut FfiTransferActivityRecord,
    error: &EnvoixError,
    mode: FfiTransferMode,
    next_mode: Option<FfiTransferMode>,
    now_ms: u64,
) -> (r: AttemptStep)
    ensures
        match next_mode {
            Some(next) => {
                &&& r.verdict == AttemptVerdict::TryNext
                &&& final(activity)@ == old(activity)@
                &&& callback_views(r.calls@) == seq![
                    CallbackView::Status {
                        message: fallback_line(mode, " setup failed ("@, error.reason_view(), next),
                    },
                ]
            },
            None => {
                let failure = setup_failure_of(
                    error.reason_view(),
                    old(activity)@.direction,
                    old(activity)@.attempt_id,
                );
                &&& r.verdict == (AttemptVerdict::Ended { canceled: false })
                &&& final(activity)@ == old(activity)@.failed(failure, now_ms)
                &&& callback_views(r.calls@) == seq![
                    CallbackView::Activity { record: final(activity)@ },
                    CallbackView::TransferFailed { failure },
                    CallbackView::Failed { reason: error.reason_view() },
                ]
            },
        },
{
    match next_mode {
        Some(next) => {
            let line = fallback_text(mode, " setup failed (", error.message().as_str(), next);
            AttemptStep { verdict: AttemptVerdict::TryNext, calls: one_status(line) }
        },
        None => {
            let calls = report_activity_setup_failure(activity, error, now_ms);
            AttemptStep { verdict: AttemptVerdict::Ended { canceled: false }, calls }
        },
    }
}

/// Settles an attempt that ran, on the card and towards its observer.
pub fn settle_attempt(
    activity: &mut FfiTransferActivityRecord,
    request: &FfiTransferRequest,
    outcome: &TransferAttemptOutcome,
    mode: FfiTransferMode,
    next_mode: Option<FfiTransferMode>,
    now_ms: u64,
) -> (r: AttemptStep)
    ensures
        r.verdict == outcome.verdict(next_mode is Some),
        match r.verdict {
            AttemptVerdict::Finished => {
                let summary = outcome.result->Ok_0;
                &&& is_received_path(request@, summary@, final(activity)@.completed_file_path)
                &&& final(activity)@ == old(activity)@.completed(
                    summary@,
                    now_ms,
                    final(activity)@.completed_file_path,
                )
                &&& callback_views(r.calls@) == seq![
                    CallbackView::Activity { record: final(activity)@ },
                    CallbackView::Completed { bytes: summary@.bytes_transferred },
                ]
            },
            AttemptVerdict::PausedLocally => {
                &&& final(activity)@ == old(activity)@.paused(now_ms)
                &&& r.calls@.len() == 0
            },
            AttemptVerdict::PausedByPeer => {
                &&& final(activity)@ == old(activity)@.peer_paused(now_ms)
                &&& callback_views(r.calls@) == seq![
                    CallbackView::Activity { record: final(activity)@ },
                    CallbackView::Status { message: "peer paused; waiting for resume"@ },
                ]
            },
            AttemptVerdict::TryNext => {
                &&& final(activity)@ == old(activity)@
                &&& callback_views(r.calls@) == seq![
                    CallbackView::Status {
                        message: fallback_line(
                            mode,
                            " failed before transfer started ("@,
                            outcome.result->Err_0@.message,
                            next_mode->0,
                        ),
                    },
                ]
            },
            AttemptVerdict::Ended { canceled } => {
                let failure = failure_of(outcome.result->Err_0@.failure, old(activity)@);
                &&& final(activity)@ == (if canceled {
                    old(activity)@.canceled(now_ms)
                } else {
                    old(activity)@.failed(failure, now_ms)
                })
                &&& callback_views(r.calls@) == seq![
                    CallbackView::Activity { record: final(activity)@ },
                    CallbackView::TransferFailed {
                        failure: if canceled {
                            as_canceled(failure)
                        } else {
                            failure
                        },
                    },
                    CallbackView::Failed { reason: outcome.result->Err_0@.message },
                ]
            },
        },
{
    let error = match &outcome.result {
        Ok(_) => {
            let calls = report_terminal(activity, request, &outcome.result, false, now_ms);
            return AttemptStep { verdict: AttemptVerdict::Finished, calls };
        },
        Err(error) => error,
    };
    if outcome.stop_requested == Some(TransferStop::Pause) {
        activity.apply_paused(now_ms);
        return AttemptStep { verdict: AttemptVerdict::PausedLocally, calls: Vec::new() };
    }
    if outcome.stop_requested.is_none() && error.paused {
        activity.apply_peer_paused(now_ms);
        let mut calls: Vec<TransferCallback> = Vec::new();
        calls.push(TransferCallback::Activity { record: activity.clone() });
        calls.push(
            TransferCallback::Status { message: "peer paused; waiting for resume".to_owned() },
        );
        assert(callback_views(calls@) =~= seq![calls@[0]@, calls@[1]@]);
        return AttemptStep { verdict: AttemptVerdict::PausedByPeer, calls };
    }
    if can_fallback_after_error(
        outcome.stop_requested,
        outcome.transfer_started,
        next_mode.is_some(),
    ) {
        if let Some(next) = next_mode {
            let line = fallback_text(
                mode,
                " failed before transfer started (",
                error.message.as_str(),
                next,
            );
            return AttemptStep { verdict: AttemptVerdict::TryNext, calls: one_status(line) };
        }
    }
    let canceled = outcome.stop_requested == Some(TransferStop::Cancel);
    let calls = report_terminal(activity, request, &outcome.result, canceled, now_ms);
    AttemptStep { verdict: AttemptVerdict::Ended { canceled }, calls }
}

/// No bytes of a transfer are ever sent over a second route.
pub proof fn started_transfers_never_fall_back(
    peer_paused: bool,
    stop_requested: Option<TransferStop>,
    has_fallback: bool,
    succeeded: bool,
)
    ensures
        verdict_of(succeeded, peer_paused, stop_requested, true, has_fallback)
            != AttemptVerdict::TryNext,
{
}

/// What the user asked for always wins: a stopped attempt neither falls back
/// nor resumes by itself.
pub proof fn user_requests_win(
    peer_paused: bool,
    stop: TransferStop,
    transfer_started: bool,
    has_fallback: bool,
)
    ensures
        verdict_of(false, peer_paused, Some(stop), transfer_started, has_fallback) == (match stop {
            TransferStop::Pause => AttemptVerdict::PausedLocally,
            TransferStop::Cancel => AttemptVerdict::Ended { canceled: true },
        }),
{
}

/// State of the task that drives one attempt.
#[derive(Clone, Copy, Debug, PartialEq, Eq, Structural)]
pub struct AttemptState {
    pub direction: Option<TransferDirection>,
    pub transfer_started: bool,
    pub fallback_elapsed: bool,
    pub last_native_progress_ms: u64,
    pub stop_requested: Option<TransferStop>,
}

impl AttemptState {
    /// The state before anything happened.
    pub fn new(stop_requested: Option<TransferStop>) -> (r: Self)
        ensures
            r == (AttemptState {
                direction: None,
                transfer_started: false,
                fallback_elapsed: false,
                last_native_progress_ms: 0,
                stop_requested,
            }),
    {
        AttemptState {
            direction: None,
            transfer_started: false,
            fallback_elapsed: false,
            last_native_progress_ms: 0,
            stop_requested,
        }
    }

    /// Whether the fallback timer may end the attempt.
    pub fn heeds_fallback(&self, timer_armed: bool) -> (r: bool)
        ensures
            r == (timer_armed && !self.transfer_started && self.stop_requested is None),
    {
        timer_armed && !self.transfer_started && self.stop_requested.is_none()
    }

    /// Ends the attempt because its timer ran out.
    pub fn on_fallback(&mut self) -> (r: TransferCallback)
        ensures
            *final(self) == (AttemptState { fallback_elapsed: true, ..*old(self) }),
            r@ == (CallbackView::Status {
                message: "room send timed out before transfer started; trying fallback"@,
            }),
    {
        self.fallback_elapsed = true;
        TransferCallback::Status {
            message: "room send timed out before transfer started; trying fallback".to_owned(),
        }
    }

    /// Takes a stop request; a vanished requester counts as a cancel.
    pub fn on_stop(&mut self, stop: Option<TransferStop>) -> (r: (TransferStop, TransferCallback))
        ensures
            r.0 == (match stop {
                Some(stop) => stop,
                None => TransferStop::Cancel,
            }),
            *final(self) == (AttemptState { stop_requested: Some(r.0), ..*old(self) }),
            r.1@ == (CallbackView::Status {
                message: match r.0 {
                    TransferStop::Cancel => "cancelling"@,
                    TransferStop::Pause => "pausing"@,
                },
            }),
    {
        let stop = match stop {
            Some(stop) => stop,
            None => TransferStop::Cancel,
        };
        self.stop_requested = Some(stop);
        let message = match stop {
            TransferStop::Cancel => "cancelling",
            TransferStop::Pause => "pausing",
        };
        (stop, TransferCallback::Status { message: message.to_owned() })
    }

    /// Takes an engine event; the observer calls it leads to, where native
    /// clients see it.
    pub fn on_event(
        &mut self,
        activity: &mut FfiTransferActivityRecord,
        event: &StampedEvent,
        payload: &Option<QrInvitePayload>,
    ) -> (r: Option<Vec<TransferCallback>>)
        ensures
            final(activity)@ == old(activity)@.after_event(
                event_of(event@, old(activity)@.activity_id),
            ),
            *final(self) == (AttemptState {
                direction: if old(self).direction is Some {
                    old(self).direction
                } else {
                    told_direction(event@.event)
                },
                transfer_started: old(self).transfer_started || event@.event is Started,
                last_native_progress_ms: last_progress_after(
                    event_of(event@, old(activity)@.activity_id),
                    old(self).last_native_progress_ms,
                ),
                ..*old(self)
            }),
            r is Some == is_shown(
                event_of(event@, old(activity)@.activity_id),
                old(self).last_native_progress_ms,
            ),
            r matches Some(calls) ==> callback_views(calls@) == observed_callbacks(
                event@,
                old(activity)@,
                old(self).last_native_progress_ms,
                payload_view(*payload),
            ),
    {
        if self.direction.is_none() {
            self.direction = event_direction(&event.event);
        }
        if matches!(event.event, TransferEvent::Started { .. }) {
            self.transfer_started = true;
        }
        let mut last: u64 = self.last_native_progress_ms;
        let calls = observe_transfer_event(activity, event, &mut last, payload);
        self.last_native_progress_ms = last;
        calls
    }
}

fn same_option(a: &Option<String>, b: &Option<String>) -> (r: bool)
    ensures
        r == (text_option(*a) == text_option(*b)),
{
    match (a, b) {
        (Some(s), Some(t)) => same_text(s.as_str(), t.as_str()),
        (None, None) => true,
        _ => false,
    }
}

fn same_path(a: &Option<DataPath>, b: &Option<DataPath>) -> (r: bool)
    ensures
        r == (path_view(*a) == path_view(*b)),
{
    match (a, b) {
        (Some(DataPath::Direct { addr: s }), Some(DataPath::Direct { addr: t })) => same_text(
            s.as_str(),
            t.as_str(),
        ),
        (Some(DataPath::Relay { url: s }), Some(DataPath::Relay { url: t })) => same_text(
            s.as_str(),
            t.as_str(),
        ),
        (
            Some(DataPath::Other { description: s }),
            Some(DataPath::Other { description: t }),
        ) => same_text(s.as_str(), t.as_str()),
        (None, None) => true,
        _ => false,
    }
}

spec fn path_view(path: Option<DataPath>) -> Option<DataPathView> {
    match path {
        Some(path) => Some(path@),
        None => None,
    }
}

fn same_failure(a: &TransferFailure, b: &TransferFailure) -> (r: bool)
    ensures
        r == (a@ == b@),
{
    a.code == b.code && a.category == b.category && a.phase == b.phase && a.origin == b.origin
        && a.direction == b.direction && same_option(&a.transfer_id, &b.transfer_id)
        && same_option(&a.attempt_id, &b.attempt_id) && a.retryable == b.retryable
        && a.recovery_action == b.recovery_action && same_text(
        a.user_message_key.as_str(),
        b.user_message_key.as_str(),
    ) && same_text(a.diagnostic_message.as_str(), b.diagnostic_message.as_str())
}

/// Whether two sessions agree on everything but the bytes moved.
pub fn same_but_bytes(a: &Session, b: &Session) -> (r: bool)
    ensures
        r == (SessionView { bytes: b@.bytes, ..a@ } == b@),
{
    let failures = match (&a.failure, &b.failure) {
        (Some(x), Some(y)) => same_failure(x, y),
        (None, None) => true,
        _ => false,
    };
    a.attempt == b.attempt && a.direction == b.direction && a.state == b.state && same_option(
        &a.transfer_id,
        &b.transfer_id,
    ) && same_option(&a.file_name, &b.file_name) && a.total == b.total && a.bytes_resumed
        == b.bytes_resumed && same_path(&a.path, &b.path) && same_option(&a.reason, &b.reason)
        && a.reason_code == b.reason_code && same_option(
        &a.completed_file_path,
        &b.completed_file_path,
    ) && failures
}

/// Whether nothing but the bytes moved differs between two sessions.
pub open spec fn is_progress_only(previous: SessionView, current: SessionView) -> bool {
    previous.bytes != current.bytes && SessionView { bytes: previous.bytes, ..current } == previous
}

/// Whether a snapshot brings nothing but progress.
pub fn is_progress_only_snapshot(previous: &Session, snapshot: &SessionSnapshot) -> (r: bool)
    ensures
        r == is_progress_only(previous@, snapshot@.session),
{
    previous.bytes != snapshot.session.bytes && same_but_bytes(&snapshot.session, previous)
}

/// What the task behind a durable card remembers between notices.
pub struct DurableNoticeState {
    pub previous: Option<Session>,
    pub last_progress_event_ms: u64,
    pub last_progress_activity_ms: u64,
}

impl DurableNoticeState {
    /// The session of the last snapshot.
    pub open spec fn previous_view(self) -> Option<SessionView> {
        match self.previous {
            Some(session) => Some(session@),
            None => None,
        }
    }

    /// The state before the first notice.
    pub fn new() -> (r: Self)
        ensures
            r.previous is None,
            r.last_progress_event_ms == 0,
            r.last_progress_activity_ms == 0,
    {
        DurableNoticeState {
            previous: None,
            last_progress_event_ms: 0,
            last_progress_activity_ms: 0,
        }
    }
}

/// Whether a snapshot after `previous` brings nothing but progress.
pub open spec fn brings_only_progress(previous: Option<SessionView>, session: SessionView) -> bool {
    previous matches Some(before) && is_progress_only(before, session)
}

/// Whether observers see the card after a snapshot: always, except for
/// progress that follows the last shown progress too closely without being
/// the last of it.
pub open spec fn shows_card(
    previous: Option<SessionView>,
    session: SessionView,
    last_ms: u64,
    now_ms: u64,
) -> bool {
    ||| !brings_only_progress(previous, session)
    ||| session.total > 0 && session.bytes >= session.total
    ||| last_ms == 0
    ||| now_ms - last_ms >= NATIVE_PROGRESS_INTERVAL_MS
}

/// Whether a snapshot shows a state that the last one did not.
pub open spec fn enters_state(previous: Option<SessionView>, session: SessionView) -> bool {
    previous matches Some(before) ==> before.state != session.state
}

impl DurableNoticeState {
    /// Renders a snapshot onto a durable card and lists the observer calls.
    pub fn on_snapshot(
        &mut self,
        activity: &mut FfiTransferActivityRecord,
        snapshot: SessionSnapshot,
        context: &SessionContext,
        now_ms: u64,
    ) -> (r: Vec<TransferCallback>)
        ensures
            final(activity)@ == old(activity)@.after_snapshot(
                snapshot@,
                final(activity)@.completed_file_path,
                now_ms,
            ),
            is_stored_state(snapshot.session.state) ==> is_completed_path(
                context@,
                snapshot@.session,
                final(activity)@.completed_file_path,
            ),
            final(self).previous_view() == Some(snapshot@.session),
            final(self).last_progress_event_ms == old(self).last_progress_event_ms,
            final(self).last_progress_activity_ms == (if brings_only_progress(
                old(self).previous_view(),
                snapshot@.session,
            ) && shows_card(
                old(self).previous_view(),
                snapshot@.session,
                old(self).last_progress_activity_ms,
                now_ms,
            ) {
                now_ms
            } else {
                old(self).last_progress_activity_ms
            }),
            callback_views(r@) == (if shows_card(
                old(self).previous_view(),
                snapshot@.session,
                old(self).last_progress_activity_ms,
                now_ms,
            ) {
                seq![CallbackView::Activity { record: final(activity)@ }]
            } else {
                Seq::empty()
            }) + (if enters_state(old(self).previous_view(), snapshot@.session) {
                transition_callbacks(final(activity)@)
            } else {
                Seq::empty()
            }),
    {
        let ghost last = self.previous_view();
        let (progress_only, transition) = match &self.previous {
            Some(previous) => (
                is_progress_only_snapshot(previous, &snapshot),
                previous.state != snapshot.session.state,
            ),
            None => (false, true),
        };
        let emit = !progress_only || snapshot.session.total > 0 && snapshot.session.bytes
            >= snapshot.session.total || self.last_progress_activity_ms == 0
            || now_ms.saturating_sub(self.last_progress_activity_ms)
            >= NATIVE_PROGRESS_INTERVAL_MS;
        apply_canonical_snapshot(activity, &snapshot, context, now_ms);
        let mut calls: Vec<TransferCallback> = Vec::new();
        if emit {
            if progress_only {
                self.last_progress_activity_ms = now_ms;
            }
            calls.push(TransferCallback::Activity { record: activity.clone() });
        }
        let ghost head = calls@;
        assert(emit ==> callback_views(head) =~= seq![
            CallbackView::Activity { record: activity@ },
        ]);
        assert(!emit ==> callback_views(head) =~= Seq::empty());
        if transition {
            let mut more = report_durable_state_transition(activity);
            let ghost tail = more@;
            calls.append(&mut more);
            assert(callback_views(calls@) =~= callback_views(head) + callback_views(tail));
        } else {
            assert(callback_views(calls@) =~= callback_views(head) + Seq::empty());
        }
        self.previous = Some(snapshot.session);
        calls
    }
}

/// What comes of an attempt, by what happened: success alone finishes it; the
/// user's request counts before the peer's; the next route is tried only where
/// nothing was asked, nothing had started and there is one.
pub proof fn verdicts_follow_what_happened(
    succeeded: bool,
    peer_paused: bool,
    stop: Option<TransferStop>,
    started: bool,
    has_fallback: bool,
)
    ensures
        verdict_of(succeeded, peer_paused, stop, started, has_fallback) is Finished <==> succeeded,
        verdict_of(succeeded, peer_paused, stop, started, has_fallback) is PausedLocally
            <==> !succeeded && stop == Some(TransferStop::Pause),
        verdict_of(succeeded, peer_paused, stop, started, has_fallback) is PausedByPeer
            <==> !succeeded && stop is None && peer_paused,
        verdict_of(succeeded, peer_paused, stop, started, has_fallback) is TryNext <==> !succeeded
            && stop is None && !peer_paused && !started && has_fallback,
        verdict_of(succeeded, peer_paused, stop, started, has_fallback) == (
        AttemptVerdict::Ended { canceled: true }) <==> !succeeded && stop == Some(
            TransferStop::Cancel,
        ),
        verdict_of(succeeded, peer_paused, stop, started, has_fallback) == (
        AttemptVerdict::Ended { canceled: false }) <==> !succeeded && stop is None && !peer_paused
            && (started || !has_fallback),
{
    match stop {
        Some(TransferStop::Pause) => {},
        Some(TransferStop::Cancel) => {},
        None => {},
    }
}

/// Only a sender in a room with another route to go waits for a limited time: one
/// minute.
pub proof fn only_rooms_with_another_route_time_out(
    direction: FfiTransferDirection,
    mode: FfiTransferMode,
    has_fallback: bool,
)
    ensures
        fallback_timeout(direction, mode, has_fallback) is Some <==> direction is Send
            && mode is Room && has_fallback,
        fallback_timeout(direction, mode, has_fallback) matches Some(seconds) ==> seconds == 60,
{
}

/// A session that only moved bytes is told from one in which anything else
/// changed.
pub proof fn progress_alone_is_recognised(previous: SessionView, current: SessionView)
    ensures
        is_progress_only(previous, current) ==> previous.bytes != current.bytes && previous.state
            == current.state && previous.total == current.total && previous.reason
            == current.reason,
        previous == current ==> !is_progress_only(previous, current),
        previous.state != current.state ==> !is_progress_only(previous, current),
{
}

/// A card is shown at once for anything but progress, for the last byte and the
/// first time; progress in between is shown twice a second at most.
pub proof fn cards_are_shown_when_they_matter(
    previous: Option<SessionView>,
    session: SessionView,
    last_ms: u64,
    now_ms: u64,
)
    ensures
        previous is None ==> shows_card(previous, session, last_ms, now_ms),
        !brings_only_progress(previous, session) ==> shows_card(
            previous,
            session,
            last_ms,
            now_ms,
        ),
        session.total > 0 && session.bytes >= session.total ==> shows_card(
            previous,
            session,
            last_ms,
            now_ms,
        ),
        last_ms == 0 ==> shows_card(previous, session, last_ms, now_ms),
        brings_only_progress(previous, session) && session.bytes < session.total && last_ms != 0
            && now_ms - last_ms < 500 ==> !shows_card(previous, session, last_ms, now_ms),
        now_ms - last_ms >= 500 ==> shows_card(previous, session, last_ms, now_ms),
{
}

/// A state is entered exactly where the session was in another one before, or in
/// none.
pub proof fn states_are_entered_once(previous: Option<SessionView>, session: SessionView)
    ensures
        previous is None ==> enters_state(previous, session),
        previous matches Some(before) ==> (enters_state(previous, session) <==> before.state
            != session.state),
{
}

/// A fallback is announced by the route that failed, its error and the route that
/// is tried next.
pub proof fn fallbacks_are_announced(
    mode: FfiTransferMode,
    what: Seq<char>,
    error: Seq<char>,
    next: FfiTransferMode,
    seconds: u64,
)
    ensures
        fallback_line(mode, what, error, next) == mode_label(mode) + what + error + "); trying "@
            + mode_label(next),
        armed_line(seconds) == "fallback timeout armed: "@ + decimal(seconds as nat)
            + "s before connection"@,
{
}

} // verus!
