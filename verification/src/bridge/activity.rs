//! Activity cards: how requests, events, failures and user actions change
//! them, and which actions a card allows.
use vstd::prelude::*;

use crate::bridge::models::{
    ActivityView, EventView, FailureView, FfiDataPathKind, FfiFailureCategory, FfiFailureCode,
    FfiFailurePhase, FfiRecoveryAction, FfiTransferActivityActions, FfiTransferActivityRecord,
    FfiTransferActivityState, FfiTransferDirection, FfiTransferEvent, FfiTransferEventKind,
    FfiTransferFailure, FfiTransferMode, FfiTransferRequest, RequestView,
};
use crate::bridge::engine::{SummaryView, TransferSummary};
use crate::common::FfiFailureOrigin;
use crate::paths::{is_final_component, path_file_name};
use crate::text::{same_text, trimmed};

verus! {

/// States in which a transfer attempt is still under way.
pub open spec fn is_running_state(state: FfiTransferActivityState) -> bool {
    ||| state == FfiTransferActivityState::Queued
    ||| state == FfiTransferActivityState::Binding
    ||| state == FfiTransferActivityState::WaitingForPeer
    ||| state == FfiTransferActivityState::Pairing
    ||| state == FfiTransferActivityState::Connecting
    ||| state == FfiTransferActivityState::Transferring
    ||| state == FfiTransferActivityState::Verifying
}

fn running_state(state: FfiTransferActivityState) -> (r: bool)
    ensures
        r == is_running_state(state),
{
    matches!(
        state,
        FfiTransferActivityState::Queued | FfiTransferActivityState::Binding
            | FfiTransferActivityState::WaitingForPeer | FfiTransferActivityState::Pairing
            | FfiTransferActivityState::Connecting | FfiTransferActivityState::Transferring
            | FfiTransferActivityState::Verifying
    )
}

/// States that end a card.
pub open spec fn is_terminal_state(state: FfiTransferActivityState) -> bool {
    ||| state == FfiTransferActivityState::Completed
    ||| state == FfiTransferActivityState::Failed
    ||| state == FfiTransferActivityState::Canceled
}

impl ActivityView {
    /// Whether the receiver is being asked for its final confirmation.
    pub open spec fn is_finalizing(self) -> bool {
        self.state == FfiTransferActivityState::Verifying && self.diagnostic_message
            == "confirming"@
    }

    /// The actions that a card offers.
    pub open spec fn actions(self) -> FfiTransferActivityActions {
        let publication_retry = self.state == FfiTransferActivityState::Publishing
            && self.retryable;
        FfiTransferActivityActions {
            can_pause: is_running_state(self.state) && !self.is_finalizing(),
            can_resume: self.state == FfiTransferActivityState::Paused || self.state
                == FfiTransferActivityState::Unconfirmed || self.state
                == FfiTransferActivityState::Failed && self.retryable || publication_retry,
            can_cancel: (is_running_state(self.state) || self.state
                == FfiTransferActivityState::Unconfirmed || self.state
                == FfiTransferActivityState::Paused) && !self.is_finalizing() || publication_retry,
            can_delete: is_terminal_state(self.state),
            is_finalizing: self.is_finalizing(),
        }
    }

    /// The card that a request starts with.
    pub open spec fn queued(request: RequestView, file_name: Seq<char>, now_ms: u64) -> ActivityView {
        ActivityView {
            activity_id: request.activity_id,
            sequence: 0,
            attempt_id: Seq::empty(),
            state: FfiTransferActivityState::Queued,
            direction: request.direction,
            mode: request.mode,
            transfer_id: Seq::empty(),
            file_name,
            total_bytes: 0,
            bytes_transferred: 0,
            bytes_resumed: 0,
            speed_bps: 0,
            average_speed_bps: 0,
            created_at_ms: now_ms,
            updated_at_ms: now_ms,
            started_at_ms: 0,
            completed_at_ms: 0,
            completed_file_path: Seq::empty(),
            data_path_kind: FfiDataPathKind::NoPath,
            data_path_detail: Seq::empty(),
            invite: request.invite,
            token: request.token,
            peer_descriptor: request.peer_descriptor,
            diagnostic_message: Seq::empty(),
            failure_code: FfiFailureCode::Unknown,
            failure_category: FfiFailureCategory::Unknown,
            failure_phase: FfiFailurePhase::Setup,
            failure_origin: FfiFailureOrigin::Unknown,
            user_message_key: Seq::empty(),
            retryable: false,
            recovery_action: FfiRecoveryAction::NoAction,
            limits: request.limits,
        }
    }

    /// The card after the details of an event were copied onto it: whatever
    /// the event leaves open stays as it was.
    pub open spec fn observed(self, event: EventView) -> ActivityView {
        let reported = if event.bytes_transferred > 0 || event.kind
            == FfiTransferEventKind::Progress {
            event.bytes_transferred
        } else {
            self.bytes_transferred
        };
        ActivityView {
            activity_id: or_kept(event.activity_id, self.activity_id),
            updated_at_ms: event.ts_ms,
            direction: if event.direction != FfiTransferDirection::Unknown {
                event.direction
            } else {
                self.direction
            },
            mode: if event.mode != FfiTransferMode::Unknown {
                event.mode
            } else {
                self.mode
            },
            transfer_id: or_kept(event.transfer_id, self.transfer_id),
            file_name: or_kept(event.file_name, self.file_name),
            total_bytes: if event.total_bytes > 0 {
                event.total_bytes
            } else {
                self.total_bytes
            },
            bytes_transferred: if event.bytes_resumed > reported {
                event.bytes_resumed
            } else {
                reported
            },
            bytes_resumed: if event.bytes_resumed > 0 {
                event.bytes_resumed
            } else {
                self.bytes_resumed
            },
            data_path_kind: if event.data_path_kind != FfiDataPathKind::NoPath {
                event.data_path_kind
            } else {
                self.data_path_kind
            },
            data_path_detail: if event.data_path_kind != FfiDataPathKind::NoPath {
                event.data_path_detail
            } else {
                self.data_path_detail
            },
            invite: or_kept(event.invite, self.invite),
            token: or_kept(event.token, self.token),
            peer_descriptor: or_kept(event.peer_descriptor, self.peer_descriptor),
            diagnostic_message: or_kept(event.diagnostic_message, self.diagnostic_message),
            ..self
        }
    }

    /// The lifecycle state that an event of `kind` leads to.
    pub open spec fn state_after(self, kind: FfiTransferEventKind) -> FfiTransferActivityState {
        match kind {
            FfiTransferEventKind::Binding => FfiTransferActivityState::Binding,
            FfiTransferEventKind::Advertised => FfiTransferActivityState::WaitingForPeer,
            FfiTransferEventKind::Pairing => FfiTransferActivityState::Pairing,
            FfiTransferEventKind::Connecting | FfiTransferEventKind::Connected => if self.started_at_ms
                == 0 {
                FfiTransferActivityState::Connecting
            } else {
                self.state
            },
            FfiTransferEventKind::Started
            | FfiTransferEventKind::Progress => FfiTransferActivityState::Transferring,
            FfiTransferEventKind::Verifying
            | FfiTransferEventKind::Verified
            | FfiTransferEventKind::Completed => FfiTransferActivityState::Verifying,
            FfiTransferEventKind::Failed => FfiTransferActivityState::Failed,
            FfiTransferEventKind::PathChanged | FfiTransferEventKind::Unknown => self.state,
        }
    }

    /// The card after an event was folded into it.
    pub open spec fn after_event(self, event: EventView) -> ActivityView {
        let seen = self.observed(event);
        let begins = event.kind == FfiTransferEventKind::Started || event.kind
            == FfiTransferEventKind::Progress;
        ActivityView {
            state: seen.state_after(event.kind),
            started_at_ms: if begins && seen.started_at_ms == 0 {
                event.ts_ms
            } else {
                seen.started_at_ms
            },
            completed_at_ms: if event.kind == FfiTransferEventKind::Failed {
                event.ts_ms
            } else {
                seen.completed_at_ms
            },
            ..seen
        }
    }

    /// The card with the description of `failure` on it.
    pub open spec fn with_failure(self, failure: FailureView) -> ActivityView {
        ActivityView {
            direction: if failure.direction != FfiTransferDirection::Unknown {
                failure.direction
            } else {
                self.direction
            },
            transfer_id: or_kept(failure.transfer_id, self.transfer_id),
            diagnostic_message: failure.diagnostic_message,
            failure_code: failure.code,
            failure_category: failure.category,
            failure_phase: failure.phase,
            failure_origin: failure.origin,
            user_message_key: failure.user_message_key,
            retryable: failure.retryable,
            recovery_action: failure.recovery_action,
            ..self
        }
    }

    /// The card that ended in `failure`.
    pub open spec fn failed(self, failure: FailureView, ts_ms: u64) -> ActivityView {
        ActivityView {
            updated_at_ms: ts_ms,
            completed_at_ms: ts_ms,
            state: FfiTransferActivityState::Failed,
            ..self.with_failure(failure)
        }
    }

    /// The card whose publication failed and can be tried again.
    pub open spec fn publication_failed(self, failure: FailureView, ts_ms: u64) -> ActivityView {
        ActivityView {
            updated_at_ms: ts_ms,
            completed_at_ms: 0,
            state: FfiTransferActivityState::Publishing,
            ..self.with_failure(failure)
        }
    }

    /// The card without any failure description.
    pub open spec fn without_failure(self) -> ActivityView {
        ActivityView {
            diagnostic_message: Seq::empty(),
            failure_code: FfiFailureCode::Unknown,
            failure_category: FfiFailureCategory::Unknown,
            failure_phase: FfiFailurePhase::Setup,
            failure_origin: FfiFailureOrigin::Unknown,
            user_message_key: Seq::empty(),
            retryable: false,
            recovery_action: FfiRecoveryAction::NoAction,
            ..self
        }
    }

    /// The card of a finished transfer.
    pub open spec fn completed(self, summary: SummaryView, ts_ms: u64, path: Seq<char>) -> ActivityView {
        ActivityView {
            updated_at_ms: ts_ms,
            completed_at_ms: ts_ms,
            state: FfiTransferActivityState::Completed,
            bytes_transferred: summary.bytes_transferred,
            total_bytes: if summary.bytes_transferred > self.total_bytes {
                summary.bytes_transferred
            } else {
                self.total_bytes
            },
            completed_file_path: path,
            ..self
        }
    }

    /// The card that the local user canceled.
    pub open spec fn canceled(self, ts_ms: u64) -> ActivityView {
        ActivityView {
            updated_at_ms: ts_ms,
            completed_at_ms: ts_ms,
            state: FfiTransferActivityState::Canceled,
            diagnostic_message: "canceled"@,
            failure_code: FfiFailureCode::UserCanceled,
            failure_category: FfiFailureCategory::User,
            failure_phase: FfiFailurePhase::Transferring,
            failure_origin: FfiFailureOrigin::Local,
            user_message_key: "transfer.user_canceled"@,
            retryable: false,
            recovery_action: FfiRecoveryAction::NoAction,
            ..self
        }
    }

    /// The card that the local user paused.
    pub open spec fn paused(self, ts_ms: u64) -> ActivityView {
        ActivityView {
            updated_at_ms: ts_ms,
            state: FfiTransferActivityState::Paused,
            diagnostic_message: "paused"@,
            failure_code: FfiFailureCode::UserCanceled,
            failure_category: FfiFailureCategory::User,
            failure_phase: FfiFailurePhase::Transferring,
            failure_origin: FfiFailureOrigin::Local,
            user_message_key: "transfer.paused"@,
            retryable: true,
            recovery_action: FfiRecoveryAction::Resume,
            ..self
        }
    }

    /// The card that the peer paused.
    pub open spec fn peer_paused(self, ts_ms: u64) -> ActivityView {
        ActivityView {
            diagnostic_message: "peer paused; waiting for resume"@,
            failure_origin: FfiFailureOrigin::Peer,
            ..self.paused(ts_ms)
        }
    }

    /// The card put back into the queue for a fresh attempt.
    pub open spec fn requeued(self, ts_ms: u64) -> ActivityView {
        ActivityView {
            updated_at_ms: ts_ms,
            completed_at_ms: 0,
            attempt_id: Seq::empty(),
            state: FfiTransferActivityState::Queued,
            ..self.without_failure()
        }
    }

    /// The failure that a card describes.
    pub open spec fn described_failure(self) -> FailureView {
        FailureView {
            code: self.failure_code,
            category: self.failure_category,
            phase: self.failure_phase,
            origin: self.failure_origin,
            direction: self.direction,
            transfer_id: self.transfer_id,
            attempt_id: self.attempt_id,
            retryable: self.retryable,
            recovery_action: self.recovery_action,
            user_message_key: self.user_message_key,
            diagnostic_message: self.diagnostic_message,
        }
    }
}

/// `reported` where it says anything, `kept` otherwise.
pub open spec fn or_kept(reported: Seq<char>, kept: Seq<char>) -> Seq<char> {
    if reported.len() > 0 {
        reported
    } else {
        kept
    }
}

/// `reported` where it says anything, `kept` otherwise.
fn reported_or(reported: &String, kept: &String) -> (r: String)
    ensures
        r@ == or_kept(reported@, kept@),
{
    if !reported.as_str().is_empty() {
        reported.clone()
    } else {
        kept.clone()
    }
}

/// Whether the receiver is being asked for its final confirmation.
pub fn is_finalizing_activity(activity: &FfiTransferActivityRecord) -> (r: bool)
    ensures
        r == activity@.is_finalizing(),
{
    activity.state == FfiTransferActivityState::Verifying && same_text(
        activity.diagnostic_message.as_str(),
        "confirming",
    )
}

impl FfiTransferActivityActions {
    /// The actions that a card offers.
    pub fn for_record(activity: &FfiTransferActivityRecord) -> (r: Self)
        ensures
            r == activity@.actions(),
    {
        let is_finalizing = is_finalizing_activity(activity);
        let publication_retry = activity.state == FfiTransferActivityState::Publishing
            && activity.retryable;
        FfiTransferActivityActions {
            can_pause: can_pause_durable_activity(activity),
            can_resume: activity.state == FfiTransferActivityState::Paused || activity.state
                == FfiTransferActivityState::Unconfirmed || activity.state
                == FfiTransferActivityState::Failed && activity.retryable || publication_retry,
            can_cancel: (running_state(activity.state) || activity.state
                == FfiTransferActivityState::Unconfirmed || activity.state
                == FfiTransferActivityState::Paused) && !is_finalizing || publication_retry,
            can_delete: matches!(
                activity.state,
                FfiTransferActivityState::Completed | FfiTransferActivityState::Failed
                    | FfiTransferActivityState::Canceled
            ),
            is_finalizing,
        }
    }
}

/// Projects a card into native UI action availability.
pub fn transfer_activity_actions(record: FfiTransferActivityRecord) -> (r: FfiTransferActivityActions)
    ensures
        r == record@.actions(),
{
    FfiTransferActivityActions::for_record(&record)
}

/// Whether a durable card can be paused.
pub fn can_pause_durable_activity(activity: &FfiTransferActivityRecord) -> (r: bool)
    ensures
        r == (is_running_state(activity.state) && !activity@.is_finalizing()),
{
    running_state(activity.state) && !is_finalizing_activity(activity)
}

/// Whether a durable card can be resumed.
pub fn can_resume_durable_activity(activity: &FfiTransferActivityRecord) -> (r: bool)
    ensures
        r == (activity.state == FfiTransferActivityState::Paused || activity.state
            == FfiTransferActivityState::Unconfirmed || activity.state
            == FfiTransferActivityState::Failed || activity.state
            == FfiTransferActivityState::Canceled),
{
    matches!(
        activity.state,
        FfiTransferActivityState::Paused | FfiTransferActivityState::Unconfirmed
            | FfiTransferActivityState::Failed | FfiTransferActivityState::Canceled
    )
}

/// Whether a durable card can be canceled.
pub fn can_cancel_durable_activity(activity: &FfiTransferActivityRecord) -> (r: bool)
    ensures
        r == ((is_running_state(activity.state) || activity.state
            == FfiTransferActivityState::Paused || activity.state
            == FfiTransferActivityState::Unconfirmed || activity.state
            == FfiTransferActivityState::Publishing) && !activity@.is_finalizing()),
{
    (running_state(activity.state) || matches!(
        activity.state,
        FfiTransferActivityState::Paused | FfiTransferActivityState::Unconfirmed
            | FfiTransferActivityState::Publishing
    )) && !is_finalizing_activity(activity)
}

/// Whether a Manifest card can be paused.
pub fn manifest_can_pause(activity: &FfiTransferActivityRecord) -> (r: bool)
    ensures
        r == is_running_state(activity.state),
{
    running_state(activity.state)
}

/// Whether a Manifest card can be resumed.
pub fn manifest_can_resume(activity: &FfiTransferActivityRecord) -> (r: bool)
    ensures
        r == (activity.state == FfiTransferActivityState::Paused || activity.state
            == FfiTransferActivityState::Failed || activity.state
            == FfiTransferActivityState::Canceled),
{
    matches!(
        activity.state,
        FfiTransferActivityState::Paused | FfiTransferActivityState::Failed
            | FfiTransferActivityState::Canceled
    )
}

/// Whether a Manifest card can be canceled.
pub fn manifest_can_cancel(activity: &FfiTransferActivityRecord) -> (r: bool)
    ensures
        r == (is_running_state(activity.state) || activity.state
            == FfiTransferActivityState::Paused || activity.state
            == FfiTransferActivityState::Publishing),
{
    running_state(activity.state) || matches!(
        activity.state,
        FfiTransferActivityState::Paused | FfiTransferActivityState::Publishing
    )
}

/// What the name shown for a request can be: the last component of the file
/// to send, nothing for any other direction.
pub open spec fn is_request_file_name(request: RequestView, name: Seq<char>) -> bool {
    if request.direction == FfiTransferDirection::Send {
        is_final_component(trimmed(request.file_path), name)
    } else {
        name.len() == 0
    }
}

/// The name shown for a request before the engine reports one.
pub fn request_file_name(request: &FfiTransferRequest) -> (r: String)
    ensures
        is_request_file_name(request@, r@),
{
    match request.direction {
        FfiTransferDirection::Send => match path_file_name(request.file_path.as_str().trim()) {
            Some(name) => name,
            None => String::new(),
        },
        FfiTransferDirection::Receive | FfiTransferDirection::Unknown => String::new(),
    }
}

impl FfiTransferActivityRecord {
    /// The card that a request starts with.
    pub fn from_request(request: &FfiTransferRequest, now_ms: u64) -> (r: Self)
        ensures
            r@ == ActivityView::queued(request@, r@.file_name, now_ms),
            is_request_file_name(request@, r@.file_name),
    {
        FfiTransferActivityRecord::from_named_request(request, request_file_name(request), now_ms)
    }

    /// The card that a request starts with, shown under `file_name`.
    pub fn from_named_request(request: &FfiTransferRequest, file_name: String, now_ms: u64) -> (r: Self)
        ensures
            r@ == ActivityView::queued(request@, file_name@, now_ms),
    {
        FfiTransferActivityRecord {
            activity_id: request.activity_id.clone(),
            sequence: 0,
            attempt_id: String::new(),
            state: FfiTransferActivityState::Queued,
            direction: request.direction,
            mode: request.mode,
            transfer_id: String::new(),
            file_name,
            total_bytes: 0,
            bytes_transferred: 0,
            bytes_resumed: 0,
            speed_bps: 0,
            average_speed_bps: 0,
            created_at_ms: now_ms,
            updated_at_ms: now_ms,
            started_at_ms: 0,
            completed_at_ms: 0,
            completed_file_path: String::new(),
            data_path_kind: FfiDataPathKind::NoPath,
            data_path_detail: String::new(),
            invite: request.invite.clone(),
            token: request.token.clone(),
            peer_descriptor: request.peer_descriptor.clone(),
            diagnostic_message: String::new(),
            failure_code: FfiFailureCode::Unknown,
            failure_category: FfiFailureCategory::Unknown,
            failure_phase: FfiFailurePhase::Setup,
            failure_origin: FfiFailureOrigin::Unknown,
            user_message_key: String::new(),
            retryable: false,
            recovery_action: FfiRecoveryAction::NoAction,
            limits: request.limits,
        }
    }

    /// Folds one lifecycle event into the card.
    ///
    /// The protocol-level completion is reported before the committed file path
    /// is attached, so it leaves the card verifying: native clients cannot
    /// announce a file that is not addressable yet.
    pub fn apply_event(&mut self, event: &FfiTransferEvent)
        ensures
            final(self)@ == old(self)@.after_event(event@),
    {
        self.apply_observation(event);
        match event.kind {
            FfiTransferEventKind::Binding => {
                self.state = FfiTransferActivityState::Binding;
            },
            FfiTransferEventKind::Advertised => {
                self.state = FfiTransferActivityState::WaitingForPeer;
            },
            FfiTransferEventKind::Pairing => {
                self.state = FfiTransferActivityState::Pairing;
            },
            FfiTransferEventKind::Connecting | FfiTransferEventKind::Connected => {
                if self.started_at_ms == 0 {
                    self.state = FfiTransferActivityState::Connecting;
                }
            },
            FfiTransferEventKind::Started | FfiTransferEventKind::Progress => {
                if self.started_at_ms == 0 {
                    self.started_at_ms = event.ts_ms;
                }
                self.state = FfiTransferActivityState::Transferring;
            },
            FfiTransferEventKind::Verifying
            | FfiTransferEventKind::Verified
            | FfiTransferEventKind::Completed => {
                self.state = FfiTransferActivityState::Verifying;
            },
            FfiTransferEventKind::Failed => {
                self.completed_at_ms = event.ts_ms;
                self.state = FfiTransferActivityState::Failed;
            },
            FfiTransferEventKind::PathChanged | FfiTransferEventKind::Unknown => {},
        }
    }

    /// Copies diagnostic and presentation fields from an event without
    /// interpreting lifecycle state.
    pub fn apply_observation(&mut self, event: &FfiTransferEvent)
        ensures
            final(self)@ == old(self)@.observed(event@),
    {
        self.activity_id = reported_or(&event.activity_id, &self.activity_id);
        self.updated_at_ms = event.ts_ms;
        self.direction = if event.direction != FfiTransferDirection::Unknown {
            event.direction
        } else {
            self.direction
        };
        self.mode = if event.mode != FfiTransferMode::Unknown {
            event.mode
        } else {
            self.mode
        };
        self.transfer_id = reported_or(&event.transfer_id, &self.transfer_id);
        self.file_name = reported_or(&event.file_name, &self.file_name);
        self.total_bytes = if event.total_bytes > 0 {
            event.total_bytes
        } else {
            self.total_bytes
        };
        let reported: u64 = if event.bytes_transferred > 0 || event.kind
            == FfiTransferEventKind::Progress {
            event.bytes_transferred
        } else {
            self.bytes_transferred
        };
        self.bytes_transferred = if event.bytes_resumed > reported {
            event.bytes_resumed
        } else {
            reported
        };
        self.bytes_resumed = if event.bytes_resumed > 0 {
            event.bytes_resumed
        } else {
            self.bytes_resumed
        };
        if event.data_path_kind != FfiDataPathKind::NoPath {
            self.data_path_kind = event.data_path_kind;
            self.data_path_detail = event.data_path_detail.clone();
        }
        self.invite = reported_or(&event.invite, &self.invite);
        self.token = reported_or(&event.token, &self.token);
        self.peer_descriptor = reported_or(&event.peer_descriptor, &self.peer_descriptor);
        self.diagnostic_message = reported_or(&event.diagnostic_message, &self.diagnostic_message);
    }

    /// Ends the card in `failure`.
    pub fn apply_failure(&mut self, failure: &FfiTransferFailure, ts_ms: u64)
        ensures
            final(self)@ == old(self)@.failed(failure@, ts_ms),
    {
        self.updated_at_ms = ts_ms;
        self.completed_at_ms = ts_ms;
        self.state = FfiTransferActivityState::Failed;
        self.apply_failure_metadata(failure);
    }

    /// Records a failed publication that can be tried again in place.
    pub fn apply_publication_failure(&mut self, failure: &FfiTransferFailure, ts_ms: u64)
        ensures
            final(self)@ == old(self)@.publication_failed(failure@, ts_ms),
    {
        self.updated_at_ms = ts_ms;
        self.completed_at_ms = 0;
        self.state = FfiTransferActivityState::Publishing;
        self.apply_failure_metadata(failure);
    }

    /// Puts the description of `failure` on the card.
    pub fn apply_failure_metadata(&mut self, failure: &FfiTransferFailure)
        ensures
            final(self)@ == old(self)@.with_failure(failure@),
    {
        if failure.direction != FfiTransferDirection::Unknown {
            self.direction = failure.direction;
        }
        self.transfer_id = reported_or(&failure.transfer_id, &self.transfer_id);
        self.diagnostic_message = failure.diagnostic_message.clone();
        self.failure_code = failure.code;
        self.failure_category = failure.category;
        self.failure_phase = failure.phase;
        self.failure_origin = failure.origin;
        self.user_message_key = failure.user_message_key.clone();
        self.retryable = failure.retryable;
        self.recovery_action = failure.recovery_action;
    }

    /// Takes any failure description off the card.
    pub fn clear_failure_metadata(&mut self, ts_ms: u64)
        ensures
            final(self)@ == (ActivityView { updated_at_ms: ts_ms, ..old(self)@.without_failure() }),
    {
        self.updated_at_ms = ts_ms;
        self.diagnostic_message = String::new();
        self.failure_code = FfiFailureCode::Unknown;
        self.failure_category = FfiFailureCategory::Unknown;
        self.failure_phase = FfiFailurePhase::Setup;
        self.failure_origin = FfiFailureOrigin::Unknown;
        self.user_message_key = String::new();
        self.retryable = false;
        self.recovery_action = FfiRecoveryAction::NoAction;
    }

    /// Ends the card in success.
    pub fn apply_completed(&mut self, summary: &TransferSummary, ts_ms: u64, completed_file_path: String)
        ensures
            final(self)@ == old(self)@.completed(summary@, ts_ms, completed_file_path@),
    {
        self.updated_at_ms = ts_ms;
        self.completed_at_ms = ts_ms;
        self.state = FfiTransferActivityState::Completed;
        self.bytes_transferred = summary.bytes_transferred;
        if summary.bytes_transferred > self.total_bytes {
            self.total_bytes = summary.bytes_transferred;
        }
        self.completed_file_path = completed_file_path;
    }

    /// Ends the card as canceled by the local user.
    pub fn apply_canceled(&mut self, ts_ms: u64)
        ensures
            final(self)@ == old(self)@.canceled(ts_ms),
    {
        self.updated_at_ms = ts_ms;
        self.completed_at_ms = ts_ms;
        self.state = FfiTransferActivityState::Canceled;
        self.diagnostic_message = "canceled".to_owned();
        self.failure_code = FfiFailureCode::UserCanceled;
        self.failure_category = FfiFailureCategory::User;
        self.failure_phase = FfiFailurePhase::Transferring;
        self.failure_origin = FfiFailureOrigin::Local;
        self.user_message_key = "transfer.user_canceled".to_owned();
        self.retryable = false;
        self.recovery_action = FfiRecoveryAction::NoAction;
    }

    /// Marks the card as paused by the local user.
    pub fn apply_paused(&mut self, ts_ms: u64)
        ensures
            final(self)@ == old(self)@.paused(ts_ms),
    {
        self.updated_at_ms = ts_ms;
        self.state = FfiTransferActivityState::Paused;
        self.diagnostic_message = "paused".to_owned();
        self.failure_code = FfiFailureCode::UserCanceled;
        self.failure_category = FfiFailureCategory::User;
        self.failure_phase = FfiFailurePhase::Transferring;
        self.failure_origin = FfiFailureOrigin::Local;
        self.user_message_key = "transfer.paused".to_owned();
        self.retryable = true;
        self.recovery_action = FfiRecoveryAction::Resume;
    }

    /// Marks the card as paused by the peer.
    pub fn apply_peer_paused(&mut self, ts_ms: u64)
        ensures
            final(self)@ == old(self)@.peer_paused(ts_ms),
    {
        self.apply_paused(ts_ms);
        self.diagnostic_message = "peer paused; waiting for resume".to_owned();
        self.failure_origin = FfiFailureOrigin::Peer;
    }

    /// Puts the card back into the queue.
    pub fn apply_requeued(&mut self, ts_ms: u64)
        ensures
            final(self)@ == old(self)@.requeued(ts_ms),
    {
        self.completed_at_ms = 0;
        self.attempt_id = String::new();
        self.state = FfiTransferActivityState::Queued;
        self.clear_failure_metadata(ts_ms);
    }
}

/// The failure that a card describes.
pub fn failure_from_activity(activity: &FfiTransferActivityRecord) -> (r: FfiTransferFailure)
    ensures
        r@ == activity@.described_failure(),
{
    FfiTransferFailure {
        code: activity.failure_code,
        category: activity.failure_category,
        phase: activity.failure_phase,
        origin: activity.failure_origin,
        direction: activity.direction,
        transfer_id: activity.transfer_id.clone(),
        attempt_id: activity.attempt_id.clone(),
        retryable: activity.retryable,
        recovery_action: activity.recovery_action,
        user_message_key: activity.user_message_key.clone(),
        diagnostic_message: activity.diagnostic_message.clone(),
    }
}

/// Folds one lifecycle event into a card.
pub fn fold_transfer_activity(record: FfiTransferActivityRecord, event: FfiTransferEvent) -> (r:
    FfiTransferActivityRecord)
    ensures
        r@ == record@.after_event(event@),
{
    let mut record = record;
    record.apply_event(&event);
    record
}

/// Copying presentation fields never changes the lifecycle state, the times
/// derived from it, or the failure description except for its text.
pub proof fn observation_keeps_lifecycle(card: ActivityView, event: EventView)
    ensures
        card.observed(event).state == card.state,
        card.observed(event).started_at_ms == card.started_at_ms,
        card.observed(event).completed_at_ms == card.completed_at_ms,
        card.observed(event).retryable == card.retryable,
        card.observed(event).failure_code == card.failure_code,
{
}

/// No event announces a completed card: only the terminal report does.
pub proof fn events_never_complete_a_card(card: ActivityView, event: EventView)
    requires
        card.state != FfiTransferActivityState::Completed,
    ensures
        card.after_event(event).state != FfiTransferActivityState::Completed,
{
}

/// Once a transfer has started, connecting again does not move the card back.
pub proof fn started_cards_do_not_fall_back_to_connecting(card: ActivityView, event: EventView)
    requires
        card.started_at_ms != 0,
        event.kind == FfiTransferEventKind::Connecting || event.kind
            == FfiTransferEventKind::Connected,
    ensures
        card.after_event(event).state == card.state,
{
}

/// A card that waits for the final confirmation can be neither paused nor
/// canceled, and no card can be both deleted and paused or canceled.
pub proof fn actions_are_consistent(card: ActivityView)
    ensures
        card.is_finalizing() ==> !card.actions().can_pause && !card.actions().can_cancel,
        card.actions().can_delete ==> !card.actions().can_pause && !card.actions().can_cancel,
        card.actions().can_pause ==> !card.actions().can_resume,
{
}

/// Resuming a paused card leaves nothing of the pause on it.
pub proof fn requeueing_undoes_a_pause(card: ActivityView, paused_ms: u64, now_ms: u64)
    ensures
        card.paused(paused_ms).requeued(now_ms) == card.requeued(now_ms),
        card.peer_paused(paused_ms).requeued(now_ms) == card.requeued(now_ms),
{
}

/// A failed card describes the failure that ended it.
pub proof fn failed_cards_describe_their_failure(card: ActivityView, failure: FailureView, ts_ms: u64)
    requires
        failure.direction != FfiTransferDirection::Unknown,
        failure.transfer_id.len() > 0,
        failure.attempt_id == card.attempt_id,
    ensures
        card.failed(failure, ts_ms).described_failure() == failure,
{
}

/// Whether two cards are of the same transfer: who sends what to whom, and how.
pub open spec fn is_same_transfer(a: ActivityView, b: ActivityView) -> bool {
    &&& a.activity_id == b.activity_id
    &&& a.direction == b.direction
    &&& a.mode == b.mode
    &&& a.transfer_id == b.transfer_id
    &&& a.file_name == b.file_name
    &&& a.created_at_ms == b.created_at_ms
    &&& a.started_at_ms == b.started_at_ms
    &&& a.bytes_resumed == b.bytes_resumed
    &&& a.data_path_kind == b.data_path_kind
    &&& a.data_path_detail == b.data_path_detail
    &&& a.invite == b.invite
    &&& a.token == b.token
    &&& a.peer_descriptor == b.peer_descriptor
    &&& a.limits == b.limits
    &&& a.sequence == b.sequence
}

/// A card is under way in every state but where it rests, waits for its receipt or
/// the platform, or has ended; and it has ended in exactly three states.
pub proof fn states_are_running_resting_or_ended(state: FfiTransferActivityState)
    ensures
        is_terminal_state(state) <==> state is Completed || state is Failed || state is Canceled,
        is_running_state(state) <==> !is_terminal_state(state) && !(state is Paused) && !(
        state is Unconfirmed) && !(state is Publishing) && !(state is Unknown),
{
}

/// What can be done with a card: one under way can be paused and canceled, one
/// that rests or is unconfirmed resumed and canceled, a failed one resumed where a
/// retry helps, one whose publication can be retried resumed and canceled, and an
/// ended one deleted.
pub proof fn actions_follow_the_state(card: ActivityView)
    ensures
        is_running_state(card.state) && !card.is_finalizing() ==> card.actions().can_pause
            && card.actions().can_cancel && !card.actions().can_resume
            && !card.actions().can_delete,
        card.state is Paused || card.state is Unconfirmed ==> card.actions().can_resume
            && card.actions().can_cancel && !card.actions().can_pause
            && !card.actions().can_delete,
        card.state is Failed ==> card.actions().can_resume == card.retryable
            && card.actions().can_delete && !card.actions().can_pause
            && !card.actions().can_cancel,
        card.state is Publishing ==> card.actions().can_resume == card.retryable
            && card.actions().can_cancel == card.retryable && !card.actions().can_pause
            && !card.actions().can_delete,
        card.state is Completed || card.state is Canceled ==> card.actions().can_delete
            && !card.actions().can_resume && !card.actions().can_pause
            && !card.actions().can_cancel,
        card.actions().is_finalizing <==> card.state is Verifying && card.diagnostic_message
            == "confirming"@,
{
}

/// A new card waits, has moved nothing, failed at nothing, and carries what its
/// request names.
pub proof fn new_cards_carry_their_request(request: RequestView, file_name: Seq<char>, now_ms: u64)
    ensures
        ({
            let card = ActivityView::queued(request, file_name, now_ms);
            &&& card.activity_id == request.activity_id
            &&& card.direction == request.direction
            &&& card.mode == request.mode
            &&& card.file_name == file_name
            &&& card.invite == request.invite
            &&& card.token == request.token
            &&& card.peer_descriptor == request.peer_descriptor
            &&& card.limits == request.limits
            &&& card.state is Queued
            &&& card.created_at_ms == now_ms
            &&& card.updated_at_ms == now_ms
            &&& card.started_at_ms == 0
            &&& card.completed_at_ms == 0
            &&& card.bytes_transferred == 0
            &&& card.bytes_resumed == 0
            &&& card.total_bytes == 0
            &&& card.attempt_id.len() == 0
            &&& card.transfer_id.len() == 0
            &&& card.diagnostic_message.len() == 0
            &&& card.completed_file_path.len() == 0
            &&& card.failure_code is Unknown
            &&& !card.retryable
            &&& card.recovery_action is NoAction
            &&& card.actions().can_pause
            &&& card.actions().can_cancel
        }),
{
}

/// An event brings a card what it reports, and leaves it what it does not.
pub proof fn events_bring_what_they_report(card: ActivityView, event: EventView)
    ensures
        card.after_event(event).updated_at_ms == event.ts_ms,
        card.after_event(event).created_at_ms == card.created_at_ms,
        card.after_event(event).attempt_id == card.attempt_id,
        card.after_event(event).limits == card.limits,
        card.after_event(event).sequence == card.sequence,
        event.file_name.len() > 0 ==> card.after_event(event).file_name == event.file_name,
        event.file_name.len() == 0 ==> card.after_event(event).file_name == card.file_name,
        event.transfer_id.len() > 0 ==> card.after_event(event).transfer_id == event.transfer_id,
        event.transfer_id.len() == 0 ==> card.after_event(event).transfer_id == card.transfer_id,
        event.activity_id.len() == 0 ==> card.after_event(event).activity_id == card.activity_id,
        event.invite.len() > 0 ==> card.after_event(event).invite == event.invite,
        event.invite.len() == 0 ==> card.after_event(event).invite == card.invite,
        event.token.len() > 0 ==> card.after_event(event).token == event.token,
        event.token.len() == 0 ==> card.after_event(event).token == card.token,
        event.peer_descriptor.len() > 0 ==> card.after_event(event).peer_descriptor
            == event.peer_descriptor,
        event.peer_descriptor.len() == 0 ==> card.after_event(event).peer_descriptor
            == card.peer_descriptor,
        event.diagnostic_message.len() > 0 ==> card.after_event(event).diagnostic_message
            == event.diagnostic_message,
        event.diagnostic_message.len() == 0 ==> card.after_event(event).diagnostic_message
            == card.diagnostic_message,
        event.direction is Unknown ==> card.after_event(event).direction == card.direction,
        !(event.direction is Unknown) ==> card.after_event(event).direction == event.direction,
        event.mode is Unknown ==> card.after_event(event).mode == card.mode,
        !(event.mode is Unknown) ==> card.after_event(event).mode == event.mode,
        event.data_path_kind is NoPath ==> card.after_event(event).data_path_kind
            == card.data_path_kind && card.after_event(event).data_path_detail
            == card.data_path_detail,
        !(event.data_path_kind is NoPath) ==> card.after_event(event).data_path_kind
            == event.data_path_kind && card.after_event(event).data_path_detail
            == event.data_path_detail,
{
}

/// The bytes of a card are the ones that an event reports, at least the resumed
/// ones; an event that reports none leaves them.
pub proof fn events_count_bytes(card: ActivityView, event: EventView)
    ensures
        card.after_event(event).bytes_transferred >= event.bytes_resumed,
        card.after_event(event).bytes_transferred >= event.bytes_transferred,
        event.bytes_transferred == 0 && event.bytes_resumed == 0 && !(event.kind is Progress)
            ==> card.after_event(event).bytes_transferred == card.bytes_transferred,
        event.bytes_resumed == 0 && (event.bytes_transferred > 0 || event.kind is Progress)
            ==> card.after_event(event).bytes_transferred == event.bytes_transferred,
        card.after_event(event).total_bytes == if event.total_bytes > 0 {
            event.total_bytes
        } else {
            card.total_bytes
        },
        card.after_event(event).bytes_resumed == if event.bytes_resumed > 0 {
            event.bytes_resumed
        } else {
            card.bytes_resumed
        },
{
}

/// Each kind of event leads to its own state: a finished one only to verifying,
/// since nothing but the end of the transfer completes a card.
pub proof fn events_lead_to_their_state(card: ActivityView, event: EventView)
    ensures
        event.kind is Binding ==> card.after_event(event).state is Binding,
        event.kind is Advertised ==> card.after_event(event).state is WaitingForPeer,
        event.kind is Pairing ==> card.after_event(event).state is Pairing,
        (event.kind is Connecting || event.kind is Connected) && card.started_at_ms == 0
            ==> card.after_event(event).state is Connecting,
        event.kind is Started || event.kind is Progress ==> card.after_event(event).state
            is Transferring,
        event.kind is Verifying || event.kind is Verified || event.kind is Completed
            ==> card.after_event(event).state is Verifying,
        event.kind is Failed ==> card.after_event(event).state is Failed && card.after_event(
            event,
        ).completed_at_ms == event.ts_ms,
        event.kind is PathChanged || event.kind is Unknown ==> card.after_event(event).state
            == card.state,
        !(event.kind is Failed) ==> card.after_event(event).completed_at_ms
            == card.completed_at_ms,
        (event.kind is Started || event.kind is Progress) && card.started_at_ms == 0
            ==> card.after_event(event).started_at_ms == event.ts_ms,
        card.started_at_ms != 0 ==> card.after_event(event).started_at_ms == card.started_at_ms,
        !(event.kind is Started) && !(event.kind is Progress) ==> card.after_event(
            event,
        ).started_at_ms == card.started_at_ms,
{
}

/// A failed card tells its failure, as it is, and when it ended.
pub proof fn failures_are_told_as_they_are(card: ActivityView, failure: FailureView, ts_ms: u64)
    ensures
        ({
            let failed = card.failed(failure, ts_ms);
            let unpublished = card.publication_failed(failure, ts_ms);
            &&& failed.state is Failed
            &&& failed.completed_at_ms == ts_ms
            &&& failed.updated_at_ms == ts_ms
            &&& tells_failure(failed, failure)
            &&& failed.activity_id == card.activity_id
            &&& failed.bytes_transferred == card.bytes_transferred
            &&& failed.attempt_id == card.attempt_id
            &&& unpublished.state is Publishing
            &&& unpublished.completed_at_ms == 0
            &&& unpublished.updated_at_ms == ts_ms
            &&& tells_failure(unpublished, failure)
            &&& unpublished.activity_id == card.activity_id
            &&& unpublished.bytes_transferred == card.bytes_transferred
            &&& unpublished.completed_file_path == card.completed_file_path
        }),
{
}

/// Whether a card tells a failure.
pub open spec fn tells_failure(card: ActivityView, failure: FailureView) -> bool {
    &&& card.failure_code == failure.code
    &&& card.failure_category == failure.category
    &&& card.failure_phase == failure.phase
    &&& card.failure_origin == failure.origin
    &&& card.user_message_key == failure.user_message_key
    &&& card.diagnostic_message == failure.diagnostic_message
    &&& card.retryable == failure.retryable
    &&& card.recovery_action == failure.recovery_action
    &&& failure.direction is Unknown || card.direction == failure.direction
    &&& failure.transfer_id.len() == 0 || card.transfer_id == failure.transfer_id
}

/// A completed card is the same transfer, with the bytes that went over, the file
/// where it was saved, and the time it ended.
pub proof fn completed_cards_count_what_went_over(
    card: ActivityView,
    summary: SummaryView,
    ts_ms: u64,
    path: Seq<char>,
)
    ensures
        ({
            let done = card.completed(summary, ts_ms, path);
            &&& done.state is Completed
            &&& is_same_transfer(done, card)
            &&& done.completed_at_ms == ts_ms
            &&& done.updated_at_ms == ts_ms
            &&& done.bytes_transferred == summary.bytes_transferred
            &&& done.total_bytes >= done.bytes_transferred
            &&& done.total_bytes == card.total_bytes || done.total_bytes == done.bytes_transferred
            &&& done.completed_file_path == path
            &&& done.actions().can_delete
        }),
{
}

/// A canceled card is the same transfer, ended by the user on this side for good.
pub proof fn canceled_cards_are_over(card: ActivityView, ts_ms: u64)
    ensures
        ({
            let over = card.canceled(ts_ms);
            &&& over.state is Canceled
            &&& is_same_transfer(over, card)
            &&& over.bytes_transferred == card.bytes_transferred
            &&& over.attempt_id == card.attempt_id
            &&& over.completed_at_ms == ts_ms
            &&& over.updated_at_ms == ts_ms
            &&& over.failure_code is UserCanceled
            &&& over.failure_category is User
            &&& over.failure_origin is Local
            &&& over.failure_phase is Transferring
            &&& over.user_message_key == "transfer.user_canceled"@
            &&& over.diagnostic_message == "canceled"@
            &&& over.recovery_action is NoAction
            &&& !over.retryable
            &&& !over.actions().can_resume
        }),
{
}

/// A paused card is the same transfer, not ended, and can be resumed; it tells
/// which side paused it.
pub proof fn paused_cards_can_be_resumed(card: ActivityView, ts_ms: u64)
    ensures
        ({
            let here = card.paused(ts_ms);
            let there = card.peer_paused(ts_ms);
            &&& here.state is Paused
            &&& there.state is Paused
            &&& is_same_transfer(here, card)
            &&& is_same_transfer(there, card)
            &&& here.bytes_transferred == card.bytes_transferred
            &&& there.bytes_transferred == card.bytes_transferred
            &&& here.completed_at_ms == card.completed_at_ms
            &&& here.updated_at_ms == ts_ms
            &&& there.updated_at_ms == ts_ms
            &&& here.retryable
            &&& there.retryable
            &&& here.recovery_action is Resume
            &&& there.recovery_action is Resume
            &&& here.failure_code is UserCanceled
            &&& here.failure_category is User
            &&& here.failure_phase is Transferring
            &&& here.failure_origin is Local
            &&& there.failure_origin is Peer
            &&& here.user_message_key == "transfer.paused"@
            &&& here.diagnostic_message == "paused"@
            &&& there.diagnostic_message == "peer paused; waiting for resume"@
            &&& here.actions().can_resume
            &&& here.actions().can_cancel
        }),
{
}

/// A card that waits again is the same transfer without an end, without a failure
/// and without an attempt; what went over is kept.
pub proof fn requeued_cards_start_over(card: ActivityView, ts_ms: u64)
    ensures
        ({
            let again = card.requeued(ts_ms);
            &&& again.state is Queued
            &&& is_same_transfer(again, card)
            &&& again.bytes_transferred == card.bytes_transferred
            &&& again.total_bytes == card.total_bytes
            &&& again.completed_at_ms == 0
            &&& again.updated_at_ms == ts_ms
            &&& again.attempt_id.len() == 0
            &&& again.diagnostic_message.len() == 0
            &&& again.user_message_key.len() == 0
            &&& again.failure_code is Unknown
            &&& again.failure_category is Unknown
            &&& again.failure_origin is Unknown
            &&& again.failure_phase is Setup
            &&& again.recovery_action is NoAction
            &&& !again.retryable
        }),
{
}

/// The failure that a card describes is its own, field by field.
pub proof fn cards_describe_their_own_failure(card: ActivityView)
    ensures
        tells_failure(card, card.described_failure()),
        card.described_failure().direction == card.direction,
        card.described_failure().transfer_id == card.transfer_id,
        card.described_failure().attempt_id == card.attempt_id,
{
}

/// A sent card is named by the file it sends, and a received one has no name yet.
pub proof fn new_cards_are_named_by_their_file(request: RequestView, name: Seq<char>)
    requires
        is_request_file_name(request, name),
    ensures
        request.direction is Send ==> is_final_component(trimmed(request.file_path), name),
        !(request.direction is Send) ==> name.len() == 0,
{
}

} // verus!
