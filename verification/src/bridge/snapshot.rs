//! Projection of canonical engine snapshots onto activity cards.
use vstd::prelude::*;

use crate::bridge::engine::{
    CanonicalState, ContextView, EngineFailureView, PauseOrigin, Session, SessionContext,
    SessionFailureCode, SessionSnapshot, SessionView, SnapshotView, TransferDirection,
    TransferFailure,
};
use crate::bridge::models::{
    ActivityView, FfiFailureCategory, FfiFailureCode, FfiFailurePhase, FfiRecoveryAction,
    FfiTransferActivityRecord, FfiTransferActivityState,
};
use crate::bridge::projection::{
    data_path_of, direction_of, failure_category_of, failure_code_of, failure_origin_of,
    failure_phase_of, ffi_data_path, ffi_direction, ffi_failure_category, ffi_failure_code,
    ffi_failure_origin, ffi_failure_phase, ffi_recovery_action, recovery_action_of,
};
use crate::common::FfiFailureOrigin;
use crate::paths::{is_joined_path, path_join};
use crate::text::{decimal, decimal_text, joined, text_option};

verus! {

/// The text, absence read as empty.
pub open spec fn or_empty(text: Option<Seq<char>>) -> Seq<char> {
    match text {
        Some(t) => t,
        None => Seq::empty(),
    }
}

pub(crate) fn text_or_empty(text: &Option<String>) -> (r: String)
    ensures
        r@ == or_empty(text_option(*text)),
{
    match text {
        Some(t) => t.clone(),
        None => String::new(),
    }
}

fn text_or(text: &Option<String>, otherwise: &String) -> (r: String)
    ensures
        r@ == (match text_option(*text) {
            Some(t) => t,
            None => otherwise@,
        }),
{
    match text {
        Some(t) => t.clone(),
        None => otherwise.clone(),
    }
}

/// States of a session that an engine task is driving right now.
pub open spec fn is_driven_state(state: CanonicalState) -> bool {
    ||| state == CanonicalState::Waiting
    ||| state == CanonicalState::Connecting
    ||| state == CanonicalState::Verifying
    ||| state == CanonicalState::Transferring
    ||| state == CanonicalState::Confirming
}

/// Whether an engine task is driving a session in `state` right now.
pub fn driven_state(state: CanonicalState) -> (r: bool)
    ensures
        r == is_driven_state(state),
{
    matches!(
        state,
        CanonicalState::Waiting | CanonicalState::Connecting | CanonicalState::Verifying
            | CanonicalState::Transferring | CanonicalState::Confirming
    )
}

/// States that carry no failure.
pub open spec fn is_clean_state(state: CanonicalState) -> bool {
    is_driven_state(state) || is_stored_state(state)
}

/// States in which the received bytes are complete on disk.
pub open spec fn is_stored_state(state: CanonicalState) -> bool {
    state == CanonicalState::AwaitingPublication || state == CanonicalState::Completed
}

/// Card states whose status text does not outlive them.
pub open spec fn is_settled_card(state: FfiTransferActivityState) -> bool {
    ||| state == FfiTransferActivityState::Paused
    ||| state == FfiTransferActivityState::Unconfirmed
    ||| state == FfiTransferActivityState::Publishing
    ||| state == FfiTransferActivityState::Failed
    ||| state == FfiTransferActivityState::Canceled
    ||| state == FfiTransferActivityState::Completed
}

/// The card state that stands for a session state.
pub open spec fn card_state_of(state: CanonicalState) -> FfiTransferActivityState {
    match state {
        CanonicalState::Preparing => FfiTransferActivityState::Queued,
        CanonicalState::Waiting => FfiTransferActivityState::WaitingForPeer,
        CanonicalState::Connecting => FfiTransferActivityState::Connecting,
        CanonicalState::Verifying | CanonicalState::Confirming => FfiTransferActivityState::Verifying,
        CanonicalState::Transferring => FfiTransferActivityState::Transferring,
        CanonicalState::Paused(_) => FfiTransferActivityState::Paused,
        CanonicalState::Unconfirmed => FfiTransferActivityState::Unconfirmed,
        CanonicalState::AwaitingPublication => FfiTransferActivityState::Publishing,
        CanonicalState::Completed => FfiTransferActivityState::Completed,
        CanonicalState::Failed => FfiTransferActivityState::Failed,
        CanonicalState::Cancelled => FfiTransferActivityState::Canceled,
    }
}

impl ActivityView {
    /// The card with the measurements and names of a snapshot on it.
    pub open spec fn refreshed(self, snapshot: SnapshotView, ts_ms: u64) -> ActivityView {
        let session = snapshot.session;
        let begins = self.started_at_ms == 0 && session.transfer_id is Some && (is_stored_state(
            session.state,
        ) || session.state == CanonicalState::Verifying || session.state
            == CanonicalState::Transferring || session.state == CanonicalState::Confirming);
        ActivityView {
            updated_at_ms: ts_ms,
            sequence: snapshot.seq,
            attempt_id: "attempt-"@ + decimal(session.attempt as nat),
            direction: direction_of(Some(session.direction)),
            transfer_id: or_empty(session.transfer_id),
            file_name: or_empty(session.file_name),
            bytes_transferred: session.bytes,
            total_bytes: session.total,
            bytes_resumed: session.bytes_resumed,
            speed_bps: snapshot.speed_bps,
            average_speed_bps: snapshot.avg_bps,
            data_path_kind: match session.path {
                Some(path) => data_path_of(path).0,
                None => self.data_path_kind,
            },
            data_path_detail: match session.path {
                Some(path) => data_path_of(path).1,
                None => self.data_path_detail,
            },
            started_at_ms: if begins {
                ts_ms
            } else {
                self.started_at_ms
            },
            ..self
        }
    }

    /// The card of a session that carries no failure.
    pub open spec fn cleaned(self, state: CanonicalState) -> ActivityView {
        ActivityView {
            completed_at_ms: 0,
            completed_file_path: Seq::empty(),
            diagnostic_message: if is_settled_card(self.state) || state
                == CanonicalState::Completed {
                Seq::empty()
            } else {
                self.diagnostic_message
            },
            ..ActivityView { diagnostic_message: self.diagnostic_message, ..self.without_failure() }
        }
    }

    /// The card of a paused session: resumable, with the pause as its reason.
    pub open spec fn held(self, origin: PauseOrigin, reason: Option<Seq<char>>) -> ActivityView {
        ActivityView {
            state: FfiTransferActivityState::Paused,
            completed_at_ms: 0,
            completed_file_path: Seq::empty(),
            failure_phase: FfiFailurePhase::Transferring,
            retryable: true,
            recovery_action: FfiRecoveryAction::Resume,
            failure_code: match origin {
                PauseOrigin::Local | PauseOrigin::Peer => FfiFailureCode::UserCanceled,
                PauseOrigin::Lost => FfiFailureCode::NetworkLost,
            },
            failure_category: match origin {
                PauseOrigin::Local | PauseOrigin::Peer => FfiFailureCategory::User,
                PauseOrigin::Lost => FfiFailureCategory::Network,
            },
            failure_origin: match origin {
                PauseOrigin::Local => FfiFailureOrigin::Local,
                PauseOrigin::Peer => FfiFailureOrigin::Peer,
                PauseOrigin::Lost => FfiFailureOrigin::Unknown,
            },
            user_message_key: match origin {
                PauseOrigin::Local => "transfer.paused"@,
                PauseOrigin::Peer => "transfer.peer_paused"@,
                PauseOrigin::Lost => "transfer.network_lost"@,
            },
            diagnostic_message: match reason {
                Some(text) => text,
                None => match origin {
                    PauseOrigin::Local => "paused"@,
                    PauseOrigin::Peer => "paused by peer"@,
                    PauseOrigin::Lost => "connection lost; partial retained"@,
                },
            },
            ..self
        }
    }

    /// The card of a session whose delivery is not confirmed yet.
    pub open spec fn unconfirmed(self) -> ActivityView {
        ActivityView {
            state: FfiTransferActivityState::Unconfirmed,
            completed_at_ms: 0,
            completed_file_path: Seq::empty(),
            failure_code: FfiFailureCode::NetworkLost,
            failure_category: FfiFailureCategory::Network,
            failure_phase: FfiFailurePhase::Acknowledging,
            failure_origin: FfiFailureOrigin::Unknown,
            user_message_key: "transfer.delivery_unconfirmed"@,
            retryable: true,
            recovery_action: FfiRecoveryAction::Resume,
            diagnostic_message: "delivery unconfirmed; awaiting completion receipt"@,
            ..self
        }
    }

    /// The card with the engine's own failure description on it.
    pub open spec fn with_engine_failure(self, failure: EngineFailureView) -> ActivityView {
        ActivityView {
            failure_code: failure_code_of(failure.code),
            failure_category: failure_category_of(failure.category),
            failure_phase: failure_phase_of(failure.phase),
            failure_origin: failure_origin_of(failure.origin),
            direction: match failure.direction {
                Some(direction) => direction_of(Some(direction)),
                None => self.direction,
            },
            transfer_id: match failure.transfer_id {
                Some(id) => id,
                None => self.transfer_id,
            },
            attempt_id: match failure.attempt_id {
                Some(id) => id,
                None => self.attempt_id,
            },
            retryable: failure.retryable,
            recovery_action: recovery_action_of(failure.recovery_action),
            user_message_key: failure.user_message_key,
            diagnostic_message: failure.diagnostic_message,
            ..self
        }
    }

    /// The card with a coarse reason on it, for sessions that carry no
    /// classified failure. Lost connections and pauses can be resumed.
    pub open spec fn with_reason(
        self,
        code: Option<SessionFailureCode>,
        reason: Option<Seq<char>>,
    ) -> ActivityView {
        let resumable = code == Some(SessionFailureCode::ConnectionLost) || code == Some(
            SessionFailureCode::Paused,
        ) || code == Some(SessionFailureCode::PeerPaused);
        ActivityView {
            diagnostic_message: match reason {
                Some(text) => text,
                None => "transfer failed"@,
            },
            retryable: resumable,
            recovery_action: if resumable {
                FfiRecoveryAction::Resume
            } else {
                FfiRecoveryAction::NoAction
            },
            failure_code: match code {
                Some(SessionFailureCode::Cancelled)
                | Some(SessionFailureCode::Paused)
                | Some(SessionFailureCode::PeerPaused) => FfiFailureCode::UserCanceled,
                Some(SessionFailureCode::PeerCancelled) => FfiFailureCode::PeerCanceled,
                Some(SessionFailureCode::ConnectionLost) => FfiFailureCode::NetworkLost,
                Some(SessionFailureCode::Other) | None => FfiFailureCode::Unknown,
            },
            failure_category: match code {
                Some(SessionFailureCode::Cancelled)
                | Some(SessionFailureCode::PeerCancelled)
                | Some(SessionFailureCode::Paused)
                | Some(SessionFailureCode::PeerPaused) => FfiFailureCategory::User,
                Some(SessionFailureCode::ConnectionLost) => FfiFailureCategory::Network,
                Some(SessionFailureCode::Other) | None => FfiFailureCategory::Unknown,
            },
            failure_origin: match code {
                Some(SessionFailureCode::Cancelled)
                | Some(SessionFailureCode::Paused) => FfiFailureOrigin::Local,
                Some(SessionFailureCode::PeerCancelled)
                | Some(SessionFailureCode::PeerPaused) => FfiFailureOrigin::Peer,
                _ => FfiFailureOrigin::Unknown,
            },
            ..self
        }
    }

    /// The card with the failure of `session` on it.
    pub open spec fn with_session_failure(self, session: SessionView) -> ActivityView {
        match session.failure {
            Some(failure) => self.with_engine_failure(failure),
            None => self.with_reason(session.reason_code, session.reason),
        }
    }

    /// The card after a snapshot; `path` is where stored bytes can be found.
    pub open spec fn after_snapshot(self, snapshot: SnapshotView, path: Seq<char>, ts_ms: u64) -> ActivityView {
        let session = snapshot.session;
        let card = self.refreshed(snapshot, ts_ms);
        let clean = card.cleaned(session.state);
        match session.state {
            CanonicalState::Preparing => ActivityView {
                state: FfiTransferActivityState::Queued,
                ..card
            },
            CanonicalState::Waiting
            | CanonicalState::Connecting
            | CanonicalState::Verifying
            | CanonicalState::Transferring => ActivityView {
                state: card_state_of(session.state),
                ..clean
            },
            CanonicalState::Confirming => ActivityView {
                state: FfiTransferActivityState::Verifying,
                diagnostic_message: "confirming"@,
                ..clean
            },
            CanonicalState::Paused(origin) => card.held(origin, session.reason),
            CanonicalState::Unconfirmed => card.unconfirmed(),
            CanonicalState::AwaitingPublication => ActivityView {
                state: FfiTransferActivityState::Publishing,
                completed_file_path: path,
                diagnostic_message: "publishing"@,
                ..clean
            },
            CanonicalState::Completed => ActivityView {
                state: FfiTransferActivityState::Completed,
                completed_at_ms: ts_ms,
                completed_file_path: path,
                ..clean
            },
            CanonicalState::Failed => ActivityView {
                state: FfiTransferActivityState::Failed,
                completed_at_ms: ts_ms,
                completed_file_path: Seq::empty(),
                ..card.with_session_failure(session)
            },
            CanonicalState::Cancelled => card.canceled(ts_ms),
        }
    }
}

/// Where the bytes of a stored session can be found: where the engine says,
/// else the received name in the output directory, else nowhere.
pub open spec fn is_completed_path(context: ContextView, session: SessionView, path: Seq<char>) -> bool {
    match session.completed_file_path {
        Some(known) => path == known,
        None => match session.file_name {
            Some(name) if context.params.direction == TransferDirection::Receive => is_joined_path(
                context.params.path,
                name,
                path,
            ),
            _ => path.len() == 0,
        },
    }
}

/// Finds the bytes of a stored session.
pub fn canonical_completed_file_path(context: &SessionContext, session: &Session) -> (r: String)
    ensures
        is_completed_path(context@, session@, r@),
{
    if let Some(path) = &session.completed_file_path {
        return path.clone();
    }
    if context.params.direction != TransferDirection::Receive {
        return String::new();
    }
    match &session.file_name {
        Some(name) => path_join(context.params.path.as_str(), name.as_str()),
        None => String::new(),
    }
}

/// Puts the failure of a session on its card.
pub fn apply_canonical_failure(activity: &mut FfiTransferActivityRecord, session: &Session)
    ensures
        final(activity)@ == old(activity)@.with_session_failure(session@),
{
    match &session.failure {
        Some(failure) => apply_engine_failure(activity, failure),
        None => apply_session_reason(activity, session.reason_code, &session.reason),
    }
}

fn apply_engine_failure(activity: &mut FfiTransferActivityRecord, failure: &TransferFailure)
    ensures
        final(activity)@ == old(activity)@.with_engine_failure(failure@),
{
    activity.failure_code = ffi_failure_code(failure.code);
    activity.failure_category = ffi_failure_category(failure.category);
    activity.failure_phase = ffi_failure_phase(failure.phase);
    activity.failure_origin = ffi_failure_origin(failure.origin);
    activity.direction = match failure.direction {
        Some(direction) => ffi_direction(Some(direction)),
        None => activity.direction,
    };
    activity.transfer_id = text_or(&failure.transfer_id, &activity.transfer_id);
    activity.attempt_id = text_or(&failure.attempt_id, &activity.attempt_id);
    activity.retryable = failure.retryable;
    activity.recovery_action = ffi_recovery_action(failure.recovery_action);
    activity.user_message_key = failure.user_message_key.clone();
    activity.diagnostic_message = failure.diagnostic_message.clone();
}

fn apply_session_reason(
    activity: &mut FfiTransferActivityRecord,
    code: Option<SessionFailureCode>,
    reason: &Option<String>,
)
    ensures
        final(activity)@ == old(activity)@.with_reason(code, text_option(*reason)),
{
    activity.diagnostic_message = match reason {
        Some(text) => text.clone(),
        None => "transfer failed".to_owned(),
    };
    activity.retryable = false;
    activity.recovery_action = FfiRecoveryAction::NoAction;
    match code {
        Some(SessionFailureCode::Cancelled) => {
            activity.failure_code = FfiFailureCode::UserCanceled;
            activity.failure_category = FfiFailureCategory::User;
            activity.failure_origin = FfiFailureOrigin::Local;
        },
        Some(SessionFailureCode::PeerCancelled) => {
            activity.failure_code = FfiFailureCode::PeerCanceled;
            activity.failure_category = FfiFailureCategory::User;
            activity.failure_origin = FfiFailureOrigin::Peer;
        },
        Some(SessionFailureCode::ConnectionLost) => {
            activity.failure_code = FfiFailureCode::NetworkLost;
            activity.failure_category = FfiFailureCategory::Network;
            activity.failure_origin = FfiFailureOrigin::Unknown;
            activity.retryable = true;
            activity.recovery_action = FfiRecoveryAction::Resume;
        },
        Some(SessionFailureCode::Paused) | Some(SessionFailureCode::PeerPaused) => {
            activity.failure_code = FfiFailureCode::UserCanceled;
            activity.failure_category = FfiFailureCategory::User;
            activity.failure_origin = if code == Some(SessionFailureCode::PeerPaused) {
                FfiFailureOrigin::Peer
            } else {
                FfiFailureOrigin::Local
            };
            activity.retryable = true;
            activity.recovery_action = FfiRecoveryAction::Resume;
        },
        Some(SessionFailureCode::Other) | None => {
            activity.failure_code = FfiFailureCode::Unknown;
            activity.failure_category = FfiFailureCategory::Unknown;
            activity.failure_origin = FfiFailureOrigin::Unknown;
        },
    }
}

fn apply_measurements(activity: &mut FfiTransferActivityRecord, snapshot: &SessionSnapshot, ts_ms: u64)
    ensures
        final(activity)@ == old(activity)@.refreshed(snapshot@, ts_ms),
{
    let session = &snapshot.session;
    activity.updated_at_ms = ts_ms;
    activity.sequence = snapshot.seq;
    activity.attempt_id = joined("attempt-", decimal_text(session.attempt).as_str());
    activity.direction = ffi_direction(Some(session.direction));
    activity.transfer_id = text_or_empty(&session.transfer_id);
    activity.file_name = text_or_empty(&session.file_name);
    activity.bytes_transferred = session.bytes;
    activity.total_bytes = session.total;
    activity.bytes_resumed = session.bytes_resumed;
    activity.speed_bps = snapshot.speed_bps;
    activity.average_speed_bps = snapshot.avg_bps;
    if let Some(path) = &session.path {
        let (kind, detail) = ffi_data_path(path);
        activity.data_path_kind = kind;
        activity.data_path_detail = detail;
    }
    if activity.started_at_ms == 0 && session.transfer_id.is_some() && matches!(
        session.state,
        CanonicalState::Verifying | CanonicalState::Transferring | CanonicalState::Confirming
            | CanonicalState::AwaitingPublication | CanonicalState::Completed
    ) {
        activity.started_at_ms = ts_ms;
    }
}

fn apply_clean_state(activity: &mut FfiTransferActivityRecord, state: CanonicalState)
    ensures
        final(activity)@ == old(activity)@.cleaned(state),
{
    activity.completed_at_ms = 0;
    activity.completed_file_path = String::new();
    activity.failure_code = FfiFailureCode::Unknown;
    activity.failure_category = FfiFailureCategory::Unknown;
    activity.failure_phase = FfiFailurePhase::Setup;
    activity.failure_origin = FfiFailureOrigin::Unknown;
    activity.user_message_key = String::new();
    activity.retryable = false;
    activity.recovery_action = FfiRecoveryAction::NoAction;
    if matches!(
        activity.state,
        FfiTransferActivityState::Paused | FfiTransferActivityState::Unconfirmed
            | FfiTransferActivityState::Publishing | FfiTransferActivityState::Failed
            | FfiTransferActivityState::Canceled | FfiTransferActivityState::Completed
    ) || state == CanonicalState::Completed {
        activity.diagnostic_message = String::new();
    }
}

fn apply_held_state(activity: &mut FfiTransferActivityRecord, origin: PauseOrigin, reason: &Option<String>)
    ensures
        final(activity)@ == old(activity)@.held(origin, text_option(*reason)),
{
    activity.state = FfiTransferActivityState::Paused;
    activity.completed_at_ms = 0;
    activity.completed_file_path = String::new();
    activity.failure_phase = FfiFailurePhase::Transferring;
    activity.retryable = true;
    activity.recovery_action = FfiRecoveryAction::Resume;
    let (code, category, side, key, text) = match origin {
        PauseOrigin::Local => (
            FfiFailureCode::UserCanceled,
            FfiFailureCategory::User,
            FfiFailureOrigin::Local,
            "transfer.paused",
            "paused",
        ),
        PauseOrigin::Peer => (
            FfiFailureCode::UserCanceled,
            FfiFailureCategory::User,
            FfiFailureOrigin::Peer,
            "transfer.peer_paused",
            "paused by peer",
        ),
        PauseOrigin::Lost => (
            FfiFailureCode::NetworkLost,
            FfiFailureCategory::Network,
            FfiFailureOrigin::Unknown,
            "transfer.network_lost",
            "connection lost; partial retained",
        ),
    };
    activity.failure_code = code;
    activity.failure_category = category;
    activity.failure_origin = side;
    activity.user_message_key = key.to_owned();
    activity.diagnostic_message = match reason {
        Some(given) => given.clone(),
        None => text.to_owned(),
    };
}

fn apply_unconfirmed_state(activity: &mut FfiTransferActivityRecord)
    ensures
        final(activity)@ == old(activity)@.unconfirmed(),
{
    activity.state = FfiTransferActivityState::Unconfirmed;
    activity.completed_at_ms = 0;
    activity.completed_file_path = String::new();
    activity.failure_code = FfiFailureCode::NetworkLost;
    activity.failure_category = FfiFailureCategory::Network;
    activity.failure_phase = FfiFailurePhase::Acknowledging;
    activity.failure_origin = FfiFailureOrigin::Unknown;
    activity.user_message_key = "transfer.delivery_unconfirmed".to_owned();
    activity.retryable = true;
    activity.recovery_action = FfiRecoveryAction::Resume;
    activity.diagnostic_message = "delivery unconfirmed; awaiting completion receipt".to_owned();
}

/// Renders a snapshot onto a card, given where stored bytes can be found.
pub fn apply_located_snapshot(
    activity: &mut FfiTransferActivityRecord,
    snapshot: &SessionSnapshot,
    completed_file_path: String,
    ts_ms: u64,
)
    ensures
        final(activity)@ == old(activity)@.after_snapshot(snapshot@, completed_file_path@, ts_ms),
{
    apply_measurements(activity, snapshot, ts_ms);
    let state = snapshot.session.state;
    if driven_state(state) || state == CanonicalState::AwaitingPublication || state
        == CanonicalState::Completed {
        apply_clean_state(activity, state);
    }
    match state {
        CanonicalState::Preparing => {
            activity.state = FfiTransferActivityState::Queued;
        },
        CanonicalState::Waiting => {
            activity.state = FfiTransferActivityState::WaitingForPeer;
        },
        CanonicalState::Connecting => {
            activity.state = FfiTransferActivityState::Connecting;
        },
        CanonicalState::Verifying => {
            activity.state = FfiTransferActivityState::Verifying;
        },
        CanonicalState::Transferring => {
            activity.state = FfiTransferActivityState::Transferring;
        },
        CanonicalState::Confirming => {
            activity.diagnostic_message = "confirming".to_owned();
            activity.state = FfiTransferActivityState::Verifying;
        },
        CanonicalState::Paused(origin) => {
            apply_held_state(activity, origin, &snapshot.session.reason);
        },
        CanonicalState::Unconfirmed => {
            apply_unconfirmed_state(activity);
        },
        CanonicalState::AwaitingPublication => {
            activity.completed_file_path = completed_file_path;
            activity.diagnostic_message = "publishing".to_owned();
            activity.state = FfiTransferActivityState::Publishing;
        },
        CanonicalState::Completed => {
            activity.completed_at_ms = ts_ms;
            activity.completed_file_path = completed_file_path;
            activity.state = FfiTransferActivityState::Completed;
        },
        CanonicalState::Failed => {
            apply_canonical_failure(activity, &snapshot.session);
            activity.completed_at_ms = ts_ms;
            activity.completed_file_path = String::new();
            activity.state = FfiTransferActivityState::Failed;
        },
        CanonicalState::Cancelled => {
            activity.apply_canceled(ts_ms);
        },
    }
}

/// Renders a canonical snapshot onto a card.
pub fn apply_canonical_snapshot(
    activity: &mut FfiTransferActivityRecord,
    snapshot: &SessionSnapshot,
    context: &SessionContext,
    ts_ms: u64,
)
    ensures
        final(activity)@ == old(activity)@.after_snapshot(
            snapshot@,
            final(activity)@.completed_file_path,
            ts_ms,
        ),
        is_stored_state(snapshot.session.state) ==> is_completed_path(
            context@,
            snapshot.session@,
            final(activity)@.completed_file_path,
        ),
{
    let path = canonical_completed_file_path(context, &snapshot.session);
    apply_located_snapshot(activity, snapshot, path, ts_ms);
}

/// The state on a card is the state of the session it renders.
pub proof fn snapshots_decide_the_card_state(
    card: ActivityView,
    snapshot: SnapshotView,
    path: Seq<char>,
    ts_ms: u64,
)
    ensures
        card.after_snapshot(snapshot, path, ts_ms).state == card_state_of(snapshot.session.state),
        card.after_snapshot(snapshot, path, ts_ms).sequence == snapshot.seq,
        card.after_snapshot(snapshot, path, ts_ms).updated_at_ms == ts_ms,
{
}

/// A session that runs well leaves nothing of an earlier failure on its card.
pub proof fn clean_snapshots_clear_failures(
    card: ActivityView,
    snapshot: SnapshotView,
    path: Seq<char>,
    ts_ms: u64,
)
    requires
        is_clean_state(snapshot.session.state),
    ensures
        ({
            let after = card.after_snapshot(snapshot, path, ts_ms);
            &&& !after.retryable
            &&& after.failure_code == FfiFailureCode::Unknown
            &&& after.recovery_action == FfiRecoveryAction::NoAction
            &&& after.user_message_key.len() == 0
        }),
{
}

/// Every paused or unconfirmed session can be resumed from its card.
pub proof fn held_snapshots_can_be_resumed(
    card: ActivityView,
    snapshot: SnapshotView,
    path: Seq<char>,
    ts_ms: u64,
)
    requires
        snapshot.session.state is Paused || snapshot.session.state == CanonicalState::Unconfirmed,
    ensures
        card.after_snapshot(snapshot, path, ts_ms).actions().can_resume,
        card.after_snapshot(snapshot, path, ts_ms).recovery_action == FfiRecoveryAction::Resume,
{
}

/// Only stored sessions show a file.
pub proof fn only_stored_snapshots_show_a_file(
    card: ActivityView,
    snapshot: SnapshotView,
    path: Seq<char>,
    ts_ms: u64,
)
    requires
        !is_stored_state(snapshot.session.state),
        snapshot.session.state != CanonicalState::Preparing,
        snapshot.session.state != CanonicalState::Cancelled,
    ensures
        card.after_snapshot(snapshot, path, ts_ms).completed_file_path.len() == 0,
{
}

/// Each state of a session is shown as its own: a card only completes with its
/// session, and a stored file that is not published yet is not complete.
pub proof fn session_states_are_shown_as_they_are(state: CanonicalState)
    ensures
        card_state_of(state) is Queued <==> state is Preparing,
        card_state_of(state) is WaitingForPeer <==> state is Waiting,
        card_state_of(state) is Connecting <==> state is Connecting,
        card_state_of(state) is Verifying <==> state is Verifying || state is Confirming,
        card_state_of(state) is Transferring <==> state is Transferring,
        card_state_of(state) is Paused <==> state is Paused,
        card_state_of(state) is Unconfirmed <==> state is Unconfirmed,
        card_state_of(state) is Publishing <==> state is AwaitingPublication,
        card_state_of(state) is Completed <==> state is Completed,
        card_state_of(state) is Failed <==> state is Failed,
        card_state_of(state) is Canceled <==> state is Cancelled,
        is_driven_state(state) <==> state is Waiting || state is Connecting || state is Verifying
            || state is Transferring || state is Confirming,
        is_stored_state(state) <==> state is AwaitingPublication || state is Completed,
{
}

/// A card counts what its session counted, and goes by its transfer.
pub proof fn snapshots_count_for_the_card(
    card: ActivityView,
    snapshot: SnapshotView,
    path: Seq<char>,
    ts_ms: u64,
)
    ensures
        ({
            let after = card.after_snapshot(snapshot, path, ts_ms);
            let session = snapshot.session;
            &&& after.activity_id == card.activity_id
            &&& after.created_at_ms == card.created_at_ms
            &&& after.mode == card.mode
            &&& after.token == card.token
            &&& after.invite == card.invite
            &&& after.peer_descriptor == card.peer_descriptor
            &&& after.limits == card.limits
            &&& after.bytes_transferred == session.bytes
            &&& after.total_bytes == session.total
            &&& after.bytes_resumed == session.bytes_resumed
            &&& after.speed_bps == snapshot.speed_bps
            &&& after.average_speed_bps == snapshot.avg_bps
            &&& session.file_name matches Some(name) ==> after.file_name == name
            &&& session.file_name is None ==> after.file_name.len() == 0
            &&& !(session.state is Failed) ==> {
                &&& session.transfer_id matches Some(id) ==> after.transfer_id == id
                &&& after.attempt_id == "attempt-"@ + decimal(session.attempt as nat)
                &&& after.direction is Send <==> session.direction is Send
            }
            &&& session.path is None ==> after.data_path_kind == card.data_path_kind
                && after.data_path_detail == card.data_path_detail
            &&& session.path matches Some(taken) ==> after.data_path_kind == data_path_of(taken).0
                && after.data_path_detail == data_path_of(taken).1
            &&& card.started_at_ms != 0 ==> after.started_at_ms == card.started_at_ms
        }),
{
}

/// A card ends with its session, at the time of the snapshot, and only then.
pub proof fn snapshots_end_the_card_with_its_session(
    card: ActivityView,
    snapshot: SnapshotView,
    path: Seq<char>,
    ts_ms: u64,
)
    ensures
        ({
            let after = card.after_snapshot(snapshot, path, ts_ms);
            let state = snapshot.session.state;
            &&& state is Completed || state is Failed || state is Cancelled
                ==> after.completed_at_ms == ts_ms
            &&& !(state is Completed) && !(state is Failed) && !(state is Cancelled) && !(
            state is Preparing) ==> after.completed_at_ms == 0
            &&& is_stored_state(state) ==> after.completed_file_path == path
            &&& state is Confirming ==> after.is_finalizing()
            &&& state is AwaitingPublication ==> after.diagnostic_message == "publishing"@
            &&& state is Completed ==> after.diagnostic_message.len() == 0
            &&& state is Cancelled ==> after.failure_code is UserCanceled && !after.retryable
                && after.diagnostic_message == "canceled"@
        }),
{
}

/// A held card tells who held it, by its reason where there is one, and can always
/// be resumed.
pub proof fn held_cards_tell_who_held_them(
    card: ActivityView,
    origin: PauseOrigin,
    reason: Option<Seq<char>>,
)
    ensures
        ({
            let held = card.held(origin, reason);
            &&& held.state is Paused
            &&& held.retryable
            &&& held.recovery_action is Resume
            &&& held.failure_phase is Transferring
            &&& held.completed_at_ms == 0
            &&& held.activity_id == card.activity_id
            &&& held.bytes_transferred == card.bytes_transferred
            &&& held.failure_origin is Local <==> origin is Local
            &&& held.failure_origin is Peer <==> origin is Peer
            &&& held.failure_origin is Unknown <==> origin is Lost
            &&& held.failure_code is NetworkLost <==> origin is Lost
            &&& held.failure_code is UserCanceled <==> !(origin is Lost)
            &&& held.failure_category is Network <==> origin is Lost
            &&& held.failure_category is User <==> !(origin is Lost)
            &&& origin is Local ==> held.user_message_key == "transfer.paused"@
            &&& origin is Peer ==> held.user_message_key == "transfer.peer_paused"@
            &&& origin is Lost ==> held.user_message_key == "transfer.network_lost"@
            &&& reason matches Some(text) ==> held.diagnostic_message == text
            &&& reason is None && origin is Local ==> held.diagnostic_message == "paused"@
            &&& reason is None && origin is Peer ==> held.diagnostic_message == "paused by peer"@
            &&& reason is None && origin is Lost ==> held.diagnostic_message
                == "connection lost; partial retained"@
        }),
{
}

/// An unconfirmed delivery is neither ended nor lost: it can be resumed until its
/// receipt comes.
pub proof fn unconfirmed_cards_wait_for_their_receipt(card: ActivityView)
    ensures
        card.unconfirmed().state is Unconfirmed,
        card.unconfirmed().retryable,
        card.unconfirmed().recovery_action is Resume,
        card.unconfirmed().failure_code is NetworkLost,
        card.unconfirmed().failure_category is Network,
        card.unconfirmed().failure_phase is Acknowledging,
        card.unconfirmed().failure_origin is Unknown,
        card.unconfirmed().completed_at_ms == 0,
        card.unconfirmed().user_message_key == "transfer.delivery_unconfirmed"@,
        card.unconfirmed().diagnostic_message
            == "delivery unconfirmed; awaiting completion receipt"@,
        card.unconfirmed().activity_id == card.activity_id,
        card.unconfirmed().bytes_transferred == card.bytes_transferred,
{
}

/// A session that failed with a reason alone is told by its code: only a lost
/// connection and a pause can be resumed, and a cancellation is the side's that
/// canceled.
pub proof fn reasons_are_told_by_their_code(
    card: ActivityView,
    code: Option<SessionFailureCode>,
    reason: Option<Seq<char>>,
)
    ensures
        ({
            let told = card.with_reason(code, reason);
            &&& reason matches Some(text) ==> told.diagnostic_message == text
            &&& reason is None ==> told.diagnostic_message == "transfer failed"@
            &&& told.retryable <==> code is Some && (code->0 is ConnectionLost || code->0 is Paused
                || code->0 is PeerPaused)
            &&& told.recovery_action is Resume <==> told.retryable
            &&& told.recovery_action is NoAction <==> !told.retryable
            &&& told.failure_code is PeerCanceled <==> code is Some && code->0 is PeerCancelled
            &&& told.failure_code is NetworkLost <==> code is Some && code->0 is ConnectionLost
            &&& told.failure_code is UserCanceled <==> code is Some && (code->0 is Cancelled
                || code->0 is Paused || code->0 is PeerPaused)
            &&& told.failure_code is Unknown <==> code is None || code->0 is Other
            &&& told.failure_category is Network <==> code is Some && code->0 is ConnectionLost
            &&& told.failure_category is Unknown <==> code is None || code->0 is Other
            &&& told.failure_origin is Local <==> code is Some && (code->0 is Cancelled || code->0
                is Paused)
            &&& told.failure_origin is Peer <==> code is Some && (code->0 is PeerCancelled
                || code->0 is PeerPaused)
            &&& told.activity_id == card.activity_id
            &&& told.bytes_transferred == card.bytes_transferred
        }),
{
}

/// A session that failed with a failure of the engine is told by it; what the
/// failure does not name stays the card's.
pub proof fn engine_failures_reach_the_card(card: ActivityView, failure: EngineFailureView)
    ensures
        ({
            let told = card.with_engine_failure(failure);
            &&& told.retryable == failure.retryable
            &&& told.user_message_key == failure.user_message_key
            &&& told.diagnostic_message == failure.diagnostic_message
            &&& told.failure_code == failure_code_of(failure.code)
            &&& told.failure_category == failure_category_of(failure.category)
            &&& told.failure_phase == failure_phase_of(failure.phase)
            &&& told.failure_origin == failure_origin_of(failure.origin)
            &&& told.recovery_action == recovery_action_of(failure.recovery_action)
            &&& failure.transfer_id matches Some(id) ==> told.transfer_id == id
            &&& failure.transfer_id is None ==> told.transfer_id == card.transfer_id
            &&& failure.attempt_id matches Some(id) ==> told.attempt_id == id
            &&& failure.attempt_id is None ==> told.attempt_id == card.attempt_id
            &&& failure.direction is None ==> told.direction == card.direction
            &&& failure.direction is Some ==> (told.direction is Send <==> failure.direction->0
                is Send)
            &&& told.activity_id == card.activity_id
        }),
        forall|session: SessionView| #[trigger]
            card.with_session_failure(session) == if session.failure is Some {
                card.with_engine_failure(session.failure->0)
            } else {
                card.with_reason(session.reason_code, session.reason)
            },
{
}

/// A file is shown where it was saved: where the session says, else under its name
/// in the receiver's directory, else nowhere.
pub proof fn completed_files_are_shown_where_they_are(
    context: ContextView,
    session: SessionView,
    path: Seq<char>,
)
    requires
        is_completed_path(context, session, path),
    ensures
        session.completed_file_path matches Some(known) ==> path == known,
        session.completed_file_path is None && context.params.direction is Send ==> path.len() == 0,
        session.completed_file_path is None && session.file_name is None ==> path.len() == 0,
        session.completed_file_path is None && context.params.direction is Receive ==> (
        session.file_name matches Some(name) ==> is_joined_path(context.params.path, name, path)),
{
}

/// A card starts with the first snapshot of a known transfer that moves, checks,
/// confirms or has stored its content; until then it has not started.
pub proof fn cards_start_with_their_transfer(
    card: ActivityView,
    snapshot: SnapshotView,
    path: Seq<char>,
    ts_ms: u64,
)
    requires
        card.started_at_ms == 0,
    ensures
        ({
            let state = snapshot.session.state;
            let moves = state is Verifying || state is Transferring || state is Confirming
                || state is AwaitingPublication || state is Completed;
            &&& moves && snapshot.session.transfer_id is Some ==> card.after_snapshot(
                snapshot,
                path,
                ts_ms,
            ).started_at_ms == ts_ms
            &&& !moves || snapshot.session.transfer_id is None ==> card.after_snapshot(
                snapshot,
                path,
                ts_ms,
            ).started_at_ms == 0
        }),
{
}

/// A line that a card shows stays while its session is driven on, and goes when the
/// card was settled before.
pub proof fn driven_cards_keep_their_line(
    card: ActivityView,
    snapshot: SnapshotView,
    path: Seq<char>,
    ts_ms: u64,
)
    requires
        snapshot.session.state is Waiting || snapshot.session.state is Connecting
            || snapshot.session.state is Verifying || snapshot.session.state is Transferring,
    ensures
        card.state is Paused || card.state is Unconfirmed || card.state is Publishing
            || card.state is Failed || card.state is Canceled || card.state is Completed
            ==> card.after_snapshot(snapshot, path, ts_ms).diagnostic_message.len() == 0,
        card.state is Queued || card.state is Binding || card.state is WaitingForPeer
            || card.state is Pairing || card.state is Connecting || card.state is Transferring
            || card.state is Verifying ==> card.after_snapshot(
            snapshot,
            path,
            ts_ms,
        ).diagnostic_message == card.diagnostic_message,
        card.after_snapshot(snapshot, path, ts_ms).completed_file_path.len() == 0,
{
}

} // verus!
