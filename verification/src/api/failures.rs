//! Classification of failed sessions: what clients are told of the engine's
//! errors, and what can be done about them.
use vstd::prelude::*;

use crate::api::types::{
    FailureView, FfiFailureCategory, FfiFailureCode, FfiFailureOutcome, FfiFailurePhase,
    FfiFailureSessionDisposition, FfiRecoveryAction, FfiTransferDirection, FfiTransferFailure,
};
use crate::common::FfiFailureOrigin;
use crate::text::same_text;

verus! {

/// Why the rendezvous broker refuses a room.
#[derive(Clone, Copy, Debug, PartialEq, Eq, Structural)]
pub enum RendezvousCause {
    RoomNotFound,
    RoomExpired,
    RoomFull,
    RoomRateLimited,
    RoomUnderAttack,
    EndpointRateLimited,
    IpRateLimited,
    ServerBusy,
    MalformedJoin,
    UnsupportedVersion,
}

/// What a session failed with.
#[derive(Debug, PartialEq, Eq)]
pub enum SessionCause {
    /// A cause that the peers agreed on, by its code.
    Cause { code: String, detail: String },
    Rendezvous { cause: RendezvousCause, retry_after: Option<u64> },
    Cancelled,
    Transport { detail: String },
    Discovery { detail: String },
    Crypto { detail: String },
    Protocol { detail: String },
    Io { detail: String },
    Storage { detail: String },
    InvalidInput { detail: String },
    Transfer { detail: String },
}

/// What a [`SessionCause`] holds.
#[verifier::ext_equal]
pub enum SessionCauseView {
    Cause { code: Seq<char>, detail: Seq<char> },
    Rendezvous { cause: RendezvousCause, retry_after: Option<u64> },
    Cancelled,
    Transport { detail: Seq<char> },
    Discovery { detail: Seq<char> },
    Crypto { detail: Seq<char> },
    Protocol { detail: Seq<char> },
    Io { detail: Seq<char> },
    Storage { detail: Seq<char> },
    InvalidInput { detail: Seq<char> },
    Transfer { detail: Seq<char> },
}

impl View for SessionCause {
    type V = SessionCauseView;

    open spec fn view(&self) -> SessionCauseView {
        match *self {
            SessionCause::Cause { code, detail } => SessionCauseView::Cause { code: code@, detail: detail@ },
            SessionCause::Rendezvous { cause, retry_after } => SessionCauseView::Rendezvous { cause, retry_after },
            SessionCause::Cancelled => SessionCauseView::Cancelled,
            SessionCause::Transport { detail } => SessionCauseView::Transport { detail: detail@ },
            SessionCause::Discovery { detail } => SessionCauseView::Discovery { detail: detail@ },
            SessionCause::Crypto { detail } => SessionCauseView::Crypto { detail: detail@ },
            SessionCause::Protocol { detail } => SessionCauseView::Protocol { detail: detail@ },
            SessionCause::Io { detail } => SessionCauseView::Io { detail: detail@ },
            SessionCause::Storage { detail } => SessionCauseView::Storage { detail: detail@ },
            SessionCause::InvalidInput { detail } => SessionCauseView::InvalidInput { detail: detail@ },
            SessionCause::Transfer { detail } => SessionCauseView::Transfer { detail: detail@ },
        }
    }
}

impl Clone for SessionCause {
    fn clone(&self) -> (r: Self)
        ensures
            r == *self,
    {
        match self {
            SessionCause::Cause { code, detail } => SessionCause::Cause { code: code.clone(), detail: detail.clone() },
            SessionCause::Rendezvous { cause, retry_after } => SessionCause::Rendezvous { cause: *cause, retry_after: *retry_after },
            SessionCause::Cancelled => SessionCause::Cancelled,
            SessionCause::Transport { detail } => SessionCause::Transport { detail: detail.clone() },
            SessionCause::Discovery { detail } => SessionCause::Discovery { detail: detail.clone() },
            SessionCause::Crypto { detail } => SessionCause::Crypto { detail: detail.clone() },
            SessionCause::Protocol { detail } => SessionCause::Protocol { detail: detail.clone() },
            SessionCause::Io { detail } => SessionCause::Io { detail: detail.clone() },
            SessionCause::Storage { detail } => SessionCause::Storage { detail: detail.clone() },
            SessionCause::InvalidInput { detail } => SessionCause::InvalidInput { detail: detail.clone() },
            SessionCause::Transfer { detail } => SessionCause::Transfer { detail: detail.clone() },
        }
    }
}

/// A failed session.
#[derive(Debug, PartialEq, Eq)]
pub struct SessionError {
    pub cause: SessionCause,
    /// Whether the failure came after a one-time invitation was used up.
    pub invitation_consumed: bool,
}

/// What a [`SessionError`] holds.
#[verifier::ext_equal]
pub struct SessionErrorView {
    pub cause: SessionCauseView,
    pub invitation_consumed: bool,
}

impl View for SessionError {
    type V = SessionErrorView;

    open spec fn view(&self) -> SessionErrorView {
        SessionErrorView {
            cause: self.cause@,
            invitation_consumed: self.invitation_consumed,
        }
    }
}

impl Clone for SessionError {
    fn clone(&self) -> (r: Self)
        ensures
            r == *self,
    {
        SessionError {
            cause: self.cause.clone(),
            invitation_consumed: self.invitation_consumed,
        }
    }
}

/// What a cause means for clients.
#[derive(Clone, Copy, Debug, PartialEq, Eq)]
pub struct CauseProjection {
    pub code: FfiFailureCode,
    pub category: FfiFailureCategory,
    pub phase: FfiFailurePhase,
    pub origin: FfiFailureOrigin,
    pub retryable: bool,
    pub recovery_action: FfiRecoveryAction,
    pub message_key: &'static str,
}

/// What a [`CauseProjection`] holds.
#[verifier::ext_equal]
pub struct ProjectionView {
    pub code: FfiFailureCode,
    pub category: FfiFailureCategory,
    pub phase: FfiFailurePhase,
    pub origin: FfiFailureOrigin,
    pub retryable: bool,
    pub recovery_action: FfiRecoveryAction,
    pub message_key: Seq<char>,
}

impl View for CauseProjection {
    type V = ProjectionView;

    open spec fn view(&self) -> ProjectionView {
        ProjectionView {
            code: self.code,
            category: self.category,
            phase: self.phase,
            origin: self.origin,
            retryable: self.retryable,
            recovery_action: self.recovery_action,
            message_key: self.message_key@,
        }
    }
}

/// The recovery that clients are offered for a failed local file operation.
pub open spec fn io_recovery(direction: FfiTransferDirection) -> FfiRecoveryAction {
    match direction {
        FfiTransferDirection::Receive => FfiRecoveryAction::Resume,
        FfiTransferDirection::Send => FfiRecoveryAction::Retry,
    }
}

/// The recovery that clients are offered for a failed local file operation: a
/// receiver resumes, a sender tries again.
pub fn io_failure_recovery(direction: FfiTransferDirection) -> (r: FfiRecoveryAction)
    ensures
        r == io_recovery(direction),
{
    if direction == FfiTransferDirection::Receive {
        FfiRecoveryAction::Resume
    } else {
        FfiRecoveryAction::Retry
    }
}

/// What a refusal of the rendezvous broker means for clients.
pub open spec fn rendezvous_cause_of(cause: RendezvousCause) -> ProjectionView {
    match cause {
        RendezvousCause::RoomNotFound => ProjectionView {
            code: FfiFailureCode::RoomNotFound,
            category: FfiFailureCategory::Network,
            phase: FfiFailurePhase::Pairing,
            origin: FfiFailureOrigin::Unknown,
            retryable: true,
            recovery_action: FfiRecoveryAction::Retry,
            message_key: "transfer.room_not_found"@,
        },
        RendezvousCause::RoomExpired => ProjectionView {
            code: FfiFailureCode::RoomExpired,
            category: FfiFailureCategory::Network,
            phase: FfiFailurePhase::Pairing,
            origin: FfiFailureOrigin::Unknown,
            retryable: true,
            recovery_action: FfiRecoveryAction::RePair,
            message_key: "transfer.room_expired"@,
        },
        RendezvousCause::RoomFull => ProjectionView {
            code: FfiFailureCode::RoomFull,
            category: FfiFailureCategory::Network,
            phase: FfiFailurePhase::Pairing,
            origin: FfiFailureOrigin::Unknown,
            retryable: true,
            recovery_action: FfiRecoveryAction::Retry,
            message_key: "transfer.room_full"@,
        },
        RendezvousCause::RoomRateLimited => ProjectionView {
            code: FfiFailureCode::RoomRateLimited,
            category: FfiFailureCategory::Network,
            phase: FfiFailurePhase::Pairing,
            origin: FfiFailureOrigin::Unknown,
            retryable: true,
            recovery_action: FfiRecoveryAction::Retry,
            message_key: "transfer.room_rate_limited"@,
        },
        RendezvousCause::RoomUnderAttack => ProjectionView {
            code: FfiFailureCode::RoomUnderAttack,
            category: FfiFailureCategory::Network,
            phase: FfiFailurePhase::Pairing,
            origin: FfiFailureOrigin::Unknown,
            retryable: true,
            recovery_action: FfiRecoveryAction::RePair,
            message_key: "transfer.room_under_attack"@,
        },
        RendezvousCause::EndpointRateLimited => ProjectionView {
            code: FfiFailureCode::EndpointRateLimited,
            category: FfiFailureCategory::Network,
            phase: FfiFailurePhase::Pairing,
            origin: FfiFailureOrigin::Unknown,
            retryable: true,
            recovery_action: FfiRecoveryAction::Retry,
            message_key: "transfer.endpoint_rate_limited"@,
        },
        RendezvousCause::IpRateLimited => ProjectionView {
            code: FfiFailureCode::IpRateLimited,
            category: FfiFailureCategory::Network,
            phase: FfiFailurePhase::Pairing,
            origin: FfiFailureOrigin::Unknown,
            retryable: true,
            recovery_action: FfiRecoveryAction::Retry,
            message_key: "transfer.ip_rate_limited"@,
        },
        RendezvousCause::ServerBusy => ProjectionView {
            code: FfiFailureCode::ServerBusy,
            category: FfiFailureCategory::Network,
            phase: FfiFailurePhase::Pairing,
            origin: FfiFailureOrigin::Unknown,
            retryable: true,
            recovery_action: FfiRecoveryAction::Retry,
            message_key: "transfer.server_busy"@,
        },
        RendezvousCause::MalformedJoin => ProjectionView {
            code: FfiFailureCode::MalformedJoin,
            category: FfiFailureCategory::Unsupported,
            phase: FfiFailurePhase::Pairing,
            origin: FfiFailureOrigin::Unknown,
            retryable: false,
            recovery_action: FfiRecoveryAction::NoAction,
            message_key: "transfer.malformed_join"@,
        },
        RendezvousCause::UnsupportedVersion => ProjectionView {
            code: FfiFailureCode::UnsupportedRendezvousVersion,
            category: FfiFailureCategory::Unsupported,
            phase: FfiFailurePhase::Pairing,
            origin: FfiFailureOrigin::Unknown,
            retryable: false,
            recovery_action: FfiRecoveryAction::NoAction,
            message_key: "transfer.unsupported_rendezvous_version"@,
        },
    }
}

/// What a refusal of the rendezvous broker means for clients. It is told by
/// its kind alone.
pub fn rendezvous_cause_projection(cause: RendezvousCause) -> (r: CauseProjection)
    ensures
        r@ == rendezvous_cause_of(cause),
{
    match cause {
        RendezvousCause::RoomNotFound => CauseProjection {
            code: FfiFailureCode::RoomNotFound,
            category: FfiFailureCategory::Network,
            phase: FfiFailurePhase::Pairing,
            origin: FfiFailureOrigin::Unknown,
            retryable: true,
            recovery_action: FfiRecoveryAction::Retry,
            message_key: "transfer.room_not_found",
        },
        RendezvousCause::RoomExpired => CauseProjection {
            code: FfiFailureCode::RoomExpired,
            category: FfiFailureCategory::Network,
            phase: FfiFailurePhase::Pairing,
            origin: FfiFailureOrigin::Unknown,
            retryable: true,
            recovery_action: FfiRecoveryAction::RePair,
            message_key: "transfer.room_expired",
        },
        RendezvousCause::RoomFull => CauseProjection {
            code: FfiFailureCode::RoomFull,
            category: FfiFailureCategory::Network,
            phase: FfiFailurePhase::Pairing,
            origin: FfiFailureOrigin::Unknown,
            retryable: true,
            recovery_action: FfiRecoveryAction::Retry,
            message_key: "transfer.room_full",
        },
        RendezvousCause::RoomRateLimited => CauseProjection {
            code: FfiFailureCode::RoomRateLimited,
            category: FfiFailureCategory::Network,
            phase: FfiFailurePhase::Pairing,
            origin: FfiFailureOrigin::Unknown,
            retryable: true,
            recovery_action: FfiRecoveryAction::Retry,
            message_key: "transfer.room_rate_limited",
        },
        RendezvousCause::RoomUnderAttack => CauseProjection {
            code: FfiFailureCode::RoomUnderAttack,
            category: FfiFailureCategory::Network,
            phase: FfiFailurePhase::Pairing,
            origin: FfiFailureOrigin::Unknown,
            retryable: true,
            recovery_action: FfiRecoveryAction::RePair,
            message_key: "transfer.room_under_attack",
        },
        RendezvousCause::EndpointRateLimited => CauseProjection {
            code: FfiFailureCode::EndpointRateLimited,
            category: FfiFailureCategory::Network,
            phase: FfiFailurePhase::Pairing,
            origin: FfiFailureOrigin::Unknown,
            retryable: true,
            recovery_action: FfiRecoveryAction::Retry,
            message_key: "transfer.endpoint_rate_limited",
        },
        RendezvousCause::IpRateLimited => CauseProjection {
            code: FfiFailureCode::IpRateLimited,
            category: FfiFailureCategory::Network,
            phase: FfiFailurePhase::Pairing,
            origin: FfiFailureOrigin::Unknown,
            retryable: true,
            recovery_action: FfiRecoveryAction::Retry,
            message_key: "transfer.ip_rate_limited",
        },
        RendezvousCause::ServerBusy => CauseProjection {
            code: FfiFailureCode::ServerBusy,
            category: FfiFailureCategory::Network,
            phase: FfiFailurePhase::Pairing,
            origin: FfiFailureOrigin::Unknown,
            retryable: true,
            recovery_action: FfiRecoveryAction::Retry,
            message_key: "transfer.server_busy",
        },
        RendezvousCause::MalformedJoin => CauseProjection {
            code: FfiFailureCode::MalformedJoin,
            category: FfiFailureCategory::Unsupported,
            phase: FfiFailurePhase::Pairing,
            origin: FfiFailureOrigin::Unknown,
            retryable: false,
            recovery_action: FfiRecoveryAction::NoAction,
            message_key: "transfer.malformed_join",
        },
        RendezvousCause::UnsupportedVersion => CauseProjection {
            code: FfiFailureCode::UnsupportedRendezvousVersion,
            category: FfiFailureCategory::Unsupported,
            phase: FfiFailurePhase::Pairing,
            origin: FfiFailureOrigin::Unknown,
            retryable: false,
            recovery_action: FfiRecoveryAction::NoAction,
            message_key: "transfer.unsupported_rendezvous_version",
        },
    }
}

/// What a cause that the peers agreed on means for clients.
pub open spec fn manifest_cause_of(cause: Seq<char>) -> ProjectionView {
    if cause == "sender_source_unavailable"@ {
        ProjectionView {
            code: FfiFailureCode::SenderSourceUnavailable,
            category: FfiFailureCategory::Storage,
            phase: FfiFailurePhase::Transferring,
            origin: FfiFailureOrigin::Local,
            retryable: true,
            recovery_action: FfiRecoveryAction::Retry,
            message_key: "transfer.sender_source_unavailable"@,
        }
    } else if cause == "sender_permission_lost"@ {
        ProjectionView {
            code: FfiFailureCode::SenderPermissionLost,
            category: FfiFailureCategory::Permission,
            phase: FfiFailurePhase::Transferring,
            origin: FfiFailureOrigin::Local,
            retryable: true,
            recovery_action: FfiRecoveryAction::OpenSettings,
            message_key: "transfer.sender_permission_lost"@,
        }
    } else if cause == "sender_source_changed"@ {
        ProjectionView {
            code: FfiFailureCode::SenderSourceChanged,
            category: FfiFailureCategory::Integrity,
            phase: FfiFailurePhase::Verifying,
            origin: FfiFailureOrigin::Local,
            retryable: true,
            recovery_action: FfiRecoveryAction::Retry,
            message_key: "transfer.sender_source_changed"@,
        }
    } else if cause == "sender_item_removed"@ {
        ProjectionView {
            code: FfiFailureCode::SenderItemRemoved,
            category: FfiFailureCategory::User,
            phase: FfiFailurePhase::Transferring,
            origin: FfiFailureOrigin::Local,
            retryable: false,
            recovery_action: FfiRecoveryAction::NoAction,
            message_key: "transfer.sender_item_removed"@,
        }
    } else if cause == "sender_canceled"@ {
        ProjectionView {
            code: FfiFailureCode::SenderCanceled,
            category: FfiFailureCategory::User,
            phase: FfiFailurePhase::Transferring,
            origin: FfiFailureOrigin::Local,
            retryable: false,
            recovery_action: FfiRecoveryAction::NoAction,
            message_key: "transfer.sender_canceled"@,
        }
    } else if cause == "receiver_space_insufficient"@ {
        ProjectionView {
            code: FfiFailureCode::ReceiverSpaceInsufficient,
            category: FfiFailureCategory::Storage,
            phase: FfiFailurePhase::Negotiating,
            origin: FfiFailureOrigin::Local,
            retryable: true,
            recovery_action: FfiRecoveryAction::ChooseFolder,
            message_key: "transfer.receiver_space_insufficient"@,
        }
    } else if cause == "receiver_destination_decision_required"@ {
        ProjectionView {
            code: FfiFailureCode::ReceiverDestinationDecisionRequired,
            category: FfiFailureCategory::Storage,
            phase: FfiFailurePhase::Negotiating,
            origin: FfiFailureOrigin::Local,
            retryable: true,
            recovery_action: FfiRecoveryAction::ChooseFolder,
            message_key: "transfer.receiver_destination_decision_required"@,
        }
    } else if cause == "receiver_destination_unavailable"@ {
        ProjectionView {
            code: FfiFailureCode::ReceiverDestinationUnavailable,
            category: FfiFailureCategory::Storage,
            phase: FfiFailurePhase::Committing,
            origin: FfiFailureOrigin::Local,
            retryable: true,
            recovery_action: FfiRecoveryAction::ChooseFolder,
            message_key: "transfer.receiver_destination_unavailable"@,
        }
    } else if cause == "receiver_save_failed"@ {
        ProjectionView {
            code: FfiFailureCode::ReceiverSaveFailed,
            category: FfiFailureCategory::Storage,
            phase: FfiFailurePhase::Committing,
            origin: FfiFailureOrigin::Local,
            retryable: true,
            recovery_action: FfiRecoveryAction::Resume,
            message_key: "transfer.receiver_save_failed"@,
        }
    } else if cause == "receiver_reused_object_lost"@ {
        ProjectionView {
            code: FfiFailureCode::ReceiverReusedObjectLost,
            category: FfiFailureCategory::Storage,
            phase: FfiFailurePhase::Committing,
            origin: FfiFailureOrigin::Local,
            retryable: true,
            recovery_action: FfiRecoveryAction::Resume,
            message_key: "transfer.receiver_reused_object_lost"@,
        }
    } else if cause == "receiver_finalization_outcome_unknown"@ {
        ProjectionView {
            code: FfiFailureCode::ReceiverFinalizationOutcomeUnknown,
            category: FfiFailureCategory::Storage,
            phase: FfiFailurePhase::Committing,
            origin: FfiFailureOrigin::Local,
            retryable: true,
            recovery_action: FfiRecoveryAction::Resume,
            message_key: "transfer.receiver_finalization_outcome_unknown"@,
        }
    } else {
        ProjectionView {
            code: FfiFailureCode::ProtocolOrIntegrityFailure,
            category: FfiFailureCategory::Integrity,
            phase: FfiFailurePhase::Verifying,
            origin: FfiFailureOrigin::Unknown,
            retryable: false,
            recovery_action: FfiRecoveryAction::NoAction,
            message_key: "transfer.protocol_or_integrity_failure"@,
        }
    }
}

/// What a cause that the peers agreed on means for clients; an unknown code
/// reads as a protocol failure.
pub fn manifest_v2_cause_projection(cause: &str) -> (r: CauseProjection)
    ensures
        r@ == manifest_cause_of(cause@),
{
    if same_text(cause, "sender_source_unavailable") {
        CauseProjection {
            code: FfiFailureCode::SenderSourceUnavailable,
            category: FfiFailureCategory::Storage,
            phase: FfiFailurePhase::Transferring,
            origin: FfiFailureOrigin::Local,
            retryable: true,
            recovery_action: FfiRecoveryAction::Retry,
            message_key: "transfer.sender_source_unavailable",
        }
    } else if same_text(cause, "sender_permission_lost") {
        CauseProjection {
            code: FfiFailureCode::SenderPermissionLost,
            category: FfiFailureCategory::Permission,
            phase: FfiFailurePhase::Transferring,
            origin: FfiFailureOrigin::Local,
            retryable: true,
            recovery_action: FfiRecoveryAction::OpenSettings,
            message_key: "transfer.sender_permission_lost",
        }
    } else if same_text(cause, "sender_source_changed") {
        CauseProjection {
            code: FfiFailureCode::SenderSourceChanged,
            category: FfiFailureCategory::Integrity,
            phase: FfiFailurePhase::Verifying,
            origin: FfiFailureOrigin::Local,
            retryable: true,
            recovery_action: FfiRecoveryAction::Retry,
            message_key: "transfer.sender_source_changed",
        }
    } else if same_text(cause, "sender_item_removed") {
        CauseProjection {
            code: FfiFailureCode::SenderItemRemoved,
            category: FfiFailureCategory::User,
            phase: FfiFailurePhase::Transferring,
            origin: FfiFailureOrigin::Local,
            retryable: false,
            recovery_action: FfiRecoveryAction::NoAction,
            message_key: "transfer.sender_item_removed",
        }
    } else if same_text(cause, "sender_canceled") {
        CauseProjection {
            code: FfiFailureCode::SenderCanceled,
            category: FfiFailureCategory::User,
            phase: FfiFailurePhase::Transferring,
            origin: FfiFailureOrigin::Local,
            retryable: false,
            recovery_action: FfiRecoveryAction::NoAction,
            message_key: "transfer.sender_canceled",
        }
    } else if same_text(cause, "receiver_space_insufficient") {
        CauseProjection {
            code: FfiFailureCode::ReceiverSpaceInsufficient,
            category: FfiFailureCategory::Storage,
            phase: FfiFailurePhase::Negotiating,
            origin: FfiFailureOrigin::Local,
            retryable: true,
            recovery_action: FfiRecoveryAction::ChooseFolder,
            message_key: "transfer.receiver_space_insufficient",
        }
    } else if same_text(cause, "receiver_destination_decision_required") {
        CauseProjection {
            code: FfiFailureCode::ReceiverDestinationDecisionRequired,
            category: FfiFailureCategory::Storage,
            phase: FfiFailurePhase::Negotiating,
            origin: FfiFailureOrigin::Local,
            retryable: true,
            recovery_action: FfiRecoveryAction::ChooseFolder,
            message_key: "transfer.receiver_destination_decision_required",
        }
    } else if same_text(cause, "receiver_destination_unavailable") {
        CauseProjection {
            code: FfiFailureCode::ReceiverDestinationUnavailable,
            category: FfiFailureCategory::Storage,
            phase: FfiFailurePhase::Committing,
            origin: FfiFailureOrigin::Local,
            retryable: true,
            recovery_action: FfiRecoveryAction::ChooseFolder,
            message_key: "transfer.receiver_destination_unavailable",
        }
    } else if same_text(cause, "receiver_save_failed") {
        CauseProjection {
            code: FfiFailureCode::ReceiverSaveFailed,
            category: FfiFailureCategory::Storage,
            phase: FfiFailurePhase::Committing,
            origin: FfiFailureOrigin::Local,
            retryable: true,
            recovery_action: FfiRecoveryAction::Resume,
            message_key: "transfer.receiver_save_failed",
        }
    } else if same_text(cause, "receiver_reused_object_lost") {
        CauseProjection {
            code: FfiFailureCode::ReceiverReusedObjectLost,
            category: FfiFailureCategory::Storage,
            phase: FfiFailurePhase::Committing,
            origin: FfiFailureOrigin::Local,
            retryable: true,
            recovery_action: FfiRecoveryAction::Resume,
            message_key: "transfer.receiver_reused_object_lost",
        }
    } else if same_text(cause, "receiver_finalization_outcome_unknown") {
        CauseProjection {
            code: FfiFailureCode::ReceiverFinalizationOutcomeUnknown,
            category: FfiFailureCategory::Storage,
            phase: FfiFailurePhase::Committing,
            origin: FfiFailureOrigin::Local,
            retryable: true,
            recovery_action: FfiRecoveryAction::Resume,
            message_key: "transfer.receiver_finalization_outcome_unknown",
        }
    } else {
        CauseProjection {
            code: FfiFailureCode::ProtocolOrIntegrityFailure,
            category: FfiFailureCategory::Integrity,
            phase: FfiFailurePhase::Verifying,
            origin: FfiFailureOrigin::Unknown,
            retryable: false,
            recovery_action: FfiRecoveryAction::NoAction,
            message_key: "transfer.protocol_or_integrity_failure",
        }
    }
}

/// What a session failure means for clients, before an invitation that was
/// used up is taken into account.
pub open spec fn session_cause_of(
    cause: SessionCauseView,
    direction: FfiTransferDirection,
    fallback_phase: FfiFailurePhase,
) -> ProjectionView {
    match cause {
        SessionCauseView::Cause { code, .. } => manifest_cause_of(code),
        SessionCauseView::Rendezvous { cause, .. } => rendezvous_cause_of(cause),
        SessionCauseView::Cancelled => ProjectionView {
            code: FfiFailureCode::UserCanceled,
            category: FfiFailureCategory::User,
            phase: fallback_phase,
            origin: FfiFailureOrigin::Local,
            retryable: false,
            recovery_action: FfiRecoveryAction::NoAction,
            message_key: "transfer.user_canceled"@,
        },
        SessionCauseView::Transport { .. } | SessionCauseView::Discovery { .. } => ProjectionView {
            code: FfiFailureCode::NetworkLost,
            category: FfiFailureCategory::Network,
            phase: fallback_phase,
            origin: FfiFailureOrigin::Unknown,
            retryable: true,
            recovery_action: FfiRecoveryAction::Resume,
            message_key: "transfer.network_lost"@,
        },
        SessionCauseView::Crypto { .. } => ProjectionView {
            code: FfiFailureCode::AuthenticationFailed,
            category: FfiFailureCategory::Authentication,
            phase: FfiFailurePhase::Authenticating,
            origin: FfiFailureOrigin::Unknown,
            retryable: true,
            recovery_action: FfiRecoveryAction::RePair,
            message_key: "transfer.authentication_failed"@,
        },
        SessionCauseView::Protocol { .. } => ProjectionView {
            code: FfiFailureCode::ProtocolOrIntegrityFailure,
            category: FfiFailureCategory::Integrity,
            phase: FfiFailurePhase::Verifying,
            origin: FfiFailureOrigin::Unknown,
            retryable: false,
            recovery_action: FfiRecoveryAction::NoAction,
            message_key: "transfer.protocol_or_integrity_failure"@,
        },
        SessionCauseView::Io { .. } | SessionCauseView::Storage { .. } => ProjectionView {
            code: match direction {
                FfiTransferDirection::Receive => FfiFailureCode::ReceiverSaveFailed,
                FfiTransferDirection::Send => FfiFailureCode::SenderSourceUnavailable,
            },
            category: FfiFailureCategory::Storage,
            phase: fallback_phase,
            origin: FfiFailureOrigin::Local,
            retryable: true,
            recovery_action: io_recovery(direction),
            message_key: match direction {
                FfiTransferDirection::Receive => "transfer.receiver_save_failed"@,
                FfiTransferDirection::Send => "transfer.sender_source_unavailable"@,
            },
        },
        SessionCauseView::InvalidInput { .. } => ProjectionView {
            code: FfiFailureCode::UnsupportedFeature,
            category: FfiFailureCategory::Unsupported,
            phase: fallback_phase,
            origin: FfiFailureOrigin::Local,
            retryable: false,
            recovery_action: FfiRecoveryAction::NoAction,
            message_key: "transfer.unsupported_feature"@,
        },
        SessionCauseView::Transfer { .. } => ProjectionView {
            code: FfiFailureCode::InternalError,
            category: FfiFailureCategory::Internal,
            phase: fallback_phase,
            origin: FfiFailureOrigin::Unknown,
            retryable: true,
            recovery_action: FfiRecoveryAction::Retry,
            message_key: "transfer.internal_error"@,
        },
    }
}

/// What a session failure means for clients, before an invitation that was
/// used up is taken into account.
pub fn session_cause_projection(
    cause: &SessionCause,
    direction: FfiTransferDirection,
    fallback_phase: FfiFailurePhase,
) -> (r: CauseProjection)
    ensures
        r@ == session_cause_of(cause@, direction, fallback_phase),
{
    match cause {
        SessionCause::Cause { code, .. } => manifest_v2_cause_projection(code.as_str()),
        SessionCause::Rendezvous { cause, .. } => rendezvous_cause_projection(*cause),
        SessionCause::Cancelled => CauseProjection {
            code: FfiFailureCode::UserCanceled,
            category: FfiFailureCategory::User,
            phase: fallback_phase,
            origin: FfiFailureOrigin::Local,
            retryable: false,
            recovery_action: FfiRecoveryAction::NoAction,
            message_key: "transfer.user_canceled",
        },
        SessionCause::Transport { .. } | SessionCause::Discovery { .. } => CauseProjection {
            code: FfiFailureCode::NetworkLost,
            category: FfiFailureCategory::Network,
            phase: fallback_phase,
            origin: FfiFailureOrigin::Unknown,
            retryable: true,
            recovery_action: FfiRecoveryAction::Resume,
            message_key: "transfer.network_lost",
        },
        SessionCause::Crypto { .. } => CauseProjection {
            code: FfiFailureCode::AuthenticationFailed,
            category: FfiFailureCategory::Authentication,
            phase: FfiFailurePhase::Authenticating,
            origin: FfiFailureOrigin::Unknown,
            retryable: true,
            recovery_action: FfiRecoveryAction::RePair,
            message_key: "transfer.authentication_failed",
        },
        SessionCause::Protocol { .. } => CauseProjection {
            code: FfiFailureCode::ProtocolOrIntegrityFailure,
            category: FfiFailureCategory::Integrity,
            phase: FfiFailurePhase::Verifying,
            origin: FfiFailureOrigin::Unknown,
            retryable: false,
            recovery_action: FfiRecoveryAction::NoAction,
            message_key: "transfer.protocol_or_integrity_failure",
        },
        SessionCause::Io { .. } | SessionCause::Storage { .. } => CauseProjection {
            code: if direction == FfiTransferDirection::Receive {
                FfiFailureCode::ReceiverSaveFailed
            } else {
                FfiFailureCode::SenderSourceUnavailable
            },
            category: FfiFailureCategory::Storage,
            phase: fallback_phase,
            origin: FfiFailureOrigin::Local,
            retryable: true,
            recovery_action: io_failure_recovery(direction),
            message_key: if direction == FfiTransferDirection::Receive {
                "transfer.receiver_save_failed"
            } else {
                "transfer.sender_source_unavailable"
            },
        },
        SessionCause::InvalidInput { .. } => CauseProjection {
            code: FfiFailureCode::UnsupportedFeature,
            category: FfiFailureCategory::Unsupported,
            phase: fallback_phase,
            origin: FfiFailureOrigin::Local,
            retryable: false,
            recovery_action: FfiRecoveryAction::NoAction,
            message_key: "transfer.unsupported_feature",
        },
        SessionCause::Transfer { .. } => CauseProjection {
            code: FfiFailureCode::InternalError,
            category: FfiFailureCategory::Internal,
            phase: fallback_phase,
            origin: FfiFailureOrigin::Unknown,
            retryable: true,
            recovery_action: FfiRecoveryAction::Retry,
            message_key: "transfer.internal_error",
        },
    }
}

/// What becomes of the transfer and its session, as the engine tells beside an
/// error.
#[derive(Clone, Copy, Debug, PartialEq, Eq, Structural)]
pub struct FailureVerdict {
    pub outcome: FfiFailureOutcome,
    pub session_disposition: FfiFailureSessionDisposition,
}

/// The failure that clients are told of.
pub open spec fn reported_failure(
    error: SessionErrorView,
    rendered: Seq<char>,
    verdict: FailureVerdict,
    direction: FfiTransferDirection,
    fallback_phase: FfiFailurePhase,
) -> FailureView {
    let shown = session_cause_of(error.cause, direction, fallback_phase);
    FailureView {
        code: shown.code,
        category: shown.category,
        phase: shown.phase,
        origin: shown.origin,
        direction,
        retryable: shown.retryable,
        recovery_action: if error.invitation_consumed && shown.retryable {
            FfiRecoveryAction::RePair
        } else {
            shown.recovery_action
        },
        outcome: verdict.outcome,
        session_disposition: verdict.session_disposition,
        user_message_key: shown.message_key,
        diagnostic_message: rendered,
    }
}

/// The failure that clients are told of. `rendered` is the engine's text of
/// the error. Where a one-time invitation was used up, trying again takes a
/// new pairing.
pub fn report_v2_failure(
    error: &SessionError,
    rendered: &str,
    verdict: FailureVerdict,
    direction: FfiTransferDirection,
    fallback_phase: FfiFailurePhase,
) -> (r: FfiTransferFailure)
    ensures
        r@ == reported_failure(error@, rendered@, verdict, direction, fallback_phase),
{
    let shown = session_cause_projection(&error.cause, direction, fallback_phase);
    FfiTransferFailure {
        code: shown.code,
        category: shown.category,
        phase: shown.phase,
        origin: shown.origin,
        direction,
        retryable: shown.retryable,
        recovery_action: if error.invitation_consumed && shown.retryable {
            FfiRecoveryAction::RePair
        } else {
            shown.recovery_action
        },
        outcome: verdict.outcome,
        session_disposition: verdict.session_disposition,
        user_message_key: shown.message_key.to_owned(),
        diagnostic_message: rendered.to_owned(),
    }
}

/// A used-up invitation changes nothing of a report but the recovery, turns
/// every recoverable failure into a new pairing and makes none recoverable.
pub proof fn consumed_invitations_only_ask_for_a_new_pairing(
    cause: SessionCauseView,
    rendered: Seq<char>,
    verdict: FailureVerdict,
    direction: FfiTransferDirection,
    fallback_phase: FfiFailurePhase,
)
    ensures
        ({
            let kept = reported_failure(
                SessionErrorView { cause, invitation_consumed: false },
                rendered,
                verdict,
                direction,
                fallback_phase,
            );
            let consumed = reported_failure(
                SessionErrorView { cause, invitation_consumed: true },
                rendered,
                verdict,
                direction,
                fallback_phase,
            );
            &&& consumed == FailureView { recovery_action: consumed.recovery_action, ..kept }
            &&& consumed.retryable ==> consumed.recovery_action == FfiRecoveryAction::RePair
            &&& !consumed.retryable ==> consumed.recovery_action == kept.recovery_action
        }),
{
}

/// A failure that cannot be retried offers no recovery, and one that can
/// offers some.
pub proof fn recovery_is_offered_where_a_retry_helps(
    error: SessionErrorView,
    rendered: Seq<char>,
    verdict: FailureVerdict,
    direction: FfiTransferDirection,
    fallback_phase: FfiFailurePhase,
)
    ensures
        ({
            let shown = reported_failure(error, rendered, verdict, direction, fallback_phase);
            shown.retryable <==> shown.recovery_action != FfiRecoveryAction::NoAction
        }),
{
}

/// Reports tell the classification from the error alone: the diagnostic text
/// plays no part in it.
pub proof fn classification_ignores_diagnostics(
    error: SessionErrorView,
    rendered: Seq<char>,
    other: Seq<char>,
    verdict: FailureVerdict,
    direction: FfiTransferDirection,
    fallback_phase: FfiFailurePhase,
)
    ensures
        reported_failure(error, other, verdict, direction, fallback_phase) == (FailureView {
            diagnostic_message: other,
            ..reported_failure(error, rendered, verdict, direction, fallback_phase)
        }),
{
}

/// A refusal of the broker is told under its own code while pairing. It can be
/// retried unless the join itself was wrong, and a room that expired or was
/// attacked asks for a new pairing.
pub proof fn broker_refusals_are_told_apart(cause: RendezvousCause)
    ensures
        rendezvous_cause_of(cause).code is RoomNotFound <==> cause is RoomNotFound,
        rendezvous_cause_of(cause).code is RoomExpired <==> cause is RoomExpired,
        rendezvous_cause_of(cause).code is RoomFull <==> cause is RoomFull,
        rendezvous_cause_of(cause).code is RoomRateLimited <==> cause is RoomRateLimited,
        rendezvous_cause_of(cause).code is RoomUnderAttack <==> cause is RoomUnderAttack,
        rendezvous_cause_of(cause).code is EndpointRateLimited <==> cause is EndpointRateLimited,
        rendezvous_cause_of(cause).code is IpRateLimited <==> cause is IpRateLimited,
        rendezvous_cause_of(cause).code is ServerBusy <==> cause is ServerBusy,
        rendezvous_cause_of(cause).code is MalformedJoin <==> cause is MalformedJoin,
        rendezvous_cause_of(cause).code is UnsupportedRendezvousVersion <==> cause is UnsupportedVersion,
        cause is RoomNotFound ==> rendezvous_cause_of(cause).message_key
            == "transfer.room_not_found"@,
        cause is RoomExpired ==> rendezvous_cause_of(cause).message_key
            == "transfer.room_expired"@,
        cause is RoomFull ==> rendezvous_cause_of(cause).message_key
            == "transfer.room_full"@,
        cause is RoomRateLimited ==> rendezvous_cause_of(cause).message_key
            == "transfer.room_rate_limited"@,
        cause is RoomUnderAttack ==> rendezvous_cause_of(cause).message_key
            == "transfer.room_under_attack"@,
        cause is EndpointRateLimited ==> rendezvous_cause_of(cause).message_key
            == "transfer.endpoint_rate_limited"@,
        cause is IpRateLimited ==> rendezvous_cause_of(cause).message_key
            == "transfer.ip_rate_limited"@,
        cause is ServerBusy ==> rendezvous_cause_of(cause).message_key
            == "transfer.server_busy"@,
        cause is MalformedJoin ==> rendezvous_cause_of(cause).message_key
            == "transfer.malformed_join"@,
        cause is UnsupportedVersion ==> rendezvous_cause_of(cause).message_key
            == "transfer.unsupported_rendezvous_version"@,
        rendezvous_cause_of(cause).retryable <==> !(cause is MalformedJoin) && !(
        cause is UnsupportedVersion),
        rendezvous_cause_of(cause).recovery_action is NoAction <==> cause is MalformedJoin
            || cause is UnsupportedVersion,
        rendezvous_cause_of(cause).recovery_action is RePair <==> cause is RoomExpired
            || cause is RoomUnderAttack,
        rendezvous_cause_of(cause).recovery_action is Retry
            <==> rendezvous_cause_of(cause).retryable && !(cause is RoomExpired) && !(
        cause is RoomUnderAttack),
        rendezvous_cause_of(cause).category is Unsupported <==> !rendezvous_cause_of(
            cause,
        ).retryable,
        rendezvous_cause_of(cause).category is Network <==> rendezvous_cause_of(cause).retryable,
        rendezvous_cause_of(cause).phase is Pairing,
        rendezvous_cause_of(cause).origin is Unknown,
{
}

/// A cause that the engine names is told under its own code, with what helps
/// against it. Any other cause is a broken protocol, which nothing helps against.
pub proof fn named_causes_are_told_apart(cause: Seq<char>)
    ensures
        manifest_cause_of(cause).code is SenderSourceUnavailable <==> cause
            == "sender_source_unavailable"@,
        manifest_cause_of(cause).code is SenderPermissionLost <==> cause
            == "sender_permission_lost"@,
        manifest_cause_of(cause).code is SenderSourceChanged <==> cause
            == "sender_source_changed"@,
        manifest_cause_of(cause).code is SenderItemRemoved <==> cause
            == "sender_item_removed"@,
        manifest_cause_of(cause).code is SenderCanceled <==> cause
            == "sender_canceled"@,
        manifest_cause_of(cause).code is ReceiverSpaceInsufficient <==> cause
            == "receiver_space_insufficient"@,
        manifest_cause_of(cause).code is ReceiverDestinationDecisionRequired <==> cause
            == "receiver_destination_decision_required"@,
        manifest_cause_of(cause).code is ReceiverDestinationUnavailable <==> cause
            == "receiver_destination_unavailable"@,
        manifest_cause_of(cause).code is ReceiverSaveFailed <==> cause
            == "receiver_save_failed"@,
        manifest_cause_of(cause).code is ReceiverReusedObjectLost <==> cause
            == "receiver_reused_object_lost"@,
        manifest_cause_of(cause).code is ReceiverFinalizationOutcomeUnknown <==> cause
            == "receiver_finalization_outcome_unknown"@,
        manifest_cause_of(cause).code is SenderSourceUnavailable ==> manifest_cause_of(
            cause,
        ).recovery_action is Retry && manifest_cause_of(cause).category is Storage && manifest_cause_of(
            cause,
        ).phase is Transferring && manifest_cause_of(cause).message_key
            == "transfer.sender_source_unavailable"@,
        manifest_cause_of(cause).code is SenderPermissionLost ==> manifest_cause_of(
            cause,
        ).recovery_action is OpenSettings && manifest_cause_of(cause).category is Permission && manifest_cause_of(
            cause,
        ).phase is Transferring && manifest_cause_of(cause).message_key
            == "transfer.sender_permission_lost"@,
        manifest_cause_of(cause).code is SenderSourceChanged ==> manifest_cause_of(
            cause,
        ).recovery_action is Retry && manifest_cause_of(cause).category is Integrity && manifest_cause_of(
            cause,
        ).phase is Verifying && manifest_cause_of(cause).message_key
            == "transfer.sender_source_changed"@,
        manifest_cause_of(cause).code is SenderItemRemoved ==> manifest_cause_of(
            cause,
        ).recovery_action is NoAction && manifest_cause_of(cause).category is User && manifest_cause_of(
            cause,
        ).phase is Transferring && manifest_cause_of(cause).message_key
            == "transfer.sender_item_removed"@,
        manifest_cause_of(cause).code is SenderCanceled ==> manifest_cause_of(
            cause,
        ).recovery_action is NoAction && manifest_cause_of(cause).category is User && manifest_cause_of(
            cause,
        ).phase is Transferring && manifest_cause_of(cause).message_key
            == "transfer.sender_canceled"@,
        manifest_cause_of(cause).code is ReceiverSpaceInsufficient ==> manifest_cause_of(
            cause,
        ).recovery_action is ChooseFolder && manifest_cause_of(cause).category is Storage && manifest_cause_of(
            cause,
        ).phase is Negotiating && manifest_cause_of(cause).message_key
            == "transfer.receiver_space_insufficient"@,
        manifest_cause_of(cause).code is ReceiverDestinationDecisionRequired ==> manifest_cause_of(
            cause,
        ).recovery_action is ChooseFolder && manifest_cause_of(cause).category is Storage && manifest_cause_of(
            cause,
        ).phase is Negotiating && manifest_cause_of(cause).message_key
            == "transfer.receiver_destination_decision_required"@,
        manifest_cause_of(cause).code is ReceiverDestinationUnavailable ==> manifest_cause_of(
            cause,
        ).recovery_action is ChooseFolder && manifest_cause_of(cause).category is Storage && manifest_cause_of(
            cause,
        ).phase is Committing && manifest_cause_of(cause).message_key
            == "transfer.receiver_destination_unavailable"@,
        manifest_cause_of(cause).code is ReceiverSaveFailed ==> manifest_cause_of(
            cause,
        ).recovery_action is Resume && manifest_cause_of(cause).category is Storage && manifest_cause_of(
            cause,
        ).phase is Committing && manifest_cause_of(cause).message_key
            == "transfer.receiver_save_failed"@,
        manifest_cause_of(cause).code is ReceiverReusedObjectLost ==> manifest_cause_of(
            cause,
        ).recovery_action is Resume && manifest_cause_of(cause).category is Storage && manifest_cause_of(
            cause,
        ).phase is Committing && manifest_cause_of(cause).message_key
            == "transfer.receiver_reused_object_lost"@,
        manifest_cause_of(cause).code is ReceiverFinalizationOutcomeUnknown ==> manifest_cause_of(
            cause,
        ).recovery_action is Resume && manifest_cause_of(cause).category is Storage && manifest_cause_of(
            cause,
        ).phase is Committing && manifest_cause_of(cause).message_key
            == "transfer.receiver_finalization_outcome_unknown"@,
        manifest_cause_of(cause).retryable <==> !(manifest_cause_of(cause).recovery_action
            is NoAction),
        manifest_cause_of(cause).origin is Local <==> !(manifest_cause_of(cause).code
            is ProtocolOrIntegrityFailure),
        manifest_cause_of(cause).code is ProtocolOrIntegrityFailure ==> manifest_cause_of(
            cause,
        ).recovery_action is NoAction && manifest_cause_of(cause).category is Integrity
            && manifest_cause_of(cause).phase is Verifying && manifest_cause_of(cause).message_key
            == "transfer.protocol_or_integrity_failure"@,
{
    reveal_strlit("sender_source_unavailable");
    reveal_strlit("sender_permission_lost");
    reveal_strlit("sender_source_changed");
    reveal_strlit("sender_item_removed");
    reveal_strlit("sender_canceled");
    reveal_strlit("receiver_space_insufficient");
    reveal_strlit("receiver_destination_decision_required");
    reveal_strlit("receiver_destination_unavailable");
    reveal_strlit("receiver_save_failed");
    reveal_strlit("receiver_reused_object_lost");
    reveal_strlit("receiver_finalization_outcome_unknown");
    assert("sender_source_unavailable"@.len() == 25);
    assert("sender_permission_lost"@.len() == 22);
    assert("sender_source_changed"@.len() == 21);
    assert("sender_item_removed"@.len() == 19);
    assert("sender_canceled"@.len() == 15);
    assert("receiver_space_insufficient"@.len() == 27);
    assert("receiver_destination_decision_required"@.len() == 38);
    assert("receiver_destination_unavailable"@.len() == 32);
    assert("receiver_save_failed"@.len() == 20);
    assert("receiver_reused_object_lost"@.len() == 27);
    assert("receiver_finalization_outcome_unknown"@.len() == 37);
    assert("receiver_space_insufficient"@[9] != "receiver_reused_object_lost"@[9]);
}

/// Each kind of error is told under its own code: a cancellation is the user's, a
/// lost transport can be resumed, a failed authentication asks for a new pairing,
/// and trouble with files is told by the side that has them. The phase is the
/// session's, unless the error fixes it.
pub proof fn errors_are_told_by_their_kind(
    cause: SessionCauseView,
    direction: FfiTransferDirection,
    phase: FfiFailurePhase,
)
    ensures
        ({
            let shown = session_cause_of(cause, direction, phase);
            &&& cause matches SessionCauseView::Cause { code, .. } ==> shown == manifest_cause_of(
                code,
            )
            &&& cause matches SessionCauseView::Rendezvous { cause: refusal, .. } ==> shown
                == rendezvous_cause_of(refusal)
            &&& cause is Cancelled ==> shown.code is UserCanceled && shown.category is User
                && shown.origin is Local && !shown.retryable && shown.recovery_action is NoAction
                && shown.phase == phase && shown.message_key == "transfer.user_canceled"@
            &&& cause is Transport || cause is Discovery ==> shown.code is NetworkLost
                && shown.category is Network && shown.origin is Unknown && shown.retryable
                && shown.recovery_action is Resume && shown.phase == phase && shown.message_key
                == "transfer.network_lost"@
            &&& cause is Crypto ==> shown.code is AuthenticationFailed && shown.category
                is Authentication && shown.origin is Unknown && shown.retryable
                && shown.recovery_action is RePair && shown.phase is Authenticating
                && shown.message_key == "transfer.authentication_failed"@
            &&& cause is Protocol ==> shown.code is ProtocolOrIntegrityFailure && shown.category
                is Integrity && !shown.retryable && shown.recovery_action is NoAction
                && shown.phase is Verifying && shown.message_key
                == "transfer.protocol_or_integrity_failure"@
            &&& (cause is Io || cause is Storage) && direction is Receive ==> shown.code
                is ReceiverSaveFailed && shown.recovery_action is Resume && shown.message_key
                == "transfer.receiver_save_failed"@
            &&& (cause is Io || cause is Storage) && direction is Send ==> shown.code
                is SenderSourceUnavailable && shown.recovery_action is Retry && shown.message_key
                == "transfer.sender_source_unavailable"@
            &&& cause is Io || cause is Storage ==> shown.category is Storage && shown.origin
                is Local && shown.retryable && shown.phase == phase
            &&& cause is InvalidInput ==> shown.code is UnsupportedFeature && shown.category
                is Unsupported && shown.origin is Local && !shown.retryable
                && shown.recovery_action is NoAction && shown.phase == phase && shown.message_key
                == "transfer.unsupported_feature"@
            &&& cause is Transfer ==> shown.code is InternalError && shown.category is Internal
                && shown.origin is Unknown && shown.retryable && shown.recovery_action is Retry
                && shown.phase == phase && shown.message_key == "transfer.internal_error"@
        }),
{
}

/// A reported failure is the session's own: its direction, what the engine judged,
/// and its text as it is.
pub proof fn reports_keep_what_the_engine_judged(
    error: SessionErrorView,
    rendered: Seq<char>,
    verdict: FailureVerdict,
    direction: FfiTransferDirection,
    phase: FfiFailurePhase,
)
    ensures
        ({
            let told = reported_failure(error, rendered, verdict, direction, phase);
            let shown = session_cause_of(error.cause, direction, phase);
            &&& told.direction == direction
            &&& told.outcome == verdict.outcome
            &&& told.session_disposition == verdict.session_disposition
            &&& told.diagnostic_message == rendered
            &&& told.code == shown.code
            &&& told.category == shown.category
            &&& told.phase == shown.phase
            &&& told.origin == shown.origin
            &&& told.retryable == shown.retryable
            &&& told.user_message_key == shown.message_key
            &&& error.invitation_consumed && told.retryable ==> told.recovery_action is RePair
            &&& !error.invitation_consumed ==> told.recovery_action == shown.recovery_action
            &&& !told.retryable ==> told.recovery_action == shown.recovery_action
        }),
{
}

} // verus!
