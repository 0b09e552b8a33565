//! Projection of the application contract: native commands and events become
//! engine ones, engine effects and snapshots become native ones.
use vstd::prelude::*;
use vstd::string::*;

use crate::api::contract::{
    ApplicationErrorView, CommandEnvelopeView, CommandView, DeviceView, EffectEnvelopeView,
    EffectView, EventEnvelopeView, EventView, FfiApplicationCommand, FfiApplicationCommandEnvelope,
    FfiApplicationDevice, FfiApplicationEffect, FfiApplicationEffectEnvelope, FfiApplicationError,
    FfiApplicationErrorCode, FfiApplicationEvent, FfiApplicationEventEnvelope,
    FfiApplicationRelationship, FfiApplicationRoom, FfiApplicationRoomCloseReason,
    FfiApplicationRoomState, FfiApplicationSnapshot, FfiApplicationTransfer,
    FfiApplicationTransferFailure, FfiApplicationTransferState, FfiApplicationVaultError,
    FfiApplyOutcome, FfiCapabilityAvailability, FfiPlatformCapabilities, FfiPlatformCapability,
    FfiPlatformCapabilityStatus, FfiRelationshipState, FfiRememberedRelationship,
    FfiTransferRejection, PlatformCapabilitiesView, RelationshipView, RememberedView, RoomView,
    SnapshotView, TransferFailureView, TransferView,
};
use crate::api::contract_engine::{
    ApplicationErrorCode, ApplyError, ApplyErrorView, ApplyOutcome, CapabilityAvailability,
    CapabilityEntriesView, CapabilityEntry, CapabilityTable, CommandEnvelope, DeviceEntryView,
    DeviceRecord, DeviceRecordView, EffectEnvelope, EngineCommand, EngineCommandEnvelopeView,
    EngineCommandView, EngineEffect, EngineEffectEnvelopeView, EngineEffectView, EngineEvent,
    EngineEventEnvelopeView, EngineEventView, EngineSnapshot, EngineSnapshotView, EngineStoreError,
    EventEnvelope, FailureCode, FailurePhase, FailureRecord, FailureRecordView,
    PlatformCapabilities, PlatformCapability, PlatformPortError, RecoveryAction,
    RelationshipRecord, RelationshipRecordView, RelationshipState, RememberedDeviceRecord,
    RoomCloseReason, RoomRecord, RoomRecordView, RoomState, StoreErrorKind, StoreErrorView,
    TransferDirection, TransferFailure, TransferRecord, TransferRecordView, TransferRejection,
    TransferState,
};
use crate::api::types::{
    FfiFailureCode, FfiFailurePhase, FfiRecoveryAction, FfiTransferDirection,
};
use crate::text::text_option;

verus! {

broadcast use vstd::seq_lib::group_seq_properties;

/// The [`FfiTransferDirection`] that stands for a [`TransferDirection`].
pub open spec fn ffi_direction_of(value: TransferDirection) -> FfiTransferDirection {
    match value {
        TransferDirection::Send => FfiTransferDirection::Send,
        TransferDirection::Receive => FfiTransferDirection::Receive,
    }
}

/// Projects a direction.
pub fn ffi_direction(value: TransferDirection) -> (r: FfiTransferDirection)
    ensures
        r == ffi_direction_of(value),
{
    match value {
        TransferDirection::Send => FfiTransferDirection::Send,
        TransferDirection::Receive => FfiTransferDirection::Receive,
    }
}

/// The [`TransferDirection`] that stands for a [`FfiTransferDirection`].
pub open spec fn core_direction_of(value: FfiTransferDirection) -> TransferDirection {
    match value {
        FfiTransferDirection::Send => TransferDirection::Send,
        FfiTransferDirection::Receive => TransferDirection::Receive,
    }
}

/// The engine form of a direction.
pub fn core_direction(value: FfiTransferDirection) -> (r: TransferDirection)
    ensures
        r == core_direction_of(value),
{
    match value {
        FfiTransferDirection::Send => TransferDirection::Send,
        FfiTransferDirection::Receive => TransferDirection::Receive,
    }
}

/// The [`FfiTransferRejection`] that stands for a [`TransferRejection`].
pub open spec fn ffi_rejection_of(value: TransferRejection) -> FfiTransferRejection {
    match value {
        TransferRejection::UserDeclined => FfiTransferRejection::UserDeclined,
        TransferRejection::Busy => FfiTransferRejection::Busy,
        TransferRejection::InsufficientSpace => FfiTransferRejection::InsufficientSpace,
        TransferRejection::UnsupportedContent => FfiTransferRejection::UnsupportedContent,
        TransferRejection::InvalidOffer => FfiTransferRejection::InvalidOffer,
    }
}

/// Projects a rejection.
pub fn ffi_rejection(value: TransferRejection) -> (r: FfiTransferRejection)
    ensures
        r == ffi_rejection_of(value),
{
    match value {
        TransferRejection::UserDeclined => FfiTransferRejection::UserDeclined,
        TransferRejection::Busy => FfiTransferRejection::Busy,
        TransferRejection::InsufficientSpace => FfiTransferRejection::InsufficientSpace,
        TransferRejection::UnsupportedContent => FfiTransferRejection::UnsupportedContent,
        TransferRejection::InvalidOffer => FfiTransferRejection::InvalidOffer,
    }
}

/// The [`TransferRejection`] that stands for a [`FfiTransferRejection`].
pub open spec fn core_rejection_of(value: FfiTransferRejection) -> TransferRejection {
    match value {
        FfiTransferRejection::UserDeclined => TransferRejection::UserDeclined,
        FfiTransferRejection::Busy => TransferRejection::Busy,
        FfiTransferRejection::InsufficientSpace => TransferRejection::InsufficientSpace,
        FfiTransferRejection::UnsupportedContent => TransferRejection::UnsupportedContent,
        FfiTransferRejection::InvalidOffer => TransferRejection::InvalidOffer,
    }
}

/// The engine form of a rejection.
pub fn core_rejection(value: FfiTransferRejection) -> (r: TransferRejection)
    ensures
        r == core_rejection_of(value),
{
    match value {
        FfiTransferRejection::UserDeclined => TransferRejection::UserDeclined,
        FfiTransferRejection::Busy => TransferRejection::Busy,
        FfiTransferRejection::InsufficientSpace => TransferRejection::InsufficientSpace,
        FfiTransferRejection::UnsupportedContent => TransferRejection::UnsupportedContent,
        FfiTransferRejection::InvalidOffer => TransferRejection::InvalidOffer,
    }
}

/// The [`FfiApplicationRoomCloseReason`] that stands for a [`RoomCloseReason`].
pub open spec fn ffi_close_reason_of(value: RoomCloseReason) -> FfiApplicationRoomCloseReason {
    match value {
        RoomCloseReason::UserEnded => FfiApplicationRoomCloseReason::UserEnded,
        RoomCloseReason::Expired => FfiApplicationRoomCloseReason::Expired,
        RoomCloseReason::PeerEnded => FfiApplicationRoomCloseReason::PeerEnded,
        RoomCloseReason::Backgrounded => FfiApplicationRoomCloseReason::Backgrounded,
        RoomCloseReason::NetworkLost => FfiApplicationRoomCloseReason::NetworkLost,
        RoomCloseReason::ProtocolFailure => FfiApplicationRoomCloseReason::ProtocolFailure,
        RoomCloseReason::Replaced => FfiApplicationRoomCloseReason::Replaced,
    }
}

/// Projects a close reason.
pub fn ffi_room_close_reason(value: RoomCloseReason) -> (r: FfiApplicationRoomCloseReason)
    ensures
        r == ffi_close_reason_of(value),
{
    match value {
        RoomCloseReason::UserEnded => FfiApplicationRoomCloseReason::UserEnded,
        RoomCloseReason::Expired => FfiApplicationRoomCloseReason::Expired,
        RoomCloseReason::PeerEnded => FfiApplicationRoomCloseReason::PeerEnded,
        RoomCloseReason::Backgrounded => FfiApplicationRoomCloseReason::Backgrounded,
        RoomCloseReason::NetworkLost => FfiApplicationRoomCloseReason::NetworkLost,
        RoomCloseReason::ProtocolFailure => FfiApplicationRoomCloseReason::ProtocolFailure,
        RoomCloseReason::Replaced => FfiApplicationRoomCloseReason::Replaced,
    }
}

/// The [`RoomCloseReason`] that stands for a [`FfiApplicationRoomCloseReason`].
pub open spec fn core_close_reason_of(value: FfiApplicationRoomCloseReason) -> RoomCloseReason {
    match value {
        FfiApplicationRoomCloseReason::UserEnded => RoomCloseReason::UserEnded,
        FfiApplicationRoomCloseReason::Expired => RoomCloseReason::Expired,
        FfiApplicationRoomCloseReason::PeerEnded => RoomCloseReason::PeerEnded,
        FfiApplicationRoomCloseReason::Backgrounded => RoomCloseReason::Backgrounded,
        FfiApplicationRoomCloseReason::NetworkLost => RoomCloseReason::NetworkLost,
        FfiApplicationRoomCloseReason::ProtocolFailure => RoomCloseReason::ProtocolFailure,
        FfiApplicationRoomCloseReason::Replaced => RoomCloseReason::Replaced,
    }
}

/// The engine form of a close reason.
pub fn core_room_close_reason(value: FfiApplicationRoomCloseReason) -> (r: RoomCloseReason)
    ensures
        r == core_close_reason_of(value),
{
    match value {
        FfiApplicationRoomCloseReason::UserEnded => RoomCloseReason::UserEnded,
        FfiApplicationRoomCloseReason::Expired => RoomCloseReason::Expired,
        FfiApplicationRoomCloseReason::PeerEnded => RoomCloseReason::PeerEnded,
        FfiApplicationRoomCloseReason::Backgrounded => RoomCloseReason::Backgrounded,
        FfiApplicationRoomCloseReason::NetworkLost => RoomCloseReason::NetworkLost,
        FfiApplicationRoomCloseReason::ProtocolFailure => RoomCloseReason::ProtocolFailure,
        FfiApplicationRoomCloseReason::Replaced => RoomCloseReason::Replaced,
    }
}

/// The [`FfiRelationshipState`] that stands for a [`RelationshipState`].
pub open spec fn ffi_relationship_state_of(value: RelationshipState) -> FfiRelationshipState {
    match value {
        RelationshipState::Trusted => FfiRelationshipState::Trusted,
        RelationshipState::Revoked => FfiRelationshipState::Revoked,
    }
}

/// Projects a relationship state.
pub fn ffi_relationship_state(value: RelationshipState) -> (r: FfiRelationshipState)
    ensures
        r == ffi_relationship_state_of(value),
{
    match value {
        RelationshipState::Trusted => FfiRelationshipState::Trusted,
        RelationshipState::Revoked => FfiRelationshipState::Revoked,
    }
}

/// The [`FfiApplicationRoomState`] that stands for a [`RoomState`].
pub open spec fn ffi_room_state_of(value: RoomState) -> FfiApplicationRoomState {
    match value {
        RoomState::Connecting => FfiApplicationRoomState::Connecting,
        RoomState::Authenticating => FfiApplicationRoomState::Authenticating,
        RoomState::Connected => FfiApplicationRoomState::Connected,
        RoomState::Closed => FfiApplicationRoomState::Closed,
    }
}

/// Projects a room state.
pub fn ffi_room_state(value: RoomState) -> (r: FfiApplicationRoomState)
    ensures
        r == ffi_room_state_of(value),
{
    match value {
        RoomState::Connecting => FfiApplicationRoomState::Connecting,
        RoomState::Authenticating => FfiApplicationRoomState::Authenticating,
        RoomState::Connected => FfiApplicationRoomState::Connected,
        RoomState::Closed => FfiApplicationRoomState::Closed,
    }
}

/// The [`FfiApplicationTransferState`] that stands for a [`TransferState`].
pub open spec fn ffi_transfer_state_of(value: TransferState) -> FfiApplicationTransferState {
    match value {
        TransferState::Offered => FfiApplicationTransferState::Offered,
        TransferState::Queued => FfiApplicationTransferState::Queued,
        TransferState::Connecting => FfiApplicationTransferState::Connecting,
        TransferState::Transferring => FfiApplicationTransferState::Transferring,
        TransferState::Paused => FfiApplicationTransferState::Paused,
        TransferState::AwaitingDeliveryProof => FfiApplicationTransferState::AwaitingDeliveryProof,
        TransferState::Delivered => FfiApplicationTransferState::Delivered,
        TransferState::Rejected => FfiApplicationTransferState::Rejected,
        TransferState::Failed => FfiApplicationTransferState::Failed,
        TransferState::Canceled => FfiApplicationTransferState::Canceled,
    }
}

/// Projects a transfer state.
pub fn ffi_transfer_state(value: TransferState) -> (r: FfiApplicationTransferState)
    ensures
        r == ffi_transfer_state_of(value),
{
    match value {
        TransferState::Offered => FfiApplicationTransferState::Offered,
        TransferState::Queued => FfiApplicationTransferState::Queued,
        TransferState::Connecting => FfiApplicationTransferState::Connecting,
        TransferState::Transferring => FfiApplicationTransferState::Transferring,
        TransferState::Paused => FfiApplicationTransferState::Paused,
        TransferState::AwaitingDeliveryProof => FfiApplicationTransferState::AwaitingDeliveryProof,
        TransferState::Delivered => FfiApplicationTransferState::Delivered,
        TransferState::Rejected => FfiApplicationTransferState::Rejected,
        TransferState::Failed => FfiApplicationTransferState::Failed,
        TransferState::Canceled => FfiApplicationTransferState::Canceled,
    }
}

/// The [`FfiPlatformCapability`] that stands for a [`PlatformCapability`].
pub open spec fn ffi_capability_of(value: PlatformCapability) -> FfiPlatformCapability {
    match value {
        PlatformCapability::SecureVault => FfiPlatformCapability::SecureVault,
        PlatformCapability::FileSource => FfiPlatformCapability::FileSource,
        PlatformCapability::FileDestination => FfiPlatformCapability::FileDestination,
        PlatformCapability::NearbyDiscovery => FfiPlatformCapability::NearbyDiscovery,
        PlatformCapability::ClipboardRead => FfiPlatformCapability::ClipboardRead,
        PlatformCapability::ClipboardWrite => FfiPlatformCapability::ClipboardWrite,
        PlatformCapability::BackgroundExecution => FfiPlatformCapability::BackgroundExecution,
        PlatformCapability::Notifications => FfiPlatformCapability::Notifications,
    }
}

/// Projects a service.
pub fn ffi_capability(value: PlatformCapability) -> (r: FfiPlatformCapability)
    ensures
        r == ffi_capability_of(value),
{
    match value {
        PlatformCapability::SecureVault => FfiPlatformCapability::SecureVault,
        PlatformCapability::FileSource => FfiPlatformCapability::FileSource,
        PlatformCapability::FileDestination => FfiPlatformCapability::FileDestination,
        PlatformCapability::NearbyDiscovery => FfiPlatformCapability::NearbyDiscovery,
        PlatformCapability::ClipboardRead => FfiPlatformCapability::ClipboardRead,
        PlatformCapability::ClipboardWrite => FfiPlatformCapability::ClipboardWrite,
        PlatformCapability::BackgroundExecution => FfiPlatformCapability::BackgroundExecution,
        PlatformCapability::Notifications => FfiPlatformCapability::Notifications,
    }
}

/// The [`PlatformCapability`] that stands for a [`FfiPlatformCapability`].
pub open spec fn core_capability_of(value: FfiPlatformCapability) -> PlatformCapability {
    match value {
        FfiPlatformCapability::SecureVault => PlatformCapability::SecureVault,
        FfiPlatformCapability::FileSource => PlatformCapability::FileSource,
        FfiPlatformCapability::FileDestination => PlatformCapability::FileDestination,
        FfiPlatformCapability::NearbyDiscovery => PlatformCapability::NearbyDiscovery,
        FfiPlatformCapability::ClipboardRead => PlatformCapability::ClipboardRead,
        FfiPlatformCapability::ClipboardWrite => PlatformCapability::ClipboardWrite,
        FfiPlatformCapability::BackgroundExecution => PlatformCapability::BackgroundExecution,
        FfiPlatformCapability::Notifications => PlatformCapability::Notifications,
    }
}

/// The engine form of a service.
pub fn core_capability(value: FfiPlatformCapability) -> (r: PlatformCapability)
    ensures
        r == core_capability_of(value),
{
    match value {
        FfiPlatformCapability::SecureVault => PlatformCapability::SecureVault,
        FfiPlatformCapability::FileSource => PlatformCapability::FileSource,
        FfiPlatformCapability::FileDestination => PlatformCapability::FileDestination,
        FfiPlatformCapability::NearbyDiscovery => PlatformCapability::NearbyDiscovery,
        FfiPlatformCapability::ClipboardRead => PlatformCapability::ClipboardRead,
        FfiPlatformCapability::ClipboardWrite => PlatformCapability::ClipboardWrite,
        FfiPlatformCapability::BackgroundExecution => PlatformCapability::BackgroundExecution,
        FfiPlatformCapability::Notifications => PlatformCapability::Notifications,
    }
}

/// The [`FfiCapabilityAvailability`] that stands for a [`CapabilityAvailability`].
pub open spec fn ffi_availability_of(value: CapabilityAvailability) -> FfiCapabilityAvailability {
    match value {
        CapabilityAvailability::Available => FfiCapabilityAvailability::Available,
        CapabilityAvailability::Limited => FfiCapabilityAvailability::Limited,
        CapabilityAvailability::Unavailable => FfiCapabilityAvailability::Unavailable,
    }
}

/// Projects an availability.
pub fn ffi_availability(value: CapabilityAvailability) -> (r: FfiCapabilityAvailability)
    ensures
        r == ffi_availability_of(value),
{
    match value {
        CapabilityAvailability::Available => FfiCapabilityAvailability::Available,
        CapabilityAvailability::Limited => FfiCapabilityAvailability::Limited,
        CapabilityAvailability::Unavailable => FfiCapabilityAvailability::Unavailable,
    }
}

/// The [`CapabilityAvailability`] that stands for a [`FfiCapabilityAvailability`].
pub open spec fn core_availability_of(value: FfiCapabilityAvailability) -> CapabilityAvailability {
    match value {
        FfiCapabilityAvailability::Available => CapabilityAvailability::Available,
        FfiCapabilityAvailability::Limited => CapabilityAvailability::Limited,
        FfiCapabilityAvailability::Unavailable => CapabilityAvailability::Unavailable,
    }
}

/// The engine form of an availability.
pub fn core_availability(value: FfiCapabilityAvailability) -> (r: CapabilityAvailability)
    ensures
        r == core_availability_of(value),
{
    match value {
        FfiCapabilityAvailability::Available => CapabilityAvailability::Available,
        FfiCapabilityAvailability::Limited => CapabilityAvailability::Limited,
        FfiCapabilityAvailability::Unavailable => CapabilityAvailability::Unavailable,
    }
}

/// The [`FfiFailureCode`] that stands for a [`FailureCode`].
pub open spec fn ffi_failure_code_of(value: FailureCode) -> FfiFailureCode {
    match value {
        FailureCode::UserCanceled => FfiFailureCode::UserCanceled,
        FailureCode::NetworkLost => FfiFailureCode::NetworkLost,
        FailureCode::AuthenticationFailed => FfiFailureCode::AuthenticationFailed,
        FailureCode::RoomNotFound => FfiFailureCode::RoomNotFound,
        FailureCode::RoomExpired => FfiFailureCode::RoomExpired,
        FailureCode::RoomFull => FfiFailureCode::RoomFull,
        FailureCode::RoomRateLimited => FfiFailureCode::RoomRateLimited,
        FailureCode::RoomUnderAttack => FfiFailureCode::RoomUnderAttack,
        FailureCode::EndpointRateLimited => FfiFailureCode::EndpointRateLimited,
        FailureCode::IpRateLimited => FfiFailureCode::IpRateLimited,
        FailureCode::ServerBusy => FfiFailureCode::ServerBusy,
        FailureCode::MalformedJoin => FfiFailureCode::MalformedJoin,
        FailureCode::UnsupportedRendezvousVersion => FfiFailureCode::UnsupportedRendezvousVersion,
        FailureCode::UnsupportedFeature => FfiFailureCode::UnsupportedFeature,
        FailureCode::InternalError => FfiFailureCode::InternalError,
        FailureCode::SenderSourceUnavailable => FfiFailureCode::SenderSourceUnavailable,
        FailureCode::SenderPermissionLost => FfiFailureCode::SenderPermissionLost,
        FailureCode::SenderSourceChanged => FfiFailureCode::SenderSourceChanged,
        FailureCode::SenderItemRemoved => FfiFailureCode::SenderItemRemoved,
        FailureCode::SenderCanceled => FfiFailureCode::SenderCanceled,
        FailureCode::ProtocolOrIntegrityFailure => FfiFailureCode::ProtocolOrIntegrityFailure,
        FailureCode::ReceiverSpaceInsufficient => FfiFailureCode::ReceiverSpaceInsufficient,
        FailureCode::ReceiverDestinationDecisionRequired => FfiFailureCode::ReceiverDestinationDecisionRequired,
        FailureCode::ReceiverDestinationUnavailable => FfiFailureCode::ReceiverDestinationUnavailable,
        FailureCode::ReceiverSaveFailed => FfiFailureCode::ReceiverSaveFailed,
        FailureCode::ReceiverReusedObjectLost => FfiFailureCode::ReceiverReusedObjectLost,
        FailureCode::ReceiverFinalizationOutcomeUnknown => FfiFailureCode::ReceiverFinalizationOutcomeUnknown,
        FailureCode::UnsupportedVersion => FfiFailureCode::UnsupportedRendezvousVersion,
        FailureCode::Internal => FfiFailureCode::InternalError,
        FailureCode::SourceUnavailable => FfiFailureCode::SenderSourceUnavailable,
        FailureCode::IntegrityFailure => FfiFailureCode::ProtocolOrIntegrityFailure,
        FailureCode::DestinationUnavailable => FfiFailureCode::ReceiverDestinationUnavailable,
    }
}

/// Projects a failure code; older names read as their present ones.
pub fn ffi_failure_code(value: FailureCode) -> (r: FfiFailureCode)
    ensures
        r == ffi_failure_code_of(value),
{
    match value {
        FailureCode::UserCanceled => FfiFailureCode::UserCanceled,
        FailureCode::NetworkLost => FfiFailureCode::NetworkLost,
        FailureCode::AuthenticationFailed => FfiFailureCode::AuthenticationFailed,
        FailureCode::RoomNotFound => FfiFailureCode::RoomNotFound,
        FailureCode::RoomExpired => FfiFailureCode::RoomExpired,
        FailureCode::RoomFull => FfiFailureCode::RoomFull,
        FailureCode::RoomRateLimited => FfiFailureCode::RoomRateLimited,
        FailureCode::RoomUnderAttack => FfiFailureCode::RoomUnderAttack,
        FailureCode::EndpointRateLimited => FfiFailureCode::EndpointRateLimited,
        FailureCode::IpRateLimited => FfiFailureCode::IpRateLimited,
        FailureCode::ServerBusy => FfiFailureCode::ServerBusy,
        FailureCode::MalformedJoin => FfiFailureCode::MalformedJoin,
        FailureCode::UnsupportedRendezvousVersion => FfiFailureCode::UnsupportedRendezvousVersion,
        FailureCode::UnsupportedFeature => FfiFailureCode::UnsupportedFeature,
        FailureCode::InternalError => FfiFailureCode::InternalError,
        FailureCode::SenderSourceUnavailable => FfiFailureCode::SenderSourceUnavailable,
        FailureCode::SenderPermissionLost => FfiFailureCode::SenderPermissionLost,
        FailureCode::SenderSourceChanged => FfiFailureCode::SenderSourceChanged,
        FailureCode::SenderItemRemoved => FfiFailureCode::SenderItemRemoved,
        FailureCode::SenderCanceled => FfiFailureCode::SenderCanceled,
        FailureCode::ProtocolOrIntegrityFailure => FfiFailureCode::ProtocolOrIntegrityFailure,
        FailureCode::ReceiverSpaceInsufficient => FfiFailureCode::ReceiverSpaceInsufficient,
        FailureCode::ReceiverDestinationDecisionRequired => FfiFailureCode::ReceiverDestinationDecisionRequired,
        FailureCode::ReceiverDestinationUnavailable => FfiFailureCode::ReceiverDestinationUnavailable,
        FailureCode::ReceiverSaveFailed => FfiFailureCode::ReceiverSaveFailed,
        FailureCode::ReceiverReusedObjectLost => FfiFailureCode::ReceiverReusedObjectLost,
        FailureCode::ReceiverFinalizationOutcomeUnknown => FfiFailureCode::ReceiverFinalizationOutcomeUnknown,
        FailureCode::UnsupportedVersion => FfiFailureCode::UnsupportedRendezvousVersion,
        FailureCode::Internal => FfiFailureCode::InternalError,
        FailureCode::SourceUnavailable => FfiFailureCode::SenderSourceUnavailable,
        FailureCode::IntegrityFailure => FfiFailureCode::ProtocolOrIntegrityFailure,
        FailureCode::DestinationUnavailable => FfiFailureCode::ReceiverDestinationUnavailable,
    }
}

/// The [`FailureCode`] that stands for a [`FfiFailureCode`].
pub open spec fn core_failure_code_of(value: FfiFailureCode) -> FailureCode {
    match value {
        FfiFailureCode::UserCanceled => FailureCode::UserCanceled,
        FfiFailureCode::NetworkLost => FailureCode::NetworkLost,
        FfiFailureCode::AuthenticationFailed => FailureCode::AuthenticationFailed,
        FfiFailureCode::RoomNotFound => FailureCode::RoomNotFound,
        FfiFailureCode::RoomExpired => FailureCode::RoomExpired,
        FfiFailureCode::RoomFull => FailureCode::RoomFull,
        FfiFailureCode::RoomRateLimited => FailureCode::RoomRateLimited,
        FfiFailureCode::RoomUnderAttack => FailureCode::RoomUnderAttack,
        FfiFailureCode::EndpointRateLimited => FailureCode::EndpointRateLimited,
        FfiFailureCode::IpRateLimited => FailureCode::IpRateLimited,
        FfiFailureCode::ServerBusy => FailureCode::ServerBusy,
        FfiFailureCode::MalformedJoin => FailureCode::MalformedJoin,
        FfiFailureCode::UnsupportedRendezvousVersion => FailureCode::UnsupportedRendezvousVersion,
        FfiFailureCode::UnsupportedFeature => FailureCode::UnsupportedFeature,
        FfiFailureCode::InternalError => FailureCode::InternalError,
        FfiFailureCode::SenderSourceUnavailable => FailureCode::SenderSourceUnavailable,
        FfiFailureCode::SenderPermissionLost => FailureCode::SenderPermissionLost,
        FfiFailureCode::SenderSourceChanged => FailureCode::SenderSourceChanged,
        FfiFailureCode::SenderItemRemoved => FailureCode::SenderItemRemoved,
        FfiFailureCode::SenderCanceled => FailureCode::SenderCanceled,
        FfiFailureCode::ProtocolOrIntegrityFailure => FailureCode::ProtocolOrIntegrityFailure,
        FfiFailureCode::ReceiverSpaceInsufficient => FailureCode::ReceiverSpaceInsufficient,
        FfiFailureCode::ReceiverDestinationDecisionRequired => FailureCode::ReceiverDestinationDecisionRequired,
        FfiFailureCode::ReceiverDestinationUnavailable => FailureCode::ReceiverDestinationUnavailable,
        FfiFailureCode::ReceiverSaveFailed => FailureCode::ReceiverSaveFailed,
        FfiFailureCode::ReceiverReusedObjectLost => FailureCode::ReceiverReusedObjectLost,
        FfiFailureCode::ReceiverFinalizationOutcomeUnknown => FailureCode::ReceiverFinalizationOutcomeUnknown,
    }
}

/// The engine form of a failure code.
pub fn core_failure_code(value: FfiFailureCode) -> (r: FailureCode)
    ensures
        r == core_failure_code_of(value),
{
    match value {
        FfiFailureCode::UserCanceled => FailureCode::UserCanceled,
        FfiFailureCode::NetworkLost => FailureCode::NetworkLost,
        FfiFailureCode::AuthenticationFailed => FailureCode::AuthenticationFailed,
        FfiFailureCode::RoomNotFound => FailureCode::RoomNotFound,
        FfiFailureCode::RoomExpired => FailureCode::RoomExpired,
        FfiFailureCode::RoomFull => FailureCode::RoomFull,
        FfiFailureCode::RoomRateLimited => FailureCode::RoomRateLimited,
        FfiFailureCode::RoomUnderAttack => FailureCode::RoomUnderAttack,
        FfiFailureCode::EndpointRateLimited => FailureCode::EndpointRateLimited,
        FfiFailureCode::IpRateLimited => FailureCode::IpRateLimited,
        FfiFailureCode::ServerBusy => FailureCode::ServerBusy,
        FfiFailureCode::MalformedJoin => FailureCode::MalformedJoin,
        FfiFailureCode::UnsupportedRendezvousVersion => FailureCode::UnsupportedRendezvousVersion,
        FfiFailureCode::UnsupportedFeature => FailureCode::UnsupportedFeature,
        FfiFailureCode::InternalError => FailureCode::InternalError,
        FfiFailureCode::SenderSourceUnavailable => FailureCode::SenderSourceUnavailable,
        FfiFailureCode::SenderPermissionLost => FailureCode::SenderPermissionLost,
        FfiFailureCode::SenderSourceChanged => FailureCode::SenderSourceChanged,
        FfiFailureCode::SenderItemRemoved => FailureCode::SenderItemRemoved,
        FfiFailureCode::SenderCanceled => FailureCode::SenderCanceled,
        FfiFailureCode::ProtocolOrIntegrityFailure => FailureCode::ProtocolOrIntegrityFailure,
        FfiFailureCode::ReceiverSpaceInsufficient => FailureCode::ReceiverSpaceInsufficient,
        FfiFailureCode::ReceiverDestinationDecisionRequired => FailureCode::ReceiverDestinationDecisionRequired,
        FfiFailureCode::ReceiverDestinationUnavailable => FailureCode::ReceiverDestinationUnavailable,
        FfiFailureCode::ReceiverSaveFailed => FailureCode::ReceiverSaveFailed,
        FfiFailureCode::ReceiverReusedObjectLost => FailureCode::ReceiverReusedObjectLost,
        FfiFailureCode::ReceiverFinalizationOutcomeUnknown => FailureCode::ReceiverFinalizationOutcomeUnknown,
    }
}

/// The [`FfiFailurePhase`] that stands for a [`FailurePhase`].
pub open spec fn ffi_failure_phase_of(value: FailurePhase) -> FfiFailurePhase {
    match value {
        FailurePhase::Setup => FfiFailurePhase::Setup,
        FailurePhase::Pairing => FfiFailurePhase::Pairing,
        FailurePhase::Connecting => FfiFailurePhase::Connecting,
        FailurePhase::Authenticating => FfiFailurePhase::Authenticating,
        FailurePhase::Negotiating => FfiFailurePhase::Negotiating,
        FailurePhase::Transferring => FfiFailurePhase::Transferring,
        FailurePhase::Verifying => FfiFailurePhase::Verifying,
        FailurePhase::Committing => FfiFailurePhase::Committing,
    }
}

/// Projects a failure phase.
pub fn ffi_failure_phase(value: FailurePhase) -> (r: FfiFailurePhase)
    ensures
        r == ffi_failure_phase_of(value),
{
    match value {
        FailurePhase::Setup => FfiFailurePhase::Setup,
        FailurePhase::Pairing => FfiFailurePhase::Pairing,
        FailurePhase::Connecting => FfiFailurePhase::Connecting,
        FailurePhase::Authenticating => FfiFailurePhase::Authenticating,
        FailurePhase::Negotiating => FfiFailurePhase::Negotiating,
        FailurePhase::Transferring => FfiFailurePhase::Transferring,
        FailurePhase::Verifying => FfiFailurePhase::Verifying,
        FailurePhase::Committing => FfiFailurePhase::Committing,
    }
}

/// The [`FailurePhase`] that stands for a [`FfiFailurePhase`].
pub open spec fn core_failure_phase_of(value: FfiFailurePhase) -> FailurePhase {
    match value {
        FfiFailurePhase::Setup => FailurePhase::Setup,
        FfiFailurePhase::Pairing => FailurePhase::Pairing,
        FfiFailurePhase::Connecting => FailurePhase::Connecting,
        FfiFailurePhase::Authenticating => FailurePhase::Authenticating,
        FfiFailurePhase::Negotiating => FailurePhase::Negotiating,
        FfiFailurePhase::Transferring => FailurePhase::Transferring,
        FfiFailurePhase::Verifying => FailurePhase::Verifying,
        FfiFailurePhase::Committing => FailurePhase::Committing,
    }
}

/// The engine form of a failure phase.
pub fn core_failure_phase(value: FfiFailurePhase) -> (r: FailurePhase)
    ensures
        r == core_failure_phase_of(value),
{
    match value {
        FfiFailurePhase::Setup => FailurePhase::Setup,
        FfiFailurePhase::Pairing => FailurePhase::Pairing,
        FfiFailurePhase::Connecting => FailurePhase::Connecting,
        FfiFailurePhase::Authenticating => FailurePhase::Authenticating,
        FfiFailurePhase::Negotiating => FailurePhase::Negotiating,
        FfiFailurePhase::Transferring => FailurePhase::Transferring,
        FfiFailurePhase::Verifying => FailurePhase::Verifying,
        FfiFailurePhase::Committing => FailurePhase::Committing,
    }
}

/// The [`FfiRecoveryAction`] that stands for a [`RecoveryAction`].
pub open spec fn ffi_recovery_action_of(value: RecoveryAction) -> FfiRecoveryAction {
    match value {
        RecoveryAction::Retry => FfiRecoveryAction::Retry,
        RecoveryAction::Resume => FfiRecoveryAction::Resume,
        RecoveryAction::ChooseFolder => FfiRecoveryAction::ChooseFolder,
        RecoveryAction::OpenSettings => FfiRecoveryAction::OpenSettings,
        RecoveryAction::RePair => FfiRecoveryAction::RePair,
        RecoveryAction::NoAction => FfiRecoveryAction::NoAction,
    }
}

/// Projects a recovery action.
pub fn ffi_recovery_action(value: RecoveryAction) -> (r: FfiRecoveryAction)
    ensures
        r == ffi_recovery_action_of(value),
{
    match value {
        RecoveryAction::Retry => FfiRecoveryAction::Retry,
        RecoveryAction::Resume => FfiRecoveryAction::Resume,
        RecoveryAction::ChooseFolder => FfiRecoveryAction::ChooseFolder,
        RecoveryAction::OpenSettings => FfiRecoveryAction::OpenSettings,
        RecoveryAction::RePair => FfiRecoveryAction::RePair,
        RecoveryAction::NoAction => FfiRecoveryAction::NoAction,
    }
}

/// The [`RecoveryAction`] that stands for a [`FfiRecoveryAction`].
pub open spec fn core_recovery_action_of(value: FfiRecoveryAction) -> RecoveryAction {
    match value {
        FfiRecoveryAction::Retry => RecoveryAction::Retry,
        FfiRecoveryAction::Resume => RecoveryAction::Resume,
        FfiRecoveryAction::ChooseFolder => RecoveryAction::ChooseFolder,
        FfiRecoveryAction::OpenSettings => RecoveryAction::OpenSettings,
        FfiRecoveryAction::RePair => RecoveryAction::RePair,
        FfiRecoveryAction::NoAction => RecoveryAction::NoAction,
    }
}

/// The engine form of a recovery action.
pub fn core_recovery_action(value: FfiRecoveryAction) -> (r: RecoveryAction)
    ensures
        r == core_recovery_action_of(value),
{
    match value {
        FfiRecoveryAction::Retry => RecoveryAction::Retry,
        FfiRecoveryAction::Resume => RecoveryAction::Resume,
        FfiRecoveryAction::ChooseFolder => RecoveryAction::ChooseFolder,
        FfiRecoveryAction::OpenSettings => RecoveryAction::OpenSettings,
        FfiRecoveryAction::RePair => RecoveryAction::RePair,
        FfiRecoveryAction::NoAction => RecoveryAction::NoAction,
    }
}

/// The [`PlatformPortError`] that stands for a [`FfiApplicationVaultError`].
pub open spec fn core_vault_error_of(value: FfiApplicationVaultError) -> PlatformPortError {
    match value {
        FfiApplicationVaultError::Unavailable => PlatformPortError::Unavailable,
        FfiApplicationVaultError::Limited => PlatformPortError::Limited,
        FfiApplicationVaultError::PermissionDenied => PlatformPortError::PermissionDenied,
        FfiApplicationVaultError::InteractionRequired => PlatformPortError::InteractionRequired,
        FfiApplicationVaultError::InvalidRequest => PlatformPortError::InvalidRequest,
        FfiApplicationVaultError::CorruptData => PlatformPortError::CorruptData,
        FfiApplicationVaultError::Canceled => PlatformPortError::Canceled,
    }
}

/// The engine form of a vault failure.
pub fn core_vault_error(value: FfiApplicationVaultError) -> (r: PlatformPortError)
    ensures
        r == core_vault_error_of(value),
{
    match value {
        FfiApplicationVaultError::Unavailable => PlatformPortError::Unavailable,
        FfiApplicationVaultError::Limited => PlatformPortError::Limited,
        FfiApplicationVaultError::PermissionDenied => PlatformPortError::PermissionDenied,
        FfiApplicationVaultError::InteractionRequired => PlatformPortError::InteractionRequired,
        FfiApplicationVaultError::InvalidRequest => PlatformPortError::InvalidRequest,
        FfiApplicationVaultError::CorruptData => PlatformPortError::CorruptData,
        FfiApplicationVaultError::Canceled => PlatformPortError::Canceled,
    }
}

/// The [`FfiApplyOutcome`] that stands for a [`ApplyOutcome`].
pub open spec fn ffi_apply_outcome_of(value: ApplyOutcome) -> FfiApplyOutcome {
    match value {
        ApplyOutcome::Applied => FfiApplyOutcome::Applied,
        ApplyOutcome::IgnoredDuplicate => FfiApplyOutcome::IgnoredDuplicate,
    }
}

/// Projects an apply outcome.
pub fn ffi_apply_outcome(value: ApplyOutcome) -> (r: FfiApplyOutcome)
    ensures
        r == ffi_apply_outcome_of(value),
{
    match value {
        ApplyOutcome::Applied => FfiApplyOutcome::Applied,
        ApplyOutcome::IgnoredDuplicate => FfiApplyOutcome::IgnoredDuplicate,
    }
}

/// The [`FfiApplicationErrorCode`] that stands for a [`ApplicationErrorCode`].
pub open spec fn apply_error_code_of(value: ApplicationErrorCode) -> FfiApplicationErrorCode {
    match value {
        ApplicationErrorCode::UnsupportedContractVersion => FfiApplicationErrorCode::UnsupportedContractVersion,
        ApplicationErrorCode::InvalidSequence => FfiApplicationErrorCode::InvalidSequence,
        ApplicationErrorCode::EventGap => FfiApplicationErrorCode::EventGap,
        ApplicationErrorCode::EntityNotFound => FfiApplicationErrorCode::EntityNotFound,
        ApplicationErrorCode::InvalidReference => FfiApplicationErrorCode::InvalidReference,
        ApplicationErrorCode::InvalidTransition => FfiApplicationErrorCode::InvalidTransition,
        ApplicationErrorCode::InvalidProgress => FfiApplicationErrorCode::InvalidProgress,
        ApplicationErrorCode::GenerationMismatch => FfiApplicationErrorCode::GenerationMismatch,
        ApplicationErrorCode::UnsupportedEvent => FfiApplicationErrorCode::UnsupportedEvent,
    }
}

/// Projects the code of a refused event or command.
pub fn ffi_apply_error_code(value: ApplicationErrorCode) -> (r: FfiApplicationErrorCode)
    ensures
        r == apply_error_code_of(value),
{
    match value {
        ApplicationErrorCode::UnsupportedContractVersion => FfiApplicationErrorCode::UnsupportedContractVersion,
        ApplicationErrorCode::InvalidSequence => FfiApplicationErrorCode::InvalidSequence,
        ApplicationErrorCode::EventGap => FfiApplicationErrorCode::EventGap,
        ApplicationErrorCode::EntityNotFound => FfiApplicationErrorCode::EntityNotFound,
        ApplicationErrorCode::InvalidReference => FfiApplicationErrorCode::InvalidReference,
        ApplicationErrorCode::InvalidTransition => FfiApplicationErrorCode::InvalidTransition,
        ApplicationErrorCode::InvalidProgress => FfiApplicationErrorCode::InvalidProgress,
        ApplicationErrorCode::GenerationMismatch => FfiApplicationErrorCode::GenerationMismatch,
        ApplicationErrorCode::UnsupportedEvent => FfiApplicationErrorCode::UnsupportedEvent,
    }
}

/// The native form of a refused event or command.
pub open spec fn apply_error_of(error: ApplyErrorView) -> ApplicationErrorView {
    ApplicationErrorView::Failed { code: apply_error_code_of(error.code), reason: error.message }
}

/// Projects a refused event or command.
pub fn apply_error(error: &ApplyError) -> (r: FfiApplicationError)
    ensures
        r@ == apply_error_of(error@),
{
    FfiApplicationError::Failed {
        code: ffi_apply_error_code(error.code),
        reason: error.message.clone(),
    }
}

/// The code under which a failed operation on the durable state is reported.
pub open spec fn store_error_code_of(kind: StoreErrorKind) -> FfiApplicationErrorCode {
    match kind {
        StoreErrorKind::AlreadyOwned => FfiApplicationErrorCode::StateAlreadyOwned,
        StoreErrorKind::UnsupportedSchema
        | StoreErrorKind::UnsupportedLegacyState => FfiApplicationErrorCode::UnsupportedPersistentState,
        StoreErrorKind::PlatformPort(port) => match port {
            PlatformPortError::Unavailable
            | PlatformPortError::Limited => FfiApplicationErrorCode::VaultUnavailable,
            PlatformPortError::InteractionRequired => FfiApplicationErrorCode::VaultInteractionRequired,
            PlatformPortError::PermissionDenied => FfiApplicationErrorCode::VaultPermissionDenied,
            PlatformPortError::CorruptData => FfiApplicationErrorCode::VaultCorrupt,
            PlatformPortError::Canceled => FfiApplicationErrorCode::VaultCanceled,
            PlatformPortError::InvalidRequest => FfiApplicationErrorCode::InvalidInput,
        },
        StoreErrorKind::MissingVaultCredential => FfiApplicationErrorCode::VaultCorrupt,
        StoreErrorKind::InvalidState => FfiApplicationErrorCode::InvalidInput,
        StoreErrorKind::Io { invalid_input } => if invalid_input {
            FfiApplicationErrorCode::InvalidInput
        } else {
            FfiApplicationErrorCode::StateUnavailable
        },
        StoreErrorKind::StateTooLarge
        | StoreErrorKind::Decode => FfiApplicationErrorCode::StateUnavailable,
    }
}

/// The native form of a failed operation on the durable state.
pub open spec fn store_error_of(error: StoreErrorView) -> ApplicationErrorView {
    ApplicationErrorView::Failed { code: store_error_code_of(error.kind), reason: error.message }
}

/// Projects a failed operation on the durable state.
pub fn store_error(error: &EngineStoreError) -> (r: FfiApplicationError)
    ensures
        r@ == store_error_of(error@),
{
    let code = match error.kind {
        StoreErrorKind::AlreadyOwned => FfiApplicationErrorCode::StateAlreadyOwned,
        StoreErrorKind::UnsupportedSchema
        | StoreErrorKind::UnsupportedLegacyState => FfiApplicationErrorCode::UnsupportedPersistentState,
        StoreErrorKind::PlatformPort(port) => match port {
            PlatformPortError::Unavailable
            | PlatformPortError::Limited => FfiApplicationErrorCode::VaultUnavailable,
            PlatformPortError::InteractionRequired => FfiApplicationErrorCode::VaultInteractionRequired,
            PlatformPortError::PermissionDenied => FfiApplicationErrorCode::VaultPermissionDenied,
            PlatformPortError::CorruptData => FfiApplicationErrorCode::VaultCorrupt,
            PlatformPortError::Canceled => FfiApplicationErrorCode::VaultCanceled,
            PlatformPortError::InvalidRequest => FfiApplicationErrorCode::InvalidInput,
        },
        StoreErrorKind::MissingVaultCredential => FfiApplicationErrorCode::VaultCorrupt,
        StoreErrorKind::InvalidState => FfiApplicationErrorCode::InvalidInput,
        StoreErrorKind::Io { invalid_input } => if invalid_input {
            FfiApplicationErrorCode::InvalidInput
        } else {
            FfiApplicationErrorCode::StateUnavailable
        },
        StoreErrorKind::StateTooLarge
        | StoreErrorKind::Decode => FfiApplicationErrorCode::StateUnavailable,
    };
    FfiApplicationError::Failed { code, reason: error.message.clone() }
}

/// The native form of refused input.
pub open spec fn invalid_input_of(reason: Seq<char>) -> ApplicationErrorView {
    ApplicationErrorView::Failed { code: FfiApplicationErrorCode::InvalidInput, reason }
}

/// Refused input.
pub fn invalid_input(reason: &str) -> (r: FfiApplicationError)
    ensures
        r@ == invalid_input_of(reason@),
{
    FfiApplicationError::Failed {
        code: FfiApplicationErrorCode::InvalidInput,
        reason: reason.to_owned(),
    }
}

/// The native form of unavailable state.
pub open spec fn state_unavailable_of(reason: Seq<char>) -> ApplicationErrorView {
    ApplicationErrorView::Failed { code: FfiApplicationErrorCode::StateUnavailable, reason }
}

/// Unavailable state.
pub fn state_unavailable(reason: &str) -> (r: FfiApplicationError)
    ensures
        r@ == state_unavailable_of(reason@),
{
    FfiApplicationError::Failed {
        code: FfiApplicationErrorCode::StateUnavailable,
        reason: reason.to_owned(),
    }
}

/// What an identifier names.
#[derive(Clone, Copy, Debug, PartialEq, Eq, Structural)]
pub enum IdentifierKind {
    Command,
    Device,
    Relationship,
    Room,
    Content,
    Transfer,
    Invitation,
    VerificationCode,
}

/// A raw identifier that the engine has to accept.
#[derive(PartialEq, Eq)]
pub struct Identifier {
    pub kind: IdentifierKind,
    pub text: String,
}

/// What a [`Identifier`] holds.
#[verifier::ext_equal]
pub struct IdentifierView {
    pub kind: IdentifierKind,
    pub text: Seq<char>,
}

impl View for Identifier {
    type V = IdentifierView;

    open spec fn view(&self) -> IdentifierView {
        IdentifierView {
            kind: self.kind,
            text: self.text@,
        }
    }
}

impl Clone for Identifier {
    fn clone(&self) -> (r: Self)
        ensures
            r == *self,
    {
        Identifier {
            kind: self.kind,
            text: self.text.clone(),
        }
    }
}

/// An identifier.
pub open spec fn identifier(kind: IdentifierKind, text: Seq<char>) -> IdentifierView {
    IdentifierView { kind, text }
}

/// The identifiers of an optional field.
pub open spec fn optional_identifier(kind: IdentifierKind, text: Option<Seq<char>>) -> Seq<
    IdentifierView,
> {
    match text {
        Some(text) => seq![identifier(kind, text)],
        None => Seq::empty(),
    }
}

fn push_identifier(ids: &mut Vec<Identifier>, kind: IdentifierKind, text: &String)
    ensures
        final(ids)@.map_values(|x: Identifier| x@) == old(ids)@.map_values(|x: Identifier| x@)
            + seq![identifier(kind, text@)],
{
    let ghost before = ids@.map_values(|x: Identifier| x@);
    ids.push(Identifier { kind, text: text.clone() });
    assert(ids@.map_values(|x: Identifier| x@) =~= before + seq![identifier(kind, text@)]);
}

fn push_optional(ids: &mut Vec<Identifier>, kind: IdentifierKind, text: &Option<String>)
    ensures
        final(ids)@.map_values(|x: Identifier| x@) == old(ids)@.map_values(|x: Identifier| x@)
            + optional_identifier(kind, text_option(*text)),
{
    let ghost before = ids@.map_values(|x: Identifier| x@);
    if let Some(text) = text {
        ids.push(Identifier { kind, text: text.clone() });
    }
    assert(ids@.map_values(|x: Identifier| x@) =~= before + optional_identifier(
        kind,
        text_option(*text),
    ));
}

/// The identifiers of a [`FfiApplicationCommand`], in the order of its fields.
pub open spec fn command_identifiers_of(value: CommandView) -> Seq<IdentifierView> {
    match value {
        CommandView::JoinRoom { invitation } => seq![identifier(IdentifierKind::Invitation, invitation)],
        CommandView::VerifyPairing { room_id, verification_code } => seq![identifier(IdentifierKind::Room, room_id), identifier(IdentifierKind::VerificationCode, verification_code)],
        CommandView::ReconnectRelationship { relationship_id } => seq![identifier(IdentifierKind::Relationship, relationship_id)],
        CommandView::CreateTransfer { relationship_id, content_id, .. } => seq![identifier(IdentifierKind::Relationship, relationship_id), identifier(IdentifierKind::Content, content_id)],
        CommandView::AcceptTransfer { transfer_id } => seq![identifier(IdentifierKind::Transfer, transfer_id)],
        CommandView::RejectTransfer { transfer_id, .. } => seq![identifier(IdentifierKind::Transfer, transfer_id)],
        CommandView::PauseTransfer { transfer_id } => seq![identifier(IdentifierKind::Transfer, transfer_id)],
        CommandView::ResumeTransfer { transfer_id } => seq![identifier(IdentifierKind::Transfer, transfer_id)],
        CommandView::RecoverTransfer { transfer_id } => seq![identifier(IdentifierKind::Transfer, transfer_id)],
        CommandView::CancelTransfer { transfer_id } => seq![identifier(IdentifierKind::Transfer, transfer_id)],
        CommandView::RemoveTransfer { transfer_id } => seq![identifier(IdentifierKind::Transfer, transfer_id)],
        CommandView::RevokeRelationship { relationship_id } => seq![identifier(IdentifierKind::Relationship, relationship_id)],
        _ => Seq::empty(),
    }
}

/// The identifiers of a command that the engine has to accept.
pub fn command_identifiers(value: &FfiApplicationCommand) -> (r: Vec<Identifier>)
    ensures
        r@.map_values(|x: Identifier| x@) == command_identifiers_of(value@),
{
    let mut ids: Vec<Identifier> = Vec::new();
    match value {
        FfiApplicationCommand::JoinRoom { invitation } => {
            push_identifier(&mut ids, IdentifierKind::Invitation, invitation);
        },
        FfiApplicationCommand::VerifyPairing { room_id, verification_code } => {
            push_identifier(&mut ids, IdentifierKind::Room, room_id);
            push_identifier(&mut ids, IdentifierKind::VerificationCode, verification_code);
        },
        FfiApplicationCommand::ReconnectRelationship { relationship_id } => {
            push_identifier(&mut ids, IdentifierKind::Relationship, relationship_id);
        },
        FfiApplicationCommand::CreateTransfer { relationship_id, content_id, .. } => {
            push_identifier(&mut ids, IdentifierKind::Relationship, relationship_id);
            push_identifier(&mut ids, IdentifierKind::Content, content_id);
        },
        FfiApplicationCommand::AcceptTransfer { transfer_id } => {
            push_identifier(&mut ids, IdentifierKind::Transfer, transfer_id);
        },
        FfiApplicationCommand::RejectTransfer { transfer_id, .. } => {
            push_identifier(&mut ids, IdentifierKind::Transfer, transfer_id);
        },
        FfiApplicationCommand::PauseTransfer { transfer_id } => {
            push_identifier(&mut ids, IdentifierKind::Transfer, transfer_id);
        },
        FfiApplicationCommand::ResumeTransfer { transfer_id } => {
            push_identifier(&mut ids, IdentifierKind::Transfer, transfer_id);
        },
        FfiApplicationCommand::RecoverTransfer { transfer_id } => {
            push_identifier(&mut ids, IdentifierKind::Transfer, transfer_id);
        },
        FfiApplicationCommand::CancelTransfer { transfer_id } => {
            push_identifier(&mut ids, IdentifierKind::Transfer, transfer_id);
        },
        FfiApplicationCommand::RemoveTransfer { transfer_id } => {
            push_identifier(&mut ids, IdentifierKind::Transfer, transfer_id);
        },
        FfiApplicationCommand::RevokeRelationship { relationship_id } => {
            push_identifier(&mut ids, IdentifierKind::Relationship, relationship_id);
        },
        _ => {},
    }
    assert(ids@.map_values(|x: Identifier| x@) =~= command_identifiers_of(value@));
    ids
}

/// The identifiers of a [`FfiApplicationEvent`], in the order of its fields.
pub open spec fn event_identifiers_of(value: EventView) -> Seq<IdentifierView> {
    match value {
        EventView::DeviceObserved { device_id, .. } => seq![identifier(IdentifierKind::Device, device_id)],
        EventView::RelationshipTrusted { relationship_id, device_id, .. } => seq![identifier(IdentifierKind::Relationship, relationship_id), identifier(IdentifierKind::Device, device_id)],
        EventView::RelationshipRotated { relationship_id, .. } => seq![identifier(IdentifierKind::Relationship, relationship_id)],
        EventView::RelationshipRevoked { relationship_id } => seq![identifier(IdentifierKind::Relationship, relationship_id)],
        EventView::RoomOpened { room_id, relationship_id, replaces_room_id } => seq![identifier(IdentifierKind::Room, room_id)] + optional_identifier(IdentifierKind::Relationship, relationship_id) + optional_identifier(IdentifierKind::Room, replaces_room_id),
        EventView::RoomPeerAdmitted { room_id } => seq![identifier(IdentifierKind::Room, room_id)],
        EventView::RoomAuthenticated { room_id } => seq![identifier(IdentifierKind::Room, room_id)],
        EventView::RoomClosed { room_id, .. } => seq![identifier(IdentifierKind::Room, room_id)],
        EventView::TransferCreated { transfer_id, relationship_id, room_id, content_id, .. } => seq![identifier(IdentifierKind::Transfer, transfer_id)] + seq![identifier(IdentifierKind::Relationship, relationship_id)] + optional_identifier(IdentifierKind::Room, room_id) + seq![identifier(IdentifierKind::Content, content_id)],
        EventView::TransferOffered { transfer_id, relationship_id, room_id, content_id, .. } => seq![identifier(IdentifierKind::Transfer, transfer_id), identifier(IdentifierKind::Relationship, relationship_id), identifier(IdentifierKind::Room, room_id), identifier(IdentifierKind::Content, content_id)],
        EventView::TransferAccepted { transfer_id } => seq![identifier(IdentifierKind::Transfer, transfer_id)],
        EventView::TransferRejected { transfer_id, .. } => seq![identifier(IdentifierKind::Transfer, transfer_id)],
        EventView::TransferStarted { transfer_id } => seq![identifier(IdentifierKind::Transfer, transfer_id)],
        EventView::TransferProgressed { transfer_id, .. } => seq![identifier(IdentifierKind::Transfer, transfer_id)],
        EventView::TransferPaused { transfer_id } => seq![identifier(IdentifierKind::Transfer, transfer_id)],
        EventView::TransferResumed { transfer_id } => seq![identifier(IdentifierKind::Transfer, transfer_id)],
        EventView::TransferRecoveryStarted { transfer_id } => seq![identifier(IdentifierKind::Transfer, transfer_id)],
        EventView::TransferPayloadCompleted { transfer_id } => seq![identifier(IdentifierKind::Transfer, transfer_id)],
        EventView::TransferDeliveryProofVerified { transfer_id } => seq![identifier(IdentifierKind::Transfer, transfer_id)],
        EventView::TransferFailed { transfer_id, .. } => seq![identifier(IdentifierKind::Transfer, transfer_id)],
        EventView::TransferCanceled { transfer_id } => seq![identifier(IdentifierKind::Transfer, transfer_id)],
        EventView::TransferRemoved { transfer_id } => seq![identifier(IdentifierKind::Transfer, transfer_id)],
        _ => Seq::empty(),
    }
}

/// The identifiers of an event that the engine has to accept.
pub fn event_identifiers(value: &FfiApplicationEvent) -> (r: Vec<Identifier>)
    ensures
        r@.map_values(|x: Identifier| x@) == event_identifiers_of(value@),
{
    let mut ids: Vec<Identifier> = Vec::new();
    match value {
        FfiApplicationEvent::DeviceObserved { device_id, .. } => {
            push_identifier(&mut ids, IdentifierKind::Device, device_id);
        },
        FfiApplicationEvent::RelationshipTrusted { relationship_id, device_id, .. } => {
            push_identifier(&mut ids, IdentifierKind::Relationship, relationship_id);
            push_identifier(&mut ids, IdentifierKind::Device, device_id);
        },
        FfiApplicationEvent::RelationshipRotated { relationship_id, .. } => {
            push_identifier(&mut ids, IdentifierKind::Relationship, relationship_id);
        },
        FfiApplicationEvent::RelationshipRevoked { relationship_id } => {
            push_identifier(&mut ids, IdentifierKind::Relationship, relationship_id);
        },
        FfiApplicationEvent::RoomOpened { room_id, relationship_id, replaces_room_id } => {
            push_identifier(&mut ids, IdentifierKind::Room, room_id);
            push_optional(&mut ids, IdentifierKind::Relationship, relationship_id);
            push_optional(&mut ids, IdentifierKind::Room, replaces_room_id);
        },
        FfiApplicationEvent::RoomPeerAdmitted { room_id } => {
            push_identifier(&mut ids, IdentifierKind::Room, room_id);
        },
        FfiApplicationEvent::RoomAuthenticated { room_id } => {
            push_identifier(&mut ids, IdentifierKind::Room, room_id);
        },
        FfiApplicationEvent::RoomClosed { room_id, .. } => {
            push_identifier(&mut ids, IdentifierKind::Room, room_id);
        },
        FfiApplicationEvent::TransferCreated { transfer_id, relationship_id, room_id, content_id, .. } => {
            push_identifier(&mut ids, IdentifierKind::Transfer, transfer_id);
            push_identifier(&mut ids, IdentifierKind::Relationship, relationship_id);
            push_optional(&mut ids, IdentifierKind::Room, room_id);
            push_identifier(&mut ids, IdentifierKind::Content, content_id);
        },
        FfiApplicationEvent::TransferOffered { transfer_id, relationship_id, room_id, content_id, .. } => {
            push_identifier(&mut ids, IdentifierKind::Transfer, transfer_id);
            push_identifier(&mut ids, IdentifierKind::Relationship, relationship_id);
            push_identifier(&mut ids, IdentifierKind::Room, room_id);
            push_identifier(&mut ids, IdentifierKind::Content, content_id);
        },
        FfiApplicationEvent::TransferAccepted { transfer_id } => {
            push_identifier(&mut ids, IdentifierKind::Transfer, transfer_id);
        },
        FfiApplicationEvent::TransferRejected { transfer_id, .. } => {
            push_identifier(&mut ids, IdentifierKind::Transfer, transfer_id);
        },
        FfiApplicationEvent::TransferStarted { transfer_id } => {
            push_identifier(&mut ids, IdentifierKind::Transfer, transfer_id);
        },
        FfiApplicationEvent::TransferProgressed { transfer_id, .. } => {
            push_identifier(&mut ids, IdentifierKind::Transfer, transfer_id);
        },
        FfiApplicationEvent::TransferPaused { transfer_id } => {
            push_identifier(&mut ids, IdentifierKind::Transfer, transfer_id);
        },
        FfiApplicationEvent::TransferResumed { transfer_id } => {
            push_identifier(&mut ids, IdentifierKind::Transfer, transfer_id);
        },
        FfiApplicationEvent::TransferRecoveryStarted { transfer_id } => {
            push_identifier(&mut ids, IdentifierKind::Transfer, transfer_id);
        },
        FfiApplicationEvent::TransferPayloadCompleted { transfer_id } => {
            push_identifier(&mut ids, IdentifierKind::Transfer, transfer_id);
        },
        FfiApplicationEvent::TransferDeliveryProofVerified { transfer_id } => {
            push_identifier(&mut ids, IdentifierKind::Transfer, transfer_id);
        },
        FfiApplicationEvent::TransferFailed { transfer_id, .. } => {
            push_identifier(&mut ids, IdentifierKind::Transfer, transfer_id);
        },
        FfiApplicationEvent::TransferCanceled { transfer_id } => {
            push_identifier(&mut ids, IdentifierKind::Transfer, transfer_id);
        },
        FfiApplicationEvent::TransferRemoved { transfer_id } => {
            push_identifier(&mut ids, IdentifierKind::Transfer, transfer_id);
        },
        _ => {},
    }
    assert(ids@.map_values(|x: Identifier| x@) =~= event_identifiers_of(value@));
    ids
}

/// The status of one service.
pub open spec fn status_of(table: CapabilityTable, capability: PlatformCapability) -> FfiPlatformCapabilityStatus {
    FfiPlatformCapabilityStatus {
        capability: ffi_capability_of(capability),
        availability: ffi_availability_of(table.availability_of(capability)),
    }
}

/// Every service, in the order in which they are reported.
pub open spec fn all_capabilities() -> Seq<PlatformCapability> {
    seq![
        PlatformCapability::SecureVault,
        PlatformCapability::FileSource,
        PlatformCapability::FileDestination,
        PlatformCapability::NearbyDiscovery,
        PlatformCapability::ClipboardRead,
        PlatformCapability::ClipboardWrite,
        PlatformCapability::BackgroundExecution,
        PlatformCapability::Notifications,
    ]
}

/// The reported availability of every service.
pub open spec fn ffi_capabilities_of(table: CapabilityTable) -> PlatformCapabilitiesView {
    PlatformCapabilitiesView {
        values: all_capabilities().map_values(|c: PlatformCapability| status_of(table, c)),
    }
}

fn push_status(
    values: &mut Vec<FfiPlatformCapabilityStatus>,
    table: &CapabilityTable,
    capability: PlatformCapability,
)
    ensures
        final(values)@ == old(values)@.push(status_of(*table, capability)),
{
    values.push(
        FfiPlatformCapabilityStatus {
            capability: ffi_capability(capability),
            availability: ffi_availability(table.availability(capability)),
        },
    );
}

/// Reports the availability of every service, each once and in a fixed order.
pub fn ffi_capabilities(table: &CapabilityTable) -> (r: FfiPlatformCapabilities)
    ensures
        r@ == ffi_capabilities_of(*table),
{
    let mut values: Vec<FfiPlatformCapabilityStatus> = Vec::new();
    push_status(&mut values, table, PlatformCapability::SecureVault);
    push_status(&mut values, table, PlatformCapability::FileSource);
    push_status(&mut values, table, PlatformCapability::FileDestination);
    push_status(&mut values, table, PlatformCapability::NearbyDiscovery);
    push_status(&mut values, table, PlatformCapability::ClipboardRead);
    push_status(&mut values, table, PlatformCapability::ClipboardWrite);
    push_status(&mut values, table, PlatformCapability::BackgroundExecution);
    push_status(&mut values, table, PlatformCapability::Notifications);
    assert(values@ =~= ffi_capabilities_of(*table).values);
    FfiPlatformCapabilities { values }
}

/// The engine form of a status.
pub open spec fn entry_of(status: FfiPlatformCapabilityStatus) -> CapabilityEntry {
    CapabilityEntry {
        capability: core_capability_of(status.capability),
        availability: core_availability_of(status.availability),
    }
}

/// The engine form of reported availabilities, in their order.
pub open spec fn core_capabilities_of(capabilities: PlatformCapabilitiesView) -> CapabilityEntriesView {
    CapabilityEntriesView {
        entries: capabilities.values.map_values(|s: FfiPlatformCapabilityStatus| entry_of(s)),
    }
}

/// The engine form of reported availabilities, in their order.
pub fn core_capabilities(capabilities: &FfiPlatformCapabilities) -> (r: PlatformCapabilities)
    ensures
        r@ == core_capabilities_of(capabilities@),
{
    let values = &capabilities.values;
    let mut entries: Vec<CapabilityEntry> = Vec::new();
    let mut i: usize = 0;
    while i < values.len()
        invariant
            i <= values@.len(),
            entries@.len() == i,
            forall|k: int| 0 <= k < i ==> #[trigger] entries@[k] == entry_of(values@[k]),
        decreases values@.len() - i,
    {
        entries.push(
            CapabilityEntry {
                capability: core_capability(values[i].capability),
                availability: core_availability(values[i].availability),
            },
        );
        i += 1;
    }
    assert(entries@ =~= core_capabilities_of(capabilities@).entries);
    PlatformCapabilities { entries }
}

/// The native form of a failure, with the message key of its code.
pub open spec fn ffi_failure_of(failure: TransferFailure, message_key: Seq<char>) -> TransferFailureView {
    TransferFailureView {
        code: ffi_failure_code_of(failure.code),
        phase: ffi_failure_phase_of(failure.phase),
        retryable: failure.retryable,
        recovery_action: ffi_recovery_action_of(failure.recovery_action),
        user_message_key: message_key,
    }
}

/// Projects a failure; `message_key` is the message key of its code.
pub fn ffi_failure(failure: &TransferFailure, message_key: &str) -> (r: FfiApplicationTransferFailure)
    ensures
        r@ == ffi_failure_of(*failure, message_key@),
{
    FfiApplicationTransferFailure {
        code: ffi_failure_code(failure.code),
        phase: ffi_failure_phase(failure.phase),
        retryable: failure.retryable,
        recovery_action: ffi_recovery_action(failure.recovery_action),
        user_message_key: message_key.to_owned(),
    }
}

/// The engine form of a failure; its message key follows from its code.
pub open spec fn core_failure_of(failure: TransferFailureView) -> TransferFailure {
    TransferFailure {
        code: core_failure_code_of(failure.code),
        phase: core_failure_phase_of(failure.phase),
        retryable: failure.retryable,
        recovery_action: core_recovery_action_of(failure.recovery_action),
    }
}

/// The engine form of a failure.
pub fn core_failure(failure: &FfiApplicationTransferFailure) -> (r: TransferFailure)
    ensures
        r == core_failure_of(failure@),
{
    TransferFailure {
        code: core_failure_code(failure.code),
        phase: core_failure_phase(failure.phase),
        retryable: failure.retryable,
        recovery_action: core_recovery_action(failure.recovery_action),
    }
}

/// The [`EngineCommand`] that stands for a [`FfiApplicationCommand`].
pub open spec fn raw_command_of(value: CommandView) -> EngineCommandView {
    match value {
        CommandView::CreateRoom => EngineCommandView::CreateRoom,
        CommandView::JoinRoom { invitation } => EngineCommandView::JoinRoom { invitation },
        CommandView::VerifyPairing { room_id, verification_code } => EngineCommandView::VerifyPairing { room_id, verification_code },
        CommandView::ReconnectRelationship { relationship_id } => EngineCommandView::ReconnectRelationship { relationship_id },
        CommandView::CreateTransfer { relationship_id, content_id, direction } => EngineCommandView::CreateTransfer { relationship_id, content_id, direction: core_direction_of(direction) },
        CommandView::AcceptTransfer { transfer_id } => EngineCommandView::AcceptTransfer { transfer_id },
        CommandView::RejectTransfer { transfer_id, reason } => EngineCommandView::RejectTransfer { transfer_id, reason: core_rejection_of(reason) },
        CommandView::PauseTransfer { transfer_id } => EngineCommandView::PauseTransfer { transfer_id },
        CommandView::ResumeTransfer { transfer_id } => EngineCommandView::ResumeTransfer { transfer_id },
        CommandView::RecoverTransfer { transfer_id } => EngineCommandView::RecoverTransfer { transfer_id },
        CommandView::CancelTransfer { transfer_id } => EngineCommandView::CancelTransfer { transfer_id },
        CommandView::RemoveTransfer { transfer_id } => EngineCommandView::RemoveTransfer { transfer_id },
        CommandView::RevokeRelationship { relationship_id } => EngineCommandView::RevokeRelationship { relationship_id },
    }
}

pub fn raw_command(value: &FfiApplicationCommand) -> (r: EngineCommand)
    ensures
        r@ == raw_command_of(value@),
{
    match value {
        FfiApplicationCommand::CreateRoom => EngineCommand::CreateRoom,
        FfiApplicationCommand::JoinRoom { invitation } => EngineCommand::JoinRoom { invitation: invitation.clone() },
        FfiApplicationCommand::VerifyPairing { room_id, verification_code } => EngineCommand::VerifyPairing { room_id: room_id.clone(), verification_code: verification_code.clone() },
        FfiApplicationCommand::ReconnectRelationship { relationship_id } => EngineCommand::ReconnectRelationship { relationship_id: relationship_id.clone() },
        FfiApplicationCommand::CreateTransfer { relationship_id, content_id, direction } => EngineCommand::CreateTransfer { relationship_id: relationship_id.clone(), content_id: content_id.clone(), direction: core_direction(*direction) },
        FfiApplicationCommand::AcceptTransfer { transfer_id } => EngineCommand::AcceptTransfer { transfer_id: transfer_id.clone() },
        FfiApplicationCommand::RejectTransfer { transfer_id, reason } => EngineCommand::RejectTransfer { transfer_id: transfer_id.clone(), reason: core_rejection(*reason) },
        FfiApplicationCommand::PauseTransfer { transfer_id } => EngineCommand::PauseTransfer { transfer_id: transfer_id.clone() },
        FfiApplicationCommand::ResumeTransfer { transfer_id } => EngineCommand::ResumeTransfer { transfer_id: transfer_id.clone() },
        FfiApplicationCommand::RecoverTransfer { transfer_id } => EngineCommand::RecoverTransfer { transfer_id: transfer_id.clone() },
        FfiApplicationCommand::CancelTransfer { transfer_id } => EngineCommand::CancelTransfer { transfer_id: transfer_id.clone() },
        FfiApplicationCommand::RemoveTransfer { transfer_id } => EngineCommand::RemoveTransfer { transfer_id: transfer_id.clone() },
        FfiApplicationCommand::RevokeRelationship { relationship_id } => EngineCommand::RevokeRelationship { relationship_id: relationship_id.clone() },
    }
}

/// The [`FfiApplicationCommand`] that stands for a [`EngineCommand`].
pub open spec fn ffi_command_of(value: EngineCommandView) -> CommandView {
    match value {
        EngineCommandView::CreateRoom => CommandView::CreateRoom,
        EngineCommandView::JoinRoom { invitation } => CommandView::JoinRoom { invitation },
        EngineCommandView::VerifyPairing { room_id, verification_code } => CommandView::VerifyPairing { room_id, verification_code },
        EngineCommandView::ReconnectRelationship { relationship_id } => CommandView::ReconnectRelationship { relationship_id },
        EngineCommandView::CreateTransfer { relationship_id, content_id, direction } => CommandView::CreateTransfer { relationship_id, content_id, direction: ffi_direction_of(direction) },
        EngineCommandView::AcceptTransfer { transfer_id } => CommandView::AcceptTransfer { transfer_id },
        EngineCommandView::RejectTransfer { transfer_id, reason } => CommandView::RejectTransfer { transfer_id, reason: ffi_rejection_of(reason) },
        EngineCommandView::PauseTransfer { transfer_id } => CommandView::PauseTransfer { transfer_id },
        EngineCommandView::ResumeTransfer { transfer_id } => CommandView::ResumeTransfer { transfer_id },
        EngineCommandView::RecoverTransfer { transfer_id } => CommandView::RecoverTransfer { transfer_id },
        EngineCommandView::CancelTransfer { transfer_id } => CommandView::CancelTransfer { transfer_id },
        EngineCommandView::RemoveTransfer { transfer_id } => CommandView::RemoveTransfer { transfer_id },
        EngineCommandView::RevokeRelationship { relationship_id } => CommandView::RevokeRelationship { relationship_id },
    }
}

/// Projects a command.
pub fn ffi_command(value: &EngineCommand) -> (r: FfiApplicationCommand)
    ensures
        r@ == ffi_command_of(value@),
{
    match value {
        EngineCommand::CreateRoom => FfiApplicationCommand::CreateRoom,
        EngineCommand::JoinRoom { invitation } => FfiApplicationCommand::JoinRoom { invitation: invitation.clone() },
        EngineCommand::VerifyPairing { room_id, verification_code } => FfiApplicationCommand::VerifyPairing { room_id: room_id.clone(), verification_code: verification_code.clone() },
        EngineCommand::ReconnectRelationship { relationship_id } => FfiApplicationCommand::ReconnectRelationship { relationship_id: relationship_id.clone() },
        EngineCommand::CreateTransfer { relationship_id, content_id, direction } => FfiApplicationCommand::CreateTransfer { relationship_id: relationship_id.clone(), content_id: content_id.clone(), direction: ffi_direction(*direction) },
        EngineCommand::AcceptTransfer { transfer_id } => FfiApplicationCommand::AcceptTransfer { transfer_id: transfer_id.clone() },
        EngineCommand::RejectTransfer { transfer_id, reason } => FfiApplicationCommand::RejectTransfer { transfer_id: transfer_id.clone(), reason: ffi_rejection(*reason) },
        EngineCommand::PauseTransfer { transfer_id } => FfiApplicationCommand::PauseTransfer { transfer_id: transfer_id.clone() },
        EngineCommand::ResumeTransfer { transfer_id } => FfiApplicationCommand::ResumeTransfer { transfer_id: transfer_id.clone() },
        EngineCommand::RecoverTransfer { transfer_id } => FfiApplicationCommand::RecoverTransfer { transfer_id: transfer_id.clone() },
        EngineCommand::CancelTransfer { transfer_id } => FfiApplicationCommand::CancelTransfer { transfer_id: transfer_id.clone() },
        EngineCommand::RemoveTransfer { transfer_id } => FfiApplicationCommand::RemoveTransfer { transfer_id: transfer_id.clone() },
        EngineCommand::RevokeRelationship { relationship_id } => FfiApplicationCommand::RevokeRelationship { relationship_id: relationship_id.clone() },
    }
}

/// The [`FfiApplicationCommandEnvelope`] that stands for a [`CommandEnvelope`].
pub open spec fn ffi_command_envelope_of(value: EngineCommandEnvelopeView) -> CommandEnvelopeView {
    CommandEnvelopeView {
        contract_version: value.contract_version,
        command_id: value.command_id,
        command: ffi_command_of(value.command),
    }
}

/// Projects a command with its identity.
pub fn ffi_command_envelope(value: &CommandEnvelope) -> (r: FfiApplicationCommandEnvelope)
    ensures
        r@ == ffi_command_envelope_of(value@),
{
    FfiApplicationCommandEnvelope {
        contract_version: value.contract_version,
        command_id: value.command_id.clone(),
        command: ffi_command(&value.command),
    }
}

/// The [`EngineEvent`] that stands for a [`FfiApplicationEvent`].
pub open spec fn raw_event_of(value: EventView) -> EngineEventView {
    match value {
        EventView::CapabilitiesChanged { capabilities } => EngineEventView::CapabilitiesChanged { capabilities: core_capabilities_of(capabilities) },
        EventView::DeviceObserved { device_id, display_name } => EngineEventView::DeviceObserved { device_id, display_name },
        EventView::RelationshipTrusted { relationship_id, device_id, generation } => EngineEventView::RelationshipTrusted { relationship_id, device_id, generation },
        EventView::RelationshipRotated { relationship_id, generation } => EngineEventView::RelationshipRotated { relationship_id, generation },
        EventView::RelationshipRevoked { relationship_id } => EngineEventView::RelationshipRevoked { relationship_id },
        EventView::RoomOpened { room_id, relationship_id, replaces_room_id } => EngineEventView::RoomOpened { room_id, relationship_id, replaces_room_id },
        EventView::RoomPeerAdmitted { room_id } => EngineEventView::RoomPeerAdmitted { room_id },
        EventView::RoomAuthenticated { room_id } => EngineEventView::RoomAuthenticated { room_id },
        EventView::RoomClosed { room_id, reason } => EngineEventView::RoomClosed { room_id, reason: core_close_reason_of(reason) },
        EventView::TransferCreated { transfer_id, relationship_id, room_id, content_id, direction, total_bytes } => EngineEventView::TransferCreated { transfer_id, relationship_id, room_id, content_id, direction: core_direction_of(direction), total_bytes },
        EventView::TransferOffered { transfer_id, relationship_id, room_id, content_id, total_bytes } => EngineEventView::TransferOffered { transfer_id, relationship_id, room_id, content_id, total_bytes },
        EventView::TransferAccepted { transfer_id } => EngineEventView::TransferAccepted { transfer_id },
        EventView::TransferRejected { transfer_id, reason } => EngineEventView::TransferRejected { transfer_id, reason: core_rejection_of(reason) },
        EventView::TransferStarted { transfer_id } => EngineEventView::TransferStarted { transfer_id },
        EventView::TransferProgressed { transfer_id, transferred_bytes } => EngineEventView::TransferProgressed { transfer_id, transferred_bytes },
        EventView::TransferPaused { transfer_id } => EngineEventView::TransferPaused { transfer_id },
        EventView::TransferResumed { transfer_id } => EngineEventView::TransferResumed { transfer_id },
        EventView::TransferRecoveryStarted { transfer_id } => EngineEventView::TransferRecoveryStarted { transfer_id },
        EventView::TransferPayloadCompleted { transfer_id } => EngineEventView::TransferPayloadCompleted { transfer_id },
        EventView::TransferDeliveryProofVerified { transfer_id } => EngineEventView::TransferDeliveryProofVerified { transfer_id },
        EventView::TransferFailed { transfer_id, failure } => EngineEventView::TransferFailed { transfer_id, failure: core_failure_of(failure) },
        EventView::TransferCanceled { transfer_id } => EngineEventView::TransferCanceled { transfer_id },
        EventView::TransferRemoved { transfer_id } => EngineEventView::TransferRemoved { transfer_id },
    }
}

pub fn raw_event(value: &FfiApplicationEvent) -> (r: EngineEvent)
    ensures
        r@ == raw_event_of(value@),
{
    match value {
        FfiApplicationEvent::CapabilitiesChanged { capabilities } => EngineEvent::CapabilitiesChanged { capabilities: core_capabilities(capabilities) },
        FfiApplicationEvent::DeviceObserved { device_id, display_name } => EngineEvent::DeviceObserved { device_id: device_id.clone(), display_name: display_name.clone() },
        FfiApplicationEvent::RelationshipTrusted { relationship_id, device_id, generation } => EngineEvent::RelationshipTrusted { relationship_id: relationship_id.clone(), device_id: device_id.clone(), generation: *generation },
        FfiApplicationEvent::RelationshipRotated { relationship_id, generation } => EngineEvent::RelationshipRotated { relationship_id: relationship_id.clone(), generation: *generation },
        FfiApplicationEvent::RelationshipRevoked { relationship_id } => EngineEvent::RelationshipRevoked { relationship_id: relationship_id.clone() },
        FfiApplicationEvent::RoomOpened { room_id, relationship_id, replaces_room_id } => EngineEvent::RoomOpened { room_id: room_id.clone(), relationship_id: relationship_id.clone(), replaces_room_id: replaces_room_id.clone() },
        FfiApplicationEvent::RoomPeerAdmitted { room_id } => EngineEvent::RoomPeerAdmitted { room_id: room_id.clone() },
        FfiApplicationEvent::RoomAuthenticated { room_id } => EngineEvent::RoomAuthenticated { room_id: room_id.clone() },
        FfiApplicationEvent::RoomClosed { room_id, reason } => EngineEvent::RoomClosed { room_id: room_id.clone(), reason: core_room_close_reason(*reason) },
        FfiApplicationEvent::TransferCreated { transfer_id, relationship_id, room_id, content_id, direction, total_bytes } => EngineEvent::TransferCreated { transfer_id: transfer_id.clone(), relationship_id: relationship_id.clone(), room_id: room_id.clone(), content_id: content_id.clone(), direction: core_direction(*direction), total_bytes: *total_bytes },
        FfiApplicationEvent::TransferOffered { transfer_id, relationship_id, room_id, content_id, total_bytes } => EngineEvent::TransferOffered { transfer_id: transfer_id.clone(), relationship_id: relationship_id.clone(), room_id: room_id.clone(), content_id: content_id.clone(), total_bytes: *total_bytes },
        FfiApplicationEvent::TransferAccepted { transfer_id } => EngineEvent::TransferAccepted { transfer_id: transfer_id.clone() },
        FfiApplicationEvent::TransferRejected { transfer_id, reason } => EngineEvent::TransferRejected { transfer_id: transfer_id.clone(), reason: core_rejection(*reason) },
        FfiApplicationEvent::TransferStarted { transfer_id } => EngineEvent::TransferStarted { transfer_id: transfer_id.clone() },
        FfiApplicationEvent::TransferProgressed { transfer_id, transferred_bytes } => EngineEvent::TransferProgressed { transfer_id: transfer_id.clone(), transferred_bytes: *transferred_bytes },
        FfiApplicationEvent::TransferPaused { transfer_id } => EngineEvent::TransferPaused { transfer_id: transfer_id.clone() },
        FfiApplicationEvent::TransferResumed { transfer_id } => EngineEvent::TransferResumed { transfer_id: transfer_id.clone() },
        FfiApplicationEvent::TransferRecoveryStarted { transfer_id } => EngineEvent::TransferRecoveryStarted { transfer_id: transfer_id.clone() },
        FfiApplicationEvent::TransferPayloadCompleted { transfer_id } => EngineEvent::TransferPayloadCompleted { transfer_id: transfer_id.clone() },
        FfiApplicationEvent::TransferDeliveryProofVerified { transfer_id } => EngineEvent::TransferDeliveryProofVerified { transfer_id: transfer_id.clone() },
        FfiApplicationEvent::TransferFailed { transfer_id, failure } => EngineEvent::TransferFailed { transfer_id: transfer_id.clone(), failure: core_failure(failure) },
        FfiApplicationEvent::TransferCanceled { transfer_id } => EngineEvent::TransferCanceled { transfer_id: transfer_id.clone() },
        FfiApplicationEvent::TransferRemoved { transfer_id } => EngineEvent::TransferRemoved { transfer_id: transfer_id.clone() },
    }
}

/// Whether the engine rejects one of the identifiers.
pub open spec fn rejects(ids: Seq<IdentifierView>, id_error: Option<Seq<char>>) -> bool {
    ids.len() > 0 && id_error is Some
}

/// The engine form of a command, or why it has none.
pub open spec fn core_command_of(command: CommandView, id_error: Option<Seq<char>>) -> Result<
    EngineCommandView,
    ApplicationErrorView,
> {
    if rejects(command_identifiers_of(command), id_error) {
        Err(invalid_input_of(id_error->0))
    } else {
        Ok(raw_command_of(command))
    }
}

/// The engine form of a command. `id_error` is what the engine says of the
/// first of the command's identifiers that it rejects, if it rejects one.
pub fn core_command(command: &FfiApplicationCommand, id_error: &Option<String>) -> (r: Result<
    EngineCommand,
    FfiApplicationError,
>)
    ensures
        (match r {
            Ok(command) => Ok(command@),
            Err(error) => Err(error@),
        }) == core_command_of(command@, text_option(*id_error)),
{
    if let Some(reason) = id_error {
        let ids = command_identifiers(command);
        assert(ids@.map_values(|x: Identifier| x@).len() == ids@.len());
        if ids.len() > 0 {
            return Err(invalid_input(reason.as_str()));
        }
    }
    Ok(raw_command(command))
}

/// The engine form of a command with its identity, or why it has none.
pub open spec fn core_command_envelope_of(
    envelope: CommandEnvelopeView,
    id_error: Option<Seq<char>>,
) -> Result<EngineCommandEnvelopeView, ApplicationErrorView> {
    match id_error {
        Some(reason) => Err(invalid_input_of(reason)),
        None => Ok(
            EngineCommandEnvelopeView {
                contract_version: envelope.contract_version,
                command_id: envelope.command_id,
                command: raw_command_of(envelope.command),
            },
        ),
    }
}

/// The engine form of a command with its identity. `id_error` is what the
/// engine says of the first identifier that it rejects, if it rejects one: the
/// command's own identity comes first.
pub fn core_command_envelope(
    envelope: &FfiApplicationCommandEnvelope,
    id_error: &Option<String>,
) -> (r: Result<CommandEnvelope, FfiApplicationError>)
    ensures
        (match r {
            Ok(envelope) => Ok(envelope@),
            Err(error) => Err(error@),
        }) == core_command_envelope_of(envelope@, text_option(*id_error)),
{
    match id_error {
        Some(reason) => Err(invalid_input(reason.as_str())),
        None => Ok(
            CommandEnvelope {
                contract_version: envelope.contract_version,
                command_id: envelope.command_id.clone(),
                command: raw_command(&envelope.command),
            },
        ),
    }
}

/// The engine form of an event, or why it has none.
pub open spec fn core_event_of(event: EventView, id_error: Option<Seq<char>>) -> Result<
    EngineEventView,
    ApplicationErrorView,
> {
    if rejects(event_identifiers_of(event), id_error) {
        Err(invalid_input_of(id_error->0))
    } else {
        Ok(raw_event_of(event))
    }
}

/// The engine form of an event. `id_error` is what the engine says of the first
/// of the event's identifiers that it rejects, if it rejects one.
pub fn core_event(event: &FfiApplicationEvent, id_error: &Option<String>) -> (r: Result<
    EngineEvent,
    FfiApplicationError,
>)
    ensures
        (match r {
            Ok(event) => Ok(event@),
            Err(error) => Err(error@),
        }) == core_event_of(event@, text_option(*id_error)),
{
    if let Some(reason) = id_error {
        let ids = event_identifiers(event);
        assert(ids@.map_values(|x: Identifier| x@).len() == ids@.len());
        if ids.len() > 0 {
            return Err(invalid_input(reason.as_str()));
        }
    }
    Ok(raw_event(event))
}

/// The engine form of an event with its place, or why it has none.
pub open spec fn core_event_envelope_of(
    envelope: EventEnvelopeView,
    id_error: Option<Seq<char>>,
) -> Result<EngineEventEnvelopeView, ApplicationErrorView> {
    match core_event_of(envelope.event, id_error) {
        Err(error) => Err(error),
        Ok(event) => Ok(
            EngineEventEnvelopeView {
                contract_version: envelope.contract_version,
                sequence: envelope.sequence,
                event,
            },
        ),
    }
}

/// The engine form of an event with its place in the order of events.
pub fn core_event_envelope(
    envelope: &FfiApplicationEventEnvelope,
    id_error: &Option<String>,
) -> (r: Result<EventEnvelope, FfiApplicationError>)
    ensures
        (match r {
            Ok(envelope) => Ok(envelope@),
            Err(error) => Err(error@),
        }) == core_event_envelope_of(envelope@, text_option(*id_error)),
{
    match core_event(&envelope.event, id_error) {
        Err(error) => Err(error),
        Ok(event) => Ok(
            EventEnvelope {
                contract_version: envelope.contract_version,
                sequence: envelope.sequence,
                event,
            },
        ),
    }
}

/// The [`FfiApplicationEvent`] that stands for a [`EngineEvent`].
pub open spec fn plain_event_of(value: EngineEventView) -> Option<EventView> {
    match value {
        EngineEventView::DeviceObserved { device_id, display_name } => Some(EventView::DeviceObserved { device_id, display_name }),
        EngineEventView::RelationshipTrusted { relationship_id, device_id, generation } => Some(EventView::RelationshipTrusted { relationship_id, device_id, generation }),
        EngineEventView::RelationshipRotated { relationship_id, generation } => Some(EventView::RelationshipRotated { relationship_id, generation }),
        EngineEventView::RelationshipRevoked { relationship_id } => Some(EventView::RelationshipRevoked { relationship_id }),
        EngineEventView::RoomOpened { room_id, relationship_id, replaces_room_id } => Some(EventView::RoomOpened { room_id, relationship_id, replaces_room_id }),
        EngineEventView::RoomPeerAdmitted { room_id } => Some(EventView::RoomPeerAdmitted { room_id }),
        EngineEventView::RoomAuthenticated { room_id } => Some(EventView::RoomAuthenticated { room_id }),
        EngineEventView::RoomClosed { room_id, reason } => Some(EventView::RoomClosed { room_id, reason: ffi_close_reason_of(reason) }),
        EngineEventView::TransferCreated { transfer_id, relationship_id, room_id, content_id, direction, total_bytes } => Some(EventView::TransferCreated { transfer_id, relationship_id, room_id, content_id, direction: ffi_direction_of(direction), total_bytes }),
        EngineEventView::TransferOffered { transfer_id, relationship_id, room_id, content_id, total_bytes } => Some(EventView::TransferOffered { transfer_id, relationship_id, room_id, content_id, total_bytes }),
        EngineEventView::TransferAccepted { transfer_id } => Some(EventView::TransferAccepted { transfer_id }),
        EngineEventView::TransferRejected { transfer_id, reason } => Some(EventView::TransferRejected { transfer_id, reason: ffi_rejection_of(reason) }),
        EngineEventView::TransferStarted { transfer_id } => Some(EventView::TransferStarted { transfer_id }),
        EngineEventView::TransferProgressed { transfer_id, transferred_bytes } => Some(EventView::TransferProgressed { transfer_id, transferred_bytes }),
        EngineEventView::TransferPaused { transfer_id } => Some(EventView::TransferPaused { transfer_id }),
        EngineEventView::TransferResumed { transfer_id } => Some(EventView::TransferResumed { transfer_id }),
        EngineEventView::TransferRecoveryStarted { transfer_id } => Some(EventView::TransferRecoveryStarted { transfer_id }),
        EngineEventView::TransferPayloadCompleted { transfer_id } => Some(EventView::TransferPayloadCompleted { transfer_id }),
        EngineEventView::TransferDeliveryProofVerified { transfer_id } => Some(EventView::TransferDeliveryProofVerified { transfer_id }),
        EngineEventView::TransferCanceled { transfer_id } => Some(EventView::TransferCanceled { transfer_id }),
        EngineEventView::TransferRemoved { transfer_id } => Some(EventView::TransferRemoved { transfer_id }),
        _ => None,
    }
}

/// Projects an event that holds neither capabilities nor a failure.
pub fn plain_event(value: &EngineEvent) -> (r: Option<FfiApplicationEvent>)
    ensures
        (match r {
            Some(x) => Some(x@),
            None => None,
        }) == plain_event_of(value@),
{
    match value {
        EngineEvent::DeviceObserved { device_id, display_name } => Some(FfiApplicationEvent::DeviceObserved { device_id: device_id.clone(), display_name: display_name.clone() }),
        EngineEvent::RelationshipTrusted { relationship_id, device_id, generation } => Some(FfiApplicationEvent::RelationshipTrusted { relationship_id: relationship_id.clone(), device_id: device_id.clone(), generation: *generation }),
        EngineEvent::RelationshipRotated { relationship_id, generation } => Some(FfiApplicationEvent::RelationshipRotated { relationship_id: relationship_id.clone(), generation: *generation }),
        EngineEvent::RelationshipRevoked { relationship_id } => Some(FfiApplicationEvent::RelationshipRevoked { relationship_id: relationship_id.clone() }),
        EngineEvent::RoomOpened { room_id, relationship_id, replaces_room_id } => Some(FfiApplicationEvent::RoomOpened { room_id: room_id.clone(), relationship_id: relationship_id.clone(), replaces_room_id: replaces_room_id.clone() }),
        EngineEvent::RoomPeerAdmitted { room_id } => Some(FfiApplicationEvent::RoomPeerAdmitted { room_id: room_id.clone() }),
        EngineEvent::RoomAuthenticated { room_id } => Some(FfiApplicationEvent::RoomAuthenticated { room_id: room_id.clone() }),
        EngineEvent::RoomClosed { room_id, reason } => Some(FfiApplicationEvent::RoomClosed { room_id: room_id.clone(), reason: ffi_room_close_reason(*reason) }),
        EngineEvent::TransferCreated { transfer_id, relationship_id, room_id, content_id, direction, total_bytes } => Some(FfiApplicationEvent::TransferCreated { transfer_id: transfer_id.clone(), relationship_id: relationship_id.clone(), room_id: room_id.clone(), content_id: content_id.clone(), direction: ffi_direction(*direction), total_bytes: *total_bytes }),
        EngineEvent::TransferOffered { transfer_id, relationship_id, room_id, content_id, total_bytes } => Some(FfiApplicationEvent::TransferOffered { transfer_id: transfer_id.clone(), relationship_id: relationship_id.clone(), room_id: room_id.clone(), content_id: content_id.clone(), total_bytes: *total_bytes }),
        EngineEvent::TransferAccepted { transfer_id } => Some(FfiApplicationEvent::TransferAccepted { transfer_id: transfer_id.clone() }),
        EngineEvent::TransferRejected { transfer_id, reason } => Some(FfiApplicationEvent::TransferRejected { transfer_id: transfer_id.clone(), reason: ffi_rejection(*reason) }),
        EngineEvent::TransferStarted { transfer_id } => Some(FfiApplicationEvent::TransferStarted { transfer_id: transfer_id.clone() }),
        EngineEvent::TransferProgressed { transfer_id, transferred_bytes } => Some(FfiApplicationEvent::TransferProgressed { transfer_id: transfer_id.clone(), transferred_bytes: *transferred_bytes }),
        EngineEvent::TransferPaused { transfer_id } => Some(FfiApplicationEvent::TransferPaused { transfer_id: transfer_id.clone() }),
        EngineEvent::TransferResumed { transfer_id } => Some(FfiApplicationEvent::TransferResumed { transfer_id: transfer_id.clone() }),
        EngineEvent::TransferRecoveryStarted { transfer_id } => Some(FfiApplicationEvent::TransferRecoveryStarted { transfer_id: transfer_id.clone() }),
        EngineEvent::TransferPayloadCompleted { transfer_id } => Some(FfiApplicationEvent::TransferPayloadCompleted { transfer_id: transfer_id.clone() }),
        EngineEvent::TransferDeliveryProofVerified { transfer_id } => Some(FfiApplicationEvent::TransferDeliveryProofVerified { transfer_id: transfer_id.clone() }),
        EngineEvent::TransferCanceled { transfer_id } => Some(FfiApplicationEvent::TransferCanceled { transfer_id: transfer_id.clone() }),
        EngineEvent::TransferRemoved { transfer_id } => Some(FfiApplicationEvent::TransferRemoved { transfer_id: transfer_id.clone() }),
        _ => None,
    }
}

/// The native form of an event, or `None` where the binding has none.
pub open spec fn ffi_event_of(
    event: EngineEventView,
    table: CapabilityTable,
    message_key: Seq<char>,
) -> Option<EventView> {
    match event {
        EngineEventView::CapabilitiesChanged { capabilities } => Some(
            EventView::CapabilitiesChanged { capabilities: ffi_capabilities_of(table) },
        ),
        EngineEventView::TransferFailed { transfer_id, failure } => Some(
            EventView::TransferFailed { transfer_id, failure: ffi_failure_of(failure, message_key) },
        ),
        _ => plain_event_of(event),
    }
}

/// The native form of an event with its place, or why it has none.
pub open spec fn ffi_event_envelope_of(
    envelope: EngineEventEnvelopeView,
    table: CapabilityTable,
    message_key: Seq<char>,
) -> Result<EventEnvelopeView, ApplicationErrorView> {
    match ffi_event_of(envelope.event, table, message_key) {
        Some(event) => Ok(
            EventEnvelopeView {
                contract_version: envelope.contract_version,
                sequence: envelope.sequence,
                event,
            },
        ),
        None => Err(
            ApplicationErrorView::Failed {
                code: FfiApplicationErrorCode::UnsupportedEvent,
                reason: "historical event is not part of application binding v1"@,
            },
        ),
    }
}

/// Projects an event with its place. `table` is what the engine answers of the
/// event's capabilities and `message_key` the message key of its failure's
/// code.
pub fn ffi_event_envelope(
    envelope: &EventEnvelope,
    table: &CapabilityTable,
    message_key: &str,
) -> (r: Result<FfiApplicationEventEnvelope, FfiApplicationError>)
    ensures
        (match r {
            Ok(envelope) => Ok(envelope@),
            Err(error) => Err(error@),
        }) == ffi_event_envelope_of(envelope@, *table, message_key@),
{
    let event = match &envelope.event {
        EngineEvent::CapabilitiesChanged { .. } => Some(
            FfiApplicationEvent::CapabilitiesChanged { capabilities: ffi_capabilities(table) },
        ),
        EngineEvent::TransferFailed { transfer_id, failure } => Some(
            FfiApplicationEvent::TransferFailed {
                transfer_id: transfer_id.clone(),
                failure: ffi_failure(failure, message_key),
            },
        ),
        event => plain_event(event),
    };
    match event {
        Some(event) => Ok(
            FfiApplicationEventEnvelope {
                contract_version: envelope.contract_version,
                sequence: envelope.sequence,
                event,
            },
        ),
        None => Err(
            FfiApplicationError::Failed {
                code: FfiApplicationErrorCode::UnsupportedEvent,
                reason: "historical event is not part of application binding v1".to_owned(),
            },
        ),
    }
}

/// The [`FfiApplicationEffect`] that stands for a [`EngineEffect`].
pub open spec fn ffi_effect_of(value: EngineEffectView) -> EffectView {
    match value {
        EngineEffectView::CreateRoom => EffectView::CreateRoom,
        EngineEffectView::JoinRoom { invitation } => EffectView::JoinRoom { invitation },
        EngineEffectView::VerifyPairing { room_id, verification_code } => EffectView::VerifyPairing { room_id, verification_code },
        EngineEffectView::ReconnectRelationship { relationship_id, generation, previous_generation } => EffectView::ReconnectRelationship { relationship_id, generation, previous_generation },
        EngineEffectView::CreateTransfer { relationship_id, content_id, direction } => EffectView::CreateTransfer { relationship_id, content_id, direction: ffi_direction_of(direction) },
        EngineEffectView::AcceptTransfer { transfer_id } => EffectView::AcceptTransfer { transfer_id },
        EngineEffectView::RejectTransfer { transfer_id, reason } => EffectView::RejectTransfer { transfer_id, reason: ffi_rejection_of(reason) },
        EngineEffectView::PauseTransfer { transfer_id } => EffectView::PauseTransfer { transfer_id },
        EngineEffectView::ResumeTransfer { transfer_id } => EffectView::ResumeTransfer { transfer_id },
        EngineEffectView::RecoverTransfer { transfer_id, action } => EffectView::RecoverTransfer { transfer_id, action: ffi_recovery_action_of(action) },
        EngineEffectView::CancelTransfer { transfer_id } => EffectView::CancelTransfer { transfer_id },
        EngineEffectView::RemoveTransfer { transfer_id } => EffectView::RemoveTransfer { transfer_id },
        EngineEffectView::RevokeRelationship { relationship_id } => EffectView::RevokeRelationship { relationship_id },
    }
}

/// Projects an effect.
pub fn ffi_effect(value: &EngineEffect) -> (r: FfiApplicationEffect)
    ensures
        r@ == ffi_effect_of(value@),
{
    match value {
        EngineEffect::CreateRoom => FfiApplicationEffect::CreateRoom,
        EngineEffect::JoinRoom { invitation } => FfiApplicationEffect::JoinRoom { invitation: invitation.clone() },
        EngineEffect::VerifyPairing { room_id, verification_code } => FfiApplicationEffect::VerifyPairing { room_id: room_id.clone(), verification_code: verification_code.clone() },
        EngineEffect::ReconnectRelationship { relationship_id, generation, previous_generation } => FfiApplicationEffect::ReconnectRelationship { relationship_id: relationship_id.clone(), generation: *generation, previous_generation: *previous_generation },
        EngineEffect::CreateTransfer { relationship_id, content_id, direction } => FfiApplicationEffect::CreateTransfer { relationship_id: relationship_id.clone(), content_id: content_id.clone(), direction: ffi_direction(*direction) },
        EngineEffect::AcceptTransfer { transfer_id } => FfiApplicationEffect::AcceptTransfer { transfer_id: transfer_id.clone() },
        EngineEffect::RejectTransfer { transfer_id, reason } => FfiApplicationEffect::RejectTransfer { transfer_id: transfer_id.clone(), reason: ffi_rejection(*reason) },
        EngineEffect::PauseTransfer { transfer_id } => FfiApplicationEffect::PauseTransfer { transfer_id: transfer_id.clone() },
        EngineEffect::ResumeTransfer { transfer_id } => FfiApplicationEffect::ResumeTransfer { transfer_id: transfer_id.clone() },
        EngineEffect::RecoverTransfer { transfer_id, action } => FfiApplicationEffect::RecoverTransfer { transfer_id: transfer_id.clone(), action: ffi_recovery_action(*action) },
        EngineEffect::CancelTransfer { transfer_id } => FfiApplicationEffect::CancelTransfer { transfer_id: transfer_id.clone() },
        EngineEffect::RemoveTransfer { transfer_id } => FfiApplicationEffect::RemoveTransfer { transfer_id: transfer_id.clone() },
        EngineEffect::RevokeRelationship { relationship_id } => FfiApplicationEffect::RevokeRelationship { relationship_id: relationship_id.clone() },
    }
}

/// The [`FfiApplicationEffectEnvelope`] that stands for a [`EffectEnvelope`].
pub open spec fn ffi_effect_envelope_of(value: EngineEffectEnvelopeView) -> EffectEnvelopeView {
    EffectEnvelopeView {
        contract_version: value.contract_version,
        command_id: value.command_id,
        effect: ffi_effect_of(value.effect),
    }
}

/// Projects an effect with the identity of its command.
pub fn ffi_effect_envelope(value: &EffectEnvelope) -> (r: FfiApplicationEffectEnvelope)
    ensures
        r@ == ffi_effect_envelope_of(value@),
{
    FfiApplicationEffectEnvelope {
        contract_version: value.contract_version,
        command_id: value.command_id.clone(),
        effect: ffi_effect(&value.effect),
    }
}

/// [`ffi_close_reason_of`], where there is a value.
pub open spec fn ffi_optional_close_reason_of(value: Option<RoomCloseReason>) -> Option<FfiApplicationRoomCloseReason> {
    match value {
        Some(x) => Some(ffi_close_reason_of(x)),
        None => None,
    }
}

fn ffi_optional_close_reason(value: Option<RoomCloseReason>) -> (r: Option<FfiApplicationRoomCloseReason>)
    ensures
        r == ffi_optional_close_reason_of(value),
{
    match value {
        Some(x) => Some(ffi_room_close_reason(x)),
        None => None,
    }
}

/// [`ffi_rejection_of`], where there is a value.
pub open spec fn ffi_optional_rejection_of(value: Option<TransferRejection>) -> Option<FfiTransferRejection> {
    match value {
        Some(x) => Some(ffi_rejection_of(x)),
        None => None,
    }
}

fn ffi_optional_rejection(value: Option<TransferRejection>) -> (r: Option<FfiTransferRejection>)
    ensures
        r == ffi_optional_rejection_of(value),
{
    match value {
        Some(x) => Some(ffi_rejection(x)),
        None => None,
    }
}

/// The native form of a recorded failure, where there is one.
pub open spec fn ffi_optional_failure_of(failure: Option<FailureRecordView>) -> Option<
    TransferFailureView,
> {
    match failure {
        Some(record) => Some(ffi_failure_of(record.failure, record.message_key)),
        None => None,
    }
}

fn ffi_optional_failure(failure: &Option<FailureRecord>) -> (r: Option<
    FfiApplicationTransferFailure,
>)
    ensures
        (match r {
            Some(failure) => Some(failure@),
            None => None,
        }) == ffi_optional_failure_of(
            match *failure {
                Some(record) => Some(record@),
                None => None,
            },
        ),
{
    match failure {
        Some(record) => Some(ffi_failure(&record.failure, record.message_key.as_str())),
        None => None,
    }
}

/// The [`FfiApplicationDevice`] that stands for a [`DeviceRecord`].
pub open spec fn ffi_device_of(value: DeviceRecordView) -> DeviceView {
    DeviceView {
        id: value.id,
        display_name: value.display_name,
    }
}

/// Projects a device.
pub fn ffi_device(value: &DeviceRecord) -> (r: FfiApplicationDevice)
    ensures
        r@ == ffi_device_of(value@),
{
    FfiApplicationDevice {
        id: value.id.clone(),
        display_name: value.display_name.clone(),
    }
}

/// The [`FfiApplicationRelationship`] that stands for a [`RelationshipRecord`].
pub open spec fn ffi_relationship_of(value: RelationshipRecordView) -> RelationshipView {
    RelationshipView {
        id: value.id,
        device_id: value.device_id,
        generation: value.generation,
        previous_generation: value.previous_generation,
        state: ffi_relationship_state_of(value.state),
    }
}

/// Projects a relationship.
pub fn ffi_relationship(value: &RelationshipRecord) -> (r: FfiApplicationRelationship)
    ensures
        r@ == ffi_relationship_of(value@),
{
    FfiApplicationRelationship {
        id: value.id.clone(),
        device_id: value.device_id.clone(),
        generation: value.generation,
        previous_generation: value.previous_generation,
        state: ffi_relationship_state(value.state),
    }
}

/// The [`FfiApplicationRoom`] that stands for a [`RoomRecord`].
pub open spec fn ffi_room_of(value: RoomRecordView) -> RoomView {
    RoomView {
        id: value.id,
        relationship_id: value.relationship_id,
        state: ffi_room_state_of(value.state),
        close_reason: ffi_optional_close_reason_of(value.close_reason),
        replacement_room_id: value.replacement_room_id,
    }
}

/// Projects a room.
pub fn ffi_room(value: &RoomRecord) -> (r: FfiApplicationRoom)
    ensures
        r@ == ffi_room_of(value@),
{
    FfiApplicationRoom {
        id: value.id.clone(),
        relationship_id: value.relationship_id.clone(),
        state: ffi_room_state(value.state),
        close_reason: ffi_optional_close_reason(value.close_reason),
        replacement_room_id: value.replacement_room_id.clone(),
    }
}

/// The [`FfiApplicationTransfer`] that stands for a [`TransferRecord`].
pub open spec fn ffi_transfer_of(value: TransferRecordView) -> TransferView {
    TransferView {
        id: value.id,
        relationship_id: value.relationship_id,
        room_id: value.room_id,
        content_id: value.content_id,
        direction: ffi_direction_of(value.direction),
        state: ffi_transfer_state_of(value.state),
        transferred_bytes: value.transferred_bytes,
        total_bytes: value.total_bytes,
        failure: ffi_optional_failure_of(value.failure),
        rejection: ffi_optional_rejection_of(value.rejection),
    }
}

/// Projects a transfer.
pub fn ffi_transfer(value: &TransferRecord) -> (r: FfiApplicationTransfer)
    ensures
        r@ == ffi_transfer_of(value@),
{
    FfiApplicationTransfer {
        id: value.id.clone(),
        relationship_id: value.relationship_id.clone(),
        room_id: value.room_id.clone(),
        content_id: value.content_id.clone(),
        direction: ffi_direction(value.direction),
        state: ffi_transfer_state(value.state),
        transferred_bytes: value.transferred_bytes,
        total_bytes: value.total_bytes,
        failure: ffi_optional_failure(&value.failure),
        rejection: ffi_optional_rejection(value.rejection),
    }
}

/// Projects devices, in their order.
pub fn ffi_devices(items: &Vec<DeviceRecord>) -> (r: Vec<FfiApplicationDevice>)
    ensures
        r@.map_values(|x: FfiApplicationDevice| x@) == items@.map_values(|x: DeviceRecord| x@).map_values(
            |x: DeviceRecordView| ffi_device_of(x),
        ),
{
    let mut list: Vec<FfiApplicationDevice> = Vec::new();
    let mut i: usize = 0;
    while i < items.len()
        invariant
            i <= items@.len(),
            list@.len() == i,
            forall|k: int| 0 <= k < i ==> (#[trigger] list@[k])@ == ffi_device_of(items@[k]@),
        decreases items@.len() - i,
    {
        list.push(ffi_device(&items[i]));
        i += 1;
    }
    assert(list@.map_values(|x: FfiApplicationDevice| x@) =~= items@.map_values(|x: DeviceRecord| x@).map_values(
        |x: DeviceRecordView| ffi_device_of(x),
    ));
    list
}

/// Projects relationships, in their order.
pub fn ffi_relationships(items: &Vec<RelationshipRecord>) -> (r: Vec<FfiApplicationRelationship>)
    ensures
        r@.map_values(|x: FfiApplicationRelationship| x@) == items@.map_values(|x: RelationshipRecord| x@).map_values(
            |x: RelationshipRecordView| ffi_relationship_of(x),
        ),
{
    let mut list: Vec<FfiApplicationRelationship> = Vec::new();
    let mut i: usize = 0;
    while i < items.len()
        invariant
            i <= items@.len(),
            list@.len() == i,
            forall|k: int| 0 <= k < i ==> (#[trigger] list@[k])@ == ffi_relationship_of(items@[k]@),
        decreases items@.len() - i,
    {
        list.push(ffi_relationship(&items[i]));
        i += 1;
    }
    assert(list@.map_values(|x: FfiApplicationRelationship| x@) =~= items@.map_values(|x: RelationshipRecord| x@).map_values(
        |x: RelationshipRecordView| ffi_relationship_of(x),
    ));
    list
}

/// Projects rooms, in their order.
pub fn ffi_rooms(items: &Vec<RoomRecord>) -> (r: Vec<FfiApplicationRoom>)
    ensures
        r@.map_values(|x: FfiApplicationRoom| x@) == items@.map_values(|x: RoomRecord| x@).map_values(
            |x: RoomRecordView| ffi_room_of(x),
        ),
{
    let mut list: Vec<FfiApplicationRoom> = Vec::new();
    let mut i: usize = 0;
    while i < items.len()
        invariant
            i <= items@.len(),
            list@.len() == i,
            forall|k: int| 0 <= k < i ==> (#[trigger] list@[k])@ == ffi_room_of(items@[k]@),
        decreases items@.len() - i,
    {
        list.push(ffi_room(&items[i]));
        i += 1;
    }
    assert(list@.map_values(|x: FfiApplicationRoom| x@) =~= items@.map_values(|x: RoomRecord| x@).map_values(
        |x: RoomRecordView| ffi_room_of(x),
    ));
    list
}

/// Projects transfers, in their order.
pub fn ffi_transfers(items: &Vec<TransferRecord>) -> (r: Vec<FfiApplicationTransfer>)
    ensures
        r@.map_values(|x: FfiApplicationTransfer| x@) == items@.map_values(|x: TransferRecord| x@).map_values(
            |x: TransferRecordView| ffi_transfer_of(x),
        ),
{
    let mut list: Vec<FfiApplicationTransfer> = Vec::new();
    let mut i: usize = 0;
    while i < items.len()
        invariant
            i <= items@.len(),
            list@.len() == i,
            forall|k: int| 0 <= k < i ==> (#[trigger] list@[k])@ == ffi_transfer_of(items@[k]@),
        decreases items@.len() - i,
    {
        list.push(ffi_transfer(&items[i]));
        i += 1;
    }
    assert(list@.map_values(|x: FfiApplicationTransfer| x@) =~= items@.map_values(|x: TransferRecord| x@).map_values(
        |x: TransferRecordView| ffi_transfer_of(x),
    ));
    list
}

/// The native form of a snapshot.
pub open spec fn ffi_snapshot_of(snapshot: EngineSnapshotView) -> SnapshotView {
    SnapshotView {
        contract_version: snapshot.contract_version,
        last_sequence: snapshot.last_sequence,
        capabilities: ffi_capabilities_of(snapshot.capabilities),
        devices: snapshot.devices.map_values(|x: DeviceRecordView| ffi_device_of(x)),
        relationships: snapshot.relationships.map_values(
            |x: RelationshipRecordView| ffi_relationship_of(x),
        ),
        rooms: snapshot.rooms.map_values(|x: RoomRecordView| ffi_room_of(x)),
        transfers: snapshot.transfers.map_values(|x: TransferRecordView| ffi_transfer_of(x)),
    }
}

/// Projects a snapshot, every list in its order.
pub fn ffi_snapshot(snapshot: &EngineSnapshot) -> (r: FfiApplicationSnapshot)
    ensures
        r@ == ffi_snapshot_of(snapshot@),
{
    FfiApplicationSnapshot {
        contract_version: snapshot.contract_version,
        last_sequence: snapshot.last_sequence,
        capabilities: ffi_capabilities(&snapshot.capabilities),
        devices: ffi_devices(&snapshot.devices),
        relationships: ffi_relationships(&snapshot.relationships),
        rooms: ffi_rooms(&snapshot.rooms),
        transfers: ffi_transfers(&snapshot.transfers),
    }
}

/// The native form of a durable device.
pub open spec fn ffi_remembered_of(record: DeviceEntryView) -> RememberedView {
    RememberedView {
        relationship_id: record.id,
        label: record.label,
        generation: record.generation,
        previous_generation: record.previous_generation,
        broker: record.broker,
        relay: match record.relay {
            Some(relay) => relay,
            None => Seq::empty(),
        },
    }
}

/// Projects a durable device; its credential stays behind.
pub fn ffi_remembered_relationship(record: &RememberedDeviceRecord) -> (r: FfiRememberedRelationship)
    ensures
        r@ == ffi_remembered_of(record@),
{
    FfiRememberedRelationship {
        relationship_id: record.id.clone(),
        label: record.label.clone(),
        generation: record.generation,
        previous_generation: record.previous_generation,
        broker: record.broker.clone(),
        relay: match &record.relay {
            Some(relay) => relay.clone(),
            None => String::new(),
        },
    }
}

/// Projects durable devices, in their order.
pub fn ffi_remembered_relationships(items: &Vec<RememberedDeviceRecord>) -> (r: Vec<FfiRememberedRelationship>)
    ensures
        r@.map_values(|x: FfiRememberedRelationship| x@) == items@.map_values(|x: RememberedDeviceRecord| x@).map_values(
            |x: DeviceEntryView| ffi_remembered_of(x),
        ),
{
    let mut list: Vec<FfiRememberedRelationship> = Vec::new();
    let mut i: usize = 0;
    while i < items.len()
        invariant
            i <= items@.len(),
            list@.len() == i,
            forall|k: int| 0 <= k < i ==> (#[trigger] list@[k])@ == ffi_remembered_of(items@[k]@),
        decreases items@.len() - i,
    {
        list.push(ffi_remembered_relationship(&items[i]));
        i += 1;
    }
    assert(list@.map_values(|x: FfiRememberedRelationship| x@) =~= items@.map_values(|x: RememberedDeviceRecord| x@).map_values(
        |x: DeviceEntryView| ffi_remembered_of(x),
    ));
    list
}

/// Commands survive the trip through the native form: an engine command comes
/// back as it was, as long as the engine accepts its own identifiers.
pub proof fn commands_round_trip(envelope: EngineCommandEnvelopeView)
    ensures
        core_command_envelope_of(ffi_command_envelope_of(envelope), None) == Ok::<
            EngineCommandEnvelopeView,
            ApplicationErrorView,
        >(envelope),
{
}

/// Native commands survive the trip through the engine form.
pub proof fn native_commands_round_trip(envelope: CommandEnvelopeView)
    ensures
        core_command_envelope_of(envelope, None) matches Ok(engine)
            && ffi_command_envelope_of(engine) == envelope,
{
}

/// Events survive the trip through the engine form, except that an event about
/// capabilities reports what the engine then answers for every service.
pub proof fn events_round_trip(envelope: EventEnvelopeView, table: CapabilityTable, message_key: Seq<char>)
    requires
        envelope.event matches EventView::TransferFailed { failure, .. }
            ==> failure.user_message_key == message_key,
        envelope.event matches EventView::CapabilitiesChanged { capabilities }
            ==> capabilities == ffi_capabilities_of(table),
    ensures
        core_event_envelope_of(envelope, None) matches Ok(engine) && ffi_event_envelope_of(
            engine,
            table,
            message_key,
        ) == Ok::<EventEnvelopeView, ApplicationErrorView>(envelope),
{
}

/// What is reported of every service is what the engine is told when a client
/// hands it back.
pub proof fn capabilities_round_trip(table: CapabilityTable)
    ensures
        core_capabilities_of(ffi_capabilities_of(table)).entries == all_capabilities().map_values(
            |c: PlatformCapability|
                (CapabilityEntry { capability: c, availability: table.availability_of(c) }),
        ),
{
    assert(core_capabilities_of(ffi_capabilities_of(table)).entries =~= all_capabilities().map_values(
        |c: PlatformCapability|
            (CapabilityEntry { capability: c, availability: table.availability_of(c) }),
    ));
}

/// The two kinds of facts that only older records hold are refused with a code
/// of their own.
pub proof fn historical_events_are_refused(
    envelope: EngineEventEnvelopeView,
    table: CapabilityTable,
    message_key: Seq<char>,
)
    requires
        envelope.event is RoomConnected || envelope.event is TransferDelivered,
    ensures
        ffi_event_envelope_of(envelope, table, message_key) matches Err(error)
            && error->code == FfiApplicationErrorCode::UnsupportedEvent,
{
}

/// Directions, rejections, close reasons and states keep their names on the way
/// to clients and back.
pub proof fn room_values_keep_their_names(
    direction: TransferDirection,
    client_direction: FfiTransferDirection,
    rejection: TransferRejection,
    client_rejection: FfiTransferRejection,
    reason: RoomCloseReason,
    client_reason: FfiApplicationRoomCloseReason,
    relationship: RelationshipState,
    room: RoomState,
    transfer: TransferState,
    outcome: ApplyOutcome,
)
    ensures
        ffi_direction_of(direction) is Send <==> direction is Send,
        ffi_direction_of(direction) is Receive <==> direction is Receive,
        core_direction_of(client_direction) is Send <==> client_direction is Send,
        core_direction_of(client_direction) is Receive <==> client_direction is Receive,
        ffi_rejection_of(rejection) is UserDeclined <==> rejection is UserDeclined,
        ffi_rejection_of(rejection) is Busy <==> rejection is Busy,
        ffi_rejection_of(rejection) is InsufficientSpace <==> rejection is InsufficientSpace,
        ffi_rejection_of(rejection) is UnsupportedContent <==> rejection is UnsupportedContent,
        ffi_rejection_of(rejection) is InvalidOffer <==> rejection is InvalidOffer,
        core_rejection_of(client_rejection) is UserDeclined <==> client_rejection is UserDeclined,
        core_rejection_of(client_rejection) is Busy <==> client_rejection is Busy,
        core_rejection_of(client_rejection) is InsufficientSpace <==> client_rejection is InsufficientSpace,
        core_rejection_of(client_rejection) is UnsupportedContent <==> client_rejection is UnsupportedContent,
        core_rejection_of(client_rejection) is InvalidOffer <==> client_rejection is InvalidOffer,
        ffi_close_reason_of(reason) is UserEnded <==> reason is UserEnded,
        ffi_close_reason_of(reason) is Expired <==> reason is Expired,
        ffi_close_reason_of(reason) is PeerEnded <==> reason is PeerEnded,
        ffi_close_reason_of(reason) is Backgrounded <==> reason is Backgrounded,
        ffi_close_reason_of(reason) is NetworkLost <==> reason is NetworkLost,
        ffi_close_reason_of(reason) is ProtocolFailure <==> reason is ProtocolFailure,
        ffi_close_reason_of(reason) is Replaced <==> reason is Replaced,
        core_close_reason_of(client_reason) is UserEnded <==> client_reason is UserEnded,
        core_close_reason_of(client_reason) is Expired <==> client_reason is Expired,
        core_close_reason_of(client_reason) is PeerEnded <==> client_reason is PeerEnded,
        core_close_reason_of(client_reason) is Backgrounded <==> client_reason is Backgrounded,
        core_close_reason_of(client_reason) is NetworkLost <==> client_reason is NetworkLost,
        core_close_reason_of(client_reason) is ProtocolFailure <==> client_reason is ProtocolFailure,
        core_close_reason_of(client_reason) is Replaced <==> client_reason is Replaced,
        ffi_relationship_state_of(relationship) is Trusted <==> relationship is Trusted,
        ffi_relationship_state_of(relationship) is Revoked <==> relationship is Revoked,
        ffi_room_state_of(room) is Connecting <==> room is Connecting,
        ffi_room_state_of(room) is Authenticating <==> room is Authenticating,
        ffi_room_state_of(room) is Connected <==> room is Connected,
        ffi_room_state_of(room) is Closed <==> room is Closed,
        ffi_transfer_state_of(transfer) is Offered <==> transfer is Offered,
        ffi_transfer_state_of(transfer) is Queued <==> transfer is Queued,
        ffi_transfer_state_of(transfer) is Connecting <==> transfer is Connecting,
        ffi_transfer_state_of(transfer) is Transferring <==> transfer is Transferring,
        ffi_transfer_state_of(transfer) is Paused <==> transfer is Paused,
        ffi_transfer_state_of(transfer) is AwaitingDeliveryProof <==> transfer is AwaitingDeliveryProof,
        ffi_transfer_state_of(transfer) is Delivered <==> transfer is Delivered,
        ffi_transfer_state_of(transfer) is Rejected <==> transfer is Rejected,
        ffi_transfer_state_of(transfer) is Failed <==> transfer is Failed,
        ffi_transfer_state_of(transfer) is Canceled <==> transfer is Canceled,
        ffi_apply_outcome_of(outcome) is Applied <==> outcome is Applied,
        ffi_apply_outcome_of(outcome) is IgnoredDuplicate <==> outcome is IgnoredDuplicate,
{
}

/// Capabilities and their availability keep their names on the way to clients and
/// back.
pub proof fn capabilities_keep_their_names(
    capability: PlatformCapability,
    client_capability: FfiPlatformCapability,
    availability: CapabilityAvailability,
    client_availability: FfiCapabilityAvailability,
)
    ensures
        ffi_capability_of(capability) is SecureVault <==> capability is SecureVault,
        ffi_capability_of(capability) is FileSource <==> capability is FileSource,
        ffi_capability_of(capability) is FileDestination <==> capability is FileDestination,
        ffi_capability_of(capability) is NearbyDiscovery <==> capability is NearbyDiscovery,
        ffi_capability_of(capability) is ClipboardRead <==> capability is ClipboardRead,
        ffi_capability_of(capability) is ClipboardWrite <==> capability is ClipboardWrite,
        ffi_capability_of(capability) is BackgroundExecution <==> capability is BackgroundExecution,
        ffi_capability_of(capability) is Notifications <==> capability is Notifications,
        core_capability_of(client_capability) is SecureVault <==> client_capability is SecureVault,
        core_capability_of(client_capability) is FileSource <==> client_capability is FileSource,
        core_capability_of(client_capability) is FileDestination <==> client_capability is FileDestination,
        core_capability_of(client_capability) is NearbyDiscovery <==> client_capability is NearbyDiscovery,
        core_capability_of(client_capability) is ClipboardRead <==> client_capability is ClipboardRead,
        core_capability_of(client_capability) is ClipboardWrite <==> client_capability is ClipboardWrite,
        core_capability_of(client_capability) is BackgroundExecution <==> client_capability is BackgroundExecution,
        core_capability_of(client_capability) is Notifications <==> client_capability is Notifications,
        ffi_availability_of(availability) is Available <==> availability is Available,
        ffi_availability_of(availability) is Limited <==> availability is Limited,
        ffi_availability_of(availability) is Unavailable <==> availability is Unavailable,
        core_availability_of(client_availability) is Available <==> client_availability is Available,
        core_availability_of(client_availability) is Limited <==> client_availability is Limited,
        core_availability_of(client_availability) is Unavailable <==> client_availability is Unavailable,
{
}

/// Failure codes, phases, recovery actions and error codes keep their names on the
/// way to clients and back; a code is only renamed where clients know it under
/// another name.
pub proof fn failures_keep_their_names(
    code: FailureCode,
    client_code: FfiFailureCode,
    phase: FailurePhase,
    client_phase: FfiFailurePhase,
    action: RecoveryAction,
    client_action: FfiRecoveryAction,
    vault_error: FfiApplicationVaultError,
    apply_error: ApplicationErrorCode,
)
    ensures
        ffi_failure_code_of(code) is UserCanceled <==> code is UserCanceled,
        ffi_failure_code_of(code) is NetworkLost <==> code is NetworkLost,
        ffi_failure_code_of(code) is AuthenticationFailed <==> code is AuthenticationFailed,
        ffi_failure_code_of(code) is RoomNotFound <==> code is RoomNotFound,
        ffi_failure_code_of(code) is RoomExpired <==> code is RoomExpired,
        ffi_failure_code_of(code) is RoomFull <==> code is RoomFull,
        ffi_failure_code_of(code) is RoomRateLimited <==> code is RoomRateLimited,
        ffi_failure_code_of(code) is RoomUnderAttack <==> code is RoomUnderAttack,
        ffi_failure_code_of(code) is EndpointRateLimited <==> code is EndpointRateLimited,
        ffi_failure_code_of(code) is IpRateLimited <==> code is IpRateLimited,
        ffi_failure_code_of(code) is ServerBusy <==> code is ServerBusy,
        ffi_failure_code_of(code) is MalformedJoin <==> code is MalformedJoin,
        ffi_failure_code_of(code) is UnsupportedRendezvousVersion <==> code is UnsupportedRendezvousVersion
            || code is UnsupportedVersion,
        ffi_failure_code_of(code) is UnsupportedFeature <==> code is UnsupportedFeature,
        ffi_failure_code_of(code) is InternalError <==> code is InternalError || code is Internal,
        ffi_failure_code_of(code) is SenderSourceUnavailable <==> code is SenderSourceUnavailable
            || code is SourceUnavailable,
        ffi_failure_code_of(code) is SenderPermissionLost <==> code is SenderPermissionLost,
        ffi_failure_code_of(code) is SenderSourceChanged <==> code is SenderSourceChanged,
        ffi_failure_code_of(code) is SenderItemRemoved <==> code is SenderItemRemoved,
        ffi_failure_code_of(code) is SenderCanceled <==> code is SenderCanceled,
        ffi_failure_code_of(code) is ProtocolOrIntegrityFailure <==> code is ProtocolOrIntegrityFailure
            || code is IntegrityFailure,
        ffi_failure_code_of(code) is ReceiverSpaceInsufficient <==> code is ReceiverSpaceInsufficient,
        ffi_failure_code_of(code) is ReceiverDestinationDecisionRequired <==> code is ReceiverDestinationDecisionRequired,
        ffi_failure_code_of(code) is ReceiverDestinationUnavailable <==> code is ReceiverDestinationUnavailable
            || code is DestinationUnavailable,
        ffi_failure_code_of(code) is ReceiverSaveFailed <==> code is ReceiverSaveFailed,
        ffi_failure_code_of(code) is ReceiverReusedObjectLost <==> code is ReceiverReusedObjectLost,
        ffi_failure_code_of(code) is ReceiverFinalizationOutcomeUnknown <==> code is ReceiverFinalizationOutcomeUnknown,
        core_failure_code_of(client_code) is UserCanceled <==> client_code is UserCanceled,
        core_failure_code_of(client_code) is NetworkLost <==> client_code is NetworkLost,
        core_failure_code_of(client_code) is AuthenticationFailed <==> client_code is AuthenticationFailed,
        core_failure_code_of(client_code) is RoomNotFound <==> client_code is RoomNotFound,
        core_failure_code_of(client_code) is RoomExpired <==> client_code is RoomExpired,
        core_failure_code_of(client_code) is RoomFull <==> client_code is RoomFull,
        core_failure_code_of(client_code) is RoomRateLimited <==> client_code is RoomRateLimited,
        core_failure_code_of(client_code) is RoomUnderAttack <==> client_code is RoomUnderAttack,
        core_failure_code_of(client_code) is EndpointRateLimited <==> client_code is EndpointRateLimited,
        core_failure_code_of(client_code) is IpRateLimited <==> client_code is IpRateLimited,
        core_failure_code_of(client_code) is ServerBusy <==> client_code is ServerBusy,
        core_failure_code_of(client_code) is MalformedJoin <==> client_code is MalformedJoin,
        core_failure_code_of(client_code) is UnsupportedRendezvousVersion <==> client_code is UnsupportedRendezvousVersion,
        core_failure_code_of(client_code) is UnsupportedFeature <==> client_code is UnsupportedFeature,
        core_failure_code_of(client_code) is InternalError <==> client_code is InternalError,
        core_failure_code_of(client_code) is SenderSourceUnavailable <==> client_code is SenderSourceUnavailable,
        core_failure_code_of(client_code) is SenderPermissionLost <==> client_code is SenderPermissionLost,
        core_failure_code_of(client_code) is SenderSourceChanged <==> client_code is SenderSourceChanged,
        core_failure_code_of(client_code) is SenderItemRemoved <==> client_code is SenderItemRemoved,
        core_failure_code_of(client_code) is SenderCanceled <==> client_code is SenderCanceled,
        core_failure_code_of(client_code) is ProtocolOrIntegrityFailure <==> client_code is ProtocolOrIntegrityFailure,
        core_failure_code_of(client_code) is ReceiverSpaceInsufficient <==> client_code is ReceiverSpaceInsufficient,
        core_failure_code_of(client_code) is ReceiverDestinationDecisionRequired <==> client_code is ReceiverDestinationDecisionRequired,
        core_failure_code_of(client_code) is ReceiverDestinationUnavailable <==> client_code is ReceiverDestinationUnavailable,
        core_failure_code_of(client_code) is ReceiverSaveFailed <==> client_code is ReceiverSaveFailed,
        core_failure_code_of(client_code) is ReceiverReusedObjectLost <==> client_code is ReceiverReusedObjectLost,
        core_failure_code_of(client_code) is ReceiverFinalizationOutcomeUnknown <==> client_code is ReceiverFinalizationOutcomeUnknown,
        ffi_failure_phase_of(phase) is Setup <==> phase is Setup,
        ffi_failure_phase_of(phase) is Pairing <==> phase is Pairing,
        ffi_failure_phase_of(phase) is Connecting <==> phase is Connecting,
        ffi_failure_phase_of(phase) is Authenticating <==> phase is Authenticating,
        ffi_failure_phase_of(phase) is Negotiating <==> phase is Negotiating,
        ffi_failure_phase_of(phase) is Transferring <==> phase is Transferring,
        ffi_failure_phase_of(phase) is Verifying <==> phase is Verifying,
        ffi_failure_phase_of(phase) is Committing <==> phase is Committing,
        core_failure_phase_of(client_phase) is Setup <==> client_phase is Setup,
        core_failure_phase_of(client_phase) is Pairing <==> client_phase is Pairing,
        core_failure_phase_of(client_phase) is Connecting <==> client_phase is Connecting,
        core_failure_phase_of(client_phase) is Authenticating <==> client_phase is Authenticating,
        core_failure_phase_of(client_phase) is Negotiating <==> client_phase is Negotiating,
        core_failure_phase_of(client_phase) is Transferring <==> client_phase is Transferring,
        core_failure_phase_of(client_phase) is Verifying <==> client_phase is Verifying,
        core_failure_phase_of(client_phase) is Committing <==> client_phase is Committing,
        ffi_recovery_action_of(action) is Retry <==> action is Retry,
        ffi_recovery_action_of(action) is Resume <==> action is Resume,
        ffi_recovery_action_of(action) is ChooseFolder <==> action is ChooseFolder,
        ffi_recovery_action_of(action) is OpenSettings <==> action is OpenSettings,
        ffi_recovery_action_of(action) is RePair <==> action is RePair,
        ffi_recovery_action_of(action) is NoAction <==> action is NoAction,
        core_recovery_action_of(client_action) is Retry <==> client_action is Retry,
        core_recovery_action_of(client_action) is Resume <==> client_action is Resume,
        core_recovery_action_of(client_action) is ChooseFolder <==> client_action is ChooseFolder,
        core_recovery_action_of(client_action) is OpenSettings <==> client_action is OpenSettings,
        core_recovery_action_of(client_action) is RePair <==> client_action is RePair,
        core_recovery_action_of(client_action) is NoAction <==> client_action is NoAction,
        core_vault_error_of(vault_error) is Unavailable <==> vault_error is Unavailable,
        core_vault_error_of(vault_error) is Limited <==> vault_error is Limited,
        core_vault_error_of(vault_error) is PermissionDenied <==> vault_error is PermissionDenied,
        core_vault_error_of(vault_error) is InteractionRequired <==> vault_error is InteractionRequired,
        core_vault_error_of(vault_error) is InvalidRequest <==> vault_error is InvalidRequest,
        core_vault_error_of(vault_error) is CorruptData <==> vault_error is CorruptData,
        core_vault_error_of(vault_error) is Canceled <==> vault_error is Canceled,
        apply_error_code_of(apply_error) is UnsupportedContractVersion <==> apply_error is UnsupportedContractVersion,
        apply_error_code_of(apply_error) is InvalidSequence <==> apply_error is InvalidSequence,
        apply_error_code_of(apply_error) is EventGap <==> apply_error is EventGap,
        apply_error_code_of(apply_error) is EntityNotFound <==> apply_error is EntityNotFound,
        apply_error_code_of(apply_error) is InvalidReference <==> apply_error is InvalidReference,
        apply_error_code_of(apply_error) is InvalidTransition <==> apply_error is InvalidTransition,
        apply_error_code_of(apply_error) is InvalidProgress <==> apply_error is InvalidProgress,
        apply_error_code_of(apply_error) is GenerationMismatch <==> apply_error is GenerationMismatch,
        apply_error_code_of(apply_error) is UnsupportedEvent <==> apply_error is UnsupportedEvent,
{
}

/// A command reaches the engine under its own name, with everything that it names,
/// and the engine's commands come back so.
pub proof fn commands_reach_the_engine_as_given(command: CommandView, engine: EngineCommandView)
    ensures
        command is CreateRoom ==> raw_command_of(command) == (EngineCommandView::CreateRoom),
        command matches CommandView::JoinRoom { invitation } ==> raw_command_of(command) == (EngineCommandView::JoinRoom { invitation }),
        command matches CommandView::VerifyPairing { room_id, verification_code } ==> raw_command_of(command) == (EngineCommandView::VerifyPairing { room_id, verification_code }),
        command matches CommandView::ReconnectRelationship { relationship_id } ==> raw_command_of(command) == (EngineCommandView::ReconnectRelationship { relationship_id }),
        command matches CommandView::CreateTransfer { relationship_id, content_id, direction } ==> raw_command_of(command) == (EngineCommandView::CreateTransfer { relationship_id, content_id, direction: core_direction_of(direction) }),
        command matches CommandView::AcceptTransfer { transfer_id } ==> raw_command_of(command) == (EngineCommandView::AcceptTransfer { transfer_id }),
        command matches CommandView::RejectTransfer { transfer_id, reason } ==> raw_command_of(command) == (EngineCommandView::RejectTransfer { transfer_id, reason: core_rejection_of(reason) }),
        command matches CommandView::PauseTransfer { transfer_id } ==> raw_command_of(command) == (EngineCommandView::PauseTransfer { transfer_id }),
        command matches CommandView::ResumeTransfer { transfer_id } ==> raw_command_of(command) == (EngineCommandView::ResumeTransfer { transfer_id }),
        command matches CommandView::RecoverTransfer { transfer_id } ==> raw_command_of(command) == (EngineCommandView::RecoverTransfer { transfer_id }),
        command matches CommandView::CancelTransfer { transfer_id } ==> raw_command_of(command) == (EngineCommandView::CancelTransfer { transfer_id }),
        command matches CommandView::RemoveTransfer { transfer_id } ==> raw_command_of(command) == (EngineCommandView::RemoveTransfer { transfer_id }),
        command matches CommandView::RevokeRelationship { relationship_id } ==> raw_command_of(command) == (EngineCommandView::RevokeRelationship { relationship_id }),
        engine is CreateRoom ==> ffi_command_of(engine) == (CommandView::CreateRoom),
        engine matches EngineCommandView::JoinRoom { invitation } ==> ffi_command_of(engine) == (CommandView::JoinRoom { invitation }),
        engine matches EngineCommandView::VerifyPairing { room_id, verification_code } ==> ffi_command_of(engine) == (CommandView::VerifyPairing { room_id, verification_code }),
        engine matches EngineCommandView::ReconnectRelationship { relationship_id } ==> ffi_command_of(engine) == (CommandView::ReconnectRelationship { relationship_id }),
        engine matches EngineCommandView::CreateTransfer { relationship_id, content_id, direction } ==> ffi_command_of(engine) == (CommandView::CreateTransfer { relationship_id, content_id, direction: ffi_direction_of(direction) }),
        engine matches EngineCommandView::AcceptTransfer { transfer_id } ==> ffi_command_of(engine) == (CommandView::AcceptTransfer { transfer_id }),
        engine matches EngineCommandView::RejectTransfer { transfer_id, reason } ==> ffi_command_of(engine) == (CommandView::RejectTransfer { transfer_id, reason: ffi_rejection_of(reason) }),
        engine matches EngineCommandView::PauseTransfer { transfer_id } ==> ffi_command_of(engine) == (CommandView::PauseTransfer { transfer_id }),
        engine matches EngineCommandView::ResumeTransfer { transfer_id } ==> ffi_command_of(engine) == (CommandView::ResumeTransfer { transfer_id }),
        engine matches EngineCommandView::RecoverTransfer { transfer_id } ==> ffi_command_of(engine) == (CommandView::RecoverTransfer { transfer_id }),
        engine matches EngineCommandView::CancelTransfer { transfer_id } ==> ffi_command_of(engine) == (CommandView::CancelTransfer { transfer_id }),
        engine matches EngineCommandView::RemoveTransfer { transfer_id } ==> ffi_command_of(engine) == (CommandView::RemoveTransfer { transfer_id }),
        engine matches EngineCommandView::RevokeRelationship { relationship_id } ==> ffi_command_of(engine) == (CommandView::RevokeRelationship { relationship_id }),
{
}

/// An event reaches the engine under its own name, with everything that it names.
pub proof fn events_reach_the_engine_as_reported(event: EventView)
    ensures
        event matches EventView::CapabilitiesChanged { capabilities } ==> raw_event_of(event) == (EngineEventView::CapabilitiesChanged { capabilities: core_capabilities_of(capabilities) }),
        event matches EventView::DeviceObserved { device_id, display_name } ==> raw_event_of(event) == (EngineEventView::DeviceObserved { device_id, display_name }),
        event matches EventView::RelationshipTrusted { relationship_id, device_id, generation } ==> raw_event_of(event) == (EngineEventView::RelationshipTrusted { relationship_id, device_id, generation }),
        event matches EventView::RelationshipRotated { relationship_id, generation } ==> raw_event_of(event) == (EngineEventView::RelationshipRotated { relationship_id, generation }),
        event matches EventView::RelationshipRevoked { relationship_id } ==> raw_event_of(event) == (EngineEventView::RelationshipRevoked { relationship_id }),
        event matches EventView::RoomOpened { room_id, relationship_id, replaces_room_id } ==> raw_event_of(event) == (EngineEventView::RoomOpened { room_id, relationship_id, replaces_room_id }),
        event matches EventView::RoomPeerAdmitted { room_id } ==> raw_event_of(event) == (EngineEventView::RoomPeerAdmitted { room_id }),
        event matches EventView::RoomAuthenticated { room_id } ==> raw_event_of(event) == (EngineEventView::RoomAuthenticated { room_id }),
        event matches EventView::RoomClosed { room_id, reason } ==> raw_event_of(event) == (EngineEventView::RoomClosed { room_id, reason: core_close_reason_of(reason) }),
        event matches EventView::TransferCreated { transfer_id, relationship_id, room_id, content_id, direction, total_bytes } ==> raw_event_of(event) == (EngineEventView::TransferCreated { transfer_id, relationship_id, room_id, content_id, direction: core_direction_of(direction), total_bytes }),
        event matches EventView::TransferOffered { transfer_id, relationship_id, room_id, content_id, total_bytes } ==> raw_event_of(event) == (EngineEventView::TransferOffered { transfer_id, relationship_id, room_id, content_id, total_bytes }),
        event matches EventView::TransferAccepted { transfer_id } ==> raw_event_of(event) == (EngineEventView::TransferAccepted { transfer_id }),
        event matches EventView::TransferRejected { transfer_id, reason } ==> raw_event_of(event) == (EngineEventView::TransferRejected { transfer_id, reason: core_rejection_of(reason) }),
        event matches EventView::TransferStarted { transfer_id } ==> raw_event_of(event) == (EngineEventView::TransferStarted { transfer_id }),
        event matches EventView::TransferProgressed { transfer_id, transferred_bytes } ==> raw_event_of(event) == (EngineEventView::TransferProgressed { transfer_id, transferred_bytes }),
        event matches EventView::TransferPaused { transfer_id } ==> raw_event_of(event) == (EngineEventView::TransferPaused { transfer_id }),
        event matches EventView::TransferResumed { transfer_id } ==> raw_event_of(event) == (EngineEventView::TransferResumed { transfer_id }),
        event matches EventView::TransferRecoveryStarted { transfer_id } ==> raw_event_of(event) == (EngineEventView::TransferRecoveryStarted { transfer_id }),
        event matches EventView::TransferPayloadCompleted { transfer_id } ==> raw_event_of(event) == (EngineEventView::TransferPayloadCompleted { transfer_id }),
        event matches EventView::TransferDeliveryProofVerified { transfer_id } ==> raw_event_of(event) == (EngineEventView::TransferDeliveryProofVerified { transfer_id }),
        event matches EventView::TransferFailed { transfer_id, failure } ==> raw_event_of(event) == (EngineEventView::TransferFailed { transfer_id, failure: core_failure_of(failure) }),
        event matches EventView::TransferCanceled { transfer_id } ==> raw_event_of(event) == (EngineEventView::TransferCanceled { transfer_id }),
        event matches EventView::TransferRemoved { transfer_id } ==> raw_event_of(event) == (EngineEventView::TransferRemoved { transfer_id }),
{
}

/// An event of the engine is shown under its own name, with everything that it
/// names; only the events of an older contract are not shown.
pub proof fn engine_events_are_shown_as_they_are(event: EngineEventView)
    ensures
        event matches EngineEventView::DeviceObserved { device_id, display_name } ==> plain_event_of(event) == (Some(EventView::DeviceObserved { device_id, display_name })),
        event matches EngineEventView::RelationshipTrusted { relationship_id, device_id, generation } ==> plain_event_of(event) == (Some(EventView::RelationshipTrusted { relationship_id, device_id, generation })),
        event matches EngineEventView::RelationshipRotated { relationship_id, generation } ==> plain_event_of(event) == (Some(EventView::RelationshipRotated { relationship_id, generation })),
        event matches EngineEventView::RelationshipRevoked { relationship_id } ==> plain_event_of(event) == (Some(EventView::RelationshipRevoked { relationship_id })),
        event matches EngineEventView::RoomOpened { room_id, relationship_id, replaces_room_id } ==> plain_event_of(event) == (Some(EventView::RoomOpened { room_id, relationship_id, replaces_room_id })),
        event matches EngineEventView::RoomPeerAdmitted { room_id } ==> plain_event_of(event) == (Some(EventView::RoomPeerAdmitted { room_id })),
        event matches EngineEventView::RoomAuthenticated { room_id } ==> plain_event_of(event) == (Some(EventView::RoomAuthenticated { room_id })),
        event matches EngineEventView::RoomClosed { room_id, reason } ==> plain_event_of(event) == (Some(EventView::RoomClosed { room_id, reason: ffi_close_reason_of(reason) })),
        event matches EngineEventView::TransferCreated { transfer_id, relationship_id, room_id, content_id, direction, total_bytes } ==> plain_event_of(event) == (Some(EventView::TransferCreated { transfer_id, relationship_id, room_id, content_id, direction: ffi_direction_of(direction), total_bytes })),
        event matches EngineEventView::TransferOffered { transfer_id, relationship_id, room_id, content_id, total_bytes } ==> plain_event_of(event) == (Some(EventView::TransferOffered { transfer_id, relationship_id, room_id, content_id, total_bytes })),
        event matches EngineEventView::TransferAccepted { transfer_id } ==> plain_event_of(event) == (Some(EventView::TransferAccepted { transfer_id })),
        event matches EngineEventView::TransferRejected { transfer_id, reason } ==> plain_event_of(event) == (Some(EventView::TransferRejected { transfer_id, reason: ffi_rejection_of(reason) })),
        event matches EngineEventView::TransferStarted { transfer_id } ==> plain_event_of(event) == (Some(EventView::TransferStarted { transfer_id })),
        event matches EngineEventView::TransferProgressed { transfer_id, transferred_bytes } ==> plain_event_of(event) == (Some(EventView::TransferProgressed { transfer_id, transferred_bytes })),
        event matches EngineEventView::TransferPaused { transfer_id } ==> plain_event_of(event) == (Some(EventView::TransferPaused { transfer_id })),
        event matches EngineEventView::TransferResumed { transfer_id } ==> plain_event_of(event) == (Some(EventView::TransferResumed { transfer_id })),
        event matches EngineEventView::TransferRecoveryStarted { transfer_id } ==> plain_event_of(event) == (Some(EventView::TransferRecoveryStarted { transfer_id })),
        event matches EngineEventView::TransferPayloadCompleted { transfer_id } ==> plain_event_of(event) == (Some(EventView::TransferPayloadCompleted { transfer_id })),
        event matches EngineEventView::TransferDeliveryProofVerified { transfer_id } ==> plain_event_of(event) == (Some(EventView::TransferDeliveryProofVerified { transfer_id })),
        event matches EngineEventView::TransferCanceled { transfer_id } ==> plain_event_of(event) == (Some(EventView::TransferCanceled { transfer_id })),
        event matches EngineEventView::TransferRemoved { transfer_id } ==> plain_event_of(event) == (Some(EventView::TransferRemoved { transfer_id })),
        event is RoomConnected || event is TransferDelivered ==> plain_event_of(event) is None,
{
}

/// An effect is asked for under its own name, with everything that it names.
pub proof fn effects_are_shown_as_they_are(effect: EngineEffectView)
    ensures
        effect is CreateRoom ==> ffi_effect_of(effect) == (EffectView::CreateRoom),
        effect matches EngineEffectView::JoinRoom { invitation } ==> ffi_effect_of(effect) == (EffectView::JoinRoom { invitation }),
        effect matches EngineEffectView::VerifyPairing { room_id, verification_code } ==> ffi_effect_of(effect) == (EffectView::VerifyPairing { room_id, verification_code }),
        effect matches EngineEffectView::ReconnectRelationship { relationship_id, generation, previous_generation } ==> ffi_effect_of(effect) == (EffectView::ReconnectRelationship { relationship_id, generation, previous_generation }),
        effect matches EngineEffectView::CreateTransfer { relationship_id, content_id, direction } ==> ffi_effect_of(effect) == (EffectView::CreateTransfer { relationship_id, content_id, direction: ffi_direction_of(direction) }),
        effect matches EngineEffectView::AcceptTransfer { transfer_id } ==> ffi_effect_of(effect) == (EffectView::AcceptTransfer { transfer_id }),
        effect matches EngineEffectView::RejectTransfer { transfer_id, reason } ==> ffi_effect_of(effect) == (EffectView::RejectTransfer { transfer_id, reason: ffi_rejection_of(reason) }),
        effect matches EngineEffectView::PauseTransfer { transfer_id } ==> ffi_effect_of(effect) == (EffectView::PauseTransfer { transfer_id }),
        effect matches EngineEffectView::ResumeTransfer { transfer_id } ==> ffi_effect_of(effect) == (EffectView::ResumeTransfer { transfer_id }),
        effect matches EngineEffectView::RecoverTransfer { transfer_id, action } ==> ffi_effect_of(effect) == (EffectView::RecoverTransfer { transfer_id, action: ffi_recovery_action_of(action) }),
        effect matches EngineEffectView::CancelTransfer { transfer_id } ==> ffi_effect_of(effect) == (EffectView::CancelTransfer { transfer_id }),
        effect matches EngineEffectView::RemoveTransfer { transfer_id } ==> ffi_effect_of(effect) == (EffectView::RemoveTransfer { transfer_id }),
        effect matches EngineEffectView::RevokeRelationship { relationship_id } ==> ffi_effect_of(effect) == (EffectView::RevokeRelationship { relationship_id }),
{
}

/// Every id that a command names is checked, as an id of its own kind; a new room
/// names none.
pub proof fn every_named_id_of_a_command_is_checked(command: CommandView)
    ensures
        command matches CommandView::JoinRoom { invitation } ==> command_identifiers_of(command) == (seq![identifier(IdentifierKind::Invitation, invitation)]),
        command matches CommandView::VerifyPairing { room_id, verification_code } ==> command_identifiers_of(command) == (seq![identifier(IdentifierKind::Room, room_id), identifier(IdentifierKind::VerificationCode, verification_code)]),
        command matches CommandView::ReconnectRelationship { relationship_id } ==> command_identifiers_of(command) == (seq![identifier(IdentifierKind::Relationship, relationship_id)]),
        command matches CommandView::CreateTransfer { relationship_id, content_id, .. } ==> command_identifiers_of(command) == (seq![identifier(IdentifierKind::Relationship, relationship_id), identifier(IdentifierKind::Content, content_id)]),
        command matches CommandView::AcceptTransfer { transfer_id } ==> command_identifiers_of(command) == (seq![identifier(IdentifierKind::Transfer, transfer_id)]),
        command matches CommandView::RejectTransfer { transfer_id, .. } ==> command_identifiers_of(command) == (seq![identifier(IdentifierKind::Transfer, transfer_id)]),
        command matches CommandView::PauseTransfer { transfer_id } ==> command_identifiers_of(command) == (seq![identifier(IdentifierKind::Transfer, transfer_id)]),
        command matches CommandView::ResumeTransfer { transfer_id } ==> command_identifiers_of(command) == (seq![identifier(IdentifierKind::Transfer, transfer_id)]),
        command matches CommandView::RecoverTransfer { transfer_id } ==> command_identifiers_of(command) == (seq![identifier(IdentifierKind::Transfer, transfer_id)]),
        command matches CommandView::CancelTransfer { transfer_id } ==> command_identifiers_of(command) == (seq![identifier(IdentifierKind::Transfer, transfer_id)]),
        command matches CommandView::RemoveTransfer { transfer_id } ==> command_identifiers_of(command) == (seq![identifier(IdentifierKind::Transfer, transfer_id)]),
        command matches CommandView::RevokeRelationship { relationship_id } ==> command_identifiers_of(command) == (seq![identifier(IdentifierKind::Relationship, relationship_id)]),
        command is CreateRoom ==> command_identifiers_of(command).len() == 0,
{
}

/// Every id that an event names is checked, as an id of its own kind.
pub proof fn every_named_id_of_an_event_is_checked(event: EventView)
    ensures
        event matches EventView::DeviceObserved { device_id, .. } ==> event_identifiers_of(event) == (seq![identifier(IdentifierKind::Device, device_id)]),
        event matches EventView::RelationshipTrusted { relationship_id, device_id, .. } ==> event_identifiers_of(event) == (seq![identifier(IdentifierKind::Relationship, relationship_id), identifier(IdentifierKind::Device, device_id)]),
        event matches EventView::RelationshipRotated { relationship_id, .. } ==> event_identifiers_of(event) == (seq![identifier(IdentifierKind::Relationship, relationship_id)]),
        event matches EventView::RelationshipRevoked { relationship_id } ==> event_identifiers_of(event) == (seq![identifier(IdentifierKind::Relationship, relationship_id)]),
        event matches EventView::RoomOpened { room_id, relationship_id, replaces_room_id } ==> event_identifiers_of(event) == (seq![identifier(IdentifierKind::Room, room_id)] + optional_identifier(IdentifierKind::Relationship, relationship_id) + optional_identifier(IdentifierKind::Room, replaces_room_id)),
        event matches EventView::RoomPeerAdmitted { room_id } ==> event_identifiers_of(event) == (seq![identifier(IdentifierKind::Room, room_id)]),
        event matches EventView::RoomAuthenticated { room_id } ==> event_identifiers_of(event) == (seq![identifier(IdentifierKind::Room, room_id)]),
        event matches EventView::RoomClosed { room_id, .. } ==> event_identifiers_of(event) == (seq![identifier(IdentifierKind::Room, room_id)]),
        event matches EventView::TransferCreated { transfer_id, relationship_id, room_id, content_id, .. } ==> event_identifiers_of(event) == (seq![identifier(IdentifierKind::Transfer, transfer_id)] + seq![identifier(IdentifierKind::Relationship, relationship_id)] + optional_identifier(IdentifierKind::Room, room_id) + seq![identifier(IdentifierKind::Content, content_id)]),
        event matches EventView::TransferOffered { transfer_id, relationship_id, room_id, content_id, .. } ==> event_identifiers_of(event) == (seq![identifier(IdentifierKind::Transfer, transfer_id), identifier(IdentifierKind::Relationship, relationship_id), identifier(IdentifierKind::Room, room_id), identifier(IdentifierKind::Content, content_id)]),
        event matches EventView::TransferAccepted { transfer_id } ==> event_identifiers_of(event) == (seq![identifier(IdentifierKind::Transfer, transfer_id)]),
        event matches EventView::TransferRejected { transfer_id, .. } ==> event_identifiers_of(event) == (seq![identifier(IdentifierKind::Transfer, transfer_id)]),
        event matches EventView::TransferStarted { transfer_id } ==> event_identifiers_of(event) == (seq![identifier(IdentifierKind::Transfer, transfer_id)]),
        event matches EventView::TransferProgressed { transfer_id, .. } ==> event_identifiers_of(event) == (seq![identifier(IdentifierKind::Transfer, transfer_id)]),
        event matches EventView::TransferPaused { transfer_id } ==> event_identifiers_of(event) == (seq![identifier(IdentifierKind::Transfer, transfer_id)]),
        event matches EventView::TransferResumed { transfer_id } ==> event_identifiers_of(event) == (seq![identifier(IdentifierKind::Transfer, transfer_id)]),
        event matches EventView::TransferRecoveryStarted { transfer_id } ==> event_identifiers_of(event) == (seq![identifier(IdentifierKind::Transfer, transfer_id)]),
        event matches EventView::TransferPayloadCompleted { transfer_id } ==> event_identifiers_of(event) == (seq![identifier(IdentifierKind::Transfer, transfer_id)]),
        event matches EventView::TransferDeliveryProofVerified { transfer_id } ==> event_identifiers_of(event) == (seq![identifier(IdentifierKind::Transfer, transfer_id)]),
        event matches EventView::TransferFailed { transfer_id, .. } ==> event_identifiers_of(event) == (seq![identifier(IdentifierKind::Transfer, transfer_id)]),
        event matches EventView::TransferCanceled { transfer_id } ==> event_identifiers_of(event) == (seq![identifier(IdentifierKind::Transfer, transfer_id)]),
        event matches EventView::TransferRemoved { transfer_id } ==> event_identifiers_of(event) == (seq![identifier(IdentifierKind::Transfer, transfer_id)]),
        event is CapabilitiesChanged ==> event_identifiers_of(event).len() == 0,
{
}

/// A command or an event with an id that the engine refuses is refused with the
/// engine's reason; any other reaches it, in an envelope of the same version.
pub proof fn refused_ids_refuse_the_envelope(
    command: CommandEnvelopeView,
    event: EventEnvelopeView,
    id_error: Option<Seq<char>>,
)
    ensures
        id_error is None ==> core_command_envelope_of(command, id_error) == Ok::<
            EngineCommandEnvelopeView,
            ApplicationErrorView,
        >(
            EngineCommandEnvelopeView {
                contract_version: command.contract_version,
                command_id: command.command_id,
                command: raw_command_of(command.command),
            },
        ),
        id_error matches Some(reason) ==> core_command_envelope_of(command, id_error) == Err::<
            EngineCommandEnvelopeView,
            ApplicationErrorView,
        >(
            ApplicationErrorView::Failed { code: FfiApplicationErrorCode::InvalidInput, reason },
        ),
        core_command_of(command.command, id_error) is Err <==> id_error is Some
            && command_identifiers_of(command.command).len() > 0,
        core_event_of(event.event, id_error) is Err <==> id_error is Some && event_identifiers_of(
            event.event,
        ).len() > 0,
        core_event_envelope_of(event, id_error) is Ok <==> core_event_of(event.event, id_error)
            is Ok,
        core_event_envelope_of(event, id_error) matches Ok(engine) ==> engine.contract_version
            == event.contract_version && engine.sequence == event.sequence && engine.event
            == raw_event_of(event.event),
        core_event_envelope_of(event, id_error) matches Err(error) ==> error
            == (ApplicationErrorView::Failed {
            code: FfiApplicationErrorCode::InvalidInput,
            reason: id_error->0,
        }),
{
}

/// Envelopes of the engine keep their version, order and id on the way to clients.
pub proof fn envelopes_keep_their_place(
    command: EngineCommandEnvelopeView,
    effect: EngineEffectEnvelopeView,
    event: EngineEventEnvelopeView,
    table: CapabilityTable,
    message_key: Seq<char>,
)
    ensures
        ffi_command_envelope_of(command).contract_version == command.contract_version,
        ffi_command_envelope_of(command).command_id == command.command_id,
        ffi_command_envelope_of(command).command == ffi_command_of(command.command),
        ffi_effect_envelope_of(effect).contract_version == effect.contract_version,
        ffi_effect_envelope_of(effect).command_id == effect.command_id,
        ffi_effect_envelope_of(effect).effect == ffi_effect_of(effect.effect),
        ffi_event_envelope_of(event, table, message_key) matches Ok(shown)
            ==> shown.contract_version == event.contract_version && shown.sequence
            == event.sequence && Some(shown.event) == ffi_event_of(
            event.event,
            table,
            message_key,
        ),
        event.event matches EngineEventView::TransferFailed { transfer_id, failure }
            ==> ffi_event_of(event.event, table, message_key) == Some(
            EventView::TransferFailed { transfer_id, failure: ffi_failure_of(failure, message_key) },
        ),
        event.event is CapabilitiesChanged ==> ffi_event_of(event.event, table, message_key)
            == Some(EventView::CapabilitiesChanged { capabilities: ffi_capabilities_of(table) }),
{
}

/// A store that fails is told by what clients can do about it, with the engine's
/// own reason.
pub proof fn store_errors_are_told_apart(kind: StoreErrorKind, port: PlatformPortError, message: Seq<char>)
    ensures
        store_error_of(StoreErrorView { kind, message }) == (ApplicationErrorView::Failed {
            code: store_error_code_of(kind),
            reason: message,
        }),
        store_error_code_of(kind) is StateAlreadyOwned <==> kind is AlreadyOwned,
        store_error_code_of(kind) is UnsupportedPersistentState <==> kind is UnsupportedSchema
            || kind is UnsupportedLegacyState,
        store_error_code_of(StoreErrorKind::PlatformPort(port)) is VaultUnavailable
            <==> port is Unavailable || port is Limited,
        store_error_code_of(StoreErrorKind::PlatformPort(port)) is VaultInteractionRequired
            <==> port is InteractionRequired,
        store_error_code_of(StoreErrorKind::PlatformPort(port)) is VaultPermissionDenied
            <==> port is PermissionDenied,
        store_error_code_of(StoreErrorKind::PlatformPort(port)) is VaultCorrupt
            <==> port is CorruptData,
        store_error_code_of(StoreErrorKind::PlatformPort(port)) is VaultCanceled
            <==> port is Canceled,
        store_error_code_of(StoreErrorKind::PlatformPort(port)) is InvalidInput
            <==> port is InvalidRequest,
        kind is MissingVaultCredential ==> store_error_code_of(kind) is VaultCorrupt,
        kind is InvalidState ==> store_error_code_of(kind) is InvalidInput,
        store_error_code_of(StoreErrorKind::Io { invalid_input: true }) is InvalidInput,
        store_error_code_of(StoreErrorKind::Io { invalid_input: false }) is StateUnavailable,
        kind is StateTooLarge || kind is Decode ==> store_error_code_of(kind) is StateUnavailable,
        invalid_input_of(message) == (ApplicationErrorView::Failed {
            code: FfiApplicationErrorCode::InvalidInput,
            reason: message,
        }),
        state_unavailable_of(message) == (ApplicationErrorView::Failed {
            code: FfiApplicationErrorCode::StateUnavailable,
            reason: message,
        }),
{
}

/// An event that cannot be applied is told by the engine's code and reason.
pub proof fn apply_errors_keep_their_reason(error: ApplyErrorView)
    ensures
        apply_error_of(error) == (ApplicationErrorView::Failed {
            code: apply_error_code_of(error.code),
            reason: error.message,
        }),
{
}

/// Every capability is listed once, with its own availability.
pub proof fn every_capability_is_listed(table: CapabilityTable, i: int)
    requires
        0 <= i < 8,
    ensures
        ffi_capabilities_of(table).values.len() == 8,
        ffi_capabilities_of(table).values[i].capability == ffi_capability_of(
            all_capabilities()[i],
        ),
        ffi_capabilities_of(table).values[i].availability == ffi_availability_of(
            table.availability_of(all_capabilities()[i]),
        ),
        forall|j: int|
            0 <= j < 8 && j != i ==> ffi_capabilities_of(table).values[i].capability != (
            #[trigger] ffi_capabilities_of(table).values[j]).capability,
{
    let all = all_capabilities();
    assert(all[0] is SecureVault && all[1] is FileSource && all[2] is FileDestination && all[3]
        is NearbyDiscovery);
    assert(all[4] is ClipboardRead && all[5] is ClipboardWrite && all[6] is BackgroundExecution
        && all[7] is Notifications);
}

/// A failure keeps whether a retry helps on the way to clients and back, and is
/// told by its message.
pub proof fn failures_keep_their_parts(
    failure: TransferFailure,
    message_key: Seq<char>,
    client: TransferFailureView,
)
    ensures
        ffi_failure_of(failure, message_key).retryable == failure.retryable,
        ffi_failure_of(failure, message_key).user_message_key == message_key,
        ffi_failure_of(failure, message_key).code == ffi_failure_code_of(failure.code),
        ffi_failure_of(failure, message_key).phase == ffi_failure_phase_of(failure.phase),
        ffi_failure_of(failure, message_key).recovery_action == ffi_recovery_action_of(
            failure.recovery_action,
        ),
        core_failure_of(client).retryable == client.retryable,
        core_failure_of(client).code == core_failure_code_of(client.code),
        core_failure_of(client).phase == core_failure_phase_of(client.phase),
        core_failure_of(client).recovery_action == core_recovery_action_of(client.recovery_action),
{
}

/// A snapshot shows every record of the application, one for one, each with its own
/// ids and numbers.
pub proof fn snapshots_show_every_record(snapshot: EngineSnapshotView, i: int)
    ensures
        ({
            let shown = ffi_snapshot_of(snapshot);
            &&& shown.contract_version == snapshot.contract_version
            &&& shown.last_sequence == snapshot.last_sequence
            &&& shown.devices.len() == snapshot.devices.len()
            &&& shown.relationships.len() == snapshot.relationships.len()
            &&& shown.rooms.len() == snapshot.rooms.len()
            &&& shown.transfers.len() == snapshot.transfers.len()
            &&& 0 <= i < snapshot.devices.len() ==> shown.devices[i].id == snapshot.devices[i].id
                && shown.devices[i].display_name == snapshot.devices[i].display_name
            &&& 0 <= i < snapshot.relationships.len() ==> {
                &&& shown.relationships[i].id == snapshot.relationships[i].id
                &&& shown.relationships[i].device_id == snapshot.relationships[i].device_id
                &&& shown.relationships[i].generation == snapshot.relationships[i].generation
                &&& shown.relationships[i].previous_generation
                    == snapshot.relationships[i].previous_generation
                &&& shown.relationships[i].state == ffi_relationship_state_of(
                    snapshot.relationships[i].state,
                )
            }
            &&& 0 <= i < snapshot.rooms.len() ==> {
                &&& shown.rooms[i].id == snapshot.rooms[i].id
                &&& shown.rooms[i].relationship_id == snapshot.rooms[i].relationship_id
                &&& shown.rooms[i].replacement_room_id == snapshot.rooms[i].replacement_room_id
                &&& shown.rooms[i].state == ffi_room_state_of(snapshot.rooms[i].state)
                &&& snapshot.rooms[i].close_reason matches Some(reason)
                    ==> shown.rooms[i].close_reason == Some(ffi_close_reason_of(reason))
                &&& snapshot.rooms[i].close_reason is None ==> shown.rooms[i].close_reason is None
            }
            &&& 0 <= i < snapshot.transfers.len() ==> {
                &&& shown.transfers[i].id == snapshot.transfers[i].id
                &&& shown.transfers[i].relationship_id == snapshot.transfers[i].relationship_id
                &&& shown.transfers[i].room_id == snapshot.transfers[i].room_id
                &&& shown.transfers[i].content_id == snapshot.transfers[i].content_id
                &&& shown.transfers[i].transferred_bytes == snapshot.transfers[i].transferred_bytes
                &&& shown.transfers[i].total_bytes == snapshot.transfers[i].total_bytes
                &&& shown.transfers[i].direction == ffi_direction_of(
                    snapshot.transfers[i].direction,
                )
                &&& shown.transfers[i].state == ffi_transfer_state_of(snapshot.transfers[i].state)
                &&& snapshot.transfers[i].failure is None <==> shown.transfers[i].failure is None
                &&& snapshot.transfers[i].failure matches Some(record)
                    ==> shown.transfers[i].failure == Some(
                    ffi_failure_of(record.failure, record.message_key),
                )
                &&& snapshot.transfers[i].rejection is None <==> shown.transfers[i].rejection
                    is None
                &&& snapshot.transfers[i].rejection matches Some(reason)
                    ==> shown.transfers[i].rejection == Some(ffi_rejection_of(reason))
            }
        }),
{
}

/// A remembered device is shown with its own id, label, generations and servers.
pub proof fn remembered_devices_are_shown_as_they_are(record: DeviceEntryView)
    ensures
        ffi_remembered_of(record).relationship_id == record.id,
        ffi_remembered_of(record).label == record.label,
        ffi_remembered_of(record).generation == record.generation,
        ffi_remembered_of(record).previous_generation == record.previous_generation,
        ffi_remembered_of(record).broker == record.broker,
        record.relay matches Some(relay) ==> ffi_remembered_of(record).relay == relay,
        record.relay is None ==> ffi_remembered_of(record).relay.len() == 0,
{
}

} // verus!
