//! What the application engine holds and answers.
use vstd::prelude::*;

use crate::text::text_option;

verus! {

broadcast use vstd::seq_lib::group_seq_properties;

/// Direction of a transfer.
#[derive(Clone, Copy, Debug, PartialEq, Eq, Structural)]
pub enum TransferDirection {
    Send,
    Receive,
}

/// Why an offer was rejected.
#[derive(Clone, Copy, Debug, PartialEq, Eq, Structural)]
pub enum TransferRejection {
    UserDeclined,
    Busy,
    InsufficientSpace,
    UnsupportedContent,
    InvalidOffer,
}

/// Why a room closed.
#[derive(Clone, Copy, Debug, PartialEq, Eq, Structural)]
pub enum RoomCloseReason {
    UserEnded,
    Expired,
    PeerEnded,
    Backgrounded,
    NetworkLost,
    ProtocolFailure,
    Replaced,
}

/// State of a room.
#[derive(Clone, Copy, Debug, PartialEq, Eq, Structural)]
pub enum RoomState {
    Connecting,
    Authenticating,
    Connected,
    Closed,
}

/// Trust state of a relationship.
#[derive(Clone, Copy, Debug, PartialEq, Eq, Structural)]
pub enum RelationshipState {
    Trusted,
    Revoked,
}

/// State of a transfer.
#[derive(Clone, Copy, Debug, PartialEq, Eq, Structural)]
pub enum TransferState {
    Offered,
    Queued,
    Connecting,
    Transferring,
    Paused,
    AwaitingDeliveryProof,
    Delivered,
    Rejected,
    Failed,
    Canceled,
}

/// Failure code; the last five are older names that stored state can hold.
#[derive(Clone, Copy, Debug, PartialEq, Eq, Structural)]
pub enum FailureCode {
    UserCanceled,
    NetworkLost,
    AuthenticationFailed,
    RoomNotFound,
    RoomExpired,
    RoomFull,
    RoomRateLimited,
    RoomUnderAttack,
    EndpointRateLimited,
    IpRateLimited,
    ServerBusy,
    MalformedJoin,
    UnsupportedRendezvousVersion,
    UnsupportedFeature,
    InternalError,
    SenderSourceUnavailable,
    SenderPermissionLost,
    SenderSourceChanged,
    SenderItemRemoved,
    SenderCanceled,
    ProtocolOrIntegrityFailure,
    ReceiverSpaceInsufficient,
    ReceiverDestinationDecisionRequired,
    ReceiverDestinationUnavailable,
    ReceiverSaveFailed,
    ReceiverReusedObjectLost,
    ReceiverFinalizationOutcomeUnknown,
    UnsupportedVersion,
    Internal,
    SourceUnavailable,
    IntegrityFailure,
    DestinationUnavailable,
}

/// Step in which a failure happened.
#[derive(Clone, Copy, Debug, PartialEq, Eq, Structural)]
pub enum FailurePhase {
    Setup,
    Pairing,
    Connecting,
    Authenticating,
    Negotiating,
    Transferring,
    Verifying,
    Committing,
}

/// What can be done about a failure.
#[derive(Clone, Copy, Debug, PartialEq, Eq, Structural)]
pub enum RecoveryAction {
    Retry,
    Resume,
    ChooseFolder,
    OpenSettings,
    RePair,
    NoAction,
}

/// A service that the platform may offer.
#[derive(Clone, Copy, Debug, PartialEq, Eq, Structural)]
pub enum PlatformCapability {
    SecureVault,
    FileSource,
    FileDestination,
    NearbyDiscovery,
    ClipboardRead,
    ClipboardWrite,
    BackgroundExecution,
    Notifications,
}

/// How far a service is available.
#[derive(Clone, Copy, Debug, PartialEq, Eq, Structural)]
pub enum CapabilityAvailability {
    Available,
    Limited,
    Unavailable,
}

/// A failed transfer.
#[derive(Clone, Copy, Debug, PartialEq, Eq, Structural)]
pub struct TransferFailure {
    pub code: FailureCode,
    pub phase: FailurePhase,
    pub retryable: bool,
    pub recovery_action: RecoveryAction,
}

/// The availability that a fact tells of one service.
#[derive(Clone, Copy, Debug, PartialEq, Eq, Structural)]
pub struct CapabilityEntry {
    pub capability: PlatformCapability,
    pub availability: CapabilityAvailability,
}

/// The availabilities that a fact tells, in its own order.
#[derive(Debug, PartialEq, Eq)]
pub struct PlatformCapabilities {
    pub entries: Vec<CapabilityEntry>,
}

/// What a [`PlatformCapabilities`] holds.
#[verifier::ext_equal]
pub struct CapabilityEntriesView {
    pub entries: Seq<CapabilityEntry>,
}

impl View for PlatformCapabilities {
    type V = CapabilityEntriesView;

    open spec fn view(&self) -> CapabilityEntriesView {
        CapabilityEntriesView {
            entries: self.entries@,
        }
    }
}

impl Clone for PlatformCapabilities {
    fn clone(&self) -> (r: Self)
        ensures
            r@ == self@,
    {
        let r = PlatformCapabilities {
            entries: self.entries.clone(),
        };
        assert(r.entries@ =~= self.entries@);
        r
    }
}

/// What the engine answers when it is asked for each service.
#[derive(Clone, Copy, Debug, PartialEq, Eq, Structural)]
pub struct CapabilityTable {
    pub secure_vault: CapabilityAvailability,
    pub file_source: CapabilityAvailability,
    pub file_destination: CapabilityAvailability,
    pub nearby_discovery: CapabilityAvailability,
    pub clipboard_read: CapabilityAvailability,
    pub clipboard_write: CapabilityAvailability,
    pub background_execution: CapabilityAvailability,
    pub notifications: CapabilityAvailability,
}

impl CapabilityTable {
    /// The availability of one service.
    pub open spec fn availability_of(self, capability: PlatformCapability) -> CapabilityAvailability {
        match capability {
            PlatformCapability::SecureVault => self.secure_vault,
            PlatformCapability::FileSource => self.file_source,
            PlatformCapability::FileDestination => self.file_destination,
            PlatformCapability::NearbyDiscovery => self.nearby_discovery,
            PlatformCapability::ClipboardRead => self.clipboard_read,
            PlatformCapability::ClipboardWrite => self.clipboard_write,
            PlatformCapability::BackgroundExecution => self.background_execution,
            PlatformCapability::Notifications => self.notifications,
        }
    }

    /// The availability of one service.
    pub fn availability(&self, capability: PlatformCapability) -> (r: CapabilityAvailability)
        ensures
            r == self.availability_of(capability),
    {
        match capability {
            PlatformCapability::SecureVault => self.secure_vault,
            PlatformCapability::FileSource => self.file_source,
            PlatformCapability::FileDestination => self.file_destination,
            PlatformCapability::NearbyDiscovery => self.nearby_discovery,
            PlatformCapability::ClipboardRead => self.clipboard_read,
            PlatformCapability::ClipboardWrite => self.clipboard_write,
            PlatformCapability::BackgroundExecution => self.background_execution,
            PlatformCapability::Notifications => self.notifications,
        }
    }
}

/// A request to the engine.
#[derive(PartialEq, Eq)]
pub enum EngineCommand {
    CreateRoom,
    JoinRoom { invitation: String },
    VerifyPairing { room_id: String, verification_code: String },
    ReconnectRelationship { relationship_id: String },
    CreateTransfer { relationship_id: String, content_id: String, direction: TransferDirection },
    AcceptTransfer { transfer_id: String },
    RejectTransfer { transfer_id: String, reason: TransferRejection },
    PauseTransfer { transfer_id: String },
    ResumeTransfer { transfer_id: String },
    RecoverTransfer { transfer_id: String },
    CancelTransfer { transfer_id: String },
    RemoveTransfer { transfer_id: String },
    RevokeRelationship { relationship_id: String },
}

/// What a [`EngineCommand`] holds.
#[verifier::ext_equal]
pub enum EngineCommandView {
    CreateRoom,
    JoinRoom { invitation: Seq<char> },
    VerifyPairing { room_id: Seq<char>, verification_code: Seq<char> },
    ReconnectRelationship { relationship_id: Seq<char> },
    CreateTransfer { relationship_id: Seq<char>, content_id: Seq<char>, direction: TransferDirection },
    AcceptTransfer { transfer_id: Seq<char> },
    RejectTransfer { transfer_id: Seq<char>, reason: TransferRejection },
    PauseTransfer { transfer_id: Seq<char> },
    ResumeTransfer { transfer_id: Seq<char> },
    RecoverTransfer { transfer_id: Seq<char> },
    CancelTransfer { transfer_id: Seq<char> },
    RemoveTransfer { transfer_id: Seq<char> },
    RevokeRelationship { relationship_id: Seq<char> },
}

impl View for EngineCommand {
    type V = EngineCommandView;

    open spec fn view(&self) -> EngineCommandView {
        match *self {
            EngineCommand::CreateRoom => EngineCommandView::CreateRoom,
            EngineCommand::JoinRoom { invitation } => EngineCommandView::JoinRoom { invitation: invitation@ },
            EngineCommand::VerifyPairing { room_id, verification_code } => EngineCommandView::VerifyPairing { room_id: room_id@, verification_code: verification_code@ },
            EngineCommand::ReconnectRelationship { relationship_id } => EngineCommandView::ReconnectRelationship { relationship_id: relationship_id@ },
            EngineCommand::CreateTransfer { relationship_id, content_id, direction } => EngineCommandView::CreateTransfer { relationship_id: relationship_id@, content_id: content_id@, direction },
            EngineCommand::AcceptTransfer { transfer_id } => EngineCommandView::AcceptTransfer { transfer_id: transfer_id@ },
            EngineCommand::RejectTransfer { transfer_id, reason } => EngineCommandView::RejectTransfer { transfer_id: transfer_id@, reason },
            EngineCommand::PauseTransfer { transfer_id } => EngineCommandView::PauseTransfer { transfer_id: transfer_id@ },
            EngineCommand::ResumeTransfer { transfer_id } => EngineCommandView::ResumeTransfer { transfer_id: transfer_id@ },
            EngineCommand::RecoverTransfer { transfer_id } => EngineCommandView::RecoverTransfer { transfer_id: transfer_id@ },
            EngineCommand::CancelTransfer { transfer_id } => EngineCommandView::CancelTransfer { transfer_id: transfer_id@ },
            EngineCommand::RemoveTransfer { transfer_id } => EngineCommandView::RemoveTransfer { transfer_id: transfer_id@ },
            EngineCommand::RevokeRelationship { relationship_id } => EngineCommandView::RevokeRelationship { relationship_id: relationship_id@ },
        }
    }
}

impl Clone for EngineCommand {
    fn clone(&self) -> (r: Self)
        ensures
            r == *self,
    {
        match self {
            EngineCommand::CreateRoom => EngineCommand::CreateRoom,
            EngineCommand::JoinRoom { invitation } => EngineCommand::JoinRoom { invitation: invitation.clone() },
            EngineCommand::VerifyPairing { room_id, verification_code } => EngineCommand::VerifyPairing { room_id: room_id.clone(), verification_code: verification_code.clone() },
            EngineCommand::ReconnectRelationship { relationship_id } => EngineCommand::ReconnectRelationship { relationship_id: relationship_id.clone() },
            EngineCommand::CreateTransfer { relationship_id, content_id, direction } => EngineCommand::CreateTransfer { relationship_id: relationship_id.clone(), content_id: content_id.clone(), direction: *direction },
            EngineCommand::AcceptTransfer { transfer_id } => EngineCommand::AcceptTransfer { transfer_id: transfer_id.clone() },
            EngineCommand::RejectTransfer { transfer_id, reason } => EngineCommand::RejectTransfer { transfer_id: transfer_id.clone(), reason: *reason },
            EngineCommand::PauseTransfer { transfer_id } => EngineCommand::PauseTransfer { transfer_id: transfer_id.clone() },
            EngineCommand::ResumeTransfer { transfer_id } => EngineCommand::ResumeTransfer { transfer_id: transfer_id.clone() },
            EngineCommand::RecoverTransfer { transfer_id } => EngineCommand::RecoverTransfer { transfer_id: transfer_id.clone() },
            EngineCommand::CancelTransfer { transfer_id } => EngineCommand::CancelTransfer { transfer_id: transfer_id.clone() },
            EngineCommand::RemoveTransfer { transfer_id } => EngineCommand::RemoveTransfer { transfer_id: transfer_id.clone() },
            EngineCommand::RevokeRelationship { relationship_id } => EngineCommand::RevokeRelationship { relationship_id: relationship_id.clone() },
        }
    }
}

/// A request with its identity.
#[derive(PartialEq, Eq)]
pub struct CommandEnvelope {
    pub contract_version: u16,
    pub command_id: String,
    pub command: EngineCommand,
}

/// What a [`CommandEnvelope`] holds.
#[verifier::ext_equal]
pub struct EngineCommandEnvelopeView {
    pub contract_version: u16,
    pub command_id: Seq<char>,
    pub command: EngineCommandView,
}

impl View for CommandEnvelope {
    type V = EngineCommandEnvelopeView;

    open spec fn view(&self) -> EngineCommandEnvelopeView {
        EngineCommandEnvelopeView {
            contract_version: self.contract_version,
            command_id: self.command_id@,
            command: self.command@,
        }
    }
}

impl Clone for CommandEnvelope {
    fn clone(&self) -> (r: Self)
        ensures
            r == *self,
    {
        CommandEnvelope {
            contract_version: self.contract_version,
            command_id: self.command_id.clone(),
            command: self.command.clone(),
        }
    }
}

/// Work that a decided command asks for.
#[derive(PartialEq, Eq)]
pub enum EngineEffect {
    CreateRoom,
    JoinRoom { invitation: String },
    VerifyPairing { room_id: String, verification_code: String },
    ReconnectRelationship { relationship_id: String, generation: u64, previous_generation: Option<u64> },
    CreateTransfer { relationship_id: String, content_id: String, direction: TransferDirection },
    AcceptTransfer { transfer_id: String },
    RejectTransfer { transfer_id: String, reason: TransferRejection },
    PauseTransfer { transfer_id: String },
    ResumeTransfer { transfer_id: String },
    RecoverTransfer { transfer_id: String, action: RecoveryAction },
    CancelTransfer { transfer_id: String },
    RemoveTransfer { transfer_id: String },
    RevokeRelationship { relationship_id: String },
}

/// What a [`EngineEffect`] holds.
#[verifier::ext_equal]
pub enum EngineEffectView {
    CreateRoom,
    JoinRoom { invitation: Seq<char> },
    VerifyPairing { room_id: Seq<char>, verification_code: Seq<char> },
    ReconnectRelationship { relationship_id: Seq<char>, generation: u64, previous_generation: Option<u64> },
    CreateTransfer { relationship_id: Seq<char>, content_id: Seq<char>, direction: TransferDirection },
    AcceptTransfer { transfer_id: Seq<char> },
    RejectTransfer { transfer_id: Seq<char>, reason: TransferRejection },
    PauseTransfer { transfer_id: Seq<char> },
    ResumeTransfer { transfer_id: Seq<char> },
    RecoverTransfer { transfer_id: Seq<char>, action: RecoveryAction },
    CancelTransfer { transfer_id: Seq<char> },
    RemoveTransfer { transfer_id: Seq<char> },
    RevokeRelationship { relationship_id: Seq<char> },
}

impl View for EngineEffect {
    type V = EngineEffectView;

    open spec fn view(&self) -> EngineEffectView {
        match *self {
            EngineEffect::CreateRoom => EngineEffectView::CreateRoom,
            EngineEffect::JoinRoom { invitation } => EngineEffectView::JoinRoom { invitation: invitation@ },
            EngineEffect::VerifyPairing { room_id, verification_code } => EngineEffectView::VerifyPairing { room_id: room_id@, verification_code: verification_code@ },
            EngineEffect::ReconnectRelationship { relationship_id, generation, previous_generation } => EngineEffectView::ReconnectRelationship { relationship_id: relationship_id@, generation, previous_generation },
            EngineEffect::CreateTransfer { relationship_id, content_id, direction } => EngineEffectView::CreateTransfer { relationship_id: relationship_id@, content_id: content_id@, direction },
            EngineEffect::AcceptTransfer { transfer_id } => EngineEffectView::AcceptTransfer { transfer_id: transfer_id@ },
            EngineEffect::RejectTransfer { transfer_id, reason } => EngineEffectView::RejectTransfer { transfer_id: transfer_id@, reason },
            EngineEffect::PauseTransfer { transfer_id } => EngineEffectView::PauseTransfer { transfer_id: transfer_id@ },
            EngineEffect::ResumeTransfer { transfer_id } => EngineEffectView::ResumeTransfer { transfer_id: transfer_id@ },
            EngineEffect::RecoverTransfer { transfer_id, action } => EngineEffectView::RecoverTransfer { transfer_id: transfer_id@, action },
            EngineEffect::CancelTransfer { transfer_id } => EngineEffectView::CancelTransfer { transfer_id: transfer_id@ },
            EngineEffect::RemoveTransfer { transfer_id } => EngineEffectView::RemoveTransfer { transfer_id: transfer_id@ },
            EngineEffect::RevokeRelationship { relationship_id } => EngineEffectView::RevokeRelationship { relationship_id: relationship_id@ },
        }
    }
}

impl Clone for EngineEffect {
    fn clone(&self) -> (r: Self)
        ensures
            r == *self,
    {
        match self {
            EngineEffect::CreateRoom => EngineEffect::CreateRoom,
            EngineEffect::JoinRoom { invitation } => EngineEffect::JoinRoom { invitation: invitation.clone() },
            EngineEffect::VerifyPairing { room_id, verification_code } => EngineEffect::VerifyPairing { room_id: room_id.clone(), verification_code: verification_code.clone() },
            EngineEffect::ReconnectRelationship { relationship_id, generation, previous_generation } => EngineEffect::ReconnectRelationship { relationship_id: relationship_id.clone(), generation: *generation, previous_generation: *previous_generation },
            EngineEffect::CreateTransfer { relationship_id, content_id, direction } => EngineEffect::CreateTransfer { relationship_id: relationship_id.clone(), content_id: content_id.clone(), direction: *direction },
            EngineEffect::AcceptTransfer { transfer_id } => EngineEffect::AcceptTransfer { transfer_id: transfer_id.clone() },
            EngineEffect::RejectTransfer { transfer_id, reason } => EngineEffect::RejectTransfer { transfer_id: transfer_id.clone(), reason: *reason },
            EngineEffect::PauseTransfer { transfer_id } => EngineEffect::PauseTransfer { transfer_id: transfer_id.clone() },
            EngineEffect::ResumeTransfer { transfer_id } => EngineEffect::ResumeTransfer { transfer_id: transfer_id.clone() },
            EngineEffect::RecoverTransfer { transfer_id, action } => EngineEffect::RecoverTransfer { transfer_id: transfer_id.clone(), action: *action },
            EngineEffect::CancelTransfer { transfer_id } => EngineEffect::CancelTransfer { transfer_id: transfer_id.clone() },
            EngineEffect::RemoveTransfer { transfer_id } => EngineEffect::RemoveTransfer { transfer_id: transfer_id.clone() },
            EngineEffect::RevokeRelationship { relationship_id } => EngineEffect::RevokeRelationship { relationship_id: relationship_id.clone() },
        }
    }
}

/// An effect with the identity of its command.
#[derive(PartialEq, Eq)]
pub struct EffectEnvelope {
    pub contract_version: u16,
    pub command_id: String,
    pub effect: EngineEffect,
}

/// What a [`EffectEnvelope`] holds.
#[verifier::ext_equal]
pub struct EngineEffectEnvelopeView {
    pub contract_version: u16,
    pub command_id: Seq<char>,
    pub effect: EngineEffectView,
}

impl View for EffectEnvelope {
    type V = EngineEffectEnvelopeView;

    open spec fn view(&self) -> EngineEffectEnvelopeView {
        EngineEffectEnvelopeView {
            contract_version: self.contract_version,
            command_id: self.command_id@,
            effect: self.effect@,
        }
    }
}

impl Clone for EffectEnvelope {
    fn clone(&self) -> (r: Self)
        ensures
            r == *self,
    {
        EffectEnvelope {
            contract_version: self.contract_version,
            command_id: self.command_id.clone(),
            effect: self.effect.clone(),
        }
    }
}

/// A fact. `RoomConnected` and `TransferDelivered` occur in older records only.
#[derive(Debug, PartialEq, Eq)]
#[allow(inconsistent_fields)]
pub enum EngineEvent {
    CapabilitiesChanged { capabilities: PlatformCapabilities },
    DeviceObserved { device_id: String, display_name: String },
    RelationshipTrusted { relationship_id: String, device_id: String, generation: u64 },
    RelationshipRotated { relationship_id: String, generation: u64 },
    RelationshipRevoked { relationship_id: String },
    RoomOpened { room_id: String, relationship_id: Option<String>, replaces_room_id: Option<String> },
    RoomPeerAdmitted { room_id: String },
    RoomAuthenticated { room_id: String },
    RoomClosed { room_id: String, reason: RoomCloseReason },
    TransferCreated { transfer_id: String, relationship_id: String, room_id: Option<String>, content_id: String, direction: TransferDirection, total_bytes: u64 },
    TransferOffered { transfer_id: String, relationship_id: String, room_id: String, content_id: String, total_bytes: u64 },
    TransferAccepted { transfer_id: String },
    TransferRejected { transfer_id: String, reason: TransferRejection },
    TransferStarted { transfer_id: String },
    TransferProgressed { transfer_id: String, transferred_bytes: u64 },
    TransferPaused { transfer_id: String },
    TransferResumed { transfer_id: String },
    TransferRecoveryStarted { transfer_id: String },
    TransferPayloadCompleted { transfer_id: String },
    TransferDeliveryProofVerified { transfer_id: String },
    TransferFailed { transfer_id: String, failure: TransferFailure },
    TransferCanceled { transfer_id: String },
    TransferRemoved { transfer_id: String },
    RoomConnected { room_id: String },
    TransferDelivered { transfer_id: String },
}

/// What a [`EngineEvent`] holds.
#[verifier::ext_equal]
#[allow(inconsistent_fields)]
pub enum EngineEventView {
    CapabilitiesChanged { capabilities: CapabilityEntriesView },
    DeviceObserved { device_id: Seq<char>, display_name: Seq<char> },
    RelationshipTrusted { relationship_id: Seq<char>, device_id: Seq<char>, generation: u64 },
    RelationshipRotated { relationship_id: Seq<char>, generation: u64 },
    RelationshipRevoked { relationship_id: Seq<char> },
    RoomOpened { room_id: Seq<char>, relationship_id: Option<Seq<char>>, replaces_room_id: Option<Seq<char>> },
    RoomPeerAdmitted { room_id: Seq<char> },
    RoomAuthenticated { room_id: Seq<char> },
    RoomClosed { room_id: Seq<char>, reason: RoomCloseReason },
    TransferCreated { transfer_id: Seq<char>, relationship_id: Seq<char>, room_id: Option<Seq<char>>, content_id: Seq<char>, direction: TransferDirection, total_bytes: u64 },
    TransferOffered { transfer_id: Seq<char>, relationship_id: Seq<char>, room_id: Seq<char>, content_id: Seq<char>, total_bytes: u64 },
    TransferAccepted { transfer_id: Seq<char> },
    TransferRejected { transfer_id: Seq<char>, reason: TransferRejection },
    TransferStarted { transfer_id: Seq<char> },
    TransferProgressed { transfer_id: Seq<char>, transferred_bytes: u64 },
    TransferPaused { transfer_id: Seq<char> },
    TransferResumed { transfer_id: Seq<char> },
    TransferRecoveryStarted { transfer_id: Seq<char> },
    TransferPayloadCompleted { transfer_id: Seq<char> },
    TransferDeliveryProofVerified { transfer_id: Seq<char> },
    TransferFailed { transfer_id: Seq<char>, failure: TransferFailure },
    TransferCanceled { transfer_id: Seq<char> },
    TransferRemoved { transfer_id: Seq<char> },
    RoomConnected { room_id: Seq<char> },
    TransferDelivered { transfer_id: Seq<char> },
}

impl View for EngineEvent {
    type V = EngineEventView;

    open spec fn view(&self) -> EngineEventView {
        match *self {
            EngineEvent::CapabilitiesChanged { capabilities } => EngineEventView::CapabilitiesChanged { capabilities: capabilities@ },
            EngineEvent::DeviceObserved { device_id, display_name } => EngineEventView::DeviceObserved { device_id: device_id@, display_name: display_name@ },
            EngineEvent::RelationshipTrusted { relationship_id, device_id, generation } => EngineEventView::RelationshipTrusted { relationship_id: relationship_id@, device_id: device_id@, generation },
            EngineEvent::RelationshipRotated { relationship_id, generation } => EngineEventView::RelationshipRotated { relationship_id: relationship_id@, generation },
            EngineEvent::RelationshipRevoked { relationship_id } => EngineEventView::RelationshipRevoked { relationship_id: relationship_id@ },
            EngineEvent::RoomOpened { room_id, relationship_id, replaces_room_id } => EngineEventView::RoomOpened { room_id: room_id@, relationship_id: text_option(relationship_id), replaces_room_id: text_option(replaces_room_id) },
            EngineEvent::RoomPeerAdmitted { room_id } => EngineEventView::RoomPeerAdmitted { room_id: room_id@ },
            EngineEvent::RoomAuthenticated { room_id } => EngineEventView::RoomAuthenticated { room_id: room_id@ },
            EngineEvent::RoomClosed { room_id, reason } => EngineEventView::RoomClosed { room_id: room_id@, reason },
            EngineEvent::TransferCreated { transfer_id, relationship_id, room_id, content_id, direction, total_bytes } => EngineEventView::TransferCreated { transfer_id: transfer_id@, relationship_id: relationship_id@, room_id: text_option(room_id), content_id: content_id@, direction, total_bytes },
            EngineEvent::TransferOffered { transfer_id, relationship_id, room_id, content_id, total_bytes } => EngineEventView::TransferOffered { transfer_id: transfer_id@, relationship_id: relationship_id@, room_id: room_id@, content_id: content_id@, total_bytes },
            EngineEvent::TransferAccepted { transfer_id } => EngineEventView::TransferAccepted { transfer_id: transfer_id@ },
            EngineEvent::TransferRejected { transfer_id, reason } => EngineEventView::TransferRejected { transfer_id: transfer_id@, reason },
            EngineEvent::TransferStarted { transfer_id } => EngineEventView::TransferStarted { transfer_id: transfer_id@ },
            EngineEvent::TransferProgressed { transfer_id, transferred_bytes } => EngineEventView::TransferProgressed { transfer_id: transfer_id@, transferred_bytes },
            EngineEvent::TransferPaused { transfer_id } => EngineEventView::TransferPaused { transfer_id: transfer_id@ },
            EngineEvent::TransferResumed { transfer_id } => EngineEventView::TransferResumed { transfer_id: transfer_id@ },
            EngineEvent::TransferRecoveryStarted { transfer_id } => EngineEventView::TransferRecoveryStarted { transfer_id: transfer_id@ },
            EngineEvent::TransferPayloadCompleted { transfer_id } => EngineEventView::TransferPayloadCompleted { transfer_id: transfer_id@ },
            EngineEvent::TransferDeliveryProofVerified { transfer_id } => EngineEventView::TransferDeliveryProofVerified { transfer_id: transfer_id@ },
            EngineEvent::TransferFailed { transfer_id, failure } => EngineEventView::TransferFailed { transfer_id: transfer_id@, failure },
            EngineEvent::TransferCanceled { transfer_id } => EngineEventView::TransferCanceled { transfer_id: transfer_id@ },
            EngineEvent::TransferRemoved { transfer_id } => EngineEventView::TransferRemoved { transfer_id: transfer_id@ },
            EngineEvent::RoomConnected { room_id } => EngineEventView::RoomConnected { room_id: room_id@ },
            EngineEvent::TransferDelivered { transfer_id } => EngineEventView::TransferDelivered { transfer_id: transfer_id@ },
        }
    }
}

impl Clone for EngineEvent {
    fn clone(&self) -> (r: Self)
        ensures
            r@ == self@,
    {
        let r = match self {
            EngineEvent::CapabilitiesChanged { capabilities } => EngineEvent::CapabilitiesChanged { capabilities: capabilities.clone() },
            EngineEvent::DeviceObserved { device_id, display_name } => EngineEvent::DeviceObserved { device_id: device_id.clone(), display_name: display_name.clone() },
            EngineEvent::RelationshipTrusted { relationship_id, device_id, generation } => EngineEvent::RelationshipTrusted { relationship_id: relationship_id.clone(), device_id: device_id.clone(), generation: *generation },
            EngineEvent::RelationshipRotated { relationship_id, generation } => EngineEvent::RelationshipRotated { relationship_id: relationship_id.clone(), generation: *generation },
            EngineEvent::RelationshipRevoked { relationship_id } => EngineEvent::RelationshipRevoked { relationship_id: relationship_id.clone() },
            EngineEvent::RoomOpened { room_id, relationship_id, replaces_room_id } => EngineEvent::RoomOpened { room_id: room_id.clone(), relationship_id: relationship_id.clone(), replaces_room_id: replaces_room_id.clone() },
            EngineEvent::RoomPeerAdmitted { room_id } => EngineEvent::RoomPeerAdmitted { room_id: room_id.clone() },
            EngineEvent::RoomAuthenticated { room_id } => EngineEvent::RoomAuthenticated { room_id: room_id.clone() },
            EngineEvent::RoomClosed { room_id, reason } => EngineEvent::RoomClosed { room_id: room_id.clone(), reason: *reason },
            EngineEvent::TransferCreated { transfer_id, relationship_id, room_id, content_id, direction, total_bytes } => EngineEvent::TransferCreated { transfer_id: transfer_id.clone(), relationship_id: relationship_id.clone(), room_id: room_id.clone(), content_id: content_id.clone(), direction: *direction, total_bytes: *total_bytes },
            EngineEvent::TransferOffered { transfer_id, relationship_id, room_id, content_id, total_bytes } => EngineEvent::TransferOffered { transfer_id: transfer_id.clone(), relationship_id: relationship_id.clone(), room_id: room_id.clone(), content_id: content_id.clone(), total_bytes: *total_bytes },
            EngineEvent::TransferAccepted { transfer_id } => EngineEvent::TransferAccepted { transfer_id: transfer_id.clone() },
            EngineEvent::TransferRejected { transfer_id, reason } => EngineEvent::TransferRejected { transfer_id: transfer_id.clone(), reason: *reason },
            EngineEvent::TransferStarted { transfer_id } => EngineEvent::TransferStarted { transfer_id: transfer_id.clone() },
            EngineEvent::TransferProgressed { transfer_id, transferred_bytes } => EngineEvent::TransferProgressed { transfer_id: transfer_id.clone(), transferred_bytes: *transferred_bytes },
            EngineEvent::TransferPaused { transfer_id } => EngineEvent::TransferPaused { transfer_id: transfer_id.clone() },
            EngineEvent::TransferResumed { transfer_id } => EngineEvent::TransferResumed { transfer_id: transfer_id.clone() },
            EngineEvent::TransferRecoveryStarted { transfer_id } => EngineEvent::TransferRecoveryStarted { transfer_id: transfer_id.clone() },
            EngineEvent::TransferPayloadCompleted { transfer_id } => EngineEvent::TransferPayloadCompleted { transfer_id: transfer_id.clone() },
            EngineEvent::TransferDeliveryProofVerified { transfer_id } => EngineEvent::TransferDeliveryProofVerified { transfer_id: transfer_id.clone() },
            EngineEvent::TransferFailed { transfer_id, failure } => EngineEvent::TransferFailed { transfer_id: transfer_id.clone(), failure: *failure },
            EngineEvent::TransferCanceled { transfer_id } => EngineEvent::TransferCanceled { transfer_id: transfer_id.clone() },
            EngineEvent::TransferRemoved { transfer_id } => EngineEvent::TransferRemoved { transfer_id: transfer_id.clone() },
            EngineEvent::RoomConnected { room_id } => EngineEvent::RoomConnected { room_id: room_id.clone() },
            EngineEvent::TransferDelivered { transfer_id } => EngineEvent::TransferDelivered { transfer_id: transfer_id.clone() },
        };
        assert(r@ =~= self@);
        r
    }
}

/// A fact with its place in the order of facts.
#[derive(Debug, PartialEq, Eq)]
pub struct EventEnvelope {
    pub contract_version: u16,
    pub sequence: u64,
    pub event: EngineEvent,
}

/// What a [`EventEnvelope`] holds.
#[verifier::ext_equal]
pub struct EngineEventEnvelopeView {
    pub contract_version: u16,
    pub sequence: u64,
    pub event: EngineEventView,
}

impl View for EventEnvelope {
    type V = EngineEventEnvelopeView;

    open spec fn view(&self) -> EngineEventEnvelopeView {
        EngineEventEnvelopeView {
            contract_version: self.contract_version,
            sequence: self.sequence,
            event: self.event@,
        }
    }
}

impl Clone for EventEnvelope {
    fn clone(&self) -> (r: Self)
        ensures
            r@ == self@,
    {
        let r = EventEnvelope {
            contract_version: self.contract_version,
            sequence: self.sequence,
            event: self.event.clone(),
        };
        r
    }
}

/// A device of the snapshot.
#[derive(Debug, PartialEq, Eq)]
pub struct DeviceRecord {
    pub id: String,
    pub display_name: String,
}

/// What a [`DeviceRecord`] holds.
#[verifier::ext_equal]
pub struct DeviceRecordView {
    pub id: Seq<char>,
    pub display_name: Seq<char>,
}

impl View for DeviceRecord {
    type V = DeviceRecordView;

    open spec fn view(&self) -> DeviceRecordView {
        DeviceRecordView {
            id: self.id@,
            display_name: self.display_name@,
        }
    }
}

impl Clone for DeviceRecord {
    fn clone(&self) -> (r: Self)
        ensures
            r == *self,
    {
        DeviceRecord {
            id: self.id.clone(),
            display_name: self.display_name.clone(),
        }
    }
}

/// A relationship of the snapshot.
#[derive(Debug, PartialEq, Eq)]
pub struct RelationshipRecord {
    pub id: String,
    pub device_id: String,
    pub generation: u64,
    pub previous_generation: Option<u64>,
    pub state: RelationshipState,
}

/// What a [`RelationshipRecord`] holds.
#[verifier::ext_equal]
pub struct RelationshipRecordView {
    pub id: Seq<char>,
    pub device_id: Seq<char>,
    pub generation: u64,
    pub previous_generation: Option<u64>,
    pub state: RelationshipState,
}

impl View for RelationshipRecord {
    type V = RelationshipRecordView;

    open spec fn view(&self) -> RelationshipRecordView {
        RelationshipRecordView {
            id: self.id@,
            device_id: self.device_id@,
            generation: self.generation,
            previous_generation: self.previous_generation,
            state: self.state,
        }
    }
}

impl Clone for RelationshipRecord {
    fn clone(&self) -> (r: Self)
        ensures
            r == *self,
    {
        RelationshipRecord {
            id: self.id.clone(),
            device_id: self.device_id.clone(),
            generation: self.generation,
            previous_generation: self.previous_generation,
            state: self.state,
        }
    }
}

/// A room of the snapshot.
#[derive(Debug, PartialEq, Eq)]
pub struct RoomRecord {
    pub id: String,
    pub relationship_id: Option<String>,
    pub state: RoomState,
    pub close_reason: Option<RoomCloseReason>,
    pub replacement_room_id: Option<String>,
}

/// What a [`RoomRecord`] holds.
#[verifier::ext_equal]
pub struct RoomRecordView {
    pub id: Seq<char>,
    pub relationship_id: Option<Seq<char>>,
    pub state: RoomState,
    pub close_reason: Option<RoomCloseReason>,
    pub replacement_room_id: Option<Seq<char>>,
}

impl View for RoomRecord {
    type V = RoomRecordView;

    open spec fn view(&self) -> RoomRecordView {
        RoomRecordView {
            id: self.id@,
            relationship_id: text_option(self.relationship_id),
            state: self.state,
            close_reason: self.close_reason,
            replacement_room_id: text_option(self.replacement_room_id),
        }
    }
}

impl Clone for RoomRecord {
    fn clone(&self) -> (r: Self)
        ensures
            r == *self,
    {
        RoomRecord {
            id: self.id.clone(),
            relationship_id: self.relationship_id.clone(),
            state: self.state,
            close_reason: self.close_reason,
            replacement_room_id: self.replacement_room_id.clone(),
        }
    }
}

/// A failure of the snapshot with the message key of its code.
#[derive(Debug, PartialEq, Eq)]
pub struct FailureRecord {
    pub failure: TransferFailure,
    pub message_key: String,
}

/// What a [`FailureRecord`] holds.
#[verifier::ext_equal]
pub struct FailureRecordView {
    pub failure: TransferFailure,
    pub message_key: Seq<char>,
}

impl View for FailureRecord {
    type V = FailureRecordView;

    open spec fn view(&self) -> FailureRecordView {
        FailureRecordView {
            failure: self.failure,
            message_key: self.message_key@,
        }
    }
}

impl Clone for FailureRecord {
    fn clone(&self) -> (r: Self)
        ensures
            r == *self,
    {
        FailureRecord {
            failure: self.failure,
            message_key: self.message_key.clone(),
        }
    }
}

/// A transfer of the snapshot.
#[derive(Debug, PartialEq, Eq)]
pub struct TransferRecord {
    pub id: String,
    pub relationship_id: String,
    pub room_id: Option<String>,
    pub content_id: String,
    pub direction: TransferDirection,
    pub state: TransferState,
    pub transferred_bytes: u64,
    pub total_bytes: u64,
    pub failure: Option<FailureRecord>,
    pub rejection: Option<TransferRejection>,
}

/// What a [`TransferRecord`] holds.
#[verifier::ext_equal]
pub struct TransferRecordView {
    pub id: Seq<char>,
    pub relationship_id: Seq<char>,
    pub room_id: Option<Seq<char>>,
    pub content_id: Seq<char>,
    pub direction: TransferDirection,
    pub state: TransferState,
    pub transferred_bytes: u64,
    pub total_bytes: u64,
    pub failure: Option<FailureRecordView>,
    pub rejection: Option<TransferRejection>,
}

impl View for TransferRecord {
    type V = TransferRecordView;

    open spec fn view(&self) -> TransferRecordView {
        TransferRecordView {
            id: self.id@,
            relationship_id: self.relationship_id@,
            room_id: text_option(self.room_id),
            content_id: self.content_id@,
            direction: self.direction,
            state: self.state,
            transferred_bytes: self.transferred_bytes,
            total_bytes: self.total_bytes,
            failure: match self.failure { Some(x) => Some(x@), None => None },
            rejection: self.rejection,
        }
    }
}

impl Clone for TransferRecord {
    fn clone(&self) -> (r: Self)
        ensures
            r == *self,
    {
        TransferRecord {
            id: self.id.clone(),
            relationship_id: self.relationship_id.clone(),
            room_id: self.room_id.clone(),
            content_id: self.content_id.clone(),
            direction: self.direction,
            state: self.state,
            transferred_bytes: self.transferred_bytes,
            total_bytes: self.total_bytes,
            failure: self.failure.clone(),
            rejection: self.rejection,
        }
    }
}

/// The engine's state, each list in the order of its identifiers.
#[derive(Debug, PartialEq, Eq)]
pub struct EngineSnapshot {
    pub contract_version: u16,
    pub last_sequence: u64,
    pub capabilities: CapabilityTable,
    pub devices: Vec<DeviceRecord>,
    pub relationships: Vec<RelationshipRecord>,
    pub rooms: Vec<RoomRecord>,
    pub transfers: Vec<TransferRecord>,
}

/// What a [`EngineSnapshot`] holds.
#[verifier::ext_equal]
pub struct EngineSnapshotView {
    pub contract_version: u16,
    pub last_sequence: u64,
    pub capabilities: CapabilityTable,
    pub devices: Seq<DeviceRecordView>,
    pub relationships: Seq<RelationshipRecordView>,
    pub rooms: Seq<RoomRecordView>,
    pub transfers: Seq<TransferRecordView>,
}

impl View for EngineSnapshot {
    type V = EngineSnapshotView;

    open spec fn view(&self) -> EngineSnapshotView {
        EngineSnapshotView {
            contract_version: self.contract_version,
            last_sequence: self.last_sequence,
            capabilities: self.capabilities,
            devices: self.devices@.map_values(|x: DeviceRecord| x@),
            relationships: self.relationships@.map_values(|x: RelationshipRecord| x@),
            rooms: self.rooms@.map_values(|x: RoomRecord| x@),
            transfers: self.transfers@.map_values(|x: TransferRecord| x@),
        }
    }
}

impl Clone for EngineSnapshot {
    fn clone(&self) -> (r: Self)
        ensures
            r@ == self@,
    {
        let r = EngineSnapshot {
            contract_version: self.contract_version,
            last_sequence: self.last_sequence,
            capabilities: self.capabilities,
            devices: self.devices.clone(),
            relationships: self.relationships.clone(),
            rooms: self.rooms.clone(),
            transfers: self.transfers.clone(),
        };
        assert(r@.devices =~= self@.devices);
        assert(r@.relationships =~= self@.relationships);
        assert(r@.rooms =~= self@.rooms);
        assert(r@.transfers =~= self@.transfers);
        r
    }
}

/// Why the engine refuses an event or a command.
#[derive(Clone, Copy, Debug, PartialEq, Eq, Structural)]
pub enum ApplicationErrorCode {
    UnsupportedContractVersion,
    InvalidSequence,
    EventGap,
    EntityNotFound,
    InvalidReference,
    InvalidTransition,
    InvalidProgress,
    GenerationMismatch,
    UnsupportedEvent,
}

/// A refused event or command.
#[derive(Debug, PartialEq, Eq)]
pub struct ApplyError {
    pub code: ApplicationErrorCode,
    pub message: String,
}

/// What a [`ApplyError`] holds.
#[verifier::ext_equal]
pub struct ApplyErrorView {
    pub code: ApplicationErrorCode,
    pub message: Seq<char>,
}

impl View for ApplyError {
    type V = ApplyErrorView;

    open spec fn view(&self) -> ApplyErrorView {
        ApplyErrorView {
            code: self.code,
            message: self.message@,
        }
    }
}

impl Clone for ApplyError {
    fn clone(&self) -> (r: Self)
        ensures
            r == *self,
    {
        ApplyError {
            code: self.code,
            message: self.message.clone(),
        }
    }
}

/// Whether an event changed the snapshot.
#[derive(Clone, Copy, Debug, PartialEq, Eq, Structural)]
pub enum ApplyOutcome {
    Applied,
    IgnoredDuplicate,
}

/// Failure of a platform service.
#[derive(Clone, Copy, Debug, PartialEq, Eq, Structural)]
pub enum PlatformPortError {
    Unavailable,
    Limited,
    PermissionDenied,
    InteractionRequired,
    InvalidRequest,
    CorruptData,
    Canceled,
}

/// What went wrong with the durable state.
#[derive(Clone, Copy, Debug, PartialEq, Eq, Structural)]
pub enum StoreErrorKind {
    AlreadyOwned,
    UnsupportedSchema,
    UnsupportedLegacyState,
    PlatformPort(PlatformPortError),
    MissingVaultCredential,
    InvalidState,
    /// An input or output error; the flag tells whether it blames the input.
    Io { invalid_input: bool },
    StateTooLarge,
    Decode,
}

/// A failed operation on the durable state.
#[derive(Debug, PartialEq, Eq)]
pub struct EngineStoreError {
    pub kind: StoreErrorKind,
    pub message: String,
}

/// What a [`EngineStoreError`] holds.
#[verifier::ext_equal]
pub struct StoreErrorView {
    pub kind: StoreErrorKind,
    pub message: Seq<char>,
}

impl View for EngineStoreError {
    type V = StoreErrorView;

    open spec fn view(&self) -> StoreErrorView {
        StoreErrorView {
            kind: self.kind,
            message: self.message@,
        }
    }
}

impl Clone for EngineStoreError {
    fn clone(&self) -> (r: Self)
        ensures
            r == *self,
    {
        EngineStoreError {
            kind: self.kind,
            message: self.message.clone(),
        }
    }
}

/// A prepared device of the durable state.
#[derive(Debug, PartialEq, Eq)]
pub struct PreparedRememberedDevice {
    pub id: String,
    pub label: String,
}

/// What a [`PreparedRememberedDevice`] holds.
#[verifier::ext_equal]
pub struct PreparedDeviceView {
    pub id: Seq<char>,
    pub label: Seq<char>,
}

impl View for PreparedRememberedDevice {
    type V = PreparedDeviceView;

    open spec fn view(&self) -> PreparedDeviceView {
        PreparedDeviceView {
            id: self.id@,
            label: self.label@,
        }
    }
}

impl Clone for PreparedRememberedDevice {
    fn clone(&self) -> (r: Self)
        ensures
            r == *self,
    {
        PreparedRememberedDevice {
            id: self.id.clone(),
            label: self.label.clone(),
        }
    }
}

/// A durable device.
#[derive(Debug, PartialEq, Eq)]
pub struct RememberedDeviceRecord {
    pub id: String,
    pub label: String,
    pub generation: u64,
    pub previous_generation: Option<u64>,
    pub broker: String,
    pub relay: Option<String>,
}

/// What a [`RememberedDeviceRecord`] holds.
#[verifier::ext_equal]
pub struct DeviceEntryView {
    pub id: Seq<char>,
    pub label: Seq<char>,
    pub generation: u64,
    pub previous_generation: Option<u64>,
    pub broker: Seq<char>,
    pub relay: Option<Seq<char>>,
}

impl View for RememberedDeviceRecord {
    type V = DeviceEntryView;

    open spec fn view(&self) -> DeviceEntryView {
        DeviceEntryView {
            id: self.id@,
            label: self.label@,
            generation: self.generation,
            previous_generation: self.previous_generation,
            broker: self.broker@,
            relay: text_option(self.relay),
        }
    }
}

impl Clone for RememberedDeviceRecord {
    fn clone(&self) -> (r: Self)
        ensures
            r == *self,
    {
        RememberedDeviceRecord {
            id: self.id.clone(),
            label: self.label.clone(),
            generation: self.generation,
            previous_generation: self.previous_generation,
            broker: self.broker.clone(),
            relay: self.relay.clone(),
        }
    }
}

/// Each capability is as available as the table says of it.
pub proof fn capabilities_are_looked_up_by_name(table: CapabilityTable)
    ensures
        table.availability_of(PlatformCapability::SecureVault) == table.secure_vault,
        table.availability_of(PlatformCapability::FileSource) == table.file_source,
        table.availability_of(PlatformCapability::FileDestination) == table.file_destination,
        table.availability_of(PlatformCapability::NearbyDiscovery) == table.nearby_discovery,
        table.availability_of(PlatformCapability::ClipboardRead) == table.clipboard_read,
        table.availability_of(PlatformCapability::ClipboardWrite) == table.clipboard_write,
        table.availability_of(PlatformCapability::BackgroundExecution)
            == table.background_execution,
        table.availability_of(PlatformCapability::Notifications) == table.notifications,
{
}

} // verus!
