//! Data of the application contract: commands, ordered facts, snapshots and
//! effects, as native clients see them and as the engine holds them.
//!
//! Relationship credentials cross only the trusted-vault methods; they never
//! enter snapshots or events.
use vstd::prelude::*;

use crate::api::types::{
    FfiFailureCode, FfiFailurePhase, FfiRecoveryAction, FfiTransferDirection,
};
use crate::text::text_option;

verus! {

broadcast use vstd::seq_lib::group_seq_properties;

/// Version of the native binding of the application contract.
pub const ENVOIX_APPLICATION_BINDING_VERSION: u32 = 1;

/// How many prepared relationships may wait for a decision.
pub const MAX_PENDING_RELATIONSHIPS: usize = 64;

/// Versions that a native client negotiates.
#[derive(Clone, Copy, Debug, PartialEq, Eq, Structural)]
pub struct FfiApplicationBindingInfo {
    pub binding_version: u32,
    pub contract_version: u16,
}

/// Reports the versions that a native client negotiates.
pub fn envoix_application_binding_info(contract_version: u16) -> (r: FfiApplicationBindingInfo)
    ensures
        r.binding_version == ENVOIX_APPLICATION_BINDING_VERSION,
        r.contract_version == contract_version,
{
    FfiApplicationBindingInfo {
        binding_version: ENVOIX_APPLICATION_BINDING_VERSION,
        contract_version,
    }
}

/// Machine-readable application failure.
#[derive(Clone, Copy, Debug, PartialEq, Eq, Structural)]
pub enum FfiApplicationErrorCode {
    UnsupportedContractVersion,
    InvalidSequence,
    EventGap,
    EntityNotFound,
    InvalidReference,
    InvalidTransition,
    InvalidProgress,
    GenerationMismatch,
    UnsupportedEvent,
    InvalidInput,
    StateUnavailable,
    StateAlreadyOwned,
    UnsupportedPersistentState,
    VaultUnavailable,
    VaultInteractionRequired,
    VaultPermissionDenied,
    VaultCorrupt,
    VaultCanceled,
}

/// Application failure with its diagnostic.
#[derive(Debug, PartialEq, Eq)]
pub enum FfiApplicationError {
    Failed { code: FfiApplicationErrorCode, reason: String },
}

/// What a [`FfiApplicationError`] holds.
#[verifier::ext_equal]
pub enum ApplicationErrorView {
    Failed { code: FfiApplicationErrorCode, reason: Seq<char> },
}

impl View for FfiApplicationError {
    type V = ApplicationErrorView;

    open spec fn view(&self) -> ApplicationErrorView {
        match *self {
            FfiApplicationError::Failed { code, reason } => ApplicationErrorView::Failed { code, reason: reason@ },
        }
    }
}

impl Clone for FfiApplicationError {
    fn clone(&self) -> (r: Self)
        ensures
            r == *self,
    {
        match self {
            FfiApplicationError::Failed { code, reason } => FfiApplicationError::Failed { code: *code, reason: reason.clone() },
        }
    }
}

/// Failure of the platform's secure vault.
#[derive(Clone, Copy, Debug, PartialEq, Eq, Structural)]
pub enum FfiApplicationVaultError {
    Unavailable,
    Limited,
    PermissionDenied,
    InteractionRequired,
    InvalidRequest,
    CorruptData,
    Canceled,
}

/// The label of a [`FfiApplicationVaultError`].
pub open spec fn vault_error_text_of(value: FfiApplicationVaultError) -> Seq<char> {
    match value {
        FfiApplicationVaultError::Unavailable => "secure vault is unavailable"@,
        FfiApplicationVaultError::Limited => "secure vault is temporarily limited"@,
        FfiApplicationVaultError::PermissionDenied => "secure vault permission was denied"@,
        FfiApplicationVaultError::InteractionRequired => "secure vault requires user interaction"@,
        FfiApplicationVaultError::InvalidRequest => "secure vault request is invalid"@,
        FfiApplicationVaultError::CorruptData => "secure vault data is corrupt"@,
        FfiApplicationVaultError::Canceled => "secure vault operation was canceled"@,
    }
}

/// The diagnostic of a vault failure.
pub fn vault_error_text(value: FfiApplicationVaultError) -> (r: &'static str)
    ensures
        r@ == vault_error_text_of(value),
{
    match value {
        FfiApplicationVaultError::Unavailable => "secure vault is unavailable",
        FfiApplicationVaultError::Limited => "secure vault is temporarily limited",
        FfiApplicationVaultError::PermissionDenied => "secure vault permission was denied",
        FfiApplicationVaultError::InteractionRequired => "secure vault requires user interaction",
        FfiApplicationVaultError::InvalidRequest => "secure vault request is invalid",
        FfiApplicationVaultError::CorruptData => "secure vault data is corrupt",
        FfiApplicationVaultError::Canceled => "secure vault operation was canceled",
    }
}

/// Trusted platform storage for opaque relationship credentials.
///
/// References are bounded non-secret identifiers. Credential bytes cross only
/// this callback. Implementations must not re-enter the engine from it.
pub trait FfiApplicationVault {
    fn contains(&self, reference: String) -> Result<bool, FfiApplicationVaultError>;

    fn store(
        &self,
        reference: String,
        opaque_credential: Vec<u8>,
    ) -> Result<(), FfiApplicationVaultError>;

    fn load(&self, reference: String) -> Result<Option<Vec<u8>>, FfiApplicationVaultError>;

    fn delete(&self, reference: String) -> Result<(), FfiApplicationVaultError>;
}

/// Whether an event changed the snapshot.
#[derive(Clone, Copy, Debug, PartialEq, Eq, Structural)]
pub enum FfiApplyOutcome {
    Applied,
    IgnoredDuplicate,
}

/// A service that the platform may offer.
#[derive(Clone, Copy, Debug, PartialEq, Eq, Structural)]
pub enum FfiPlatformCapability {
    SecureVault,
    FileSource,
    FileDestination,
    NearbyDiscovery,
    ClipboardRead,
    ClipboardWrite,
    BackgroundExecution,
    Notifications,
}

/// How far a service is available.
#[derive(Clone, Copy, Debug, PartialEq, Eq, Structural)]
pub enum FfiCapabilityAvailability {
    Available,
    Limited,
    Unavailable,
}

/// The availability of one service.
#[derive(Clone, Copy, Debug, PartialEq, Eq, Structural)]
pub struct FfiPlatformCapabilityStatus {
    pub capability: FfiPlatformCapability,
    pub availability: FfiCapabilityAvailability,
}

/// The availability of several services.
#[derive(Debug, PartialEq, Eq)]
pub struct FfiPlatformCapabilities {
    pub values: Vec<FfiPlatformCapabilityStatus>,
}

/// What a [`FfiPlatformCapabilities`] holds.
#[verifier::ext_equal]
pub struct PlatformCapabilitiesView {
    pub values: Seq<FfiPlatformCapabilityStatus>,
}

impl View for FfiPlatformCapabilities {
    type V = PlatformCapabilitiesView;

    open spec fn view(&self) -> PlatformCapabilitiesView {
        PlatformCapabilitiesView {
            values: self.values@,
        }
    }
}

impl Clone for FfiPlatformCapabilities {
    fn clone(&self) -> (r: Self)
        ensures
            r@ == self@,
    {
        let r = FfiPlatformCapabilities {
            values: self.values.clone(),
        };
        assert(r.values@ =~= self.values@);
        r
    }
}

/// Trust state of a relationship.
#[derive(Clone, Copy, Debug, PartialEq, Eq, Structural)]
pub enum FfiRelationshipState {
    Trusted,
    Revoked,
}

/// State of a room.
#[derive(Clone, Copy, Debug, PartialEq, Eq, Structural)]
pub enum FfiApplicationRoomState {
    Connecting,
    Authenticating,
    Connected,
    Closed,
}

/// Why a room closed.
#[derive(Clone, Copy, Debug, PartialEq, Eq, Structural)]
pub enum FfiApplicationRoomCloseReason {
    UserEnded,
    Expired,
    PeerEnded,
    Backgrounded,
    NetworkLost,
    ProtocolFailure,
    Replaced,
}

/// State of a transfer.
#[derive(Clone, Copy, Debug, PartialEq, Eq, Structural)]
pub enum FfiApplicationTransferState {
    Offered,
    Queued,
    Connecting,
    Transferring,
    Paused,
    AwaitingDeliveryProof,
    Delivered,
    Rejected,
    Failed,
    Canceled,
}

/// Why an offer was rejected.
#[derive(Clone, Copy, Debug, PartialEq, Eq, Structural)]
pub enum FfiTransferRejection {
    UserDeclined,
    Busy,
    InsufficientSpace,
    UnsupportedContent,
    InvalidOffer,
}

/// A failed transfer.
#[derive(Debug, PartialEq, Eq)]
pub struct FfiApplicationTransferFailure {
    pub code: FfiFailureCode,
    pub phase: FfiFailurePhase,
    pub retryable: bool,
    pub recovery_action: FfiRecoveryAction,
    pub user_message_key: String,
}

/// What a [`FfiApplicationTransferFailure`] holds.
#[verifier::ext_equal]
pub struct TransferFailureView {
    pub code: FfiFailureCode,
    pub phase: FfiFailurePhase,
    pub retryable: bool,
    pub recovery_action: FfiRecoveryAction,
    pub user_message_key: Seq<char>,
}

impl View for FfiApplicationTransferFailure {
    type V = TransferFailureView;

    open spec fn view(&self) -> TransferFailureView {
        TransferFailureView {
            code: self.code,
            phase: self.phase,
            retryable: self.retryable,
            recovery_action: self.recovery_action,
            user_message_key: self.user_message_key@,
        }
    }
}

impl Clone for FfiApplicationTransferFailure {
    fn clone(&self) -> (r: Self)
        ensures
            r == *self,
    {
        FfiApplicationTransferFailure {
            code: self.code,
            phase: self.phase,
            retryable: self.retryable,
            recovery_action: self.recovery_action,
            user_message_key: self.user_message_key.clone(),
        }
    }
}

/// A device.
#[derive(Debug, PartialEq, Eq)]
pub struct FfiApplicationDevice {
    pub id: String,
    pub display_name: String,
}

/// What a [`FfiApplicationDevice`] holds.
#[verifier::ext_equal]
pub struct DeviceView {
    pub id: Seq<char>,
    pub display_name: Seq<char>,
}

impl View for FfiApplicationDevice {
    type V = DeviceView;

    open spec fn view(&self) -> DeviceView {
        DeviceView {
            id: self.id@,
            display_name: self.display_name@,
        }
    }
}

impl Clone for FfiApplicationDevice {
    fn clone(&self) -> (r: Self)
        ensures
            r == *self,
    {
        FfiApplicationDevice {
            id: self.id.clone(),
            display_name: self.display_name.clone(),
        }
    }
}

/// A relationship.
#[derive(Debug, PartialEq, Eq)]
pub struct FfiApplicationRelationship {
    pub id: String,
    pub device_id: String,
    pub generation: u64,
    pub previous_generation: Option<u64>,
    pub state: FfiRelationshipState,
}

/// What a [`FfiApplicationRelationship`] holds.
#[verifier::ext_equal]
pub struct RelationshipView {
    pub id: Seq<char>,
    pub device_id: Seq<char>,
    pub generation: u64,
    pub previous_generation: Option<u64>,
    pub state: FfiRelationshipState,
}

impl View for FfiApplicationRelationship {
    type V = RelationshipView;

    open spec fn view(&self) -> RelationshipView {
        RelationshipView {
            id: self.id@,
            device_id: self.device_id@,
            generation: self.generation,
            previous_generation: self.previous_generation,
            state: self.state,
        }
    }
}

impl Clone for FfiApplicationRelationship {
    fn clone(&self) -> (r: Self)
        ensures
            r == *self,
    {
        FfiApplicationRelationship {
            id: self.id.clone(),
            device_id: self.device_id.clone(),
            generation: self.generation,
            previous_generation: self.previous_generation,
            state: self.state,
        }
    }
}

/// A room.
#[derive(Debug, PartialEq, Eq)]
pub struct FfiApplicationRoom {
    pub id: String,
    pub relationship_id: Option<String>,
    pub state: FfiApplicationRoomState,
    pub close_reason: Option<FfiApplicationRoomCloseReason>,
    pub replacement_room_id: Option<String>,
}

/// What a [`FfiApplicationRoom`] holds.
#[verifier::ext_equal]
pub struct RoomView {
    pub id: Seq<char>,
    pub relationship_id: Option<Seq<char>>,
    pub state: FfiApplicationRoomState,
    pub close_reason: Option<FfiApplicationRoomCloseReason>,
    pub replacement_room_id: Option<Seq<char>>,
}

impl View for FfiApplicationRoom {
    type V = RoomView;

    open spec fn view(&self) -> RoomView {
        RoomView {
            id: self.id@,
            relationship_id: text_option(self.relationship_id),
            state: self.state,
            close_reason: self.close_reason,
            replacement_room_id: text_option(self.replacement_room_id),
        }
    }
}

impl Clone for FfiApplicationRoom {
    fn clone(&self) -> (r: Self)
        ensures
            r == *self,
    {
        FfiApplicationRoom {
            id: self.id.clone(),
            relationship_id: self.relationship_id.clone(),
            state: self.state,
            close_reason: self.close_reason,
            replacement_room_id: self.replacement_room_id.clone(),
        }
    }
}

/// A transfer.
#[derive(Debug, PartialEq, Eq)]
pub struct FfiApplicationTransfer {
    pub id: String,
    pub relationship_id: String,
    pub room_id: Option<String>,
    pub content_id: String,
    pub direction: FfiTransferDirection,
    pub state: FfiApplicationTransferState,
    pub transferred_bytes: u64,
    pub total_bytes: u64,
    pub failure: Option<FfiApplicationTransferFailure>,
    pub rejection: Option<FfiTransferRejection>,
}

/// What a [`FfiApplicationTransfer`] holds.
#[verifier::ext_equal]
pub struct TransferView {
    pub id: Seq<char>,
    pub relationship_id: Seq<char>,
    pub room_id: Option<Seq<char>>,
    pub content_id: Seq<char>,
    pub direction: FfiTransferDirection,
    pub state: FfiApplicationTransferState,
    pub transferred_bytes: u64,
    pub total_bytes: u64,
    pub failure: Option<TransferFailureView>,
    pub rejection: Option<FfiTransferRejection>,
}

impl View for FfiApplicationTransfer {
    type V = TransferView;

    open spec fn view(&self) -> TransferView {
        TransferView {
            id: self.id@,
            relationship_id: self.relationship_id@,
            room_id: text_option(self.room_id),
            content_id: self.content_id@,
            direction: self.direction,
            state: self.state,
            transferred_bytes: self.transferred_bytes,
            total_bytes: self.total_bytes,
            failure: match self.failure { Some(x) => Some(x@), None => None },
            rejection: self.rejection,
        }
    }
}

impl Clone for FfiApplicationTransfer {
    fn clone(&self) -> (r: Self)
        ensures
            r == *self,
    {
        FfiApplicationTransfer {
            id: self.id.clone(),
            relationship_id: self.relationship_id.clone(),
            room_id: self.room_id.clone(),
            content_id: self.content_id.clone(),
            direction: self.direction,
            state: self.state,
            transferred_bytes: self.transferred_bytes,
            total_bytes: self.total_bytes,
            failure: self.failure.clone(),
            rejection: self.rejection,
        }
    }
}

/// Everything a native client shows.
#[derive(Debug, PartialEq, Eq)]
pub struct FfiApplicationSnapshot {
    pub contract_version: u16,
    pub last_sequence: u64,
    pub capabilities: FfiPlatformCapabilities,
    pub devices: Vec<FfiApplicationDevice>,
    pub relationships: Vec<FfiApplicationRelationship>,
    pub rooms: Vec<FfiApplicationRoom>,
    pub transfers: Vec<FfiApplicationTransfer>,
}

/// What a [`FfiApplicationSnapshot`] holds.
#[verifier::ext_equal]
pub struct SnapshotView {
    pub contract_version: u16,
    pub last_sequence: u64,
    pub capabilities: PlatformCapabilitiesView,
    pub devices: Seq<DeviceView>,
    pub relationships: Seq<RelationshipView>,
    pub rooms: Seq<RoomView>,
    pub transfers: Seq<TransferView>,
}

impl View for FfiApplicationSnapshot {
    type V = SnapshotView;

    open spec fn view(&self) -> SnapshotView {
        SnapshotView {
            contract_version: self.contract_version,
            last_sequence: self.last_sequence,
            capabilities: self.capabilities@,
            devices: self.devices@.map_values(|x: FfiApplicationDevice| x@),
            relationships: self.relationships@.map_values(|x: FfiApplicationRelationship| x@),
            rooms: self.rooms@.map_values(|x: FfiApplicationRoom| x@),
            transfers: self.transfers@.map_values(|x: FfiApplicationTransfer| x@),
        }
    }
}

impl Clone for FfiApplicationSnapshot {
    fn clone(&self) -> (r: Self)
        ensures
            r@ == self@,
    {
        let r = FfiApplicationSnapshot {
            contract_version: self.contract_version,
            last_sequence: self.last_sequence,
            capabilities: self.capabilities.clone(),
            devices: self.devices.clone(),
            relationships: self.relationships.clone(),
            rooms: self.rooms.clone(),
            transfers: self.transfers.clone(),
        };
        assert(r@.devices =~= self@.devices);
        assert(r@.relationships =~= self@.relationships);
        assert(r@.rooms =~= self@.rooms);
        assert(r@.transfers =~= self@.transfers);
        r
    }
}

/// A request of a native client. It has no text form, since it can hold
/// invitations and verification codes.
#[derive(PartialEq, Eq)]
pub enum FfiApplicationCommand {
    CreateRoom,
    JoinRoom { invitation: String },
    VerifyPairing { room_id: String, verification_code: String },
    ReconnectRelationship { relationship_id: String },
    CreateTransfer { relationship_id: String, content_id: String, direction: FfiTransferDirection },
    AcceptTransfer { transfer_id: String },
    RejectTransfer { transfer_id: String, reason: FfiTransferRejection },
    PauseTransfer { transfer_id: String },
    ResumeTransfer { transfer_id: String },
    RecoverTransfer { transfer_id: String },
    CancelTransfer { transfer_id: String },
    RemoveTransfer { transfer_id: String },
    RevokeRelationship { relationship_id: String },
}

/// What a [`FfiApplicationCommand`] holds.
#[verifier::ext_equal]
pub enum CommandView {
    CreateRoom,
    JoinRoom { invitation: Seq<char> },
    VerifyPairing { room_id: Seq<char>, verification_code: Seq<char> },
    ReconnectRelationship { relationship_id: Seq<char> },
    CreateTransfer { relationship_id: Seq<char>, content_id: Seq<char>, direction: FfiTransferDirection },
    AcceptTransfer { transfer_id: Seq<char> },
    RejectTransfer { transfer_id: Seq<char>, reason: FfiTransferRejection },
    PauseTransfer { transfer_id: Seq<char> },
    ResumeTransfer { transfer_id: Seq<char> },
    RecoverTransfer { transfer_id: Seq<char> },
    CancelTransfer { transfer_id: Seq<char> },
    RemoveTransfer { transfer_id: Seq<char> },
    RevokeRelationship { relationship_id: Seq<char> },
}

impl View for FfiApplicationCommand {
    type V = CommandView;

    open spec fn view(&self) -> CommandView {
        match *self {
            FfiApplicationCommand::CreateRoom => CommandView::CreateRoom,
            FfiApplicationCommand::JoinRoom { invitation } => CommandView::JoinRoom { invitation: invitation@ },
            FfiApplicationCommand::VerifyPairing { room_id, verification_code } => CommandView::VerifyPairing { room_id: room_id@, verification_code: verification_code@ },
            FfiApplicationCommand::ReconnectRelationship { relationship_id } => CommandView::ReconnectRelationship { relationship_id: relationship_id@ },
            FfiApplicationCommand::CreateTransfer { relationship_id, content_id, direction } => CommandView::CreateTransfer { relationship_id: relationship_id@, content_id: content_id@, direction },
            FfiApplicationCommand::AcceptTransfer { transfer_id } => CommandView::AcceptTransfer { transfer_id: transfer_id@ },
            FfiApplicationCommand::RejectTransfer { transfer_id, reason } => CommandView::RejectTransfer { transfer_id: transfer_id@, reason },
            FfiApplicationCommand::PauseTransfer { transfer_id } => CommandView::PauseTransfer { transfer_id: transfer_id@ },
            FfiApplicationCommand::ResumeTransfer { transfer_id } => CommandView::ResumeTransfer { transfer_id: transfer_id@ },
            FfiApplicationCommand::RecoverTransfer { transfer_id } => CommandView::RecoverTransfer { transfer_id: transfer_id@ },
            FfiApplicationCommand::CancelTransfer { transfer_id } => CommandView::CancelTransfer { transfer_id: transfer_id@ },
            FfiApplicationCommand::RemoveTransfer { transfer_id } => CommandView::RemoveTransfer { transfer_id: transfer_id@ },
            FfiApplicationCommand::RevokeRelationship { relationship_id } => CommandView::RevokeRelationship { relationship_id: relationship_id@ },
        }
    }
}

impl Clone for FfiApplicationCommand {
    fn clone(&self) -> (r: Self)
        ensures
            r == *self,
    {
        match self {
            FfiApplicationCommand::CreateRoom => FfiApplicationCommand::CreateRoom,
            FfiApplicationCommand::JoinRoom { invitation } => FfiApplicationCommand::JoinRoom { invitation: invitation.clone() },
            FfiApplicationCommand::VerifyPairing { room_id, verification_code } => FfiApplicationCommand::VerifyPairing { room_id: room_id.clone(), verification_code: verification_code.clone() },
            FfiApplicationCommand::ReconnectRelationship { relationship_id } => FfiApplicationCommand::ReconnectRelationship { relationship_id: relationship_id.clone() },
            FfiApplicationCommand::CreateTransfer { relationship_id, content_id, direction } => FfiApplicationCommand::CreateTransfer { relationship_id: relationship_id.clone(), content_id: content_id.clone(), direction: *direction },
            FfiApplicationCommand::AcceptTransfer { transfer_id } => FfiApplicationCommand::AcceptTransfer { transfer_id: transfer_id.clone() },
            FfiApplicationCommand::RejectTransfer { transfer_id, reason } => FfiApplicationCommand::RejectTransfer { transfer_id: transfer_id.clone(), reason: *reason },
            FfiApplicationCommand::PauseTransfer { transfer_id } => FfiApplicationCommand::PauseTransfer { transfer_id: transfer_id.clone() },
            FfiApplicationCommand::ResumeTransfer { transfer_id } => FfiApplicationCommand::ResumeTransfer { transfer_id: transfer_id.clone() },
            FfiApplicationCommand::RecoverTransfer { transfer_id } => FfiApplicationCommand::RecoverTransfer { transfer_id: transfer_id.clone() },
            FfiApplicationCommand::CancelTransfer { transfer_id } => FfiApplicationCommand::CancelTransfer { transfer_id: transfer_id.clone() },
            FfiApplicationCommand::RemoveTransfer { transfer_id } => FfiApplicationCommand::RemoveTransfer { transfer_id: transfer_id.clone() },
            FfiApplicationCommand::RevokeRelationship { relationship_id } => FfiApplicationCommand::RevokeRelationship { relationship_id: relationship_id.clone() },
        }
    }
}

/// A request with its identity.
#[derive(PartialEq, Eq)]
pub struct FfiApplicationCommandEnvelope {
    pub contract_version: u16,
    pub command_id: String,
    pub command: FfiApplicationCommand,
}

/// What a [`FfiApplicationCommandEnvelope`] holds.
#[verifier::ext_equal]
pub struct CommandEnvelopeView {
    pub contract_version: u16,
    pub command_id: Seq<char>,
    pub command: CommandView,
}

impl View for FfiApplicationCommandEnvelope {
    type V = CommandEnvelopeView;

    open spec fn view(&self) -> CommandEnvelopeView {
        CommandEnvelopeView {
            contract_version: self.contract_version,
            command_id: self.command_id@,
            command: self.command@,
        }
    }
}

impl Clone for FfiApplicationCommandEnvelope {
    fn clone(&self) -> (r: Self)
        ensures
            r == *self,
    {
        FfiApplicationCommandEnvelope {
            contract_version: self.contract_version,
            command_id: self.command_id.clone(),
            command: self.command.clone(),
        }
    }
}

/// Work that a decided command asks of the platform.
#[derive(PartialEq, Eq)]
pub enum FfiApplicationEffect {
    CreateRoom,
    JoinRoom { invitation: String },
    VerifyPairing { room_id: String, verification_code: String },
    ReconnectRelationship { relationship_id: String, generation: u64, previous_generation: Option<u64> },
    CreateTransfer { relationship_id: String, content_id: String, direction: FfiTransferDirection },
    AcceptTransfer { transfer_id: String },
    RejectTransfer { transfer_id: String, reason: FfiTransferRejection },
    PauseTransfer { transfer_id: String },
    ResumeTransfer { transfer_id: String },
    RecoverTransfer { transfer_id: String, action: FfiRecoveryAction },
    CancelTransfer { transfer_id: String },
    RemoveTransfer { transfer_id: String },
    RevokeRelationship { relationship_id: String },
}

/// What a [`FfiApplicationEffect`] holds.
#[verifier::ext_equal]
pub enum EffectView {
    CreateRoom,
    JoinRoom { invitation: Seq<char> },
    VerifyPairing { room_id: Seq<char>, verification_code: Seq<char> },
    ReconnectRelationship { relationship_id: Seq<char>, generation: u64, previous_generation: Option<u64> },
    CreateTransfer { relationship_id: Seq<char>, content_id: Seq<char>, direction: FfiTransferDirection },
    AcceptTransfer { transfer_id: Seq<char> },
    RejectTransfer { transfer_id: Seq<char>, reason: FfiTransferRejection },
    PauseTransfer { transfer_id: Seq<char> },
    ResumeTransfer { transfer_id: Seq<char> },
    RecoverTransfer { transfer_id: Seq<char>, action: FfiRecoveryAction },
    CancelTransfer { transfer_id: Seq<char> },
    RemoveTransfer { transfer_id: Seq<char> },
    RevokeRelationship { relationship_id: Seq<char> },
}

impl View for FfiApplicationEffect {
    type V = EffectView;

    open spec fn view(&self) -> EffectView {
        match *self {
            FfiApplicationEffect::CreateRoom => EffectView::CreateRoom,
            FfiApplicationEffect::JoinRoom { invitation } => EffectView::JoinRoom { invitation: invitation@ },
            FfiApplicationEffect::VerifyPairing { room_id, verification_code } => EffectView::VerifyPairing { room_id: room_id@, verification_code: verification_code@ },
            FfiApplicationEffect::ReconnectRelationship { relationship_id, generation, previous_generation } => EffectView::ReconnectRelationship { relationship_id: relationship_id@, generation, previous_generation },
            FfiApplicationEffect::CreateTransfer { relationship_id, content_id, direction } => EffectView::CreateTransfer { relationship_id: relationship_id@, content_id: content_id@, direction },
            FfiApplicationEffect::AcceptTransfer { transfer_id } => EffectView::AcceptTransfer { transfer_id: transfer_id@ },
            FfiApplicationEffect::RejectTransfer { transfer_id, reason } => EffectView::RejectTransfer { transfer_id: transfer_id@, reason },
            FfiApplicationEffect::PauseTransfer { transfer_id } => EffectView::PauseTransfer { transfer_id: transfer_id@ },
            FfiApplicationEffect::ResumeTransfer { transfer_id } => EffectView::ResumeTransfer { transfer_id: transfer_id@ },
            FfiApplicationEffect::RecoverTransfer { transfer_id, action } => EffectView::RecoverTransfer { transfer_id: transfer_id@, action },
            FfiApplicationEffect::CancelTransfer { transfer_id } => EffectView::CancelTransfer { transfer_id: transfer_id@ },
            FfiApplicationEffect::RemoveTransfer { transfer_id } => EffectView::RemoveTransfer { transfer_id: transfer_id@ },
            FfiApplicationEffect::RevokeRelationship { relationship_id } => EffectView::RevokeRelationship { relationship_id: relationship_id@ },
        }
    }
}

impl Clone for FfiApplicationEffect {
    fn clone(&self) -> (r: Self)
        ensures
            r == *self,
    {
        match self {
            FfiApplicationEffect::CreateRoom => FfiApplicationEffect::CreateRoom,
            FfiApplicationEffect::JoinRoom { invitation } => FfiApplicationEffect::JoinRoom { invitation: invitation.clone() },
            FfiApplicationEffect::VerifyPairing { room_id, verification_code } => FfiApplicationEffect::VerifyPairing { room_id: room_id.clone(), verification_code: verification_code.clone() },
            FfiApplicationEffect::ReconnectRelationship { relationship_id, generation, previous_generation } => FfiApplicationEffect::ReconnectRelationship { relationship_id: relationship_id.clone(), generation: *generation, previous_generation: *previous_generation },
            FfiApplicationEffect::CreateTransfer { relationship_id, content_id, direction } => FfiApplicationEffect::CreateTransfer { relationship_id: relationship_id.clone(), content_id: content_id.clone(), direction: *direction },
            FfiApplicationEffect::AcceptTransfer { transfer_id } => FfiApplicationEffect::AcceptTransfer { transfer_id: transfer_id.clone() },
            FfiApplicationEffect::RejectTransfer { transfer_id, reason } => FfiApplicationEffect::RejectTransfer { transfer_id: transfer_id.clone(), reason: *reason },
            FfiApplicationEffect::PauseTransfer { transfer_id } => FfiApplicationEffect::PauseTransfer { transfer_id: transfer_id.clone() },
            FfiApplicationEffect::ResumeTransfer { transfer_id } => FfiApplicationEffect::ResumeTransfer { transfer_id: transfer_id.clone() },
            FfiApplicationEffect::RecoverTransfer { transfer_id, action } => FfiApplicationEffect::RecoverTransfer { transfer_id: transfer_id.clone(), action: *action },
            FfiApplicationEffect::CancelTransfer { transfer_id } => FfiApplicationEffect::CancelTransfer { transfer_id: transfer_id.clone() },
            FfiApplicationEffect::RemoveTransfer { transfer_id } => FfiApplicationEffect::RemoveTransfer { transfer_id: transfer_id.clone() },
            FfiApplicationEffect::RevokeRelationship { relationship_id } => FfiApplicationEffect::RevokeRelationship { relationship_id: relationship_id.clone() },
        }
    }
}

/// An effect with the identity of its command.
#[derive(PartialEq, Eq)]
pub struct FfiApplicationEffectEnvelope {
    pub contract_version: u16,
    pub command_id: String,
    pub effect: FfiApplicationEffect,
}

/// What a [`FfiApplicationEffectEnvelope`] holds.
#[verifier::ext_equal]
pub struct EffectEnvelopeView {
    pub contract_version: u16,
    pub command_id: Seq<char>,
    pub effect: EffectView,
}

impl View for FfiApplicationEffectEnvelope {
    type V = EffectEnvelopeView;

    open spec fn view(&self) -> EffectEnvelopeView {
        EffectEnvelopeView {
            contract_version: self.contract_version,
            command_id: self.command_id@,
            effect: self.effect@,
        }
    }
}

impl Clone for FfiApplicationEffectEnvelope {
    fn clone(&self) -> (r: Self)
        ensures
            r == *self,
    {
        FfiApplicationEffectEnvelope {
            contract_version: self.contract_version,
            command_id: self.command_id.clone(),
            effect: self.effect.clone(),
        }
    }
}

/// A fact that the engine applies.
#[derive(Debug, PartialEq, Eq)]
#[allow(inconsistent_fields)]
pub enum FfiApplicationEvent {
    CapabilitiesChanged { capabilities: FfiPlatformCapabilities },
    DeviceObserved { device_id: String, display_name: String },
    RelationshipTrusted { relationship_id: String, device_id: String, generation: u64 },
    RelationshipRotated { relationship_id: String, generation: u64 },
    RelationshipRevoked { relationship_id: String },
    RoomOpened { room_id: String, relationship_id: Option<String>, replaces_room_id: Option<String> },
    RoomPeerAdmitted { room_id: String },
    RoomAuthenticated { room_id: String },
    RoomClosed { room_id: String, reason: FfiApplicationRoomCloseReason },
    TransferCreated { transfer_id: String, relationship_id: String, room_id: Option<String>, content_id: String, direction: FfiTransferDirection, total_bytes: u64 },
    TransferOffered { transfer_id: String, relationship_id: String, room_id: String, content_id: String, total_bytes: u64 },
    TransferAccepted { transfer_id: String },
    TransferRejected { transfer_id: String, reason: FfiTransferRejection },
    TransferStarted { transfer_id: String },
    TransferProgressed { transfer_id: String, transferred_bytes: u64 },
    TransferPaused { transfer_id: String },
    TransferResumed { transfer_id: String },
    TransferRecoveryStarted { transfer_id: String },
    TransferPayloadCompleted { transfer_id: String },
    TransferDeliveryProofVerified { transfer_id: String },
    TransferFailed { transfer_id: String, failure: FfiApplicationTransferFailure },
    TransferCanceled { transfer_id: String },
    TransferRemoved { transfer_id: String },
}

/// What a [`FfiApplicationEvent`] holds.
#[verifier::ext_equal]
#[allow(inconsistent_fields)]
pub enum EventView {
    CapabilitiesChanged { capabilities: PlatformCapabilitiesView },
    DeviceObserved { device_id: Seq<char>, display_name: Seq<char> },
    RelationshipTrusted { relationship_id: Seq<char>, device_id: Seq<char>, generation: u64 },
    RelationshipRotated { relationship_id: Seq<char>, generation: u64 },
    RelationshipRevoked { relationship_id: Seq<char> },
    RoomOpened { room_id: Seq<char>, relationship_id: Option<Seq<char>>, replaces_room_id: Option<Seq<char>> },
    RoomPeerAdmitted { room_id: Seq<char> },
    RoomAuthenticated { room_id: Seq<char> },
    RoomClosed { room_id: Seq<char>, reason: FfiApplicationRoomCloseReason },
    TransferCreated { transfer_id: Seq<char>, relationship_id: Seq<char>, room_id: Option<Seq<char>>, content_id: Seq<char>, direction: FfiTransferDirection, total_bytes: u64 },
    TransferOffered { transfer_id: Seq<char>, relationship_id: Seq<char>, room_id: Seq<char>, content_id: Seq<char>, total_bytes: u64 },
    TransferAccepted { transfer_id: Seq<char> },
    TransferRejected { transfer_id: Seq<char>, reason: FfiTransferRejection },
    TransferStarted { transfer_id: Seq<char> },
    TransferProgressed { transfer_id: Seq<char>, transferred_bytes: u64 },
    TransferPaused { transfer_id: Seq<char> },
    TransferResumed { transfer_id: Seq<char> },
    TransferRecoveryStarted { transfer_id: Seq<char> },
    TransferPayloadCompleted { transfer_id: Seq<char> },
    TransferDeliveryProofVerified { transfer_id: Seq<char> },
    TransferFailed { transfer_id: Seq<char>, failure: TransferFailureView },
    TransferCanceled { transfer_id: Seq<char> },
    TransferRemoved { transfer_id: Seq<char> },
}

impl View for FfiApplicationEvent {
    type V = EventView;

    open spec fn view(&self) -> EventView {
        match *self {
            FfiApplicationEvent::CapabilitiesChanged { capabilities } => EventView::CapabilitiesChanged { capabilities: capabilities@ },
            FfiApplicationEvent::DeviceObserved { device_id, display_name } => EventView::DeviceObserved { device_id: device_id@, display_name: display_name@ },
            FfiApplicationEvent::RelationshipTrusted { relationship_id, device_id, generation } => EventView::RelationshipTrusted { relationship_id: relationship_id@, device_id: device_id@, generation },
            FfiApplicationEvent::RelationshipRotated { relationship_id, generation } => EventView::RelationshipRotated { relationship_id: relationship_id@, generation },
            FfiApplicationEvent::RelationshipRevoked { relationship_id } => EventView::RelationshipRevoked { relationship_id: relationship_id@ },
            FfiApplicationEvent::RoomOpened { room_id, relationship_id, replaces_room_id } => EventView::RoomOpened { room_id: room_id@, relationship_id: text_option(relationship_id), replaces_room_id: text_option(replaces_room_id) },
            FfiApplicationEvent::RoomPeerAdmitted { room_id } => EventView::RoomPeerAdmitted { room_id: room_id@ },
            FfiApplicationEvent::RoomAuthenticated { room_id } => EventView::RoomAuthenticated { room_id: room_id@ },
            FfiApplicationEvent::RoomClosed { room_id, reason } => EventView::RoomClosed { room_id: room_id@, reason },
            FfiApplicationEvent::TransferCreated { transfer_id, relationship_id, room_id, content_id, direction, total_bytes } => EventView::TransferCreated { transfer_id: transfer_id@, relationship_id: relationship_id@, room_id: text_option(room_id), content_id: content_id@, direction, total_bytes },
            FfiApplicationEvent::TransferOffered { transfer_id, relationship_id, room_id, content_id, total_bytes } => EventView::TransferOffered { transfer_id: transfer_id@, relationship_id: relationship_id@, room_id: room_id@, content_id: content_id@, total_bytes },
            FfiApplicationEvent::TransferAccepted { transfer_id } => EventView::TransferAccepted { transfer_id: transfer_id@ },
            FfiApplicationEvent::TransferRejected { transfer_id, reason } => EventView::TransferRejected { transfer_id: transfer_id@, reason },
            FfiApplicationEvent::TransferStarted { transfer_id } => EventView::TransferStarted { transfer_id: transfer_id@ },
            FfiApplicationEvent::TransferProgressed { transfer_id, transferred_bytes } => EventView::TransferProgressed { transfer_id: transfer_id@, transferred_bytes },
            FfiApplicationEvent::TransferPaused { transfer_id } => EventView::TransferPaused { transfer_id: transfer_id@ },
            FfiApplicationEvent::TransferResumed { transfer_id } => EventView::TransferResumed { transfer_id: transfer_id@ },
            FfiApplicationEvent::TransferRecoveryStarted { transfer_id } => EventView::TransferRecoveryStarted { transfer_id: transfer_id@ },
            FfiApplicationEvent::TransferPayloadCompleted { transfer_id } => EventView::TransferPayloadCompleted { transfer_id: transfer_id@ },
            FfiApplicationEvent::TransferDeliveryProofVerified { transfer_id } => EventView::TransferDeliveryProofVerified { transfer_id: transfer_id@ },
            FfiApplicationEvent::TransferFailed { transfer_id, failure } => EventView::TransferFailed { transfer_id: transfer_id@, failure: failure@ },
            FfiApplicationEvent::TransferCanceled { transfer_id } => EventView::TransferCanceled { transfer_id: transfer_id@ },
            FfiApplicationEvent::TransferRemoved { transfer_id } => EventView::TransferRemoved { transfer_id: transfer_id@ },
        }
    }
}

impl Clone for FfiApplicationEvent {
    fn clone(&self) -> (r: Self)
        ensures
            r@ == self@,
    {
        let r = match self {
            FfiApplicationEvent::CapabilitiesChanged { capabilities } => FfiApplicationEvent::CapabilitiesChanged { capabilities: capabilities.clone() },
            FfiApplicationEvent::DeviceObserved { device_id, display_name } => FfiApplicationEvent::DeviceObserved { device_id: device_id.clone(), display_name: display_name.clone() },
            FfiApplicationEvent::RelationshipTrusted { relationship_id, device_id, generation } => FfiApplicationEvent::RelationshipTrusted { relationship_id: relationship_id.clone(), device_id: device_id.clone(), generation: *generation },
            FfiApplicationEvent::RelationshipRotated { relationship_id, generation } => FfiApplicationEvent::RelationshipRotated { relationship_id: relationship_id.clone(), generation: *generation },
            FfiApplicationEvent::RelationshipRevoked { relationship_id } => FfiApplicationEvent::RelationshipRevoked { relationship_id: relationship_id.clone() },
            FfiApplicationEvent::RoomOpened { room_id, relationship_id, replaces_room_id } => FfiApplicationEvent::RoomOpened { room_id: room_id.clone(), relationship_id: relationship_id.clone(), replaces_room_id: replaces_room_id.clone() },
            FfiApplicationEvent::RoomPeerAdmitted { room_id } => FfiApplicationEvent::RoomPeerAdmitted { room_id: room_id.clone() },
            FfiApplicationEvent::RoomAuthenticated { room_id } => FfiApplicationEvent::RoomAuthenticated { room_id: room_id.clone() },
            FfiApplicationEvent::RoomClosed { room_id, reason } => FfiApplicationEvent::RoomClosed { room_id: room_id.clone(), reason: *reason },
            FfiApplicationEvent::TransferCreated { transfer_id, relationship_id, room_id, content_id, direction, total_bytes } => FfiApplicationEvent::TransferCreated { transfer_id: transfer_id.clone(), relationship_id: relationship_id.clone(), room_id: room_id.clone(), content_id: content_id.clone(), direction: *direction, total_bytes: *total_bytes },
            FfiApplicationEvent::TransferOffered { transfer_id, relationship_id, room_id, content_id, total_bytes } => FfiApplicationEvent::TransferOffered { transfer_id: transfer_id.clone(), relationship_id: relationship_id.clone(), room_id: room_id.clone(), content_id: content_id.clone(), total_bytes: *total_bytes },
            FfiApplicationEvent::TransferAccepted { transfer_id } => FfiApplicationEvent::TransferAccepted { transfer_id: transfer_id.clone() },
            FfiApplicationEvent::TransferRejected { transfer_id, reason } => FfiApplicationEvent::TransferRejected { transfer_id: transfer_id.clone(), reason: *reason },
            FfiApplicationEvent::TransferStarted { transfer_id } => FfiApplicationEvent::TransferStarted { transfer_id: transfer_id.clone() },
            FfiApplicationEvent::TransferProgressed { transfer_id, transferred_bytes } => FfiApplicationEvent::TransferProgressed { transfer_id: transfer_id.clone(), transferred_bytes: *transferred_bytes },
            FfiApplicationEvent::TransferPaused { transfer_id } => FfiApplicationEvent::TransferPaused { transfer_id: transfer_id.clone() },
            FfiApplicationEvent::TransferResumed { transfer_id } => FfiApplicationEvent::TransferResumed { transfer_id: transfer_id.clone() },
            FfiApplicationEvent::TransferRecoveryStarted { transfer_id } => FfiApplicationEvent::TransferRecoveryStarted { transfer_id: transfer_id.clone() },
            FfiApplicationEvent::TransferPayloadCompleted { transfer_id } => FfiApplicationEvent::TransferPayloadCompleted { transfer_id: transfer_id.clone() },
            FfiApplicationEvent::TransferDeliveryProofVerified { transfer_id } => FfiApplicationEvent::TransferDeliveryProofVerified { transfer_id: transfer_id.clone() },
            FfiApplicationEvent::TransferFailed { transfer_id, failure } => FfiApplicationEvent::TransferFailed { transfer_id: transfer_id.clone(), failure: failure.clone() },
            FfiApplicationEvent::TransferCanceled { transfer_id } => FfiApplicationEvent::TransferCanceled { transfer_id: transfer_id.clone() },
            FfiApplicationEvent::TransferRemoved { transfer_id } => FfiApplicationEvent::TransferRemoved { transfer_id: transfer_id.clone() },
        };
        assert(r@ =~= self@);
        r
    }
}

/// A fact with its place in the order of facts.
#[derive(Debug, PartialEq, Eq)]
pub struct FfiApplicationEventEnvelope {
    pub contract_version: u16,
    pub sequence: u64,
    pub event: FfiApplicationEvent,
}

/// What a [`FfiApplicationEventEnvelope`] holds.
#[verifier::ext_equal]
pub struct EventEnvelopeView {
    pub contract_version: u16,
    pub sequence: u64,
    pub event: EventView,
}

impl View for FfiApplicationEventEnvelope {
    type V = EventEnvelopeView;

    open spec fn view(&self) -> EventEnvelopeView {
        EventEnvelopeView {
            contract_version: self.contract_version,
            sequence: self.sequence,
            event: self.event@,
        }
    }
}

impl Clone for FfiApplicationEventEnvelope {
    fn clone(&self) -> (r: Self)
        ensures
            r@ == self@,
    {
        let r = FfiApplicationEventEnvelope {
            contract_version: self.contract_version,
            sequence: self.sequence,
            event: self.event.clone(),
        };
        r
    }
}

/// A relationship reservation of this process that must be committed or
/// discarded.
#[derive(Debug, PartialEq, Eq)]
pub struct FfiPreparedRelationship {
    pub relationship_id: String,
    pub label: String,
}

/// What a [`FfiPreparedRelationship`] holds.
#[verifier::ext_equal]
pub struct PreparedRelationshipView {
    pub relationship_id: Seq<char>,
    pub label: Seq<char>,
}

impl View for FfiPreparedRelationship {
    type V = PreparedRelationshipView;

    open spec fn view(&self) -> PreparedRelationshipView {
        PreparedRelationshipView {
            relationship_id: self.relationship_id@,
            label: self.label@,
        }
    }
}

impl Clone for FfiPreparedRelationship {
    fn clone(&self) -> (r: Self)
        ensures
            r == *self,
    {
        FfiPreparedRelationship {
            relationship_id: self.relationship_id.clone(),
            label: self.label.clone(),
        }
    }
}

/// One trusted, durable relationship without its credential.
#[derive(Debug, PartialEq, Eq)]
pub struct FfiRememberedRelationship {
    pub relationship_id: String,
    pub label: String,
    pub generation: u64,
    pub previous_generation: Option<u64>,
    pub broker: String,
    pub relay: String,
}

/// What a [`FfiRememberedRelationship`] holds.
#[verifier::ext_equal]
pub struct RememberedView {
    pub relationship_id: Seq<char>,
    pub label: Seq<char>,
    pub generation: u64,
    pub previous_generation: Option<u64>,
    pub broker: Seq<char>,
    pub relay: Seq<char>,
}

impl View for FfiRememberedRelationship {
    type V = RememberedView;

    open spec fn view(&self) -> RememberedView {
        RememberedView {
            relationship_id: self.relationship_id@,
            label: self.label@,
            generation: self.generation,
            previous_generation: self.previous_generation,
            broker: self.broker@,
            relay: self.relay@,
        }
    }
}

impl Clone for FfiRememberedRelationship {
    fn clone(&self) -> (r: Self)
        ensures
            r == *self,
    {
        FfiRememberedRelationship {
            relationship_id: self.relationship_id.clone(),
            label: self.label.clone(),
            generation: self.generation,
            previous_generation: self.previous_generation,
            broker: self.broker.clone(),
            relay: self.relay.clone(),
        }
    }
}

/// A relationship with its credential. It has no text form; callers must not
/// keep or log the credential.
#[derive(PartialEq, Eq)]
pub struct FfiRememberedRelationshipMaterial {
    pub relationship: FfiRememberedRelationship,
    pub opaque_credential: Vec<u8>,
}

/// What a [`FfiRememberedRelationshipMaterial`] holds.
#[verifier::ext_equal]
pub struct MaterialView {
    pub relationship: RememberedView,
    pub opaque_credential: Seq<u8>,
}

impl View for FfiRememberedRelationshipMaterial {
    type V = MaterialView;

    open spec fn view(&self) -> MaterialView {
        MaterialView {
            relationship: self.relationship@,
            opaque_credential: self.opaque_credential@,
        }
    }
}

impl Clone for FfiRememberedRelationshipMaterial {
    fn clone(&self) -> (r: Self)
        ensures
            r@ == self@,
    {
        let r = FfiRememberedRelationshipMaterial {
            relationship: self.relationship.clone(),
            opaque_credential: self.opaque_credential.clone(),
        };
        assert(r.opaque_credential@ =~= self.opaque_credential@);
        r
    }
}

/// Each error of the vault is told in its own words.
pub proof fn vault_errors_have_their_own_text(error: FfiApplicationVaultError)
    ensures
        error is Unavailable ==> vault_error_text_of(error) == "secure vault is unavailable"@,
        error is Limited ==> vault_error_text_of(error) == "secure vault is temporarily limited"@,
        error is PermissionDenied ==> vault_error_text_of(error)
            == "secure vault permission was denied"@,
        error is InteractionRequired ==> vault_error_text_of(error)
            == "secure vault requires user interaction"@,
        error is InvalidRequest ==> vault_error_text_of(error)
            == "secure vault request is invalid"@,
        error is CorruptData ==> vault_error_text_of(error) == "secure vault data is corrupt"@,
        error is Canceled ==> vault_error_text_of(error)
            == "secure vault operation was canceled"@,
{
}

} // verus!
