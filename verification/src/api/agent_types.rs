//! Records of the durable desktop agent host and of its local control client,
//! as native clients see them.
use vstd::prelude::*;
use vstd::string::*;

use crate::api::contract::{
    FfiApplicationSnapshot, FfiApplicationTransfer, SnapshotView, TransferView,
};
use crate::api::types::{
    quoted, quoted_list, quoted_list_text, quoted_text, FfiTransferDirection,
};
use crate::text::{decimal, decimal_text, joined, text_option, text_seq};

verus! {

broadcast use vstd::seq_lib::group_seq_properties;

/// How the vault of a host protects credentials.
#[derive(Clone, Copy, Debug, PartialEq, Eq, Structural)]
pub enum FfiAgentCredentialProtection {
    OwnerOnlyFile,
    WindowsDpapi,
    AppleKeychain,
}

/// What a host is started with.
#[derive(Debug, PartialEq, Eq)]
pub struct FfiAgentHostConfiguration {
    pub state_directory: String,
    pub inbox_directory: String,
    pub control_endpoint: String,
    pub device_name: String,
    pub broker: String,
    pub relay: Option<String>,
    /// Non-secret classification; it must describe the vault truthfully.
    pub credential_protection: FfiAgentCredentialProtection,
}

/// What a [`FfiAgentHostConfiguration`] holds.
#[verifier::ext_equal]
pub struct HostConfigurationView {
    pub state_directory: Seq<char>,
    pub inbox_directory: Seq<char>,
    pub control_endpoint: Seq<char>,
    pub device_name: Seq<char>,
    pub broker: Seq<char>,
    pub relay: Option<Seq<char>>,
    pub credential_protection: FfiAgentCredentialProtection,
}

impl View for FfiAgentHostConfiguration {
    type V = HostConfigurationView;

    open spec fn view(&self) -> HostConfigurationView {
        HostConfigurationView {
            state_directory: self.state_directory@,
            inbox_directory: self.inbox_directory@,
            control_endpoint: self.control_endpoint@,
            device_name: self.device_name@,
            broker: self.broker@,
            relay: text_option(self.relay),
            credential_protection: self.credential_protection,
        }
    }
}

impl Clone for FfiAgentHostConfiguration {
    fn clone(&self) -> (r: Self)
        ensures
            r == *self,
    {
        FfiAgentHostConfiguration {
            state_directory: self.state_directory.clone(),
            inbox_directory: self.inbox_directory.clone(),
            control_endpoint: self.control_endpoint.clone(),
            device_name: self.device_name.clone(),
            broker: self.broker.clone(),
            relay: self.relay.clone(),
            credential_protection: self.credential_protection,
        }
    }
}

/// Why a host failed.
#[derive(Clone, Copy, Debug, PartialEq, Eq, Structural)]
pub enum FfiAgentHostErrorCode {
    UnsupportedPlatform,
    InvalidConfiguration,
    StateAlreadyOwned,
    UnsupportedPersistentState,
    StateCorrupt,
    VaultUnavailable,
    VaultInteractionRequired,
    VaultPermissionDenied,
    VaultCorrupt,
    VaultCanceled,
    IoFailure,
    ShutdownBeforeReady,
    Internal,
}

/// A failed host.
#[derive(Debug, PartialEq, Eq)]
pub struct FfiAgentHostFailure {
    pub code: FfiAgentHostErrorCode,
    pub reason: String,
}

/// What a [`FfiAgentHostFailure`] holds.
#[verifier::ext_equal]
pub struct HostFailureView {
    pub code: FfiAgentHostErrorCode,
    pub reason: Seq<char>,
}

impl View for FfiAgentHostFailure {
    type V = HostFailureView;

    open spec fn view(&self) -> HostFailureView {
        HostFailureView {
            code: self.code,
            reason: self.reason@,
        }
    }
}

impl Clone for FfiAgentHostFailure {
    fn clone(&self) -> (r: Self)
        ensures
            r == *self,
    {
        FfiAgentHostFailure {
            code: self.code,
            reason: self.reason.clone(),
        }
    }
}

/// Host failure with its diagnostic.
#[derive(Debug, PartialEq, Eq)]
pub enum FfiAgentHostError {
    Failed { code: FfiAgentHostErrorCode, reason: String },
}

/// What a [`FfiAgentHostError`] holds.
#[verifier::ext_equal]
pub enum HostErrorView {
    Failed { code: FfiAgentHostErrorCode, reason: Seq<char> },
}

impl View for FfiAgentHostError {
    type V = HostErrorView;

    open spec fn view(&self) -> HostErrorView {
        match *self {
            FfiAgentHostError::Failed { code, reason } => HostErrorView::Failed { code, reason: reason@ },
        }
    }
}

impl Clone for FfiAgentHostError {
    fn clone(&self) -> (r: Self)
        ensures
            r == *self,
    {
        match self {
            FfiAgentHostError::Failed { code, reason } => FfiAgentHostError::Failed { code: *code, reason: reason.clone() },
        }
    }
}

/// Lifecycle of a host.
#[derive(Debug, PartialEq, Eq)]
pub enum FfiAgentHostLifecycleState {
    Starting,
    Ready,
    Stopping,
    Stopped,
    Failed { failure: FfiAgentHostFailure },
}

/// What a [`FfiAgentHostLifecycleState`] holds.
#[verifier::ext_equal]
pub enum LifecycleView {
    Starting,
    Ready,
    Stopping,
    Stopped,
    Failed { failure: HostFailureView },
}

impl View for FfiAgentHostLifecycleState {
    type V = LifecycleView;

    open spec fn view(&self) -> LifecycleView {
        match *self {
            FfiAgentHostLifecycleState::Starting => LifecycleView::Starting,
            FfiAgentHostLifecycleState::Ready => LifecycleView::Ready,
            FfiAgentHostLifecycleState::Stopping => LifecycleView::Stopping,
            FfiAgentHostLifecycleState::Stopped => LifecycleView::Stopped,
            FfiAgentHostLifecycleState::Failed { failure } => LifecycleView::Failed { failure: failure@ },
        }
    }
}

impl Clone for FfiAgentHostLifecycleState {
    fn clone(&self) -> (r: Self)
        ensures
            r == *self,
    {
        match self {
            FfiAgentHostLifecycleState::Starting => FfiAgentHostLifecycleState::Starting,
            FfiAgentHostLifecycleState::Ready => FfiAgentHostLifecycleState::Ready,
            FfiAgentHostLifecycleState::Stopping => FfiAgentHostLifecycleState::Stopping,
            FfiAgentHostLifecycleState::Stopped => FfiAgentHostLifecycleState::Stopped,
            FfiAgentHostLifecycleState::Failed { failure } => FfiAgentHostLifecycleState::Failed { failure: failure.clone() },
        }
    }
}

/// A host whose control endpoint accepts requests.
#[derive(Debug, PartialEq, Eq)]
pub struct FfiAgentHostReady {
    pub control_endpoint: String,
    pub agent_protocol_version: u16,
    pub application_contract_version: u16,
}

/// What a [`FfiAgentHostReady`] holds.
#[verifier::ext_equal]
pub struct HostReadyView {
    pub control_endpoint: Seq<char>,
    pub agent_protocol_version: u16,
    pub application_contract_version: u16,
}

impl View for FfiAgentHostReady {
    type V = HostReadyView;

    open spec fn view(&self) -> HostReadyView {
        HostReadyView {
            control_endpoint: self.control_endpoint@,
            agent_protocol_version: self.agent_protocol_version,
            application_contract_version: self.application_contract_version,
        }
    }
}

impl Clone for FfiAgentHostReady {
    fn clone(&self) -> (r: Self)
        ensures
            r == *self,
    {
        FfiAgentHostReady {
            control_endpoint: self.control_endpoint.clone(),
            agent_protocol_version: self.agent_protocol_version,
            application_contract_version: self.application_contract_version,
        }
    }
}

/// Why a control request failed.
#[derive(Clone, Copy, Debug, PartialEq, Eq, Structural)]
pub enum FfiAgentControlErrorCode {
    UnsupportedPlatform,
    InvalidInput,
    Unavailable,
    PermissionDenied,
    IncompatibleProtocol,
    InvalidResponse,
    IoFailure,
}

/// Control failure with its diagnostic.
#[derive(Debug, PartialEq, Eq)]
pub enum FfiAgentControlError {
    Failed { code: FfiAgentControlErrorCode, reason: String },
}

/// What a [`FfiAgentControlError`] holds.
#[verifier::ext_equal]
pub enum ControlErrorView {
    Failed { code: FfiAgentControlErrorCode, reason: Seq<char> },
}

impl View for FfiAgentControlError {
    type V = ControlErrorView;

    open spec fn view(&self) -> ControlErrorView {
        match *self {
            FfiAgentControlError::Failed { code, reason } => ControlErrorView::Failed { code, reason: reason@ },
        }
    }
}

impl Clone for FfiAgentControlError {
    fn clone(&self) -> (r: Self)
        ensures
            r == *self,
    {
        match self {
            FfiAgentControlError::Failed { code, reason } => FfiAgentControlError::Failed { code: *code, reason: reason.clone() },
        }
    }
}

/// Place in the events of one host instance.
#[derive(Debug, PartialEq, Eq)]
pub struct FfiAgentEventCursor {
    pub instance_id: String,
    pub sequence: u64,
}

/// What a [`FfiAgentEventCursor`] holds.
#[verifier::ext_equal]
pub struct CursorView {
    pub instance_id: Seq<char>,
    pub sequence: u64,
}

impl View for FfiAgentEventCursor {
    type V = CursorView;

    open spec fn view(&self) -> CursorView {
        CursorView {
            instance_id: self.instance_id@,
            sequence: self.sequence,
        }
    }
}

impl Clone for FfiAgentEventCursor {
    fn clone(&self) -> (r: Self)
        ensures
            r == *self,
    {
        FfiAgentEventCursor {
            instance_id: self.instance_id.clone(),
            sequence: self.sequence,
        }
    }
}

/// Answer to a pending offer.
#[derive(Clone, Copy, Debug, PartialEq, Eq, Structural)]
pub enum FfiAgentOfferDecision {
    Approve,
    Reject,
}

/// What joins a pairing. Its text form tells neither code.
#[derive(PartialEq, Eq)]
pub struct FfiAgentPairingInput {
    pub label: String,
    pub invitation: String,
    pub verification_code: String,
}

/// What a [`FfiAgentPairingInput`] holds.
#[verifier::ext_equal]
pub struct PairingInputView {
    pub label: Seq<char>,
    pub invitation: Seq<char>,
    pub verification_code: Seq<char>,
}

impl View for FfiAgentPairingInput {
    type V = PairingInputView;

    open spec fn view(&self) -> PairingInputView {
        PairingInputView {
            label: self.label@,
            invitation: self.invitation@,
            verification_code: self.verification_code@,
        }
    }
}

impl Clone for FfiAgentPairingInput {
    fn clone(&self) -> (r: Self)
        ensures
            r == *self,
    {
        FfiAgentPairingInput {
            label: self.label.clone(),
            invitation: self.invitation.clone(),
            verification_code: self.verification_code.clone(),
        }
    }
}

/// A control request. Its text form tells no pairing code.
#[derive(PartialEq, Eq)]
pub enum FfiAgentRequest {
    Status,
    Snapshot { inbox_limit: u64 },
    Events { after: FfiAgentEventCursor, limit: u64 },
    Pair { label: String },
    JoinPairing { pairing: FfiAgentPairingInput },
    ListDevices,
    RevokeDevice { device: String },
    UpdateDeviceRoute { device: String, broker: String, relay: Option<String> },
    CreateTransfer { device: String, paths: Vec<String> },
    ListTransfers,
    ListTransferPaths,
    GetTransfer { transfer_id: String },
    ListPendingOffers,
    DecidePendingOffer { offer_id: String, decision: FfiAgentOfferDecision },
    ListInbox { limit: u64 },
    LatestInbox,
    Diagnostics,
}

/// What a [`FfiAgentRequest`] holds.
#[verifier::ext_equal]
pub enum AgentRequestView {
    Status,
    Snapshot { inbox_limit: u64 },
    Events { after: CursorView, limit: u64 },
    Pair { label: Seq<char> },
    JoinPairing { pairing: PairingInputView },
    ListDevices,
    RevokeDevice { device: Seq<char> },
    UpdateDeviceRoute { device: Seq<char>, broker: Seq<char>, relay: Option<Seq<char>> },
    CreateTransfer { device: Seq<char>, paths: Seq<Seq<char>> },
    ListTransfers,
    ListTransferPaths,
    GetTransfer { transfer_id: Seq<char> },
    ListPendingOffers,
    DecidePendingOffer { offer_id: Seq<char>, decision: FfiAgentOfferDecision },
    ListInbox { limit: u64 },
    LatestInbox,
    Diagnostics,
}

impl View for FfiAgentRequest {
    type V = AgentRequestView;

    open spec fn view(&self) -> AgentRequestView {
        match *self {
            FfiAgentRequest::Status => AgentRequestView::Status,
            FfiAgentRequest::Snapshot { inbox_limit } => AgentRequestView::Snapshot { inbox_limit },
            FfiAgentRequest::Events { after, limit } => AgentRequestView::Events { after: after@, limit },
            FfiAgentRequest::Pair { label } => AgentRequestView::Pair { label: label@ },
            FfiAgentRequest::JoinPairing { pairing } => AgentRequestView::JoinPairing { pairing: pairing@ },
            FfiAgentRequest::ListDevices => AgentRequestView::ListDevices,
            FfiAgentRequest::RevokeDevice { device } => AgentRequestView::RevokeDevice { device: device@ },
            FfiAgentRequest::UpdateDeviceRoute { device, broker, relay } => AgentRequestView::UpdateDeviceRoute { device: device@, broker: broker@, relay: text_option(relay) },
            FfiAgentRequest::CreateTransfer { device, paths } => AgentRequestView::CreateTransfer { device: device@, paths: text_seq(paths@) },
            FfiAgentRequest::ListTransfers => AgentRequestView::ListTransfers,
            FfiAgentRequest::ListTransferPaths => AgentRequestView::ListTransferPaths,
            FfiAgentRequest::GetTransfer { transfer_id } => AgentRequestView::GetTransfer { transfer_id: transfer_id@ },
            FfiAgentRequest::ListPendingOffers => AgentRequestView::ListPendingOffers,
            FfiAgentRequest::DecidePendingOffer { offer_id, decision } => AgentRequestView::DecidePendingOffer { offer_id: offer_id@, decision },
            FfiAgentRequest::ListInbox { limit } => AgentRequestView::ListInbox { limit },
            FfiAgentRequest::LatestInbox => AgentRequestView::LatestInbox,
            FfiAgentRequest::Diagnostics => AgentRequestView::Diagnostics,
        }
    }
}

impl Clone for FfiAgentRequest {
    fn clone(&self) -> (r: Self)
        ensures
            r@ == self@,
    {
        let r = match self {
            FfiAgentRequest::Status => FfiAgentRequest::Status,
            FfiAgentRequest::Snapshot { inbox_limit } => FfiAgentRequest::Snapshot { inbox_limit: *inbox_limit },
            FfiAgentRequest::Events { after, limit } => FfiAgentRequest::Events { after: after.clone(), limit: *limit },
            FfiAgentRequest::Pair { label } => FfiAgentRequest::Pair { label: label.clone() },
            FfiAgentRequest::JoinPairing { pairing } => FfiAgentRequest::JoinPairing { pairing: pairing.clone() },
            FfiAgentRequest::ListDevices => FfiAgentRequest::ListDevices,
            FfiAgentRequest::RevokeDevice { device } => FfiAgentRequest::RevokeDevice { device: device.clone() },
            FfiAgentRequest::UpdateDeviceRoute { device, broker, relay } => FfiAgentRequest::UpdateDeviceRoute { device: device.clone(), broker: broker.clone(), relay: relay.clone() },
            FfiAgentRequest::CreateTransfer { device, paths } => FfiAgentRequest::CreateTransfer { device: device.clone(), paths: paths.clone() },
            FfiAgentRequest::ListTransfers => FfiAgentRequest::ListTransfers,
            FfiAgentRequest::ListTransferPaths => FfiAgentRequest::ListTransferPaths,
            FfiAgentRequest::GetTransfer { transfer_id } => FfiAgentRequest::GetTransfer { transfer_id: transfer_id.clone() },
            FfiAgentRequest::ListPendingOffers => FfiAgentRequest::ListPendingOffers,
            FfiAgentRequest::DecidePendingOffer { offer_id, decision } => FfiAgentRequest::DecidePendingOffer { offer_id: offer_id.clone(), decision: *decision },
            FfiAgentRequest::ListInbox { limit } => FfiAgentRequest::ListInbox { limit: *limit },
            FfiAgentRequest::LatestInbox => FfiAgentRequest::LatestInbox,
            FfiAgentRequest::Diagnostics => FfiAgentRequest::Diagnostics,
        };
        assert(r@ =~= self@);
        r
    }
}

/// State of a host.
#[derive(Debug, PartialEq, Eq)]
pub struct FfiAgentStatus {
    pub protocol_version: u16,
    pub pid: u32,
    pub device_name: String,
    pub state_directory: String,
    pub inbox_directory: String,
    pub broker: String,
    pub relay: Option<String>,
    pub paired_devices: u64,
    pub active_receivers: u64,
    pub active_pairings: u64,
    pub active_paths: u64,
    pub pending_offers: u64,
}

/// What a [`FfiAgentStatus`] holds.
#[verifier::ext_equal]
pub struct StatusView {
    pub protocol_version: u16,
    pub pid: u32,
    pub device_name: Seq<char>,
    pub state_directory: Seq<char>,
    pub inbox_directory: Seq<char>,
    pub broker: Seq<char>,
    pub relay: Option<Seq<char>>,
    pub paired_devices: u64,
    pub active_receivers: u64,
    pub active_pairings: u64,
    pub active_paths: u64,
    pub pending_offers: u64,
}

impl View for FfiAgentStatus {
    type V = StatusView;

    open spec fn view(&self) -> StatusView {
        StatusView {
            protocol_version: self.protocol_version,
            pid: self.pid,
            device_name: self.device_name@,
            state_directory: self.state_directory@,
            inbox_directory: self.inbox_directory@,
            broker: self.broker@,
            relay: text_option(self.relay),
            paired_devices: self.paired_devices,
            active_receivers: self.active_receivers,
            active_pairings: self.active_pairings,
            active_paths: self.active_paths,
            pending_offers: self.pending_offers,
        }
    }
}

impl Clone for FfiAgentStatus {
    fn clone(&self) -> (r: Self)
        ensures
            r == *self,
    {
        FfiAgentStatus {
            protocol_version: self.protocol_version,
            pid: self.pid,
            device_name: self.device_name.clone(),
            state_directory: self.state_directory.clone(),
            inbox_directory: self.inbox_directory.clone(),
            broker: self.broker.clone(),
            relay: self.relay.clone(),
            paired_devices: self.paired_devices,
            active_receivers: self.active_receivers,
            active_pairings: self.active_pairings,
            active_paths: self.active_paths,
            pending_offers: self.pending_offers,
        }
    }
}

/// Transport of the control endpoint.
#[derive(Clone, Copy, Debug, PartialEq, Eq, Structural)]
pub enum FfiAgentControlTransport {
    UnixSocket,
    WindowsNamedPipe,
}

/// Versions and counts of a host.
#[derive(Debug, PartialEq, Eq)]
pub struct FfiAgentDiagnostics {
    pub agent_protocol_version: u16,
    pub application_contract_version: u16,
    pub engine_schema_version: u16,
    pub platform: String,
    pub control_transport: FfiAgentControlTransport,
    pub credential_protection: FfiAgentCredentialProtection,
    pub engine_sequence: u64,
    pub relationships: u64,
    pub transfers: u64,
    pub inbox_items: u64,
    pub active_paths: u64,
    pub pending_offers: u64,
}

/// What a [`FfiAgentDiagnostics`] holds.
#[verifier::ext_equal]
pub struct DiagnosticsView {
    pub agent_protocol_version: u16,
    pub application_contract_version: u16,
    pub engine_schema_version: u16,
    pub platform: Seq<char>,
    pub control_transport: FfiAgentControlTransport,
    pub credential_protection: FfiAgentCredentialProtection,
    pub engine_sequence: u64,
    pub relationships: u64,
    pub transfers: u64,
    pub inbox_items: u64,
    pub active_paths: u64,
    pub pending_offers: u64,
}

impl View for FfiAgentDiagnostics {
    type V = DiagnosticsView;

    open spec fn view(&self) -> DiagnosticsView {
        DiagnosticsView {
            agent_protocol_version: self.agent_protocol_version,
            application_contract_version: self.application_contract_version,
            engine_schema_version: self.engine_schema_version,
            platform: self.platform@,
            control_transport: self.control_transport,
            credential_protection: self.credential_protection,
            engine_sequence: self.engine_sequence,
            relationships: self.relationships,
            transfers: self.transfers,
            inbox_items: self.inbox_items,
            active_paths: self.active_paths,
            pending_offers: self.pending_offers,
        }
    }
}

impl Clone for FfiAgentDiagnostics {
    fn clone(&self) -> (r: Self)
        ensures
            r == *self,
    {
        FfiAgentDiagnostics {
            agent_protocol_version: self.agent_protocol_version,
            application_contract_version: self.application_contract_version,
            engine_schema_version: self.engine_schema_version,
            platform: self.platform.clone(),
            control_transport: self.control_transport,
            credential_protection: self.credential_protection,
            engine_sequence: self.engine_sequence,
            relationships: self.relationships,
            transfers: self.transfers,
            inbox_items: self.inbox_items,
            active_paths: self.active_paths,
            pending_offers: self.pending_offers,
        }
    }
}

/// A pairing that waits for its peer. Its text form tells neither code.
#[derive(PartialEq, Eq)]
pub struct FfiAgentPairingInvitation {
    pub label: String,
    pub room_code: String,
    pub verification_code: String,
    pub expires_at_unix_seconds: u64,
}

/// What a [`FfiAgentPairingInvitation`] holds.
#[verifier::ext_equal]
pub struct PairingInvitationView {
    pub label: Seq<char>,
    pub room_code: Seq<char>,
    pub verification_code: Seq<char>,
    pub expires_at_unix_seconds: u64,
}

impl View for FfiAgentPairingInvitation {
    type V = PairingInvitationView;

    open spec fn view(&self) -> PairingInvitationView {
        PairingInvitationView {
            label: self.label@,
            room_code: self.room_code@,
            verification_code: self.verification_code@,
            expires_at_unix_seconds: self.expires_at_unix_seconds,
        }
    }
}

impl Clone for FfiAgentPairingInvitation {
    fn clone(&self) -> (r: Self)
        ensures
            r == *self,
    {
        FfiAgentPairingInvitation {
            label: self.label.clone(),
            room_code: self.room_code.clone(),
            verification_code: self.verification_code.clone(),
            expires_at_unix_seconds: self.expires_at_unix_seconds,
        }
    }
}

/// A paired device.
#[derive(Debug, PartialEq, Eq)]
pub struct FfiAgentDeviceSummary {
    pub id: String,
    pub label: String,
    pub generation: u64,
    pub previous_generation: Option<u64>,
    pub broker: String,
    pub relay: Option<String>,
}

/// What a [`FfiAgentDeviceSummary`] holds.
#[verifier::ext_equal]
pub struct DeviceSummaryView {
    pub id: Seq<char>,
    pub label: Seq<char>,
    pub generation: u64,
    pub previous_generation: Option<u64>,
    pub broker: Seq<char>,
    pub relay: Option<Seq<char>>,
}

impl View for FfiAgentDeviceSummary {
    type V = DeviceSummaryView;

    open spec fn view(&self) -> DeviceSummaryView {
        DeviceSummaryView {
            id: self.id@,
            label: self.label@,
            generation: self.generation,
            previous_generation: self.previous_generation,
            broker: self.broker@,
            relay: text_option(self.relay),
        }
    }
}

impl Clone for FfiAgentDeviceSummary {
    fn clone(&self) -> (r: Self)
        ensures
            r == *self,
    {
        FfiAgentDeviceSummary {
            id: self.id.clone(),
            label: self.label.clone(),
            generation: self.generation,
            previous_generation: self.previous_generation,
            broker: self.broker.clone(),
            relay: self.relay.clone(),
        }
    }
}

/// Class of a data path.
#[derive(Clone, Copy, Debug, PartialEq, Eq, Structural)]
pub enum FfiAgentPathKind {
    Lan,
    Direct,
    Relay,
    WifiAware,
    Other,
}

/// The data path of a transfer.
#[derive(Debug, PartialEq, Eq)]
pub struct FfiAgentTransferPath {
    pub transfer_id: String,
    pub direction: FfiTransferDirection,
    pub path: FfiAgentPathKind,
}

/// What a [`FfiAgentTransferPath`] holds.
#[verifier::ext_equal]
pub struct TransferPathView {
    pub transfer_id: Seq<char>,
    pub direction: FfiTransferDirection,
    pub path: FfiAgentPathKind,
}

impl View for FfiAgentTransferPath {
    type V = TransferPathView;

    open spec fn view(&self) -> TransferPathView {
        TransferPathView {
            transfer_id: self.transfer_id@,
            direction: self.direction,
            path: self.path,
        }
    }
}

impl Clone for FfiAgentTransferPath {
    fn clone(&self) -> (r: Self)
        ensures
            r == *self,
    {
        FfiAgentTransferPath {
            transfer_id: self.transfer_id.clone(),
            direction: self.direction,
            path: self.path,
        }
    }
}

/// An offer that waits for an answer.
#[derive(Debug, PartialEq, Eq)]
pub struct FfiAgentPendingOffer {
    pub offer_id: String,
    pub from_device_id: String,
    pub from_device_label: String,
    pub root_names: Vec<String>,
    pub item_count: u32,
    pub directory_count: u32,
    pub total_bytes: u64,
    pub allocatable_bytes: u64,
}

/// What a [`FfiAgentPendingOffer`] holds.
#[verifier::ext_equal]
pub struct PendingOfferView {
    pub offer_id: Seq<char>,
    pub from_device_id: Seq<char>,
    pub from_device_label: Seq<char>,
    pub root_names: Seq<Seq<char>>,
    pub item_count: u32,
    pub directory_count: u32,
    pub total_bytes: u64,
    pub allocatable_bytes: u64,
}

impl View for FfiAgentPendingOffer {
    type V = PendingOfferView;

    open spec fn view(&self) -> PendingOfferView {
        PendingOfferView {
            offer_id: self.offer_id@,
            from_device_id: self.from_device_id@,
            from_device_label: self.from_device_label@,
            root_names: text_seq(self.root_names@),
            item_count: self.item_count,
            directory_count: self.directory_count,
            total_bytes: self.total_bytes,
            allocatable_bytes: self.allocatable_bytes,
        }
    }
}

impl Clone for FfiAgentPendingOffer {
    fn clone(&self) -> (r: Self)
        ensures
            r@ == self@,
    {
        let r = FfiAgentPendingOffer {
            offer_id: self.offer_id.clone(),
            from_device_id: self.from_device_id.clone(),
            from_device_label: self.from_device_label.clone(),
            root_names: self.root_names.clone(),
            item_count: self.item_count,
            directory_count: self.directory_count,
            total_bytes: self.total_bytes,
            allocatable_bytes: self.allocatable_bytes,
        };
        assert(text_seq(r.root_names@) =~= text_seq(self.root_names@));
        r
    }
}

/// A received root.
#[derive(Debug, PartialEq, Eq)]
pub struct FfiAgentInboxRoot {
    pub name: String,
    pub path: String,
}

/// What a [`FfiAgentInboxRoot`] holds.
#[verifier::ext_equal]
pub struct InboxRootView {
    pub name: Seq<char>,
    pub path: Seq<char>,
}

impl View for FfiAgentInboxRoot {
    type V = InboxRootView;

    open spec fn view(&self) -> InboxRootView {
        InboxRootView {
            name: self.name@,
            path: self.path@,
        }
    }
}

impl Clone for FfiAgentInboxRoot {
    fn clone(&self) -> (r: Self)
        ensures
            r == *self,
    {
        FfiAgentInboxRoot {
            name: self.name.clone(),
            path: self.path.clone(),
        }
    }
}

/// A received delivery.
#[derive(Debug, PartialEq, Eq)]
pub struct FfiAgentInboxItem {
    pub id: String,
    pub received_at_unix_ms: u64,
    pub from_device_id: String,
    pub from_device_label: String,
    pub roots: Vec<FfiAgentInboxRoot>,
    pub file_count: u32,
    pub directory_count: u32,
    pub total_bytes: u64,
}

/// What a [`FfiAgentInboxItem`] holds.
#[verifier::ext_equal]
pub struct InboxItemView {
    pub id: Seq<char>,
    pub received_at_unix_ms: u64,
    pub from_device_id: Seq<char>,
    pub from_device_label: Seq<char>,
    pub roots: Seq<InboxRootView>,
    pub file_count: u32,
    pub directory_count: u32,
    pub total_bytes: u64,
}

impl View for FfiAgentInboxItem {
    type V = InboxItemView;

    open spec fn view(&self) -> InboxItemView {
        InboxItemView {
            id: self.id@,
            received_at_unix_ms: self.received_at_unix_ms,
            from_device_id: self.from_device_id@,
            from_device_label: self.from_device_label@,
            roots: self.roots@.map_values(|x: FfiAgentInboxRoot| x@),
            file_count: self.file_count,
            directory_count: self.directory_count,
            total_bytes: self.total_bytes,
        }
    }
}

impl Clone for FfiAgentInboxItem {
    fn clone(&self) -> (r: Self)
        ensures
            r@ == self@,
    {
        let r = FfiAgentInboxItem {
            id: self.id.clone(),
            received_at_unix_ms: self.received_at_unix_ms,
            from_device_id: self.from_device_id.clone(),
            from_device_label: self.from_device_label.clone(),
            roots: self.roots.clone(),
            file_count: self.file_count,
            directory_count: self.directory_count,
            total_bytes: self.total_bytes,
        };
        assert(r@.roots =~= self@.roots);
        r
    }
}

/// What happened to a relationship.
#[derive(Clone, Copy, Debug, PartialEq, Eq, Structural)]
pub enum FfiAgentRelationshipChange {
    Trusted,
    Rotated,
    RouteUpdated,
    Revoked,
}

/// A change in a host.
#[derive(Debug, PartialEq, Eq)]
pub enum FfiAgentEvent {
    PairingChanged { label: String, active: bool },
    RelationshipChanged { relationship_id: String, change: FfiAgentRelationshipChange },
    InboxChanged { item_id: String },
    TransferChanged { transfer_id: String },
    TransferPathChanged { transfer_id: String, direction: FfiTransferDirection, path: Option<FfiAgentPathKind> },
    PendingOfferChanged { offer_id: String, pending: bool },
}

/// What a [`FfiAgentEvent`] holds.
#[verifier::ext_equal]
pub enum AgentEventView {
    PairingChanged { label: Seq<char>, active: bool },
    RelationshipChanged { relationship_id: Seq<char>, change: FfiAgentRelationshipChange },
    InboxChanged { item_id: Seq<char> },
    TransferChanged { transfer_id: Seq<char> },
    TransferPathChanged { transfer_id: Seq<char>, direction: FfiTransferDirection, path: Option<FfiAgentPathKind> },
    PendingOfferChanged { offer_id: Seq<char>, pending: bool },
}

impl View for FfiAgentEvent {
    type V = AgentEventView;

    open spec fn view(&self) -> AgentEventView {
        match *self {
            FfiAgentEvent::PairingChanged { label, active } => AgentEventView::PairingChanged { label: label@, active },
            FfiAgentEvent::RelationshipChanged { relationship_id, change } => AgentEventView::RelationshipChanged { relationship_id: relationship_id@, change },
            FfiAgentEvent::InboxChanged { item_id } => AgentEventView::InboxChanged { item_id: item_id@ },
            FfiAgentEvent::TransferChanged { transfer_id } => AgentEventView::TransferChanged { transfer_id: transfer_id@ },
            FfiAgentEvent::TransferPathChanged { transfer_id, direction, path } => AgentEventView::TransferPathChanged { transfer_id: transfer_id@, direction, path },
            FfiAgentEvent::PendingOfferChanged { offer_id, pending } => AgentEventView::PendingOfferChanged { offer_id: offer_id@, pending },
        }
    }
}

impl Clone for FfiAgentEvent {
    fn clone(&self) -> (r: Self)
        ensures
            r == *self,
    {
        match self {
            FfiAgentEvent::PairingChanged { label, active } => FfiAgentEvent::PairingChanged { label: label.clone(), active: *active },
            FfiAgentEvent::RelationshipChanged { relationship_id, change } => FfiAgentEvent::RelationshipChanged { relationship_id: relationship_id.clone(), change: *change },
            FfiAgentEvent::InboxChanged { item_id } => FfiAgentEvent::InboxChanged { item_id: item_id.clone() },
            FfiAgentEvent::TransferChanged { transfer_id } => FfiAgentEvent::TransferChanged { transfer_id: transfer_id.clone() },
            FfiAgentEvent::TransferPathChanged { transfer_id, direction, path } => FfiAgentEvent::TransferPathChanged { transfer_id: transfer_id.clone(), direction: *direction, path: *path },
            FfiAgentEvent::PendingOfferChanged { offer_id, pending } => FfiAgentEvent::PendingOfferChanged { offer_id: offer_id.clone(), pending: *pending },
        }
    }
}

/// A change with its place.
#[derive(Debug, PartialEq, Eq)]
pub struct FfiAgentEventEnvelope {
    pub protocol_version: u16,
    pub instance_id: String,
    pub sequence: u64,
    pub event: FfiAgentEvent,
}

/// What a [`FfiAgentEventEnvelope`] holds.
#[verifier::ext_equal]
pub struct AgentEventEnvelopeView {
    pub protocol_version: u16,
    pub instance_id: Seq<char>,
    pub sequence: u64,
    pub event: AgentEventView,
}

impl View for FfiAgentEventEnvelope {
    type V = AgentEventEnvelopeView;

    open spec fn view(&self) -> AgentEventEnvelopeView {
        AgentEventEnvelopeView {
            protocol_version: self.protocol_version,
            instance_id: self.instance_id@,
            sequence: self.sequence,
            event: self.event@,
        }
    }
}

impl Clone for FfiAgentEventEnvelope {
    fn clone(&self) -> (r: Self)
        ensures
            r == *self,
    {
        FfiAgentEventEnvelope {
            protocol_version: self.protocol_version,
            instance_id: self.instance_id.clone(),
            sequence: self.sequence,
            event: self.event.clone(),
        }
    }
}

/// Everything a host shows.
#[derive(Debug, PartialEq, Eq)]
pub struct FfiAgentSnapshot {
    pub status: FfiAgentStatus,
    pub engine: FfiApplicationSnapshot,
    pub inbox: Vec<FfiAgentInboxItem>,
    pub active_paths: Vec<FfiAgentTransferPath>,
    pub pending_offers: Vec<FfiAgentPendingOffer>,
    pub event_cursor: FfiAgentEventCursor,
}

/// What a [`FfiAgentSnapshot`] holds.
#[verifier::ext_equal]
pub struct AgentSnapshotView {
    pub status: StatusView,
    pub engine: SnapshotView,
    pub inbox: Seq<InboxItemView>,
    pub active_paths: Seq<TransferPathView>,
    pub pending_offers: Seq<PendingOfferView>,
    pub event_cursor: CursorView,
}

impl View for FfiAgentSnapshot {
    type V = AgentSnapshotView;

    open spec fn view(&self) -> AgentSnapshotView {
        AgentSnapshotView {
            status: self.status@,
            engine: self.engine@,
            inbox: self.inbox@.map_values(|x: FfiAgentInboxItem| x@),
            active_paths: self.active_paths@.map_values(|x: FfiAgentTransferPath| x@),
            pending_offers: self.pending_offers@.map_values(|x: FfiAgentPendingOffer| x@),
            event_cursor: self.event_cursor@,
        }
    }
}

impl Clone for FfiAgentSnapshot {
    fn clone(&self) -> (r: Self)
        ensures
            r@ == self@,
    {
        let r = FfiAgentSnapshot {
            status: self.status.clone(),
            engine: self.engine.clone(),
            inbox: self.inbox.clone(),
            active_paths: self.active_paths.clone(),
            pending_offers: self.pending_offers.clone(),
            event_cursor: self.event_cursor.clone(),
        };
        assert(r@.inbox =~= self@.inbox);
        assert(r@.active_paths =~= self@.active_paths);
        assert(r@.pending_offers =~= self@.pending_offers);
        r
    }
}

/// A control response.
#[derive(PartialEq, Eq)]
pub enum FfiAgentResponse {
    Status { status: FfiAgentStatus },
    Pairing { pairing: FfiAgentPairingInvitation },
    DevicePaired { device: FfiAgentDeviceSummary },
    Devices { devices: Vec<FfiAgentDeviceSummary> },
    DeviceRevoked { device: FfiAgentDeviceSummary },
    DeviceRouteUpdated { device: FfiAgentDeviceSummary },
    TransferCreated { transfer: FfiApplicationTransfer },
    Transfers { transfers: Vec<FfiApplicationTransfer> },
    TransferPaths { paths: Vec<FfiAgentTransferPath> },
    Transfer { transfer: FfiApplicationTransfer },
    PendingOffers { offers: Vec<FfiAgentPendingOffer> },
    PendingOfferDecided { offer: FfiAgentPendingOffer, decision: FfiAgentOfferDecision },
    Inbox { items: Vec<FfiAgentInboxItem> },
    Latest { item: Option<FfiAgentInboxItem> },
    Snapshot { snapshot: FfiAgentSnapshot },
    Events { cursor: FfiAgentEventCursor, events: Vec<FfiAgentEventEnvelope> },
    SnapshotRequired { cursor: FfiAgentEventCursor },
    Diagnostics { diagnostics: FfiAgentDiagnostics },
    Error { code: String, message: String },
}

/// What a [`FfiAgentResponse`] holds.
#[verifier::ext_equal]
pub enum AgentResponseView {
    Status { status: StatusView },
    Pairing { pairing: PairingInvitationView },
    DevicePaired { device: DeviceSummaryView },
    Devices { devices: Seq<DeviceSummaryView> },
    DeviceRevoked { device: DeviceSummaryView },
    DeviceRouteUpdated { device: DeviceSummaryView },
    TransferCreated { transfer: TransferView },
    Transfers { transfers: Seq<TransferView> },
    TransferPaths { paths: Seq<TransferPathView> },
    Transfer { transfer: TransferView },
    PendingOffers { offers: Seq<PendingOfferView> },
    PendingOfferDecided { offer: PendingOfferView, decision: FfiAgentOfferDecision },
    Inbox { items: Seq<InboxItemView> },
    Latest { item: Option<InboxItemView> },
    Snapshot { snapshot: AgentSnapshotView },
    Events { cursor: CursorView, events: Seq<AgentEventEnvelopeView> },
    SnapshotRequired { cursor: CursorView },
    Diagnostics { diagnostics: DiagnosticsView },
    Error { code: Seq<char>, message: Seq<char> },
}

impl View for FfiAgentResponse {
    type V = AgentResponseView;

    open spec fn view(&self) -> AgentResponseView {
        match *self {
            FfiAgentResponse::Status { status } => AgentResponseView::Status { status: status@ },
            FfiAgentResponse::Pairing { pairing } => AgentResponseView::Pairing { pairing: pairing@ },
            FfiAgentResponse::DevicePaired { device } => AgentResponseView::DevicePaired { device: device@ },
            FfiAgentResponse::Devices { devices } => AgentResponseView::Devices { devices: devices@.map_values(|x: FfiAgentDeviceSummary| x@) },
            FfiAgentResponse::DeviceRevoked { device } => AgentResponseView::DeviceRevoked { device: device@ },
            FfiAgentResponse::DeviceRouteUpdated { device } => AgentResponseView::DeviceRouteUpdated { device: device@ },
            FfiAgentResponse::TransferCreated { transfer } => AgentResponseView::TransferCreated { transfer: transfer@ },
            FfiAgentResponse::Transfers { transfers } => AgentResponseView::Transfers { transfers: transfers@.map_values(|x: FfiApplicationTransfer| x@) },
            FfiAgentResponse::TransferPaths { paths } => AgentResponseView::TransferPaths { paths: paths@.map_values(|x: FfiAgentTransferPath| x@) },
            FfiAgentResponse::Transfer { transfer } => AgentResponseView::Transfer { transfer: transfer@ },
            FfiAgentResponse::PendingOffers { offers } => AgentResponseView::PendingOffers { offers: offers@.map_values(|x: FfiAgentPendingOffer| x@) },
            FfiAgentResponse::PendingOfferDecided { offer, decision } => AgentResponseView::PendingOfferDecided { offer: offer@, decision },
            FfiAgentResponse::Inbox { items } => AgentResponseView::Inbox { items: items@.map_values(|x: FfiAgentInboxItem| x@) },
            FfiAgentResponse::Latest { item } => AgentResponseView::Latest { item: match item { Some(x) => Some(x@), None => None } },
            FfiAgentResponse::Snapshot { snapshot } => AgentResponseView::Snapshot { snapshot: snapshot@ },
            FfiAgentResponse::Events { cursor, events } => AgentResponseView::Events { cursor: cursor@, events: events@.map_values(|x: FfiAgentEventEnvelope| x@) },
            FfiAgentResponse::SnapshotRequired { cursor } => AgentResponseView::SnapshotRequired { cursor: cursor@ },
            FfiAgentResponse::Diagnostics { diagnostics } => AgentResponseView::Diagnostics { diagnostics: diagnostics@ },
            FfiAgentResponse::Error { code, message } => AgentResponseView::Error { code: code@, message: message@ },
        }
    }
}

impl Clone for FfiAgentResponse {
    fn clone(&self) -> (r: Self)
        ensures
            r@ == self@,
    {
        let r = match self {
            FfiAgentResponse::Status { status } => FfiAgentResponse::Status { status: status.clone() },
            FfiAgentResponse::Pairing { pairing } => FfiAgentResponse::Pairing { pairing: pairing.clone() },
            FfiAgentResponse::DevicePaired { device } => FfiAgentResponse::DevicePaired { device: device.clone() },
            FfiAgentResponse::Devices { devices } => FfiAgentResponse::Devices { devices: devices.clone() },
            FfiAgentResponse::DeviceRevoked { device } => FfiAgentResponse::DeviceRevoked { device: device.clone() },
            FfiAgentResponse::DeviceRouteUpdated { device } => FfiAgentResponse::DeviceRouteUpdated { device: device.clone() },
            FfiAgentResponse::TransferCreated { transfer } => FfiAgentResponse::TransferCreated { transfer: transfer.clone() },
            FfiAgentResponse::Transfers { transfers } => FfiAgentResponse::Transfers { transfers: transfers.clone() },
            FfiAgentResponse::TransferPaths { paths } => FfiAgentResponse::TransferPaths { paths: paths.clone() },
            FfiAgentResponse::Transfer { transfer } => FfiAgentResponse::Transfer { transfer: transfer.clone() },
            FfiAgentResponse::PendingOffers { offers } => FfiAgentResponse::PendingOffers { offers: offers.clone() },
            FfiAgentResponse::PendingOfferDecided { offer, decision } => FfiAgentResponse::PendingOfferDecided { offer: offer.clone(), decision: *decision },
            FfiAgentResponse::Inbox { items } => FfiAgentResponse::Inbox { items: items.clone() },
            FfiAgentResponse::Latest { item } => FfiAgentResponse::Latest { item: item.clone() },
            FfiAgentResponse::Snapshot { snapshot } => FfiAgentResponse::Snapshot { snapshot: snapshot.clone() },
            FfiAgentResponse::Events { cursor, events } => FfiAgentResponse::Events { cursor: cursor.clone(), events: events.clone() },
            FfiAgentResponse::SnapshotRequired { cursor } => FfiAgentResponse::SnapshotRequired { cursor: cursor.clone() },
            FfiAgentResponse::Diagnostics { diagnostics } => FfiAgentResponse::Diagnostics { diagnostics: diagnostics.clone() },
            FfiAgentResponse::Error { code, message } => FfiAgentResponse::Error { code: code.clone(), message: message.clone() },
        };
        assert(r@ =~= self@);
        r
    }
}

impl PairingInputView {
    /// The text form of what joins a pairing.
    pub open spec fn described(self) -> Seq<char> {
        "FfiAgentPairingInput { label: "@ + quoted(self.label)
            + ", invitation: \"<redacted>\", verification_code: \"<redacted>\" }"@
    }
}

impl FfiAgentPairingInput {
    /// The text form, without the codes.
    pub fn debug_text(&self) -> (r: String)
        ensures
            r@ == self@.described(),
    {
        joined("FfiAgentPairingInput { label: ", quoted_text(self.label.as_str()).as_str()).concat(
            ", invitation: \"<redacted>\", verification_code: \"<redacted>\" }",
        )
    }
}

impl PairingInvitationView {
    /// The text form of a pairing that waits for its peer.
    pub open spec fn described(self) -> Seq<char> {
        "FfiAgentPairingInvitation { label: "@ + quoted(self.label)
            + ", room_code: \"<redacted>\", verification_code: \"<redacted>\", expires_at_unix_seconds: "@
            + decimal(self.expires_at_unix_seconds as nat) + " }"@
    }
}

impl FfiAgentPairingInvitation {
    /// The text form, without the codes.
    pub fn debug_text(&self) -> (r: String)
        ensures
            r@ == self@.described(),
    {
        joined(
            "FfiAgentPairingInvitation { label: ",
            quoted_text(self.label.as_str()).as_str(),
        ).concat(
            ", room_code: \"<redacted>\", verification_code: \"<redacted>\", expires_at_unix_seconds: ",
        ).concat(decimal_text(self.expires_at_unix_seconds).as_str()).concat(" }")
    }
}

/// The text form of an optional text.
pub open spec fn quoted_option(value: Option<Seq<char>>) -> Seq<char> {
    match value {
        Some(text) => "Some("@ + quoted(text) + ")"@,
        None => "None"@,
    }
}

fn quoted_option_text(value: &Option<String>) -> (r: String)
    ensures
        r@ == quoted_option(text_option(*value)),
{
    match value {
        Some(text) => joined("Some(", quoted_text(text.as_str()).as_str()).concat(")"),
        None => "None".to_owned(),
    }
}

/// The label of a [`FfiAgentOfferDecision`].
pub open spec fn decision_name_of(value: FfiAgentOfferDecision) -> Seq<char> {
    match value {
        FfiAgentOfferDecision::Approve => "Approve"@,
        FfiAgentOfferDecision::Reject => "Reject"@,
    }
}

/// The text form of an answer.
pub fn decision_name(value: FfiAgentOfferDecision) -> (r: &'static str)
    ensures
        r@ == decision_name_of(value),
{
    match value {
        FfiAgentOfferDecision::Approve => "Approve",
        FfiAgentOfferDecision::Reject => "Reject",
    }
}

impl AgentRequestView {
    /// The text form of a request.
    pub open spec fn described(self) -> Seq<char> {
        match self {
            AgentRequestView::Status => "Status"@,
            AgentRequestView::Snapshot { inbox_limit } => "Snapshot { inbox_limit: "@ + decimal(
                inbox_limit as nat,
            ) + " }"@,
            AgentRequestView::Events { after, limit } => "Events { after: FfiAgentEventCursor { instance_id: "@
                + quoted(after.instance_id) + ", sequence: "@ + decimal(after.sequence as nat)
                + " }, limit: "@ + decimal(limit as nat) + " }"@,
            AgentRequestView::Pair { label } => "Pair { label: "@ + quoted(label) + " }"@,
            AgentRequestView::JoinPairing { pairing } => "JoinPairing { pairing: "@
                + pairing.described() + " }"@,
            AgentRequestView::ListDevices => "ListDevices"@,
            AgentRequestView::RevokeDevice { device } => "RevokeDevice { device: "@ + quoted(device)
                + " }"@,
            AgentRequestView::UpdateDeviceRoute { device, broker, relay } => "UpdateDeviceRoute { device: "@
                + quoted(device) + ", broker: "@ + quoted(broker) + ", relay: "@ + quoted_option(
                relay,
            ) + " }"@,
            AgentRequestView::CreateTransfer { device, paths } => "CreateTransfer { device: "@
                + quoted(device) + ", paths: ["@ + quoted_list(paths) + "] }"@,
            AgentRequestView::ListTransfers => "ListTransfers"@,
            AgentRequestView::ListTransferPaths => "ListTransferPaths"@,
            AgentRequestView::GetTransfer { transfer_id } => "GetTransfer { transfer_id: "@
                + quoted(transfer_id) + " }"@,
            AgentRequestView::ListPendingOffers => "ListPendingOffers"@,
            AgentRequestView::DecidePendingOffer { offer_id, decision } => "DecidePendingOffer { offer_id: "@
                + quoted(offer_id) + ", decision: "@ + decision_name_of(decision) + " }"@,
            AgentRequestView::ListInbox { limit } => "ListInbox { limit: "@ + decimal(limit as nat)
                + " }"@,
            AgentRequestView::LatestInbox => "LatestInbox"@,
            AgentRequestView::Diagnostics => "Diagnostics"@,
        }
    }
}

impl FfiAgentRequest {
    /// The text form of a request, without pairing codes.
    pub fn debug_text(&self) -> (r: String)
        ensures
            r@ == self@.described(),
    {
        match self {
            FfiAgentRequest::Status => "Status".to_owned(),
            FfiAgentRequest::Snapshot { inbox_limit } => joined(
                "Snapshot { inbox_limit: ",
                decimal_text(*inbox_limit).as_str(),
            ).concat(" }"),
            FfiAgentRequest::Events { after, limit } => joined(
                "Events { after: FfiAgentEventCursor { instance_id: ",
                quoted_text(after.instance_id.as_str()).as_str(),
            ).concat(", sequence: ").concat(decimal_text(after.sequence).as_str()).concat(
                " }, limit: ",
            ).concat(decimal_text(*limit).as_str()).concat(" }"),
            FfiAgentRequest::Pair { label } => joined(
                "Pair { label: ",
                quoted_text(label.as_str()).as_str(),
            ).concat(" }"),
            FfiAgentRequest::JoinPairing { pairing } => joined(
                "JoinPairing { pairing: ",
                pairing.debug_text().as_str(),
            ).concat(" }"),
            FfiAgentRequest::ListDevices => "ListDevices".to_owned(),
            FfiAgentRequest::RevokeDevice { device } => joined(
                "RevokeDevice { device: ",
                quoted_text(device.as_str()).as_str(),
            ).concat(" }"),
            FfiAgentRequest::UpdateDeviceRoute { device, broker, relay } => joined(
                "UpdateDeviceRoute { device: ",
                quoted_text(device.as_str()).as_str(),
            ).concat(", broker: ").concat(quoted_text(broker.as_str()).as_str()).concat(
                ", relay: ",
            ).concat(quoted_option_text(relay).as_str()).concat(" }"),
            FfiAgentRequest::CreateTransfer { device, paths } => joined(
                "CreateTransfer { device: ",
                quoted_text(device.as_str()).as_str(),
            ).concat(", paths: [").concat(quoted_list_text(paths).as_str()).concat("] }"),
            FfiAgentRequest::ListTransfers => "ListTransfers".to_owned(),
            FfiAgentRequest::ListTransferPaths => "ListTransferPaths".to_owned(),
            FfiAgentRequest::GetTransfer { transfer_id } => joined(
                "GetTransfer { transfer_id: ",
                quoted_text(transfer_id.as_str()).as_str(),
            ).concat(" }"),
            FfiAgentRequest::ListPendingOffers => "ListPendingOffers".to_owned(),
            FfiAgentRequest::DecidePendingOffer { offer_id, decision } => joined(
                "DecidePendingOffer { offer_id: ",
                quoted_text(offer_id.as_str()).as_str(),
            ).concat(", decision: ").concat(decision_name(*decision)).concat(" }"),
            FfiAgentRequest::ListInbox { limit } => joined(
                "ListInbox { limit: ",
                decimal_text(*limit).as_str(),
            ).concat(" }"),
            FfiAgentRequest::LatestInbox => "LatestInbox".to_owned(),
            FfiAgentRequest::Diagnostics => "Diagnostics".to_owned(),
        }
    }
}

/// The text form of a pairing does not depend on its codes.
pub proof fn pairing_text_hides_codes(
    input: PairingInputView,
    invitation: PairingInvitationView,
    code: Seq<char>,
    verification_code: Seq<char>,
)
    ensures
        (PairingInputView { invitation: code, verification_code, ..input }).described()
            == input.described(),
        (PairingInvitationView { room_code: code, verification_code, ..invitation }).described()
            == invitation.described(),
{
}

/// The text of a request names it and everything that it names, but for the codes of
/// a pairing.
pub proof fn agent_requests_are_described_by_their_data(request: AgentRequestView)
    ensures
        request is Status ==> request.described() == "Status"@,
        request matches AgentRequestView::Snapshot { inbox_limit } ==> request.described() == "Snapshot { inbox_limit: "@ + decimal(
                inbox_limit as nat,
            ) + " }"@,
        request matches AgentRequestView::Events { after, limit } ==> request.described() == "Events { after: FfiAgentEventCursor { instance_id: "@
                + quoted(after.instance_id) + ", sequence: "@ + decimal(after.sequence as nat)
                + " }, limit: "@ + decimal(limit as nat) + " }"@,
        request matches AgentRequestView::Pair { label } ==> request.described() == "Pair { label: "@ + quoted(label) + " }"@,
        request matches AgentRequestView::JoinPairing { pairing } ==> request.described() == "JoinPairing { pairing: "@
                + pairing.described() + " }"@,
        request is ListDevices ==> request.described() == "ListDevices"@,
        request matches AgentRequestView::RevokeDevice { device } ==> request.described() == "RevokeDevice { device: "@ + quoted(device)
                + " }"@,
        request matches AgentRequestView::UpdateDeviceRoute { device, broker, relay } ==> request.described() == "UpdateDeviceRoute { device: "@
                + quoted(device) + ", broker: "@ + quoted(broker) + ", relay: "@ + quoted_option(
                relay,
            ) + " }"@,
        request matches AgentRequestView::CreateTransfer { device, paths } ==> request.described() == "CreateTransfer { device: "@
                + quoted(device) + ", paths: ["@ + quoted_list(paths) + "] }"@,
        request is ListTransfers ==> request.described() == "ListTransfers"@,
        request is ListTransferPaths ==> request.described() == "ListTransferPaths"@,
        request matches AgentRequestView::GetTransfer { transfer_id } ==> request.described() == "GetTransfer { transfer_id: "@
                + quoted(transfer_id) + " }"@,
        request is ListPendingOffers ==> request.described() == "ListPendingOffers"@,
        request matches AgentRequestView::DecidePendingOffer { offer_id, decision } ==> request.described() == "DecidePendingOffer { offer_id: "@
                + quoted(offer_id) + ", decision: "@ + decision_name_of(decision) + " }"@,
        request matches AgentRequestView::ListInbox { limit } ==> request.described() == "ListInbox { limit: "@ + decimal(limit as nat)
                + " }"@,
        request is LatestInbox ==> request.described() == "LatestInbox"@,
        request is Diagnostics ==> request.described() == "Diagnostics"@,
{
}

/// The text of a pairing names its label and its end, and what may be missing is
/// written as such.
pub proof fn pairings_are_described_by_their_label(
    input: PairingInputView,
    invitation: PairingInvitationView,
    text: Seq<char>,
    decision: FfiAgentOfferDecision,
)
    ensures
        input.described() == "FfiAgentPairingInput { label: "@ + quoted(input.label)
            + ", invitation: \"<redacted>\", verification_code: \"<redacted>\" }"@,
        invitation.described() == "FfiAgentPairingInvitation { label: "@ + quoted(invitation.label)
            + ", room_code: \"<redacted>\", verification_code: \"<redacted>\", expires_at_unix_seconds: "@
            + decimal(invitation.expires_at_unix_seconds as nat) + " }"@,
        quoted_option(Some(text)) == "Some("@ + quoted(text) + ")"@,
        quoted_option(None) == "None"@,
        decision is Approve ==> decision_name_of(decision) == "Approve"@,
        decision is Reject ==> decision_name_of(decision) == "Reject"@,
{
}

} // verus!
