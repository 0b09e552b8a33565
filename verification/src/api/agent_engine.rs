//! What the agent answers and is asked for, as the agent itself holds it.
use vstd::prelude::*;

use crate::api::contract_engine::{
    EngineSnapshot, EngineSnapshotView, TransferDirection, TransferRecord, TransferRecordView,
};
use crate::text::{text_option, text_seq};

verus! {

broadcast use vstd::seq_lib::group_seq_properties;

/// How the vault of a host protects credentials.
#[derive(Clone, Copy, Debug, PartialEq, Eq, Structural)]
pub enum AgentCredentialProtection {
    OwnerOnlyFile,
    WindowsDpapi,
    AppleKeychain,
}

/// Why a host failed.
#[derive(Clone, Copy, Debug, PartialEq, Eq, Structural)]
pub enum AgentHostErrorCode {
    InvalidConfiguration,
    StateAlreadyOwned,
    UnsupportedPersistentState,
    StateCorrupt,
    VaultUnavailable,
    VaultInteractionRequired,
    VaultPermissionDenied,
    VaultCorrupt,
    VaultCanceled,
    IoFailure,
    Internal,
}

/// A failed host.
#[derive(Debug, PartialEq, Eq)]
pub struct AgentHostFailure {
    pub code: AgentHostErrorCode,
    pub reason: String,
}

/// What a [`AgentHostFailure`] holds.
#[verifier::ext_equal]
pub struct AgentHostFailureView {
    pub code: AgentHostErrorCode,
    pub reason: Seq<char>,
}

impl View for AgentHostFailure {
    type V = AgentHostFailureView;

    open spec fn view(&self) -> AgentHostFailureView {
        AgentHostFailureView {
            code: self.code,
            reason: self.reason@,
        }
    }
}

impl Clone for AgentHostFailure {
    fn clone(&self) -> (r: Self)
        ensures
            r == *self,
    {
        AgentHostFailure {
            code: self.code,
            reason: self.reason.clone(),
        }
    }
}

/// Lifecycle of a host.
#[derive(Debug, PartialEq, Eq)]
pub enum AgentHostLifecycleState {
    Starting,
    Ready,
    Stopping,
    Stopped,
    Failed { failure: AgentHostFailure },
}

/// What a [`AgentHostLifecycleState`] holds.
#[verifier::ext_equal]
pub enum AgentLifecycleView {
    Starting,
    Ready,
    Stopping,
    Stopped,
    Failed { failure: AgentHostFailureView },
}

impl View for AgentHostLifecycleState {
    type V = AgentLifecycleView;

    open spec fn view(&self) -> AgentLifecycleView {
        match *self {
            AgentHostLifecycleState::Starting => AgentLifecycleView::Starting,
            AgentHostLifecycleState::Ready => AgentLifecycleView::Ready,
            AgentHostLifecycleState::Stopping => AgentLifecycleView::Stopping,
            AgentHostLifecycleState::Stopped => AgentLifecycleView::Stopped,
            AgentHostLifecycleState::Failed { failure } => AgentLifecycleView::Failed { failure: failure@ },
        }
    }
}

impl Clone for AgentHostLifecycleState {
    fn clone(&self) -> (r: Self)
        ensures
            r == *self,
    {
        match self {
            AgentHostLifecycleState::Starting => AgentHostLifecycleState::Starting,
            AgentHostLifecycleState::Ready => AgentHostLifecycleState::Ready,
            AgentHostLifecycleState::Stopping => AgentHostLifecycleState::Stopping,
            AgentHostLifecycleState::Stopped => AgentHostLifecycleState::Stopped,
            AgentHostLifecycleState::Failed { failure } => AgentHostLifecycleState::Failed { failure: failure.clone() },
        }
    }
}

/// Answer to a pending offer.
#[derive(Clone, Copy, Debug, PartialEq, Eq, Structural)]
pub enum AgentOfferDecision {
    Approve,
    Reject,
}

/// Place in the events of one host instance.
#[derive(Debug, PartialEq, Eq)]
pub struct AgentEventCursor {
    pub instance_id: String,
    pub sequence: u64,
}

/// What a [`AgentEventCursor`] holds.
#[verifier::ext_equal]
pub struct AgentCursorView {
    pub instance_id: Seq<char>,
    pub sequence: u64,
}

impl View for AgentEventCursor {
    type V = AgentCursorView;

    open spec fn view(&self) -> AgentCursorView {
        AgentCursorView {
            instance_id: self.instance_id@,
            sequence: self.sequence,
        }
    }
}

impl Clone for AgentEventCursor {
    fn clone(&self) -> (r: Self)
        ensures
            r == *self,
    {
        AgentEventCursor {
            instance_id: self.instance_id.clone(),
            sequence: self.sequence,
        }
    }
}

/// What joins a pairing.
#[derive(PartialEq, Eq)]
pub struct AgentPairingInput {
    pub label: String,
    pub invitation: String,
    pub verification_code: String,
}

/// What a [`AgentPairingInput`] holds.
#[verifier::ext_equal]
pub struct AgentPairingInputView {
    pub label: Seq<char>,
    pub invitation: Seq<char>,
    pub verification_code: Seq<char>,
}

impl View for AgentPairingInput {
    type V = AgentPairingInputView;

    open spec fn view(&self) -> AgentPairingInputView {
        AgentPairingInputView {
            label: self.label@,
            invitation: self.invitation@,
            verification_code: self.verification_code@,
        }
    }
}

impl Clone for AgentPairingInput {
    fn clone(&self) -> (r: Self)
        ensures
            r == *self,
    {
        AgentPairingInput {
            label: self.label.clone(),
            invitation: self.invitation.clone(),
            verification_code: self.verification_code.clone(),
        }
    }
}

/// A control request.
#[derive(PartialEq, Eq)]
pub enum AgentRequest {
    Status,
    Snapshot { inbox_limit: usize },
    Events { after: AgentEventCursor, limit: usize },
    Pair { label: String },
    JoinPairing { pairing: AgentPairingInput },
    ListDevices,
    RevokeDevice { device: String },
    UpdateDeviceRoute { device: String, broker: String, relay: Option<String> },
    CreateTransfer { device: String, paths: Vec<String> },
    ListTransfers,
    ListTransferPaths,
    GetTransfer { transfer_id: String },
    ListPendingOffers,
    DecidePendingOffer { offer_id: String, decision: AgentOfferDecision },
    ListInbox { limit: usize },
    LatestInbox,
    Diagnostics,
}

/// What a [`AgentRequest`] holds.
#[verifier::ext_equal]
pub enum CoreRequestView {
    Status,
    Snapshot { inbox_limit: usize },
    Events { after: AgentCursorView, limit: usize },
    Pair { label: Seq<char> },
    JoinPairing { pairing: AgentPairingInputView },
    ListDevices,
    RevokeDevice { device: Seq<char> },
    UpdateDeviceRoute { device: Seq<char>, broker: Seq<char>, relay: Option<Seq<char>> },
    CreateTransfer { device: Seq<char>, paths: Seq<Seq<char>> },
    ListTransfers,
    ListTransferPaths,
    GetTransfer { transfer_id: Seq<char> },
    ListPendingOffers,
    DecidePendingOffer { offer_id: Seq<char>, decision: AgentOfferDecision },
    ListInbox { limit: usize },
    LatestInbox,
    Diagnostics,
}

impl View for AgentRequest {
    type V = CoreRequestView;

    open spec fn view(&self) -> CoreRequestView {
        match *self {
            AgentRequest::Status => CoreRequestView::Status,
            AgentRequest::Snapshot { inbox_limit } => CoreRequestView::Snapshot { inbox_limit },
            AgentRequest::Events { after, limit } => CoreRequestView::Events { after: after@, limit },
            AgentRequest::Pair { label } => CoreRequestView::Pair { label: label@ },
            AgentRequest::JoinPairing { pairing } => CoreRequestView::JoinPairing { pairing: pairing@ },
            AgentRequest::ListDevices => CoreRequestView::ListDevices,
            AgentRequest::RevokeDevice { device } => CoreRequestView::RevokeDevice { device: device@ },
            AgentRequest::UpdateDeviceRoute { device, broker, relay } => CoreRequestView::UpdateDeviceRoute { device: device@, broker: broker@, relay: text_option(relay) },
            AgentRequest::CreateTransfer { device, paths } => CoreRequestView::CreateTransfer { device: device@, paths: text_seq(paths@) },
            AgentRequest::ListTransfers => CoreRequestView::ListTransfers,
            AgentRequest::ListTransferPaths => CoreRequestView::ListTransferPaths,
            AgentRequest::GetTransfer { transfer_id } => CoreRequestView::GetTransfer { transfer_id: transfer_id@ },
            AgentRequest::ListPendingOffers => CoreRequestView::ListPendingOffers,
            AgentRequest::DecidePendingOffer { offer_id, decision } => CoreRequestView::DecidePendingOffer { offer_id: offer_id@, decision },
            AgentRequest::ListInbox { limit } => CoreRequestView::ListInbox { limit },
            AgentRequest::LatestInbox => CoreRequestView::LatestInbox,
            AgentRequest::Diagnostics => CoreRequestView::Diagnostics,
        }
    }
}

impl Clone for AgentRequest {
    fn clone(&self) -> (r: Self)
        ensures
            r@ == self@,
    {
        let r = match self {
            AgentRequest::Status => AgentRequest::Status,
            AgentRequest::Snapshot { inbox_limit } => AgentRequest::Snapshot { inbox_limit: *inbox_limit },
            AgentRequest::Events { after, limit } => AgentRequest::Events { after: after.clone(), limit: *limit },
            AgentRequest::Pair { label } => AgentRequest::Pair { label: label.clone() },
            AgentRequest::JoinPairing { pairing } => AgentRequest::JoinPairing { pairing: pairing.clone() },
            AgentRequest::ListDevices => AgentRequest::ListDevices,
            AgentRequest::RevokeDevice { device } => AgentRequest::RevokeDevice { device: device.clone() },
            AgentRequest::UpdateDeviceRoute { device, broker, relay } => AgentRequest::UpdateDeviceRoute { device: device.clone(), broker: broker.clone(), relay: relay.clone() },
            AgentRequest::CreateTransfer { device, paths } => AgentRequest::CreateTransfer { device: device.clone(), paths: paths.clone() },
            AgentRequest::ListTransfers => AgentRequest::ListTransfers,
            AgentRequest::ListTransferPaths => AgentRequest::ListTransferPaths,
            AgentRequest::GetTransfer { transfer_id } => AgentRequest::GetTransfer { transfer_id: transfer_id.clone() },
            AgentRequest::ListPendingOffers => AgentRequest::ListPendingOffers,
            AgentRequest::DecidePendingOffer { offer_id, decision } => AgentRequest::DecidePendingOffer { offer_id: offer_id.clone(), decision: *decision },
            AgentRequest::ListInbox { limit } => AgentRequest::ListInbox { limit: *limit },
            AgentRequest::LatestInbox => AgentRequest::LatestInbox,
            AgentRequest::Diagnostics => AgentRequest::Diagnostics,
        };
        assert(r@ =~= self@);
        r
    }
}

/// State of a host.
#[derive(Debug, PartialEq, Eq)]
pub struct AgentStatus {
    pub protocol_version: u16,
    pub pid: u32,
    pub device_name: String,
    pub state_directory: String,
    pub inbox_directory: String,
    pub broker: String,
    pub relay: Option<String>,
    pub paired_devices: usize,
    pub active_receivers: usize,
    pub active_pairings: usize,
    pub active_paths: usize,
    pub pending_offers: usize,
}

/// What a [`AgentStatus`] holds.
#[verifier::ext_equal]
pub struct AgentStatusView {
    pub protocol_version: u16,
    pub pid: u32,
    pub device_name: Seq<char>,
    pub state_directory: Seq<char>,
    pub inbox_directory: Seq<char>,
    pub broker: Seq<char>,
    pub relay: Option<Seq<char>>,
    pub paired_devices: usize,
    pub active_receivers: usize,
    pub active_pairings: usize,
    pub active_paths: usize,
    pub pending_offers: usize,
}

impl View for AgentStatus {
    type V = AgentStatusView;

    open spec fn view(&self) -> AgentStatusView {
        AgentStatusView {
            protocol_version: self.protocol_version,
            pid: self.pid,
            device_name: self.device_name@,
            state_directory: self.state_directory@,
            inbox_directory: self.inbox_directory@,
            broker: self.broker@,
            relay: text_option(self.relay),
            paired_devices: self.paired_devices,
            active_receivers: self.active_receivers,
            active_pairings: self.active_pairings,
            active_paths: self.active_paths,
            pending_offers: self.pending_offers,
        }
    }
}

impl Clone for AgentStatus {
    fn clone(&self) -> (r: Self)
        ensures
            r == *self,
    {
        AgentStatus {
            protocol_version: self.protocol_version,
            pid: self.pid,
            device_name: self.device_name.clone(),
            state_directory: self.state_directory.clone(),
            inbox_directory: self.inbox_directory.clone(),
            broker: self.broker.clone(),
            relay: self.relay.clone(),
            paired_devices: self.paired_devices,
            active_receivers: self.active_receivers,
            active_pairings: self.active_pairings,
            active_paths: self.active_paths,
            pending_offers: self.pending_offers,
        }
    }
}

/// Transport of the control endpoint.
#[derive(Clone, Copy, Debug, PartialEq, Eq, Structural)]
pub enum AgentControlTransport {
    UnixSocket,
    WindowsNamedPipe,
}

/// Versions and counts of a host.
#[derive(Debug, PartialEq, Eq)]
pub struct AgentDiagnostics {
    pub agent_protocol_version: u16,
    pub application_contract_version: u16,
    pub engine_schema_version: u16,
    pub platform: String,
    pub control_transport: AgentControlTransport,
    pub credential_protection: AgentCredentialProtection,
    pub engine_sequence: u64,
    pub relationships: usize,
    pub transfers: usize,
    pub inbox_items: usize,
    pub active_paths: usize,
    pub pending_offers: usize,
}

/// What a [`AgentDiagnostics`] holds.
#[verifier::ext_equal]
pub struct AgentDiagnosticsView {
    pub agent_protocol_version: u16,
    pub application_contract_version: u16,
    pub engine_schema_version: u16,
    pub platform: Seq<char>,
    pub control_transport: AgentControlTransport,
    pub credential_protection: AgentCredentialProtection,
    pub engine_sequence: u64,
    pub relationships: usize,
    pub transfers: usize,
    pub inbox_items: usize,
    pub active_paths: usize,
    pub pending_offers: usize,
}

impl View for AgentDiagnostics {
    type V = AgentDiagnosticsView;

    open spec fn view(&self) -> AgentDiagnosticsView {
        AgentDiagnosticsView {
            agent_protocol_version: self.agent_protocol_version,
            application_contract_version: self.application_contract_version,
            engine_schema_version: self.engine_schema_version,
            platform: self.platform@,
            control_transport: self.control_transport,
            credential_protection: self.credential_protection,
            engine_sequence: self.engine_sequence,
            relationships: self.relationships,
            transfers: self.transfers,
            inbox_items: self.inbox_items,
            active_paths: self.active_paths,
            pending_offers: self.pending_offers,
        }
    }
}

impl Clone for AgentDiagnostics {
    fn clone(&self) -> (r: Self)
        ensures
            r == *self,
    {
        AgentDiagnostics {
            agent_protocol_version: self.agent_protocol_version,
            application_contract_version: self.application_contract_version,
            engine_schema_version: self.engine_schema_version,
            platform: self.platform.clone(),
            control_transport: self.control_transport,
            credential_protection: self.credential_protection,
            engine_sequence: self.engine_sequence,
            relationships: self.relationships,
            transfers: self.transfers,
            inbox_items: self.inbox_items,
            active_paths: self.active_paths,
            pending_offers: self.pending_offers,
        }
    }
}

/// A pairing that waits for its peer.
#[derive(PartialEq, Eq)]
pub struct PairingInvitation {
    pub label: String,
    pub room_code: String,
    pub verification_code: String,
    pub expires_at_unix_seconds: u64,
}

/// What a [`PairingInvitation`] holds.
#[verifier::ext_equal]
pub struct AgentPairingView {
    pub label: Seq<char>,
    pub room_code: Seq<char>,
    pub verification_code: Seq<char>,
    pub expires_at_unix_seconds: u64,
}

impl View for PairingInvitation {
    type V = AgentPairingView;

    open spec fn view(&self) -> AgentPairingView {
        AgentPairingView {
            label: self.label@,
            room_code: self.room_code@,
            verification_code: self.verification_code@,
            expires_at_unix_seconds: self.expires_at_unix_seconds,
        }
    }
}

impl Clone for PairingInvitation {
    fn clone(&self) -> (r: Self)
        ensures
            r == *self,
    {
        PairingInvitation {
            label: self.label.clone(),
            room_code: self.room_code.clone(),
            verification_code: self.verification_code.clone(),
            expires_at_unix_seconds: self.expires_at_unix_seconds,
        }
    }
}

/// A paired device.
#[derive(Debug, PartialEq, Eq)]
pub struct DeviceSummary {
    pub id: String,
    pub label: String,
    pub generation: u64,
    pub previous_generation: Option<u64>,
    pub broker: String,
    pub relay: Option<String>,
}

/// What a [`DeviceSummary`] holds.
#[verifier::ext_equal]
pub struct AgentDeviceView {
    pub id: Seq<char>,
    pub label: Seq<char>,
    pub generation: u64,
    pub previous_generation: Option<u64>,
    pub broker: Seq<char>,
    pub relay: Option<Seq<char>>,
}

impl View for DeviceSummary {
    type V = AgentDeviceView;

    open spec fn view(&self) -> AgentDeviceView {
        AgentDeviceView {
            id: self.id@,
            label: self.label@,
            generation: self.generation,
            previous_generation: self.previous_generation,
            broker: self.broker@,
            relay: text_option(self.relay),
        }
    }
}

impl Clone for DeviceSummary {
    fn clone(&self) -> (r: Self)
        ensures
            r == *self,
    {
        DeviceSummary {
            id: self.id.clone(),
            label: self.label.clone(),
            generation: self.generation,
            previous_generation: self.previous_generation,
            broker: self.broker.clone(),
            relay: self.relay.clone(),
        }
    }
}

/// Class of a data path.
#[derive(Clone, Copy, Debug, PartialEq, Eq, Structural)]
pub enum AgentPathKind {
    Lan,
    Direct,
    Relay,
    WifiAware,
    Other,
}

/// The data path of a transfer.
#[derive(Debug, PartialEq, Eq)]
pub struct AgentTransferPath {
    pub transfer_id: String,
    pub direction: TransferDirection,
    pub path: AgentPathKind,
}

/// What a [`AgentTransferPath`] holds.
#[verifier::ext_equal]
pub struct AgentPathView {
    pub transfer_id: Seq<char>,
    pub direction: TransferDirection,
    pub path: AgentPathKind,
}

impl View for AgentTransferPath {
    type V = AgentPathView;

    open spec fn view(&self) -> AgentPathView {
        AgentPathView {
            transfer_id: self.transfer_id@,
            direction: self.direction,
            path: self.path,
        }
    }
}

impl Clone for AgentTransferPath {
    fn clone(&self) -> (r: Self)
        ensures
            r == *self,
    {
        AgentTransferPath {
            transfer_id: self.transfer_id.clone(),
            direction: self.direction,
            path: self.path,
        }
    }
}

/// An offer that waits for an answer.
#[derive(Debug, PartialEq, Eq)]
pub struct AgentPendingOffer {
    pub offer_id: String,
    pub from_device_id: String,
    pub from_device_label: String,
    pub root_names: Vec<String>,
    pub item_count: u32,
    pub directory_count: u32,
    pub total_bytes: u64,
    pub allocatable_bytes: u64,
}

/// What a [`AgentPendingOffer`] holds.
#[verifier::ext_equal]
pub struct AgentOfferView {
    pub offer_id: Seq<char>,
    pub from_device_id: Seq<char>,
    pub from_device_label: Seq<char>,
    pub root_names: Seq<Seq<char>>,
    pub item_count: u32,
    pub directory_count: u32,
    pub total_bytes: u64,
    pub allocatable_bytes: u64,
}

impl View for AgentPendingOffer {
    type V = AgentOfferView;

    open spec fn view(&self) -> AgentOfferView {
        AgentOfferView {
            offer_id: self.offer_id@,
            from_device_id: self.from_device_id@,
            from_device_label: self.from_device_label@,
            root_names: text_seq(self.root_names@),
            item_count: self.item_count,
            directory_count: self.directory_count,
            total_bytes: self.total_bytes,
            allocatable_bytes: self.allocatable_bytes,
        }
    }
}

impl Clone for AgentPendingOffer {
    fn clone(&self) -> (r: Self)
        ensures
            r@ == self@,
    {
        let r = AgentPendingOffer {
            offer_id: self.offer_id.clone(),
            from_device_id: self.from_device_id.clone(),
            from_device_label: self.from_device_label.clone(),
            root_names: self.root_names.clone(),
            item_count: self.item_count,
            directory_count: self.directory_count,
            total_bytes: self.total_bytes,
            allocatable_bytes: self.allocatable_bytes,
        };
        assert(text_seq(r.root_names@) =~= text_seq(self.root_names@));
        r
    }
}

/// A received root.
#[derive(Debug, PartialEq, Eq)]
pub struct InboxRoot {
    pub name: String,
    pub path: String,
}

/// What a [`InboxRoot`] holds.
#[verifier::ext_equal]
pub struct AgentRootView {
    pub name: Seq<char>,
    pub path: Seq<char>,
}

impl View for InboxRoot {
    type V = AgentRootView;

    open spec fn view(&self) -> AgentRootView {
        AgentRootView {
            name: self.name@,
            path: self.path@,
        }
    }
}

impl Clone for InboxRoot {
    fn clone(&self) -> (r: Self)
        ensures
            r == *self,
    {
        InboxRoot {
            name: self.name.clone(),
            path: self.path.clone(),
        }
    }
}

/// A received delivery.
#[derive(Debug, PartialEq, Eq)]
pub struct InboxItem {
    pub id: String,
    pub received_at_unix_ms: u64,
    pub from_device_id: String,
    pub from_device_label: String,
    pub roots: Vec<InboxRoot>,
    pub file_count: u32,
    pub directory_count: u32,
    pub total_bytes: u64,
}

/// What a [`InboxItem`] holds.
#[verifier::ext_equal]
pub struct AgentItemView {
    pub id: Seq<char>,
    pub received_at_unix_ms: u64,
    pub from_device_id: Seq<char>,
    pub from_device_label: Seq<char>,
    pub roots: Seq<AgentRootView>,
    pub file_count: u32,
    pub directory_count: u32,
    pub total_bytes: u64,
}

impl View for InboxItem {
    type V = AgentItemView;

    open spec fn view(&self) -> AgentItemView {
        AgentItemView {
            id: self.id@,
            received_at_unix_ms: self.received_at_unix_ms,
            from_device_id: self.from_device_id@,
            from_device_label: self.from_device_label@,
            roots: self.roots@.map_values(|x: InboxRoot| x@),
            file_count: self.file_count,
            directory_count: self.directory_count,
            total_bytes: self.total_bytes,
        }
    }
}

impl Clone for InboxItem {
    fn clone(&self) -> (r: Self)
        ensures
            r@ == self@,
    {
        let r = InboxItem {
            id: self.id.clone(),
            received_at_unix_ms: self.received_at_unix_ms,
            from_device_id: self.from_device_id.clone(),
            from_device_label: self.from_device_label.clone(),
            roots: self.roots.clone(),
            file_count: self.file_count,
            directory_count: self.directory_count,
            total_bytes: self.total_bytes,
        };
        assert(r@.roots =~= self@.roots);
        r
    }
}

/// What happened to a relationship.
#[derive(Clone, Copy, Debug, PartialEq, Eq, Structural)]
pub enum AgentRelationshipChange {
    Trusted,
    Rotated,
    RouteUpdated,
    Revoked,
}

/// A change in a host.
#[derive(Debug, PartialEq, Eq)]
pub enum AgentEvent {
    PairingChanged { label: String, active: bool },
    RelationshipChanged { relationship_id: String, change: AgentRelationshipChange },
    InboxChanged { item_id: String },
    TransferChanged { transfer_id: String },
    TransferPathChanged { transfer_id: String, direction: TransferDirection, path: Option<AgentPathKind> },
    PendingOfferChanged { offer_id: String, pending: bool },
}

/// What a [`AgentEvent`] holds.
#[verifier::ext_equal]
pub enum CoreEventView {
    PairingChanged { label: Seq<char>, active: bool },
    RelationshipChanged { relationship_id: Seq<char>, change: AgentRelationshipChange },
    InboxChanged { item_id: Seq<char> },
    TransferChanged { transfer_id: Seq<char> },
    TransferPathChanged { transfer_id: Seq<char>, direction: TransferDirection, path: Option<AgentPathKind> },
    PendingOfferChanged { offer_id: Seq<char>, pending: bool },
}

impl View for AgentEvent {
    type V = CoreEventView;

    open spec fn view(&self) -> CoreEventView {
        match *self {
            AgentEvent::PairingChanged { label, active } => CoreEventView::PairingChanged { label: label@, active },
            AgentEvent::RelationshipChanged { relationship_id, change } => CoreEventView::RelationshipChanged { relationship_id: relationship_id@, change },
            AgentEvent::InboxChanged { item_id } => CoreEventView::InboxChanged { item_id: item_id@ },
            AgentEvent::TransferChanged { transfer_id } => CoreEventView::TransferChanged { transfer_id: transfer_id@ },
            AgentEvent::TransferPathChanged { transfer_id, direction, path } => CoreEventView::TransferPathChanged { transfer_id: transfer_id@, direction, path },
            AgentEvent::PendingOfferChanged { offer_id, pending } => CoreEventView::PendingOfferChanged { offer_id: offer_id@, pending },
        }
    }
}

impl Clone for AgentEvent {
    fn clone(&self) -> (r: Self)
        ensures
            r == *self,
    {
        match self {
            AgentEvent::PairingChanged { label, active } => AgentEvent::PairingChanged { label: label.clone(), active: *active },
            AgentEvent::RelationshipChanged { relationship_id, change } => AgentEvent::RelationshipChanged { relationship_id: relationship_id.clone(), change: *change },
            AgentEvent::InboxChanged { item_id } => AgentEvent::InboxChanged { item_id: item_id.clone() },
            AgentEvent::TransferChanged { transfer_id } => AgentEvent::TransferChanged { transfer_id: transfer_id.clone() },
            AgentEvent::TransferPathChanged { transfer_id, direction, path } => AgentEvent::TransferPathChanged { transfer_id: transfer_id.clone(), direction: *direction, path: *path },
            AgentEvent::PendingOfferChanged { offer_id, pending } => AgentEvent::PendingOfferChanged { offer_id: offer_id.clone(), pending: *pending },
        }
    }
}

/// A change with its place.
#[derive(Debug, PartialEq, Eq)]
pub struct AgentEventEnvelope {
    pub protocol_version: u16,
    pub instance_id: String,
    pub sequence: u64,
    pub event: AgentEvent,
}

/// What a [`AgentEventEnvelope`] holds.
#[verifier::ext_equal]
pub struct CoreEventEnvelopeView {
    pub protocol_version: u16,
    pub instance_id: Seq<char>,
    pub sequence: u64,
    pub event: CoreEventView,
}

impl View for AgentEventEnvelope {
    type V = CoreEventEnvelopeView;

    open spec fn view(&self) -> CoreEventEnvelopeView {
        CoreEventEnvelopeView {
            protocol_version: self.protocol_version,
            instance_id: self.instance_id@,
            sequence: self.sequence,
            event: self.event@,
        }
    }
}

impl Clone for AgentEventEnvelope {
    fn clone(&self) -> (r: Self)
        ensures
            r == *self,
    {
        AgentEventEnvelope {
            protocol_version: self.protocol_version,
            instance_id: self.instance_id.clone(),
            sequence: self.sequence,
            event: self.event.clone(),
        }
    }
}

/// Everything a host shows.
#[derive(Debug, PartialEq, Eq)]
pub struct AgentSnapshot {
    pub status: AgentStatus,
    pub engine: EngineSnapshot,
    pub inbox: Vec<InboxItem>,
    pub active_paths: Vec<AgentTransferPath>,
    pub pending_offers: Vec<AgentPendingOffer>,
    pub event_cursor: AgentEventCursor,
}

/// What a [`AgentSnapshot`] holds.
#[verifier::ext_equal]
pub struct CoreSnapshotView {
    pub status: AgentStatusView,
    pub engine: EngineSnapshotView,
    pub inbox: Seq<AgentItemView>,
    pub active_paths: Seq<AgentPathView>,
    pub pending_offers: Seq<AgentOfferView>,
    pub event_cursor: AgentCursorView,
}

impl View for AgentSnapshot {
    type V = CoreSnapshotView;

    open spec fn view(&self) -> CoreSnapshotView {
        CoreSnapshotView {
            status: self.status@,
            engine: self.engine@,
            inbox: self.inbox@.map_values(|x: InboxItem| x@),
            active_paths: self.active_paths@.map_values(|x: AgentTransferPath| x@),
            pending_offers: self.pending_offers@.map_values(|x: AgentPendingOffer| x@),
            event_cursor: self.event_cursor@,
        }
    }
}

impl Clone for AgentSnapshot {
    fn clone(&self) -> (r: Self)
        ensures
            r@ == self@,
    {
        let r = AgentSnapshot {
            status: self.status.clone(),
            engine: self.engine.clone(),
            inbox: self.inbox.clone(),
            active_paths: self.active_paths.clone(),
            pending_offers: self.pending_offers.clone(),
            event_cursor: self.event_cursor.clone(),
        };
        assert(r@.inbox =~= self@.inbox);
        assert(r@.active_paths =~= self@.active_paths);
        assert(r@.pending_offers =~= self@.pending_offers);
        r
    }
}

/// A control response.
#[derive(PartialEq, Eq)]
pub enum AgentResponse {
    Status { status: AgentStatus },
    Pairing { pairing: PairingInvitation },
    DevicePaired { device: DeviceSummary },
    Devices { devices: Vec<DeviceSummary> },
    DeviceRevoked { device: DeviceSummary },
    DeviceRouteUpdated { device: DeviceSummary },
    TransferCreated { transfer: TransferRecord },
    Transfers { transfers: Vec<TransferRecord> },
    TransferPaths { paths: Vec<AgentTransferPath> },
    Transfer { transfer: TransferRecord },
    PendingOffers { offers: Vec<AgentPendingOffer> },
    PendingOfferDecided { offer: AgentPendingOffer, decision: AgentOfferDecision },
    Inbox { items: Vec<InboxItem> },
    Latest { item: Option<InboxItem> },
    Snapshot { snapshot: AgentSnapshot },
    Events { cursor: AgentEventCursor, events: Vec<AgentEventEnvelope> },
    SnapshotRequired { cursor: AgentEventCursor },
    Diagnostics { diagnostics: AgentDiagnostics },
    Error { code: String, message: String },
}

/// What a [`AgentResponse`] holds.
#[verifier::ext_equal]
pub enum CoreResponseView {
    Status { status: AgentStatusView },
    Pairing { pairing: AgentPairingView },
    DevicePaired { device: AgentDeviceView },
    Devices { devices: Seq<AgentDeviceView> },
    DeviceRevoked { device: AgentDeviceView },
    DeviceRouteUpdated { device: AgentDeviceView },
    TransferCreated { transfer: TransferRecordView },
    Transfers { transfers: Seq<TransferRecordView> },
    TransferPaths { paths: Seq<AgentPathView> },
    Transfer { transfer: TransferRecordView },
    PendingOffers { offers: Seq<AgentOfferView> },
    PendingOfferDecided { offer: AgentOfferView, decision: AgentOfferDecision },
    Inbox { items: Seq<AgentItemView> },
    Latest { item: Option<AgentItemView> },
    Snapshot { snapshot: CoreSnapshotView },
    Events { cursor: AgentCursorView, events: Seq<CoreEventEnvelopeView> },
    SnapshotRequired { cursor: AgentCursorView },
    Diagnostics { diagnostics: AgentDiagnosticsView },
    Error { code: Seq<char>, message: Seq<char> },
}

impl View for AgentResponse {
    type V = CoreResponseView;

    open spec fn view(&self) -> CoreResponseView {
        match *self {
            AgentResponse::Status { status } => CoreResponseView::Status { status: status@ },
            AgentResponse::Pairing { pairing } => CoreResponseView::Pairing { pairing: pairing@ },
            AgentResponse::DevicePaired { device } => CoreResponseView::DevicePaired { device: device@ },
            AgentResponse::Devices { devices } => CoreResponseView::Devices { devices: devices@.map_values(|x: DeviceSummary| x@) },
            AgentResponse::DeviceRevoked { device } => CoreResponseView::DeviceRevoked { device: device@ },
            AgentResponse::DeviceRouteUpdated { device } => CoreResponseView::DeviceRouteUpdated { device: device@ },
            AgentResponse::TransferCreated { transfer } => CoreResponseView::TransferCreated { transfer: transfer@ },
            AgentResponse::Transfers { transfers } => CoreResponseView::Transfers { transfers: transfers@.map_values(|x: TransferRecord| x@) },
            AgentResponse::TransferPaths { paths } => CoreResponseView::TransferPaths { paths: paths@.map_values(|x: AgentTransferPath| x@) },
            AgentResponse::Transfer { transfer } => CoreResponseView::Transfer { transfer: transfer@ },
            AgentResponse::PendingOffers { offers } => CoreResponseView::PendingOffers { offers: offers@.map_values(|x: AgentPendingOffer| x@) },
            AgentResponse::PendingOfferDecided { offer, decision } => CoreResponseView::PendingOfferDecided { offer: offer@, decision },
            AgentResponse::Inbox { items } => CoreResponseView::Inbox { items: items@.map_values(|x: InboxItem| x@) },
            AgentResponse::Latest { item } => CoreResponseView::Latest { item: match item { Some(x) => Some(x@), None => None } },
            AgentResponse::Snapshot { snapshot } => CoreResponseView::Snapshot { snapshot: snapshot@ },
            AgentResponse::Events { cursor, events } => CoreResponseView::Events { cursor: cursor@, events: events@.map_values(|x: AgentEventEnvelope| x@) },
            AgentResponse::SnapshotRequired { cursor } => CoreResponseView::SnapshotRequired { cursor: cursor@ },
            AgentResponse::Diagnostics { diagnostics } => CoreResponseView::Diagnostics { diagnostics: diagnostics@ },
            AgentResponse::Error { code, message } => CoreResponseView::Error { code: code@, message: message@ },
        }
    }
}

impl Clone for AgentResponse {
    fn clone(&self) -> (r: Self)
        ensures
            r@ == self@,
    {
        let r = match self {
            AgentResponse::Status { status } => AgentResponse::Status { status: status.clone() },
            AgentResponse::Pairing { pairing } => AgentResponse::Pairing { pairing: pairing.clone() },
            AgentResponse::DevicePaired { device } => AgentResponse::DevicePaired { device: device.clone() },
            AgentResponse::Devices { devices } => AgentResponse::Devices { devices: devices.clone() },
            AgentResponse::DeviceRevoked { device } => AgentResponse::DeviceRevoked { device: device.clone() },
            AgentResponse::DeviceRouteUpdated { device } => AgentResponse::DeviceRouteUpdated { device: device.clone() },
            AgentResponse::TransferCreated { transfer } => AgentResponse::TransferCreated { transfer: transfer.clone() },
            AgentResponse::Transfers { transfers } => AgentResponse::Transfers { transfers: transfers.clone() },
            AgentResponse::TransferPaths { paths } => AgentResponse::TransferPaths { paths: paths.clone() },
            AgentResponse::Transfer { transfer } => AgentResponse::Transfer { transfer: transfer.clone() },
            AgentResponse::PendingOffers { offers } => AgentResponse::PendingOffers { offers: offers.clone() },
            AgentResponse::PendingOfferDecided { offer, decision } => AgentResponse::PendingOfferDecided { offer: offer.clone(), decision: *decision },
            AgentResponse::Inbox { items } => AgentResponse::Inbox { items: items.clone() },
            AgentResponse::Latest { item } => AgentResponse::Latest { item: item.clone() },
            AgentResponse::Snapshot { snapshot } => AgentResponse::Snapshot { snapshot: snapshot.clone() },
            AgentResponse::Events { cursor, events } => AgentResponse::Events { cursor: cursor.clone(), events: events.clone() },
            AgentResponse::SnapshotRequired { cursor } => AgentResponse::SnapshotRequired { cursor: cursor.clone() },
            AgentResponse::Diagnostics { diagnostics } => AgentResponse::Diagnostics { diagnostics: diagnostics.clone() },
            AgentResponse::Error { code, message } => AgentResponse::Error { code: code.clone(), message: message.clone() },
        };
        assert(r@ =~= self@);
        r
    }
}

/// Kind of an input or output error.
#[derive(Clone, Copy, Debug, PartialEq, Eq, Structural)]
pub enum IoErrorKind {
    InvalidInput,
    PermissionDenied,
    NotFound,
    ConnectionRefused,
    ConnectionReset,
    ConnectionAborted,
    NotConnected,
    BrokenPipe,
    TimedOut,
    Unsupported,
    InvalidData,
    UnexpectedEof,
    Other,
}

/// An input or output error.
#[derive(Debug, PartialEq, Eq)]
pub struct IoFailure {
    pub kind: IoErrorKind,
    pub message: String,
}

/// What a [`IoFailure`] holds.
#[verifier::ext_equal]
pub struct IoFailureView {
    pub kind: IoErrorKind,
    pub message: Seq<char>,
}

impl View for IoFailure {
    type V = IoFailureView;

    open spec fn view(&self) -> IoFailureView {
        IoFailureView {
            kind: self.kind,
            message: self.message@,
        }
    }
}

impl Clone for IoFailure {
    fn clone(&self) -> (r: Self)
        ensures
            r == *self,
    {
        IoFailure {
            kind: self.kind,
            message: self.message.clone(),
        }
    }
}

} // verus!
