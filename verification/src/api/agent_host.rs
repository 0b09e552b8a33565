//! The durable desktop agent host and its local control client: the checks and
//! projections on both sides of the control transport, and what a host's
//! lifecycle means for those who wait for it.
use vstd::prelude::*;
use vstd::string::*;
use vstd::utf8::encode_utf8;

use crate::api::agent_engine::{
    AgentControlTransport, AgentCredentialProtection, AgentCursorView, AgentDeviceView,
    AgentDiagnostics, AgentDiagnosticsView, AgentEvent, AgentEventCursor, AgentEventEnvelope,
    AgentHostErrorCode, AgentHostFailure, AgentHostFailureView, AgentHostLifecycleState,
    AgentItemView, AgentLifecycleView, AgentOfferDecision, AgentOfferView, AgentPairingInput,
    AgentPairingInputView, AgentPairingView, AgentPathKind, AgentPathView, AgentPendingOffer,
    AgentRelationshipChange, AgentRequest, AgentResponse, AgentRootView, AgentSnapshot,
    AgentStatus, AgentStatusView, AgentTransferPath, CoreEventEnvelopeView, CoreEventView,
    CoreRequestView, CoreResponseView, CoreSnapshotView, DeviceSummary, InboxItem, InboxRoot,
    IoErrorKind, IoFailure, IoFailureView, PairingInvitation,
};
use crate::api::agent_types::{
    AgentEventEnvelopeView, AgentEventView, AgentRequestView, AgentResponseView, AgentSnapshotView,
    ControlErrorView, CursorView, DeviceSummaryView, DiagnosticsView, FfiAgentControlError,
    FfiAgentControlErrorCode, FfiAgentControlTransport, FfiAgentCredentialProtection,
    FfiAgentDeviceSummary, FfiAgentDiagnostics, FfiAgentEvent, FfiAgentEventCursor,
    FfiAgentEventEnvelope, FfiAgentHostConfiguration, FfiAgentHostError, FfiAgentHostErrorCode,
    FfiAgentHostFailure, FfiAgentHostLifecycleState, FfiAgentHostReady, FfiAgentInboxItem,
    FfiAgentInboxRoot, FfiAgentOfferDecision, FfiAgentPairingInput, FfiAgentPairingInvitation,
    FfiAgentPathKind, FfiAgentPendingOffer, FfiAgentRelationshipChange, FfiAgentRequest,
    FfiAgentResponse, FfiAgentSnapshot, FfiAgentStatus, FfiAgentTransferPath, HostErrorView,
    HostFailureView, HostReadyView, InboxItemView, InboxRootView, LifecycleView, PairingInputView,
    PairingInvitationView, PendingOfferView, StatusView, TransferPathView,
};
use crate::api::contract::{FfiApplicationTransfer, TransferView};
use crate::api::contract_engine::{TransferRecord, TransferRecordView};
use crate::api::contract_map::{
    ffi_direction, ffi_direction_of, ffi_snapshot, ffi_snapshot_of, ffi_transfer, ffi_transfer_of,
};
use crate::text::{
    byte_len, char_list, contains_control, contains_text, has_control, joined, occurs_in, text_seq,
};

verus! {

broadcast use vstd::seq_lib::group_seq_properties;

/// A failed control request.
pub fn control_failure(code: FfiAgentControlErrorCode, reason: &str) -> (r: FfiAgentControlError)
    ensures
        r@ == (ControlErrorView::Failed { code, reason: reason@ }),
{
    FfiAgentControlError::Failed { code, reason: reason.to_owned() }
}

/// A failed host.
pub fn host_failure(code: FfiAgentHostErrorCode, reason: &str) -> (r: FfiAgentHostError)
    ensures
        r@ == (HostErrorView::Failed { code, reason: reason@ }),
{
    FfiAgentHostError::Failed { code, reason: reason.to_owned() }
}

/// The code under which an input or output error is reported.
pub open spec fn control_code_of(error: IoFailureView) -> FfiAgentControlErrorCode {
    match error.kind {
        IoErrorKind::InvalidInput => FfiAgentControlErrorCode::InvalidInput,
        IoErrorKind::PermissionDenied => FfiAgentControlErrorCode::PermissionDenied,
        IoErrorKind::NotFound
        | IoErrorKind::ConnectionRefused
        | IoErrorKind::ConnectionReset
        | IoErrorKind::ConnectionAborted
        | IoErrorKind::NotConnected
        | IoErrorKind::BrokenPipe
        | IoErrorKind::TimedOut => FfiAgentControlErrorCode::Unavailable,
        IoErrorKind::Unsupported => if occurs_in("unsupported Agent protocol"@, error.message) {
            FfiAgentControlErrorCode::IncompatibleProtocol
        } else {
            FfiAgentControlErrorCode::UnsupportedPlatform
        },
        IoErrorKind::InvalidData
        | IoErrorKind::UnexpectedEof => FfiAgentControlErrorCode::InvalidResponse,
        IoErrorKind::Other => FfiAgentControlErrorCode::IoFailure,
    }
}

/// The control failure that an input or output error is reported as.
pub open spec fn control_error_of(error: IoFailureView) -> ControlErrorView {
    ControlErrorView::Failed { code: control_code_of(error), reason: error.message }
}

/// Reports an input or output error of the control transport.
pub fn control_io_error(error: &IoFailure) -> (r: FfiAgentControlError)
    ensures
        r@ == control_error_of(error@),
{
    let code = match error.kind {
        IoErrorKind::InvalidInput => FfiAgentControlErrorCode::InvalidInput,
        IoErrorKind::PermissionDenied => FfiAgentControlErrorCode::PermissionDenied,
        IoErrorKind::NotFound
        | IoErrorKind::ConnectionRefused
        | IoErrorKind::ConnectionReset
        | IoErrorKind::ConnectionAborted
        | IoErrorKind::NotConnected
        | IoErrorKind::BrokenPipe
        | IoErrorKind::TimedOut => FfiAgentControlErrorCode::Unavailable,
        IoErrorKind::Unsupported => if contains_text(
            error.message.as_str(),
            "unsupported Agent protocol",
        ) {
            FfiAgentControlErrorCode::IncompatibleProtocol
        } else {
            FfiAgentControlErrorCode::UnsupportedPlatform
        },
        IoErrorKind::InvalidData
        | IoErrorKind::UnexpectedEof => FfiAgentControlErrorCode::InvalidResponse,
        IoErrorKind::Other => FfiAgentControlErrorCode::IoFailure,
    };
    control_failure(code, error.message.as_str())
}

/// What a platform offers for the control endpoint.
#[derive(Clone, Copy, Debug, PartialEq, Eq, Structural)]
pub enum HostPlatform {
    UnixSocket,
    WindowsNamedPipe,
    Unsupported,
}

/// Longest control endpoint, in bytes.
pub const MAX_CONTROL_ENDPOINT_BYTES: usize = 4096;

/// Whether an endpoint is a bounded visible path.
pub open spec fn is_visible_endpoint(endpoint: Seq<char>) -> bool {
    &&& endpoint.len() > 0
    &&& encode_utf8(endpoint).len() <= MAX_CONTROL_ENDPOINT_BYTES
    &&& !has_control(endpoint)
}

/// Why an endpoint is refused, if it is.
pub open spec fn endpoint_refusal(endpoint: Seq<char>, platform: HostPlatform, absolute: bool) -> Option<
    ControlErrorView,
> {
    if !is_visible_endpoint(endpoint) {
        Some(
            ControlErrorView::Failed {
                code: FfiAgentControlErrorCode::InvalidInput,
                reason: "Agent control endpoint must be a bounded visible path"@,
            },
        )
    } else if platform == HostPlatform::UnixSocket && !absolute {
        Some(
            ControlErrorView::Failed {
                code: FfiAgentControlErrorCode::InvalidInput,
                reason: "Agent control endpoint must be absolute"@,
            },
        )
    } else {
        None
    }
}

/// The view of a check.
pub open spec fn check_view(result: Result<(), FfiAgentControlError>) -> Option<ControlErrorView> {
    match result {
        Ok(_) => None,
        Err(error) => Some(error@),
    }
}

/// Checks a control endpoint; `absolute` tells whether it is an absolute path,
/// which sockets of the file system ask for.
pub fn check_control_endpoint(endpoint: &str, platform: HostPlatform, absolute: bool) -> (r: Result<
    (),
    FfiAgentControlError,
>)
    ensures
        check_view(r) == endpoint_refusal(endpoint@, platform, absolute),
{
    if endpoint.is_empty() || byte_len(endpoint) > MAX_CONTROL_ENDPOINT_BYTES || contains_control(
        endpoint,
    ) {
        return Err(
            control_failure(
                FfiAgentControlErrorCode::InvalidInput,
                "Agent control endpoint must be a bounded visible path",
            ),
        );
    }
    if platform == HostPlatform::UnixSocket && !absolute {
        return Err(
            control_failure(
                FfiAgentControlErrorCode::InvalidInput,
                "Agent control endpoint must be absolute",
            ),
        );
    }
    Ok(())
}

/// Whether a path is absolute where sockets lie in the file system, on Linux and
/// macOS: it starts with the root.
pub open spec fn is_socket_path(path: Seq<char>) -> bool {
    path.len() > 0 && path[0] == '/'
}

fn starts_at_root(path: &str) -> (r: bool)
    ensures
        r == is_socket_path(path@),
{
    let chars = char_list(path);
    chars.len() > 0 && chars[0] == '/'
}

/// Checks a control endpoint.
pub fn validate_control_endpoint(endpoint: &str, platform: HostPlatform) -> (r: Result<
    (),
    FfiAgentControlError,
>)
    ensures
        check_view(r) == endpoint_refusal(endpoint@, platform, is_socket_path(endpoint@)),
{
    check_control_endpoint(endpoint, platform, starts_at_root(endpoint))
}

/// Whether a count fits the platform's word.
pub open spec fn bounded(value: u64, name: Seq<char>) -> Result<usize, ControlErrorView> {
    if value <= usize::MAX {
        Ok(value as usize)
    } else {
        Err(
            ControlErrorView::Failed {
                code: FfiAgentControlErrorCode::InvalidInput,
                reason: "Agent "@ + name + " does not fit this platform"@,
            },
        )
    }
}

/// A count in the platform's word.
pub fn bounded_usize(value: u64, name: &str) -> (r: Result<usize, FfiAgentControlError>)
    ensures
        (match r {
            Ok(n) => Ok(n),
            Err(error) => Err(error@),
        }) == bounded(value, name@),
{
    if value <= usize::MAX as u64 {
        Ok(value as usize)
    } else {
        Err(
            control_failure(
                FfiAgentControlErrorCode::InvalidInput,
                joined("Agent ", name).concat(" does not fit this platform").as_str(),
            ),
        )
    }
}

/// The [`AgentOfferDecision`] that stands for a [`FfiAgentOfferDecision`].
pub open spec fn core_decision_of(value: FfiAgentOfferDecision) -> AgentOfferDecision {
    match value {
        FfiAgentOfferDecision::Approve => AgentOfferDecision::Approve,
        FfiAgentOfferDecision::Reject => AgentOfferDecision::Reject,
    }
}

/// The agent form of an answer.
pub fn core_offer_decision(value: FfiAgentOfferDecision) -> (r: AgentOfferDecision)
    ensures
        r == core_decision_of(value),
{
    match value {
        FfiAgentOfferDecision::Approve => AgentOfferDecision::Approve,
        FfiAgentOfferDecision::Reject => AgentOfferDecision::Reject,
    }
}

/// The [`FfiAgentOfferDecision`] that stands for a [`AgentOfferDecision`].
pub open spec fn ffi_decision_of(value: AgentOfferDecision) -> FfiAgentOfferDecision {
    match value {
        AgentOfferDecision::Approve => FfiAgentOfferDecision::Approve,
        AgentOfferDecision::Reject => FfiAgentOfferDecision::Reject,
    }
}

/// Projects an answer.
pub fn ffi_offer_decision(value: AgentOfferDecision) -> (r: FfiAgentOfferDecision)
    ensures
        r == ffi_decision_of(value),
{
    match value {
        AgentOfferDecision::Approve => FfiAgentOfferDecision::Approve,
        AgentOfferDecision::Reject => FfiAgentOfferDecision::Reject,
    }
}

/// The [`FfiAgentPathKind`] that stands for a [`AgentPathKind`].
pub open spec fn ffi_path_kind_of(value: AgentPathKind) -> FfiAgentPathKind {
    match value {
        AgentPathKind::Lan => FfiAgentPathKind::Lan,
        AgentPathKind::Direct => FfiAgentPathKind::Direct,
        AgentPathKind::Relay => FfiAgentPathKind::Relay,
        AgentPathKind::WifiAware => FfiAgentPathKind::WifiAware,
        AgentPathKind::Other => FfiAgentPathKind::Other,
    }
}

/// Projects the class of a path.
pub fn ffi_path_kind(value: AgentPathKind) -> (r: FfiAgentPathKind)
    ensures
        r == ffi_path_kind_of(value),
{
    match value {
        AgentPathKind::Lan => FfiAgentPathKind::Lan,
        AgentPathKind::Direct => FfiAgentPathKind::Direct,
        AgentPathKind::Relay => FfiAgentPathKind::Relay,
        AgentPathKind::WifiAware => FfiAgentPathKind::WifiAware,
        AgentPathKind::Other => FfiAgentPathKind::Other,
    }
}

/// The [`FfiAgentRelationshipChange`] that stands for a [`AgentRelationshipChange`].
pub open spec fn ffi_change_of(value: AgentRelationshipChange) -> FfiAgentRelationshipChange {
    match value {
        AgentRelationshipChange::Trusted => FfiAgentRelationshipChange::Trusted,
        AgentRelationshipChange::Rotated => FfiAgentRelationshipChange::Rotated,
        AgentRelationshipChange::RouteUpdated => FfiAgentRelationshipChange::RouteUpdated,
        AgentRelationshipChange::Revoked => FfiAgentRelationshipChange::Revoked,
    }
}

/// Projects a relationship change.
pub fn ffi_relationship_change(value: AgentRelationshipChange) -> (r: FfiAgentRelationshipChange)
    ensures
        r == ffi_change_of(value),
{
    match value {
        AgentRelationshipChange::Trusted => FfiAgentRelationshipChange::Trusted,
        AgentRelationshipChange::Rotated => FfiAgentRelationshipChange::Rotated,
        AgentRelationshipChange::RouteUpdated => FfiAgentRelationshipChange::RouteUpdated,
        AgentRelationshipChange::Revoked => FfiAgentRelationshipChange::Revoked,
    }
}

/// The [`FfiAgentControlTransport`] that stands for a [`AgentControlTransport`].
pub open spec fn ffi_transport_of(value: AgentControlTransport) -> FfiAgentControlTransport {
    match value {
        AgentControlTransport::UnixSocket => FfiAgentControlTransport::UnixSocket,
        AgentControlTransport::WindowsNamedPipe => FfiAgentControlTransport::WindowsNamedPipe,
    }
}

/// Projects the transport of the control endpoint.
pub fn ffi_control_transport(value: AgentControlTransport) -> (r: FfiAgentControlTransport)
    ensures
        r == ffi_transport_of(value),
{
    match value {
        AgentControlTransport::UnixSocket => FfiAgentControlTransport::UnixSocket,
        AgentControlTransport::WindowsNamedPipe => FfiAgentControlTransport::WindowsNamedPipe,
    }
}

/// The [`FfiAgentCredentialProtection`] that stands for a [`AgentCredentialProtection`].
pub open spec fn ffi_protection_of(value: AgentCredentialProtection) -> FfiAgentCredentialProtection {
    match value {
        AgentCredentialProtection::OwnerOnlyFile => FfiAgentCredentialProtection::OwnerOnlyFile,
        AgentCredentialProtection::WindowsDpapi => FfiAgentCredentialProtection::WindowsDpapi,
        AgentCredentialProtection::AppleKeychain => FfiAgentCredentialProtection::AppleKeychain,
    }
}

/// Projects a credential protection.
pub fn ffi_credential_protection(value: AgentCredentialProtection) -> (r: FfiAgentCredentialProtection)
    ensures
        r == ffi_protection_of(value),
{
    match value {
        AgentCredentialProtection::OwnerOnlyFile => FfiAgentCredentialProtection::OwnerOnlyFile,
        AgentCredentialProtection::WindowsDpapi => FfiAgentCredentialProtection::WindowsDpapi,
        AgentCredentialProtection::AppleKeychain => FfiAgentCredentialProtection::AppleKeychain,
    }
}

/// The [`AgentCredentialProtection`] that stands for a [`FfiAgentCredentialProtection`].
pub open spec fn core_protection_of(value: FfiAgentCredentialProtection) -> AgentCredentialProtection {
    match value {
        FfiAgentCredentialProtection::OwnerOnlyFile => AgentCredentialProtection::OwnerOnlyFile,
        FfiAgentCredentialProtection::WindowsDpapi => AgentCredentialProtection::WindowsDpapi,
        FfiAgentCredentialProtection::AppleKeychain => AgentCredentialProtection::AppleKeychain,
    }
}

/// The agent form of a credential protection.
pub fn core_credential_protection(value: FfiAgentCredentialProtection) -> (r: AgentCredentialProtection)
    ensures
        r == core_protection_of(value),
{
    match value {
        FfiAgentCredentialProtection::OwnerOnlyFile => AgentCredentialProtection::OwnerOnlyFile,
        FfiAgentCredentialProtection::WindowsDpapi => AgentCredentialProtection::WindowsDpapi,
        FfiAgentCredentialProtection::AppleKeychain => AgentCredentialProtection::AppleKeychain,
    }
}

/// The [`FfiAgentHostErrorCode`] that stands for a [`AgentHostErrorCode`].
pub open spec fn ffi_host_code_of(value: AgentHostErrorCode) -> FfiAgentHostErrorCode {
    match value {
        AgentHostErrorCode::InvalidConfiguration => FfiAgentHostErrorCode::InvalidConfiguration,
        AgentHostErrorCode::StateAlreadyOwned => FfiAgentHostErrorCode::StateAlreadyOwned,
        AgentHostErrorCode::UnsupportedPersistentState => FfiAgentHostErrorCode::UnsupportedPersistentState,
        AgentHostErrorCode::StateCorrupt => FfiAgentHostErrorCode::StateCorrupt,
        AgentHostErrorCode::VaultUnavailable => FfiAgentHostErrorCode::VaultUnavailable,
        AgentHostErrorCode::VaultInteractionRequired => FfiAgentHostErrorCode::VaultInteractionRequired,
        AgentHostErrorCode::VaultPermissionDenied => FfiAgentHostErrorCode::VaultPermissionDenied,
        AgentHostErrorCode::VaultCorrupt => FfiAgentHostErrorCode::VaultCorrupt,
        AgentHostErrorCode::VaultCanceled => FfiAgentHostErrorCode::VaultCanceled,
        AgentHostErrorCode::IoFailure => FfiAgentHostErrorCode::IoFailure,
        AgentHostErrorCode::Internal => FfiAgentHostErrorCode::Internal,
    }
}

/// Projects why a host failed.
pub fn ffi_host_error_code(value: AgentHostErrorCode) -> (r: FfiAgentHostErrorCode)
    ensures
        r == ffi_host_code_of(value),
{
    match value {
        AgentHostErrorCode::InvalidConfiguration => FfiAgentHostErrorCode::InvalidConfiguration,
        AgentHostErrorCode::StateAlreadyOwned => FfiAgentHostErrorCode::StateAlreadyOwned,
        AgentHostErrorCode::UnsupportedPersistentState => FfiAgentHostErrorCode::UnsupportedPersistentState,
        AgentHostErrorCode::StateCorrupt => FfiAgentHostErrorCode::StateCorrupt,
        AgentHostErrorCode::VaultUnavailable => FfiAgentHostErrorCode::VaultUnavailable,
        AgentHostErrorCode::VaultInteractionRequired => FfiAgentHostErrorCode::VaultInteractionRequired,
        AgentHostErrorCode::VaultPermissionDenied => FfiAgentHostErrorCode::VaultPermissionDenied,
        AgentHostErrorCode::VaultCorrupt => FfiAgentHostErrorCode::VaultCorrupt,
        AgentHostErrorCode::VaultCanceled => FfiAgentHostErrorCode::VaultCanceled,
        AgentHostErrorCode::IoFailure => FfiAgentHostErrorCode::IoFailure,
        AgentHostErrorCode::Internal => FfiAgentHostErrorCode::Internal,
    }
}

/// A count in a fixed width.
pub open spec fn wide_of(n: usize) -> u64 {
    n as u64
}

fn wide(n: usize) -> (r: u64)
    ensures
        r == wide_of(n),
{
    n as u64
}

/// [`ffi_path_kind_of`], where there is a value.
pub open spec fn ffi_optional_path_of(value: Option<AgentPathKind>) -> Option<FfiAgentPathKind> {
    match value {
        Some(x) => Some(ffi_path_kind_of(x)),
        None => None,
    }
}

fn ffi_optional_path(value: Option<AgentPathKind>) -> (r: Option<FfiAgentPathKind>)
    ensures
        r == ffi_optional_path_of(value),
{
    match value {
        Some(x) => Some(ffi_path_kind(x)),
        None => None,
    }
}

/// The [`FfiAgentStatus`] that stands for a [`AgentStatus`].
pub open spec fn ffi_agent_status_of(value: AgentStatusView) -> StatusView {
    StatusView {
        protocol_version: value.protocol_version,
        pid: value.pid,
        device_name: value.device_name,
        state_directory: value.state_directory,
        inbox_directory: value.inbox_directory,
        broker: value.broker,
        relay: value.relay,
        paired_devices: wide_of(value.paired_devices),
        active_receivers: wide_of(value.active_receivers),
        active_pairings: wide_of(value.active_pairings),
        active_paths: wide_of(value.active_paths),
        pending_offers: wide_of(value.pending_offers),
    }
}

/// Projects a host's state.
pub fn ffi_agent_status(value: &AgentStatus) -> (r: FfiAgentStatus)
    ensures
        r@ == ffi_agent_status_of(value@),
{
    FfiAgentStatus {
        protocol_version: value.protocol_version,
        pid: value.pid,
        device_name: value.device_name.clone(),
        state_directory: value.state_directory.clone(),
        inbox_directory: value.inbox_directory.clone(),
        broker: value.broker.clone(),
        relay: value.relay.clone(),
        paired_devices: wide(value.paired_devices),
        active_receivers: wide(value.active_receivers),
        active_pairings: wide(value.active_pairings),
        active_paths: wide(value.active_paths),
        pending_offers: wide(value.pending_offers),
    }
}

/// The [`FfiAgentPairingInvitation`] that stands for a [`PairingInvitation`].
pub open spec fn ffi_pairing_of(value: AgentPairingView) -> PairingInvitationView {
    PairingInvitationView {
        label: value.label,
        room_code: value.room_code,
        verification_code: value.verification_code,
        expires_at_unix_seconds: value.expires_at_unix_seconds,
    }
}

/// Projects a pairing that waits for its peer.
pub fn ffi_pairing_invitation(value: &PairingInvitation) -> (r: FfiAgentPairingInvitation)
    ensures
        r@ == ffi_pairing_of(value@),
{
    FfiAgentPairingInvitation {
        label: value.label.clone(),
        room_code: value.room_code.clone(),
        verification_code: value.verification_code.clone(),
        expires_at_unix_seconds: value.expires_at_unix_seconds,
    }
}

/// The [`FfiAgentDeviceSummary`] that stands for a [`DeviceSummary`].
pub open spec fn ffi_device_summary_of(value: AgentDeviceView) -> DeviceSummaryView {
    DeviceSummaryView {
        id: value.id,
        label: value.label,
        generation: value.generation,
        previous_generation: value.previous_generation,
        broker: value.broker,
        relay: value.relay,
    }
}

/// Projects a paired device.
pub fn ffi_device_summary(value: &DeviceSummary) -> (r: FfiAgentDeviceSummary)
    ensures
        r@ == ffi_device_summary_of(value@),
{
    FfiAgentDeviceSummary {
        id: value.id.clone(),
        label: value.label.clone(),
        generation: value.generation,
        previous_generation: value.previous_generation,
        broker: value.broker.clone(),
        relay: value.relay.clone(),
    }
}

/// The [`FfiAgentTransferPath`] that stands for a [`AgentTransferPath`].
pub open spec fn ffi_transfer_path_of(value: AgentPathView) -> TransferPathView {
    TransferPathView {
        transfer_id: value.transfer_id,
        direction: ffi_direction_of(value.direction),
        path: ffi_path_kind_of(value.path),
    }
}

/// Projects the data path of a transfer.
pub fn ffi_transfer_path(value: &AgentTransferPath) -> (r: FfiAgentTransferPath)
    ensures
        r@ == ffi_transfer_path_of(value@),
{
    FfiAgentTransferPath {
        transfer_id: value.transfer_id.clone(),
        direction: ffi_direction(value.direction),
        path: ffi_path_kind(value.path),
    }
}

/// The native form of an offer.
pub open spec fn ffi_pending_offer_of(offer: AgentOfferView) -> PendingOfferView {
    PendingOfferView {
        offer_id: offer.offer_id,
        from_device_id: offer.from_device_id,
        from_device_label: offer.from_device_label,
        root_names: offer.root_names,
        item_count: offer.item_count,
        directory_count: offer.directory_count,
        total_bytes: offer.total_bytes,
        allocatable_bytes: offer.allocatable_bytes,
    }
}

/// Projects an offer that waits for an answer.
pub fn ffi_pending_offer(offer: &AgentPendingOffer) -> (r: FfiAgentPendingOffer)
    ensures
        r@ == ffi_pending_offer_of(offer@),
{
    let root_names = offer.root_names.clone();
    assert(text_seq(root_names@) =~= text_seq(offer.root_names@));
    FfiAgentPendingOffer {
        offer_id: offer.offer_id.clone(),
        from_device_id: offer.from_device_id.clone(),
        from_device_label: offer.from_device_label.clone(),
        root_names,
        item_count: offer.item_count,
        directory_count: offer.directory_count,
        total_bytes: offer.total_bytes,
        allocatable_bytes: offer.allocatable_bytes,
    }
}

/// The [`FfiAgentInboxRoot`] that stands for a [`InboxRoot`].
pub open spec fn ffi_inbox_root_of(value: AgentRootView) -> InboxRootView {
    InboxRootView {
        name: value.name,
        path: value.path,
    }
}

/// Projects a received root.
pub fn ffi_inbox_root(value: &InboxRoot) -> (r: FfiAgentInboxRoot)
    ensures
        r@ == ffi_inbox_root_of(value@),
{
    FfiAgentInboxRoot {
        name: value.name.clone(),
        path: value.path.clone(),
    }
}

/// [`ffi_inbox_root_of`] of every item, in their order.
pub open spec fn ffi_inbox_roots_of(items: Seq<AgentRootView>) -> Seq<InboxRootView> {
    items.map_values(|x: AgentRootView| ffi_inbox_root_of(x))
}

/// Projects received roots, in their order.
pub fn ffi_inbox_roots(items: &Vec<InboxRoot>) -> (r: Vec<FfiAgentInboxRoot>)
    ensures
        r@.map_values(|x: FfiAgentInboxRoot| x@) == ffi_inbox_roots_of(items@.map_values(|x: InboxRoot| x@)),
{
    let mut list: Vec<FfiAgentInboxRoot> = Vec::new();
    let mut i: usize = 0;
    while i < items.len()
        invariant
            i <= items@.len(),
            list@.len() == i,
            forall|k: int| 0 <= k < i ==> (#[trigger] list@[k])@ == ffi_inbox_root_of(items@[k]@),
        decreases items@.len() - i,
    {
        list.push(ffi_inbox_root(&items[i]));
        i += 1;
    }
    assert(list@.map_values(|x: FfiAgentInboxRoot| x@) =~= ffi_inbox_roots_of(items@.map_values(|x: InboxRoot| x@)));
    list
}

/// The [`FfiAgentInboxItem`] that stands for a [`InboxItem`].
pub open spec fn ffi_inbox_item_of(value: AgentItemView) -> InboxItemView {
    InboxItemView {
        id: value.id,
        received_at_unix_ms: value.received_at_unix_ms,
        from_device_id: value.from_device_id,
        from_device_label: value.from_device_label,
        roots: ffi_inbox_roots_of(value.roots),
        file_count: value.file_count,
        directory_count: value.directory_count,
        total_bytes: value.total_bytes,
    }
}

/// Projects a received delivery.
pub fn ffi_inbox_item(value: &InboxItem) -> (r: FfiAgentInboxItem)
    ensures
        r@ == ffi_inbox_item_of(value@),
{
    FfiAgentInboxItem {
        id: value.id.clone(),
        received_at_unix_ms: value.received_at_unix_ms,
        from_device_id: value.from_device_id.clone(),
        from_device_label: value.from_device_label.clone(),
        roots: ffi_inbox_roots(&value.roots),
        file_count: value.file_count,
        directory_count: value.directory_count,
        total_bytes: value.total_bytes,
    }
}

/// [`ffi_inbox_item_of`] of every item, in their order.
pub open spec fn ffi_inbox_items_of(items: Seq<AgentItemView>) -> Seq<InboxItemView> {
    items.map_values(|x: AgentItemView| ffi_inbox_item_of(x))
}

/// Projects received deliveries, in their order.
pub fn ffi_inbox_items(items: &Vec<InboxItem>) -> (r: Vec<FfiAgentInboxItem>)
    ensures
        r@.map_values(|x: FfiAgentInboxItem| x@) == ffi_inbox_items_of(items@.map_values(|x: InboxItem| x@)),
{
    let mut list: Vec<FfiAgentInboxItem> = Vec::new();
    let mut i: usize = 0;
    while i < items.len()
        invariant
            i <= items@.len(),
            list@.len() == i,
            forall|k: int| 0 <= k < i ==> (#[trigger] list@[k])@ == ffi_inbox_item_of(items@[k]@),
        decreases items@.len() - i,
    {
        list.push(ffi_inbox_item(&items[i]));
        i += 1;
    }
    assert(list@.map_values(|x: FfiAgentInboxItem| x@) =~= ffi_inbox_items_of(items@.map_values(|x: InboxItem| x@)));
    list
}

/// [`ffi_inbox_item_of`], where there is a value.
pub open spec fn ffi_optional_item_of(value: Option<AgentItemView>) -> Option<InboxItemView> {
    match value {
        Some(x) => Some(ffi_inbox_item_of(x)),
        None => None,
    }
}

fn ffi_optional_item(value: &Option<InboxItem>) -> (r: Option<FfiAgentInboxItem>)
    ensures
        (match r {
            Some(x) => Some(x@),
            None => None,
        }) == ffi_optional_item_of(
            match *value {
                Some(x) => Some(x@),
                None => None,
            },
        ),
{
    match value {
        Some(x) => Some(ffi_inbox_item(x)),
        None => None,
    }
}

/// [`ffi_device_summary_of`] of every item, in their order.
pub open spec fn ffi_device_summaries_of(items: Seq<AgentDeviceView>) -> Seq<DeviceSummaryView> {
    items.map_values(|x: AgentDeviceView| ffi_device_summary_of(x))
}

/// Projects paired devices, in their order.
pub fn ffi_device_summaries(items: &Vec<DeviceSummary>) -> (r: Vec<FfiAgentDeviceSummary>)
    ensures
        r@.map_values(|x: FfiAgentDeviceSummary| x@) == ffi_device_summaries_of(items@.map_values(|x: DeviceSummary| x@)),
{
    let mut list: Vec<FfiAgentDeviceSummary> = Vec::new();
    let mut i: usize = 0;
    while i < items.len()
        invariant
            i <= items@.len(),
            list@.len() == i,
            forall|k: int| 0 <= k < i ==> (#[trigger] list@[k])@ == ffi_device_summary_of(items@[k]@),
        decreases items@.len() - i,
    {
        list.push(ffi_device_summary(&items[i]));
        i += 1;
    }
    assert(list@.map_values(|x: FfiAgentDeviceSummary| x@) =~= ffi_device_summaries_of(items@.map_values(|x: DeviceSummary| x@)));
    list
}

/// [`ffi_transfer_of`] of every item, in their order.
pub open spec fn ffi_transfer_list_of(items: Seq<TransferRecordView>) -> Seq<TransferView> {
    items.map_values(|x: TransferRecordView| ffi_transfer_of(x))
}

/// Projects transfers, in their order.
pub fn ffi_transfer_list(items: &Vec<TransferRecord>) -> (r: Vec<FfiApplicationTransfer>)
    ensures
        r@.map_values(|x: FfiApplicationTransfer| x@) == ffi_transfer_list_of(items@.map_values(|x: TransferRecord| x@)),
{
    let mut list: Vec<FfiApplicationTransfer> = Vec::new();
    let mut i: usize = 0;
    while i < items.len()
        invariant
            i <= items@.len(),
            list@.len() == i,
            forall|k: int| 0 <= k < i ==> (#[trigger] list@[k])@ == ffi_transfer_of(items@[k]@),
        decreases items@.len() - i,
    {
        list.push(ffi_transfer(&items[i]));
        i += 1;
    }
    assert(list@.map_values(|x: FfiApplicationTransfer| x@) =~= ffi_transfer_list_of(items@.map_values(|x: TransferRecord| x@)));
    list
}

/// [`ffi_transfer_path_of`] of every item, in their order.
pub open spec fn ffi_transfer_paths_of(items: Seq<AgentPathView>) -> Seq<TransferPathView> {
    items.map_values(|x: AgentPathView| ffi_transfer_path_of(x))
}

/// Projects data paths, in their order.
pub fn ffi_transfer_paths(items: &Vec<AgentTransferPath>) -> (r: Vec<FfiAgentTransferPath>)
    ensures
        r@.map_values(|x: FfiAgentTransferPath| x@) == ffi_transfer_paths_of(items@.map_values(|x: AgentTransferPath| x@)),
{
    let mut list: Vec<FfiAgentTransferPath> = Vec::new();
    let mut i: usize = 0;
    while i < items.len()
        invariant
            i <= items@.len(),
            list@.len() == i,
            forall|k: int| 0 <= k < i ==> (#[trigger] list@[k])@ == ffi_transfer_path_of(items@[k]@),
        decreases items@.len() - i,
    {
        list.push(ffi_transfer_path(&items[i]));
        i += 1;
    }
    assert(list@.map_values(|x: FfiAgentTransferPath| x@) =~= ffi_transfer_paths_of(items@.map_values(|x: AgentTransferPath| x@)));
    list
}

/// [`ffi_pending_offer_of`] of every item, in their order.
pub open spec fn ffi_pending_offers_of(items: Seq<AgentOfferView>) -> Seq<PendingOfferView> {
    items.map_values(|x: AgentOfferView| ffi_pending_offer_of(x))
}

/// Projects offers, in their order.
pub fn ffi_pending_offers(items: &Vec<AgentPendingOffer>) -> (r: Vec<FfiAgentPendingOffer>)
    ensures
        r@.map_values(|x: FfiAgentPendingOffer| x@) == ffi_pending_offers_of(items@.map_values(|x: AgentPendingOffer| x@)),
{
    let mut list: Vec<FfiAgentPendingOffer> = Vec::new();
    let mut i: usize = 0;
    while i < items.len()
        invariant
            i <= items@.len(),
            list@.len() == i,
            forall|k: int| 0 <= k < i ==> (#[trigger] list@[k])@ == ffi_pending_offer_of(items@[k]@),
        decreases items@.len() - i,
    {
        list.push(ffi_pending_offer(&items[i]));
        i += 1;
    }
    assert(list@.map_values(|x: FfiAgentPendingOffer| x@) =~= ffi_pending_offers_of(items@.map_values(|x: AgentPendingOffer| x@)));
    list
}

/// The [`FfiAgentEventCursor`] that stands for a [`AgentEventCursor`].
pub open spec fn ffi_cursor_of(value: AgentCursorView) -> CursorView {
    CursorView {
        instance_id: value.instance_id,
        sequence: value.sequence,
    }
}

/// Projects a place in the events.
pub fn ffi_event_cursor(value: &AgentEventCursor) -> (r: FfiAgentEventCursor)
    ensures
        r@ == ffi_cursor_of(value@),
{
    FfiAgentEventCursor {
        instance_id: value.instance_id.clone(),
        sequence: value.sequence,
    }
}

/// The [`AgentEventCursor`] that stands for a [`FfiAgentEventCursor`].
pub open spec fn core_cursor_of(value: CursorView) -> AgentCursorView {
    AgentCursorView {
        instance_id: value.instance_id,
        sequence: value.sequence,
    }
}

/// The agent form of a place in the events.
pub fn core_event_cursor(value: &FfiAgentEventCursor) -> (r: AgentEventCursor)
    ensures
        r@ == core_cursor_of(value@),
{
    AgentEventCursor {
        instance_id: value.instance_id.clone(),
        sequence: value.sequence,
    }
}

/// The [`AgentPairingInput`] that stands for a [`FfiAgentPairingInput`].
pub open spec fn core_pairing_of(value: PairingInputView) -> AgentPairingInputView {
    AgentPairingInputView {
        label: value.label,
        invitation: value.invitation,
        verification_code: value.verification_code,
    }
}

/// The agent form of what joins a pairing.
pub fn core_pairing_input(value: &FfiAgentPairingInput) -> (r: AgentPairingInput)
    ensures
        r@ == core_pairing_of(value@),
{
    AgentPairingInput {
        label: value.label.clone(),
        invitation: value.invitation.clone(),
        verification_code: value.verification_code.clone(),
    }
}

/// The [`FfiAgentEvent`] that stands for a [`AgentEvent`].
pub open spec fn ffi_event_of(value: CoreEventView) -> AgentEventView {
    match value {
        CoreEventView::PairingChanged { label, active } => AgentEventView::PairingChanged { label, active },
        CoreEventView::RelationshipChanged { relationship_id, change } => AgentEventView::RelationshipChanged { relationship_id, change: ffi_change_of(change) },
        CoreEventView::InboxChanged { item_id } => AgentEventView::InboxChanged { item_id },
        CoreEventView::TransferChanged { transfer_id } => AgentEventView::TransferChanged { transfer_id },
        CoreEventView::TransferPathChanged { transfer_id, direction, path } => AgentEventView::TransferPathChanged { transfer_id, direction: ffi_direction_of(direction), path: ffi_optional_path_of(path) },
        CoreEventView::PendingOfferChanged { offer_id, pending } => AgentEventView::PendingOfferChanged { offer_id, pending },
    }
}

/// Projects a change.
pub fn ffi_event(value: &AgentEvent) -> (r: FfiAgentEvent)
    ensures
        r@ == ffi_event_of(value@),
{
    match value {
        AgentEvent::PairingChanged { label, active } => FfiAgentEvent::PairingChanged { label: label.clone(), active: *active },
        AgentEvent::RelationshipChanged { relationship_id, change } => FfiAgentEvent::RelationshipChanged { relationship_id: relationship_id.clone(), change: ffi_relationship_change(*change) },
        AgentEvent::InboxChanged { item_id } => FfiAgentEvent::InboxChanged { item_id: item_id.clone() },
        AgentEvent::TransferChanged { transfer_id } => FfiAgentEvent::TransferChanged { transfer_id: transfer_id.clone() },
        AgentEvent::TransferPathChanged { transfer_id, direction, path } => FfiAgentEvent::TransferPathChanged { transfer_id: transfer_id.clone(), direction: ffi_direction(*direction), path: ffi_optional_path(*path) },
        AgentEvent::PendingOfferChanged { offer_id, pending } => FfiAgentEvent::PendingOfferChanged { offer_id: offer_id.clone(), pending: *pending },
    }
}

/// The [`FfiAgentEventEnvelope`] that stands for a [`AgentEventEnvelope`].
pub open spec fn ffi_event_envelope_of(value: CoreEventEnvelopeView) -> AgentEventEnvelopeView {
    AgentEventEnvelopeView {
        protocol_version: value.protocol_version,
        instance_id: value.instance_id,
        sequence: value.sequence,
        event: ffi_event_of(value.event),
    }
}

/// Projects a change with its place.
pub fn ffi_event_envelope(value: &AgentEventEnvelope) -> (r: FfiAgentEventEnvelope)
    ensures
        r@ == ffi_event_envelope_of(value@),
{
    FfiAgentEventEnvelope {
        protocol_version: value.protocol_version,
        instance_id: value.instance_id.clone(),
        sequence: value.sequence,
        event: ffi_event(&value.event),
    }
}

/// [`ffi_event_envelope_of`] of every item, in their order.
pub open spec fn ffi_event_envelopes_of(items: Seq<CoreEventEnvelopeView>) -> Seq<AgentEventEnvelopeView> {
    items.map_values(|x: CoreEventEnvelopeView| ffi_event_envelope_of(x))
}

/// Projects changes, in their order.
pub fn ffi_event_envelopes(items: &Vec<AgentEventEnvelope>) -> (r: Vec<FfiAgentEventEnvelope>)
    ensures
        r@.map_values(|x: FfiAgentEventEnvelope| x@) == ffi_event_envelopes_of(items@.map_values(|x: AgentEventEnvelope| x@)),
{
    let mut list: Vec<FfiAgentEventEnvelope> = Vec::new();
    let mut i: usize = 0;
    while i < items.len()
        invariant
            i <= items@.len(),
            list@.len() == i,
            forall|k: int| 0 <= k < i ==> (#[trigger] list@[k])@ == ffi_event_envelope_of(items@[k]@),
        decreases items@.len() - i,
    {
        list.push(ffi_event_envelope(&items[i]));
        i += 1;
    }
    assert(list@.map_values(|x: FfiAgentEventEnvelope| x@) =~= ffi_event_envelopes_of(items@.map_values(|x: AgentEventEnvelope| x@)));
    list
}

/// The [`FfiAgentSnapshot`] that stands for a [`AgentSnapshot`].
pub open spec fn ffi_agent_snapshot_of(value: CoreSnapshotView) -> AgentSnapshotView {
    AgentSnapshotView {
        status: ffi_agent_status_of(value.status),
        engine: ffi_snapshot_of(value.engine),
        inbox: ffi_inbox_items_of(value.inbox),
        active_paths: ffi_transfer_paths_of(value.active_paths),
        pending_offers: ffi_pending_offers_of(value.pending_offers),
        event_cursor: ffi_cursor_of(value.event_cursor),
    }
}

/// Projects everything a host shows.
pub fn ffi_agent_snapshot(value: &AgentSnapshot) -> (r: FfiAgentSnapshot)
    ensures
        r@ == ffi_agent_snapshot_of(value@),
{
    FfiAgentSnapshot {
        status: ffi_agent_status(&value.status),
        engine: ffi_snapshot(&value.engine),
        inbox: ffi_inbox_items(&value.inbox),
        active_paths: ffi_transfer_paths(&value.active_paths),
        pending_offers: ffi_pending_offers(&value.pending_offers),
        event_cursor: ffi_event_cursor(&value.event_cursor),
    }
}

/// The [`FfiAgentDiagnostics`] that stands for a [`AgentDiagnostics`].
pub open spec fn ffi_diagnostics_of(value: AgentDiagnosticsView) -> DiagnosticsView {
    DiagnosticsView {
        agent_protocol_version: value.agent_protocol_version,
        application_contract_version: value.application_contract_version,
        engine_schema_version: value.engine_schema_version,
        platform: value.platform,
        control_transport: ffi_transport_of(value.control_transport),
        credential_protection: ffi_protection_of(value.credential_protection),
        engine_sequence: value.engine_sequence,
        relationships: wide_of(value.relationships),
        transfers: wide_of(value.transfers),
        inbox_items: wide_of(value.inbox_items),
        active_paths: wide_of(value.active_paths),
        pending_offers: wide_of(value.pending_offers),
    }
}

/// Projects a host's versions and counts.
pub fn ffi_diagnostics(value: &AgentDiagnostics) -> (r: FfiAgentDiagnostics)
    ensures
        r@ == ffi_diagnostics_of(value@),
{
    FfiAgentDiagnostics {
        agent_protocol_version: value.agent_protocol_version,
        application_contract_version: value.application_contract_version,
        engine_schema_version: value.engine_schema_version,
        platform: value.platform.clone(),
        control_transport: ffi_control_transport(value.control_transport),
        credential_protection: ffi_credential_protection(value.credential_protection),
        engine_sequence: value.engine_sequence,
        relationships: wide(value.relationships),
        transfers: wide(value.transfers),
        inbox_items: wide(value.inbox_items),
        active_paths: wide(value.active_paths),
        pending_offers: wide(value.pending_offers),
    }
}

/// The [`FfiAgentResponse`] that stands for a [`AgentResponse`].
pub open spec fn ffi_agent_response_of(value: CoreResponseView) -> AgentResponseView {
    match value {
        CoreResponseView::Status { status } => AgentResponseView::Status { status: ffi_agent_status_of(status) },
        CoreResponseView::Pairing { pairing } => AgentResponseView::Pairing { pairing: ffi_pairing_of(pairing) },
        CoreResponseView::DevicePaired { device } => AgentResponseView::DevicePaired { device: ffi_device_summary_of(device) },
        CoreResponseView::Devices { devices } => AgentResponseView::Devices { devices: ffi_device_summaries_of(devices) },
        CoreResponseView::DeviceRevoked { device } => AgentResponseView::DeviceRevoked { device: ffi_device_summary_of(device) },
        CoreResponseView::DeviceRouteUpdated { device } => AgentResponseView::DeviceRouteUpdated { device: ffi_device_summary_of(device) },
        CoreResponseView::TransferCreated { transfer } => AgentResponseView::TransferCreated { transfer: ffi_transfer_of(transfer) },
        CoreResponseView::Transfers { transfers } => AgentResponseView::Transfers { transfers: ffi_transfer_list_of(transfers) },
        CoreResponseView::TransferPaths { paths } => AgentResponseView::TransferPaths { paths: ffi_transfer_paths_of(paths) },
        CoreResponseView::Transfer { transfer } => AgentResponseView::Transfer { transfer: ffi_transfer_of(transfer) },
        CoreResponseView::PendingOffers { offers } => AgentResponseView::PendingOffers { offers: ffi_pending_offers_of(offers) },
        CoreResponseView::PendingOfferDecided { offer, decision } => AgentResponseView::PendingOfferDecided { offer: ffi_pending_offer_of(offer), decision: ffi_decision_of(decision) },
        CoreResponseView::Inbox { items } => AgentResponseView::Inbox { items: ffi_inbox_items_of(items) },
        CoreResponseView::Latest { item } => AgentResponseView::Latest { item: ffi_optional_item_of(item) },
        CoreResponseView::Snapshot { snapshot } => AgentResponseView::Snapshot { snapshot: ffi_agent_snapshot_of(snapshot) },
        CoreResponseView::Events { cursor, events } => AgentResponseView::Events { cursor: ffi_cursor_of(cursor), events: ffi_event_envelopes_of(events) },
        CoreResponseView::SnapshotRequired { cursor } => AgentResponseView::SnapshotRequired { cursor: ffi_cursor_of(cursor) },
        CoreResponseView::Diagnostics { diagnostics } => AgentResponseView::Diagnostics { diagnostics: ffi_diagnostics_of(diagnostics) },
        CoreResponseView::Error { code, message } => AgentResponseView::Error { code, message },
    }
}

/// Projects a control response.
pub fn ffi_agent_response(value: &AgentResponse) -> (r: FfiAgentResponse)
    ensures
        r@ == ffi_agent_response_of(value@),
{
    match value {
        AgentResponse::Status { status } => FfiAgentResponse::Status { status: ffi_agent_status(status) },
        AgentResponse::Pairing { pairing } => FfiAgentResponse::Pairing { pairing: ffi_pairing_invitation(pairing) },
        AgentResponse::DevicePaired { device } => FfiAgentResponse::DevicePaired { device: ffi_device_summary(device) },
        AgentResponse::Devices { devices } => FfiAgentResponse::Devices { devices: ffi_device_summaries(devices) },
        AgentResponse::DeviceRevoked { device } => FfiAgentResponse::DeviceRevoked { device: ffi_device_summary(device) },
        AgentResponse::DeviceRouteUpdated { device } => FfiAgentResponse::DeviceRouteUpdated { device: ffi_device_summary(device) },
        AgentResponse::TransferCreated { transfer } => FfiAgentResponse::TransferCreated { transfer: ffi_transfer(transfer) },
        AgentResponse::Transfers { transfers } => FfiAgentResponse::Transfers { transfers: ffi_transfer_list(transfers) },
        AgentResponse::TransferPaths { paths } => FfiAgentResponse::TransferPaths { paths: ffi_transfer_paths(paths) },
        AgentResponse::Transfer { transfer } => FfiAgentResponse::Transfer { transfer: ffi_transfer(transfer) },
        AgentResponse::PendingOffers { offers } => FfiAgentResponse::PendingOffers { offers: ffi_pending_offers(offers) },
        AgentResponse::PendingOfferDecided { offer, decision } => FfiAgentResponse::PendingOfferDecided { offer: ffi_pending_offer(offer), decision: ffi_offer_decision(*decision) },
        AgentResponse::Inbox { items } => FfiAgentResponse::Inbox { items: ffi_inbox_items(items) },
        AgentResponse::Latest { item } => FfiAgentResponse::Latest { item: ffi_optional_item(item) },
        AgentResponse::Snapshot { snapshot } => FfiAgentResponse::Snapshot { snapshot: ffi_agent_snapshot(snapshot) },
        AgentResponse::Events { cursor, events } => FfiAgentResponse::Events { cursor: ffi_event_cursor(cursor), events: ffi_event_envelopes(events) },
        AgentResponse::SnapshotRequired { cursor } => FfiAgentResponse::SnapshotRequired { cursor: ffi_event_cursor(cursor) },
        AgentResponse::Diagnostics { diagnostics } => FfiAgentResponse::Diagnostics { diagnostics: ffi_diagnostics(diagnostics) },
        AgentResponse::Error { code, message } => FfiAgentResponse::Error { code: code.clone(), message: message.clone() },
    }
}

/// The [`FfiAgentHostFailure`] that stands for a [`AgentHostFailure`].
pub open spec fn ffi_host_failure_of(value: AgentHostFailureView) -> HostFailureView {
    HostFailureView {
        code: ffi_host_code_of(value.code),
        reason: value.reason,
    }
}

/// Projects a failed host.
pub fn ffi_host_failure(value: &AgentHostFailure) -> (r: FfiAgentHostFailure)
    ensures
        r@ == ffi_host_failure_of(value@),
{
    FfiAgentHostFailure {
        code: ffi_host_error_code(value.code),
        reason: value.reason.clone(),
    }
}

/// The [`FfiAgentHostLifecycleState`] that stands for a [`AgentHostLifecycleState`].
pub open spec fn ffi_lifecycle_of(value: AgentLifecycleView) -> LifecycleView {
    match value {
        AgentLifecycleView::Starting => LifecycleView::Starting,
        AgentLifecycleView::Ready => LifecycleView::Ready,
        AgentLifecycleView::Stopping => LifecycleView::Stopping,
        AgentLifecycleView::Stopped => LifecycleView::Stopped,
        AgentLifecycleView::Failed { failure } => LifecycleView::Failed { failure: ffi_host_failure_of(failure) },
    }
}

/// Projects the lifecycle of a host.
pub fn ffi_host_lifecycle(value: &AgentHostLifecycleState) -> (r: FfiAgentHostLifecycleState)
    ensures
        r@ == ffi_lifecycle_of(value@),
{
    match value {
        AgentHostLifecycleState::Starting => FfiAgentHostLifecycleState::Starting,
        AgentHostLifecycleState::Ready => FfiAgentHostLifecycleState::Ready,
        AgentHostLifecycleState::Stopping => FfiAgentHostLifecycleState::Stopping,
        AgentHostLifecycleState::Stopped => FfiAgentHostLifecycleState::Stopped,
        AgentHostLifecycleState::Failed { failure } => FfiAgentHostLifecycleState::Failed { failure: ffi_host_failure(failure) },
    }
}

/// The native form of a host's own failure.
pub open spec fn host_error_of(failure: AgentHostFailureView) -> HostErrorView {
    HostErrorView::Failed { code: ffi_host_code_of(failure.code), reason: failure.reason }
}

/// Projects a host's own failure.
pub fn ffi_host_error(failure: &AgentHostFailure) -> (r: FfiAgentHostError)
    ensures
        r@ == host_error_of(failure@),
{
    host_failure(ffi_host_error_code(failure.code), failure.reason.as_str())
}

/// The agent form of a request, or the first count of it that does not fit.
pub open spec fn core_request_of(request: AgentRequestView) -> Result<
    CoreRequestView,
    ControlErrorView,
> {
    match request {
        AgentRequestView::Status => Ok(CoreRequestView::Status),
        AgentRequestView::Snapshot { inbox_limit } => match bounded(inbox_limit, "Inbox limit"@) {
            Ok(inbox_limit) => Ok(CoreRequestView::Snapshot { inbox_limit }),
            Err(error) => Err(error),
        },
        AgentRequestView::Events { after, limit } => match bounded(limit, "event limit"@) {
            Ok(limit) => Ok(CoreRequestView::Events { after: core_cursor_of(after), limit }),
            Err(error) => Err(error),
        },
        AgentRequestView::Pair { label } => Ok(CoreRequestView::Pair { label }),
        AgentRequestView::JoinPairing { pairing } => Ok(
            CoreRequestView::JoinPairing { pairing: core_pairing_of(pairing) },
        ),
        AgentRequestView::ListDevices => Ok(CoreRequestView::ListDevices),
        AgentRequestView::RevokeDevice { device } => Ok(CoreRequestView::RevokeDevice { device }),
        AgentRequestView::UpdateDeviceRoute { device, broker, relay } => Ok(
            CoreRequestView::UpdateDeviceRoute { device, broker, relay },
        ),
        AgentRequestView::CreateTransfer { device, paths } => Ok(
            CoreRequestView::CreateTransfer { device, paths },
        ),
        AgentRequestView::ListTransfers => Ok(CoreRequestView::ListTransfers),
        AgentRequestView::ListTransferPaths => Ok(CoreRequestView::ListTransferPaths),
        AgentRequestView::GetTransfer { transfer_id } => Ok(
            CoreRequestView::GetTransfer { transfer_id },
        ),
        AgentRequestView::ListPendingOffers => Ok(CoreRequestView::ListPendingOffers),
        AgentRequestView::DecidePendingOffer { offer_id, decision } => Ok(
            CoreRequestView::DecidePendingOffer { offer_id, decision: core_decision_of(decision) },
        ),
        AgentRequestView::ListInbox { limit } => match bounded(limit, "Inbox limit"@) {
            Ok(limit) => Ok(CoreRequestView::ListInbox { limit }),
            Err(error) => Err(error),
        },
        AgentRequestView::LatestInbox => Ok(CoreRequestView::LatestInbox),
        AgentRequestView::Diagnostics => Ok(CoreRequestView::Diagnostics),
    }
}

/// The view of a converted request.
pub open spec fn request_result(result: Result<AgentRequest, FfiAgentControlError>) -> Result<
    CoreRequestView,
    ControlErrorView,
> {
    match result {
        Ok(request) => Ok(request@),
        Err(error) => Err(error@),
    }
}

/// The agent form of a request, before the agent's own checks.
pub fn sized_agent_request(request: &FfiAgentRequest) -> (r: Result<
    AgentRequest,
    FfiAgentControlError,
>)
    ensures
        request_result(r) == core_request_of(request@),
{
    match request {
        FfiAgentRequest::Status => Ok(AgentRequest::Status),
        FfiAgentRequest::Snapshot { inbox_limit } => match bounded_usize(
            *inbox_limit,
            "Inbox limit",
        ) {
            Ok(inbox_limit) => Ok(AgentRequest::Snapshot { inbox_limit }),
            Err(error) => Err(error),
        },
        FfiAgentRequest::Events { after, limit } => match bounded_usize(*limit, "event limit") {
            Ok(limit) => Ok(AgentRequest::Events { after: core_event_cursor(after), limit }),
            Err(error) => Err(error),
        },
        FfiAgentRequest::Pair { label } => Ok(AgentRequest::Pair { label: label.clone() }),
        FfiAgentRequest::JoinPairing { pairing } => Ok(
            AgentRequest::JoinPairing { pairing: core_pairing_input(pairing) },
        ),
        FfiAgentRequest::ListDevices => Ok(AgentRequest::ListDevices),
        FfiAgentRequest::RevokeDevice { device } => Ok(
            AgentRequest::RevokeDevice { device: device.clone() },
        ),
        FfiAgentRequest::UpdateDeviceRoute { device, broker, relay } => Ok(
            AgentRequest::UpdateDeviceRoute {
                device: device.clone(),
                broker: broker.clone(),
                relay: relay.clone(),
            },
        ),
        FfiAgentRequest::CreateTransfer { device, paths } => {
            let copied = paths.clone();
            assert(text_seq(copied@) =~= text_seq(paths@));
            Ok(AgentRequest::CreateTransfer { device: device.clone(), paths: copied })
        },
        FfiAgentRequest::ListTransfers => Ok(AgentRequest::ListTransfers),
        FfiAgentRequest::ListTransferPaths => Ok(AgentRequest::ListTransferPaths),
        FfiAgentRequest::GetTransfer { transfer_id } => Ok(
            AgentRequest::GetTransfer { transfer_id: transfer_id.clone() },
        ),
        FfiAgentRequest::ListPendingOffers => Ok(AgentRequest::ListPendingOffers),
        FfiAgentRequest::DecidePendingOffer { offer_id, decision } => Ok(
            AgentRequest::DecidePendingOffer {
                offer_id: offer_id.clone(),
                decision: core_offer_decision(*decision),
            },
        ),
        FfiAgentRequest::ListInbox { limit } => match bounded_usize(*limit, "Inbox limit") {
            Ok(limit) => Ok(AgentRequest::ListInbox { limit }),
            Err(error) => Err(error),
        },
        FfiAgentRequest::LatestInbox => Ok(AgentRequest::LatestInbox),
        FfiAgentRequest::Diagnostics => Ok(AgentRequest::Diagnostics),
    }
}

/// The agent form of a request. `invalid` is what the agent's own checks hold
/// against the converted request, if they hold anything.
pub fn core_agent_request(request: &FfiAgentRequest, invalid: &Option<IoFailure>) -> (r: Result<
    AgentRequest,
    FfiAgentControlError,
>)
    ensures
        request_result(r) == (match core_request_of(request@) {
            Err(error) => Err(error),
            Ok(converted) => match *invalid {
                Some(error) => Err(control_error_of(error@)),
                None => Ok(converted),
            },
        }),
{
    match sized_agent_request(request) {
        Err(error) => Err(error),
        Ok(converted) => match invalid {
            Some(error) => Err(control_io_error(error)),
            None => Ok(converted),
        },
    }
}

/// A client of the control endpoint of one host.
#[derive(Debug, PartialEq, Eq)]
pub struct FfiAgentControlClient {
    endpoint: String,
}

impl View for FfiAgentControlClient {
    type V = Seq<char>;

    closed spec fn view(&self) -> Seq<char> {
        self.endpoint@
    }
}

/// The refusal of the control transport on other platforms.
pub open spec fn no_control_transport() -> ControlErrorView {
    ControlErrorView::Failed {
        code: FfiAgentControlErrorCode::UnsupportedPlatform,
        reason: "the local Agent control transport is supported only on desktop platforms"@,
    }
}

impl FfiAgentControlClient {
    /// A client of a checked endpoint; `absolute` tells whether the endpoint is
    /// an absolute path.
    pub fn for_endpoint(endpoint: &str, platform: HostPlatform, absolute: bool) -> (r: Result<
        Self,
        FfiAgentControlError,
    >)
        ensures
            match r {
                Ok(client) => {
                    &&& platform != HostPlatform::Unsupported
                    &&& endpoint_refusal(endpoint@, platform, absolute) is None
                    &&& client@ == endpoint@
                },
                Err(error) => if platform == HostPlatform::Unsupported {
                    error@ == no_control_transport()
                } else {
                    endpoint_refusal(endpoint@, platform, absolute) == Some(error@)
                },
            },
    {
        if platform == HostPlatform::Unsupported {
            return Err(
                control_failure(
                    FfiAgentControlErrorCode::UnsupportedPlatform,
                    "the local Agent control transport is supported only on desktop platforms",
                ),
            );
        }
        match check_control_endpoint(endpoint, platform, absolute) {
            Ok(_) => Ok(FfiAgentControlClient { endpoint: endpoint.to_owned() }),
            Err(error) => Err(error),
        }
    }

    /// A client of a checked endpoint.
    pub fn new(endpoint: &str, platform: HostPlatform) -> (r: Result<Self, FfiAgentControlError>)
        ensures
            match r {
                Ok(client) => {
                    &&& platform != HostPlatform::Unsupported
                    &&& endpoint_refusal(endpoint@, platform, is_socket_path(endpoint@)) is None
                    &&& client@ == endpoint@
                },
                Err(error) => if platform == HostPlatform::Unsupported {
                    error@ == no_control_transport()
                } else {
                    endpoint_refusal(endpoint@, platform, is_socket_path(endpoint@)) == Some(error@)
                },
            },
    {
        Self::for_endpoint(endpoint, platform, starts_at_root(endpoint))
    }

    /// The endpoint that requests go to.
    pub fn endpoint(&self) -> (r: &str)
        ensures
            r@ == self@,
    {
        self.endpoint.as_str()
    }

    /// Reports what came of a request.
    pub fn call(&self, outcome: &Result<AgentResponse, IoFailure>) -> (r: Result<
        FfiAgentResponse,
        FfiAgentControlError,
    >)
        ensures
            match (r, *outcome) {
                (Ok(shown), Ok(response)) => shown@ == ffi_agent_response_of(response@),
                (Err(error), Err(cause)) => error@ == control_error_of(cause@),
                _ => false,
            },
    {
        match outcome {
            Ok(response) => Ok(ffi_agent_response(response)),
            Err(error) => Err(control_io_error(error)),
        }
    }
}

/// A durable desktop agent host that was started in the background.
#[derive(Debug, PartialEq, Eq)]
pub struct FfiAgentHost {
    control_endpoint: String,
    agent_protocol_version: u16,
    application_contract_version: u16,
}

impl View for FfiAgentHost {
    type V = HostReadyView;

    closed spec fn view(&self) -> HostReadyView {
        HostReadyView {
            control_endpoint: self.control_endpoint@,
            agent_protocol_version: self.agent_protocol_version,
            application_contract_version: self.application_contract_version,
        }
    }
}

/// What someone who waits for a host does next.
pub enum ReadyStep {
    /// The host is ready.
    Ready(FfiAgentHostReady),
    /// The host will not become ready.
    Failed(FfiAgentHostError),
    /// The lifecycle has to change first.
    Wait,
}

/// How the task of a host ended.
pub enum HostTaskEnd {
    Finished,
    Failed(AgentHostFailure),
    Canceled,
    Broken,
}

/// Why a shut-down host's task did not end well, if it did not.
pub open spec fn task_error_of(end: Option<HostTaskEnd>) -> Option<HostErrorView> {
    match end {
        None | Some(HostTaskEnd::Finished) => None,
        Some(HostTaskEnd::Failed(failure)) => Some(host_error_of(failure@)),
        Some(HostTaskEnd::Canceled) => Some(
            HostErrorView::Failed {
                code: FfiAgentHostErrorCode::Internal,
                reason: "Agent host task was canceled"@,
            },
        ),
        Some(HostTaskEnd::Broken) => Some(
            HostErrorView::Failed {
                code: FfiAgentHostErrorCode::Internal,
                reason: "Agent host task failed"@,
            },
        ),
    }
}

/// What a shutdown reports.
pub open spec fn shutdown_of(end: Option<HostTaskEnd>, state: AgentLifecycleView) -> Result<
    LifecycleView,
    HostErrorView,
> {
    match task_error_of(end) {
        Some(error) => Err(error),
        None => match state {
            AgentLifecycleView::Failed { failure } => Err(host_error_of(failure)),
            _ => Ok(ffi_lifecycle_of(state)),
        },
    }
}

impl FfiAgentHost {
    /// A host that was started from a configuration. The versions are those of
    /// the agent.
    pub fn start(
        configuration: &FfiAgentHostConfiguration,
        platform: HostPlatform,
        agent_protocol_version: u16,
        application_contract_version: u16,
    ) -> (r: Result<Self, FfiAgentHostError>)
        ensures
            match r {
                Ok(host) => platform != HostPlatform::Unsupported && host@ == (HostReadyView {
                    control_endpoint: configuration@.control_endpoint,
                    agent_protocol_version,
                    application_contract_version,
                }),
                Err(error) => platform == HostPlatform::Unsupported && error@
                    == (HostErrorView::Failed {
                    code: FfiAgentHostErrorCode::UnsupportedPlatform,
                    reason: "the durable Agent host is supported only on desktop platforms"@,
                }),
            },
    {
        if platform == HostPlatform::Unsupported {
            return Err(
                host_failure(
                    FfiAgentHostErrorCode::UnsupportedPlatform,
                    "the durable Agent host is supported only on desktop platforms",
                ),
            );
        }
        Ok(
            FfiAgentHost {
                control_endpoint: configuration.control_endpoint.clone(),
                agent_protocol_version,
                application_contract_version,
            },
        )
    }

    /// The lifecycle that clients see.
    pub fn lifecycle(&self, state: &AgentHostLifecycleState) -> (r: FfiAgentHostLifecycleState)
        ensures
            r@ == ffi_lifecycle_of(state@),
    {
        ffi_host_lifecycle(state)
    }

    /// What someone who waits until the control endpoint is bound does in a
    /// state of the host.
    pub fn wait_until_ready(&self, state: &AgentHostLifecycleState) -> (r: ReadyStep)
        ensures
            match state@ {
                AgentLifecycleView::Ready => r matches ReadyStep::Ready(ready) && ready@ == self@,
                AgentLifecycleView::Failed { failure } => r matches ReadyStep::Failed(error)
                    && error@ == host_error_of(failure),
                AgentLifecycleView::Stopped => r matches ReadyStep::Failed(error) && error@
                    == (HostErrorView::Failed {
                    code: FfiAgentHostErrorCode::ShutdownBeforeReady,
                    reason: "Agent host stopped before its control endpoint became ready"@,
                }),
                AgentLifecycleView::Starting | AgentLifecycleView::Stopping => r is Wait,
            },
    {
        match state {
            AgentHostLifecycleState::Ready => ReadyStep::Ready(
                FfiAgentHostReady {
                    control_endpoint: self.control_endpoint.clone(),
                    agent_protocol_version: self.agent_protocol_version,
                    application_contract_version: self.application_contract_version,
                },
            ),
            AgentHostLifecycleState::Failed { failure } => ReadyStep::Failed(
                ffi_host_error(failure),
            ),
            AgentHostLifecycleState::Stopped => ReadyStep::Failed(
                host_failure(
                    FfiAgentHostErrorCode::ShutdownBeforeReady,
                    "Agent host stopped before its control endpoint became ready",
                ),
            ),
            AgentHostLifecycleState::Starting
            | AgentHostLifecycleState::Stopping => ReadyStep::Wait,
        }
    }

    /// The failure of a wait whose lifecycle ended without a last state.
    pub fn lifecycle_ended(&self) -> (r: FfiAgentHostError)
        ensures
            r@ == (HostErrorView::Failed {
                code: FfiAgentHostErrorCode::Internal,
                reason: "Agent host lifecycle ended without a terminal state"@,
            }),
    {
        host_failure(
            FfiAgentHostErrorCode::Internal,
            "Agent host lifecycle ended without a terminal state",
        )
    }

    /// Reports a shutdown. `end` is how the host's task ended, where this
    /// shutdown was the one that waited for it.
    pub fn shutdown(&self, end: &Option<HostTaskEnd>, state: &AgentHostLifecycleState) -> (r: Result<
        FfiAgentHostLifecycleState,
        FfiAgentHostError,
    >)
        ensures
            (match r {
                Ok(state) => Ok(state@),
                Err(error) => Err(error@),
            }) == shutdown_of(*end, state@),
    {
        match end {
            None | Some(HostTaskEnd::Finished) => match state {
                AgentHostLifecycleState::Failed { failure } => Err(ffi_host_error(failure)),
                _ => Ok(ffi_host_lifecycle(state)),
            },
            Some(HostTaskEnd::Failed(failure)) => Err(ffi_host_error(failure)),
            Some(HostTaskEnd::Canceled) => Err(
                host_failure(FfiAgentHostErrorCode::Internal, "Agent host task was canceled"),
            ),
            Some(HostTaskEnd::Broken) => Err(
                host_failure(FfiAgentHostErrorCode::Internal, "Agent host task failed"),
            ),
        }
    }
}

/// Credential protections and answers survive the trip through the agent form.
pub proof fn agent_choices_round_trip(
    protection: FfiAgentCredentialProtection,
    decision: FfiAgentOfferDecision,
)
    ensures
        ffi_protection_of(core_protection_of(protection)) == protection,
        ffi_decision_of(core_decision_of(decision)) == decision,
{
}

/// A second shutdown of a host that ended well reports what the first one did.
pub proof fn shutdown_is_idempotent(state: AgentLifecycleView)
    ensures
        shutdown_of(Some(HostTaskEnd::Finished), state) == shutdown_of(None, state),
{
}

/// Values of the agent keep their names on the way to clients and back: nothing
/// is reported as something else.
pub proof fn agent_values_keep_their_names(
    decision: FfiAgentOfferDecision,
    engine_decision: AgentOfferDecision,
    path_kind: AgentPathKind,
    change: AgentRelationshipChange,
    transport: AgentControlTransport,
    protection: AgentCredentialProtection,
    client_protection: FfiAgentCredentialProtection,
    code: AgentHostErrorCode,
)
    ensures
        core_decision_of(decision) is Approve <==> decision is Approve,
        core_decision_of(decision) is Reject <==> decision is Reject,
        ffi_decision_of(engine_decision) is Approve <==> engine_decision is Approve,
        ffi_decision_of(engine_decision) is Reject <==> engine_decision is Reject,
        ffi_path_kind_of(path_kind) is Lan <==> path_kind is Lan,
        ffi_path_kind_of(path_kind) is Direct <==> path_kind is Direct,
        ffi_path_kind_of(path_kind) is Relay <==> path_kind is Relay,
        ffi_path_kind_of(path_kind) is WifiAware <==> path_kind is WifiAware,
        ffi_path_kind_of(path_kind) is Other <==> path_kind is Other,
        ffi_change_of(change) is Trusted <==> change is Trusted,
        ffi_change_of(change) is Rotated <==> change is Rotated,
        ffi_change_of(change) is RouteUpdated <==> change is RouteUpdated,
        ffi_change_of(change) is Revoked <==> change is Revoked,
        ffi_transport_of(transport) is UnixSocket <==> transport is UnixSocket,
        ffi_transport_of(transport) is WindowsNamedPipe <==> transport is WindowsNamedPipe,
        ffi_protection_of(protection) is OwnerOnlyFile <==> protection is OwnerOnlyFile,
        ffi_protection_of(protection) is WindowsDpapi <==> protection is WindowsDpapi,
        ffi_protection_of(protection) is AppleKeychain <==> protection is AppleKeychain,
        core_protection_of(client_protection) is OwnerOnlyFile <==> client_protection is OwnerOnlyFile,
        core_protection_of(client_protection) is WindowsDpapi <==> client_protection is WindowsDpapi,
        core_protection_of(client_protection) is AppleKeychain <==> client_protection is AppleKeychain,
        ffi_host_code_of(code) is InvalidConfiguration <==> code is InvalidConfiguration,
        ffi_host_code_of(code) is StateAlreadyOwned <==> code is StateAlreadyOwned,
        ffi_host_code_of(code) is UnsupportedPersistentState <==> code is UnsupportedPersistentState,
        ffi_host_code_of(code) is StateCorrupt <==> code is StateCorrupt,
        ffi_host_code_of(code) is VaultUnavailable <==> code is VaultUnavailable,
        ffi_host_code_of(code) is VaultInteractionRequired <==> code is VaultInteractionRequired,
        ffi_host_code_of(code) is VaultPermissionDenied <==> code is VaultPermissionDenied,
        ffi_host_code_of(code) is VaultCorrupt <==> code is VaultCorrupt,
        ffi_host_code_of(code) is VaultCanceled <==> code is VaultCanceled,
        ffi_host_code_of(code) is IoFailure <==> code is IoFailure,
        ffi_host_code_of(code) is Internal <==> code is Internal,
{
}

/// The status of an agent is shown with its own paths, servers and counts.
pub proof fn agent_status_is_shown_as_it_is(status: AgentStatusView)
    ensures
        ffi_agent_status_of(status).protocol_version == status.protocol_version,
        ffi_agent_status_of(status).pid == status.pid,
        ffi_agent_status_of(status).device_name == status.device_name,
        ffi_agent_status_of(status).state_directory == status.state_directory,
        ffi_agent_status_of(status).inbox_directory == status.inbox_directory,
        ffi_agent_status_of(status).broker == status.broker,
        ffi_agent_status_of(status).relay == status.relay,
        ffi_agent_status_of(status).paired_devices == wide_of(status.paired_devices),
        ffi_agent_status_of(status).active_receivers == wide_of(status.active_receivers),
        ffi_agent_status_of(status).active_pairings == wide_of(status.active_pairings),
        ffi_agent_status_of(status).active_paths == wide_of(status.active_paths),
        ffi_agent_status_of(status).pending_offers == wide_of(status.pending_offers),
{
}

/// Pairings, devices, paths, offers and inbox items are shown with their own ids,
/// names and numbers.
pub proof fn agent_records_are_shown_as_they_are(
    pairing: AgentPairingView,
    device: AgentDeviceView,
    path: AgentPathView,
    offer: AgentOfferView,
    root: AgentRootView,
    item: AgentItemView,
)
    ensures
        ffi_pairing_of(pairing).label == pairing.label,
        ffi_pairing_of(pairing).room_code == pairing.room_code,
        ffi_pairing_of(pairing).verification_code == pairing.verification_code,
        ffi_pairing_of(pairing).expires_at_unix_seconds == pairing.expires_at_unix_seconds,
        ffi_device_summary_of(device).id == device.id,
        ffi_device_summary_of(device).label == device.label,
        ffi_device_summary_of(device).generation == device.generation,
        ffi_device_summary_of(device).previous_generation == device.previous_generation,
        ffi_device_summary_of(device).broker == device.broker,
        ffi_device_summary_of(device).relay == device.relay,
        ffi_transfer_path_of(path).transfer_id == path.transfer_id,
        ffi_transfer_path_of(path).direction == ffi_direction_of(path.direction),
        ffi_transfer_path_of(path).path == ffi_path_kind_of(path.path),
        ffi_pending_offer_of(offer).offer_id == offer.offer_id,
        ffi_pending_offer_of(offer).from_device_id == offer.from_device_id,
        ffi_pending_offer_of(offer).from_device_label == offer.from_device_label,
        ffi_pending_offer_of(offer).root_names == offer.root_names,
        ffi_pending_offer_of(offer).item_count == offer.item_count,
        ffi_pending_offer_of(offer).directory_count == offer.directory_count,
        ffi_pending_offer_of(offer).total_bytes == offer.total_bytes,
        ffi_pending_offer_of(offer).allocatable_bytes == offer.allocatable_bytes,
        ffi_inbox_root_of(root).name == root.name,
        ffi_inbox_root_of(root).path == root.path,
        ffi_inbox_item_of(item).id == item.id,
        ffi_inbox_item_of(item).received_at_unix_ms == item.received_at_unix_ms,
        ffi_inbox_item_of(item).from_device_id == item.from_device_id,
        ffi_inbox_item_of(item).from_device_label == item.from_device_label,
        ffi_inbox_item_of(item).roots == ffi_inbox_roots_of(item.roots),
        ffi_inbox_item_of(item).file_count == item.file_count,
        ffi_inbox_item_of(item).directory_count == item.directory_count,
        ffi_inbox_item_of(item).total_bytes == item.total_bytes,
{
}

/// Cursors and pairings reach the agent, and come back, with everything that they
/// name.
pub proof fn cursors_and_pairings_reach_the_agent(
    engine_cursor: AgentCursorView,
    cursor: CursorView,
    pairing: PairingInputView,
    envelope: CoreEventEnvelopeView,
)
    ensures
        ffi_cursor_of(engine_cursor).instance_id == engine_cursor.instance_id,
        ffi_cursor_of(engine_cursor).sequence == engine_cursor.sequence,
        core_cursor_of(cursor).instance_id == cursor.instance_id,
        core_cursor_of(cursor).sequence == cursor.sequence,
        core_pairing_of(pairing).label == pairing.label,
        core_pairing_of(pairing).invitation == pairing.invitation,
        core_pairing_of(pairing).verification_code == pairing.verification_code,
        ffi_event_envelope_of(envelope).protocol_version == envelope.protocol_version,
        ffi_event_envelope_of(envelope).instance_id == envelope.instance_id,
        ffi_event_envelope_of(envelope).sequence == envelope.sequence,
        ffi_event_envelope_of(envelope).event == ffi_event_of(envelope.event),
{
}

/// A snapshot and the diagnostics of an agent show its own state, versions and
/// counts.
pub proof fn agent_snapshots_are_shown_as_they_are(
    snapshot: CoreSnapshotView,
    diagnostics: AgentDiagnosticsView,
    failure: AgentHostFailureView,
)
    ensures
        ffi_agent_snapshot_of(snapshot).status == ffi_agent_status_of(snapshot.status),
        ffi_agent_snapshot_of(snapshot).engine == ffi_snapshot_of(snapshot.engine),
        ffi_agent_snapshot_of(snapshot).inbox == ffi_inbox_items_of(snapshot.inbox),
        ffi_agent_snapshot_of(snapshot).active_paths == ffi_transfer_paths_of(snapshot.active_paths),
        ffi_agent_snapshot_of(snapshot).pending_offers == ffi_pending_offers_of(snapshot.pending_offers),
        ffi_agent_snapshot_of(snapshot).event_cursor == ffi_cursor_of(snapshot.event_cursor),
        ffi_diagnostics_of(diagnostics).agent_protocol_version == diagnostics.agent_protocol_version,
        ffi_diagnostics_of(diagnostics).application_contract_version == diagnostics.application_contract_version,
        ffi_diagnostics_of(diagnostics).engine_schema_version == diagnostics.engine_schema_version,
        ffi_diagnostics_of(diagnostics).platform == diagnostics.platform,
        ffi_diagnostics_of(diagnostics).control_transport == ffi_transport_of(diagnostics.control_transport),
        ffi_diagnostics_of(diagnostics).credential_protection == ffi_protection_of(diagnostics.credential_protection),
        ffi_diagnostics_of(diagnostics).engine_sequence == diagnostics.engine_sequence,
        ffi_diagnostics_of(diagnostics).relationships == wide_of(diagnostics.relationships),
        ffi_diagnostics_of(diagnostics).transfers == wide_of(diagnostics.transfers),
        ffi_diagnostics_of(diagnostics).inbox_items == wide_of(diagnostics.inbox_items),
        ffi_diagnostics_of(diagnostics).active_paths == wide_of(diagnostics.active_paths),
        ffi_diagnostics_of(diagnostics).pending_offers == wide_of(diagnostics.pending_offers),
        ffi_host_failure_of(failure).code == ffi_host_code_of(failure.code),
        ffi_host_failure_of(failure).reason == failure.reason,
{
}

/// An event of an agent is shown under its own name, with everything that it names.
pub proof fn agent_events_keep_their_data(event: CoreEventView)
    ensures
        event matches CoreEventView::PairingChanged { label, active } ==> ffi_event_of(event) == (AgentEventView::PairingChanged { label, active }),
        event matches CoreEventView::RelationshipChanged { relationship_id, change } ==> ffi_event_of(event) == (AgentEventView::RelationshipChanged { relationship_id, change: ffi_change_of(change) }),
        event matches CoreEventView::InboxChanged { item_id } ==> ffi_event_of(event) == (AgentEventView::InboxChanged { item_id }),
        event matches CoreEventView::TransferChanged { transfer_id } ==> ffi_event_of(event) == (AgentEventView::TransferChanged { transfer_id }),
        event matches CoreEventView::TransferPathChanged { transfer_id, direction, path } ==> ffi_event_of(event) == (AgentEventView::TransferPathChanged { transfer_id, direction: ffi_direction_of(direction), path: ffi_optional_path_of(path) }),
        event matches CoreEventView::PendingOfferChanged { offer_id, pending } ==> ffi_event_of(event) == (AgentEventView::PendingOfferChanged { offer_id, pending }),
{
}

/// A response of an agent is shown under its own name, with what it answers.
pub proof fn agent_responses_keep_their_data(response: CoreResponseView)
    ensures
        response matches CoreResponseView::Status { status } ==> ffi_agent_response_of(response) == (AgentResponseView::Status { status: ffi_agent_status_of(status) }),
        response matches CoreResponseView::Pairing { pairing } ==> ffi_agent_response_of(response) == (AgentResponseView::Pairing { pairing: ffi_pairing_of(pairing) }),
        response matches CoreResponseView::DevicePaired { device } ==> ffi_agent_response_of(response) == (AgentResponseView::DevicePaired { device: ffi_device_summary_of(device) }),
        response matches CoreResponseView::Devices { devices } ==> ffi_agent_response_of(response) == (AgentResponseView::Devices { devices: ffi_device_summaries_of(devices) }),
        response matches CoreResponseView::DeviceRevoked { device } ==> ffi_agent_response_of(response) == (AgentResponseView::DeviceRevoked { device: ffi_device_summary_of(device) }),
        response matches CoreResponseView::DeviceRouteUpdated { device } ==> ffi_agent_response_of(response) == (AgentResponseView::DeviceRouteUpdated { device: ffi_device_summary_of(device) }),
        response matches CoreResponseView::TransferCreated { transfer } ==> ffi_agent_response_of(response) == (AgentResponseView::TransferCreated { transfer: ffi_transfer_of(transfer) }),
        response matches CoreResponseView::Transfers { transfers } ==> ffi_agent_response_of(response) == (AgentResponseView::Transfers { transfers: ffi_transfer_list_of(transfers) }),
        response matches CoreResponseView::TransferPaths { paths } ==> ffi_agent_response_of(response) == (AgentResponseView::TransferPaths { paths: ffi_transfer_paths_of(paths) }),
        response matches CoreResponseView::Transfer { transfer } ==> ffi_agent_response_of(response) == (AgentResponseView::Transfer { transfer: ffi_transfer_of(transfer) }),
        response matches CoreResponseView::PendingOffers { offers } ==> ffi_agent_response_of(response) == (AgentResponseView::PendingOffers { offers: ffi_pending_offers_of(offers) }),
        response matches CoreResponseView::PendingOfferDecided { offer, decision } ==> ffi_agent_response_of(response) == (AgentResponseView::PendingOfferDecided { offer: ffi_pending_offer_of(offer), decision: ffi_decision_of(decision) }),
        response matches CoreResponseView::Inbox { items } ==> ffi_agent_response_of(response) == (AgentResponseView::Inbox { items: ffi_inbox_items_of(items) }),
        response matches CoreResponseView::Latest { item } ==> ffi_agent_response_of(response) == (AgentResponseView::Latest { item: ffi_optional_item_of(item) }),
        response matches CoreResponseView::Snapshot { snapshot } ==> ffi_agent_response_of(response) == (AgentResponseView::Snapshot { snapshot: ffi_agent_snapshot_of(snapshot) }),
        response matches CoreResponseView::Events { cursor, events } ==> ffi_agent_response_of(response) == (AgentResponseView::Events { cursor: ffi_cursor_of(cursor), events: ffi_event_envelopes_of(events) }),
        response matches CoreResponseView::SnapshotRequired { cursor } ==> ffi_agent_response_of(response) == (AgentResponseView::SnapshotRequired { cursor: ffi_cursor_of(cursor) }),
        response matches CoreResponseView::Diagnostics { diagnostics } ==> ffi_agent_response_of(response) == (AgentResponseView::Diagnostics { diagnostics: ffi_diagnostics_of(diagnostics) }),
        response matches CoreResponseView::Error { code, message } ==> ffi_agent_response_of(response) == (AgentResponseView::Error { code, message }),
{
}

/// The lifecycle of an agent is shown as it is; a failed one with its failure.
pub proof fn agent_lifecycles_keep_their_names(state: AgentLifecycleView)
    ensures
        state is Starting ==> ffi_lifecycle_of(state) == (LifecycleView::Starting),
        state is Ready ==> ffi_lifecycle_of(state) == (LifecycleView::Ready),
        state is Stopping ==> ffi_lifecycle_of(state) == (LifecycleView::Stopping),
        state is Stopped ==> ffi_lifecycle_of(state) == (LifecycleView::Stopped),
        state matches AgentLifecycleView::Failed { failure } ==> ffi_lifecycle_of(state) == (LifecycleView::Failed { failure: ffi_host_failure_of(failure) }),
{
}

/// Lists are shown one for one, in their order.
pub proof fn agent_lists_keep_their_order(
    roots: Seq<AgentRootView>,
    items: Seq<AgentItemView>,
    devices: Seq<AgentDeviceView>,
    transfers: Seq<TransferRecordView>,
    paths: Seq<AgentPathView>,
    offers: Seq<AgentOfferView>,
    events: Seq<CoreEventEnvelopeView>,
    i: int,
)
    ensures
        ffi_inbox_roots_of(roots).len() == roots.len(),
        0 <= i < roots.len() ==> ffi_inbox_roots_of(roots)[i] == ffi_inbox_root_of(roots[i]),
        ffi_inbox_items_of(items).len() == items.len(),
        0 <= i < items.len() ==> ffi_inbox_items_of(items)[i] == ffi_inbox_item_of(items[i]),
        ffi_device_summaries_of(devices).len() == devices.len(),
        0 <= i < devices.len() ==> ffi_device_summaries_of(devices)[i] == ffi_device_summary_of(
            devices[i],
        ),
        ffi_transfer_list_of(transfers).len() == transfers.len(),
        0 <= i < transfers.len() ==> ffi_transfer_list_of(transfers)[i] == ffi_transfer_of(
            transfers[i],
        ),
        ffi_transfer_paths_of(paths).len() == paths.len(),
        0 <= i < paths.len() ==> ffi_transfer_paths_of(paths)[i] == ffi_transfer_path_of(paths[i]),
        ffi_pending_offers_of(offers).len() == offers.len(),
        0 <= i < offers.len() ==> ffi_pending_offers_of(offers)[i] == ffi_pending_offer_of(
            offers[i],
        ),
        ffi_event_envelopes_of(events).len() == events.len(),
        0 <= i < events.len() ==> ffi_event_envelopes_of(events)[i] == ffi_event_envelope_of(
            events[i],
        ),
        ffi_optional_item_of(None) is None,
        0 <= i < items.len() ==> ffi_optional_item_of(Some(items[i])) == Some(
            ffi_inbox_item_of(items[i]),
        ),
{
}

/// An optional path is shown exactly where there is one.
pub proof fn optional_paths_are_shown(path: AgentPathKind)
    ensures
        ffi_optional_path_of(Some(path)) == Some(ffi_path_kind_of(path)),
        ffi_optional_path_of(None) is None,
{
}

/// A request reaches the agent under its own name, with everything that it names.
/// It is refused only where it asks for more than this platform can count.
pub proof fn agent_requests_keep_their_data(request: AgentRequestView)
    ensures
        request is Status ==> core_request_of(request) == Ok::<CoreRequestView, ControlErrorView>(
            CoreRequestView::Status,
        ),
        request matches AgentRequestView::Snapshot { inbox_limit } ==> (inbox_limit <= usize::MAX
            ==> core_request_of(request) == Ok::<CoreRequestView, ControlErrorView>(
            CoreRequestView::Snapshot { inbox_limit: inbox_limit as usize },
        )),
        request matches AgentRequestView::Events { after, limit } ==> (limit <= usize::MAX
            ==> core_request_of(request) == Ok::<CoreRequestView, ControlErrorView>(
            CoreRequestView::Events { after: core_cursor_of(after), limit: limit as usize },
        )),
        request matches AgentRequestView::Pair { label } ==> core_request_of(request) == Ok::<
            CoreRequestView,
            ControlErrorView,
        >(CoreRequestView::Pair { label }),
        request matches AgentRequestView::JoinPairing { pairing } ==> core_request_of(request)
            == Ok::<CoreRequestView, ControlErrorView>(
            CoreRequestView::JoinPairing { pairing: core_pairing_of(pairing) },
        ),
        request is ListDevices ==> core_request_of(request) == Ok::<
            CoreRequestView,
            ControlErrorView,
        >(CoreRequestView::ListDevices),
        request matches AgentRequestView::RevokeDevice { device } ==> core_request_of(request)
            == Ok::<CoreRequestView, ControlErrorView>(CoreRequestView::RevokeDevice { device }),
        request matches AgentRequestView::UpdateDeviceRoute { device, broker, relay }
            ==> core_request_of(request) == Ok::<CoreRequestView, ControlErrorView>(
            CoreRequestView::UpdateDeviceRoute { device, broker, relay },
        ),
        request matches AgentRequestView::CreateTransfer { device, paths } ==> core_request_of(
            request,
        ) == Ok::<CoreRequestView, ControlErrorView>(
            CoreRequestView::CreateTransfer { device, paths },
        ),
        request is ListTransfers ==> core_request_of(request) == Ok::<
            CoreRequestView,
            ControlErrorView,
        >(CoreRequestView::ListTransfers),
        request is ListTransferPaths ==> core_request_of(request) == Ok::<
            CoreRequestView,
            ControlErrorView,
        >(CoreRequestView::ListTransferPaths),
        request matches AgentRequestView::GetTransfer { transfer_id } ==> core_request_of(request)
            == Ok::<CoreRequestView, ControlErrorView>(
            CoreRequestView::GetTransfer { transfer_id },
        ),
        request is ListPendingOffers ==> core_request_of(request) == Ok::<
            CoreRequestView,
            ControlErrorView,
        >(CoreRequestView::ListPendingOffers),
        request matches AgentRequestView::DecidePendingOffer { offer_id, decision }
            ==> core_request_of(request) == Ok::<CoreRequestView, ControlErrorView>(
            CoreRequestView::DecidePendingOffer { offer_id, decision: core_decision_of(decision) },
        ),
        request matches AgentRequestView::ListInbox { limit } ==> (limit <= usize::MAX
            ==> core_request_of(request) == Ok::<CoreRequestView, ControlErrorView>(
            CoreRequestView::ListInbox { limit: limit as usize },
        )),
        request is LatestInbox ==> core_request_of(request) == Ok::<
            CoreRequestView,
            ControlErrorView,
        >(CoreRequestView::LatestInbox),
        request is Diagnostics ==> core_request_of(request) == Ok::<
            CoreRequestView,
            ControlErrorView,
        >(CoreRequestView::Diagnostics),
        core_request_of(request) matches Err(error) ==> error->code is InvalidInput && (
        request is Snapshot || request is Events || request is ListInbox),
{
}

/// A failed connection to an agent is told by what clients can do about it, with
/// its own reason.
pub proof fn control_errors_are_told_apart(error: IoFailureView)
    ensures
        control_error_of(error) == (ControlErrorView::Failed {
            code: control_code_of(error),
            reason: error.message,
        }),
        control_code_of(error) is InvalidInput <==> error.kind is InvalidInput,
        control_code_of(error) is PermissionDenied <==> error.kind is PermissionDenied,
        control_code_of(error) is Unavailable <==> error.kind is NotFound || error.kind
            is ConnectionRefused || error.kind is ConnectionReset || error.kind
            is ConnectionAborted || error.kind is NotConnected || error.kind is BrokenPipe
            || error.kind is TimedOut,
        control_code_of(error) is IncompatibleProtocol <==> error.kind is Unsupported && occurs_in(
            "unsupported Agent protocol"@,
            error.message,
        ),
        control_code_of(error) is UnsupportedPlatform <==> error.kind is Unsupported && !occurs_in(
            "unsupported Agent protocol"@,
            error.message,
        ),
        control_code_of(error) is InvalidResponse <==> error.kind is InvalidData || error.kind
            is UnexpectedEof,
        control_code_of(error) is IoFailure <==> error.kind is Other,
{
}

/// An endpoint is taken exactly where it is visible and bounded, and absolute where
/// it is a path.
pub proof fn endpoints_are_visible_paths(endpoint: Seq<char>, platform: HostPlatform, absolute: bool)
    ensures
        endpoint_refusal(endpoint, platform, absolute) is None <==> endpoint.len() > 0
            && encode_utf8(endpoint).len() <= 4096 && !has_control(endpoint)
            && (platform is UnixSocket ==> absolute),
        endpoint_refusal(endpoint, platform, absolute) matches Some(error) ==> error->code
            is InvalidInput,
        is_socket_path(endpoint) <==> endpoint.len() > 0 && endpoint[0] == '/',
{
}

/// An agent that is shut down is told by how its task ended: a task that failed,
/// was canceled or broke is an error, and so is a failed agent.
pub proof fn shutdowns_tell_how_the_task_ended(state: AgentLifecycleView, failure: AgentHostFailure)
    ensures
        shutdown_of(Some(HostTaskEnd::Failed(failure)), state) == Err::<
            LifecycleView,
            HostErrorView,
        >(
            HostErrorView::Failed {
                code: ffi_host_code_of(failure@.code),
                reason: failure@.reason,
            },
        ),
        shutdown_of(Some(HostTaskEnd::Canceled), state) == Err::<LifecycleView, HostErrorView>(
            HostErrorView::Failed {
                code: FfiAgentHostErrorCode::Internal,
                reason: "Agent host task was canceled"@,
            },
        ),
        shutdown_of(Some(HostTaskEnd::Broken), state) == Err::<LifecycleView, HostErrorView>(
            HostErrorView::Failed {
                code: FfiAgentHostErrorCode::Internal,
                reason: "Agent host task failed"@,
            },
        ),
        state matches AgentLifecycleView::Failed { failure: reported } ==> shutdown_of(None, state)
            == Err::<LifecycleView, HostErrorView>(
            HostErrorView::Failed {
                code: ffi_host_code_of(reported.code),
                reason: reported.reason,
            },
        ),
        !(state is Failed) ==> shutdown_of(None, state) == Ok::<LifecycleView, HostErrorView>(
            ffi_lifecycle_of(state),
        ),
{
}

/// A number is taken exactly where this platform can count it, and as it is.
pub proof fn numbers_fit_this_platform(value: u64, name: Seq<char>)
    ensures
        value <= usize::MAX ==> bounded(value, name) == Ok::<usize, ControlErrorView>(
            value as usize,
        ),
        value > usize::MAX ==> bounded(value, name) == Err::<usize, ControlErrorView>(
            ControlErrorView::Failed {
                code: FfiAgentControlErrorCode::InvalidInput,
                reason: "Agent "@ + name + " does not fit this platform"@,
            },
        ),
        no_control_transport()->code is UnsupportedPlatform,
{
}

} // verus!
