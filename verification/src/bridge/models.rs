//! Records and enumerations of the durable transfer-card API, with the
//! mathematical view that contracts speak of.
use vstd::prelude::*;

use crate::common::{FfiFailureOrigin, FfiPathPolicy, FfiRendezvousPlan};
use crate::text::text_seq;

verus! {

broadcast use vstd::seq_lib::group_seq_properties;

/// Runtime settings supplied by native UIs.
#[derive(Debug, PartialEq, Eq)]
pub struct EnvoixRuntimeSettings {
    /// Whether the UI permits send and receive tasks at the same time.
    pub concurrent_transfers: bool,
    /// UI language preference, kept for cross-platform settings parity.
    pub language: String,
    /// Optional rendezvous broker URL/address. Empty uses the built-in default.
    pub server_url: String,
    /// Optional relay URL. Empty uses the built-in default.
    pub relay_url: String,
    /// Optional path to a runtime configuration file. Empty means none.
    pub config_path: String,
    /// Reserved for future throttling; currently advisory only.
    pub speed_limit_mbps: u64,
}

/// What a [`EnvoixRuntimeSettings`] holds.
#[verifier::ext_equal]
pub struct SettingsView {
    pub concurrent_transfers: bool,
    pub language: Seq<char>,
    pub server_url: Seq<char>,
    pub relay_url: Seq<char>,
    pub config_path: Seq<char>,
    pub speed_limit_mbps: u64,
}

impl View for EnvoixRuntimeSettings {
    type V = SettingsView;

    open spec fn view(&self) -> SettingsView {
        SettingsView {
            concurrent_transfers: self.concurrent_transfers,
            language: self.language@,
            server_url: self.server_url@,
            relay_url: self.relay_url@,
            config_path: self.config_path@,
            speed_limit_mbps: self.speed_limit_mbps,
        }
    }
}

impl Clone for EnvoixRuntimeSettings {
    fn clone(&self) -> (r: Self)
        ensures
            r == *self,
    {
        EnvoixRuntimeSettings {
            concurrent_transfers: self.concurrent_transfers,
            language: self.language.clone(),
            server_url: self.server_url.clone(),
            relay_url: self.relay_url.clone(),
            config_path: self.config_path.clone(),
            speed_limit_mbps: self.speed_limit_mbps,
        }
    }
}

/// Error surfaced to native callers.
#[derive(Debug, PartialEq, Eq)]
pub enum EnvoixError {
    /// An operation failed; `reason` is human readable.
    Operation {
        /// Human-readable operation failure reason.
        reason: String,
    },
}

impl EnvoixError {
    /// The human-readable reason.
    pub open spec fn reason_view(self) -> Seq<char> {
        match self {
            EnvoixError::Operation { reason } => reason@,
        }
    }

    /// The text shown for this error.
    pub fn message(&self) -> (r: String)
        ensures
            r@ == self.reason_view(),
    {
        match self {
            EnvoixError::Operation { reason } => reason.clone(),
        }
    }
}

/// Role advertised by the creator of a pairing invite.
#[derive(Clone, Copy, Debug, PartialEq, Eq, Structural)]
pub enum FfiInviteRole {
    Send,
    Receive,
    Unknown,
}

/// A pairing invite as the native UI shows it.
#[derive(Debug, PartialEq, Eq)]
pub struct FfiPairingInvite {
    /// Short pairing code typed by users and reused as the mDNS token.
    pub code: String,
    /// `envoix://pair/...` payload rendered into the QR code.
    pub payload: String,
    /// Broker advertised by the QR payload, empty when the input was a bare code.
    pub broker: String,
    /// Relay advertised by the QR payload, empty when not supplied.
    pub relay: String,
    /// Role advertised by the payload creator; scanners should choose the opposite.
    pub role: FfiInviteRole,
}

/// What a [`FfiPairingInvite`] holds.
#[verifier::ext_equal]
pub struct PairingInviteView {
    pub code: Seq<char>,
    pub payload: Seq<char>,
    pub broker: Seq<char>,
    pub relay: Seq<char>,
    pub role: FfiInviteRole,
}

impl View for FfiPairingInvite {
    type V = PairingInviteView;

    open spec fn view(&self) -> PairingInviteView {
        PairingInviteView {
            code: self.code@,
            payload: self.payload@,
            broker: self.broker@,
            relay: self.relay@,
            role: self.role,
        }
    }
}

impl Clone for FfiPairingInvite {
    fn clone(&self) -> (r: Self)
        ensures
            r == *self,
    {
        FfiPairingInvite {
            code: self.code.clone(),
            payload: self.payload.clone(),
            broker: self.broker.clone(),
            relay: self.relay.clone(),
            role: self.role,
        }
    }
}

/// Direction of a transfer, seen from this device.
#[derive(Clone, Copy, Debug, PartialEq, Eq, Structural)]
pub enum FfiTransferDirection {
    Send,
    Receive,
    Unknown,
}

/// How the two peers find each other.
#[derive(Clone, Copy, Debug, PartialEq, Eq, Structural)]
pub enum FfiTransferMode {
    Manual,
    Invite,
    ShowManual,
    ShowInvite,
    Mdns,
    Room,
    Unknown,
}

/// Parallelism and speed limits of a request.
#[derive(Clone, Copy, Debug, PartialEq, Eq, Structural)]
pub struct FfiTransferLimits {
    /// Maximum independent transfer tasks a native queue may run at once.
    pub max_parallel_transfers: u32,
    /// Reserved for directory/multi-file sends. Current engine supports one file.
    pub max_parallel_files: u32,
    /// Reserved for future chunk-level parallelism. Current engine supports one chunk stream.
    pub max_parallel_chunks_per_file: u32,
    /// Advisory speed cap in bytes/s. Zero means unlimited.
    pub speed_limit_bps: u64,
}

/// One transfer as a native client asks for it.
#[derive(Debug, PartialEq, Eq)]
pub struct FfiTransferRequest {
    /// Native-side activity id used to correlate pre-start events in a queue.
    pub activity_id: String,
    pub direction: FfiTransferDirection,
    pub mode: FfiTransferMode,
    pub file_path: String,
    pub output_dir: String,
    pub peer_descriptor: String,
    pub invite: String,
    pub code: String,
    pub token: String,
    pub broker: String,
    pub relay: String,
    pub config_path: String,
    pub path_policy: FfiPathPolicy,
    pub resume: bool,
    /// Receive into staging, then wait for the native shell to publish to the
    /// user-selected destination.
    pub publication_required: bool,
    pub limits: FfiTransferLimits,
    pub rendezvous: FfiRendezvousPlan,
}

/// What a [`FfiTransferRequest`] holds.
#[verifier::ext_equal]
pub struct RequestView {
    pub activity_id: Seq<char>,
    pub direction: FfiTransferDirection,
    pub mode: FfiTransferMode,
    pub file_path: Seq<char>,
    pub output_dir: Seq<char>,
    pub peer_descriptor: Seq<char>,
    pub invite: Seq<char>,
    pub code: Seq<char>,
    pub token: Seq<char>,
    pub broker: Seq<char>,
    pub relay: Seq<char>,
    pub config_path: Seq<char>,
    pub path_policy: FfiPathPolicy,
    pub resume: bool,
    pub publication_required: bool,
    pub limits: FfiTransferLimits,
    pub rendezvous: FfiRendezvousPlan,
}

impl View for FfiTransferRequest {
    type V = RequestView;

    open spec fn view(&self) -> RequestView {
        RequestView {
            activity_id: self.activity_id@,
            direction: self.direction,
            mode: self.mode,
            file_path: self.file_path@,
            output_dir: self.output_dir@,
            peer_descriptor: self.peer_descriptor@,
            invite: self.invite@,
            code: self.code@,
            token: self.token@,
            broker: self.broker@,
            relay: self.relay@,
            config_path: self.config_path@,
            path_policy: self.path_policy,
            resume: self.resume,
            publication_required: self.publication_required,
            limits: self.limits,
            rendezvous: self.rendezvous,
        }
    }
}

impl Clone for FfiTransferRequest {
    fn clone(&self) -> (r: Self)
        ensures
            r == *self,
    {
        FfiTransferRequest {
            activity_id: self.activity_id.clone(),
            direction: self.direction,
            mode: self.mode,
            file_path: self.file_path.clone(),
            output_dir: self.output_dir.clone(),
            peer_descriptor: self.peer_descriptor.clone(),
            invite: self.invite.clone(),
            code: self.code.clone(),
            token: self.token.clone(),
            broker: self.broker.clone(),
            relay: self.relay.clone(),
            config_path: self.config_path.clone(),
            path_policy: self.path_policy,
            resume: self.resume,
            publication_required: self.publication_required,
            limits: self.limits,
            rendezvous: self.rendezvous,
        }
    }
}

/// Lifecycle step that an event reports.
#[derive(Clone, Copy, Debug, PartialEq, Eq, Structural)]
pub enum FfiTransferEventKind {
    Binding,
    Advertised,
    Pairing,
    Connecting,
    Connected,
    PathChanged,
    Started,
    Progress,
    Verifying,
    Verified,
    Completed,
    Failed,
    Unknown,
}

/// Step of a room pairing.
#[derive(Clone, Copy, Debug, PartialEq, Eq, Structural)]
pub enum FfiPairingStep {
    NoStep,
    Joining,
    Matched,
    Exchanged,
}

/// Class of the selected data path.
#[derive(Clone, Copy, Debug, PartialEq, Eq, Structural)]
pub enum FfiDataPathKind {
    NoPath,
    Direct,
    Relay,
    Other,
}

/// One lifecycle event as native clients see it.
#[derive(Debug, PartialEq, Eq)]
pub struct FfiTransferEvent {
    pub activity_id: String,
    pub kind: FfiTransferEventKind,
    pub ts_ms: u64,
    pub direction: FfiTransferDirection,
    pub mode: FfiTransferMode,
    pub transfer_id: String,
    pub file_name: String,
    pub total_bytes: u64,
    pub bytes_transferred: u64,
    pub bytes_resumed: u64,
    pub pairing_step: FfiPairingStep,
    pub data_path_kind: FfiDataPathKind,
    pub data_path_detail: String,
    pub invite: String,
    pub token: String,
    pub peer_descriptor: String,
    pub diagnostic_message: String,
}

/// What a [`FfiTransferEvent`] holds.
#[verifier::ext_equal]
pub struct EventView {
    pub activity_id: Seq<char>,
    pub kind: FfiTransferEventKind,
    pub ts_ms: u64,
    pub direction: FfiTransferDirection,
    pub mode: FfiTransferMode,
    pub transfer_id: Seq<char>,
    pub file_name: Seq<char>,
    pub total_bytes: u64,
    pub bytes_transferred: u64,
    pub bytes_resumed: u64,
    pub pairing_step: FfiPairingStep,
    pub data_path_kind: FfiDataPathKind,
    pub data_path_detail: Seq<char>,
    pub invite: Seq<char>,
    pub token: Seq<char>,
    pub peer_descriptor: Seq<char>,
    pub diagnostic_message: Seq<char>,
}

impl View for FfiTransferEvent {
    type V = EventView;

    open spec fn view(&self) -> EventView {
        EventView {
            activity_id: self.activity_id@,
            kind: self.kind,
            ts_ms: self.ts_ms,
            direction: self.direction,
            mode: self.mode,
            transfer_id: self.transfer_id@,
            file_name: self.file_name@,
            total_bytes: self.total_bytes,
            bytes_transferred: self.bytes_transferred,
            bytes_resumed: self.bytes_resumed,
            pairing_step: self.pairing_step,
            data_path_kind: self.data_path_kind,
            data_path_detail: self.data_path_detail@,
            invite: self.invite@,
            token: self.token@,
            peer_descriptor: self.peer_descriptor@,
            diagnostic_message: self.diagnostic_message@,
        }
    }
}

impl Clone for FfiTransferEvent {
    fn clone(&self) -> (r: Self)
        ensures
            r == *self,
    {
        FfiTransferEvent {
            activity_id: self.activity_id.clone(),
            kind: self.kind,
            ts_ms: self.ts_ms,
            direction: self.direction,
            mode: self.mode,
            transfer_id: self.transfer_id.clone(),
            file_name: self.file_name.clone(),
            total_bytes: self.total_bytes,
            bytes_transferred: self.bytes_transferred,
            bytes_resumed: self.bytes_resumed,
            pairing_step: self.pairing_step,
            data_path_kind: self.data_path_kind,
            data_path_detail: self.data_path_detail.clone(),
            invite: self.invite.clone(),
            token: self.token.clone(),
            peer_descriptor: self.peer_descriptor.clone(),
            diagnostic_message: self.diagnostic_message.clone(),
        }
    }
}

/// State of an activity card.
#[derive(Clone, Copy, Debug, PartialEq, Eq, Structural)]
pub enum FfiTransferActivityState {
    Queued,
    Binding,
    WaitingForPeer,
    Pairing,
    Connecting,
    Transferring,
    Verifying,
    Unconfirmed,
    Publishing,
    Completed,
    Failed,
    Paused,
    Canceled,
    Unknown,
}

/// Runtime identity used to detect a stale but otherwise loadable native core.
#[derive(Debug, PartialEq, Eq)]
pub struct FfiCoreInfo {
    pub ffi_api_version: u32,
    pub core_version: String,
    pub capabilities: Vec<String>,
}

/// What a [`FfiCoreInfo`] holds.
#[verifier::ext_equal]
pub struct CoreInfoView {
    pub ffi_api_version: u32,
    pub core_version: Seq<char>,
    pub capabilities: Seq<Seq<char>>,
}

impl View for FfiCoreInfo {
    type V = CoreInfoView;

    open spec fn view(&self) -> CoreInfoView {
        CoreInfoView {
            ffi_api_version: self.ffi_api_version,
            core_version: self.core_version@,
            capabilities: text_seq(self.capabilities@),
        }
    }
}

impl Clone for FfiCoreInfo {
    fn clone(&self) -> (r: Self)
        ensures
            r@ == self@,
    {
        let r = FfiCoreInfo {
            ffi_api_version: self.ffi_api_version,
            core_version: self.core_version.clone(),
            capabilities: self.capabilities.clone(),
        };
        assert(text_seq(r.capabilities@) =~= text_seq(self.capabilities@));
        r
    }
}

/// Canonical action policy for an activity card.
#[derive(Clone, Copy, Debug, PartialEq, Eq, Structural)]
pub struct FfiTransferActivityActions {
    pub can_pause: bool,
    pub can_resume: bool,
    pub can_cancel: bool,
    pub can_delete: bool,
    pub is_finalizing: bool,
}

/// Machine-readable failure code.
#[derive(Clone, Copy, Debug, PartialEq, Eq, Structural)]
pub enum FfiFailureCode {
    UserCanceled,
    PeerCanceled,
    NetworkLost,
    PeerUnreachable,
    AuthenticationFailed,
    PermissionDenied,
    DiskFull,
    HashMismatch,
    ProtocolError,
    DestinationConflict,
    UnsupportedFeature,
    Timeout,
    InternalError,
    SenderSourceUnavailable,
    SenderPermissionLost,
    SenderSourceChanged,
    SenderItemRemoved,
    SenderCanceled,
    ProtocolOrIntegrityFailure,
    ReceiverSpaceInsufficient,
    ReceiverDestinationDecisionRequired,
    ReceiverDestinationUnavailable,
    ReceiverSaveFailed,
    ReceiverReusedObjectLost,
    ReceiverFinalizationOutcomeUnknown,
    Unknown,
}

/// Broad class of a failure.
#[derive(Clone, Copy, Debug, PartialEq, Eq, Structural)]
pub enum FfiFailureCategory {
    User,
    Network,
    Authentication,
    Permission,
    Storage,
    Integrity,
    Protocol,
    Unsupported,
    Internal,
    Unknown,
}

/// Step in which a failure happened.
#[derive(Clone, Copy, Debug, PartialEq, Eq, Structural)]
pub enum FfiFailurePhase {
    Setup,
    Binding,
    Advertising,
    Pairing,
    Connecting,
    Authenticating,
    Negotiating,
    Transferring,
    Verifying,
    Committing,
    Acknowledging,
    CleaningUp,
}

/// What a user can do about a failure.
#[derive(Clone, Copy, Debug, PartialEq, Eq, Structural)]
pub enum FfiRecoveryAction {
    Retry,
    Resume,
    ChooseFolder,
    OpenSettings,
    RePair,
    UpdateApp,
    SwitchPairingMethod,
    DiscardPartial,
    NoAction,
}

/// One activity card.
#[derive(Debug, PartialEq, Eq)]
pub struct FfiTransferActivityRecord {
    pub activity_id: String,
    /// Monotonic canonical snapshot sequence; native clients discard older
    /// deliveries when platform callback scheduling reorders them.
    pub sequence: u64,
    pub attempt_id: String,
    pub state: FfiTransferActivityState,
    pub direction: FfiTransferDirection,
    pub mode: FfiTransferMode,
    pub transfer_id: String,
    pub file_name: String,
    pub total_bytes: u64,
    pub bytes_transferred: u64,
    pub bytes_resumed: u64,
    pub speed_bps: u64,
    pub average_speed_bps: u64,
    pub created_at_ms: u64,
    pub updated_at_ms: u64,
    pub started_at_ms: u64,
    pub completed_at_ms: u64,
    pub completed_file_path: String,
    pub data_path_kind: FfiDataPathKind,
    pub data_path_detail: String,
    pub invite: String,
    pub token: String,
    pub peer_descriptor: String,
    pub diagnostic_message: String,
    pub failure_code: FfiFailureCode,
    pub failure_category: FfiFailureCategory,
    pub failure_phase: FfiFailurePhase,
    pub failure_origin: FfiFailureOrigin,
    pub user_message_key: String,
    pub retryable: bool,
    pub recovery_action: FfiRecoveryAction,
    pub limits: FfiTransferLimits,
}

/// What a [`FfiTransferActivityRecord`] holds.
#[verifier::ext_equal]
pub struct ActivityView {
    pub activity_id: Seq<char>,
    pub sequence: u64,
    pub attempt_id: Seq<char>,
    pub state: FfiTransferActivityState,
    pub direction: FfiTransferDirection,
    pub mode: FfiTransferMode,
    pub transfer_id: Seq<char>,
    pub file_name: Seq<char>,
    pub total_bytes: u64,
    pub bytes_transferred: u64,
    pub bytes_resumed: u64,
    pub speed_bps: u64,
    pub average_speed_bps: u64,
    pub created_at_ms: u64,
    pub updated_at_ms: u64,
    pub started_at_ms: u64,
    pub completed_at_ms: u64,
    pub completed_file_path: Seq<char>,
    pub data_path_kind: FfiDataPathKind,
    pub data_path_detail: Seq<char>,
    pub invite: Seq<char>,
    pub token: Seq<char>,
    pub peer_descriptor: Seq<char>,
    pub diagnostic_message: Seq<char>,
    pub failure_code: FfiFailureCode,
    pub failure_category: FfiFailureCategory,
    pub failure_phase: FfiFailurePhase,
    pub failure_origin: FfiFailureOrigin,
    pub user_message_key: Seq<char>,
    pub retryable: bool,
    pub recovery_action: FfiRecoveryAction,
    pub limits: FfiTransferLimits,
}

impl View for FfiTransferActivityRecord {
    type V = ActivityView;

    open spec fn view(&self) -> ActivityView {
        ActivityView {
            activity_id: self.activity_id@,
            sequence: self.sequence,
            attempt_id: self.attempt_id@,
            state: self.state,
            direction: self.direction,
            mode: self.mode,
            transfer_id: self.transfer_id@,
            file_name: self.file_name@,
            total_bytes: self.total_bytes,
            bytes_transferred: self.bytes_transferred,
            bytes_resumed: self.bytes_resumed,
            speed_bps: self.speed_bps,
            average_speed_bps: self.average_speed_bps,
            created_at_ms: self.created_at_ms,
            updated_at_ms: self.updated_at_ms,
            started_at_ms: self.started_at_ms,
            completed_at_ms: self.completed_at_ms,
            completed_file_path: self.completed_file_path@,
            data_path_kind: self.data_path_kind,
            data_path_detail: self.data_path_detail@,
            invite: self.invite@,
            token: self.token@,
            peer_descriptor: self.peer_descriptor@,
            diagnostic_message: self.diagnostic_message@,
            failure_code: self.failure_code,
            failure_category: self.failure_category,
            failure_phase: self.failure_phase,
            failure_origin: self.failure_origin,
            user_message_key: self.user_message_key@,
            retryable: self.retryable,
            recovery_action: self.recovery_action,
            limits: self.limits,
        }
    }
}

impl Clone for FfiTransferActivityRecord {
    fn clone(&self) -> (r: Self)
        ensures
            r == *self,
    {
        FfiTransferActivityRecord {
            activity_id: self.activity_id.clone(),
            sequence: self.sequence,
            attempt_id: self.attempt_id.clone(),
            state: self.state,
            direction: self.direction,
            mode: self.mode,
            transfer_id: self.transfer_id.clone(),
            file_name: self.file_name.clone(),
            total_bytes: self.total_bytes,
            bytes_transferred: self.bytes_transferred,
            bytes_resumed: self.bytes_resumed,
            speed_bps: self.speed_bps,
            average_speed_bps: self.average_speed_bps,
            created_at_ms: self.created_at_ms,
            updated_at_ms: self.updated_at_ms,
            started_at_ms: self.started_at_ms,
            completed_at_ms: self.completed_at_ms,
            completed_file_path: self.completed_file_path.clone(),
            data_path_kind: self.data_path_kind,
            data_path_detail: self.data_path_detail.clone(),
            invite: self.invite.clone(),
            token: self.token.clone(),
            peer_descriptor: self.peer_descriptor.clone(),
            diagnostic_message: self.diagnostic_message.clone(),
            failure_code: self.failure_code,
            failure_category: self.failure_category,
            failure_phase: self.failure_phase,
            failure_origin: self.failure_origin,
            user_message_key: self.user_message_key.clone(),
            retryable: self.retryable,
            recovery_action: self.recovery_action,
            limits: self.limits,
        }
    }
}

/// A classified transfer failure.
#[derive(Debug, PartialEq, Eq)]
pub struct FfiTransferFailure {
    pub code: FfiFailureCode,
    pub category: FfiFailureCategory,
    pub phase: FfiFailurePhase,
    pub origin: FfiFailureOrigin,
    pub direction: FfiTransferDirection,
    pub transfer_id: String,
    pub attempt_id: String,
    pub retryable: bool,
    pub recovery_action: FfiRecoveryAction,
    pub user_message_key: String,
    pub diagnostic_message: String,
}

/// What a [`FfiTransferFailure`] holds.
#[verifier::ext_equal]
pub struct FailureView {
    pub code: FfiFailureCode,
    pub category: FfiFailureCategory,
    pub phase: FfiFailurePhase,
    pub origin: FfiFailureOrigin,
    pub direction: FfiTransferDirection,
    pub transfer_id: Seq<char>,
    pub attempt_id: Seq<char>,
    pub retryable: bool,
    pub recovery_action: FfiRecoveryAction,
    pub user_message_key: Seq<char>,
    pub diagnostic_message: Seq<char>,
}

impl View for FfiTransferFailure {
    type V = FailureView;

    open spec fn view(&self) -> FailureView {
        FailureView {
            code: self.code,
            category: self.category,
            phase: self.phase,
            origin: self.origin,
            direction: self.direction,
            transfer_id: self.transfer_id@,
            attempt_id: self.attempt_id@,
            retryable: self.retryable,
            recovery_action: self.recovery_action,
            user_message_key: self.user_message_key@,
            diagnostic_message: self.diagnostic_message@,
        }
    }
}

impl Clone for FfiTransferFailure {
    fn clone(&self) -> (r: Self)
        ensures
            r == *self,
    {
        FfiTransferFailure {
            code: self.code,
            category: self.category,
            phase: self.phase,
            origin: self.origin,
            direction: self.direction,
            transfer_id: self.transfer_id.clone(),
            attempt_id: self.attempt_id.clone(),
            retryable: self.retryable,
            recovery_action: self.recovery_action,
            user_message_key: self.user_message_key.clone(),
            diagnostic_message: self.diagnostic_message.clone(),
        }
    }
}

/// Frontend-owned destination for publishing a staged receive.
#[derive(Debug, PartialEq, Eq)]
pub struct FfiNativePublicationTarget {
    pub destination_path: String,
    pub bookmark: Vec<u8>,
}

/// What a [`FfiNativePublicationTarget`] holds.
#[verifier::ext_equal]
pub struct PublicationTargetView {
    pub destination_path: Seq<char>,
    pub bookmark: Seq<u8>,
}

impl View for FfiNativePublicationTarget {
    type V = PublicationTargetView;

    open spec fn view(&self) -> PublicationTargetView {
        PublicationTargetView {
            destination_path: self.destination_path@,
            bookmark: self.bookmark@,
        }
    }
}

impl Clone for FfiNativePublicationTarget {
    fn clone(&self) -> (r: Self)
        ensures
            r@ == self@,
    {
        let r = FfiNativePublicationTarget {
            destination_path: self.destination_path.clone(),
            bookmark: self.bookmark.clone(),
        };
        assert(r.bookmark@ =~= self.bookmark@);
        r
    }
}

/// Publication state that survives a restart.
#[derive(Debug, PartialEq, Eq)]
pub struct PersistedNativePublication {
    pub target: Option<FfiNativePublicationTarget>,
    pub failure: Option<FfiTransferFailure>,
}

/// What a [`PersistedNativePublication`] holds.
#[verifier::ext_equal]
pub struct PublicationView {
    pub target: Option<PublicationTargetView>,
    pub failure: Option<FailureView>,
}

impl View for PersistedNativePublication {
    type V = PublicationView;

    open spec fn view(&self) -> PublicationView {
        PublicationView {
            target: match self.target { Some(x) => Some(x@), None => None },
            failure: match self.failure { Some(x) => Some(x@), None => None },
        }
    }
}

impl Clone for PersistedNativePublication {
    fn clone(&self) -> (r: Self)
        ensures
            r@ == self@,
    {
        let r = PersistedNativePublication {
            target: self.target.clone(),
            failure: self.failure.clone(),
        };
        r
    }
}

impl Default for PersistedNativePublication {
    fn default() -> (r: Self)
        ensures
            r@ == (PublicationView { target: None, failure: None }),
    {
        PersistedNativePublication { target: None, failure: None }
    }
}

impl Default for EnvoixRuntimeSettings {
    fn default() -> (r: Self)
        ensures
            r@ == (SettingsView {
                concurrent_transfers: true,
                language: "en"@,
                server_url: Seq::empty(),
                relay_url: Seq::empty(),
                config_path: Seq::empty(),
                speed_limit_mbps: 40,
            }),
    {
        EnvoixRuntimeSettings {
            concurrent_transfers: true,
            language: "en".to_owned(),
            server_url: String::new(),
            relay_url: String::new(),
            config_path: String::new(),
            speed_limit_mbps: 40,
        }
    }
}

impl Default for FfiTransferLimits {
    fn default() -> (r: Self)
        ensures
            r == (FfiTransferLimits {
                max_parallel_transfers: 1,
                max_parallel_files: 1,
                max_parallel_chunks_per_file: 1,
                speed_limit_bps: 0,
            }),
    {
        FfiTransferLimits {
            max_parallel_transfers: 1,
            max_parallel_files: 1,
            max_parallel_chunks_per_file: 1,
            speed_limit_bps: 0,
        }
    }
}

/// Observer of one transfer.
pub trait TransferObserver {
    /// Receiver only: the invite to show or to share.
    fn on_invite_ready(&self, invite: String);

    /// A transfer started; `total_bytes` is the size of the file.
    fn on_started(&self, file_name: String, total_bytes: u64);

    /// `transferred` of `total` bytes are done.
    fn on_progress(&self, transferred: u64, total: u64);

    /// The transfer finished and was verified.
    fn on_completed(&self, bytes: u64);

    /// The transfer failed, with its classification.
    fn on_transfer_failed(&self, failure: FfiTransferFailure);

    /// The transfer failed, with a reason for people.
    fn on_failed(&self, reason: String);

    /// An event of the transfer's lifecycle.
    fn on_transfer_event(&self, event: FfiTransferEvent);

    /// The card after an event.
    fn on_transfer_activity(&self, record: FfiTransferActivityRecord);

    /// A text for display or logging.
    fn on_status(&self, message: String);
}

/// Courier of delivery receipts.
pub trait MailboxObserver {
    fn on_fetch_receipt(&self, activity_id: String, key: String);

    fn on_post_receipt(&self, activity_id: String, key: String, blob: Vec<u8>);
}

/// Courier of delivery receipts that is told the endpoint of its session. No
/// endpoint means the configured one.
pub trait MailboxObserverV2 {
    fn on_fetch_receipt(&self, activity_id: String, key: String, server: Option<String>);

    fn on_post_receipt(
        &self,
        activity_id: String,
        key: String,
        blob: Vec<u8>,
        server: Option<String>,
    );
}

} // verus!
