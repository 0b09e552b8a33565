//! Values that the transfer engine hands to the bindings and takes from them,
//! held as plain data.
use vstd::prelude::*;

use crate::text::{text_option, text_seq};

verus! {

broadcast use vstd::seq_lib::group_seq_properties;

/// Direction of an engine transfer.
#[derive(Clone, Copy, Debug, PartialEq, Eq, Structural)]
pub enum TransferDirection {
    Send,
    Receive,
}

/// Pairing mode of an engine source.
#[derive(Clone, Copy, Debug, PartialEq, Eq, Structural)]
pub enum TransferMode {
    Manual,
    Invite,
    ShowManual,
    ShowInvite,
    Mdns,
    Room,
}

/// Step of a room pairing.
#[derive(Clone, Copy, Debug, PartialEq, Eq, Structural)]
pub enum PairingStep {
    Joining,
    Matched,
    Exchanged,
}

/// Role advertised in a pairing invite.
#[derive(Clone, Copy, Debug, PartialEq, Eq, Structural)]
pub enum Role {
    Send,
    Receive,
}

/// Network paths the engine may use.
#[derive(Clone, Copy, Debug, PartialEq, Eq, Structural)]
pub enum PathPolicy {
    Auto,
    RelayOnly,
    DirectOnly,
}

/// The selected data path.
#[derive(Debug, PartialEq, Eq)]
pub enum DataPath {
    Direct { addr: String },
    Relay { url: String },
    Other { description: String },
}

/// What a [`DataPath`] holds.
#[verifier::ext_equal]
pub enum DataPathView {
    Direct { addr: Seq<char> },
    Relay { url: Seq<char> },
    Other { description: Seq<char> },
}

impl View for DataPath {
    type V = DataPathView;

    open spec fn view(&self) -> DataPathView {
        match *self {
            DataPath::Direct { addr } => DataPathView::Direct { addr: addr@ },
            DataPath::Relay { url } => DataPathView::Relay { url: url@ },
            DataPath::Other { description } => DataPathView::Other { description: description@ },
        }
    }
}

impl Clone for DataPath {
    fn clone(&self) -> (r: Self)
        ensures
            r == *self,
    {
        match self {
            DataPath::Direct { addr } => DataPath::Direct { addr: addr.clone() },
            DataPath::Relay { url } => DataPath::Relay { url: url.clone() },
            DataPath::Other { description } => DataPath::Other { description: description.clone() },
        }
    }
}

/// Who paused a session.
#[derive(Clone, Copy, Debug, PartialEq, Eq, Structural)]
pub enum PauseOrigin {
    Local,
    Peer,
    Lost,
}

/// State of an engine session.
#[derive(Clone, Copy, Debug, PartialEq, Eq, Structural)]
pub enum CanonicalState {
    Preparing,
    Waiting,
    Connecting,
    Verifying,
    Transferring,
    Confirming,
    Paused(PauseOrigin),
    Unconfirmed,
    AwaitingPublication,
    Completed,
    Failed,
    Cancelled,
}

/// Failure code reported by the engine.
#[derive(Clone, Copy, Debug, PartialEq, Eq, Structural)]
pub enum FailureCode {
    UserCanceled,
    PeerCanceled,
    NetworkLost,
    PeerUnreachable,
    AuthenticationFailed,
    PermissionDenied,
    DiskFull,
    HashMismatch,
    ProtocolError,
    DestinationConflict,
    UnsupportedFeature,
    Timeout,
    InternalError,
    Unknown,
}

/// Failure class reported by the engine.
#[derive(Clone, Copy, Debug, PartialEq, Eq, Structural)]
pub enum FailureCategory {
    User,
    Network,
    Authentication,
    Permission,
    Storage,
    Integrity,
    Protocol,
    Unsupported,
    Internal,
    Unknown,
}

/// Side on which the engine saw a failure.
#[derive(Clone, Copy, Debug, PartialEq, Eq, Structural)]
pub enum FailureOrigin {
    Local,
    Peer,
    Unknown,
}

/// Step in which the engine failed.
#[derive(Clone, Copy, Debug, PartialEq, Eq, Structural)]
pub enum FailurePhase {
    Setup,
    Binding,
    Advertising,
    Pairing,
    Connecting,
    Authenticating,
    Negotiating,
    Transferring,
    Verifying,
    Committing,
    Acknowledging,
    CleaningUp,
}

/// What the engine suggests to do about a failure.
#[derive(Clone, Copy, Debug, PartialEq, Eq, Structural)]
pub enum RecoveryAction {
    Retry,
    Resume,
    ChooseFolder,
    OpenSettings,
    RePair,
    UpdateApp,
    SwitchPairingMethod,
    DiscardPartial,
    NoAction,
}

/// Coarse reason stored with a failed session.
#[derive(Clone, Copy, Debug, PartialEq, Eq, Structural)]
pub enum SessionFailureCode {
    Cancelled,
    PeerCancelled,
    ConnectionLost,
    Paused,
    PeerPaused,
    Other,
}

/// A failure as the engine classifies it.
#[derive(Debug, PartialEq, Eq)]
pub struct TransferFailure {
    pub code: FailureCode,
    pub category: FailureCategory,
    pub phase: FailurePhase,
    pub origin: FailureOrigin,
    pub direction: Option<TransferDirection>,
    pub transfer_id: Option<String>,
    pub attempt_id: Option<String>,
    pub retryable: bool,
    pub recovery_action: RecoveryAction,
    pub user_message_key: String,
    pub diagnostic_message: String,
}

/// What a [`TransferFailure`] holds.
#[verifier::ext_equal]
pub struct EngineFailureView {
    pub code: FailureCode,
    pub category: FailureCategory,
    pub phase: FailurePhase,
    pub origin: FailureOrigin,
    pub direction: Option<TransferDirection>,
    pub transfer_id: Option<Seq<char>>,
    pub attempt_id: Option<Seq<char>>,
    pub retryable: bool,
    pub recovery_action: RecoveryAction,
    pub user_message_key: Seq<char>,
    pub diagnostic_message: Seq<char>,
}

impl View for TransferFailure {
    type V = EngineFailureView;

    open spec fn view(&self) -> EngineFailureView {
        EngineFailureView {
            code: self.code,
            category: self.category,
            phase: self.phase,
            origin: self.origin,
            direction: self.direction,
            transfer_id: text_option(self.transfer_id),
            attempt_id: text_option(self.attempt_id),
            retryable: self.retryable,
            recovery_action: self.recovery_action,
            user_message_key: self.user_message_key@,
            diagnostic_message: self.diagnostic_message@,
        }
    }
}

impl Clone for TransferFailure {
    fn clone(&self) -> (r: Self)
        ensures
            r == *self,
    {
        TransferFailure {
            code: self.code,
            category: self.category,
            phase: self.phase,
            origin: self.origin,
            direction: self.direction,
            transfer_id: self.transfer_id.clone(),
            attempt_id: self.attempt_id.clone(),
            retryable: self.retryable,
            recovery_action: self.recovery_action,
            user_message_key: self.user_message_key.clone(),
            diagnostic_message: self.diagnostic_message.clone(),
        }
    }
}

/// Canonical state of one session.
#[derive(Debug, PartialEq, Eq)]
pub struct Session {
    pub attempt: u64,
    pub direction: TransferDirection,
    pub state: CanonicalState,
    pub transfer_id: Option<String>,
    pub file_name: Option<String>,
    pub bytes: u64,
    pub total: u64,
    pub bytes_resumed: u64,
    pub path: Option<DataPath>,
    pub reason: Option<String>,
    pub reason_code: Option<SessionFailureCode>,
    pub completed_file_path: Option<String>,
    pub failure: Option<TransferFailure>,
}

/// What a [`Session`] holds.
#[verifier::ext_equal]
pub struct SessionView {
    pub attempt: u64,
    pub direction: TransferDirection,
    pub state: CanonicalState,
    pub transfer_id: Option<Seq<char>>,
    pub file_name: Option<Seq<char>>,
    pub bytes: u64,
    pub total: u64,
    pub bytes_resumed: u64,
    pub path: Option<DataPathView>,
    pub reason: Option<Seq<char>>,
    pub reason_code: Option<SessionFailureCode>,
    pub completed_file_path: Option<Seq<char>>,
    pub failure: Option<EngineFailureView>,
}

impl View for Session {
    type V = SessionView;

    open spec fn view(&self) -> SessionView {
        SessionView {
            attempt: self.attempt,
            direction: self.direction,
            state: self.state,
            transfer_id: text_option(self.transfer_id),
            file_name: text_option(self.file_name),
            bytes: self.bytes,
            total: self.total,
            bytes_resumed: self.bytes_resumed,
            path: match self.path { Some(x) => Some(x@), None => None },
            reason: text_option(self.reason),
            reason_code: self.reason_code,
            completed_file_path: text_option(self.completed_file_path),
            failure: match self.failure { Some(x) => Some(x@), None => None },
        }
    }
}

impl Clone for Session {
    fn clone(&self) -> (r: Self)
        ensures
            r == *self,
    {
        Session {
            attempt: self.attempt,
            direction: self.direction,
            state: self.state,
            transfer_id: self.transfer_id.clone(),
            file_name: self.file_name.clone(),
            bytes: self.bytes,
            total: self.total,
            bytes_resumed: self.bytes_resumed,
            path: self.path.clone(),
            reason: self.reason.clone(),
            reason_code: self.reason_code,
            completed_file_path: self.completed_file_path.clone(),
            failure: self.failure.clone(),
        }
    }
}

/// A session at one moment, with its measured rates in whole bytes per second.
#[derive(Debug, PartialEq, Eq)]
pub struct SessionSnapshot {
    pub seq: u64,
    pub speed_bps: u64,
    pub avg_bps: u64,
    pub session: Session,
}

/// What a [`SessionSnapshot`] holds.
#[verifier::ext_equal]
pub struct SnapshotView {
    pub seq: u64,
    pub speed_bps: u64,
    pub avg_bps: u64,
    pub session: SessionView,
}

impl View for SessionSnapshot {
    type V = SnapshotView;

    open spec fn view(&self) -> SnapshotView {
        SnapshotView {
            seq: self.seq,
            speed_bps: self.speed_bps,
            avg_bps: self.avg_bps,
            session: self.session@,
        }
    }
}

impl Clone for SessionSnapshot {
    fn clone(&self) -> (r: Self)
        ensures
            r == *self,
    {
        SessionSnapshot {
            seq: self.seq,
            speed_bps: self.speed_bps,
            avg_bps: self.avg_bps,
            session: self.session.clone(),
        }
    }
}

/// Address of a peer.
#[derive(Debug, PartialEq, Eq)]
pub struct PeerDescriptor {
    /// Compact text form.
    pub compact: String,
    pub endpoint_id: String,
    pub direct_addrs: Vec<String>,
}

/// What a [`PeerDescriptor`] holds.
#[verifier::ext_equal]
pub struct PeerDescriptorView {
    pub compact: Seq<char>,
    pub endpoint_id: Seq<char>,
    pub direct_addrs: Seq<Seq<char>>,
}

impl View for PeerDescriptor {
    type V = PeerDescriptorView;

    open spec fn view(&self) -> PeerDescriptorView {
        PeerDescriptorView {
            compact: self.compact@,
            endpoint_id: self.endpoint_id@,
            direct_addrs: text_seq(self.direct_addrs@),
        }
    }
}

impl Clone for PeerDescriptor {
    fn clone(&self) -> (r: Self)
        ensures
            r@ == self@,
    {
        let r = PeerDescriptor {
            compact: self.compact.clone(),
            endpoint_id: self.endpoint_id.clone(),
            direct_addrs: self.direct_addrs.clone(),
        };
        assert(text_seq(r.direct_addrs@) =~= text_seq(self.direct_addrs@));
        r
    }
}

/// A decoded QR invite.
#[derive(Debug, PartialEq, Eq)]
pub struct QrInvitePayload {
    pub peer: PeerDescriptor,
    pub relay_urls: Vec<String>,
}

/// What a [`QrInvitePayload`] holds.
#[verifier::ext_equal]
pub struct QrInviteView {
    pub peer: PeerDescriptorView,
    pub relay_urls: Seq<Seq<char>>,
}

impl View for QrInvitePayload {
    type V = QrInviteView;

    open spec fn view(&self) -> QrInviteView {
        QrInviteView {
            peer: self.peer@,
            relay_urls: text_seq(self.relay_urls@),
        }
    }
}

impl Clone for QrInvitePayload {
    fn clone(&self) -> (r: Self)
        ensures
            r@ == self@,
    {
        let r = QrInvitePayload {
            peer: self.peer.clone(),
            relay_urls: self.relay_urls.clone(),
        };
        assert(text_seq(r.relay_urls@) =~= text_seq(self.relay_urls@));
        r
    }
}

/// One way of reaching the peer.
#[derive(Debug, PartialEq, Eq)]
#[allow(inconsistent_fields)]
pub enum PeerSource {
    Manual { peer: PeerDescriptor, token: String },
    Invite { invite: String },
    ShowManual { token: Option<String> },
    ShowInvite { ttl_secs: u64, token: Option<String> },
    Mdns { token: Option<String> },
    Room { code: String, broker: String },
}

/// What a [`PeerSource`] holds.
#[verifier::ext_equal]
#[allow(inconsistent_fields)]
pub enum PeerSourceView {
    Manual { peer: PeerDescriptorView, token: Seq<char> },
    Invite { invite: Seq<char> },
    ShowManual { token: Option<Seq<char>> },
    ShowInvite { ttl_secs: u64, token: Option<Seq<char>> },
    Mdns { token: Option<Seq<char>> },
    Room { code: Seq<char>, broker: Seq<char> },
}

impl View for PeerSource {
    type V = PeerSourceView;

    open spec fn view(&self) -> PeerSourceView {
        match *self {
            PeerSource::Manual { peer, token } => PeerSourceView::Manual { peer: peer@, token: token@ },
            PeerSource::Invite { invite } => PeerSourceView::Invite { invite: invite@ },
            PeerSource::ShowManual { token } => PeerSourceView::ShowManual { token: text_option(token) },
            PeerSource::ShowInvite { ttl_secs, token } => PeerSourceView::ShowInvite { ttl_secs, token: text_option(token) },
            PeerSource::Mdns { token } => PeerSourceView::Mdns { token: text_option(token) },
            PeerSource::Room { code, broker } => PeerSourceView::Room { code: code@, broker: broker@ },
        }
    }
}

impl Clone for PeerSource {
    fn clone(&self) -> (r: Self)
        ensures
            r@ == self@,
    {
        let r = match self {
            PeerSource::Manual { peer, token } => PeerSource::Manual { peer: peer.clone(), token: token.clone() },
            PeerSource::Invite { invite } => PeerSource::Invite { invite: invite.clone() },
            PeerSource::ShowManual { token } => PeerSource::ShowManual { token: token.clone() },
            PeerSource::ShowInvite { ttl_secs, token } => PeerSource::ShowInvite { ttl_secs: *ttl_secs, token: token.clone() },
            PeerSource::Mdns { token } => PeerSource::Mdns { token: token.clone() },
            PeerSource::Room { code, broker } => PeerSource::Room { code: code.clone(), broker: broker.clone() },
        };
        assert(r@ =~= self@);
        r
    }
}

/// Local addresses to listen on.
#[derive(Clone, Copy, Debug, PartialEq, Eq, Structural)]
pub struct BindAddrs {
    pub ipv4: bool,
    pub ipv6: bool,
    pub port: u16,
}

/// Options of an engine transfer.
#[derive(Debug, PartialEq, Eq)]
pub struct TransferOptions {
    pub relay: Option<String>,
    pub path: PathPolicy,
    pub resume: bool,
    pub listen_addrs: Option<BindAddrs>,
}

/// What a [`TransferOptions`] holds.
#[verifier::ext_equal]
pub struct OptionsView {
    pub relay: Option<Seq<char>>,
    pub path: PathPolicy,
    pub resume: bool,
    pub listen_addrs: Option<BindAddrs>,
}

impl View for TransferOptions {
    type V = OptionsView;

    open spec fn view(&self) -> OptionsView {
        OptionsView {
            relay: text_option(self.relay),
            path: self.path,
            resume: self.resume,
            listen_addrs: self.listen_addrs,
        }
    }
}

impl Clone for TransferOptions {
    fn clone(&self) -> (r: Self)
        ensures
            r == *self,
    {
        TransferOptions {
            relay: self.relay.clone(),
            path: self.path,
            resume: self.resume,
            listen_addrs: self.listen_addrs,
        }
    }
}

/// What a session transfers and how it reaches its peer.
#[derive(Debug, PartialEq, Eq)]
pub struct SessionParams {
    pub direction: TransferDirection,
    pub path: String,
    pub sources: Vec<PeerSource>,
    pub options: TransferOptions,
    pub publication_required: bool,
}

/// What a [`SessionParams`] holds.
#[verifier::ext_equal]
pub struct ParamsView {
    pub direction: TransferDirection,
    pub path: Seq<char>,
    pub sources: Seq<PeerSourceView>,
    pub options: OptionsView,
    pub publication_required: bool,
}

impl View for SessionParams {
    type V = ParamsView;

    open spec fn view(&self) -> ParamsView {
        ParamsView {
            direction: self.direction,
            path: self.path@,
            sources: self.sources@.map_values(|x: PeerSource| x@),
            options: self.options@,
            publication_required: self.publication_required,
        }
    }
}

impl Clone for SessionParams {
    fn clone(&self) -> (r: Self)
        ensures
            r@ == self@,
    {
        let r = SessionParams {
            direction: self.direction,
            path: self.path.clone(),
            sources: self.sources.clone(),
            options: self.options.clone(),
            publication_required: self.publication_required,
        };
        assert(r@.sources =~= self@.sources);
        r
    }
}

/// Client-side context of a session.
#[derive(Debug, PartialEq, Eq)]
pub struct ClientContext {
    pub config_path: Option<String>,
    pub receipt_server: Option<String>,
    pub identity_file: Option<String>,
}

/// What a [`ClientContext`] holds.
#[verifier::ext_equal]
pub struct ClientContextView {
    pub config_path: Option<Seq<char>>,
    pub receipt_server: Option<Seq<char>>,
    pub identity_file: Option<Seq<char>>,
}

impl View for ClientContext {
    type V = ClientContextView;

    open spec fn view(&self) -> ClientContextView {
        ClientContextView {
            config_path: text_option(self.config_path),
            receipt_server: text_option(self.receipt_server),
            identity_file: text_option(self.identity_file),
        }
    }
}

impl Clone for ClientContext {
    fn clone(&self) -> (r: Self)
        ensures
            r == *self,
    {
        ClientContext {
            config_path: self.config_path.clone(),
            receipt_server: self.receipt_server.clone(),
            identity_file: self.identity_file.clone(),
        }
    }
}

/// Everything a session needs to run again.
#[derive(Debug, PartialEq, Eq)]
pub struct SessionContext {
    pub client: ClientContext,
    pub params: SessionParams,
}

/// What a [`SessionContext`] holds.
#[verifier::ext_equal]
pub struct ContextView {
    pub client: ClientContextView,
    pub params: ParamsView,
}

impl View for SessionContext {
    type V = ContextView;

    open spec fn view(&self) -> ContextView {
        ContextView {
            client: self.client@,
            params: self.params@,
        }
    }
}

impl Clone for SessionContext {
    fn clone(&self) -> (r: Self)
        ensures
            r@ == self@,
    {
        let r = SessionContext {
            client: self.client.clone(),
            params: self.params.clone(),
        };
        r
    }
}

/// Result of a finished transfer.
#[derive(Debug, PartialEq, Eq)]
pub struct TransferSummary {
    pub file_name: String,
    pub bytes_transferred: u64,
}

/// What a [`TransferSummary`] holds.
#[verifier::ext_equal]
pub struct SummaryView {
    pub file_name: Seq<char>,
    pub bytes_transferred: u64,
}

impl View for TransferSummary {
    type V = SummaryView;

    open spec fn view(&self) -> SummaryView {
        SummaryView {
            file_name: self.file_name@,
            bytes_transferred: self.bytes_transferred,
        }
    }
}

impl Clone for TransferSummary {
    fn clone(&self) -> (r: Self)
        ensures
            r == *self,
    {
        TransferSummary {
            file_name: self.file_name.clone(),
            bytes_transferred: self.bytes_transferred,
        }
    }
}

/// A transfer that ended in an error.
#[derive(Debug, PartialEq, Eq)]
pub struct TransferError {
    /// Whether the peer paused.
    pub paused: bool,
    /// Human-readable text.
    pub message: String,
    /// The engine's own classification.
    pub failure: TransferFailure,
}

/// What a [`TransferError`] holds.
#[verifier::ext_equal]
pub struct TransferErrorView {
    pub paused: bool,
    pub message: Seq<char>,
    pub failure: EngineFailureView,
}

impl View for TransferError {
    type V = TransferErrorView;

    open spec fn view(&self) -> TransferErrorView {
        TransferErrorView {
            paused: self.paused,
            message: self.message@,
            failure: self.failure@,
        }
    }
}

impl Clone for TransferError {
    fn clone(&self) -> (r: Self)
        ensures
            r == *self,
    {
        TransferError {
            paused: self.paused,
            message: self.message.clone(),
            failure: self.failure.clone(),
        }
    }
}

} // verus!
