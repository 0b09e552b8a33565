//! Records and enumerations of the Manifest v2 API, with the mathematical view
//! that contracts speak of.
use vstd::prelude::*;
use vstd::string::*;

use crate::common::{FfiFailureOrigin, FfiPathPolicy, FfiRendezvousPlan};
use crate::text::{decimal, decimal_text, joined, text_option, text_seq};

verus! {

broadcast use vstd::seq_lib::group_seq_properties;

/// Why an invitation was refused.
#[derive(Clone, Copy, Debug, PartialEq, Eq, Structural)]
pub enum FfiInvitationErrorCode {
    Malformed,
    Oversized,
    Expired,
    UnsupportedVersion,
    UnsupportedCapability,
    RoleConflict,
    AuthenticationFailure,
    Replay,
}

/// Error surfaced to native callers.
#[derive(Debug, PartialEq, Eq)]
pub enum EnvoixError {
    /// An operation failed.
    Operation { reason: String },
    /// An invitation was refused.
    Invitation { code: FfiInvitationErrorCode, reason: String },
}

/// What a [`EnvoixError`] holds.
#[verifier::ext_equal]
pub enum ErrorView {
    Operation { reason: Seq<char> },
    Invitation { code: FfiInvitationErrorCode, reason: Seq<char> },
}

impl View for EnvoixError {
    type V = ErrorView;

    open spec fn view(&self) -> ErrorView {
        match *self {
            EnvoixError::Operation { reason } => ErrorView::Operation { reason: reason@ },
            EnvoixError::Invitation { code, reason } => ErrorView::Invitation { code, reason: reason@ },
        }
    }
}

impl Clone for EnvoixError {
    fn clone(&self) -> (r: Self)
        ensures
            r == *self,
    {
        match self {
            EnvoixError::Operation { reason } => EnvoixError::Operation { reason: reason.clone() },
            EnvoixError::Invitation { code, reason } => EnvoixError::Invitation { code: *code, reason: reason.clone() },
        }
    }
}

/// Runtime settings supplied by native UIs.
#[derive(Debug, PartialEq, Eq)]
pub struct EnvoixRuntimeSettings {
    pub concurrent_transfers: bool,
    pub language: String,
    pub server_url: String,
    pub relay_url: String,
    pub config_path: String,
    pub speed_limit_mbps: u64,
}

/// What a [`EnvoixRuntimeSettings`] holds.
#[verifier::ext_equal]
pub struct SettingsView {
    pub concurrent_transfers: bool,
    pub language: Seq<char>,
    pub server_url: Seq<char>,
    pub relay_url: Seq<char>,
    pub config_path: Seq<char>,
    pub speed_limit_mbps: u64,
}

impl View for EnvoixRuntimeSettings {
    type V = SettingsView;

    open spec fn view(&self) -> SettingsView {
        SettingsView {
            concurrent_transfers: self.concurrent_transfers,
            language: self.language@,
            server_url: self.server_url@,
            relay_url: self.relay_url@,
            config_path: self.config_path@,
            speed_limit_mbps: self.speed_limit_mbps,
        }
    }
}

impl Clone for EnvoixRuntimeSettings {
    fn clone(&self) -> (r: Self)
        ensures
            r == *self,
    {
        EnvoixRuntimeSettings {
            concurrent_transfers: self.concurrent_transfers,
            language: self.language.clone(),
            server_url: self.server_url.clone(),
            relay_url: self.relay_url.clone(),
            config_path: self.config_path.clone(),
            speed_limit_mbps: self.speed_limit_mbps,
        }
    }
}

impl Default for EnvoixRuntimeSettings {
    fn default() -> (r: Self)
        ensures
            r@ == (SettingsView {
                concurrent_transfers: true,
                language: "en"@,
                server_url: Seq::empty(),
                relay_url: Seq::empty(),
                config_path: Seq::empty(),
                speed_limit_mbps: 0,
            }),
    {
        EnvoixRuntimeSettings {
            concurrent_transfers: true,
            language: "en".to_owned(),
            server_url: String::new(),
            relay_url: String::new(),
            config_path: String::new(),
            speed_limit_mbps: 0,
        }
    }
}

/// Role of one side of an invitation.
#[derive(Clone, Copy, Debug, PartialEq, Eq, Structural)]
pub enum FfiInviteRole {
    Send,
    Receive,
}

/// An invitation as the native UI shows it. Its text form never tells the room
/// code or the payload.
#[derive(PartialEq, Eq)]
pub struct FfiPairingInvite {
    pub room_code: String,
    pub payload: String,
    pub broker: String,
    pub relay_urls: Vec<String>,
    pub creator_role: FfiInviteRole,
    pub joiner_role: FfiInviteRole,
    pub expires_at: u64,
}

/// What a [`FfiPairingInvite`] holds.
#[verifier::ext_equal]
pub struct PairingInviteView {
    pub room_code: Seq<char>,
    pub payload: Seq<char>,
    pub broker: Seq<char>,
    pub relay_urls: Seq<Seq<char>>,
    pub creator_role: FfiInviteRole,
    pub joiner_role: FfiInviteRole,
    pub expires_at: u64,
}

impl View for FfiPairingInvite {
    type V = PairingInviteView;

    open spec fn view(&self) -> PairingInviteView {
        PairingInviteView {
            room_code: self.room_code@,
            payload: self.payload@,
            broker: self.broker@,
            relay_urls: text_seq(self.relay_urls@),
            creator_role: self.creator_role,
            joiner_role: self.joiner_role,
            expires_at: self.expires_at,
        }
    }
}

impl Clone for FfiPairingInvite {
    fn clone(&self) -> (r: Self)
        ensures
            r@ == self@,
    {
        let r = FfiPairingInvite {
            room_code: self.room_code.clone(),
            payload: self.payload.clone(),
            broker: self.broker.clone(),
            relay_urls: self.relay_urls.clone(),
            creator_role: self.creator_role,
            joiner_role: self.joiner_role,
            expires_at: self.expires_at,
        };
        assert(text_seq(r.relay_urls@) =~= text_seq(self.relay_urls@));
        r
    }
}

/// Direction of a transfer, seen from this device.
#[derive(Clone, Copy, Debug, PartialEq, Eq, Structural)]
pub enum FfiTransferDirection {
    Send,
    Receive,
}

/// Stable, secret-free milestones for one native transfer attempt.
#[derive(Clone, Copy, Debug, PartialEq, Eq, Structural)]
pub enum FfiTransferStage {
    SessionStarted,
    ConnectionReady,
    AuthenticationStarted,
    AuthenticationComplete,
    ManifestOffer,
    ManifestAccepted,
    FirstPayload,
    PayloadComplete,
    DeliveryComplete,
    Canceled,
    Failed,
}

/// Monotonic elapsed time projected from the native transfer timeline. It
/// holds no endpoint, invitation or credential material.
#[derive(Debug, PartialEq, Eq)]
pub struct FfiTransferStageTiming {
    pub stage: FfiTransferStage,
    pub direction: FfiTransferDirection,
    pub attempt_id: u64,
    /// Absent until the manifest identifies the transfer.
    pub transfer_id: Option<String>,
    pub elapsed_us: u64,
    pub delta_us: u64,
}

/// What a [`FfiTransferStageTiming`] holds.
#[verifier::ext_equal]
pub struct StageTimingView {
    pub stage: FfiTransferStage,
    pub direction: FfiTransferDirection,
    pub attempt_id: u64,
    pub transfer_id: Option<Seq<char>>,
    pub elapsed_us: u64,
    pub delta_us: u64,
}

impl View for FfiTransferStageTiming {
    type V = StageTimingView;

    open spec fn view(&self) -> StageTimingView {
        StageTimingView {
            stage: self.stage,
            direction: self.direction,
            attempt_id: self.attempt_id,
            transfer_id: text_option(self.transfer_id),
            elapsed_us: self.elapsed_us,
            delta_us: self.delta_us,
        }
    }
}

impl Clone for FfiTransferStageTiming {
    fn clone(&self) -> (r: Self)
        ensures
            r == *self,
    {
        FfiTransferStageTiming {
            stage: self.stage,
            direction: self.direction,
            attempt_id: self.attempt_id,
            transfer_id: self.transfer_id.clone(),
            elapsed_us: self.elapsed_us,
            delta_us: self.delta_us,
        }
    }
}

/// How the two peers find each other.
#[derive(Clone, Copy, Debug, PartialEq, Eq, Structural)]
pub enum FfiTransferMode {
    Manual,
    Invite,
    Remembered,
    ShowManual,
    ShowInvite,
    Mdns,
    Room,
}

/// Session-only inputs of a transfer. Its text form never tells invites,
/// codes, tokens or credential handles.
#[derive(PartialEq, Eq)]
pub struct FfiTransferRequest {
    pub direction: FfiTransferDirection,
    pub mode: FfiTransferMode,
    pub peer_descriptor: String,
    pub invite: String,
    pub code: String,
    pub token: String,
    pub remember_consent: bool,
    pub remembered_credential_ref: String,
    pub remembered_generation: u64,
    pub remembered_previous_generation: Option<u64>,
    pub broker: String,
    pub relay: String,
    pub config_path: String,
    pub path_policy: FfiPathPolicy,
    pub rendezvous: FfiRendezvousPlan,
}

/// What a [`FfiTransferRequest`] holds.
#[verifier::ext_equal]
pub struct RequestView {
    pub direction: FfiTransferDirection,
    pub mode: FfiTransferMode,
    pub peer_descriptor: Seq<char>,
    pub invite: Seq<char>,
    pub code: Seq<char>,
    pub token: Seq<char>,
    pub remember_consent: bool,
    pub remembered_credential_ref: Seq<char>,
    pub remembered_generation: u64,
    pub remembered_previous_generation: Option<u64>,
    pub broker: Seq<char>,
    pub relay: Seq<char>,
    pub config_path: Seq<char>,
    pub path_policy: FfiPathPolicy,
    pub rendezvous: FfiRendezvousPlan,
}

impl View for FfiTransferRequest {
    type V = RequestView;

    open spec fn view(&self) -> RequestView {
        RequestView {
            direction: self.direction,
            mode: self.mode,
            peer_descriptor: self.peer_descriptor@,
            invite: self.invite@,
            code: self.code@,
            token: self.token@,
            remember_consent: self.remember_consent,
            remembered_credential_ref: self.remembered_credential_ref@,
            remembered_generation: self.remembered_generation,
            remembered_previous_generation: self.remembered_previous_generation,
            broker: self.broker@,
            relay: self.relay@,
            config_path: self.config_path@,
            path_policy: self.path_policy,
            rendezvous: self.rendezvous,
        }
    }
}

impl Clone for FfiTransferRequest {
    fn clone(&self) -> (r: Self)
        ensures
            r == *self,
    {
        FfiTransferRequest {
            direction: self.direction,
            mode: self.mode,
            peer_descriptor: self.peer_descriptor.clone(),
            invite: self.invite.clone(),
            code: self.code.clone(),
            token: self.token.clone(),
            remember_consent: self.remember_consent,
            remembered_credential_ref: self.remembered_credential_ref.clone(),
            remembered_generation: self.remembered_generation,
            remembered_previous_generation: self.remembered_previous_generation,
            broker: self.broker.clone(),
            relay: self.relay.clone(),
            config_path: self.config_path.clone(),
            path_policy: self.path_policy,
            rendezvous: self.rendezvous,
        }
    }
}

/// Phase of a Manifest v2 transfer.
#[derive(Clone, Copy, Debug, PartialEq, Eq, Structural)]
pub enum FfiManifestV2Phase {
    Pairing,
    Connecting,
    Transferring,
    Verifying,
    Saving,
    WaitingForReceiverSave,
    FinalizingDelivery,
    Delivered,
    WaitingForPeer,
}

/// Machine-readable failure code.
#[derive(Clone, Copy, Debug, PartialEq, Eq, Structural)]
pub enum FfiFailureCode {
    UserCanceled,
    NetworkLost,
    AuthenticationFailed,
    RoomNotFound,
    RoomExpired,
    RoomFull,
    RoomRateLimited,
    RoomUnderAttack,
    EndpointRateLimited,
    IpRateLimited,
    ServerBusy,
    MalformedJoin,
    UnsupportedRendezvousVersion,
    UnsupportedFeature,
    InternalError,
    SenderSourceUnavailable,
    SenderPermissionLost,
    SenderSourceChanged,
    SenderItemRemoved,
    SenderCanceled,
    ProtocolOrIntegrityFailure,
    ReceiverSpaceInsufficient,
    ReceiverDestinationDecisionRequired,
    ReceiverDestinationUnavailable,
    ReceiverSaveFailed,
    ReceiverReusedObjectLost,
    ReceiverFinalizationOutcomeUnknown,
}

/// Broad class of a failure.
#[derive(Clone, Copy, Debug, PartialEq, Eq, Structural)]
pub enum FfiFailureCategory {
    User,
    Network,
    Authentication,
    Permission,
    Storage,
    Integrity,
    Unsupported,
    Internal,
}

/// Step in which a failure happened.
#[derive(Clone, Copy, Debug, PartialEq, Eq, Structural)]
pub enum FfiFailurePhase {
    Setup,
    Pairing,
    Connecting,
    Authenticating,
    Negotiating,
    Transferring,
    Verifying,
    Committing,
}

/// What a user can do about a failure.
#[derive(Clone, Copy, Debug, PartialEq, Eq, Structural)]
pub enum FfiRecoveryAction {
    Retry,
    Resume,
    ChooseFolder,
    OpenSettings,
    RePair,
    NoAction,
}

/// How a transfer ended that did not succeed.
#[derive(Clone, Copy, Debug, PartialEq, Eq, Structural)]
pub enum FfiFailureOutcome {
    Canceled,
    Failed,
}

/// What becomes of a session whose transfer did not succeed.
#[derive(Clone, Copy, Debug, PartialEq, Eq, Structural)]
pub enum FfiFailureSessionDisposition {
    RetainForRecovery,
    Release,
}

/// A classified transfer failure.
#[derive(Debug, PartialEq, Eq)]
pub struct FfiTransferFailure {
    pub code: FfiFailureCode,
    pub category: FfiFailureCategory,
    pub phase: FfiFailurePhase,
    pub origin: FfiFailureOrigin,
    pub direction: FfiTransferDirection,
    pub retryable: bool,
    pub recovery_action: FfiRecoveryAction,
    pub outcome: FfiFailureOutcome,
    pub session_disposition: FfiFailureSessionDisposition,
    pub user_message_key: String,
    pub diagnostic_message: String,
}

/// What a [`FfiTransferFailure`] holds.
#[verifier::ext_equal]
pub struct FailureView {
    pub code: FfiFailureCode,
    pub category: FfiFailureCategory,
    pub phase: FfiFailurePhase,
    pub origin: FfiFailureOrigin,
    pub direction: FfiTransferDirection,
    pub retryable: bool,
    pub recovery_action: FfiRecoveryAction,
    pub outcome: FfiFailureOutcome,
    pub session_disposition: FfiFailureSessionDisposition,
    pub user_message_key: Seq<char>,
    pub diagnostic_message: Seq<char>,
}

impl View for FfiTransferFailure {
    type V = FailureView;

    open spec fn view(&self) -> FailureView {
        FailureView {
            code: self.code,
            category: self.category,
            phase: self.phase,
            origin: self.origin,
            direction: self.direction,
            retryable: self.retryable,
            recovery_action: self.recovery_action,
            outcome: self.outcome,
            session_disposition: self.session_disposition,
            user_message_key: self.user_message_key@,
            diagnostic_message: self.diagnostic_message@,
        }
    }
}

impl Clone for FfiTransferFailure {
    fn clone(&self) -> (r: Self)
        ensures
            r == *self,
    {
        FfiTransferFailure {
            code: self.code,
            category: self.category,
            phase: self.phase,
            origin: self.origin,
            direction: self.direction,
            retryable: self.retryable,
            recovery_action: self.recovery_action,
            outcome: self.outcome,
            session_disposition: self.session_disposition,
            user_message_key: self.user_message_key.clone(),
            diagnostic_message: self.diagnostic_message.clone(),
        }
    }
}

/// Privacy-safe class of the selected data path. Addresses and relay URLs stay
/// out of it.
#[derive(Clone, Copy, Debug, PartialEq, Eq, Structural)]
pub enum FfiDataPathKind {
    Direct,
    DirectIpv4,
    DirectIpv6,
    Relay,
    WifiAware,
    Other,
}

/// Whether a data path is the first one or a later one.
#[derive(Clone, Copy, Debug, PartialEq, Eq, Structural)]
pub enum FfiConnectionPathEventKind {
    Selected,
    Changed,
}

/// A selected data path.
#[derive(Clone, Copy, Debug, PartialEq, Eq, Structural)]
pub struct FfiConnectionPathEvent {
    pub path_kind: FfiDataPathKind,
    pub event_kind: FfiConnectionPathEventKind,
}

/// Runtime identity used to detect a stale but otherwise loadable native core.
#[derive(Debug, PartialEq, Eq)]
pub struct FfiCoreInfo {
    pub ffi_api_version: u32,
    pub core_version: String,
    pub capabilities: Vec<String>,
}

/// What a [`FfiCoreInfo`] holds.
#[verifier::ext_equal]
pub struct CoreInfoView {
    pub ffi_api_version: u32,
    pub core_version: Seq<char>,
    pub capabilities: Seq<Seq<char>>,
}

impl View for FfiCoreInfo {
    type V = CoreInfoView;

    open spec fn view(&self) -> CoreInfoView {
        CoreInfoView {
            ffi_api_version: self.ffi_api_version,
            core_version: self.core_version@,
            capabilities: text_seq(self.capabilities@),
        }
    }
}

impl Clone for FfiCoreInfo {
    fn clone(&self) -> (r: Self)
        ensures
            r@ == self@,
    {
        let r = FfiCoreInfo {
            ffi_api_version: self.ffi_api_version,
            core_version: self.core_version.clone(),
            capabilities: self.capabilities.clone(),
        };
        assert(text_seq(r.capabilities@) =~= text_seq(self.capabilities@));
        r
    }
}

/// The text between the quotes and escapes that `str` prints for `{:?}`.
pub uninterp spec fn quoted(s: Seq<char>) -> Seq<char>;

/// `str`'s `Debug` form, as `format!` prints it for `{:?}`: the text in double
/// quotes with special characters escaped. Its result is given a name and
/// nothing more is stated of it.
#[verifier::external_body]
pub(crate) fn quoted_text(s: &str) -> (r: String)
    ensures
        r@ == quoted(s@),
{
    format!("{:?}", s)
}

/// The label of a [`FfiInviteRole`].
pub open spec fn invite_role_name_of(value: FfiInviteRole) -> Seq<char> {
    match value {
        FfiInviteRole::Send => "Send"@,
        FfiInviteRole::Receive => "Receive"@,
    }
}

/// The variant name of an invite role.
pub fn invite_role_name(value: FfiInviteRole) -> (r: &'static str)
    ensures
        r@ == invite_role_name_of(value),
{
    match value {
        FfiInviteRole::Send => "Send",
        FfiInviteRole::Receive => "Receive",
    }
}

/// The label of a [`FfiTransferDirection`].
pub open spec fn direction_name_of(value: FfiTransferDirection) -> Seq<char> {
    match value {
        FfiTransferDirection::Send => "Send"@,
        FfiTransferDirection::Receive => "Receive"@,
    }
}

/// The variant name of a direction.
pub fn direction_name(value: FfiTransferDirection) -> (r: &'static str)
    ensures
        r@ == direction_name_of(value),
{
    match value {
        FfiTransferDirection::Send => "Send",
        FfiTransferDirection::Receive => "Receive",
    }
}

/// The label of a [`FfiTransferMode`].
pub open spec fn mode_name_of(value: FfiTransferMode) -> Seq<char> {
    match value {
        FfiTransferMode::Manual => "Manual"@,
        FfiTransferMode::Invite => "Invite"@,
        FfiTransferMode::Remembered => "Remembered"@,
        FfiTransferMode::ShowManual => "ShowManual"@,
        FfiTransferMode::ShowInvite => "ShowInvite"@,
        FfiTransferMode::Mdns => "Mdns"@,
        FfiTransferMode::Room => "Room"@,
    }
}

/// The variant name of a mode.
pub fn mode_name(value: FfiTransferMode) -> (r: &'static str)
    ensures
        r@ == mode_name_of(value),
{
    match value {
        FfiTransferMode::Manual => "Manual",
        FfiTransferMode::Invite => "Invite",
        FfiTransferMode::Remembered => "Remembered",
        FfiTransferMode::ShowManual => "ShowManual",
        FfiTransferMode::ShowInvite => "ShowInvite",
        FfiTransferMode::Mdns => "Mdns",
        FfiTransferMode::Room => "Room",
    }
}

/// The label of a [`FfiPathPolicy`].
pub open spec fn path_policy_name_of(value: FfiPathPolicy) -> Seq<char> {
    match value {
        FfiPathPolicy::Auto => "Auto"@,
        FfiPathPolicy::RelayOnly => "RelayOnly"@,
        FfiPathPolicy::DirectOnly => "DirectOnly"@,
    }
}

/// The variant name of a path policy.
pub fn path_policy_name(value: FfiPathPolicy) -> (r: &'static str)
    ensures
        r@ == path_policy_name_of(value),
{
    match value {
        FfiPathPolicy::Auto => "Auto",
        FfiPathPolicy::RelayOnly => "RelayOnly",
        FfiPathPolicy::DirectOnly => "DirectOnly",
    }
}

/// The text of a truth value.
pub open spec fn bool_text(value: bool) -> Seq<char> {
    if value {
        "true"@
    } else {
        "false"@
    }
}

fn bool_name(value: bool) -> (r: &'static str)
    ensures
        r@ == bool_text(value),
{
    if value {
        "true"
    } else {
        "false"
    }
}

/// The quoted texts of a list, separated by commas.
pub open spec fn quoted_list(texts: Seq<Seq<char>>) -> Seq<char>
    decreases texts.len(),
{
    if texts.len() == 0 {
        Seq::empty()
    } else if texts.len() == 1 {
        quoted(texts[0])
    } else {
        quoted_list(texts.drop_last()) + ", "@ + quoted(texts.last())
    }
}

pub(crate) fn quoted_list_text(texts: &Vec<String>) -> (r: String)
    ensures
        r@ == quoted_list(text_seq(texts@)),
{
    let mut text = String::new();
    let mut i: usize = 0;
    let ghost all = text_seq(texts@);
    assert(all.take(0) =~= Seq::empty());
    while i < texts.len()
        invariant
            i <= texts@.len(),
            all == text_seq(texts@),
            text@ == quoted_list(all.take(i as int)),
        decreases texts@.len() - i,
    {
        let ghost next = all.take(i + 1);
        assert(next.drop_last() =~= all.take(i as int));
        assert(next.last() == texts@[i as int]@);
        let item = quoted_text(texts[i].as_str());
        if i == 0 {
            text = item;
        } else {
            text = text.concat(", ").concat(item.as_str());
        }
        i += 1;
    }
    assert(all.take(i as int) =~= all);
    text
}

impl PairingInviteView {
    /// The text form of an invitation.
    pub open spec fn described(self) -> Seq<char> {
        "FfiPairingInvite { room_code: \"<redacted>\", payload: \"<redacted>\", broker: "@ + quoted(
            self.broker,
        ) + ", relay_urls: ["@ + quoted_list(self.relay_urls) + "], creator_role: "@
            + invite_role_name_of(self.creator_role) + ", joiner_role: "@ + invite_role_name_of(
            self.joiner_role,
        ) + ", expires_at: "@ + decimal(self.expires_at as nat) + " }"@
    }
}

impl FfiPairingInvite {
    /// The text form of an invitation, without its secrets.
    pub fn debug_text(&self) -> (r: String)
        ensures
            r@ == self@.described(),
    {
        joined(
            "FfiPairingInvite { room_code: \"<redacted>\", payload: \"<redacted>\", broker: ",
            quoted_text(self.broker.as_str()).as_str(),
        ).concat(", relay_urls: [").concat(quoted_list_text(&self.relay_urls).as_str()).concat(
            "], creator_role: ",
        ).concat(invite_role_name(self.creator_role)).concat(", joiner_role: ").concat(
            invite_role_name(self.joiner_role),
        ).concat(", expires_at: ").concat(decimal_text(self.expires_at).as_str()).concat(" }")
    }
}

/// The text form of an optional number.
pub open spec fn option_text(value: Option<u64>) -> Seq<char> {
    match value {
        Some(n) => "Some("@ + decimal(n as nat) + ")"@,
        None => "None"@,
    }
}

fn option_name(value: Option<u64>) -> (r: String)
    ensures
        r@ == option_text(value),
{
    match value {
        Some(n) => joined("Some(", decimal_text(n).as_str()).concat(")"),
        None => "None".to_owned(),
    }
}

/// The text form of a rendezvous plan.
pub open spec fn plan_text(plan: FfiRendezvousPlan) -> Seq<char> {
    "FfiRendezvousPlan { use_room: "@ + bool_text(plan.use_room) + ", use_mdns: "@ + bool_text(
        plan.use_mdns,
    ) + ", internet_available: "@ + bool_text(plan.internet_available) + " }"@
}

fn plan_name(plan: FfiRendezvousPlan) -> (r: String)
    ensures
        r@ == plan_text(plan),
{
    joined("FfiRendezvousPlan { use_room: ", bool_name(plan.use_room)).concat(
        ", use_mdns: ",
    ).concat(bool_name(plan.use_mdns)).concat(", internet_available: ").concat(
        bool_name(plan.internet_available),
    ).concat(" }")
}

impl RequestView {
    /// The text form of a request.
    pub open spec fn described(self) -> Seq<char> {
        "FfiTransferRequest { direction: "@ + direction_name_of(self.direction) + ", mode: "@
            + mode_name_of(self.mode) + ", peer_descriptor: "@ + quoted(self.peer_descriptor)
            + ", invite: \"<redacted>\", code: \"<redacted>\", token: \"<redacted>\", remember_consent: "@
            + bool_text(self.remember_consent)
            + ", remembered_credential_ref: \"<redacted>\", remembered_generation: "@ + decimal(
            self.remembered_generation as nat,
        ) + ", remembered_previous_generation: "@ + option_text(
            self.remembered_previous_generation,
        ) + ", broker: "@ + quoted(self.broker) + ", relay: "@ + quoted(self.relay)
            + ", config_path: "@ + quoted(self.config_path) + ", path_policy: "@
            + path_policy_name_of(self.path_policy) + ", rendezvous: "@ + plan_text(
            self.rendezvous,
        ) + " }"@
    }
}

impl FfiTransferRequest {
    /// The text form of a request, without its secrets.
    pub fn debug_text(&self) -> (r: String)
        ensures
            r@ == self@.described(),
    {
        let head = joined(
            "FfiTransferRequest { direction: ",
            direction_name(self.direction),
        ).concat(", mode: ").concat(mode_name(self.mode)).concat(", peer_descriptor: ").concat(
            quoted_text(self.peer_descriptor.as_str()).as_str(),
        );
        let middle = head.concat(
            ", invite: \"<redacted>\", code: \"<redacted>\", token: \"<redacted>\", remember_consent: ",
        ).concat(bool_name(self.remember_consent)).concat(
            ", remembered_credential_ref: \"<redacted>\", remembered_generation: ",
        ).concat(decimal_text(self.remembered_generation).as_str()).concat(
            ", remembered_previous_generation: ",
        ).concat(option_name(self.remembered_previous_generation).as_str());
        middle.concat(", broker: ").concat(quoted_text(self.broker.as_str()).as_str()).concat(
            ", relay: ",
        ).concat(quoted_text(self.relay.as_str()).as_str()).concat(", config_path: ").concat(
            quoted_text(self.config_path.as_str()).as_str(),
        ).concat(", path_policy: ").concat(path_policy_name(self.path_policy)).concat(
            ", rendezvous: ",
        ).concat(plan_name(self.rendezvous).as_str()).concat(" }")
    }
}

/// The text form of an invitation does not depend on its secrets.
pub proof fn invite_text_hides_secrets(
    invite: PairingInviteView,
    room_code: Seq<char>,
    payload: Seq<char>,
)
    ensures
        (PairingInviteView { room_code, payload, ..invite }).described() == invite.described(),
{
}

/// The text form of a request does not depend on its secrets.
pub proof fn request_text_hides_secrets(
    request: RequestView,
    invite: Seq<char>,
    code: Seq<char>,
    token: Seq<char>,
    credential: Seq<char>,
)
    ensures
        (RequestView {
            invite,
            code,
            token,
            remembered_credential_ref: credential,
            ..request
        }).described() == request.described(),
{
}

/// Version of the native API contract.
pub const ENVOIX_FFI_API_VERSION: u32 = 25;

/// The capabilities that native clients can rely on.
pub open spec fn core_capability_names() -> Seq<Seq<char>> {
    seq![
        "canonical_transfer_job_v2"@,
        "typed_staged_provider_job_v1"@,
        "manifest_v2_session"@,
        "paged_transfer_inventory_v2"@,
        "delivery_proof_v2"@,
        "native_duplex_transport_v1"@,
        "wifi_aware_manifest_v2"@,
        "wifi_aware_nearby_hybrid_v1"@,
        "structured_connection_path"@,
        "structured_stage_timing_v1"@,
        "canonical_failure_projection_v1"@,
        "platform_manifest_v2_destination_v1"@,
        "foreground_room_control_v5"@,
        "remembered_room_control_v1"@,
        "typed_room_control_errors_v1"@,
        "nearby_invite_inbox_v1"@,
        "typed_log_sink_v1"@,
        "remembered_devices_v1"@,
        "typed_application_contract_v6"@,
        "agent_host_control_v2"@,
        "persistent_application_engine_v1"@,
        "typed_remembered_credential_vault_v1"@,
    ]
}

/// Reports the API version, the core version and the capabilities.
pub fn envoix_core_info(core_version: &str) -> (r: FfiCoreInfo)
    ensures
        r@ == (CoreInfoView {
            ffi_api_version: ENVOIX_FFI_API_VERSION,
            core_version: core_version@,
            capabilities: core_capability_names(),
        }),
{
    let mut capabilities: Vec<String> = Vec::new();
    capabilities.push("canonical_transfer_job_v2".to_owned());
    capabilities.push("typed_staged_provider_job_v1".to_owned());
    capabilities.push("manifest_v2_session".to_owned());
    capabilities.push("paged_transfer_inventory_v2".to_owned());
    capabilities.push("delivery_proof_v2".to_owned());
    capabilities.push("native_duplex_transport_v1".to_owned());
    capabilities.push("wifi_aware_manifest_v2".to_owned());
    capabilities.push("wifi_aware_nearby_hybrid_v1".to_owned());
    capabilities.push("structured_connection_path".to_owned());
    capabilities.push("structured_stage_timing_v1".to_owned());
    capabilities.push("canonical_failure_projection_v1".to_owned());
    capabilities.push("platform_manifest_v2_destination_v1".to_owned());
    capabilities.push("foreground_room_control_v5".to_owned());
    capabilities.push("remembered_room_control_v1".to_owned());
    capabilities.push("typed_room_control_errors_v1".to_owned());
    capabilities.push("nearby_invite_inbox_v1".to_owned());
    capabilities.push("typed_log_sink_v1".to_owned());
    capabilities.push("remembered_devices_v1".to_owned());
    capabilities.push("typed_application_contract_v6".to_owned());
    capabilities.push("agent_host_control_v2".to_owned());
    capabilities.push("persistent_application_engine_v1".to_owned());
    capabilities.push("typed_remembered_credential_vault_v1".to_owned());
    assert(text_seq(capabilities@) =~= core_capability_names());
    FfiCoreInfo {
        ffi_api_version: ENVOIX_FFI_API_VERSION,
        core_version: core_version.to_owned(),
        capabilities,
    }
}

/// The text of a request names each of its choices as clients spell it.
pub proof fn requests_are_described_by_their_values(
    role: FfiInviteRole,
    direction: FfiTransferDirection,
    mode: FfiTransferMode,
    policy: FfiPathPolicy,
)
    ensures
        role is Send ==> invite_role_name_of(role) == "Send"@,
        role is Receive ==> invite_role_name_of(role) == "Receive"@,
        direction is Send ==> direction_name_of(direction) == "Send"@,
        direction is Receive ==> direction_name_of(direction) == "Receive"@,
        mode is Manual ==> mode_name_of(mode) == "Manual"@,
        mode is Invite ==> mode_name_of(mode) == "Invite"@,
        mode is Remembered ==> mode_name_of(mode) == "Remembered"@,
        mode is ShowManual ==> mode_name_of(mode) == "ShowManual"@,
        mode is ShowInvite ==> mode_name_of(mode) == "ShowInvite"@,
        mode is Mdns ==> mode_name_of(mode) == "Mdns"@,
        mode is Room ==> mode_name_of(mode) == "Room"@,
        policy is Auto ==> path_policy_name_of(policy) == "Auto"@,
        policy is RelayOnly ==> path_policy_name_of(policy) == "RelayOnly"@,
        policy is DirectOnly ==> path_policy_name_of(policy) == "DirectOnly"@,
{
}

/// Every capability that clients may ask for is named, and nothing else.
pub proof fn every_core_capability_is_named()
    ensures
        core_capability_names().len() == 22,
        core_capability_names().contains("canonical_transfer_job_v2"@),
        core_capability_names().contains("typed_staged_provider_job_v1"@),
        core_capability_names().contains("manifest_v2_session"@),
        core_capability_names().contains("paged_transfer_inventory_v2"@),
        core_capability_names().contains("delivery_proof_v2"@),
        core_capability_names().contains("native_duplex_transport_v1"@),
        core_capability_names().contains("wifi_aware_manifest_v2"@),
        core_capability_names().contains("wifi_aware_nearby_hybrid_v1"@),
        core_capability_names().contains("structured_connection_path"@),
        core_capability_names().contains("structured_stage_timing_v1"@),
        core_capability_names().contains("canonical_failure_projection_v1"@),
        core_capability_names().contains("platform_manifest_v2_destination_v1"@),
        core_capability_names().contains("foreground_room_control_v5"@),
        core_capability_names().contains("remembered_room_control_v1"@),
        core_capability_names().contains("typed_room_control_errors_v1"@),
        core_capability_names().contains("nearby_invite_inbox_v1"@),
        core_capability_names().contains("typed_log_sink_v1"@),
        core_capability_names().contains("remembered_devices_v1"@),
        core_capability_names().contains("typed_application_contract_v6"@),
        core_capability_names().contains("agent_host_control_v2"@),
        core_capability_names().contains("persistent_application_engine_v1"@),
        core_capability_names().contains("typed_remembered_credential_vault_v1"@),
{
    let names = core_capability_names();
    assert(names[0] == "canonical_transfer_job_v2"@);
    assert(names[1] == "typed_staged_provider_job_v1"@);
    assert(names[2] == "manifest_v2_session"@);
    assert(names[3] == "paged_transfer_inventory_v2"@);
    assert(names[4] == "delivery_proof_v2"@);
    assert(names[5] == "native_duplex_transport_v1"@);
    assert(names[6] == "wifi_aware_manifest_v2"@);
    assert(names[7] == "wifi_aware_nearby_hybrid_v1"@);
    assert(names[8] == "structured_connection_path"@);
    assert(names[9] == "structured_stage_timing_v1"@);
    assert(names[10] == "canonical_failure_projection_v1"@);
    assert(names[11] == "platform_manifest_v2_destination_v1"@);
    assert(names[12] == "foreground_room_control_v5"@);
    assert(names[13] == "remembered_room_control_v1"@);
    assert(names[14] == "typed_room_control_errors_v1"@);
    assert(names[15] == "nearby_invite_inbox_v1"@);
    assert(names[16] == "typed_log_sink_v1"@);
    assert(names[17] == "remembered_devices_v1"@);
    assert(names[18] == "typed_application_contract_v6"@);
    assert(names[19] == "agent_host_control_v2"@);
    assert(names[20] == "persistent_application_engine_v1"@);
    assert(names[21] == "typed_remembered_credential_vault_v1"@);
}

/// A list is written with its texts quoted, in their order, and a comma between each
/// two; what may be missing is written as such.
pub proof fn lists_are_written_in_order(texts: Seq<Seq<char>>, next: Seq<char>, n: u64)
    ensures
        quoted_list(Seq::empty()).len() == 0,
        texts.len() == 0 ==> quoted_list(texts.push(next)) == quoted(next),
        texts.len() > 0 ==> quoted_list(texts.push(next)) == quoted_list(texts) + ", "@ + quoted(
            next,
        ),
        bool_text(true) == "true"@,
        bool_text(false) == "false"@,
        option_text(Some(n)) == "Some("@ + decimal(n as nat) + ")"@,
        option_text(None) == "None"@,
{
    assert(texts.push(next).drop_last() =~= texts);
}

/// The text of an invite shows its servers, its roles and its end, and that of a
/// request what is no secret of it.
pub proof fn texts_show_what_is_public(invite: PairingInviteView, request: RequestView)
    ensures
        invite.described()
            == "FfiPairingInvite { room_code: \"<redacted>\", payload: \"<redacted>\", broker: "@
            + quoted(invite.broker) + ", relay_urls: ["@ + quoted_list(invite.relay_urls)
            + "], creator_role: "@ + invite_role_name_of(invite.creator_role) + ", joiner_role: "@
            + invite_role_name_of(invite.joiner_role) + ", expires_at: "@ + decimal(
            invite.expires_at as nat,
        ) + " }"@,
        plan_text(request.rendezvous) == "FfiRendezvousPlan { use_room: "@ + bool_text(
            request.rendezvous.use_room,
        ) + ", use_mdns: "@ + bool_text(request.rendezvous.use_mdns) + ", internet_available: "@
            + bool_text(request.rendezvous.internet_available) + " }"@,
        request.described() == "FfiTransferRequest { direction: "@ + direction_name_of(
            request.direction,
        ) + ", mode: "@ + mode_name_of(request.mode) + ", peer_descriptor: "@ + quoted(
            request.peer_descriptor,
        )
            + ", invite: \"<redacted>\", code: \"<redacted>\", token: \"<redacted>\", remember_consent: "@
            + bool_text(request.remember_consent)
            + ", remembered_credential_ref: \"<redacted>\", remembered_generation: "@ + decimal(
            request.remembered_generation as nat,
        ) + ", remembered_previous_generation: "@ + option_text(
            request.remembered_previous_generation,
        ) + ", broker: "@ + quoted(request.broker) + ", relay: "@ + quoted(request.relay)
            + ", config_path: "@ + quoted(request.config_path) + ", path_policy: "@
            + path_policy_name_of(request.path_policy) + ", rendezvous: "@ + plan_text(
            request.rendezvous,
        ) + " }"@,
{
}

} // verus!
