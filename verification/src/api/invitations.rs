//! Invitations and routes: how a request names its peer, which engine source
//! it becomes, and the invitations that this process has created.
use vstd::prelude::*;
use vstd::string::*;

use crate::api::types::{
    EnvoixError, EnvoixRuntimeSettings, ErrorView, FfiInvitationErrorCode, FfiInviteRole,
    FfiPairingInvite, FfiTransferDirection, FfiTransferMode, FfiTransferRequest, PairingInviteView,
    RequestView, SettingsView,
};
use crate::common::FfiPathPolicy;
use crate::text::{is_blank, joined, non_blank, text_option, text_seq, trimmed};
use crate::text_map::TextMap;

verus! {

broadcast use {vstd::seq_lib::group_seq_properties, vstd::map_lib::group_map_properties};

/// Role of one side of a transfer.
#[derive(Clone, Copy, Debug, PartialEq, Eq, Structural)]
pub enum TransferRole {
    Sender,
    Receiver,
}

/// Network paths the engine may use.
#[derive(Clone, Copy, Debug, PartialEq, Eq, Structural)]
pub enum PathPolicy {
    Auto,
    RelayOnly,
    DirectOnly,
}

/// Why the engine refuses an invitation.
#[derive(Clone, Copy, Debug, PartialEq, Eq, Structural)]
pub enum InvitationErrorCode {
    Malformed,
    Oversized,
    Expired,
    UnsupportedVersion,
    UnsupportedCapability,
    RoleConflict,
    AuthenticationFailed,
    Replay,
    Unlisted,
}

/// A refused invitation.
#[derive(Debug, PartialEq, Eq)]
pub struct InvitationError {
    pub code: InvitationErrorCode,
    pub message: String,
}

/// What a [`InvitationError`] holds.
#[verifier::ext_equal]
pub struct InvitationErrorView {
    pub code: InvitationErrorCode,
    pub message: Seq<char>,
}

impl View for InvitationError {
    type V = InvitationErrorView;

    open spec fn view(&self) -> InvitationErrorView {
        InvitationErrorView {
            code: self.code,
            message: self.message@,
        }
    }
}

impl Clone for InvitationError {
    fn clone(&self) -> (r: Self)
        ensures
            r == *self,
    {
        InvitationError {
            code: self.code,
            message: self.message.clone(),
        }
    }
}

/// Where the hosted services are reached.
#[derive(Debug, PartialEq, Eq)]
pub struct HostedEndpoints {
    pub rendezvous_broker: String,
    pub relay_url: String,
}

/// What a [`HostedEndpoints`] holds.
#[verifier::ext_equal]
pub struct EndpointsView {
    pub rendezvous_broker: Seq<char>,
    pub relay_url: Seq<char>,
}

impl View for HostedEndpoints {
    type V = EndpointsView;

    open spec fn view(&self) -> EndpointsView {
        EndpointsView {
            rendezvous_broker: self.rendezvous_broker@,
            relay_url: self.relay_url@,
        }
    }
}

impl Clone for HostedEndpoints {
    fn clone(&self) -> (r: Self)
        ensures
            r == *self,
    {
        HostedEndpoints {
            rendezvous_broker: self.rendezvous_broker.clone(),
            relay_url: self.relay_url.clone(),
        }
    }
}

/// An invitation that this process created.
#[derive(PartialEq, Eq)]
pub struct CreatedInvitation {
    pub room_code: String,
    pub payload: String,
    pub broker: String,
    pub relay_urls: Vec<String>,
    pub creator_role: TransferRole,
    pub joiner_role: TransferRole,
    pub expires_at: u64,
    /// Public room locator of its bootstrap.
    pub room_id: String,
    /// Process handle of its bootstrap secret.
    pub secret_ref: String,
}

/// What a [`CreatedInvitation`] holds.
#[verifier::ext_equal]
pub struct CreatedView {
    pub room_code: Seq<char>,
    pub payload: Seq<char>,
    pub broker: Seq<char>,
    pub relay_urls: Seq<Seq<char>>,
    pub creator_role: TransferRole,
    pub joiner_role: TransferRole,
    pub expires_at: u64,
    pub room_id: Seq<char>,
    pub secret_ref: Seq<char>,
}

impl View for CreatedInvitation {
    type V = CreatedView;

    open spec fn view(&self) -> CreatedView {
        CreatedView {
            room_code: self.room_code@,
            payload: self.payload@,
            broker: self.broker@,
            relay_urls: text_seq(self.relay_urls@),
            creator_role: self.creator_role,
            joiner_role: self.joiner_role,
            expires_at: self.expires_at,
            room_id: self.room_id@,
            secret_ref: self.secret_ref@,
        }
    }
}

impl Clone for CreatedInvitation {
    fn clone(&self) -> (r: Self)
        ensures
            r@ == self@,
    {
        let r = CreatedInvitation {
            room_code: self.room_code.clone(),
            payload: self.payload.clone(),
            broker: self.broker.clone(),
            relay_urls: self.relay_urls.clone(),
            creator_role: self.creator_role,
            joiner_role: self.joiner_role,
            expires_at: self.expires_at,
            room_id: self.room_id.clone(),
            secret_ref: self.secret_ref.clone(),
        };
        assert(text_seq(r.relay_urls@) =~= text_seq(self.relay_urls@));
        r
    }
}

/// An invitation that parsed and was checked.
#[derive(Debug, PartialEq, Eq)]
pub struct ValidatedInvitation {
    pub broker: String,
    pub relay_urls: Vec<String>,
    pub creator_role: TransferRole,
    pub joiner_role: TransferRole,
    pub expires_at: u64,
    /// Public room locator of its bootstrap.
    pub room_id: String,
    /// Process handle of its bootstrap secret.
    pub secret_ref: String,
}

/// What a [`ValidatedInvitation`] holds.
#[verifier::ext_equal]
pub struct ValidatedView {
    pub broker: Seq<char>,
    pub relay_urls: Seq<Seq<char>>,
    pub creator_role: TransferRole,
    pub joiner_role: TransferRole,
    pub expires_at: u64,
    pub room_id: Seq<char>,
    pub secret_ref: Seq<char>,
}

impl View for ValidatedInvitation {
    type V = ValidatedView;

    open spec fn view(&self) -> ValidatedView {
        ValidatedView {
            broker: self.broker@,
            relay_urls: text_seq(self.relay_urls@),
            creator_role: self.creator_role,
            joiner_role: self.joiner_role,
            expires_at: self.expires_at,
            room_id: self.room_id@,
            secret_ref: self.secret_ref@,
        }
    }
}

impl Clone for ValidatedInvitation {
    fn clone(&self) -> (r: Self)
        ensures
            r@ == self@,
    {
        let r = ValidatedInvitation {
            broker: self.broker.clone(),
            relay_urls: self.relay_urls.clone(),
            creator_role: self.creator_role,
            joiner_role: self.joiner_role,
            expires_at: self.expires_at,
            room_id: self.room_id.clone(),
            secret_ref: self.secret_ref.clone(),
        };
        assert(text_seq(r.relay_urls@) =~= text_seq(self.relay_urls@));
        r
    }
}

/// One way of reaching the peer.
#[derive(Debug, PartialEq, Eq)]
#[allow(inconsistent_fields)]
pub enum PeerSource {
    Manual { peer_descriptor: String, token: String },
    Invitation { room_id: String, secret_ref: String, broker: String },
    Remembered { credential_ref: String, generation: u64, previous_generation: Option<u64>, broker: String },
    ShowManual { token: Option<String> },
    Mdns { token: Option<String> },
}

/// What a [`PeerSource`] holds.
#[verifier::ext_equal]
#[allow(inconsistent_fields)]
pub enum SourceView {
    Manual { peer_descriptor: Seq<char>, token: Seq<char> },
    Invitation { room_id: Seq<char>, secret_ref: Seq<char>, broker: Seq<char> },
    Remembered { credential_ref: Seq<char>, generation: u64, previous_generation: Option<u64>, broker: Seq<char> },
    ShowManual { token: Option<Seq<char>> },
    Mdns { token: Option<Seq<char>> },
}

impl View for PeerSource {
    type V = SourceView;

    open spec fn view(&self) -> SourceView {
        match *self {
            PeerSource::Manual { peer_descriptor, token } => SourceView::Manual { peer_descriptor: peer_descriptor@, token: token@ },
            PeerSource::Invitation { room_id, secret_ref, broker } => SourceView::Invitation { room_id: room_id@, secret_ref: secret_ref@, broker: broker@ },
            PeerSource::Remembered { credential_ref, generation, previous_generation, broker } => SourceView::Remembered { credential_ref: credential_ref@, generation, previous_generation, broker: broker@ },
            PeerSource::ShowManual { token } => SourceView::ShowManual { token: text_option(token) },
            PeerSource::Mdns { token } => SourceView::Mdns { token: text_option(token) },
        }
    }
}

impl Clone for PeerSource {
    fn clone(&self) -> (r: Self)
        ensures
            r == *self,
    {
        match self {
            PeerSource::Manual { peer_descriptor, token } => PeerSource::Manual { peer_descriptor: peer_descriptor.clone(), token: token.clone() },
            PeerSource::Invitation { room_id, secret_ref, broker } => PeerSource::Invitation { room_id: room_id.clone(), secret_ref: secret_ref.clone(), broker: broker.clone() },
            PeerSource::Remembered { credential_ref, generation, previous_generation, broker } => PeerSource::Remembered { credential_ref: credential_ref.clone(), generation: *generation, previous_generation: *previous_generation, broker: broker.clone() },
            PeerSource::ShowManual { token } => PeerSource::ShowManual { token: token.clone() },
            PeerSource::Mdns { token } => PeerSource::Mdns { token: token.clone() },
        }
    }
}

/// One attempt at reaching the peer.
#[derive(Debug, PartialEq, Eq)]
pub struct RouteAttempt {
    pub source: PeerSource,
    pub path_policy_override: Option<PathPolicy>,
}

/// What a [`RouteAttempt`] holds.
#[verifier::ext_equal]
pub struct RouteView {
    pub source: SourceView,
    pub path_policy_override: Option<PathPolicy>,
}

impl View for RouteAttempt {
    type V = RouteView;

    open spec fn view(&self) -> RouteView {
        RouteView {
            source: self.source@,
            path_policy_override: self.path_policy_override,
        }
    }
}

impl Clone for RouteAttempt {
    fn clone(&self) -> (r: Self)
        ensures
            r == *self,
    {
        RouteAttempt {
            source: self.source.clone(),
            path_policy_override: self.path_policy_override,
        }
    }
}

/// Options of an engine transfer.
#[derive(Debug, PartialEq, Eq)]
pub struct TransferOptions {
    pub relay: Option<String>,
    pub path: PathPolicy,
}

/// What a [`TransferOptions`] holds.
#[verifier::ext_equal]
pub struct OptionsView {
    pub relay: Option<Seq<char>>,
    pub path: PathPolicy,
}

impl View for TransferOptions {
    type V = OptionsView;

    open spec fn view(&self) -> OptionsView {
        OptionsView {
            relay: text_option(self.relay),
            path: self.path,
        }
    }
}

impl Clone for TransferOptions {
    fn clone(&self) -> (r: Self)
        ensures
            r == *self,
    {
        TransferOptions {
            relay: self.relay.clone(),
            path: self.path,
        }
    }
}

/// The [`FfiInvitationErrorCode`] that stands for a [`InvitationErrorCode`].
pub open spec fn invitation_code_of(value: InvitationErrorCode) -> FfiInvitationErrorCode {
    match value {
        InvitationErrorCode::Malformed => FfiInvitationErrorCode::Malformed,
        InvitationErrorCode::Oversized => FfiInvitationErrorCode::Oversized,
        InvitationErrorCode::Expired => FfiInvitationErrorCode::Expired,
        InvitationErrorCode::UnsupportedVersion => FfiInvitationErrorCode::UnsupportedVersion,
        InvitationErrorCode::UnsupportedCapability => FfiInvitationErrorCode::UnsupportedCapability,
        InvitationErrorCode::RoleConflict => FfiInvitationErrorCode::RoleConflict,
        InvitationErrorCode::AuthenticationFailed => FfiInvitationErrorCode::AuthenticationFailure,
        InvitationErrorCode::Replay => FfiInvitationErrorCode::Replay,
        InvitationErrorCode::Unlisted => FfiInvitationErrorCode::Malformed,
    }
}

/// Projects an invitation error code; codes without a name of their own read
/// as malformed.
pub fn ffi_invitation_error_code(value: InvitationErrorCode) -> (r: FfiInvitationErrorCode)
    ensures
        r == invitation_code_of(value),
{
    match value {
        InvitationErrorCode::Malformed => FfiInvitationErrorCode::Malformed,
        InvitationErrorCode::Oversized => FfiInvitationErrorCode::Oversized,
        InvitationErrorCode::Expired => FfiInvitationErrorCode::Expired,
        InvitationErrorCode::UnsupportedVersion => FfiInvitationErrorCode::UnsupportedVersion,
        InvitationErrorCode::UnsupportedCapability => FfiInvitationErrorCode::UnsupportedCapability,
        InvitationErrorCode::RoleConflict => FfiInvitationErrorCode::RoleConflict,
        InvitationErrorCode::AuthenticationFailed => FfiInvitationErrorCode::AuthenticationFailure,
        InvitationErrorCode::Replay => FfiInvitationErrorCode::Replay,
        InvitationErrorCode::Unlisted => FfiInvitationErrorCode::Malformed,
    }
}

/// The [`TransferRole`] that stands for a [`FfiInviteRole`].
pub open spec fn core_role_of(value: FfiInviteRole) -> TransferRole {
    match value {
        FfiInviteRole::Send => TransferRole::Sender,
        FfiInviteRole::Receive => TransferRole::Receiver,
    }
}

/// The engine role behind a native invite role.
pub fn core_invite_role(value: FfiInviteRole) -> (r: TransferRole)
    ensures
        r == core_role_of(value),
{
    match value {
        FfiInviteRole::Send => TransferRole::Sender,
        FfiInviteRole::Receive => TransferRole::Receiver,
    }
}

/// The [`FfiInviteRole`] that stands for a [`TransferRole`].
pub open spec fn ffi_role_of(value: TransferRole) -> FfiInviteRole {
    match value {
        TransferRole::Sender => FfiInviteRole::Send,
        TransferRole::Receiver => FfiInviteRole::Receive,
    }
}

/// The native role of an engine role.
pub fn ffi_invite_role(value: TransferRole) -> (r: FfiInviteRole)
    ensures
        r == ffi_role_of(value),
{
    match value {
        TransferRole::Sender => FfiInviteRole::Send,
        TransferRole::Receiver => FfiInviteRole::Receive,
    }
}

/// The [`TransferRole`] that stands for a [`FfiTransferDirection`].
pub open spec fn role_of(value: FfiTransferDirection) -> TransferRole {
    match value {
        FfiTransferDirection::Send => TransferRole::Sender,
        FfiTransferDirection::Receive => TransferRole::Receiver,
    }
}

/// The role of a device in a transfer of its own direction.
pub fn transfer_role(value: FfiTransferDirection) -> (r: TransferRole)
    ensures
        r == role_of(value),
{
    match value {
        FfiTransferDirection::Send => TransferRole::Sender,
        FfiTransferDirection::Receive => TransferRole::Receiver,
    }
}

/// The [`PathPolicy`] that stands for a [`FfiPathPolicy`].
pub open spec fn path_policy_of(value: FfiPathPolicy) -> PathPolicy {
    match value {
        FfiPathPolicy::Auto => PathPolicy::Auto,
        FfiPathPolicy::RelayOnly => PathPolicy::RelayOnly,
        FfiPathPolicy::DirectOnly => PathPolicy::DirectOnly,
    }
}

/// The engine form of a path policy.
pub fn core_path_policy(value: FfiPathPolicy) -> (r: PathPolicy)
    ensures
        r == path_policy_of(value),
{
    match value {
        FfiPathPolicy::Auto => PathPolicy::Auto,
        FfiPathPolicy::RelayOnly => PathPolicy::RelayOnly,
        FfiPathPolicy::DirectOnly => PathPolicy::DirectOnly,
    }
}

/// Invite roles survive a trip through the engine in both directions.
pub proof fn invite_roles_round_trip(native: FfiInviteRole, engine: TransferRole)
    ensures
        ffi_role_of(core_role_of(native)) == native,
        core_role_of(ffi_role_of(engine)) == engine,
{
}

/// An operation error with the given reason.
pub fn op_err(reason: String) -> (r: EnvoixError)
    ensures
        r@ == (ErrorView::Operation { reason: reason@ }),
{
    EnvoixError::Operation { reason }
}

pub(crate) fn op_error(reason: &str) -> (r: EnvoixError)
    ensures
        r@ == (ErrorView::Operation { reason: reason@ }),
{
    EnvoixError::Operation { reason: reason.to_owned() }
}

/// The native form of a refused invitation.
pub open spec fn invitation_error_of(error: InvitationErrorView) -> ErrorView {
    ErrorView::Invitation { code: invitation_code_of(error.code), reason: error.message }
}

/// Projects a refused invitation.
pub fn invitation_err(error: &InvitationError) -> (r: EnvoixError)
    ensures
        r@ == invitation_error_of(error@),
{
    EnvoixError::Invitation {
        code: ffi_invitation_error_code(error.code),
        reason: error.message.clone(),
    }
}

/// The error for a required field that is blank.
pub open spec fn blank_field(field: Seq<char>) -> ErrorView {
    ErrorView::Operation { reason: field + " must not be empty"@ }
}

/// The trimmed value of a field, where it is not blank.
pub open spec fn given(value: Seq<char>) -> Option<Seq<char>> {
    if is_blank(value) {
        None
    } else {
        Some(trimmed(value))
    }
}

/// The trimmed value of a field, where it is not blank.
pub fn non_empty(value: &str) -> (r: Option<String>)
    ensures
        text_option(r) == given(value@),
{
    non_blank(value)
}

/// The trimmed value of a field that must not be blank.
pub fn required(value: &str, field: &str) -> (r: Result<String, EnvoixError>)
    ensures
        match r {
            Ok(text) => !is_blank(value@) && text@ == trimmed(value@),
            Err(error) => is_blank(value@) && error@ == blank_field(field@),
        },
{
    match non_blank(value) {
        Some(text) => Ok(text),
        None => Err(op_err(joined(field, " must not be empty"))),
    }
}

/// The first of two fields that is not blank, trimmed.
pub open spec fn first_given(first: Seq<char>, second: Seq<char>) -> Option<Seq<char>> {
    if given(first) is Some {
        given(first)
    } else {
        given(second)
    }
}

fn first_given_value(first: &str, second: &str) -> (r: Option<String>)
    ensures
        text_option(r) == first_given(first@, second@),
{
    match non_blank(first) {
        Some(text) => Some(text),
        None => non_blank(second),
    }
}

/// The runtime configuration file of the client that serves a request: the
/// request's own, else the one of the settings.
pub fn build_client_for_request(settings: &EnvoixRuntimeSettings, request: &FfiTransferRequest) -> (r:
    Option<String>)
    ensures
        text_option(r) == first_given(request@.config_path, settings@.config_path),
{
    first_given_value(request.config_path.as_str(), settings.config_path.as_str())
}

/// The broker of a pairing invite: the given one, else the hosted one.
pub fn broker_for_pairing_invite(broker: &str, hosted: &HostedEndpoints) -> (r: String)
    ensures
        r@ == (if is_blank(broker@) {
            hosted@.rendezvous_broker
        } else {
            trimmed(broker@)
        }),
{
    match non_blank(broker) {
        Some(text) => text,
        None => hosted.rendezvous_broker.clone(),
    }
}

/// The relay of a pairing invite.
pub open spec fn pairing_relay(broker: Seq<char>, relay: Seq<char>, hosted: EndpointsView) -> Option<
    Seq<char>,
> {
    if !is_blank(relay) {
        Some(trimmed(relay))
    } else if is_blank(broker) {
        Some(hosted.relay_url)
    } else {
        None
    }
}

/// The relay of a pairing invite: the given one, else the hosted one where the
/// broker is the hosted one too.
pub fn relay_for_pairing_invite(broker: &str, relay: &str, hosted: &HostedEndpoints) -> (r: Option<
    String,
>)
    ensures
        text_option(r) == pairing_relay(broker@, relay@, hosted@),
{
    match non_blank(relay) {
        Some(text) => Some(text),
        None => if broker.trim().is_empty() {
            Some(hosted.relay_url.clone())
        } else {
            None
        },
    }
}

/// The engine options of a request.
pub open spec fn options_of(
    settings: SettingsView,
    request: RequestView,
    path_override: Option<PathPolicy>,
) -> Result<OptionsView, ErrorView> {
    let path = match path_override {
        Some(path) => path,
        None => path_policy_of(request.path_policy),
    };
    let relay = first_given(request.relay, settings.relay_url);
    if path == PathPolicy::RelayOnly && relay is None {
        Err(ErrorView::Operation { reason: "relay-only routing requires a relay URL"@ })
    } else {
        Ok(OptionsView { relay, path })
    }
}

/// The engine options of a request; an override replaces its path policy.
pub fn transfer_options_for_request(
    settings: &EnvoixRuntimeSettings,
    request: &FfiTransferRequest,
    path_override: Option<PathPolicy>,
) -> (r: Result<TransferOptions, EnvoixError>)
    ensures
        (match r {
            Ok(options) => Ok(options@),
            Err(error) => Err(error@),
        }) == options_of(settings@, request@, path_override),
{
    let path = match path_override {
        Some(path) => path,
        None => core_path_policy(request.path_policy),
    };
    let relay = first_given_value(request.relay.as_str(), settings.relay_url.as_str());
    if path == PathPolicy::RelayOnly && relay.is_none() {
        return Err(op_error("relay-only routing requires a relay URL"));
    }
    Ok(TransferOptions { relay, path })
}

/// The native form of a created invitation, secrets and all: its creator shows
/// them.
pub open spec fn created_invite(invitation: CreatedView) -> PairingInviteView {
    PairingInviteView {
        room_code: invitation.room_code,
        payload: invitation.payload,
        broker: invitation.broker,
        relay_urls: invitation.relay_urls,
        creator_role: ffi_role_of(invitation.creator_role),
        joiner_role: ffi_role_of(invitation.joiner_role),
        expires_at: invitation.expires_at,
    }
}

/// The native form of a checked invitation: nothing of its secrets is shown.
pub open spec fn validated_invite(invitation: ValidatedView) -> PairingInviteView {
    PairingInviteView {
        room_code: Seq::empty(),
        payload: Seq::empty(),
        broker: invitation.broker,
        relay_urls: invitation.relay_urls,
        creator_role: ffi_role_of(invitation.creator_role),
        joiner_role: ffi_role_of(invitation.joiner_role),
        expires_at: invitation.expires_at,
    }
}

impl FfiPairingInvite {
    /// Projects a created invitation.
    pub fn from_created(invitation: &CreatedInvitation) -> (r: Self)
        ensures
            r@ == created_invite(invitation@),
    {
        let relay_urls = invitation.relay_urls.clone();
        assert(text_seq(relay_urls@) =~= text_seq(invitation.relay_urls@));
        FfiPairingInvite {
            room_code: invitation.room_code.clone(),
            payload: invitation.payload.clone(),
            broker: invitation.broker.clone(),
            relay_urls,
            creator_role: ffi_invite_role(invitation.creator_role),
            joiner_role: ffi_invite_role(invitation.joiner_role),
            expires_at: invitation.expires_at,
        }
    }

    /// Projects a checked invitation.
    pub fn from_validated(invitation: &ValidatedInvitation) -> (r: Self)
        ensures
            r@ == validated_invite(invitation@),
    {
        let relay_urls = invitation.relay_urls.clone();
        assert(text_seq(relay_urls@) =~= text_seq(invitation.relay_urls@));
        FfiPairingInvite {
            room_code: String::new(),
            payload: String::new(),
            broker: invitation.broker.clone(),
            relay_urls,
            creator_role: ffi_invite_role(invitation.creator_role),
            joiner_role: ffi_invite_role(invitation.joiner_role),
            expires_at: invitation.expires_at,
        }
    }
}

/// What the engine is asked for when an invitation is made.
#[derive(Debug, PartialEq, Eq)]
pub struct InviteOrder {
    pub broker: String,
    pub relay_urls: Vec<String>,
    pub role: TransferRole,
}

/// What a [`InviteOrder`] holds.
#[verifier::ext_equal]
pub struct InviteOrderView {
    pub broker: Seq<char>,
    pub relay_urls: Seq<Seq<char>>,
    pub role: TransferRole,
}

impl View for InviteOrder {
    type V = InviteOrderView;

    open spec fn view(&self) -> InviteOrderView {
        InviteOrderView {
            broker: self.broker@,
            relay_urls: text_seq(self.relay_urls@),
            role: self.role,
        }
    }
}

impl Clone for InviteOrder {
    fn clone(&self) -> (r: Self)
        ensures
            r@ == self@,
    {
        let r = InviteOrder {
            broker: self.broker.clone(),
            relay_urls: self.relay_urls.clone(),
            role: self.role,
        };
        assert(text_seq(r.relay_urls@) =~= text_seq(self.relay_urls@));
        r
    }
}

/// The texts of an optional relay as a list.
pub open spec fn relay_list(relay: Option<Seq<char>>) -> Seq<Seq<char>> {
    match relay {
        Some(url) => seq![url],
        None => Seq::empty(),
    }
}

fn relay_vec(relay: Option<String>) -> (r: Vec<String>)
    ensures
        text_seq(r@) == relay_list(text_option(relay)),
{
    let mut urls: Vec<String> = Vec::new();
    let ghost wanted = relay_list(text_option(relay));
    if let Some(url) = relay {
        urls.push(url);
    }
    assert(text_seq(urls@) =~= wanted);
    urls
}

/// What to ask the engine for so that it makes a pairing invite.
pub fn pairing_invite_order(
    role: FfiInviteRole,
    broker: &str,
    relay: &str,
    hosted: &HostedEndpoints,
) -> (r: InviteOrder)
    ensures
        r@ == (InviteOrderView {
            broker: if is_blank(broker@) {
                hosted@.rendezvous_broker
            } else {
                trimmed(broker@)
            },
            relay_urls: relay_list(pairing_relay(broker@, relay@, hosted@)),
            role: core_role_of(role),
        }),
{
    InviteOrder {
        broker: broker_for_pairing_invite(broker, hosted),
        relay_urls: relay_vec(relay_for_pairing_invite(broker, relay, hosted)),
        role: core_invite_role(role),
    }
}

/// The invitations that this process created, by room code and creator role.
/// They stay until the process ends, so that a creator can retry.
pub struct CreatedInvitations {
    senders: TextMap<PeerSource>,
    receivers: TextMap<PeerSource>,
}

impl View for CreatedInvitations {
    type V = Map<(Seq<char>, TransferRole), SourceView>;

    closed spec fn view(&self) -> Map<(Seq<char>, TransferRole), SourceView> {
        Map::new(
            |key: (Seq<char>, TransferRole)|
                match key.1 {
                    TransferRole::Sender => self.senders@.contains_key(key.0),
                    TransferRole::Receiver => self.receivers@.contains_key(key.0),
                },
            |key: (Seq<char>, TransferRole)|
                match key.1 {
                    TransferRole::Sender => self.senders@[key.0]@,
                    TransferRole::Receiver => self.receivers@[key.0]@,
                },
        )
    }
}

/// The source that a created invitation gives its creator.
pub open spec fn creator_source(invitation: CreatedView) -> SourceView {
    SourceView::Invitation {
        room_id: invitation.room_id,
        secret_ref: invitation.secret_ref,
        broker: invitation.broker,
    }
}

impl CreatedInvitations {
    /// No invitation yet.
    pub fn new() -> (r: Self)
        ensures
            r@ == Map::<(Seq<char>, TransferRole), SourceView>::empty(),
    {
        let r = CreatedInvitations { senders: TextMap::new(), receivers: TextMap::new() };
        assert(r@ =~= Map::<(Seq<char>, TransferRole), SourceView>::empty());
        r
    }

    /// Registers a created invitation. `source_error` is why the engine cannot
    /// make a source of it, if it cannot.
    pub fn register_created_invitation(
        &mut self,
        invitation: &CreatedInvitation,
        source_error: &Option<String>,
    ) -> (r: Result<(), EnvoixError>)
        ensures
            match r {
                Ok(_) => source_error is None && final(self)@ == old(self)@.insert(
                    (invitation@.room_code, invitation@.creator_role),
                    creator_source(invitation@),
                ),
                Err(error) => {
                    &&& source_error matches Some(reason) && error@ == (ErrorView::Operation {
                        reason: reason@,
                    })
                    &&& final(self)@ == old(self)@
                },
            },
    {
        if let Some(reason) = source_error {
            return Err(op_err(reason.clone()));
        }
        let ghost before = self@;
        let source = PeerSource::Invitation {
            room_id: invitation.room_id.clone(),
            secret_ref: invitation.secret_ref.clone(),
            broker: invitation.broker.clone(),
        };
        match invitation.creator_role {
            TransferRole::Sender => self.senders.insert(invitation.room_code.clone(), source),
            TransferRole::Receiver => self.receivers.insert(invitation.room_code.clone(), source),
        }
        assert(self@ =~= before.insert(
            (invitation@.room_code, invitation@.creator_role),
            creator_source(invitation@),
        ));
        Ok(())
    }

    /// The source of a created invitation. Looking it up does not use it up.
    pub fn created_invitation_source(&self, room_code: &str, role: TransferRole) -> (r: Option<
        PeerSource,
    >)
        ensures
            match r {
                Some(source) => self@.contains_key((room_code@, role)) && source@ == self@[(
                    room_code@,
                    role,
                )],
                None => !self@.contains_key((room_code@, role)),
            },
    {
        let found = match role {
            TransferRole::Sender => self.senders.get(room_code),
            TransferRole::Receiver => self.receivers.get(room_code),
        };
        match found {
            Some(source) => Some(source.clone()),
            None => None,
        }
    }
}

/// What the engine says of the raw inputs of a request.
pub struct RouteLookups {
    /// Why the trimmed peer descriptor does not parse, if it does not.
    pub descriptor_error: Option<String>,
    /// The invitation that the request joins (mode `Invite`) or that was made
    /// for it (mode `ShowInvite`).
    pub invitation: Result<ValidatedInvitation, InvitationError>,
    /// The canonical form of the trimmed room code.
    pub room_code: Result<String, InvitationError>,
    /// Why the engine cannot make a source of these inputs, if it cannot.
    pub source_error: Option<String>,
}

/// What a [`RouteLookups`] holds.
#[verifier::ext_equal]
pub struct LookupsView {
    pub descriptor_error: Option<Seq<char>>,
    pub invitation: Result<ValidatedView, InvitationErrorView>,
    pub room_code: Result<Seq<char>, InvitationErrorView>,
    pub source_error: Option<Seq<char>>,
}

impl View for RouteLookups {
    type V = LookupsView;

    open spec fn view(&self) -> LookupsView {
        LookupsView {
            descriptor_error: text_option(self.descriptor_error),
            invitation: match self.invitation {
                Ok(invitation) => Ok(invitation@),
                Err(error) => Err(error@),
            },
            room_code: match self.room_code {
                Ok(code) => Ok(code@),
                Err(error) => Err(error@),
            },
            source_error: text_option(self.source_error),
        }
    }
}

/// A source, unless the engine cannot make one.
pub open spec fn made_source(source: SourceView, source_error: Option<Seq<char>>) -> Result<
    SourceView,
    ErrorView,
> {
    match source_error {
        Some(reason) => Err(ErrorView::Operation { reason }),
        None => Ok(source),
    }
}

/// The broker of a request: its own, else the one of the settings, else the
/// hosted one.
pub open spec fn broker_of(settings: SettingsView, request: RequestView, hosted: EndpointsView) -> Seq<
    char,
> {
    match first_given(request.broker, settings.server_url) {
        Some(broker) => broker,
        None => hosted.rendezvous_broker,
    }
}

fn broker_for_request(
    settings: &EnvoixRuntimeSettings,
    request: &FfiTransferRequest,
    hosted: &HostedEndpoints,
) -> (r: String)
    ensures
        r@ == broker_of(settings@, request@, hosted@),
{
    match first_given_value(request.broker.as_str(), settings.server_url.as_str()) {
        Some(broker) => broker,
        None => hosted.rendezvous_broker.clone(),
    }
}

/// Whether a request may use the rendezvous broker.
pub open spec fn broker_usable(request: RequestView) -> bool {
    request.rendezvous.use_room && request.rendezvous.internet_available
}

/// The source of a request, or why it has none.
pub open spec fn source_of(
    settings: SettingsView,
    request: RequestView,
    hosted: EndpointsView,
    created: Map<(Seq<char>, TransferRole), SourceView>,
    lookups: LookupsView,
) -> Result<SourceView, ErrorView> {
    match request.mode {
        FfiTransferMode::Manual => if is_blank(request.peer_descriptor) {
            Err(blank_field("peer_descriptor"@))
        } else if lookups.descriptor_error is Some {
            Err(ErrorView::Operation { reason: lookups.descriptor_error->0 })
        } else if is_blank(request.token) {
            Err(blank_field("token"@))
        } else {
            made_source(
                SourceView::Manual {
                    peer_descriptor: trimmed(request.peer_descriptor),
                    token: trimmed(request.token),
                },
                lookups.source_error,
            )
        },
        FfiTransferMode::Invite => if is_blank(request.invite) {
            Err(blank_field("invite"@))
        } else {
            match lookups.invitation {
                Err(error) => Err(invitation_error_of(error)),
                Ok(invitation) => made_source(
                    SourceView::Invitation {
                        room_id: invitation.room_id,
                        secret_ref: invitation.secret_ref,
                        broker: invitation.broker,
                    },
                    lookups.source_error,
                ),
            }
        },
        FfiTransferMode::Remembered => if !broker_usable(request) {
            Err(
                ErrorView::Operation {
                    reason: "remembered devices require an available rendezvous broker"@,
                },
            )
        } else if is_blank(request.remembered_credential_ref) {
            Err(blank_field("remembered_credential_ref"@))
        } else {
            Ok(
                SourceView::Remembered {
                    credential_ref: trimmed(request.remembered_credential_ref),
                    generation: request.remembered_generation,
                    previous_generation: request.remembered_previous_generation,
                    broker: broker_of(settings, request, hosted),
                },
            )
        },
        FfiTransferMode::ShowManual => made_source(
            SourceView::ShowManual { token: given(request.token) },
            lookups.source_error,
        ),
        FfiTransferMode::ShowInvite => match lookups.invitation {
            Err(error) => Err(invitation_error_of(error)),
            Ok(invitation) => made_source(
                SourceView::Invitation {
                    room_id: invitation.room_id,
                    secret_ref: invitation.secret_ref,
                    broker: broker_of(settings, request, hosted),
                },
                lookups.source_error,
            ),
        },
        FfiTransferMode::Mdns => made_source(
            SourceView::Mdns { token: given(request.token) },
            lookups.source_error,
        ),
        FfiTransferMode::Room => if is_blank(request.code) {
            Err(blank_field("code"@))
        } else {
            match lookups.room_code {
                Err(error) => Err(invitation_error_of(error)),
                Ok(code) => if !created.contains_key((code, role_of(request.direction))) {
                    Err(
                        ErrorView::Operation {
                            reason: "Naked InviteV2 Room Codes are no longer supported"@,
                        },
                    )
                } else if !broker_usable(request) {
                    Err(
                        ErrorView::Operation {
                            reason: "Creator invitation bootstrap requires an available rendezvous broker"@,
                        },
                    )
                } else {
                    Ok(created[(code, role_of(request.direction))])
                },
            }
        },
    }
}

fn make_source(source: PeerSource, source_error: &Option<String>) -> (r: Result<PeerSource, EnvoixError>)
    ensures
        (match r {
            Ok(source) => Ok(source@),
            Err(error) => Err(error@),
        }) == made_source(source@, text_option(*source_error)),
{
    match source_error {
        Some(reason) => Err(op_err(reason.clone())),
        None => Ok(source),
    }
}

fn source_for_request(
    settings: &EnvoixRuntimeSettings,
    request: &FfiTransferRequest,
    hosted: &HostedEndpoints,
    created: &CreatedInvitations,
    lookups: &RouteLookups,
) -> (r: Result<PeerSource, EnvoixError>)
    ensures
        (match r {
            Ok(source) => Ok(source@),
            Err(error) => Err(error@),
        }) == source_of(settings@, request@, hosted@, created@, lookups@),
{
    match request.mode {
        FfiTransferMode::Manual => {
            let peer_descriptor = match required(
                request.peer_descriptor.as_str(),
                "peer_descriptor",
            ) {
                Ok(text) => text,
                Err(error) => return Err(error),
            };
            if let Some(reason) = &lookups.descriptor_error {
                return Err(op_err(reason.clone()));
            }
            let token = match required(request.token.as_str(), "token") {
                Ok(text) => text,
                Err(error) => return Err(error),
            };
            make_source(PeerSource::Manual { peer_descriptor, token }, &lookups.source_error)
        },
        FfiTransferMode::Invite => {
            if let Err(error) = required(request.invite.as_str(), "invite") {
                return Err(error);
            }
            match &lookups.invitation {
                Err(error) => Err(invitation_err(error)),
                Ok(invitation) => make_source(
                    PeerSource::Invitation {
                        room_id: invitation.room_id.clone(),
                        secret_ref: invitation.secret_ref.clone(),
                        broker: invitation.broker.clone(),
                    },
                    &lookups.source_error,
                ),
            }
        },
        FfiTransferMode::Remembered => {
            if !request.rendezvous.use_room || !request.rendezvous.internet_available {
                return Err(
                    op_error("remembered devices require an available rendezvous broker"),
                );
            }
            let credential_ref = match required(
                request.remembered_credential_ref.as_str(),
                "remembered_credential_ref",
            ) {
                Ok(text) => text,
                Err(error) => return Err(error),
            };
            Ok(
                PeerSource::Remembered {
                    credential_ref,
                    generation: request.remembered_generation,
                    previous_generation: request.remembered_previous_generation,
                    broker: broker_for_request(settings, request, hosted),
                },
            )
        },
        FfiTransferMode::ShowManual => make_source(
            PeerSource::ShowManual { token: non_empty(request.token.as_str()) },
            &lookups.source_error,
        ),
        FfiTransferMode::ShowInvite => match &lookups.invitation {
            Err(error) => Err(invitation_err(error)),
            Ok(invitation) => make_source(
                PeerSource::Invitation {
                    room_id: invitation.room_id.clone(),
                    secret_ref: invitation.secret_ref.clone(),
                    broker: broker_for_request(settings, request, hosted),
                },
                &lookups.source_error,
            ),
        },
        FfiTransferMode::Mdns => make_source(
            PeerSource::Mdns { token: non_empty(request.token.as_str()) },
            &lookups.source_error,
        ),
        FfiTransferMode::Room => {
            if let Err(error) = required(request.code.as_str(), "code") {
                return Err(error);
            }
            let code = match &lookups.room_code {
                Ok(code) => code,
                Err(error) => return Err(invitation_err(error)),
            };
            match created.created_invitation_source(
                code.as_str(),
                transfer_role(request.direction),
            ) {
                None => Err(op_error("Naked InviteV2 Room Codes are no longer supported")),
                Some(source) => if !request.rendezvous.use_room
                    || !request.rendezvous.internet_available {
                    Err(
                        op_error(
                            "Creator invitation bootstrap requires an available rendezvous broker",
                        ),
                    )
                } else {
                    Ok(source)
                },
            }
        },
    }
}

/// Plans the attempts at reaching the peer of a request: one, under the
/// request's own path policy.
pub fn peer_sources_for_request(
    settings: &EnvoixRuntimeSettings,
    request: &FfiTransferRequest,
    hosted: &HostedEndpoints,
    created: &CreatedInvitations,
    lookups: &RouteLookups,
) -> (r: Result<Vec<RouteAttempt>, EnvoixError>)
    ensures
        match r {
            Ok(routes) => routes@.len() == 1 && routes@[0]@.path_policy_override is None
                && source_of(settings@, request@, hosted@, created@, lookups@) == Ok::<
                SourceView,
                ErrorView,
            >(routes@[0]@.source),
            Err(error) => source_of(settings@, request@, hosted@, created@, lookups@) == Err::<
                SourceView,
                ErrorView,
            >(error@),
        },
{
    match source_for_request(settings, request, hosted, created, lookups) {
        Err(error) => Err(error),
        Ok(source) => {
            let mut routes: Vec<RouteAttempt> = Vec::new();
            routes.push(RouteAttempt { source, path_policy_override: None });
            Ok(routes)
        },
    }
}

/// What to ask the engine for so that it makes the invitation of a request
/// that shows one.
pub fn shown_invite_order(
    settings: &EnvoixRuntimeSettings,
    request: &FfiTransferRequest,
    hosted: &HostedEndpoints,
) -> (r: InviteOrder)
    ensures
        r@ == (InviteOrderView {
            broker: broker_of(settings@, request@, hosted@),
            relay_urls: relay_list(first_given(request@.relay, settings@.relay_url)),
            role: role_of(request@.direction),
        }),
{
    InviteOrder {
        broker: broker_for_request(settings, request, hosted),
        relay_urls: relay_vec(
            first_given_value(request.relay.as_str(), settings.relay_url.as_str()),
        ),
        role: transfer_role(request.direction),
    }
}

/// The public room locator of an invitation flow, or why there is none.
pub open spec fn room_id_of(
    request: RequestView,
    created: Map<(Seq<char>, TransferRole), SourceView>,
    lookups: LookupsView,
) -> Result<Seq<char>, ErrorView> {
    match request.mode {
        FfiTransferMode::Invite => if is_blank(request.invite) {
            Err(blank_field("invite"@))
        } else {
            match lookups.invitation {
                Err(error) => Err(invitation_error_of(error)),
                Ok(invitation) => Ok(invitation.room_id),
            }
        },
        FfiTransferMode::Room => if is_blank(request.code) {
            Err(blank_field("code"@))
        } else {
            match lookups.room_code {
                Err(error) => Err(invitation_error_of(error)),
                Ok(code) => {
                    let key = (code, role_of(request.direction));
                    if created.contains_key(key) && created[key] is Invitation {
                        Ok(created[key]->Invitation_room_id)
                    } else {
                        Err(
                            ErrorView::Operation {
                                reason: "Naked InviteV2 Room Codes are no longer supported"@,
                            },
                        )
                    }
                },
            }
        },
        _ => Err(
            ErrorView::Operation { reason: "invitation Room ID requires Room or Invite mode"@ },
        ),
    }
}

/// The public room locator that both sides of an invitation flow share. The
/// full room code stays with its creator.
pub fn transfer_invitation_room_id(
    request: &FfiTransferRequest,
    created: &CreatedInvitations,
    lookups: &RouteLookups,
) -> (r: Result<String, EnvoixError>)
    ensures
        (match r {
            Ok(id) => Ok(id@),
            Err(error) => Err(error@),
        }) == room_id_of(request@, created@, lookups@),
{
    match request.mode {
        FfiTransferMode::Invite => {
            if let Err(error) = required(request.invite.as_str(), "invite") {
                return Err(error);
            }
            match &lookups.invitation {
                Err(error) => Err(invitation_err(error)),
                Ok(invitation) => Ok(invitation.room_id.clone()),
            }
        },
        FfiTransferMode::Room => {
            if let Err(error) = required(request.code.as_str(), "code") {
                return Err(error);
            }
            let code = match &lookups.room_code {
                Ok(code) => code,
                Err(error) => return Err(invitation_err(error)),
            };
            match created.created_invitation_source(
                code.as_str(),
                transfer_role(request.direction),
            ) {
                Some(PeerSource::Invitation { room_id, .. }) => Ok(room_id),
                _ => Err(op_error("Naked InviteV2 Room Codes are no longer supported")),
            }
        },
        _ => Err(op_error("invitation Room ID requires Room or Invite mode")),
    }
}

/// A room code that this process did not create an invitation for is refused,
/// whether or not the broker can be reached.
pub proof fn naked_room_codes_are_refused(
    settings: SettingsView,
    request: RequestView,
    hosted: EndpointsView,
    created: Map<(Seq<char>, TransferRole), SourceView>,
    lookups: LookupsView,
    code: Seq<char>,
)
    requires
        request.mode == FfiTransferMode::Room,
        !is_blank(request.code),
        lookups.room_code == Ok::<Seq<char>, InvitationErrorView>(code),
        !created.contains_key((code, role_of(request.direction))),
    ensures
        source_of(settings, request, hosted, created, lookups) == Err::<SourceView, ErrorView>(
            ErrorView::Operation { reason: "Naked InviteV2 Room Codes are no longer supported"@ },
        ),
        room_id_of(request, created, lookups) == Err::<Seq<char>, ErrorView>(
            ErrorView::Operation { reason: "Naked InviteV2 Room Codes are no longer supported"@ },
        ),
{
}

/// A creator can route through its own room code again and again, and sees the
/// room locator of its invitation.
pub proof fn creators_can_route_through_their_code(
    settings: SettingsView,
    request: RequestView,
    hosted: EndpointsView,
    created: Map<(Seq<char>, TransferRole), SourceView>,
    lookups: LookupsView,
    invitation: CreatedView,
)
    requires
        request.mode == FfiTransferMode::Room,
        !is_blank(request.code),
        broker_usable(request),
        lookups.room_code == Ok::<Seq<char>, InvitationErrorView>(invitation.room_code),
        invitation.creator_role == role_of(request.direction),
    ensures
        ({
            let known = created.insert(
                (invitation.room_code, invitation.creator_role),
                creator_source(invitation),
            );
            &&& source_of(settings, request, hosted, known, lookups) == Ok::<SourceView, ErrorView>(
                creator_source(invitation),
            )
            &&& room_id_of(request, known, lookups) == Ok::<Seq<char>, ErrorView>(
                invitation.room_id,
            )
        }),
{
}

impl CreatedInvitations {
    /// Registers and shows an invitation that the engine made for
    /// [`pairing_invite_order`]. `source_error` is why the engine cannot make
    /// a source of it, if it cannot.
    pub fn make_pairing_invite(
        &mut self,
        made: &Result<CreatedInvitation, InvitationError>,
        source_error: &Option<String>,
    ) -> (r: Result<FfiPairingInvite, EnvoixError>)
        ensures
            match *made {
                Err(error) => {
                    &&& final(self)@ == old(self)@
                    &&& r matches Err(e) && e@ == invitation_error_of(error@)
                },
                Ok(invitation) => match *source_error {
                    Some(reason) => {
                        &&& final(self)@ == old(self)@
                        &&& r matches Err(e) && e@ == (ErrorView::Operation { reason: reason@ })
                    },
                    None => {
                        &&& final(self)@ == old(self)@.insert(
                            (invitation@.room_code, invitation@.creator_role),
                            creator_source(invitation@),
                        )
                        &&& r matches Ok(shown) && shown@ == created_invite(invitation@)
                    },
                },
            },
    {
        match made {
            Err(error) => Err(invitation_err(error)),
            Ok(invitation) => match self.register_created_invitation(invitation, source_error) {
                Err(error) => Err(error),
                Ok(_) => Ok(FfiPairingInvite::from_created(invitation)),
            },
        }
    }
}

/// Shows an invitation that was parsed, without its secrets.
pub fn parse_pairing_invite(parsed: &Result<ValidatedInvitation, InvitationError>) -> (r: Result<
    FfiPairingInvite,
    EnvoixError,
>)
    ensures
        match (r, *parsed) {
            (Ok(shown), Ok(invitation)) => shown@ == validated_invite(invitation@),
            (Err(e), Err(error)) => e@ == invitation_error_of(error@),
            _ => false,
        },
{
    match parsed {
        Ok(invitation) => Ok(FfiPairingInvite::from_validated(invitation)),
        Err(error) => Err(invitation_err(error)),
    }
}

/// Shows an invitation that was parsed for the local side of a transfer,
/// without its secrets.
pub fn parse_pairing_invite_for_role(parsed: &Result<ValidatedInvitation, InvitationError>) -> (r:
    Result<FfiPairingInvite, EnvoixError>)
    ensures
        match (r, *parsed) {
            (Ok(shown), Ok(invitation)) => shown@ == validated_invite(invitation@),
            (Err(e), Err(error)) => e@ == invitation_error_of(error@),
            _ => false,
        },
{
    parse_pairing_invite(parsed)
}

/// Reports the handle under which the engine keeps a protected credential for
/// this process.
pub fn register_protected_remembered_credential(registered: &Result<String, String>) -> (r: Result<
    String,
    EnvoixError,
>)
    ensures
        match (r, *registered) {
            (Ok(handle), Ok(text)) => handle@ == text@,
            (Err(e), Err(reason)) => e@ == (ErrorView::Operation { reason: reason@ }),
            _ => false,
        },
{
    match registered {
        Ok(handle) => Ok(handle.clone()),
        Err(reason) => Err(op_err(reason.clone())),
    }
}

/// Reports a room code that the engine generated.
pub fn generate_room_code(generated: &Result<String, InvitationError>) -> (r: Result<
    String,
    EnvoixError,
>)
    ensures
        match (r, *generated) {
            (Ok(code), Ok(text)) => code@ == text@,
            (Err(e), Err(error)) => e@ == invitation_error_of(error@),
            _ => false,
        },
{
    match generated {
        Ok(code) => Ok(code.clone()),
        Err(error) => Err(invitation_err(error)),
    }
}

/// Reports the canonical form that the engine gives a room code. It does not
/// make the code joinable.
pub fn normalize_room_code(parsed: &Result<String, InvitationError>) -> (r: Result<
    String,
    EnvoixError,
>)
    ensures
        match (r, *parsed) {
            (Ok(code), Ok(text)) => code@ == text@,
            (Err(e), Err(error)) => e@ == invitation_error_of(error@),
            _ => false,
        },
{
    generate_room_code(parsed)
}

/// Codes, roles and policies of invitations keep their meaning: a sender stays a
/// sender, and a policy is never loosened.
pub proof fn invitation_values_keep_their_names(
    code: InvitationErrorCode,
    client_role: FfiInviteRole,
    role: TransferRole,
    direction: FfiTransferDirection,
    policy: FfiPathPolicy,
)
    ensures
        invitation_code_of(code) is Malformed <==> code is Malformed || code is Unlisted,
        invitation_code_of(code) is Oversized <==> code is Oversized,
        invitation_code_of(code) is Expired <==> code is Expired,
        invitation_code_of(code) is UnsupportedVersion <==> code is UnsupportedVersion,
        invitation_code_of(code) is UnsupportedCapability <==> code is UnsupportedCapability,
        invitation_code_of(code) is RoleConflict <==> code is RoleConflict,
        invitation_code_of(code) is AuthenticationFailure <==> code is AuthenticationFailed,
        invitation_code_of(code) is Replay <==> code is Replay,
        core_role_of(client_role) is Sender <==> client_role is Send,
        core_role_of(client_role) is Receiver <==> client_role is Receive,
        ffi_role_of(role) is Send <==> role is Sender,
        ffi_role_of(role) is Receive <==> role is Receiver,
        role_of(direction) is Sender <==> direction is Send,
        role_of(direction) is Receiver <==> direction is Receive,
        path_policy_of(policy) is Auto <==> policy is Auto,
        path_policy_of(policy) is RelayOnly <==> policy is RelayOnly,
        path_policy_of(policy) is DirectOnly <==> policy is DirectOnly,
{
}

/// A manual request dials the descriptor and the token that it names, where it
/// names both and the engine takes them.
pub proof fn manual_sources_keep_what_they_name(
    settings: SettingsView,
    request: RequestView,
    hosted: EndpointsView,
    created: Map<(Seq<char>, TransferRole), SourceView>,
    lookups: LookupsView,
)
    requires
        request.mode == FfiTransferMode::Manual,
    ensures
        ({
            let source = source_of(settings, request, hosted, created, lookups);
            &&& source is Ok <==> !is_blank(request.peer_descriptor) && !is_blank(request.token)
                && lookups.descriptor_error is None && lookups.source_error is None
            &&& source matches Ok(found) ==> found == (SourceView::Manual {
                peer_descriptor: trimmed(request.peer_descriptor),
                token: trimmed(request.token),
            })
            &&& is_blank(request.peer_descriptor) ==> source == Err::<SourceView, ErrorView>(
                ErrorView::Operation { reason: "peer_descriptor"@ + " must not be empty"@ },
            )
        }),
{
}

/// An invite leads to the room, the secret and the broker of the invitation that
/// was validated, and an invite that was refused to the refusal.
pub proof fn invite_sources_keep_their_invitation(
    settings: SettingsView,
    request: RequestView,
    hosted: EndpointsView,
    created: Map<(Seq<char>, TransferRole), SourceView>,
    lookups: LookupsView,
)
    requires
        request.mode == FfiTransferMode::Invite,
        !is_blank(request.invite),
    ensures
        ({
            let source = source_of(settings, request, hosted, created, lookups);
            &&& lookups.invitation matches Ok(invitation) ==> (lookups.source_error is None
                ==> source == Ok::<SourceView, ErrorView>(
                SourceView::Invitation {
                    room_id: invitation.room_id,
                    secret_ref: invitation.secret_ref,
                    broker: invitation.broker,
                },
            ) && room_id_of(request, created, lookups) == Ok::<Seq<char>, ErrorView>(
                invitation.room_id,
            ))
            &&& lookups.invitation matches Err(refusal) ==> source == Err::<SourceView, ErrorView>(
                ErrorView::Invitation {
                    code: invitation_code_of(refusal.code),
                    reason: refusal.message,
                },
            )
            &&& source is Ok <==> lookups.invitation is Ok && lookups.source_error is None
        }),
{
}

/// A remembered peer is met under the credential and the generations that the
/// request names, at the broker it uses, and only where that can be reached.
pub proof fn remembered_sources_keep_their_credential(
    settings: SettingsView,
    request: RequestView,
    hosted: EndpointsView,
    created: Map<(Seq<char>, TransferRole), SourceView>,
    lookups: LookupsView,
)
    requires
        request.mode == FfiTransferMode::Remembered,
    ensures
        ({
            let source = source_of(settings, request, hosted, created, lookups);
            &&& source is Ok <==> request.rendezvous.use_room
                && request.rendezvous.internet_available && !is_blank(
                request.remembered_credential_ref,
            )
            &&& source matches Ok(found) ==> found == (SourceView::Remembered {
                credential_ref: trimmed(request.remembered_credential_ref),
                generation: request.remembered_generation,
                previous_generation: request.remembered_previous_generation,
                broker: broker_of(settings, request, hosted),
            })
        }),
{
}

/// A shown descriptor and a local request keep their token, or have none where it
/// is blank; a shown invite keeps its invitation, at the broker of the request.
pub proof fn shown_sources_keep_their_secret(
    settings: SettingsView,
    request: RequestView,
    hosted: EndpointsView,
    created: Map<(Seq<char>, TransferRole), SourceView>,
    lookups: LookupsView,
)
    requires
        lookups.source_error is None,
    ensures
        ({
            let source = source_of(settings, request, hosted, created, lookups);
            let token = if is_blank(request.token) {
                None
            } else {
                Some(trimmed(request.token))
            };
            &&& request.mode is ShowManual ==> source == Ok::<SourceView, ErrorView>(
                SourceView::ShowManual { token },
            )
            &&& request.mode is Mdns ==> source == Ok::<SourceView, ErrorView>(
                SourceView::Mdns { token },
            )
            &&& request.mode is ShowInvite ==> (lookups.invitation matches Ok(invitation) ==> source
                == Ok::<SourceView, ErrorView>(
                SourceView::Invitation {
                    room_id: invitation.room_id,
                    secret_ref: invitation.secret_ref,
                    broker: broker_of(settings, request, hosted),
                },
            ))
            &&& request.mode is ShowInvite ==> (lookups.invitation matches Err(refusal) ==> source
                == Err::<SourceView, ErrorView>(invitation_error_of(refusal)))
        }),
{
}

/// A room code leads to a source exactly where it was created here for the same
/// role and the broker can be reached, and then to the source that was created.
pub proof fn room_sources_are_the_created_ones(
    settings: SettingsView,
    request: RequestView,
    hosted: EndpointsView,
    created: Map<(Seq<char>, TransferRole), SourceView>,
    lookups: LookupsView,
)
    requires
        request.mode == FfiTransferMode::Room,
        !is_blank(request.code),
    ensures
        ({
            let source = source_of(settings, request, hosted, created, lookups);
            &&& lookups.room_code matches Ok(code) ==> (source is Ok <==> created.contains_key(
                (code, role_of(request.direction)),
            ) && request.rendezvous.use_room && request.rendezvous.internet_available)
            &&& lookups.room_code matches Ok(code) ==> (source matches Ok(found) ==> found
                == created[(code, role_of(request.direction))])
            &&& lookups.room_code matches Err(refusal) ==> source == Err::<SourceView, ErrorView>(
                ErrorView::Invitation {
                    code: invitation_code_of(refusal.code),
                    reason: refusal.message,
                },
            )
        }),
{
}

/// The room of a request is known for a room code and an invite alone.
pub proof fn only_invitations_have_a_room(
    request: RequestView,
    created: Map<(Seq<char>, TransferRole), SourceView>,
    lookups: LookupsView,
)
    ensures
        !(request.mode is Room) && !(request.mode is Invite) ==> room_id_of(
            request,
            created,
            lookups,
        ) == Err::<Seq<char>, ErrorView>(
            ErrorView::Operation { reason: "invitation Room ID requires Room or Invite mode"@ },
        ),
        request.mode is Room && !is_blank(request.code) ==> (lookups.room_code matches Ok(code)
            ==> (room_id_of(request, created, lookups) matches Ok(room) ==> created.contains_key(
            (code, role_of(request.direction)),
        ) && created[(code, role_of(request.direction))] is Invitation && created[(
            code,
            role_of(request.direction),
        )]->Invitation_room_id == room)),
{
}

/// A source that the engine refuses is refused with the engine's reason.
pub proof fn refused_sources_say_why(source: SourceView, reason: Seq<char>)
    ensures
        made_source(source, None) == Ok::<SourceView, ErrorView>(source),
        made_source(source, Some(reason)) == Err::<SourceView, ErrorView>(
            ErrorView::Operation { reason },
        ),
{
}

/// What a request names comes before what the session names, and that before what
/// is hosted; blanks name nothing.
pub proof fn named_values_come_first(
    settings: SettingsView,
    request: RequestView,
    hosted: EndpointsView,
    first: Seq<char>,
    second: Seq<char>,
)
    ensures
        !is_blank(first) ==> first_given(first, second) == Some(trimmed(first)),
        is_blank(first) && !is_blank(second) ==> first_given(first, second) == Some(
            trimmed(second),
        ),
        is_blank(first) && is_blank(second) ==> first_given(first, second) is None,
        !is_blank(request.broker) ==> broker_of(settings, request, hosted) == trimmed(
            request.broker,
        ),
        is_blank(request.broker) && !is_blank(settings.server_url) ==> broker_of(
            settings,
            request,
            hosted,
        ) == trimmed(settings.server_url),
        is_blank(request.broker) && is_blank(settings.server_url) ==> broker_of(
            settings,
            request,
            hosted,
        ) == hosted.rendezvous_broker,
{
}

/// A pairing uses the relay that it names; the hosted one only goes with the hosted
/// broker.
pub proof fn pairings_use_the_named_relay(broker: Seq<char>, relay: Seq<char>, hosted: EndpointsView)
    ensures
        !is_blank(relay) ==> pairing_relay(broker, relay, hosted) == Some(trimmed(relay)),
        is_blank(relay) && is_blank(broker) ==> pairing_relay(broker, relay, hosted) == Some(
            hosted.relay_url,
        ),
        is_blank(relay) && !is_blank(broker) ==> pairing_relay(broker, relay, hosted) is None,
        relay_list(pairing_relay(broker, relay, hosted)).len() <= 1,
        relay_list(Some(relay)) == seq![relay],
        relay_list(None).len() == 0,
{
}

/// Routing through a relay alone is refused exactly where no relay is named; an
/// attempt's own policy comes before the request's.
pub proof fn options_follow_the_attempt(
    settings: SettingsView,
    request: RequestView,
    path: PathPolicy,
)
    ensures
        options_of(settings, request, Some(path)) is Err <==> path is RelayOnly && is_blank(
            request.relay,
        ) && is_blank(settings.relay_url),
        options_of(settings, request, None) is Err <==> request.path_policy is RelayOnly
            && is_blank(request.relay) && is_blank(settings.relay_url),
        options_of(settings, request, Some(path)) matches Ok(options) ==> options.path == path
            && options.relay == first_given(request.relay, settings.relay_url),
        options_of(settings, request, None) matches Ok(options) ==> options.path
            == path_policy_of(request.path_policy) && options.relay == first_given(
            request.relay,
            settings.relay_url,
        ),
{
}

/// An invite is shown with its own broker, relays, roles and end. Only the one who
/// created it sees its code and payload.
pub proof fn invites_are_shown_to_their_creator(created: CreatedView, validated: ValidatedView)
    ensures
        created_invite(created).room_code == created.room_code,
        created_invite(created).payload == created.payload,
        created_invite(created).broker == created.broker,
        created_invite(created).relay_urls == created.relay_urls,
        created_invite(created).expires_at == created.expires_at,
        created_invite(created).creator_role is Send <==> created.creator_role is Sender,
        created_invite(created).joiner_role is Send <==> created.joiner_role is Sender,
        validated_invite(validated).room_code.len() == 0,
        validated_invite(validated).payload.len() == 0,
        validated_invite(validated).broker == validated.broker,
        validated_invite(validated).relay_urls == validated.relay_urls,
        validated_invite(validated).expires_at == validated.expires_at,
        validated_invite(validated).creator_role is Send <==> validated.creator_role is Sender,
        validated_invite(validated).joiner_role is Send <==> validated.joiner_role is Sender,
        creator_source(created) == (SourceView::Invitation {
            room_id: created.room_id,
            secret_ref: created.secret_ref,
            broker: created.broker,
        }),
{
}

} // verus!
