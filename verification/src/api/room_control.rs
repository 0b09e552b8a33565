//! Foreground rooms: invitations, events, lifetimes and the failures of
//! connecting and of an authenticated session.
use vstd::prelude::*;
use vstd::string::*;

use crate::api::failures::{
    rendezvous_cause_of, rendezvous_cause_projection, SessionCause, SessionCauseView, SessionError,
    SessionErrorView,
};
use crate::api::invitations::{given, non_empty, op_err, EndpointsView, HostedEndpoints};
use crate::api::types::{EnvoixError, ErrorView, FfiFailureCode};
use crate::text::{is_blank, joined, text_option, text_seq, trimmed};

verus! {

broadcast use vstd::seq_lib::group_seq_properties;

/// An invitation into a room.
#[derive(Debug, PartialEq, Eq)]
pub struct FfiRoomControlInvite {
    pub code: String,
    pub payload: String,
    pub broker: String,
    pub relay: String,
    pub expires_at_epoch_ms: u64,
}

/// What a [`FfiRoomControlInvite`] holds.
#[verifier::ext_equal]
pub struct RoomInviteView {
    pub code: Seq<char>,
    pub payload: Seq<char>,
    pub broker: Seq<char>,
    pub relay: Seq<char>,
    pub expires_at_epoch_ms: u64,
}

impl View for FfiRoomControlInvite {
    type V = RoomInviteView;

    open spec fn view(&self) -> RoomInviteView {
        RoomInviteView {
            code: self.code@,
            payload: self.payload@,
            broker: self.broker@,
            relay: self.relay@,
            expires_at_epoch_ms: self.expires_at_epoch_ms,
        }
    }
}

impl Clone for FfiRoomControlInvite {
    fn clone(&self) -> (r: Self)
        ensures
            r == *self,
    {
        FfiRoomControlInvite {
            code: self.code.clone(),
            payload: self.payload.clone(),
            broker: self.broker.clone(),
            relay: self.relay.clone(),
            expires_at_epoch_ms: self.expires_at_epoch_ms,
        }
    }
}

/// Part that a device plays when a room is opened.
#[derive(Clone, Copy, Debug, PartialEq, Eq, Structural)]
pub enum FfiRoomConnectMode {
    Host,
    Join,
}

/// Part that a device plays when it meets a remembered one.
#[derive(Clone, Copy, Debug, PartialEq, Eq, Structural)]
pub enum FfiRememberedRoomConnectMode {
    Connector,
    Responder,
}

/// A failed attempt under one generation. Another generation may be tried only
/// where the peer was not authenticated.
#[derive(Debug, PartialEq, Eq)]
pub enum FfiRememberedRoomConnectError {
    Failed { reason: String, peer_authenticated: bool, failure_code: Option<FfiFailureCode>, retry_after_seconds: Option<u64> },
}

/// What a [`FfiRememberedRoomConnectError`] holds.
#[verifier::ext_equal]
pub enum ConnectErrorView {
    Failed { reason: Seq<char>, peer_authenticated: bool, failure_code: Option<FfiFailureCode>, retry_after_seconds: Option<u64> },
}

impl View for FfiRememberedRoomConnectError {
    type V = ConnectErrorView;

    open spec fn view(&self) -> ConnectErrorView {
        match *self {
            FfiRememberedRoomConnectError::Failed { reason, peer_authenticated, failure_code, retry_after_seconds } => ConnectErrorView::Failed { reason: reason@, peer_authenticated, failure_code, retry_after_seconds },
        }
    }
}

impl Clone for FfiRememberedRoomConnectError {
    fn clone(&self) -> (r: Self)
        ensures
            r == *self,
    {
        match self {
            FfiRememberedRoomConnectError::Failed { reason, peer_authenticated, failure_code, retry_after_seconds } => FfiRememberedRoomConnectError::Failed { reason: reason.clone(), peer_authenticated: *peer_authenticated, failure_code: *failure_code, retry_after_seconds: *retry_after_seconds },
        }
    }
}

/// A failed operation on an authenticated session. Clients decide by the
/// variant, never by the reason.
#[derive(Debug, PartialEq, Eq)]
pub enum FfiRoomControlError {
    Rejected { reason: String },
    NetworkLost { reason: String },
    Canceled { reason: String },
    Failed { reason: String },
}

/// What a [`FfiRoomControlError`] holds.
#[verifier::ext_equal]
pub enum RoomErrorView {
    Rejected { reason: Seq<char> },
    NetworkLost { reason: Seq<char> },
    Canceled { reason: Seq<char> },
    Failed { reason: Seq<char> },
}

impl View for FfiRoomControlError {
    type V = RoomErrorView;

    open spec fn view(&self) -> RoomErrorView {
        match *self {
            FfiRoomControlError::Rejected { reason } => RoomErrorView::Rejected { reason: reason@ },
            FfiRoomControlError::NetworkLost { reason } => RoomErrorView::NetworkLost { reason: reason@ },
            FfiRoomControlError::Canceled { reason } => RoomErrorView::Canceled { reason: reason@ },
            FfiRoomControlError::Failed { reason } => RoomErrorView::Failed { reason: reason@ },
        }
    }
}

impl Clone for FfiRoomControlError {
    fn clone(&self) -> (r: Self)
        ensures
            r == *self,
    {
        match self {
            FfiRoomControlError::Rejected { reason } => FfiRoomControlError::Rejected { reason: reason.clone() },
            FfiRoomControlError::NetworkLost { reason } => FfiRoomControlError::NetworkLost { reason: reason.clone() },
            FfiRoomControlError::Canceled { reason } => FfiRoomControlError::Canceled { reason: reason.clone() },
            FfiRoomControlError::Failed { reason } => FfiRoomControlError::Failed { reason: reason.clone() },
        }
    }
}

/// How long a room lives.
#[derive(Clone, Copy, Debug, PartialEq, Eq, Structural)]
pub enum FfiRoomLifetimePolicy {
    Idle15Minutes,
    UntilForegroundEnds,
}

/// The lifetime of a room.
#[derive(Clone, Copy, Debug, PartialEq, Eq, Structural)]
pub struct FfiRoomLifetimeState {
    pub revision: u64,
    pub policy: FfiRoomLifetimePolicy,
    pub idle_deadline_epoch_ms: Option<u64>,
}

/// Why a room closed.
#[derive(Clone, Copy, Debug, PartialEq, Eq, Structural)]
pub enum FfiRoomCloseReason {
    UserEnded,
    IdleExpired,
    InvitationExpired,
    PeerEnded,
    Backgrounded,
    NetworkLost,
    ProtocolFailure,
}

/// Why an offer was rejected.
#[derive(Clone, Copy, Debug, PartialEq, Eq, Structural)]
pub enum FfiRoomOfferRejection {
    Declined,
    Busy,
    Expired,
    Invalid,
}

/// An offer in a room.
#[derive(Debug, PartialEq, Eq)]
pub struct FfiRoomTransferOffer {
    pub offer_id: String,
    pub transfer_invite: String,
    pub root_names: Vec<String>,
    pub item_count: u32,
    pub directory_count: u32,
    pub total_bytes: u64,
}

/// What a [`FfiRoomTransferOffer`] holds.
#[verifier::ext_equal]
pub struct RoomOfferView {
    pub offer_id: Seq<char>,
    pub transfer_invite: Seq<char>,
    pub root_names: Seq<Seq<char>>,
    pub item_count: u32,
    pub directory_count: u32,
    pub total_bytes: u64,
}

impl View for FfiRoomTransferOffer {
    type V = RoomOfferView;

    open spec fn view(&self) -> RoomOfferView {
        RoomOfferView {
            offer_id: self.offer_id@,
            transfer_invite: self.transfer_invite@,
            root_names: text_seq(self.root_names@),
            item_count: self.item_count,
            directory_count: self.directory_count,
            total_bytes: self.total_bytes,
        }
    }
}

impl Clone for FfiRoomTransferOffer {
    fn clone(&self) -> (r: Self)
        ensures
            r@ == self@,
    {
        let r = FfiRoomTransferOffer {
            offer_id: self.offer_id.clone(),
            transfer_invite: self.transfer_invite.clone(),
            root_names: self.root_names.clone(),
            item_count: self.item_count,
            directory_count: self.directory_count,
            total_bytes: self.total_bytes,
        };
        assert(text_seq(r.root_names@) =~= text_seq(self.root_names@));
        r
    }
}

/// Kind of an event.
#[derive(Clone, Copy, Debug, PartialEq, Eq, Structural)]
pub enum FfiRoomControlEventKind {
    VerificationRequested,
    VerificationSucceeded,
    VerificationFailed,
    IncomingOffer,
    OfferAccepted,
    OfferRejected,
    LifetimeChanged,
    PeerClosed,
    Pong,
}

/// An event of a room.
#[derive(Debug, PartialEq, Eq)]
pub struct FfiRoomControlEvent {
    pub kind: FfiRoomControlEventKind,
    pub offer: Option<FfiRoomTransferOffer>,
    pub offer_id: String,
    pub rejection: Option<FfiRoomOfferRejection>,
    pub lifetime: Option<FfiRoomLifetimeState>,
    pub close_reason: Option<FfiRoomCloseReason>,
    pub nonce: u64,
}

/// What a [`FfiRoomControlEvent`] holds.
#[verifier::ext_equal]
pub struct RoomEventView {
    pub kind: FfiRoomControlEventKind,
    pub offer: Option<RoomOfferView>,
    pub offer_id: Seq<char>,
    pub rejection: Option<FfiRoomOfferRejection>,
    pub lifetime: Option<FfiRoomLifetimeState>,
    pub close_reason: Option<FfiRoomCloseReason>,
    pub nonce: u64,
}

impl View for FfiRoomControlEvent {
    type V = RoomEventView;

    open spec fn view(&self) -> RoomEventView {
        RoomEventView {
            kind: self.kind,
            offer: match self.offer { Some(x) => Some(x@), None => None },
            offer_id: self.offer_id@,
            rejection: self.rejection,
            lifetime: self.lifetime,
            close_reason: self.close_reason,
            nonce: self.nonce,
        }
    }
}

impl Clone for FfiRoomControlEvent {
    fn clone(&self) -> (r: Self)
        ensures
            r@ == self@,
    {
        let r = FfiRoomControlEvent {
            kind: self.kind,
            offer: self.offer.clone(),
            offer_id: self.offer_id.clone(),
            rejection: self.rejection,
            lifetime: self.lifetime,
            close_reason: self.close_reason,
            nonce: self.nonce,
        };
        r
    }
}

/// A session as clients see it. It has no text form.
#[derive(PartialEq, Eq)]
pub struct FfiRoomControlSnapshot {
    pub peer_name: String,
    pub creator: bool,
    pub remembered_generation: Option<u64>,
    pub lifetime: FfiRoomLifetimeState,
}

/// What a [`FfiRoomControlSnapshot`] holds.
#[verifier::ext_equal]
pub struct RoomSnapshotView {
    pub peer_name: Seq<char>,
    pub creator: bool,
    pub remembered_generation: Option<u64>,
    pub lifetime: FfiRoomLifetimeState,
}

impl View for FfiRoomControlSnapshot {
    type V = RoomSnapshotView;

    open spec fn view(&self) -> RoomSnapshotView {
        RoomSnapshotView {
            peer_name: self.peer_name@,
            creator: self.creator,
            remembered_generation: self.remembered_generation,
            lifetime: self.lifetime,
        }
    }
}

impl Clone for FfiRoomControlSnapshot {
    fn clone(&self) -> (r: Self)
        ensures
            r == *self,
    {
        FfiRoomControlSnapshot {
            peer_name: self.peer_name.clone(),
            creator: self.creator,
            remembered_generation: self.remembered_generation,
            lifetime: self.lifetime,
        }
    }
}

/// How long a room lives.
#[derive(Clone, Copy, Debug, PartialEq, Eq, Structural)]
pub enum RoomLifetimePolicy {
    Idle15Minutes,
    UntilForegroundEnds,
}

/// The lifetime of a room.
#[derive(Clone, Copy, Debug, PartialEq, Eq, Structural)]
pub struct RoomLifetimeState {
    pub revision: u64,
    pub policy: RoomLifetimePolicy,
    pub idle_deadline_unix_ms: Option<u64>,
}

/// Why a room closed.
#[derive(Clone, Copy, Debug, PartialEq, Eq, Structural)]
pub enum RoomCloseReason {
    UserEnded,
    IdleExpired,
    InvitationExpired,
    PeerEnded,
    Backgrounded,
    NetworkLost,
    ProtocolFailure,
}

/// Why an offer was rejected.
#[derive(Clone, Copy, Debug, PartialEq, Eq, Structural)]
pub enum RoomOfferRejection {
    Declined,
    Busy,
    Expired,
    Invalid,
}

/// An offer in a room.
#[derive(Debug, PartialEq, Eq)]
pub struct RoomTransferOffer {
    pub offer_id: String,
    pub transfer_invite: String,
    pub root_names: Vec<String>,
    pub item_count: u32,
    pub directory_count: u32,
    pub total_bytes: u64,
}

/// What a [`RoomTransferOffer`] holds.
#[verifier::ext_equal]
pub struct EngineOfferView {
    pub offer_id: Seq<char>,
    pub transfer_invite: Seq<char>,
    pub root_names: Seq<Seq<char>>,
    pub item_count: u32,
    pub directory_count: u32,
    pub total_bytes: u64,
}

impl View for RoomTransferOffer {
    type V = EngineOfferView;

    open spec fn view(&self) -> EngineOfferView {
        EngineOfferView {
            offer_id: self.offer_id@,
            transfer_invite: self.transfer_invite@,
            root_names: text_seq(self.root_names@),
            item_count: self.item_count,
            directory_count: self.directory_count,
            total_bytes: self.total_bytes,
        }
    }
}

impl Clone for RoomTransferOffer {
    fn clone(&self) -> (r: Self)
        ensures
            r@ == self@,
    {
        let r = RoomTransferOffer {
            offer_id: self.offer_id.clone(),
            transfer_invite: self.transfer_invite.clone(),
            root_names: self.root_names.clone(),
            item_count: self.item_count,
            directory_count: self.directory_count,
            total_bytes: self.total_bytes,
        };
        assert(text_seq(r.root_names@) =~= text_seq(self.root_names@));
        r
    }
}

/// An event of a room.
#[derive(Debug, PartialEq, Eq)]
#[allow(inconsistent_fields)]
pub enum RoomControlEvent {
    VerificationRequested,
    VerificationSucceeded,
    VerificationFailed,
    IncomingOffer { offer: RoomTransferOffer },
    OfferAccepted { offer_id: String },
    OfferRejected { offer_id: String, reason: RoomOfferRejection },
    LifetimeChanged { lifetime: RoomLifetimeState },
    PeerClosed { reason: RoomCloseReason },
    Pong { nonce: u64 },
}

/// What a [`RoomControlEvent`] holds.
#[verifier::ext_equal]
#[allow(inconsistent_fields)]
pub enum EngineRoomEventView {
    VerificationRequested,
    VerificationSucceeded,
    VerificationFailed,
    IncomingOffer { offer: EngineOfferView },
    OfferAccepted { offer_id: Seq<char> },
    OfferRejected { offer_id: Seq<char>, reason: RoomOfferRejection },
    LifetimeChanged { lifetime: RoomLifetimeState },
    PeerClosed { reason: RoomCloseReason },
    Pong { nonce: u64 },
}

impl View for RoomControlEvent {
    type V = EngineRoomEventView;

    open spec fn view(&self) -> EngineRoomEventView {
        match *self {
            RoomControlEvent::VerificationRequested => EngineRoomEventView::VerificationRequested,
            RoomControlEvent::VerificationSucceeded => EngineRoomEventView::VerificationSucceeded,
            RoomControlEvent::VerificationFailed => EngineRoomEventView::VerificationFailed,
            RoomControlEvent::IncomingOffer { offer } => EngineRoomEventView::IncomingOffer { offer: offer@ },
            RoomControlEvent::OfferAccepted { offer_id } => EngineRoomEventView::OfferAccepted { offer_id: offer_id@ },
            RoomControlEvent::OfferRejected { offer_id, reason } => EngineRoomEventView::OfferRejected { offer_id: offer_id@, reason },
            RoomControlEvent::LifetimeChanged { lifetime } => EngineRoomEventView::LifetimeChanged { lifetime },
            RoomControlEvent::PeerClosed { reason } => EngineRoomEventView::PeerClosed { reason },
            RoomControlEvent::Pong { nonce } => EngineRoomEventView::Pong { nonce },
        }
    }
}

impl Clone for RoomControlEvent {
    fn clone(&self) -> (r: Self)
        ensures
            r@ == self@,
    {
        let r = match self {
            RoomControlEvent::VerificationRequested => RoomControlEvent::VerificationRequested,
            RoomControlEvent::VerificationSucceeded => RoomControlEvent::VerificationSucceeded,
            RoomControlEvent::VerificationFailed => RoomControlEvent::VerificationFailed,
            RoomControlEvent::IncomingOffer { offer } => RoomControlEvent::IncomingOffer { offer: offer.clone() },
            RoomControlEvent::OfferAccepted { offer_id } => RoomControlEvent::OfferAccepted { offer_id: offer_id.clone() },
            RoomControlEvent::OfferRejected { offer_id, reason } => RoomControlEvent::OfferRejected { offer_id: offer_id.clone(), reason: *reason },
            RoomControlEvent::LifetimeChanged { lifetime } => RoomControlEvent::LifetimeChanged { lifetime: *lifetime },
            RoomControlEvent::PeerClosed { reason } => RoomControlEvent::PeerClosed { reason: *reason },
            RoomControlEvent::Pong { nonce } => RoomControlEvent::Pong { nonce: *nonce },
        };
        assert(r@ =~= self@);
        r
    }
}

/// An invitation as the engine holds it.
#[derive(Debug, PartialEq, Eq)]
pub struct RoomControlInvite {
    pub code: String,
    pub payload: String,
    pub broker: String,
    pub relay: Option<String>,
    pub expires_at_unix_secs: u64,
}

/// What a [`RoomControlInvite`] holds.
#[verifier::ext_equal]
pub struct EngineInviteView {
    pub code: Seq<char>,
    pub payload: Seq<char>,
    pub broker: Seq<char>,
    pub relay: Option<Seq<char>>,
    pub expires_at_unix_secs: u64,
}

impl View for RoomControlInvite {
    type V = EngineInviteView;

    open spec fn view(&self) -> EngineInviteView {
        EngineInviteView {
            code: self.code@,
            payload: self.payload@,
            broker: self.broker@,
            relay: text_option(self.relay),
            expires_at_unix_secs: self.expires_at_unix_secs,
        }
    }
}

impl Clone for RoomControlInvite {
    fn clone(&self) -> (r: Self)
        ensures
            r == *self,
    {
        RoomControlInvite {
            code: self.code.clone(),
            payload: self.payload.clone(),
            broker: self.broker.clone(),
            relay: self.relay.clone(),
            expires_at_unix_secs: self.expires_at_unix_secs,
        }
    }
}

/// What an operation of the engine failed with.
pub enum CoreError {
    InvalidInput { reason: String },
    Io { reason: String },
    Transport { reason: String },
    Cancelled,
    Protocol { reason: String },
    /// A failure after a one-time invitation was used up.
    InvitationConsumed { source: Box<CoreError> },
    /// Anything else, by its text.
    Other { rendered: String },
}

/// Part that a device plays when it meets a remembered one.
#[derive(Clone, Copy, Debug, PartialEq, Eq, Structural)]
pub enum RememberedRoomControlRole {
    Connector,
    Responder,
}

/// The [`RoomLifetimePolicy`] that stands for a [`FfiRoomLifetimePolicy`].
pub open spec fn core_policy_of(value: FfiRoomLifetimePolicy) -> RoomLifetimePolicy {
    match value {
        FfiRoomLifetimePolicy::Idle15Minutes => RoomLifetimePolicy::Idle15Minutes,
        FfiRoomLifetimePolicy::UntilForegroundEnds => RoomLifetimePolicy::UntilForegroundEnds,
    }
}

/// The engine form of a lifetime policy.
pub fn core_policy(value: FfiRoomLifetimePolicy) -> (r: RoomLifetimePolicy)
    ensures
        r == core_policy_of(value),
{
    match value {
        FfiRoomLifetimePolicy::Idle15Minutes => RoomLifetimePolicy::Idle15Minutes,
        FfiRoomLifetimePolicy::UntilForegroundEnds => RoomLifetimePolicy::UntilForegroundEnds,
    }
}

/// The [`FfiRoomLifetimePolicy`] that stands for a [`RoomLifetimePolicy`].
pub open spec fn ffi_policy_of(value: RoomLifetimePolicy) -> FfiRoomLifetimePolicy {
    match value {
        RoomLifetimePolicy::Idle15Minutes => FfiRoomLifetimePolicy::Idle15Minutes,
        RoomLifetimePolicy::UntilForegroundEnds => FfiRoomLifetimePolicy::UntilForegroundEnds,
    }
}

/// Projects a lifetime policy.
pub fn ffi_policy(value: RoomLifetimePolicy) -> (r: FfiRoomLifetimePolicy)
    ensures
        r == ffi_policy_of(value),
{
    match value {
        RoomLifetimePolicy::Idle15Minutes => FfiRoomLifetimePolicy::Idle15Minutes,
        RoomLifetimePolicy::UntilForegroundEnds => FfiRoomLifetimePolicy::UntilForegroundEnds,
    }
}

/// The [`RoomOfferRejection`] that stands for a [`FfiRoomOfferRejection`].
pub open spec fn core_rejection_of(value: FfiRoomOfferRejection) -> RoomOfferRejection {
    match value {
        FfiRoomOfferRejection::Declined => RoomOfferRejection::Declined,
        FfiRoomOfferRejection::Busy => RoomOfferRejection::Busy,
        FfiRoomOfferRejection::Expired => RoomOfferRejection::Expired,
        FfiRoomOfferRejection::Invalid => RoomOfferRejection::Invalid,
    }
}

/// The engine form of a rejection.
pub fn core_rejection(value: FfiRoomOfferRejection) -> (r: RoomOfferRejection)
    ensures
        r == core_rejection_of(value),
{
    match value {
        FfiRoomOfferRejection::Declined => RoomOfferRejection::Declined,
        FfiRoomOfferRejection::Busy => RoomOfferRejection::Busy,
        FfiRoomOfferRejection::Expired => RoomOfferRejection::Expired,
        FfiRoomOfferRejection::Invalid => RoomOfferRejection::Invalid,
    }
}

/// The [`FfiRoomOfferRejection`] that stands for a [`RoomOfferRejection`].
pub open spec fn ffi_rejection_of(value: RoomOfferRejection) -> FfiRoomOfferRejection {
    match value {
        RoomOfferRejection::Declined => FfiRoomOfferRejection::Declined,
        RoomOfferRejection::Busy => FfiRoomOfferRejection::Busy,
        RoomOfferRejection::Expired => FfiRoomOfferRejection::Expired,
        RoomOfferRejection::Invalid => FfiRoomOfferRejection::Invalid,
    }
}

/// Projects a rejection.
pub fn ffi_rejection(value: RoomOfferRejection) -> (r: FfiRoomOfferRejection)
    ensures
        r == ffi_rejection_of(value),
{
    match value {
        RoomOfferRejection::Declined => FfiRoomOfferRejection::Declined,
        RoomOfferRejection::Busy => FfiRoomOfferRejection::Busy,
        RoomOfferRejection::Expired => FfiRoomOfferRejection::Expired,
        RoomOfferRejection::Invalid => FfiRoomOfferRejection::Invalid,
    }
}

/// The [`RoomCloseReason`] that stands for a [`FfiRoomCloseReason`].
pub open spec fn core_close_reason_of(value: FfiRoomCloseReason) -> RoomCloseReason {
    match value {
        FfiRoomCloseReason::UserEnded => RoomCloseReason::UserEnded,
        FfiRoomCloseReason::IdleExpired => RoomCloseReason::IdleExpired,
        FfiRoomCloseReason::InvitationExpired => RoomCloseReason::InvitationExpired,
        FfiRoomCloseReason::PeerEnded => RoomCloseReason::PeerEnded,
        FfiRoomCloseReason::Backgrounded => RoomCloseReason::Backgrounded,
        FfiRoomCloseReason::NetworkLost => RoomCloseReason::NetworkLost,
        FfiRoomCloseReason::ProtocolFailure => RoomCloseReason::ProtocolFailure,
    }
}

/// The engine form of a close reason.
pub fn core_close_reason(value: FfiRoomCloseReason) -> (r: RoomCloseReason)
    ensures
        r == core_close_reason_of(value),
{
    match value {
        FfiRoomCloseReason::UserEnded => RoomCloseReason::UserEnded,
        FfiRoomCloseReason::IdleExpired => RoomCloseReason::IdleExpired,
        FfiRoomCloseReason::InvitationExpired => RoomCloseReason::InvitationExpired,
        FfiRoomCloseReason::PeerEnded => RoomCloseReason::PeerEnded,
        FfiRoomCloseReason::Backgrounded => RoomCloseReason::Backgrounded,
        FfiRoomCloseReason::NetworkLost => RoomCloseReason::NetworkLost,
        FfiRoomCloseReason::ProtocolFailure => RoomCloseReason::ProtocolFailure,
    }
}

/// The [`FfiRoomCloseReason`] that stands for a [`RoomCloseReason`].
pub open spec fn ffi_close_reason_of(value: RoomCloseReason) -> FfiRoomCloseReason {
    match value {
        RoomCloseReason::UserEnded => FfiRoomCloseReason::UserEnded,
        RoomCloseReason::IdleExpired => FfiRoomCloseReason::IdleExpired,
        RoomCloseReason::InvitationExpired => FfiRoomCloseReason::InvitationExpired,
        RoomCloseReason::PeerEnded => FfiRoomCloseReason::PeerEnded,
        RoomCloseReason::Backgrounded => FfiRoomCloseReason::Backgrounded,
        RoomCloseReason::NetworkLost => FfiRoomCloseReason::NetworkLost,
        RoomCloseReason::ProtocolFailure => FfiRoomCloseReason::ProtocolFailure,
    }
}

/// Projects a close reason.
pub fn ffi_close_reason(value: RoomCloseReason) -> (r: FfiRoomCloseReason)
    ensures
        r == ffi_close_reason_of(value),
{
    match value {
        RoomCloseReason::UserEnded => FfiRoomCloseReason::UserEnded,
        RoomCloseReason::IdleExpired => FfiRoomCloseReason::IdleExpired,
        RoomCloseReason::InvitationExpired => FfiRoomCloseReason::InvitationExpired,
        RoomCloseReason::PeerEnded => FfiRoomCloseReason::PeerEnded,
        RoomCloseReason::Backgrounded => FfiRoomCloseReason::Backgrounded,
        RoomCloseReason::NetworkLost => FfiRoomCloseReason::NetworkLost,
        RoomCloseReason::ProtocolFailure => FfiRoomCloseReason::ProtocolFailure,
    }
}

/// The [`RememberedRoomControlRole`] that stands for a [`FfiRememberedRoomConnectMode`].
pub open spec fn remembered_role_of(value: FfiRememberedRoomConnectMode) -> RememberedRoomControlRole {
    match value {
        FfiRememberedRoomConnectMode::Connector => RememberedRoomControlRole::Connector,
        FfiRememberedRoomConnectMode::Responder => RememberedRoomControlRole::Responder,
    }
}

/// The engine form of the part that a device plays.
pub fn remembered_room_role(value: FfiRememberedRoomConnectMode) -> (r: RememberedRoomControlRole)
    ensures
        r == remembered_role_of(value),
{
    match value {
        FfiRememberedRoomConnectMode::Connector => RememberedRoomControlRole::Connector,
        FfiRememberedRoomConnectMode::Responder => RememberedRoomControlRole::Responder,
    }
}

/// Whether a device hosts the room that it connects to.
pub fn is_host(mode: FfiRoomConnectMode) -> (r: bool)
    ensures
        r == (mode == FfiRoomConnectMode::Host),
{
    mode == FfiRoomConnectMode::Host
}

/// The native form of a lifetime.
pub open spec fn ffi_lifetime_of(state: RoomLifetimeState) -> FfiRoomLifetimeState {
    FfiRoomLifetimeState {
        revision: state.revision,
        policy: ffi_policy_of(state.policy),
        idle_deadline_epoch_ms: state.idle_deadline_unix_ms,
    }
}

/// Projects a lifetime.
pub fn ffi_lifetime(state: RoomLifetimeState) -> (r: FfiRoomLifetimeState)
    ensures
        r == ffi_lifetime_of(state),
{
    FfiRoomLifetimeState {
        revision: state.revision,
        policy: ffi_policy(state.policy),
        idle_deadline_epoch_ms: state.idle_deadline_unix_ms,
    }
}

/// Milliseconds of seconds, or the largest number where they do not fit.
pub open spec fn millis_of(seconds: u64) -> u64 {
    if seconds * 1000 <= u64::MAX {
        (seconds * 1000) as u64
    } else {
        u64::MAX
    }
}

pub(crate) fn saturating_millis(seconds: u64) -> (r: u64)
    ensures
        r == millis_of(seconds),
{
    if seconds <= u64::MAX / 1000 {
        seconds * 1000
    } else {
        u64::MAX
    }
}

/// The native form of an invitation.
pub open spec fn room_invite_of(invite: EngineInviteView) -> RoomInviteView {
    RoomInviteView {
        code: invite.code,
        payload: invite.payload,
        broker: invite.broker,
        relay: match invite.relay {
            Some(relay) => relay,
            None => Seq::empty(),
        },
        expires_at_epoch_ms: millis_of(invite.expires_at_unix_secs),
    }
}

/// Projects an invitation; its expiry is told in milliseconds.
pub fn project_invite(invite: &RoomControlInvite) -> (r: FfiRoomControlInvite)
    ensures
        r@ == room_invite_of(invite@),
{
    FfiRoomControlInvite {
        code: invite.code.clone(),
        payload: invite.payload.clone(),
        broker: invite.broker.clone(),
        relay: match &invite.relay {
            Some(relay) => relay.clone(),
            None => String::new(),
        },
        expires_at_epoch_ms: saturating_millis(invite.expires_at_unix_secs),
    }
}

/// The services that a room is reached through: the given ones, else the
/// hosted ones.
pub open spec fn room_endpoints_of(broker: Seq<char>, relay: Seq<char>, hosted: EndpointsView) -> EndpointsView {
    EndpointsView {
        rendezvous_broker: match given(broker) {
            Some(broker) => broker,
            None => hosted.rendezvous_broker,
        },
        relay_url: match given(relay) {
            Some(relay) => relay,
            None => hosted.relay_url,
        },
    }
}

/// The services that a room is reached through.
pub fn room_endpoints(broker: &str, relay: &str, hosted: &HostedEndpoints) -> (r: HostedEndpoints)
    ensures
        r@ == room_endpoints_of(broker@, relay@, hosted@),
{
    HostedEndpoints {
        rendezvous_broker: match non_empty(broker) {
            Some(broker) => broker,
            None => hosted.rendezvous_broker.clone(),
        },
        relay_url: match non_empty(relay) {
            Some(relay) => relay,
            None => hosted.relay_url.clone(),
        },
    }
}

/// Reports an invitation that was parsed with [`room_endpoints`] as its
/// fallback.
pub fn parse_room_control_invite(outcome: &Result<RoomControlInvite, String>) -> (r: Result<
    FfiRoomControlInvite,
    EnvoixError,
>)
    ensures
        match (r, *outcome) {
            (Ok(shown), Ok(invite)) => shown@ == room_invite_of(invite@),
            (Err(error), Err(reason)) => error@ == (ErrorView::Operation { reason: reason@ }),
            _ => false,
        },
{
    match outcome {
        Ok(invite) => Ok(project_invite(invite)),
        Err(reason) => Err(op_err(reason.clone())),
    }
}

/// Reports an invitation that was made for [`room_endpoints`].
pub fn make_room_control_invite(outcome: &Result<RoomControlInvite, String>) -> (r: Result<
    FfiRoomControlInvite,
    EnvoixError,
>)
    ensures
        match (r, *outcome) {
            (Ok(shown), Ok(invite)) => shown@ == room_invite_of(invite@),
            (Err(error), Err(reason)) => error@ == (ErrorView::Operation { reason: reason@ }),
            _ => false,
        },
{
    parse_room_control_invite(outcome)
}

/// The handle of the credential that a presence tag is derived from.
pub fn presence_credential(remembered_credential_ref: &str) -> (r: Result<String, EnvoixError>)
    ensures
        match r {
            Ok(handle) => given(remembered_credential_ref@) == Some(handle@),
            Err(error) => given(remembered_credential_ref@) is None && error@
                == (ErrorView::Operation {
                reason: "remembered credential reference is missing"@,
            }),
        },
{
    match non_empty(remembered_credential_ref) {
        Some(handle) => Ok(handle),
        None => Err(op_err("remembered credential reference is missing".to_owned())),
    }
}

/// Reports the presence tag that the engine derives from a remembered
/// credential. `derived` is what the engine made of the handle, which
/// [`presence_credential`] gives.
pub fn derive_remembered_presence_tag(
    remembered_credential_ref: &str,
    derived: &Result<String, String>,
) -> (r: Result<String, EnvoixError>)
    ensures
        (match r {
            Ok(tag) => Ok(tag@),
            Err(error) => Err(error@),
        }) == (if given(remembered_credential_ref@) is None {
            Err(ErrorView::Operation { reason: "remembered credential reference is missing"@ })
        } else {
            match *derived {
                Ok(tag) => Ok(tag@),
                Err(reason) => Err(ErrorView::Operation { reason: reason@ }),
            }
        }),
{
    if let Err(error) = presence_credential(remembered_credential_ref) {
        return Err(error);
    }
    match derived {
        Ok(tag) => Ok(tag.clone()),
        Err(reason) => Err(op_err(reason.clone())),
    }
}

/// A failed attempt without a cause of the broker.
pub open spec fn connect_failure(reason: Seq<char>, peer_authenticated: bool) -> ConnectErrorView {
    ConnectErrorView::Failed {
        reason,
        peer_authenticated,
        failure_code: None,
        retry_after_seconds: None,
    }
}

/// A failed attempt without a cause of the broker.
pub fn remembered_connect_err(reason: &str, peer_authenticated: bool) -> (r:
    FfiRememberedRoomConnectError)
    ensures
        r@ == connect_failure(reason@, peer_authenticated),
{
    FfiRememberedRoomConnectError::Failed {
        reason: reason.to_owned(),
        peer_authenticated,
        failure_code: None,
        retry_after_seconds: None,
    }
}

/// The handle of the credential that a remembered device is met under.
pub fn remembered_credential_handle(remembered_credential_ref: &str) -> (r: Result<
    String,
    FfiRememberedRoomConnectError,
>)
    ensures
        match r {
            Ok(handle) => given(remembered_credential_ref@) == Some(handle@),
            Err(error) => given(remembered_credential_ref@) is None && error@ == connect_failure(
                "remembered credential reference is missing"@,
                false,
            ),
        },
{
    match non_empty(remembered_credential_ref) {
        Some(handle) => Ok(handle),
        None => Err(
            remembered_connect_err("remembered credential reference is missing", false),
        ),
    }
}

/// What a room connection is made with.
#[derive(Debug, PartialEq, Eq)]
pub struct RoomConnectPlan {
    pub host: bool,
    pub verified_pairing: bool,
    /// The file of a lasting identity, where there is one.
    pub identity_path: Option<String>,
    /// The relay of the invitation, where it has one.
    pub relay: Option<String>,
}

/// What a room connection is made with, once its invitation is parsed.
pub fn connect_room_control_session(
    invite: &RoomControlInvite,
    mode: FfiRoomConnectMode,
    verified_pairing: bool,
    identity_path: &str,
) -> (r: RoomConnectPlan)
    ensures
        r.host == (mode == FfiRoomConnectMode::Host),
        r.verified_pairing == verified_pairing,
        text_option(r.identity_path) == given(identity_path@),
        text_option(r.relay) == invite@.relay,
{
    RoomConnectPlan {
        host: is_host(mode),
        verified_pairing,
        identity_path: non_empty(identity_path),
        relay: invite.relay.clone(),
    }
}

/// What a connection to a remembered device is made with.
#[derive(Debug, PartialEq, Eq)]
pub struct RememberedConnectPlan {
    /// Process handle of the credential.
    pub credential_ref: String,
    pub endpoints: HostedEndpoints,
    /// The file of a lasting identity, where there is one.
    pub identity_path: Option<String>,
    pub role: RememberedRoomControlRole,
}

/// What a connection to a remembered device is made with.
pub fn connect_remembered_room_control_session(
    remembered_credential_ref: &str,
    mode: FfiRememberedRoomConnectMode,
    identity_path: &str,
    broker: &str,
    relay: &str,
    hosted: &HostedEndpoints,
) -> (r: Result<RememberedConnectPlan, FfiRememberedRoomConnectError>)
    ensures
        match r {
            Ok(plan) => {
                &&& given(remembered_credential_ref@) == Some(plan.credential_ref@)
                &&& plan.endpoints@ == room_endpoints_of(broker@, relay@, hosted@)
                &&& text_option(plan.identity_path) == given(identity_path@)
                &&& plan.role == remembered_role_of(mode)
            },
            Err(error) => given(remembered_credential_ref@) is None && error@ == connect_failure(
                "remembered credential reference is missing"@,
                false,
            ),
        },
{
    match remembered_credential_handle(remembered_credential_ref) {
        Err(error) => Err(error),
        Ok(credential_ref) => Ok(
            RememberedConnectPlan {
                credential_ref,
                endpoints: room_endpoints(broker, relay, hosted),
                identity_path: non_empty(identity_path),
                role: remembered_room_role(mode),
            },
        ),
    }
}

/// The cause and the delay that the broker told, where it refused.
pub open spec fn connect_metadata_of(error: SessionErrorView) -> (Option<FfiFailureCode>, Option<u64>) {
    match error.cause {
        SessionCauseView::Rendezvous { cause, retry_after } => (
            Some(rendezvous_cause_of(cause).code),
            retry_after,
        ),
        _ => (None, None),
    }
}

/// The cause and the delay that the broker told, where it refused.
pub fn remembered_connect_metadata(error: &SessionError) -> (r: (
    Option<FfiFailureCode>,
    Option<u64>,
))
    ensures
        r == connect_metadata_of(error@),
{
    match &error.cause {
        SessionCause::Rendezvous { cause, retry_after } => (
            Some(rendezvous_cause_projection(*cause).code),
            *retry_after,
        ),
        _ => (None, None),
    }
}

/// A failed attempt.
pub fn remembered_session_connect_err(
    error: &SessionError,
    rendered: &str,
    peer_authenticated: bool,
) -> (r: FfiRememberedRoomConnectError)
    ensures
        r@ == (ConnectErrorView::Failed {
            reason: rendered@,
            peer_authenticated,
            failure_code: connect_metadata_of(error@).0,
            retry_after_seconds: connect_metadata_of(error@).1,
        }),
{
    let (failure_code, retry_after_seconds) = remembered_connect_metadata(error);
    FfiRememberedRoomConnectError::Failed {
        reason: rendered.to_owned(),
        peer_authenticated,
        failure_code,
        retry_after_seconds,
    }
}

/// The native form of a failed operation. A failure after a used-up invitation
/// counts as the failure underneath.
pub open spec fn room_error_of(error: CoreError) -> RoomErrorView
    decreases error,
{
    match error {
        CoreError::InvalidInput { reason } => RoomErrorView::Rejected { reason: reason@ },
        CoreError::Io { reason } => RoomErrorView::NetworkLost { reason: reason@ },
        CoreError::Transport { reason } => RoomErrorView::NetworkLost { reason: reason@ },
        CoreError::Cancelled => RoomErrorView::Canceled {
            reason: "room-control operation canceled"@,
        },
        CoreError::Protocol { reason } => RoomErrorView::Failed {
            reason: "protocol error: "@ + reason@,
        },
        CoreError::InvitationConsumed { source } => room_error_of(*source),
        CoreError::Other { rendered } => RoomErrorView::Failed { reason: rendered@ },
    }
}

/// Projects a failed operation.
pub fn room_control_err(error: &CoreError) -> (r: FfiRoomControlError)
    ensures
        r@ == room_error_of(*error),
    decreases error,
{
    match error {
        CoreError::InvalidInput { reason } => FfiRoomControlError::Rejected {
            reason: reason.clone(),
        },
        CoreError::Io { reason } => FfiRoomControlError::NetworkLost { reason: reason.clone() },
        CoreError::Transport { reason } => FfiRoomControlError::NetworkLost {
            reason: reason.clone(),
        },
        CoreError::Cancelled => FfiRoomControlError::Canceled {
            reason: "room-control operation canceled".to_owned(),
        },
        CoreError::Protocol { reason } => FfiRoomControlError::Failed {
            reason: joined("protocol error: ", reason.as_str()),
        },
        CoreError::InvitationConsumed { source } => room_control_err(source),
        CoreError::Other { rendered } => FfiRoomControlError::Failed { reason: rendered.clone() },
    }
}

/// The native form of an offer.
pub open spec fn ffi_offer_of(offer: EngineOfferView) -> RoomOfferView {
    RoomOfferView {
        offer_id: offer.offer_id,
        transfer_invite: offer.transfer_invite,
        root_names: offer.root_names,
        item_count: offer.item_count,
        directory_count: offer.directory_count,
        total_bytes: offer.total_bytes,
    }
}

/// Projects an offer.
pub fn ffi_offer(offer: &RoomTransferOffer) -> (r: FfiRoomTransferOffer)
    ensures
        r@ == ffi_offer_of(offer@),
{
    let root_names = offer.root_names.clone();
    assert(text_seq(root_names@) =~= text_seq(offer.root_names@));
    FfiRoomTransferOffer {
        offer_id: offer.offer_id.clone(),
        transfer_invite: offer.transfer_invite.clone(),
        root_names,
        item_count: offer.item_count,
        directory_count: offer.directory_count,
        total_bytes: offer.total_bytes,
    }
}

/// The engine form of an offer.
pub open spec fn core_offer_of(offer: RoomOfferView) -> EngineOfferView {
    EngineOfferView {
        offer_id: offer.offer_id,
        transfer_invite: offer.transfer_invite,
        root_names: offer.root_names,
        item_count: offer.item_count,
        directory_count: offer.directory_count,
        total_bytes: offer.total_bytes,
    }
}

/// The engine form of an offer.
pub fn core_offer(offer: &FfiRoomTransferOffer) -> (r: RoomTransferOffer)
    ensures
        r@ == core_offer_of(offer@),
{
    let root_names = offer.root_names.clone();
    assert(text_seq(root_names@) =~= text_seq(offer.root_names@));
    RoomTransferOffer {
        offer_id: offer.offer_id.clone(),
        transfer_invite: offer.transfer_invite.clone(),
        root_names,
        item_count: offer.item_count,
        directory_count: offer.directory_count,
        total_bytes: offer.total_bytes,
    }
}

/// An event that holds nothing but its kind.
pub open spec fn plain_room_event(kind: FfiRoomControlEventKind) -> RoomEventView {
    RoomEventView {
        kind,
        offer: None,
        offer_id: Seq::empty(),
        rejection: None,
        lifetime: None,
        close_reason: None,
        nonce: 0,
    }
}

/// The native form of an event.
pub open spec fn room_event_of(event: EngineRoomEventView) -> RoomEventView {
    match event {
        EngineRoomEventView::VerificationRequested => plain_room_event(
            FfiRoomControlEventKind::VerificationRequested,
        ),
        EngineRoomEventView::VerificationSucceeded => plain_room_event(
            FfiRoomControlEventKind::VerificationSucceeded,
        ),
        EngineRoomEventView::VerificationFailed => plain_room_event(
            FfiRoomControlEventKind::VerificationFailed,
        ),
        EngineRoomEventView::IncomingOffer { offer } => RoomEventView {
            offer: Some(ffi_offer_of(offer)),
            ..plain_room_event(FfiRoomControlEventKind::IncomingOffer)
        },
        EngineRoomEventView::OfferAccepted { offer_id } => RoomEventView {
            offer_id,
            ..plain_room_event(FfiRoomControlEventKind::OfferAccepted)
        },
        EngineRoomEventView::OfferRejected { offer_id, reason } => RoomEventView {
            offer_id,
            rejection: Some(ffi_rejection_of(reason)),
            ..plain_room_event(FfiRoomControlEventKind::OfferRejected)
        },
        EngineRoomEventView::LifetimeChanged { lifetime } => RoomEventView {
            lifetime: Some(ffi_lifetime_of(lifetime)),
            ..plain_room_event(FfiRoomControlEventKind::LifetimeChanged)
        },
        EngineRoomEventView::PeerClosed { reason } => RoomEventView {
            close_reason: Some(ffi_close_reason_of(reason)),
            ..plain_room_event(FfiRoomControlEventKind::PeerClosed)
        },
        EngineRoomEventView::Pong { nonce } => RoomEventView {
            nonce,
            ..plain_room_event(FfiRoomControlEventKind::Pong)
        },
    }
}

fn plain_event(kind: FfiRoomControlEventKind) -> (r: FfiRoomControlEvent)
    ensures
        r@ == plain_room_event(kind),
{
    FfiRoomControlEvent {
        kind,
        offer: None,
        offer_id: String::new(),
        rejection: None,
        lifetime: None,
        close_reason: None,
        nonce: 0,
    }
}

/// Projects an event: its kind, and only the fields that belong to it.
pub fn project_event(event: &RoomControlEvent) -> (r: FfiRoomControlEvent)
    ensures
        r@ == room_event_of(event@),
{
    match event {
        RoomControlEvent::VerificationRequested => plain_event(
            FfiRoomControlEventKind::VerificationRequested,
        ),
        RoomControlEvent::VerificationSucceeded => plain_event(
            FfiRoomControlEventKind::VerificationSucceeded,
        ),
        RoomControlEvent::VerificationFailed => plain_event(
            FfiRoomControlEventKind::VerificationFailed,
        ),
        RoomControlEvent::IncomingOffer { offer } => {
            let mut projected = plain_event(FfiRoomControlEventKind::IncomingOffer);
            projected.offer = Some(ffi_offer(offer));
            projected
        },
        RoomControlEvent::OfferAccepted { offer_id } => {
            let mut projected = plain_event(FfiRoomControlEventKind::OfferAccepted);
            projected.offer_id = offer_id.clone();
            projected
        },
        RoomControlEvent::OfferRejected { offer_id, reason } => {
            let mut projected = plain_event(FfiRoomControlEventKind::OfferRejected);
            projected.offer_id = offer_id.clone();
            projected.rejection = Some(ffi_rejection(*reason));
            projected
        },
        RoomControlEvent::LifetimeChanged { lifetime } => {
            let mut projected = plain_event(FfiRoomControlEventKind::LifetimeChanged);
            projected.lifetime = Some(ffi_lifetime(*lifetime));
            projected
        },
        RoomControlEvent::PeerClosed { reason } => {
            let mut projected = plain_event(FfiRoomControlEventKind::PeerClosed);
            projected.close_reason = Some(ffi_close_reason(*reason));
            projected
        },
        RoomControlEvent::Pong { nonce } => {
            let mut projected = plain_event(FfiRoomControlEventKind::Pong);
            projected.nonce = *nonce;
            projected
        },
    }
}

/// A room operation that can be canceled.
pub struct FfiRoomControlCancellation {
    cancelled: bool,
}

impl View for FfiRoomControlCancellation {
    type V = bool;

    closed spec fn view(&self) -> bool {
        self.cancelled
    }
}

impl FfiRoomControlCancellation {
    /// Not canceled yet.
    pub fn new() -> (r: Self)
        ensures
            !r@,
    {
        FfiRoomControlCancellation { cancelled: false }
    }

    /// Cancels; there is no way back.
    pub fn cancel(&mut self)
        ensures
            final(self)@,
    {
        self.cancelled = true;
    }

    /// Whether the operation was canceled.
    pub fn is_cancelled(&self) -> (r: bool)
        ensures
            r == self@,
    {
        self.cancelled
    }
}

/// What the engine holds of an authenticated session.
#[derive(PartialEq, Eq)]
pub struct RoomSessionState {
    pub peer_name: String,
    pub creator: bool,
    pub remembered_generation: Option<u64>,
    pub lifetime: RoomLifetimeState,
}

/// What a [`RoomSessionState`] holds.
#[verifier::ext_equal]
pub struct RoomStateView {
    pub peer_name: Seq<char>,
    pub creator: bool,
    pub remembered_generation: Option<u64>,
    pub lifetime: RoomLifetimeState,
}

impl View for RoomSessionState {
    type V = RoomStateView;

    open spec fn view(&self) -> RoomStateView {
        RoomStateView {
            peer_name: self.peer_name@,
            creator: self.creator,
            remembered_generation: self.remembered_generation,
            lifetime: self.lifetime,
        }
    }
}

impl Clone for RoomSessionState {
    fn clone(&self) -> (r: Self)
        ensures
            r == *self,
    {
        RoomSessionState {
            peer_name: self.peer_name.clone(),
            creator: self.creator,
            remembered_generation: self.remembered_generation,
            lifetime: self.lifetime,
        }
    }
}

/// The native form of a session.
pub open spec fn room_snapshot_of(state: RoomStateView) -> RoomSnapshotView {
    RoomSnapshotView {
        peer_name: state.peer_name,
        creator: state.creator,
        remembered_generation: state.remembered_generation,
        lifetime: ffi_lifetime_of(state.lifetime),
    }
}

/// An authenticated session in a room.
pub struct FfiRoomControlSession {
    state: RoomSessionState,
}

impl View for FfiRoomControlSession {
    type V = RoomStateView;

    closed spec fn view(&self) -> RoomStateView {
        self.state@
    }
}

/// The native form of a lifetime that an operation may have changed.
pub open spec fn optional_lifetime_of(state: Option<RoomLifetimeState>) -> Option<FfiRoomLifetimeState> {
    match state {
        Some(state) => Some(ffi_lifetime_of(state)),
        None => None,
    }
}

/// Whether a result reports what came of an operation.
pub open spec fn reports_lifetime(
    result: Result<Option<FfiRoomLifetimeState>, FfiRoomControlError>,
    outcome: Result<Option<RoomLifetimeState>, CoreError>,
) -> bool {
    match (result, outcome) {
        (Ok(shown), Ok(state)) => shown == optional_lifetime_of(state),
        (Err(error), Err(cause)) => error@ == room_error_of(cause),
        _ => false,
    }
}

/// Whether a result reports what came of an operation without an answer.
pub open spec fn reports_done(
    result: Result<(), FfiRoomControlError>,
    outcome: Result<(), CoreError>,
) -> bool {
    match (result, outcome) {
        (Ok(_), Ok(_)) => true,
        (Err(error), Err(cause)) => error@ == room_error_of(cause),
        _ => false,
    }
}

impl FfiRoomControlSession {
    /// A session that was authenticated.
    pub fn new(state: RoomSessionState) -> (r: Self)
        ensures
            r@ == state@,
    {
        FfiRoomControlSession { state }
    }

    /// The session as clients see it.
    pub fn snapshot(&self) -> (r: FfiRoomControlSnapshot)
        ensures
            r@ == room_snapshot_of(self@),
    {
        FfiRoomControlSnapshot {
            peer_name: self.state.peer_name.clone(),
            creator: self.state.creator,
            remembered_generation: self.state.remembered_generation,
            lifetime: ffi_lifetime(self.state.lifetime),
        }
    }

    /// The lifetime of the room.
    pub fn lifetime_snapshot(&self) -> (r: FfiRoomLifetimeState)
        ensures
            r == ffi_lifetime_of(self@.lifetime),
    {
        ffi_lifetime(self.state.lifetime)
    }

    /// Takes over a changed lifetime.
    pub fn set_lifetime(&mut self, lifetime: RoomLifetimeState)
        ensures
            final(self)@ == (RoomStateView { lifetime, ..old(self)@ }),
    {
        self.state.lifetime = lifetime;
    }

    /// Reports the next event.
    pub fn next_event(&self, outcome: &Result<RoomControlEvent, CoreError>) -> (r: Result<
        FfiRoomControlEvent,
        FfiRoomControlError,
    >)
        ensures
            match (r, *outcome) {
                (Ok(shown), Ok(event)) => shown@ == room_event_of(event@),
                (Err(error), Err(cause)) => error@ == room_error_of(cause),
                _ => false,
            },
    {
        match outcome {
            Ok(event) => Ok(project_event(event)),
            Err(error) => Err(room_control_err(error)),
        }
    }

    /// Reports an operation that may have changed the lifetime: an offer that
    /// was made, accepted or rejected, a new policy, or a local transfer that
    /// began or ended.
    fn lifetime_result(&self, outcome: &Result<Option<RoomLifetimeState>, CoreError>) -> (r:
        Result<Option<FfiRoomLifetimeState>, FfiRoomControlError>)
        ensures
            reports_lifetime(r, *outcome),
    {
        match outcome {
            Ok(Some(state)) => Ok(Some(ffi_lifetime(*state))),
            Ok(None) => Ok(None),
            Err(error) => Err(room_control_err(error)),
        }
    }

    /// Reports an operation without an answer: a verification step, a ping or
    /// a close.
    fn done_result(&self, outcome: &Result<(), CoreError>) -> (r: Result<
        (),
        FfiRoomControlError,
    >)
        ensures
            reports_done(r, *outcome),
    {
        match outcome {
            Ok(_) => Ok(()),
            Err(error) => Err(room_control_err(error)),
        }
    }

    /// Reports an offer that was made.
    pub fn offer_transfer(&self, outcome: &Result<Option<RoomLifetimeState>, CoreError>) -> (r:
        Result<Option<FfiRoomLifetimeState>, FfiRoomControlError>)
        ensures
            reports_lifetime(r, *outcome),
    {
        self.lifetime_result(outcome)
    }

    /// Reports an offer that was accepted.
    pub fn accept_offer(&self, outcome: &Result<Option<RoomLifetimeState>, CoreError>) -> (r: Result<
        Option<FfiRoomLifetimeState>,
        FfiRoomControlError,
    >)
        ensures
            reports_lifetime(r, *outcome),
    {
        self.lifetime_result(outcome)
    }

    /// Reports an offer that was rejected.
    pub fn reject_offer(&self, outcome: &Result<Option<RoomLifetimeState>, CoreError>) -> (r: Result<
        Option<FfiRoomLifetimeState>,
        FfiRoomControlError,
    >)
        ensures
            reports_lifetime(r, *outcome),
    {
        self.lifetime_result(outcome)
    }

    /// Reports a changed policy.
    pub fn set_policy(&self, outcome: &Result<Option<RoomLifetimeState>, CoreError>) -> (r: Result<
        Option<FfiRoomLifetimeState>,
        FfiRoomControlError,
    >)
        ensures
            reports_lifetime(r, *outcome),
    {
        self.lifetime_result(outcome)
    }

    /// Reports that a local transfer began or ended.
    pub fn set_local_transfer_active(&self, outcome: &Result<Option<RoomLifetimeState>, CoreError>) -> (r:
        Result<Option<FfiRoomLifetimeState>, FfiRoomControlError>)
        ensures
            reports_lifetime(r, *outcome),
    {
        self.lifetime_result(outcome)
    }

    /// Reports a requested verification.
    pub fn request_verification(&self, outcome: &Result<(), CoreError>) -> (r: Result<(), FfiRoomControlError>)
        ensures
            reports_done(r, *outcome),
    {
        self.done_result(outcome)
    }

    /// Reports a submitted verification code.
    pub fn submit_verification_code(&self, outcome: &Result<(), CoreError>) -> (r: Result<(), FfiRoomControlError>)
        ensures
            reports_done(r, *outcome),
    {
        self.done_result(outcome)
    }

    /// Reports a ping.
    pub fn ping(&self, outcome: &Result<(), CoreError>) -> (r: Result<(), FfiRoomControlError>)
        ensures
            reports_done(r, *outcome),
    {
        self.done_result(outcome)
    }

    /// Reports a closed room.
    pub fn close(&self, outcome: &Result<(), CoreError>) -> (r: Result<(), FfiRoomControlError>)
        ensures
            reports_done(r, *outcome),
    {
        self.done_result(outcome)
    }

    /// Whether a pairing credential was stored: there has to be one, and the
    /// vault has to take it. `stored` is the vault's answer for a credential
    /// at generation zero.
    pub fn store_pairing_credential(&self, stored: Option<bool>) -> (r: bool)
        ensures
            r == (stored == Some(true)),
    {
        match stored {
            Some(stored) => stored,
            None => false,
        }
    }
}

/// Policies, rejections, close reasons and offers survive the trip through the
/// engine.
pub proof fn room_choices_round_trip(
    policy: FfiRoomLifetimePolicy,
    rejection: FfiRoomOfferRejection,
    reason: FfiRoomCloseReason,
    offer: RoomOfferView,
)
    ensures
        ffi_policy_of(core_policy_of(policy)) == policy,
        ffi_rejection_of(core_rejection_of(rejection)) == rejection,
        ffi_close_reason_of(core_close_reason_of(reason)) == reason,
        ffi_offer_of(core_offer_of(offer)) == offer,
{
}

/// An event tells an offer, an answer, a lifetime, a close reason or a nonce
/// only where its kind has one.
pub proof fn events_tell_what_their_kind_has(event: EngineRoomEventView)
    ensures
        ({
            let shown = room_event_of(event);
            &&& shown.offer is Some <==> shown.kind == FfiRoomControlEventKind::IncomingOffer
            &&& shown.rejection is Some <==> shown.kind == FfiRoomControlEventKind::OfferRejected
            &&& shown.lifetime is Some <==> shown.kind == FfiRoomControlEventKind::LifetimeChanged
            &&& shown.close_reason is Some <==> shown.kind == FfiRoomControlEventKind::PeerClosed
            &&& shown.nonce != 0 ==> shown.kind == FfiRoomControlEventKind::Pong
        }),
{
}

/// A broker that asks for a delay tells its cause too.
pub proof fn delays_come_with_a_cause(error: SessionErrorView)
    ensures
        connect_metadata_of(error).1 is Some ==> connect_metadata_of(error).0 is Some,
{
}

/// Policies, rejections, close reasons and roles of a room keep their names on the
/// way to clients and back.
pub proof fn room_choices_keep_their_names(
    client_policy: FfiRoomLifetimePolicy,
    policy: RoomLifetimePolicy,
    client_rejection: FfiRoomOfferRejection,
    rejection: RoomOfferRejection,
    client_reason: FfiRoomCloseReason,
    reason: RoomCloseReason,
    mode: FfiRememberedRoomConnectMode,
)
    ensures
        core_policy_of(client_policy) is Idle15Minutes <==> client_policy is Idle15Minutes,
        core_policy_of(client_policy) is UntilForegroundEnds <==> client_policy is UntilForegroundEnds,
        ffi_policy_of(policy) is Idle15Minutes <==> policy is Idle15Minutes,
        ffi_policy_of(policy) is UntilForegroundEnds <==> policy is UntilForegroundEnds,
        core_rejection_of(client_rejection) is Declined <==> client_rejection is Declined,
        core_rejection_of(client_rejection) is Busy <==> client_rejection is Busy,
        core_rejection_of(client_rejection) is Expired <==> client_rejection is Expired,
        core_rejection_of(client_rejection) is Invalid <==> client_rejection is Invalid,
        ffi_rejection_of(rejection) is Declined <==> rejection is Declined,
        ffi_rejection_of(rejection) is Busy <==> rejection is Busy,
        ffi_rejection_of(rejection) is Expired <==> rejection is Expired,
        ffi_rejection_of(rejection) is Invalid <==> rejection is Invalid,
        core_close_reason_of(client_reason) is UserEnded <==> client_reason is UserEnded,
        core_close_reason_of(client_reason) is IdleExpired <==> client_reason is IdleExpired,
        core_close_reason_of(client_reason) is InvitationExpired <==> client_reason is InvitationExpired,
        core_close_reason_of(client_reason) is PeerEnded <==> client_reason is PeerEnded,
        core_close_reason_of(client_reason) is Backgrounded <==> client_reason is Backgrounded,
        core_close_reason_of(client_reason) is NetworkLost <==> client_reason is NetworkLost,
        core_close_reason_of(client_reason) is ProtocolFailure <==> client_reason is ProtocolFailure,
        ffi_close_reason_of(reason) is UserEnded <==> reason is UserEnded,
        ffi_close_reason_of(reason) is IdleExpired <==> reason is IdleExpired,
        ffi_close_reason_of(reason) is InvitationExpired <==> reason is InvitationExpired,
        ffi_close_reason_of(reason) is PeerEnded <==> reason is PeerEnded,
        ffi_close_reason_of(reason) is Backgrounded <==> reason is Backgrounded,
        ffi_close_reason_of(reason) is NetworkLost <==> reason is NetworkLost,
        ffi_close_reason_of(reason) is ProtocolFailure <==> reason is ProtocolFailure,
        remembered_role_of(mode) is Connector <==> mode is Connector,
        remembered_role_of(mode) is Responder <==> mode is Responder,
{
}

/// A lifetime is shown with its own revision and deadline.
pub proof fn lifetimes_are_shown_as_they_are(state: RoomLifetimeState)
    ensures
        ffi_lifetime_of(state).revision == state.revision,
        ffi_lifetime_of(state).idle_deadline_epoch_ms == state.idle_deadline_unix_ms,
        ffi_lifetime_of(state).policy == ffi_policy_of(state.policy),
        optional_lifetime_of(Some(state)) == Some(ffi_lifetime_of(state)),
        optional_lifetime_of(None) is None,
{
}

/// An invite is shown with its own code, payload and servers. Its end is told in
/// milliseconds, as far as they can be.
pub proof fn room_invites_are_shown_as_they_are(invite: EngineInviteView)
    ensures
        room_invite_of(invite).code == invite.code,
        room_invite_of(invite).payload == invite.payload,
        room_invite_of(invite).broker == invite.broker,
        invite.relay matches Some(relay) ==> room_invite_of(invite).relay == relay,
        invite.relay is None ==> room_invite_of(invite).relay.len() == 0,
        invite.expires_at_unix_secs * 1000 <= u64::MAX ==> room_invite_of(
            invite,
        ).expires_at_epoch_ms == invite.expires_at_unix_secs * 1000,
        invite.expires_at_unix_secs * 1000 > u64::MAX ==> room_invite_of(
            invite,
        ).expires_at_epoch_ms == u64::MAX,
{
}

/// A room uses the servers that it names, and for each that it does not the hosted
/// one.
pub proof fn rooms_use_the_named_servers(broker: Seq<char>, relay: Seq<char>, hosted: EndpointsView)
    ensures
        !is_blank(broker) ==> room_endpoints_of(broker, relay, hosted).rendezvous_broker
            == trimmed(broker),
        is_blank(broker) ==> room_endpoints_of(broker, relay, hosted).rendezvous_broker
            == hosted.rendezvous_broker,
        !is_blank(relay) ==> room_endpoints_of(broker, relay, hosted).relay_url == trimmed(relay),
        is_blank(relay) ==> room_endpoints_of(broker, relay, hosted).relay_url
            == hosted.relay_url,
{
}

/// A failed connection tells its reason and whether the peer was authenticated; a
/// code and a delay come from the broker alone.
pub proof fn connect_failures_tell_what_is_known(
    reason: Seq<char>,
    authenticated: bool,
    error: SessionErrorView,
)
    ensures
        connect_failure(reason, authenticated) == (ConnectErrorView::Failed {
            reason,
            peer_authenticated: authenticated,
            failure_code: None,
            retry_after_seconds: None,
        }),
        error.cause matches SessionCauseView::Rendezvous { cause, retry_after }
            ==> connect_metadata_of(error) == (Some(rendezvous_cause_of(cause).code), retry_after),
        !(error.cause is Rendezvous) ==> connect_metadata_of(error) == (
            None::<FfiFailureCode>,
            None::<u64>,
        ),
{
}

/// An error of a room is told by its kind, with its own reason: refused input is
/// rejected, a lost connection is the network's, and a cancellation is one. A used
/// up invitation does not hide what went wrong.
pub proof fn room_errors_are_told_by_their_kind(error: CoreError, source: Box<CoreError>)
    ensures
        error matches CoreError::InvalidInput { reason } ==> room_error_of(error) == (
        RoomErrorView::Rejected { reason: reason@ }),
        error matches CoreError::Io { reason } ==> room_error_of(error) == (
        RoomErrorView::NetworkLost { reason: reason@ }),
        error matches CoreError::Transport { reason } ==> room_error_of(error) == (
        RoomErrorView::NetworkLost { reason: reason@ }),
        error is Cancelled ==> room_error_of(error) == (RoomErrorView::Canceled {
            reason: "room-control operation canceled"@,
        }),
        error matches CoreError::Protocol { reason } ==> room_error_of(error) == (
        RoomErrorView::Failed { reason: "protocol error: "@ + reason@ }),
        error matches CoreError::Other { rendered } ==> room_error_of(error) == (
        RoomErrorView::Failed { reason: rendered@ }),
        room_error_of(CoreError::InvitationConsumed { source }) == room_error_of(*source),
{
    reveal_with_fuel(room_error_of, 2);
}

/// An offer keeps every part of it on the way to clients and back.
pub proof fn offers_keep_their_parts(offer: EngineOfferView, client: RoomOfferView)
    ensures
        ffi_offer_of(offer).offer_id == offer.offer_id,
        ffi_offer_of(offer).transfer_invite == offer.transfer_invite,
        ffi_offer_of(offer).root_names == offer.root_names,
        ffi_offer_of(offer).item_count == offer.item_count,
        ffi_offer_of(offer).directory_count == offer.directory_count,
        ffi_offer_of(offer).total_bytes == offer.total_bytes,
        core_offer_of(client).offer_id == client.offer_id,
        core_offer_of(client).transfer_invite == client.transfer_invite,
        core_offer_of(client).root_names == client.root_names,
        core_offer_of(client).item_count == client.item_count,
        core_offer_of(client).directory_count == client.directory_count,
        core_offer_of(client).total_bytes == client.total_bytes,
{
}

/// Every event of a room is told under its own kind, with what it brings.
pub proof fn room_events_keep_their_data(event: EngineRoomEventView)
    ensures
        ({
            let shown = room_event_of(event);
            &&& shown.kind is VerificationRequested <==> event is VerificationRequested
            &&& shown.kind is VerificationSucceeded <==> event is VerificationSucceeded
            &&& shown.kind is VerificationFailed <==> event is VerificationFailed
            &&& shown.kind is IncomingOffer <==> event is IncomingOffer
            &&& shown.kind is OfferAccepted <==> event is OfferAccepted
            &&& shown.kind is OfferRejected <==> event is OfferRejected
            &&& shown.kind is LifetimeChanged <==> event is LifetimeChanged
            &&& shown.kind is PeerClosed <==> event is PeerClosed
            &&& shown.kind is Pong <==> event is Pong
            &&& event matches EngineRoomEventView::IncomingOffer { offer } ==> shown.offer == Some(
                ffi_offer_of(offer),
            )
            &&& event matches EngineRoomEventView::OfferAccepted { offer_id } ==> shown.offer_id
                == offer_id
            &&& event matches EngineRoomEventView::OfferRejected { offer_id, reason }
                ==> shown.offer_id == offer_id && shown.rejection == Some(ffi_rejection_of(reason))
            &&& event matches EngineRoomEventView::LifetimeChanged { lifetime } ==> shown.lifetime
                == Some(ffi_lifetime_of(lifetime))
            &&& event matches EngineRoomEventView::PeerClosed { reason } ==> shown.close_reason
                == Some(ffi_close_reason_of(reason))
            &&& event matches EngineRoomEventView::Pong { nonce } ==> shown.nonce == nonce
        }),
{
}

/// A room is shown with its own peer, side, generation and lifetime.
pub proof fn rooms_are_shown_as_they_are(state: RoomStateView)
    ensures
        room_snapshot_of(state).peer_name == state.peer_name,
        room_snapshot_of(state).creator == state.creator,
        room_snapshot_of(state).remembered_generation == state.remembered_generation,
        room_snapshot_of(state).lifetime.revision == state.lifetime.revision,
        room_snapshot_of(state).lifetime.idle_deadline_epoch_ms
            == state.lifetime.idle_deadline_unix_ms,
{
}

/// What the engine answered is what clients get: a lifetime or nothing, or the error
/// by its kind.
pub proof fn room_answers_are_passed_on(
    shown: Option<FfiRoomLifetimeState>,
    state: Option<RoomLifetimeState>,
    error: FfiRoomControlError,
    cause: CoreError,
)
    ensures
        reports_lifetime(Ok(shown), Ok(state)) <==> shown == optional_lifetime_of(state),
        reports_lifetime(Err(error), Err(cause)) <==> error@ == room_error_of(cause),
        !reports_lifetime(Ok(shown), Err(cause)),
        !reports_lifetime(Err(error), Ok(state)),
        reports_done(Ok(()), Ok(())),
        reports_done(Err(error), Err(cause)) <==> error@ == room_error_of(cause),
        !reports_done(Ok(()), Err(cause)),
        !reports_done(Err(error), Ok(())),
{
}

} // verus!
