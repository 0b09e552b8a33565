//! Invitations that nearby devices send each other.
use vstd::prelude::*;
use vstd::string::*;

use crate::api::invitations::{given, non_empty, op_err};
use crate::api::room_control::{millis_of, saturating_millis};
use crate::api::types::{EnvoixError, ErrorView};
use crate::text::{text_option, text_seq};

verus! {

broadcast use vstd::seq_lib::group_seq_properties;

/// A received invitation.
#[derive(Debug, PartialEq, Eq)]
pub struct FfiNearbyInvite {
    pub request_id: u64,
    pub sender_endpoint_id: String,
    pub sender_peer_key: String,
    pub sender_display_name: String,
    pub invite: String,
    pub expires_at_epoch_ms: u64,
}

/// What a [`FfiNearbyInvite`] holds.
#[verifier::ext_equal]
pub struct NearbyInviteView {
    pub request_id: u64,
    pub sender_endpoint_id: Seq<char>,
    pub sender_peer_key: Seq<char>,
    pub sender_display_name: Seq<char>,
    pub invite: Seq<char>,
    pub expires_at_epoch_ms: u64,
}

impl View for FfiNearbyInvite {
    type V = NearbyInviteView;

    open spec fn view(&self) -> NearbyInviteView {
        NearbyInviteView {
            request_id: self.request_id,
            sender_endpoint_id: self.sender_endpoint_id@,
            sender_peer_key: self.sender_peer_key@,
            sender_display_name: self.sender_display_name@,
            invite: self.invite@,
            expires_at_epoch_ms: self.expires_at_epoch_ms,
        }
    }
}

impl Clone for FfiNearbyInvite {
    fn clone(&self) -> (r: Self)
        ensures
            r == *self,
    {
        FfiNearbyInvite {
            request_id: self.request_id,
            sender_endpoint_id: self.sender_endpoint_id.clone(),
            sender_peer_key: self.sender_peer_key.clone(),
            sender_display_name: self.sender_display_name.clone(),
            invite: self.invite.clone(),
            expires_at_epoch_ms: self.expires_at_epoch_ms,
        }
    }
}

/// Where an inbox is reached.
#[derive(Debug, PartialEq, Eq)]
pub struct FfiNearbyInviteEndpoint {
    pub endpoint_id: String,
    pub relay_url: Option<String>,
    pub direct_addresses: Vec<String>,
}

/// What a [`FfiNearbyInviteEndpoint`] holds.
#[verifier::ext_equal]
pub struct NearbyEndpointView {
    pub endpoint_id: Seq<char>,
    pub relay_url: Option<Seq<char>>,
    pub direct_addresses: Seq<Seq<char>>,
}

impl View for FfiNearbyInviteEndpoint {
    type V = NearbyEndpointView;

    open spec fn view(&self) -> NearbyEndpointView {
        NearbyEndpointView {
            endpoint_id: self.endpoint_id@,
            relay_url: text_option(self.relay_url),
            direct_addresses: text_seq(self.direct_addresses@),
        }
    }
}

impl Clone for FfiNearbyInviteEndpoint {
    fn clone(&self) -> (r: Self)
        ensures
            r@ == self@,
    {
        let r = FfiNearbyInviteEndpoint {
            endpoint_id: self.endpoint_id.clone(),
            relay_url: self.relay_url.clone(),
            direct_addresses: self.direct_addresses.clone(),
        };
        assert(text_seq(r.direct_addresses@) =~= text_seq(self.direct_addresses@));
        r
    }
}

/// A received invitation as the engine holds it.
#[derive(Debug, PartialEq, Eq)]
pub struct NearbyInvite {
    pub request_id: u64,
    pub sender_endpoint_id: String,
    pub sender_peer_key: String,
    pub sender_display_name: String,
    pub invite: String,
    pub expires_at_unix_secs: u64,
}

/// What a [`NearbyInvite`] holds.
#[verifier::ext_equal]
pub struct EngineNearbyView {
    pub request_id: u64,
    pub sender_endpoint_id: Seq<char>,
    pub sender_peer_key: Seq<char>,
    pub sender_display_name: Seq<char>,
    pub invite: Seq<char>,
    pub expires_at_unix_secs: u64,
}

impl View for NearbyInvite {
    type V = EngineNearbyView;

    open spec fn view(&self) -> EngineNearbyView {
        EngineNearbyView {
            request_id: self.request_id,
            sender_endpoint_id: self.sender_endpoint_id@,
            sender_peer_key: self.sender_peer_key@,
            sender_display_name: self.sender_display_name@,
            invite: self.invite@,
            expires_at_unix_secs: self.expires_at_unix_secs,
        }
    }
}

impl Clone for NearbyInvite {
    fn clone(&self) -> (r: Self)
        ensures
            r == *self,
    {
        NearbyInvite {
            request_id: self.request_id,
            sender_endpoint_id: self.sender_endpoint_id.clone(),
            sender_peer_key: self.sender_peer_key.clone(),
            sender_display_name: self.sender_display_name.clone(),
            invite: self.invite.clone(),
            expires_at_unix_secs: self.expires_at_unix_secs,
        }
    }
}

/// Where an inbox is reached.
#[derive(Debug, PartialEq, Eq)]
pub struct NearbyInviteEndpoint {
    pub endpoint_id: String,
    pub relay_url: Option<String>,
    pub direct_addresses: Vec<String>,
}

/// What a [`NearbyInviteEndpoint`] holds.
#[verifier::ext_equal]
pub struct EngineEndpointView {
    pub endpoint_id: Seq<char>,
    pub relay_url: Option<Seq<char>>,
    pub direct_addresses: Seq<Seq<char>>,
}

impl View for NearbyInviteEndpoint {
    type V = EngineEndpointView;

    open spec fn view(&self) -> EngineEndpointView {
        EngineEndpointView {
            endpoint_id: self.endpoint_id@,
            relay_url: text_option(self.relay_url),
            direct_addresses: text_seq(self.direct_addresses@),
        }
    }
}

impl Clone for NearbyInviteEndpoint {
    fn clone(&self) -> (r: Self)
        ensures
            r@ == self@,
    {
        let r = NearbyInviteEndpoint {
            endpoint_id: self.endpoint_id.clone(),
            relay_url: self.relay_url.clone(),
            direct_addresses: self.direct_addresses.clone(),
        };
        assert(text_seq(r.direct_addresses@) =~= text_seq(self.direct_addresses@));
        r
    }
}

/// The native form of a received invitation.
pub open spec fn nearby_invite_of(invite: EngineNearbyView) -> NearbyInviteView {
    NearbyInviteView {
        request_id: invite.request_id,
        sender_endpoint_id: invite.sender_endpoint_id,
        sender_peer_key: invite.sender_peer_key,
        sender_display_name: invite.sender_display_name,
        invite: invite.invite,
        expires_at_epoch_ms: millis_of(invite.expires_at_unix_secs),
    }
}

/// Projects a received invitation; its expiry is told in milliseconds.
pub fn project_invite(invite: &NearbyInvite) -> (r: FfiNearbyInvite)
    ensures
        r@ == nearby_invite_of(invite@),
{
    FfiNearbyInvite {
        request_id: invite.request_id,
        sender_endpoint_id: invite.sender_endpoint_id.clone(),
        sender_peer_key: invite.sender_peer_key.clone(),
        sender_display_name: invite.sender_display_name.clone(),
        invite: invite.invite.clone(),
        expires_at_epoch_ms: saturating_millis(invite.expires_at_unix_secs),
    }
}

/// The native form of an endpoint.
pub open spec fn nearby_endpoint_of(endpoint: EngineEndpointView) -> NearbyEndpointView {
    NearbyEndpointView {
        endpoint_id: endpoint.endpoint_id,
        relay_url: endpoint.relay_url,
        direct_addresses: endpoint.direct_addresses,
    }
}

/// Projects an endpoint.
pub fn project_endpoint(endpoint: &NearbyInviteEndpoint) -> (r: FfiNearbyInviteEndpoint)
    ensures
        r@ == nearby_endpoint_of(endpoint@),
{
    let direct_addresses = endpoint.direct_addresses.clone();
    assert(text_seq(direct_addresses@) =~= text_seq(endpoint.direct_addresses@));
    FfiNearbyInviteEndpoint {
        endpoint_id: endpoint.endpoint_id.clone(),
        relay_url: endpoint.relay_url.clone(),
        direct_addresses,
    }
}

/// The engine form of an endpoint.
pub open spec fn core_endpoint_of(endpoint: NearbyEndpointView) -> EngineEndpointView {
    EngineEndpointView {
        endpoint_id: endpoint.endpoint_id,
        relay_url: endpoint.relay_url,
        direct_addresses: endpoint.direct_addresses,
    }
}

/// The engine form of an endpoint.
pub fn core_endpoint(endpoint: &FfiNearbyInviteEndpoint) -> (r: NearbyInviteEndpoint)
    ensures
        r@ == core_endpoint_of(endpoint@),
{
    let direct_addresses = endpoint.direct_addresses.clone();
    assert(text_seq(direct_addresses@) =~= text_seq(endpoint.direct_addresses@));
    NearbyInviteEndpoint {
        endpoint_id: endpoint.endpoint_id.clone(),
        relay_url: endpoint.relay_url.clone(),
        direct_addresses,
    }
}

/// The relay of an inbox: the given one, else the hosted one.
pub fn inbox_relay(relay: &str, hosted_relay: &str) -> (r: String)
    ensures
        r@ == (match given(relay@) {
            Some(relay) => relay,
            None => hosted_relay@,
        }),
{
    match non_empty(relay) {
        Some(relay) => relay,
        None => hosted_relay.to_owned(),
    }
}

/// An inbox for invitations of nearby devices.
pub struct FfiNearbyInviteInbox {
    endpoint: NearbyInviteEndpoint,
}

impl View for FfiNearbyInviteInbox {
    type V = EngineEndpointView;

    closed spec fn view(&self) -> EngineEndpointView {
        self.endpoint@
    }
}

/// An inbox that was started. `started` is what came of it.
pub fn start_nearby_invite_inbox(started: Result<NearbyInviteEndpoint, String>) -> (r: Result<
    FfiNearbyInviteInbox,
    EnvoixError,
>)
    ensures
        match (r, started) {
            (Ok(inbox), Ok(endpoint)) => inbox@ == endpoint@,
            (Err(error), Err(reason)) => error@ == (ErrorView::Operation { reason: reason@ }),
            _ => false,
        },
{
    match started {
        Ok(endpoint) => Ok(FfiNearbyInviteInbox { endpoint }),
        Err(reason) => Err(op_err(reason)),
    }
}

impl FfiNearbyInviteInbox {
    /// Where the inbox is reached.
    pub fn endpoint(&self) -> (r: FfiNearbyInviteEndpoint)
        ensures
            r@ == nearby_endpoint_of(self@),
    {
        project_endpoint(&self.endpoint)
    }

    /// Reports the next invitation.
    pub fn next_invite(&self, outcome: &Result<NearbyInvite, String>) -> (r: Result<
        FfiNearbyInvite,
        EnvoixError,
    >)
        ensures
            match (r, *outcome) {
                (Ok(shown), Ok(invite)) => shown@ == nearby_invite_of(invite@),
                (Err(error), Err(reason)) => error@ == (ErrorView::Operation { reason: reason@ }),
                _ => false,
            },
    {
        match outcome {
            Ok(invite) => Ok(project_invite(invite)),
            Err(reason) => Err(op_err(reason.clone())),
        }
    }

    /// Reports an invitation that was sent.
    pub fn send_invite(&self, outcome: &Result<(), String>) -> (r: Result<(), EnvoixError>)
        ensures
            match (r, *outcome) {
                (Ok(_), Ok(_)) => true,
                (Err(error), Err(reason)) => error@ == (ErrorView::Operation { reason: reason@ }),
                _ => false,
            },
    {
        match outcome {
            Ok(_) => Ok(()),
            Err(reason) => Err(op_err(reason.clone())),
        }
    }
}

/// Endpoints survive the trip through the engine in both directions.
pub proof fn endpoints_round_trip(native: NearbyEndpointView, engine: EngineEndpointView)
    ensures
        nearby_endpoint_of(core_endpoint_of(native)) == native,
        core_endpoint_of(nearby_endpoint_of(engine)) == engine,
{
}

/// An endpoint keeps its id, relay and addresses on the way to clients and back.
pub proof fn nearby_endpoints_keep_their_parts(
    engine: EngineEndpointView,
    client: NearbyEndpointView,
)
    ensures
        nearby_endpoint_of(engine).endpoint_id == engine.endpoint_id,
        nearby_endpoint_of(engine).relay_url == engine.relay_url,
        nearby_endpoint_of(engine).direct_addresses == engine.direct_addresses,
        core_endpoint_of(client).endpoint_id == client.endpoint_id,
        core_endpoint_of(client).relay_url == client.relay_url,
        core_endpoint_of(client).direct_addresses == client.direct_addresses,
{
}

/// An invite from nearby is shown with its sender and itself. Its end is told in
/// milliseconds, as far as they can be.
pub proof fn nearby_invites_are_shown_as_they_are(invite: EngineNearbyView)
    ensures
        nearby_invite_of(invite).request_id == invite.request_id,
        nearby_invite_of(invite).sender_endpoint_id == invite.sender_endpoint_id,
        nearby_invite_of(invite).sender_peer_key == invite.sender_peer_key,
        nearby_invite_of(invite).sender_display_name == invite.sender_display_name,
        nearby_invite_of(invite).invite == invite.invite,
        invite.expires_at_unix_secs * 1000 <= u64::MAX ==> nearby_invite_of(
            invite,
        ).expires_at_epoch_ms == invite.expires_at_unix_secs * 1000,
        invite.expires_at_unix_secs * 1000 > u64::MAX ==> nearby_invite_of(
            invite,
        ).expires_at_epoch_ms == u64::MAX,
{
}

} // verus!
