//! From a request to the routes on which its peer can be reached: limits,
//! validation, options, sources and the engine context.
use vstd::prelude::*;

use crate::bridge::engine::{
    BindAddrs, OptionsView, PeerDescriptor, PeerDescriptorView, PeerSource, PeerSourceView,
    QrInvitePayload, QrInviteView, TransferDirection, TransferOptions,
};
use crate::bridge::models::{
    EnvoixError, EnvoixRuntimeSettings, FfiTransferDirection, FfiTransferLimits, FfiTransferMode,
    FfiTransferRequest, RequestView, SettingsView,
};
use crate::bridge::projection::{path_policy, path_policy_of};
use crate::common::{FfiPathPolicy, FfiRendezvousPlan};
use crate::text::{
    decimal, decimal_text, is_blank, joined, joined3, non_blank, text_option, trimmed,
};

verus! {

broadcast use vstd::seq_lib::group_seq_properties;

/// Lifetime of a generated invite before it expires, in seconds.
pub const INVITE_TTL_SECS: u64 = 300;

/// Default rendezvous broker used for room pairing.
pub const DEFAULT_RENDEZVOUS_BROKER: &'static str =
    "e946a31a2207efcd68b9dbf409c4bf241aa02a0cbc0028af2e1ed11472064eff@67.230.187.238:8445";

/// Default relay used with the hosted rendezvous broker.
pub const DEFAULT_RELAY_URL: &'static str = "https://envoix.chkxwlyh.us:8444";

/// One attempt at reaching the peer.
#[derive(Debug, PartialEq, Eq)]
pub struct TransferAttemptSource {
    pub mode: FfiTransferMode,
    pub source: PeerSource,
    pub path_policy_override: Option<FfiPathPolicy>,
}

/// What a [`TransferAttemptSource`] holds.
#[verifier::ext_equal]
pub struct AttemptView {
    pub mode: FfiTransferMode,
    pub source: PeerSourceView,
    pub path_policy_override: Option<FfiPathPolicy>,
}

impl View for TransferAttemptSource {
    type V = AttemptView;

    open spec fn view(&self) -> AttemptView {
        AttemptView {
            mode: self.mode,
            source: self.source@,
            path_policy_override: self.path_policy_override,
        }
    }
}

impl Clone for TransferAttemptSource {
    fn clone(&self) -> (r: Self)
        ensures
            r@ == self@,
    {
        let r = TransferAttemptSource {
            mode: self.mode,
            source: self.source.clone(),
            path_policy_override: self.path_policy_override,
        };
        r
    }
}

/// What the engine's decoders say of the trimmed peer descriptor and invite of
/// a request.
#[derive(Debug, PartialEq, Eq)]
pub struct SourceLookups {
    /// The decoded peer descriptor, where it decodes.
    pub descriptor: Option<PeerDescriptor>,
    /// Why the peer descriptor does not decode.
    pub descriptor_error: String,
    /// The decoded invite, where it decodes.
    pub invite: Option<QrInvitePayload>,
}

/// What a [`SourceLookups`] holds.
#[verifier::ext_equal]
pub struct LookupsView {
    pub descriptor: Option<PeerDescriptorView>,
    pub descriptor_error: Seq<char>,
    pub invite: Option<QrInviteView>,
}

impl View for SourceLookups {
    type V = LookupsView;

    open spec fn view(&self) -> LookupsView {
        LookupsView {
            descriptor: match self.descriptor { Some(x) => Some(x@), None => None },
            descriptor_error: self.descriptor_error@,
            invite: match self.invite { Some(x) => Some(x@), None => None },
        }
    }
}

impl Clone for SourceLookups {
    fn clone(&self) -> (r: Self)
        ensures
            r@ == self@,
    {
        let r = SourceLookups {
            descriptor: self.descriptor.clone(),
            descriptor_error: self.descriptor_error.clone(),
            invite: self.invite.clone(),
        };
        r
    }
}

/// An operation error with the given reason.
pub fn op_err(reason: String) -> (r: EnvoixError)
    ensures
        r.reason_view() == reason@,
{
    EnvoixError::Operation { reason }
}

pub(crate) fn op_error(reason: &str) -> (r: EnvoixError)
    ensures
        r.reason_view() == reason@,
{
    EnvoixError::Operation { reason: reason.to_owned() }
}

/// The next activity id; the counter wraps around at the end of its range.
pub fn next_activity_id(counter: &mut u64) -> (r: String)
    ensures
        r@ == activity_id_text(*old(counter)),
        *final(counter) == old(counter).wrapping_add(1),
{
    let id: u64 = *counter;
    *counter = id.wrapping_add(1);
    joined("ffi-", decimal_text(id).as_str())
}

/// The activity id with number `n`.
pub open spec fn activity_id_text(n: u64) -> Seq<char> {
    "ffi-"@ + decimal(n as nat)
}

/// The attempt id with number `n`.
pub open spec fn attempt_id_text(n: u64) -> Seq<char> {
    "attempt-"@ + decimal(n as nat)
}

/// The next attempt id; the counter wraps around at the end of its range.
pub fn next_attempt_id(counter: &mut u64) -> (r: String)
    ensures
        r@ == attempt_id_text(*old(counter)),
        *final(counter) == old(counter).wrapping_add(1),
{
    let id: u64 = *counter;
    *counter = id.wrapping_add(1);
    joined("attempt-", decimal_text(id).as_str())
}

/// Ids with different numbers differ.
pub proof fn ids_are_distinct(a: u64, b: u64)
    requires
        a != b,
    ensures
        activity_id_text(a) != activity_id_text(b),
        attempt_id_text(a) != attempt_id_text(b),
{
    if activity_id_text(a) == activity_id_text(b) {
        assert(activity_id_text(a).skip("ffi-"@.len() as int) =~= decimal(a as nat));
        assert(activity_id_text(b).skip("ffi-"@.len() as int) =~= decimal(b as nat));
        crate::text::decimal_is_injective(a as nat, b as nat);
    }
    if attempt_id_text(a) == attempt_id_text(b) {
        assert(attempt_id_text(a).skip("attempt-"@.len() as int) =~= decimal(a as nat));
        assert(attempt_id_text(b).skip("attempt-"@.len() as int) =~= decimal(b as nat));
        crate::text::decimal_is_injective(a as nat, b as nat);
    }
}

impl FfiRendezvousPlan {
    /// The plan that fits a mode: rooms may use every route, mDNS only the
    /// local network, anything else neither.
    pub open spec fn plan_for(mode: FfiTransferMode) -> FfiRendezvousPlan {
        FfiRendezvousPlan {
            use_room: mode == FfiTransferMode::Room,
            use_mdns: mode == FfiTransferMode::Room || mode == FfiTransferMode::Mdns,
            internet_available: true,
        }
    }

    /// The plan that fits a mode.
    pub fn for_mode(mode: FfiTransferMode) -> (r: Self)
        ensures
            r == FfiRendezvousPlan::plan_for(mode),
    {
        match mode {
            FfiTransferMode::Room => FfiRendezvousPlan::default(),
            FfiTransferMode::Mdns => FfiRendezvousPlan {
                use_room: false,
                use_mdns: true,
                internet_available: true,
            },
            _ => FfiRendezvousPlan {
                use_room: false,
                use_mdns: false,
                internet_available: true,
            },
        }
    }
}

/// A request that names nothing but its mode and direction.
pub open spec fn plain_request(
    activity_id: Seq<char>,
    direction: FfiTransferDirection,
    mode: FfiTransferMode,
) -> RequestView {
    RequestView {
        activity_id,
        direction,
        mode,
        file_path: Seq::empty(),
        output_dir: Seq::empty(),
        peer_descriptor: Seq::empty(),
        invite: Seq::empty(),
        code: Seq::empty(),
        token: Seq::empty(),
        broker: Seq::empty(),
        relay: Seq::empty(),
        config_path: Seq::empty(),
        path_policy: FfiPathPolicy::Auto,
        resume: true,
        publication_required: false,
        limits: FfiTransferLimits {
            max_parallel_transfers: 1,
            max_parallel_files: 1,
            max_parallel_chunks_per_file: 1,
            speed_limit_bps: 0,
        },
        rendezvous: FfiRendezvousPlan::plan_for(mode),
    }
}

impl FfiTransferRequest {
    /// A request to send one file.
    pub fn send(activity_id: String, file_path: String, mode: FfiTransferMode) -> (r: Self)
        ensures
            r@ == (RequestView {
                file_path: file_path@,
                ..plain_request(activity_id@, FfiTransferDirection::Send, mode)
            }),
    {
        FfiTransferRequest {
            activity_id,
            direction: FfiTransferDirection::Send,
            mode,
            file_path,
            output_dir: String::new(),
            peer_descriptor: String::new(),
            invite: String::new(),
            code: String::new(),
            token: String::new(),
            broker: String::new(),
            relay: String::new(),
            config_path: String::new(),
            path_policy: FfiPathPolicy::Auto,
            resume: true,
            publication_required: false,
            limits: FfiTransferLimits::default(),
            rendezvous: FfiRendezvousPlan::for_mode(mode),
        }
    }

    /// A request to receive into a directory.
    pub fn receive(activity_id: String, output_dir: String, mode: FfiTransferMode) -> (r: Self)
        ensures
            r@ == (RequestView {
                output_dir: output_dir@,
                ..plain_request(activity_id@, FfiTransferDirection::Receive, mode)
            }),
    {
        FfiTransferRequest {
            activity_id,
            direction: FfiTransferDirection::Receive,
            mode,
            file_path: String::new(),
            output_dir,
            peer_descriptor: String::new(),
            invite: String::new(),
            code: String::new(),
            token: String::new(),
            broker: String::new(),
            relay: String::new(),
            config_path: String::new(),
            path_policy: FfiPathPolicy::Auto,
            resume: true,
            publication_required: false,
            limits: FfiTransferLimits::default(),
            rendezvous: FfiRendezvousPlan::for_mode(mode),
        }
    }
}

/// How many transfers may run at once: one where the settings forbid more,
/// else what the request asks for, but never none.
pub open spec fn parallel_limit(concurrent: bool, limits: FfiTransferLimits) -> u32 {
    if !concurrent || limits.max_parallel_transfers == 0 {
        1
    } else {
        limits.max_parallel_transfers
    }
}

/// How many transfers may run at once.
pub fn effective_parallel_limit(settings: &EnvoixRuntimeSettings, limits: &FfiTransferLimits) -> (r: usize)
    ensures
        r == parallel_limit(settings.concurrent_transfers, *limits),
        r >= 1,
{
    if !settings.concurrent_transfers || limits.max_parallel_transfers == 0 {
        1
    } else {
        limits.max_parallel_transfers as usize
    }
}

/// Replaces the requested parallelism by the effective one.
pub fn normalize_transfer_limits(settings: &EnvoixRuntimeSettings, limits: &mut FfiTransferLimits)
    ensures
        *final(limits) == (FfiTransferLimits {
            max_parallel_transfers: parallel_limit(settings.concurrent_transfers, *old(limits)),
            ..*old(limits)
        }),
{
    limits.max_parallel_transfers = effective_parallel_limit(settings, limits) as u32;
}

/// Normalizing limits twice changes nothing more.
pub proof fn normalizing_limits_is_idempotent(concurrent: bool, limits: FfiTransferLimits)
    ensures
        parallel_limit(
            concurrent,
            FfiTransferLimits {
                max_parallel_transfers: parallel_limit(concurrent, limits),
                ..limits
            },
        ) == parallel_limit(concurrent, limits),
{
}

/// The label of a [`FfiTransferMode`].
pub open spec fn mode_name_of(value: FfiTransferMode) -> Seq<char> {
    match value {
        FfiTransferMode::Manual => "Manual"@,
        FfiTransferMode::Invite => "Invite"@,
        FfiTransferMode::ShowManual => "ShowManual"@,
        FfiTransferMode::ShowInvite => "ShowInvite"@,
        FfiTransferMode::Mdns => "Mdns"@,
        FfiTransferMode::Room => "Room"@,
        FfiTransferMode::Unknown => "Unknown"@,
    }
}

/// The variant name of a mode.
pub fn mode_name(value: FfiTransferMode) -> (r: &'static str)
    ensures
        r@ == mode_name_of(value),
{
    match value {
        FfiTransferMode::Manual => "Manual",
        FfiTransferMode::Invite => "Invite",
        FfiTransferMode::ShowManual => "ShowManual",
        FfiTransferMode::ShowInvite => "ShowInvite",
        FfiTransferMode::Mdns => "Mdns",
        FfiTransferMode::Room => "Room",
        FfiTransferMode::Unknown => "Unknown",
    }
}

/// The label of a [`FfiTransferDirection`].
pub open spec fn direction_name_of(value: FfiTransferDirection) -> Seq<char> {
    match value {
        FfiTransferDirection::Send => "Send"@,
        FfiTransferDirection::Receive => "Receive"@,
        FfiTransferDirection::Unknown => "Unknown"@,
    }
}

/// The variant name of a direction.
pub fn direction_name(value: FfiTransferDirection) -> (r: &'static str)
    ensures
        r@ == direction_name_of(value),
{
    match value {
        FfiTransferDirection::Send => "Send",
        FfiTransferDirection::Receive => "Receive",
        FfiTransferDirection::Unknown => "Unknown",
    }
}

/// Whether a transfer in `direction` can be set up through `mode`.
pub open spec fn mode_fits(direction: FfiTransferDirection, mode: FfiTransferMode) -> bool {
    match direction {
        FfiTransferDirection::Send => mode == FfiTransferMode::Manual || mode
            == FfiTransferMode::Invite || mode == FfiTransferMode::Mdns || mode
            == FfiTransferMode::Room,
        FfiTransferDirection::Receive => mode == FfiTransferMode::ShowManual || mode
            == FfiTransferMode::ShowInvite || mode == FfiTransferMode::Mdns || mode
            == FfiTransferMode::Room,
        FfiTransferDirection::Unknown => false,
    }
}

/// Why a direction and a mode do not go together, if they do not.
pub open spec fn direction_mode_problem(
    direction: FfiTransferDirection,
    mode: FfiTransferMode,
) -> Option<Seq<char>> {
    if mode_fits(direction, mode) {
        None
    } else if direction == FfiTransferDirection::Unknown {
        Some("transfer direction must be send or receive"@)
    } else if mode == FfiTransferMode::Unknown {
        Some("transfer mode must not be unknown"@)
    } else {
        Some(
            "transfer mode "@ + mode_name_of(mode) + " is not supported for "@ + direction_name_of(
                direction,
            ),
        )
    }
}

/// Whether a result reports exactly `problem`.
pub open spec fn reports(result: Result<(), EnvoixError>, problem: Option<Seq<char>>) -> bool {
    match result {
        Ok(_) => problem is None,
        Err(error) => problem == Some(error.reason_view()),
    }
}

/// Checks that a direction and a mode go together.
pub fn validate_direction_mode(direction: FfiTransferDirection, mode: FfiTransferMode) -> (r: Result<
    (),
    EnvoixError,
>)
    ensures
        reports(r, direction_mode_problem(direction, mode)),
{
    match (direction, mode) {
        (
            FfiTransferDirection::Send,
            FfiTransferMode::Manual
            | FfiTransferMode::Invite
            | FfiTransferMode::Mdns
            | FfiTransferMode::Room,
        )
        | (
            FfiTransferDirection::Receive,
            FfiTransferMode::ShowManual
            | FfiTransferMode::ShowInvite
            | FfiTransferMode::Mdns
            | FfiTransferMode::Room,
        ) => Ok(()),
        (FfiTransferDirection::Unknown, _) => Err(
            op_error("transfer direction must be send or receive"),
        ),
        (_, FfiTransferMode::Unknown) => Err(op_error("transfer mode must not be unknown")),
        (direction, mode) => {
            let head = joined3("transfer mode ", mode_name(mode), " is not supported for ");
            Err(op_err(joined(head.as_str(), direction_name(direction))))
        },
    }
}

/// The value that a required field stands for, or why there is none.
pub open spec fn required_of(value: Seq<char>, field: Seq<char>) -> Result<Seq<char>, Seq<char>> {
    if is_blank(value) {
        Err(field + " must not be empty"@)
    } else {
        Ok(trimmed(value))
    }
}

/// The text of a result: its value, or the reason of its error.
pub open spec fn text_result(result: Result<String, EnvoixError>) -> Result<Seq<char>, Seq<char>> {
    match result {
        Ok(value) => Ok(value@),
        Err(error) => Err(error.reason_view()),
    }
}

/// The trimmed value of a field that must not be blank.
pub fn required_value(value: &str, field: &str) -> (r: Result<String, EnvoixError>)
    ensures
        text_result(r) == required_of(value@, field@),
{
    match non_blank(value) {
        Some(text) => Ok(text),
        None => Err(op_err(joined(field, " must not be empty"))),
    }
}

/// The trimmed value of a path field that must not be blank.
pub fn required_path(value: &str, field: &str) -> (r: Result<String, EnvoixError>)
    ensures
        text_result(r) == required_of(value@, field@),
{
    required_value(value, field)
}

/// The value that an optional field stands for.
pub open spec fn optional_of(value: Seq<char>) -> Option<Seq<char>> {
    if is_blank(value) {
        None
    } else {
        Some(trimmed(value))
    }
}

/// The trimmed value of a field, where it is not blank.
pub fn optional_value(value: &str) -> (r: Option<String>)
    ensures
        text_option(r) == optional_of(value@),
{
    non_blank(value)
}

/// The first of two fields that is not blank, trimmed.
pub open spec fn first_given(first: Seq<char>, second: Seq<char>) -> Option<Seq<char>> {
    if !is_blank(first) {
        Some(trimmed(first))
    } else {
        optional_of(second)
    }
}

pub(crate) fn first_given_value(first: &str, second: &str) -> (r: Option<String>)
    ensures
        text_option(r) == first_given(first@, second@),
{
    match non_blank(first) {
        Some(text) => Some(text),
        None => non_blank(second),
    }
}

/// The runtime configuration file of the client that serves a request: the
/// request's own, else the one of the settings.
pub fn build_client_for_request(settings: &EnvoixRuntimeSettings, request: &FfiTransferRequest) -> (r:
    Option<String>)
    ensures
        text_option(r) == first_given(request@.config_path, settings@.config_path),
{
    first_given_value(request.config_path.as_str(), settings.config_path.as_str())
}

/// The broker that a request pairs through.
pub open spec fn broker_of(settings: SettingsView, request: RequestView) -> Seq<char> {
    match first_given(request.broker, settings.server_url) {
        Some(broker) => broker,
        None => DEFAULT_RENDEZVOUS_BROKER@,
    }
}

/// The broker that a request pairs through: its own, else the one of the
/// settings, else the hosted one.
pub fn rendezvous_broker_for_request(settings: &EnvoixRuntimeSettings, request: &FfiTransferRequest) -> (r:
    String)
    ensures
        r@ == broker_of(settings@, request@),
{
    match first_given_value(request.broker.as_str(), settings.server_url.as_str()) {
        Some(broker) => broker,
        None => DEFAULT_RENDEZVOUS_BROKER.to_owned(),
    }
}

/// The relay that a request may use. The hosted relay only goes with the
/// hosted broker.
pub open spec fn relay_of(settings: SettingsView, request: RequestView) -> Option<Seq<char>> {
    match first_given(request.relay, settings.relay_url) {
        Some(relay) => Some(relay),
        None => if is_blank(request.broker) && is_blank(settings.server_url) {
            Some(DEFAULT_RELAY_URL@)
        } else {
            None
        },
    }
}

/// The relay that a request may use.
pub fn relay_url_for_request(settings: &EnvoixRuntimeSettings, request: &FfiTransferRequest) -> (r:
    Option<String>)
    ensures
        text_option(r) == relay_of(settings@, request@),
{
    match first_given_value(request.relay.as_str(), settings.relay_url.as_str()) {
        Some(relay) => Some(relay),
        None => if request.broker.as_str().trim().is_empty()
            && settings.server_url.as_str().trim().is_empty() {
            Some(DEFAULT_RELAY_URL.to_owned())
        } else {
            None
        },
    }
}

/// The broker of a pairing invite: the given one, else the hosted one.
pub fn broker_for_pairing_invite(broker: &str) -> (r: String)
    ensures
        r@ == (if is_blank(broker@) {
            DEFAULT_RENDEZVOUS_BROKER@
        } else {
            trimmed(broker@)
        }),
{
    match non_blank(broker) {
        Some(text) => text,
        None => DEFAULT_RENDEZVOUS_BROKER.to_owned(),
    }
}

/// The relay of a pairing invite: the given one, else the hosted one where
/// the broker is the hosted one too.
pub fn relay_for_pairing_invite(broker: &str, relay: &str) -> (r: Option<String>)
    ensures
        text_option(r) == (if !is_blank(relay@) {
            Some(trimmed(relay@))
        } else if is_blank(broker@) {
            Some(DEFAULT_RELAY_URL@)
        } else {
            None
        }),
{
    match non_blank(relay) {
        Some(text) => Some(text),
        None => if broker.trim().is_empty() {
            Some(DEFAULT_RELAY_URL.to_owned())
        } else {
            None
        },
    }
}

/// Every address family on a port of the system's choosing.
pub fn receive_addrs() -> (r: BindAddrs)
    ensures
        r == (BindAddrs { ipv4: true, ipv6: true, port: 0 }),
{
    BindAddrs { ipv4: true, ipv6: true, port: 0 }
}

/// The engine options of a request under `policy`.
pub open spec fn options_of(
    settings: SettingsView,
    request: RequestView,
    policy: FfiPathPolicy,
) -> Result<OptionsView, Seq<char>> {
    if policy == FfiPathPolicy::RelayOnly && relay_of(settings, request) is None {
        Err("relay-only transfers require a relay URL"@)
    } else {
        Ok(
            OptionsView {
                relay: relay_of(settings, request),
                path: path_policy_of(policy),
                resume: request.resume,
                listen_addrs: Some(BindAddrs { ipv4: true, ipv6: true, port: 0 }),
            },
        )
    }
}

/// The policy of an attempt: its own, else the one of the request.
pub open spec fn effective_policy(
    request: RequestView,
    path_policy_override: Option<FfiPathPolicy>,
) -> FfiPathPolicy {
    match path_policy_override {
        Some(policy) => policy,
        None => request.path_policy,
    }
}

/// The engine options of one attempt at a request.
pub fn transfer_options_for_request(
    settings: &EnvoixRuntimeSettings,
    request: &FfiTransferRequest,
    path_policy_override: Option<FfiPathPolicy>,
) -> (r: Result<TransferOptions, EnvoixError>)
    ensures
        match r {
            Ok(options) => options_of(
                settings@,
                request@,
                effective_policy(request@, path_policy_override),
            ) == Ok::<OptionsView, Seq<char>>(options@),
            Err(error) => options_of(
                settings@,
                request@,
                effective_policy(request@, path_policy_override),
            ) == Err::<OptionsView, Seq<char>>(error.reason_view()),
        },
{
    let relay = relay_url_for_request(settings, request);
    let policy = match path_policy_override {
        Some(policy) => policy,
        None => request.path_policy,
    };
    if policy == FfiPathPolicy::RelayOnly && relay.is_none() {
        return Err(op_error("relay-only transfers require a relay URL"));
    }
    Ok(
        TransferOptions {
            relay,
            path: path_policy(policy),
            resume: request.resume,
            listen_addrs: Some(receive_addrs()),
        },
    )
}

impl TransferAttemptSource {
    /// An attempt under the request's own path policy.
    pub fn new(mode: FfiTransferMode, source: PeerSource) -> (r: Self)
        ensures
            r@ == (AttemptView { mode, source: source@, path_policy_override: None }),
    {
        TransferAttemptSource { mode, source, path_policy_override: None }
    }

    /// The same attempt under another path policy.
    pub fn with_path_policy(self, path_policy: FfiPathPolicy) -> (r: Self)
        ensures
            r@ == (AttemptView { path_policy_override: Some(path_policy), ..self@ }),
    {
        TransferAttemptSource {
            mode: self.mode,
            source: self.source,
            path_policy_override: Some(path_policy),
        }
    }
}

/// Whether an invite is tried a second time through its relay alone.
pub open spec fn retries_invite(
    settings: SettingsView,
    request: RequestView,
    invite: Option<QrInviteView>,
) -> bool {
    &&& request.direction == FfiTransferDirection::Send
    &&& request.path_policy == FfiPathPolicy::Auto
    &&& relay_of(settings, request) is Some
    &&& invite matches Some(payload) && payload.relay_urls.len() > 0
}

/// Whether an invite, as it decodes, is tried a second time through its relay
/// alone.
pub fn should_retry_invite_relay_only(
    settings: &EnvoixRuntimeSettings,
    request: &FfiTransferRequest,
    invite: &Option<QrInvitePayload>,
) -> (r: bool)
    ensures
        r == retries_invite(
            settings@,
            request@,
            match *invite {
                Some(payload) => Some(payload@),
                None => None,
            },
        ),
{
    if request.direction != FfiTransferDirection::Send || request.path_policy
        != FfiPathPolicy::Auto || relay_url_for_request(settings, request).is_none() {
        return false;
    }
    match invite {
        Some(payload) => payload.relay_urls.len() > 0,
        None => false,
    }
}

/// Whether a room is tried a second time through the relay alone.
pub open spec fn retries_room(settings: SettingsView, request: RequestView) -> bool {
    request.path_policy == FfiPathPolicy::Auto && relay_of(settings, request) is Some
}

/// Whether a room is tried a second time through the relay alone.
pub fn should_retry_room_relay_only(settings: &EnvoixRuntimeSettings, request: &FfiTransferRequest) -> (r:
    bool)
    ensures
        r == retries_room(settings@, request@),
{
    request.path_policy == FfiPathPolicy::Auto && relay_url_for_request(settings, request).is_some()
}

/// The peer that a descriptor names, given how its trimmed text decodes.
pub open spec fn descriptor_of(value: Seq<char>, lookups: LookupsView) -> Result<
    PeerDescriptorView,
    Seq<char>,
> {
    match required_of(value, "peer_descriptor"@) {
        Err(reason) => Err(reason),
        Ok(_) => match lookups.descriptor {
            Some(peer) => Ok(peer),
            None => Err(lookups.descriptor_error),
        },
    }
}

/// The peer that a descriptor names, given how its trimmed text decodes.
pub fn required_peer_descriptor(value: &str, lookups: &SourceLookups) -> (r: Result<
    PeerDescriptor,
    EnvoixError,
>)
    ensures
        match r {
            Ok(peer) => descriptor_of(value@, lookups@) == Ok::<PeerDescriptorView, Seq<char>>(peer@),
            Err(error) => descriptor_of(value@, lookups@) == Err::<PeerDescriptorView, Seq<char>>(
                error.reason_view(),
            ),
        },
{
    match required_value(value, "peer_descriptor") {
        Err(error) => Err(error),
        Ok(_) => match &lookups.descriptor {
            Some(peer) => Ok(peer.clone()),
            None => Err(op_err(lookups.descriptor_error.clone())),
        },
    }
}

/// The attempt at a source, and where `retry` holds a second one through the
/// relay alone.
pub open spec fn with_relay_retry(mode: FfiTransferMode, source: PeerSourceView, retry: bool) -> Seq<
    AttemptView,
> {
    let first = AttemptView { mode, source, path_policy_override: None };
    if retry {
        seq![
            first,
            AttemptView { mode, source, path_policy_override: Some(FfiPathPolicy::RelayOnly) },
        ]
    } else {
        seq![first]
    }
}

/// The attempts of a room request: the room itself where it may be used, then
/// the local network.
pub open spec fn room_attempts(settings: SettingsView, request: RequestView) -> Seq<AttemptView> {
    let code = trimmed(request.code);
    let plan = request.rendezvous;
    let room = if plan.use_room && plan.internet_available {
        with_relay_retry(
            FfiTransferMode::Room,
            PeerSourceView::Room { code, broker: broker_of(settings, request) },
            retries_room(settings, request),
        )
    } else {
        Seq::empty()
    };
    if plan.use_mdns {
        room.push(
            AttemptView {
                mode: FfiTransferMode::Mdns,
                source: PeerSourceView::Mdns { token: Some(code) },
                path_policy_override: None,
            },
        )
    } else {
        room
    }
}

/// The attempts at reaching the peer of a request, in order, or why there are
/// none.
pub open spec fn attempts_of(
    settings: SettingsView,
    request: RequestView,
    lookups: LookupsView,
) -> Result<Seq<AttemptView>, Seq<char>> {
    match request.mode {
        FfiTransferMode::Manual => match descriptor_of(request.peer_descriptor, lookups) {
            Err(reason) => Err(reason),
            Ok(peer) => match required_of(request.token, "token"@) {
                Err(reason) => Err(reason),
                Ok(token) => Ok(
                    with_relay_retry(
                        FfiTransferMode::Manual,
                        PeerSourceView::Manual { peer, token },
                        false,
                    ),
                ),
            },
        },
        FfiTransferMode::Invite => match required_of(request.invite, "invite"@) {
            Err(reason) => Err(reason),
            Ok(invite) => Ok(
                with_relay_retry(
                    FfiTransferMode::Invite,
                    PeerSourceView::Invite { invite },
                    retries_invite(settings, request, lookups.invite),
                ),
            ),
        },
        FfiTransferMode::ShowManual => Ok(
            with_relay_retry(
                FfiTransferMode::ShowManual,
                PeerSourceView::ShowManual { token: optional_of(request.token) },
                false,
            ),
        ),
        FfiTransferMode::ShowInvite => Ok(
            with_relay_retry(
                FfiTransferMode::ShowInvite,
                PeerSourceView::ShowInvite { ttl_secs: INVITE_TTL_SECS, token: None },
                false,
            ),
        ),
        FfiTransferMode::Mdns => Ok(
            with_relay_retry(
                FfiTransferMode::Mdns,
                PeerSourceView::Mdns { token: optional_of(request.token) },
                false,
            ),
        ),
        FfiTransferMode::Room => match required_of(request.code, "code"@) {
            Err(reason) => Err(reason),
            Ok(_) => if room_attempts(settings, request).len() > 0 {
                Ok(room_attempts(settings, request))
            } else if request.rendezvous.use_room {
                Err(
                    "room rendezvous is disabled while internet is unavailable and mDNS fallback is disabled"@,
                )
            } else {
                Err("at least one rendezvous route must be enabled"@)
            },
        },
        FfiTransferMode::Unknown => Err("transfer mode must not be unknown"@),
    }
}

/// A request that can be planned has an attempt to make.
pub proof fn planned_requests_have_an_attempt(
    settings: SettingsView,
    request: RequestView,
    lookups: LookupsView,
)
    ensures
        attempts_of(settings, request, lookups) matches Ok(attempts) ==> attempts.len() > 0,
{
}

/// Without internet a room request stays on the local network.
pub proof fn offline_rooms_stay_local(
    settings: SettingsView,
    request: RequestView,
    lookups: LookupsView,
)
    requires
        request.mode == FfiTransferMode::Room,
        !request.rendezvous.internet_available,
    ensures
        attempts_of(settings, request, lookups) matches Ok(attempts) ==> forall|i: int|
            0 <= i < attempts.len() ==> (#[trigger] attempts[i]).mode == FfiTransferMode::Mdns
                && attempts[i].source is Mdns,
{
}

/// The views of a list of attempts.
pub open spec fn attempt_views(attempts: Seq<TransferAttemptSource>) -> Seq<AttemptView> {
    attempts.map_values(|a: TransferAttemptSource| a@)
}

/// Whether a result holds exactly the planned attempts, or their problem.
pub open spec fn holds_attempts(
    result: Result<Vec<TransferAttemptSource>, EnvoixError>,
    plan: Result<Seq<AttemptView>, Seq<char>>,
) -> bool {
    match result {
        Ok(attempts) => plan == Ok::<Seq<AttemptView>, Seq<char>>(attempt_views(attempts@)),
        Err(error) => plan == Err::<Seq<AttemptView>, Seq<char>>(error.reason_view()),
    }
}

fn attempts_with_retry(mode: FfiTransferMode, source: PeerSource, retry: bool) -> (r: Vec<
    TransferAttemptSource,
>)
    ensures
        attempt_views(r@) == with_relay_retry(mode, source@, retry),
{
    let mut attempts: Vec<TransferAttemptSource> = Vec::new();
    if retry {
        attempts.push(TransferAttemptSource::new(mode, source.clone()));
        attempts.push(
            TransferAttemptSource::new(mode, source).with_path_policy(FfiPathPolicy::RelayOnly),
        );
    } else {
        attempts.push(TransferAttemptSource::new(mode, source));
    }
    assert(attempt_views(attempts@) =~= with_relay_retry(mode, source@, retry));
    attempts
}

/// Plans the attempts at reaching the peer of a request, in order.
pub fn peer_sources_for_request(
    settings: &EnvoixRuntimeSettings,
    request: &FfiTransferRequest,
    lookups: &SourceLookups,
) -> (r: Result<Vec<TransferAttemptSource>, EnvoixError>)
    ensures
        holds_attempts(r, attempts_of(settings@, request@, lookups@)),
{
    match request.mode {
        FfiTransferMode::Manual => {
            let peer = match required_peer_descriptor(request.peer_descriptor.as_str(), lookups) {
                Ok(peer) => peer,
                Err(error) => return Err(error),
            };
            let token = match required_value(request.token.as_str(), "token") {
                Ok(token) => token,
                Err(error) => return Err(error),
            };
            Ok(
                attempts_with_retry(
                    FfiTransferMode::Manual,
                    PeerSource::Manual { peer, token },
                    false,
                ),
            )
        },
        FfiTransferMode::Invite => {
            let invite = match required_value(request.invite.as_str(), "invite") {
                Ok(invite) => invite,
                Err(error) => return Err(error),
            };
            let retry = should_retry_invite_relay_only(settings, request, &lookups.invite);
            Ok(attempts_with_retry(FfiTransferMode::Invite, PeerSource::Invite { invite }, retry))
        },
        FfiTransferMode::ShowManual => Ok(
            attempts_with_retry(
                FfiTransferMode::ShowManual,
                PeerSource::ShowManual { token: optional_value(request.token.as_str()) },
                false,
            ),
        ),
        FfiTransferMode::ShowInvite => Ok(
            attempts_with_retry(
                FfiTransferMode::ShowInvite,
                PeerSource::ShowInvite { ttl_secs: INVITE_TTL_SECS, token: None },
                false,
            ),
        ),
        FfiTransferMode::Mdns => Ok(
            attempts_with_retry(
                FfiTransferMode::Mdns,
                PeerSource::Mdns { token: optional_value(request.token.as_str()) },
                false,
            ),
        ),
        FfiTransferMode::Room => room_sources(settings, request),
        FfiTransferMode::Unknown => Err(op_error("transfer mode must not be unknown")),
    }
}

fn room_sources(settings: &EnvoixRuntimeSettings, request: &FfiTransferRequest) -> (r: Result<
    Vec<TransferAttemptSource>,
    EnvoixError,
>)
    ensures
        request.mode == FfiTransferMode::Room ==> forall|lookups: LookupsView|
            #![trigger attempts_of(settings@, request@, lookups)]
            holds_attempts(r, attempts_of(settings@, request@, lookups)),
{
    let code = match required_value(request.code.as_str(), "code") {
        Ok(code) => code,
        Err(error) => return Err(error),
    };
    let plan = request.rendezvous;
    let mut attempts: Vec<TransferAttemptSource> = Vec::new();
    if plan.use_room && plan.internet_available {
        let source = PeerSource::Room {
            code: code.clone(),
            broker: rendezvous_broker_for_request(settings, request),
        };
        let retry = should_retry_room_relay_only(settings, request);
        attempts = attempts_with_retry(FfiTransferMode::Room, source, retry);
    }
    let ghost room = attempt_views(attempts@);
    if plan.use_mdns {
        attempts.push(
            TransferAttemptSource::new(
                FfiTransferMode::Mdns,
                PeerSource::Mdns { token: Some(code) },
            ),
        );
        assert(attempt_views(attempts@) =~= room.push(attempt_views(attempts@).last()));
    }
    assert(attempt_views(attempts@) =~= room_attempts(settings@, request@));
    if attempts.len() == 0 {
        if plan.use_room {
            Err(
                op_error(
                    "room rendezvous is disabled while internet is unavailable and mDNS fallback is disabled",
                ),
            )
        } else {
            Err(op_error("at least one rendezvous route must be enabled"))
        }
    } else {
        Ok(attempts)
    }
}

/// The path that a request works on, or why it has none.
pub open spec fn request_path(request: RequestView) -> Result<Seq<char>, Seq<char>> {
    match request.direction {
        FfiTransferDirection::Send => required_of(request.file_path, "file_path"@),
        FfiTransferDirection::Receive => required_of(request.output_dir, "output_dir"@),
        FfiTransferDirection::Unknown => Err("transfer direction must be send or receive"@),
    }
}

pub(crate) fn path_for_request(request: &FfiTransferRequest) -> (r: Result<String, EnvoixError>)
    ensures
        text_result(r) == request_path(request@),
{
    match request.direction {
        FfiTransferDirection::Send => required_path(request.file_path.as_str(), "file_path"),
        FfiTransferDirection::Receive => required_path(request.output_dir.as_str(), "output_dir"),
        FfiTransferDirection::Unknown => Err(op_error("transfer direction must be send or receive")),
    }
}

/// The first problem of a request, if it has any: direction and mode, then the
/// path, the client, the options and the routes.
pub open spec fn request_problem(
    settings: SettingsView,
    request: RequestView,
    client_error: Option<Seq<char>>,
    lookups: LookupsView,
) -> Option<Seq<char>> {
    if direction_mode_problem(request.direction, request.mode) is Some {
        direction_mode_problem(request.direction, request.mode)
    } else {
        match request_path(request) {
            Err(reason) => Some(reason),
            Ok(_) => transport_problem(settings, request, client_error, lookups),
        }
    }
}

/// The first problem of reaching the peer of a request.
pub open spec fn transport_problem(
    settings: SettingsView,
    request: RequestView,
    client_error: Option<Seq<char>>,
    lookups: LookupsView,
) -> Option<Seq<char>> {
    if client_error is Some {
        client_error
    } else {
        match options_of(settings, request, request.path_policy) {
            Err(reason) => Some(reason),
            Ok(_) => match attempts_of(settings, request, lookups) {
                Err(reason) => Some(reason),
                Ok(_) => None,
            },
        }
    }
}

pub(crate) fn validate_transport(
    settings: &EnvoixRuntimeSettings,
    request: &FfiTransferRequest,
    client_error: &Option<String>,
    lookups: &SourceLookups,
) -> (r: Result<(), EnvoixError>)
    ensures
        reports(r, transport_problem(settings@, request@, text_option(*client_error), lookups@)),
{
    if let Some(reason) = client_error {
        return Err(op_err(reason.clone()));
    }
    if let Err(error) = transfer_options_for_request(settings, request, None) {
        return Err(error);
    }
    match peer_sources_for_request(settings, request, lookups) {
        Err(error) => Err(error),
        Ok(_) => Ok(()),
    }
}

/// Checks a request before it is queued. `client_error` is why its client
/// cannot be built, if it cannot.
pub fn validate_transfer_request(
    settings: &EnvoixRuntimeSettings,
    request: &FfiTransferRequest,
    client_error: &Option<String>,
    lookups: &SourceLookups,
) -> (r: Result<(), EnvoixError>)
    ensures
        reports(r, request_problem(settings@, request@, text_option(*client_error), lookups@)),
{
    if let Err(error) = validate_direction_mode(request.direction, request.mode) {
        return Err(error);
    }
    if let Err(error) = path_for_request(request) {
        return Err(error);
    }
    validate_transport(settings, request, client_error, lookups)
}

/// What one attempt asks of the engine.
#[derive(Debug, PartialEq, Eq)]
pub struct EngineStart {
    pub direction: TransferDirection,
    pub path: String,
    pub source: PeerSource,
    pub options: TransferOptions,
}

/// What a [`EngineStart`] holds.
#[verifier::ext_equal]
pub struct StartView {
    pub direction: TransferDirection,
    pub path: Seq<char>,
    pub source: PeerSourceView,
    pub options: OptionsView,
}

impl View for EngineStart {
    type V = StartView;

    open spec fn view(&self) -> StartView {
        StartView {
            direction: self.direction,
            path: self.path@,
            source: self.source@,
            options: self.options@,
        }
    }
}

impl Clone for EngineStart {
    fn clone(&self) -> (r: Self)
        ensures
            r@ == self@,
    {
        let r = EngineStart {
            direction: self.direction,
            path: self.path.clone(),
            source: self.source.clone(),
            options: self.options.clone(),
        };
        r
    }
}

/// The engine call of one attempt, or why it cannot be made.
pub open spec fn start_of(
    settings: SettingsView,
    request: RequestView,
    source: PeerSourceView,
    path_policy_override: Option<FfiPathPolicy>,
    client_error: Option<Seq<char>>,
) -> Result<StartView, Seq<char>> {
    if client_error is Some {
        Err(client_error->0)
    } else {
        match options_of(settings, request, effective_policy(request, path_policy_override)) {
            Err(reason) => Err(reason),
            Ok(options) => match request_path(request) {
                Err(reason) => Err(reason),
                Ok(path) => Ok(
                    StartView {
                        direction: if request.direction == FfiTransferDirection::Send {
                            TransferDirection::Send
                        } else {
                            TransferDirection::Receive
                        },
                        path,
                        source,
                        options,
                    },
                ),
            },
        }
    }
}

/// Builds the engine call of one attempt. `client_error` is why the client
/// cannot be built, if it cannot.
pub fn build_transfer_for_source(
    settings: &EnvoixRuntimeSettings,
    request: &FfiTransferRequest,
    source: PeerSource,
    path_policy_override: Option<FfiPathPolicy>,
    client_error: &Option<String>,
) -> (r: Result<EngineStart, EnvoixError>)
    ensures
        match r {
            Ok(start) => start_of(
                settings@,
                request@,
                source@,
                path_policy_override,
                text_option(*client_error),
            ) == Ok::<StartView, Seq<char>>(start@),
            Err(error) => start_of(
                settings@,
                request@,
                source@,
                path_policy_override,
                text_option(*client_error),
            ) == Err::<StartView, Seq<char>>(error.reason_view()),
        },
{
    if let Some(reason) = client_error {
        return Err(op_err(reason.clone()));
    }
    let options = match transfer_options_for_request(settings, request, path_policy_override) {
        Ok(options) => options,
        Err(error) => return Err(error),
    };
    let path = match path_for_request(request) {
        Ok(path) => path,
        Err(error) => return Err(error),
    };
    let direction = if request.direction == FfiTransferDirection::Send {
        TransferDirection::Send
    } else {
        TransferDirection::Receive
    };
    Ok(EngineStart { direction, path, source, options })
}

/// A mode or direction that a request may not use is spelled as clients spell it.
pub proof fn problems_name_modes_and_directions(
    mode: FfiTransferMode,
    direction: FfiTransferDirection,
)
    ensures
        mode is Manual ==> mode_name_of(mode) == "Manual"@,
        mode is Invite ==> mode_name_of(mode) == "Invite"@,
        mode is ShowManual ==> mode_name_of(mode) == "ShowManual"@,
        mode is ShowInvite ==> mode_name_of(mode) == "ShowInvite"@,
        mode is Mdns ==> mode_name_of(mode) == "Mdns"@,
        mode is Room ==> mode_name_of(mode) == "Room"@,
        mode is Unknown ==> mode_name_of(mode) == "Unknown"@,
        direction is Send ==> direction_name_of(direction) == "Send"@,
        direction is Receive ==> direction_name_of(direction) == "Receive"@,
        direction is Unknown ==> direction_name_of(direction) == "Unknown"@,
{
}

/// What a local request names reaches its one attempt: the trimmed token, or none
/// where it is blank.
pub proof fn local_requests_keep_their_token(
    settings: SettingsView,
    request: RequestView,
    lookups: LookupsView,
)
    requires
        request.mode == FfiTransferMode::Mdns,
    ensures
        attempts_of(settings, request, lookups) == Ok::<Seq<AttemptView>, Seq<char>>(
            seq![
                AttemptView {
                    mode: FfiTransferMode::Mdns,
                    source: PeerSourceView::Mdns {
                        token: if is_blank(request.token) {
                            None
                        } else {
                            Some(trimmed(request.token))
                        },
                    },
                    path_policy_override: None,
                },
            ],
        ),
{
}

/// A shown descriptor keeps the request's token, and a shown invite makes its own
/// and lives for five minutes.
pub proof fn shown_requests_keep_their_token(
    settings: SettingsView,
    request: RequestView,
    lookups: LookupsView,
)
    ensures
        request.mode == FfiTransferMode::ShowManual ==> attempts_of(settings, request, lookups)
            == Ok::<Seq<AttemptView>, Seq<char>>(
            seq![
                AttemptView {
                    mode: FfiTransferMode::ShowManual,
                    source: PeerSourceView::ShowManual {
                        token: if is_blank(request.token) {
                            None
                        } else {
                            Some(trimmed(request.token))
                        },
                    },
                    path_policy_override: None,
                },
            ],
        ),
        request.mode == FfiTransferMode::ShowInvite ==> attempts_of(settings, request, lookups)
            == Ok::<Seq<AttemptView>, Seq<char>>(
            seq![
                AttemptView {
                    mode: FfiTransferMode::ShowInvite,
                    source: PeerSourceView::ShowInvite { ttl_secs: 300, token: None },
                    path_policy_override: None,
                },
            ],
        ),
{
}

/// A manual request dials the peer that its descriptor names, with its own token,
/// exactly where it gives both.
pub proof fn manual_requests_keep_their_peer_and_token(
    settings: SettingsView,
    request: RequestView,
    lookups: LookupsView,
)
    requires
        request.mode == FfiTransferMode::Manual,
    ensures
        attempts_of(settings, request, lookups) is Ok <==> !is_blank(request.peer_descriptor)
            && lookups.descriptor is Some && !is_blank(request.token),
        !is_blank(request.token) && !is_blank(request.peer_descriptor) ==> (
        lookups.descriptor matches Some(peer) ==> attempts_of(settings, request, lookups) == Ok::<
            Seq<AttemptView>,
            Seq<char>,
        >(
            seq![
                AttemptView {
                    mode: FfiTransferMode::Manual,
                    source: PeerSourceView::Manual { peer, token: trimmed(request.token) },
                    path_policy_override: None,
                },
            ],
        )),
        is_blank(request.peer_descriptor) ==> attempts_of(settings, request, lookups) == Err::<
            Seq<AttemptView>,
            Seq<char>,
        >("peer_descriptor"@ + " must not be empty"@),
        !is_blank(request.peer_descriptor) && lookups.descriptor is None ==> attempts_of(
            settings,
            request,
            lookups,
        ) == Err::<Seq<AttemptView>, Seq<char>>(lookups.descriptor_error),
        !is_blank(request.peer_descriptor) && lookups.descriptor is Some && is_blank(request.token)
            ==> attempts_of(settings, request, lookups) == Err::<Seq<AttemptView>, Seq<char>>(
            "token"@ + " must not be empty"@,
        ),
{
}

/// Every attempt at an invite carries the invite. There is a second one, through
/// the relay alone, exactly for a sender with any path open, a relay of its own and
/// an invite that names one.
pub proof fn invite_requests_keep_their_invite(
    settings: SettingsView,
    request: RequestView,
    lookups: LookupsView,
)
    requires
        request.mode == FfiTransferMode::Invite,
    ensures
        attempts_of(settings, request, lookups) is Ok <==> !is_blank(request.invite),
        attempts_of(settings, request, lookups) matches Ok(attempts) ==> {
            let both = request.direction == FfiTransferDirection::Send && request.path_policy
                == FfiPathPolicy::Auto && relay_of(settings, request) is Some
                && lookups.invite is Some && lookups.invite->0.relay_urls.len() > 0;
            &&& attempts.len() == if both {
                2nat
            } else {
                1
            }
            &&& attempts[0].path_policy_override is None
            &&& both ==> attempts[1].path_policy_override == Some(FfiPathPolicy::RelayOnly)
            &&& forall|i: int|
                0 <= i < attempts.len() ==> (#[trigger] attempts[i]).mode
                    == FfiTransferMode::Invite && attempts[i].source == (PeerSourceView::Invite {
                    invite: trimmed(request.invite),
                })
        },
{
}

/// Whatever attempt a room request leads to, it carries the request's code: as the
/// code of the room, at the broker of the request, or as the token on the local
/// network. The room comes first, then the room through the relay alone, then the
/// local network.
pub proof fn room_requests_keep_their_code(
    settings: SettingsView,
    request: RequestView,
    lookups: LookupsView,
)
    requires
        request.mode == FfiTransferMode::Room,
    ensures
        ({
            let code = trimmed(request.code);
            let online = request.rendezvous.use_room && request.rendezvous.internet_available;
            let twice = request.path_policy == FfiPathPolicy::Auto && relay_of(settings, request)
                is Some;
            let rooms = if online && twice {
                2int
            } else if online {
                1
            } else {
                0
            };
            &&& attempts_of(settings, request, lookups) is Ok <==> !is_blank(request.code) && (
            online || request.rendezvous.use_mdns)
            &&& attempts_of(settings, request, lookups) matches Ok(attempts) ==> {
                &&& attempts.len() == rooms + if request.rendezvous.use_mdns {
                    1int
                } else {
                    0
                }
                &&& forall|i: int|
                    0 <= i < rooms ==> (#[trigger] attempts[i]).mode == FfiTransferMode::Room
                        && attempts[i].source == (PeerSourceView::Room {
                        code,
                        broker: broker_of(settings, request),
                    })
                &&& rooms > 0 ==> attempts[0].path_policy_override is None
                &&& rooms > 1 ==> attempts[1].path_policy_override == Some(FfiPathPolicy::RelayOnly)
                &&& request.rendezvous.use_mdns ==> attempts[rooms] == (AttemptView {
                    mode: FfiTransferMode::Mdns,
                    source: PeerSourceView::Mdns { token: Some(code) },
                    path_policy_override: None,
                })
            }
        }),
{
}

/// A room request without a route says which one is missing, and one without a
/// mode says so.
pub proof fn refused_plans_say_why(
    settings: SettingsView,
    request: RequestView,
    lookups: LookupsView,
)
    ensures
        request.mode == FfiTransferMode::Unknown ==> attempts_of(settings, request, lookups) == Err::<
            Seq<AttemptView>,
            Seq<char>,
        >("transfer mode must not be unknown"@),
        request.mode == FfiTransferMode::Room && is_blank(request.code) ==> attempts_of(
            settings,
            request,
            lookups,
        ) == Err::<Seq<AttemptView>, Seq<char>>("code"@ + " must not be empty"@),
        request.mode == FfiTransferMode::Invite && is_blank(request.invite) ==> attempts_of(
            settings,
            request,
            lookups,
        ) == Err::<Seq<AttemptView>, Seq<char>>("invite"@ + " must not be empty"@),
        request.mode == FfiTransferMode::Room && !is_blank(request.code)
            && !request.rendezvous.use_mdns && !request.rendezvous.use_room ==> attempts_of(
            settings,
            request,
            lookups,
        ) == Err::<Seq<AttemptView>, Seq<char>>("at least one rendezvous route must be enabled"@),
        request.mode == FfiTransferMode::Room && !is_blank(request.code)
            && !request.rendezvous.use_mdns && request.rendezvous.use_room
            && !request.rendezvous.internet_available ==> attempts_of(settings, request, lookups)
            == Err::<Seq<AttemptView>, Seq<char>>(
            "room rendezvous is disabled while internet is unavailable and mDNS fallback is disabled"@,
        ),
{
}

/// A request's own broker comes before the session's server, and that before the
/// hosted one. The hosted relay goes with the hosted broker alone.
pub proof fn given_servers_come_first(settings: SettingsView, request: RequestView)
    ensures
        !is_blank(request.broker) ==> broker_of(settings, request) == trimmed(request.broker),
        is_blank(request.broker) && !is_blank(settings.server_url) ==> broker_of(settings, request)
            == trimmed(settings.server_url),
        is_blank(request.broker) && is_blank(settings.server_url) ==> broker_of(settings, request)
            == DEFAULT_RENDEZVOUS_BROKER@,
        !is_blank(request.relay) ==> relay_of(settings, request) == Some(trimmed(request.relay)),
        is_blank(request.relay) && !is_blank(settings.relay_url) ==> relay_of(settings, request)
            == Some(trimmed(settings.relay_url)),
        is_blank(request.relay) && is_blank(settings.relay_url) && (!is_blank(request.broker)
            || !is_blank(settings.server_url)) ==> relay_of(settings, request) is None,
        is_blank(request.relay) && is_blank(settings.relay_url) && is_blank(request.broker)
            && is_blank(settings.server_url) ==> relay_of(settings, request) == Some(
            DEFAULT_RELAY_URL@,
        ),
{
}

/// A transfer that may only use a relay is refused exactly where there is none.
/// Any other keeps the request's relay, policy and resumption.
pub proof fn options_keep_the_request(
    settings: SettingsView,
    request: RequestView,
    policy: FfiPathPolicy,
)
    ensures
        options_of(settings, request, policy) is Err <==> policy == FfiPathPolicy::RelayOnly
            && relay_of(settings, request) is None,
        options_of(settings, request, policy) matches Ok(options) ==> options.relay == relay_of(
            settings,
            request,
        ) && options.path == path_policy_of(policy) && options.resume == request.resume
            && options.listen_addrs == Some(BindAddrs { ipv4: true, ipv6: true, port: 0 }),
        options_of(settings, request, policy) matches Err(reason) ==> reason
            == "relay-only transfers require a relay URL"@,
        effective_policy(request, Some(policy)) == policy,
        effective_policy(request, None) == request.path_policy,
{
}

/// A sender takes a file and a receiver a directory; each is trimmed, and needed.
pub proof fn requests_name_their_path(request: RequestView)
    ensures
        request.direction == FfiTransferDirection::Send && !is_blank(request.file_path)
            ==> request_path(request) == Ok::<Seq<char>, Seq<char>>(trimmed(request.file_path)),
        request.direction == FfiTransferDirection::Receive && !is_blank(request.output_dir)
            ==> request_path(request) == Ok::<Seq<char>, Seq<char>>(trimmed(request.output_dir)),
        request_path(request) is Err <==> request.direction == FfiTransferDirection::Unknown || (
        request.direction == FfiTransferDirection::Send && is_blank(request.file_path)) || (
        request.direction == FfiTransferDirection::Receive && is_blank(request.output_dir)),
        request.direction == FfiTransferDirection::Send && is_blank(request.file_path)
            ==> request_path(request) == Err::<Seq<char>, Seq<char>>(
            "file_path"@ + " must not be empty"@,
        ),
        request.direction == FfiTransferDirection::Receive && is_blank(request.output_dir)
            ==> request_path(request) == Err::<Seq<char>, Seq<char>>(
            "output_dir"@ + " must not be empty"@,
        ),
{
}

/// Senders dial and receivers show; the local network and rooms serve both, and
/// nothing else fits.
pub proof fn modes_fit_their_direction(mode: FfiTransferMode)
    ensures
        mode_fits(FfiTransferDirection::Send, mode) <==> mode is Manual || mode is Invite
            || mode is Mdns || mode is Room,
        mode_fits(FfiTransferDirection::Receive, mode) <==> mode is ShowManual
            || mode is ShowInvite || mode is Mdns || mode is Room,
        !mode_fits(FfiTransferDirection::Unknown, mode),
        forall|direction: FfiTransferDirection| #[trigger]
            direction_mode_problem(direction, mode) is None <==> mode_fits(direction, mode),
        direction_mode_problem(FfiTransferDirection::Unknown, mode) == Some(
            "transfer direction must be send or receive"@,
        ),
{
}

/// A request is taken exactly where its mode fits its direction, it names its path,
/// its client can be built, its options hold and there is an attempt to make.
pub proof fn requests_are_taken_when_they_can_be_served(
    settings: SettingsView,
    request: RequestView,
    client_error: Option<Seq<char>>,
    lookups: LookupsView,
)
    ensures
        request_problem(settings, request, client_error, lookups) is None <==> mode_fits(
            request.direction,
            request.mode,
        ) && request_path(request) is Ok && client_error is None && options_of(
            settings,
            request,
            request.path_policy,
        ) is Ok && attempts_of(settings, request, lookups) is Ok,
{
}

/// A transfer that starts goes the request's way, with the attempt's own source
/// and the request's path.
pub proof fn starts_follow_their_request(
    settings: SettingsView,
    request: RequestView,
    source: PeerSourceView,
    path_policy_override: Option<FfiPathPolicy>,
    client_error: Option<Seq<char>>,
)
    ensures
        start_of(settings, request, source, path_policy_override, client_error) is Ok
            <==> client_error is None && request_path(request) is Ok && options_of(
            settings,
            request,
            effective_policy(request, path_policy_override),
        ) is Ok,
        start_of(settings, request, source, path_policy_override, client_error) matches Ok(start)
            ==> start.source == source && request_path(request) == Ok::<Seq<char>, Seq<char>>(
            start.path,
        ) && (start.direction is Send <==> request.direction is Send) && options_of(
            settings,
            request,
            effective_policy(request, path_policy_override),
        ) == Ok::<OptionsView, Seq<char>>(start.options),
        client_error matches Some(reason) ==> start_of(
            settings,
            request,
            source,
            path_policy_override,
            client_error,
        ) == Err::<StartView, Seq<char>>(reason),
{
}

/// Transfers run one at a time unless they may run together; then as many as the
/// request allows, and at least one.
pub proof fn limits_follow_the_session(concurrent: bool, limits: FfiTransferLimits)
    ensures
        parallel_limit(false, limits) == 1,
        limits.max_parallel_transfers > 0 ==> parallel_limit(true, limits)
            == limits.max_parallel_transfers,
        parallel_limit(concurrent, limits) >= 1,
{
}

/// A new request rendezvouses where its mode does, with the internet at hand, and
/// names nothing that it was not given.
pub proof fn new_requests_rendezvous_by_mode(
    id: Seq<char>,
    direction: FfiTransferDirection,
    mode: FfiTransferMode,
)
    ensures
        plain_request(id, direction, mode).activity_id == id,
        plain_request(id, direction, mode).direction == direction,
        plain_request(id, direction, mode).mode == mode,
        plain_request(id, direction, mode).rendezvous.use_room <==> mode is Room,
        plain_request(id, direction, mode).rendezvous.use_mdns <==> mode is Room || mode is Mdns,
        plain_request(id, direction, mode).rendezvous.internet_available,
        plain_request(id, direction, mode).resume,
        !plain_request(id, direction, mode).publication_required,
        plain_request(id, direction, mode).path_policy is Auto,
        plain_request(id, direction, mode).token.len() == 0,
        plain_request(id, direction, mode).code.len() == 0,
        plain_request(id, direction, mode).invite.len() == 0,
        plain_request(id, direction, mode).peer_descriptor.len() == 0,
        plain_request(id, direction, mode).limits.speed_limit_bps == 0,
        plain_request(id, direction, mode).limits.max_parallel_transfers == 1,
{
}

/// What is wrong with a request is told in one order: its mode, its path, its
/// client, its options, its attempts.
pub proof fn problems_are_told_in_order(
    settings: SettingsView,
    request: RequestView,
    client_error: Option<Seq<char>>,
    lookups: LookupsView,
)
    ensures
        ({
            let problem = request_problem(settings, request, client_error, lookups);
            let fits = direction_mode_problem(request.direction, request.mode) is None;
            &&& !fits ==> problem == direction_mode_problem(request.direction, request.mode)
            &&& fits ==> (request_path(request) matches Err(reason) ==> problem == Some(reason))
            &&& fits && request_path(request) is Ok && client_error is Some ==> problem
                == client_error
            &&& fits && request_path(request) is Ok && client_error is None ==> (options_of(
                settings,
                request,
                request.path_policy,
            ) matches Err(reason) ==> problem == Some(reason))
            &&& fits && request_path(request) is Ok && client_error is None && options_of(
                settings,
                request,
                request.path_policy,
            ) is Ok ==> (attempts_of(settings, request, lookups) matches Err(reason) ==> problem
                == Some(reason))
        }),
{
}

/// A mode that does not fit is told by its name and the direction's.
pub proof fn unfit_modes_are_named(direction: FfiTransferDirection, mode: FfiTransferMode)
    requires
        !mode_fits(direction, mode),
        !(direction is Unknown),
    ensures
        mode is Unknown ==> direction_mode_problem(direction, mode) == Some(
            "transfer mode must not be unknown"@,
        ),
        !(mode is Unknown) ==> direction_mode_problem(direction, mode) == Some(
            "transfer mode "@ + mode_name_of(mode) + " is not supported for "@ + direction_name_of(
                direction,
            ),
        ),
{
}

/// A result reports a problem exactly where it fails with it, and a plan exactly
/// where it holds its attempts.
pub proof fn results_report_their_problem(
    error: EnvoixError,
    problem: Seq<char>,
    attempts: Vec<TransferAttemptSource>,
    plan: Seq<AttemptView>,
    text: String,
)
    ensures
        reports(Ok(()), None),
        !reports(Ok(()), Some(problem)),
        !reports(Err(error), None),
        reports(Err(error), Some(problem)) <==> error.reason_view() == problem,
        holds_attempts(Ok(attempts), Ok(plan)) <==> attempt_views(attempts@) == plan,
        !holds_attempts(Ok(attempts), Err(problem)),
        !holds_attempts(Err(error), Ok(plan)),
        holds_attempts(Err(error), Err(problem)) <==> error.reason_view() == problem,
        attempt_views(attempts@).len() == attempts@.len(),
        text_result(Ok(text)) == Ok::<Seq<char>, Seq<char>>(text@),
        text_result(Err(error)) == Err::<Seq<char>, Seq<char>>(error.reason_view()),
{
}

/// Ids are told by what they number.
pub proof fn ids_tell_what_they_number(n: u64)
    ensures
        activity_id_text(n) == "ffi-"@ + decimal(n as nat),
        attempt_id_text(n) == "attempt-"@ + decimal(n as nat),
        activity_id_text(n).len() > "ffi-"@.len(),
{
    crate::text::decimal_holds_digits(n as nat);
}

} // verus!
