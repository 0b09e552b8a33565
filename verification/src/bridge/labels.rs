//! Short descriptions of requests and routes for status lines. Of a room code they
//! tell the room number alone.
use vstd::prelude::*;
use vstd::string::*;
use vstd::utf8::encode_utf8;

use crate::bridge::engine::{
    PairingStep, PeerDescriptor, PeerDescriptorView, PeerSource, QrInvitePayload, QrInviteView,
    TransferDirection, TransferMode,
};
use crate::bridge::models::{
    EnvoixRuntimeSettings, FfiTransferDirection, FfiTransferMode, FfiTransferRequest, RequestView,
    SettingsView,
};
use crate::bridge::routes::{
    attempt_views, first_given, first_given_value, AttemptView, TransferAttemptSource,
};
use crate::common::FfiPathPolicy;
use crate::paths::{is_file_name, path_file_name, reads_alike};
use crate::text::{
    after_first, before_first, char_list, decimal, decimal_text, is_blank, joined, joined3,
    position, position_is_first, text_after, text_before, text_of, text_option, trimmed,
    trimmed_end, trimmed_start, trimming_stops_inside,
};

verus! {

broadcast use vstd::seq_lib::group_seq_properties;

/// The label of a [`FfiPathPolicy`].
pub open spec fn policy_label(value: FfiPathPolicy) -> Seq<char> {
    match value {
        FfiPathPolicy::Auto => "auto"@,
        FfiPathPolicy::RelayOnly => "relay-only"@,
        FfiPathPolicy::DirectOnly => "direct-only"@,
    }
}

/// Label of a path policy.
pub fn path_policy_label(value: FfiPathPolicy) -> (r: &'static str)
    ensures
        r@ == policy_label(value),
{
    match value {
        FfiPathPolicy::Auto => "auto",
        FfiPathPolicy::RelayOnly => "relay-only",
        FfiPathPolicy::DirectOnly => "direct-only",
    }
}

/// The label of a [`FfiTransferDirection`].
pub open spec fn direction_label(value: FfiTransferDirection) -> Seq<char> {
    match value {
        FfiTransferDirection::Send => "send"@,
        FfiTransferDirection::Receive => "receive"@,
        FfiTransferDirection::Unknown => "unknown"@,
    }
}

/// Label of a direction.
pub fn transfer_direction_label(value: FfiTransferDirection) -> (r: &'static str)
    ensures
        r@ == direction_label(value),
{
    match value {
        FfiTransferDirection::Send => "send",
        FfiTransferDirection::Receive => "receive",
        FfiTransferDirection::Unknown => "unknown",
    }
}

/// The label of a [`FfiTransferMode`].
pub open spec fn mode_label(value: FfiTransferMode) -> Seq<char> {
    match value {
        FfiTransferMode::Manual => "manual"@,
        FfiTransferMode::Invite => "invite"@,
        FfiTransferMode::ShowManual => "show-manual"@,
        FfiTransferMode::ShowInvite => "show-invite"@,
        FfiTransferMode::Mdns => "mDNS"@,
        FfiTransferMode::Room => "room"@,
        FfiTransferMode::Unknown => "unknown"@,
    }
}

/// Label of a mode.
pub fn transfer_mode_label(value: FfiTransferMode) -> (r: &'static str)
    ensures
        r@ == mode_label(value),
{
    match value {
        FfiTransferMode::Manual => "manual",
        FfiTransferMode::Invite => "invite",
        FfiTransferMode::ShowManual => "show-manual",
        FfiTransferMode::ShowInvite => "show-invite",
        FfiTransferMode::Mdns => "mDNS",
        FfiTransferMode::Room => "room",
        FfiTransferMode::Unknown => "unknown",
    }
}

/// The label of a [`PairingStep`].
pub open spec fn step_label(value: PairingStep) -> Seq<char> {
    match value {
        PairingStep::Joining => "joining room"@,
        PairingStep::Matched => "peer matched"@,
        PairingStep::Exchanged => "keys exchanged"@,
    }
}

/// Label of a pairing step.
pub fn pairing_step_label(value: PairingStep) -> (r: &'static str)
    ensures
        r@ == step_label(value),
{
    match value {
        PairingStep::Joining => "joining room",
        PairingStep::Matched => "peer matched",
        PairingStep::Exchanged => "keys exchanged",
    }
}

/// The label of a [`TransferDirection`].
pub open spec fn engine_direction_name_of(value: TransferDirection) -> Seq<char> {
    match value {
        TransferDirection::Send => "Send"@,
        TransferDirection::Receive => "Receive"@,
    }
}

/// The variant name of an engine direction.
pub fn engine_direction_name(value: TransferDirection) -> (r: &'static str)
    ensures
        r@ == engine_direction_name_of(value),
{
    match value {
        TransferDirection::Send => "Send",
        TransferDirection::Receive => "Receive",
    }
}

/// The label of a [`TransferMode`].
pub open spec fn engine_mode_name_of(value: TransferMode) -> Seq<char> {
    match value {
        TransferMode::Manual => "Manual"@,
        TransferMode::Invite => "Invite"@,
        TransferMode::ShowManual => "ShowManual"@,
        TransferMode::ShowInvite => "ShowInvite"@,
        TransferMode::Mdns => "Mdns"@,
        TransferMode::Room => "Room"@,
    }
}

/// The variant name of an engine mode.
pub fn engine_mode_name(value: TransferMode) -> (r: &'static str)
    ensures
        r@ == engine_mode_name_of(value),
{
    match value {
        TransferMode::Manual => "Manual",
        TransferMode::Invite => "Invite",
        TransferMode::ShowManual => "ShowManual",
        TransferMode::ShowInvite => "ShowInvite",
        TransferMode::Mdns => "Mdns",
        TransferMode::Room => "Room",
    }
}

/// Whether a token was given or is made up by the engine.
pub open spec fn token_label(token: Option<Seq<char>>) -> Seq<char> {
    match token {
        Some(text) if !is_blank(text) => "set"@,
        _ => "generated"@,
    }
}

/// Says whether a token was given, never what it is.
pub fn token_state(token: Option<&str>) -> (r: &'static str)
    ensures
        r@ == token_label(
            match token {
                Some(text) => Some(text@),
                None => None,
            },
        ),
{
    match token {
        Some(text) => if !text.trim().is_empty() {
            "set"
        } else {
            "generated"
        },
        None => "generated",
    }
}

fn token_state_of(token: &Option<String>) -> (r: &'static str)
    ensures
        r@ == token_label(text_option(*token)),
{
    match token {
        Some(text) => token_state(Some(text.as_str())),
        None => token_state(None),
    }
}

/// The public room number of a code: what stands before its first dash.
pub fn code_room(code: &str) -> (r: String)
    ensures
        r@ == before_first(code@, '-'),
{
    text_before(code, '-')
}

/// The public room number of a code that may be blank.
pub open spec fn room_of(code: Seq<char>) -> Option<Seq<char>> {
    if is_blank(code) {
        None
    } else {
        Some(before_first(trimmed(code), '-'))
    }
}

/// The public room number of a code that may be blank.
pub fn optional_code_room(code: &str) -> (r: Option<String>)
    ensures
        text_option(r) == room_of(code@),
{
    let code = code.trim();
    if code.is_empty() {
        None
    } else {
        Some(code_room(code))
    }
}

/// The address part of a broker: what follows its identity, or all of it.
pub open spec fn broker_address(broker: Seq<char>) -> Seq<char> {
    match after_first(broker, '@') {
        Some(address) => address,
        None => broker,
    }
}

/// The address part of a broker.
pub fn broker_label(broker: &str) -> (r: String)
    ensures
        r@ == broker_address(broker@),
{
    match text_after(broker, '@') {
        Some(address) => address,
        None => broker.to_owned(),
    }
}

/// The broker of a request as status lines show it.
pub open spec fn effective_broker(settings: SettingsView, request: RequestView) -> Seq<char> {
    match first_given(request.broker, settings.server_url) {
        Some(broker) => broker_address(broker),
        None => "default"@,
    }
}

/// The broker of a request as status lines show it.
pub fn effective_broker_label(settings: &EnvoixRuntimeSettings, request: &FfiTransferRequest) -> (r: String)
    ensures
        r@ == effective_broker(settings@, request@),
{
    match first_given_value(request.broker.as_str(), settings.server_url.as_str()) {
        Some(broker) => broker_label(broker.as_str()),
        None => "default".to_owned(),
    }
}

/// The relay of a request as status lines show it.
pub open spec fn effective_relay(settings: SettingsView, request: RequestView) -> Seq<char> {
    match first_given(request.relay, settings.relay_url) {
        Some(relay) => relay,
        None => if is_blank(request.broker) && is_blank(settings.server_url) {
            "default"@
        } else {
            "none"@
        },
    }
}

/// The relay of a request as status lines show it.
pub fn effective_relay_label(settings: &EnvoixRuntimeSettings, request: &FfiTransferRequest) -> (r: String)
    ensures
        r@ == effective_relay(settings@, request@),
{
    match first_given_value(request.relay.as_str(), settings.relay_url.as_str()) {
        Some(relay) => relay,
        None => if request.broker.as_str().trim().is_empty()
            && settings.server_url.as_str().trim().is_empty() {
            "default".to_owned()
        } else {
            "none".to_owned()
        },
    }
}

/// The label of a path by its name.
pub open spec fn named_label(prefix: Seq<char>, name: Option<Seq<char>>) -> Seq<char> {
    prefix + match name {
        Some(text) => text,
        None => "<none>"@,
    }
}

/// What the label of a path can be: the prefix and the last component of the
/// trimmed path, or `<none>` where it has none.
pub open spec fn is_path_label(prefix: Seq<char>, path: Seq<char>, label: Seq<char>) -> bool {
    exists|name: Option<Seq<char>>| #[trigger]
        is_file_name(trimmed(path), name) && label == named_label(prefix, name)
}

fn path_label(prefix: &str, path: &str) -> (r: String)
    ensures
        is_path_label(prefix@, path@, r@),
        is_blank(path@) ==> r@ == prefix@ + "<none>"@,
{
    let name = path_file_name(path.trim());
    assert(is_file_name(trimmed(path@), text_option(name)));
    match name {
        Some(text) => joined(prefix, text.as_str()),
        None => joined(prefix, "<none>"),
    }
}

/// Label of a file to send: its name, never its directory.
pub fn file_label(path: &str) -> (r: String)
    ensures
        is_path_label("file="@, path@, r@),
        is_blank(path@) ==> r@ == "file="@ + "<none>"@,
{
    path_label("file=", path)
}

/// Label of an output directory: its name, never its parents.
pub fn dir_label(path: &str) -> (r: String)
    ensures
        is_path_label("output_dir="@, path@, r@),
        is_blank(path@) ==> r@ == "output_dir="@ + "<none>"@,
{
    path_label("output_dir=", path)
}

/// The first characters of an endpoint id, twelve at most.
pub open spec fn short_id(endpoint_id: Seq<char>) -> Seq<char> {
    if endpoint_id.len() <= 12 {
        endpoint_id
    } else {
        endpoint_id.take(12)
    }
}

/// The first characters of an endpoint id, twelve at most.
pub fn short_endpoint_id(endpoint_id: &str) -> (r: String)
    ensures
        r@ == short_id(endpoint_id@),
{
    let chars = char_list(endpoint_id);
    let end: usize = if chars.len() < 12 {
        chars.len()
    } else {
        12
    };
    let r = text_of(&chars, 0, end);
    assert(r@ =~= short_id(endpoint_id@));
    r
}

/// Description of an invite: sizes and a short endpoint id only.
pub open spec fn invite_description(invite: Seq<char>, payload: Option<QrInviteView>) -> Seq<char> {
    let head = "source=invite len="@ + decimal(encode_utf8(invite).len() as usize as nat);
    match payload {
        None => head + " parse=failed"@,
        Some(payload) => head + " endpoint="@ + short_id(payload.peer.endpoint_id) + " direct="@
            + decimal(payload.peer.direct_addrs.len()) + " relay="@ + decimal(
            payload.relay_urls.len(),
        ),
    }
}

/// Describes an invite, given how it decodes.
pub fn invite_source_debug(invite: &str, payload: &Option<QrInvitePayload>) -> (r: String)
    ensures
        r@ == invite_description(
            invite@,
            match *payload {
                Some(payload) => Some(payload@),
                None => None,
            },
        ),
{
    let head = joined("source=invite len=", decimal_text(invite.len() as u64).as_str());
    match payload {
        None => head.concat(" parse=failed"),
        Some(payload) => head.concat(" endpoint=").concat(
            short_endpoint_id(payload.peer.endpoint_id.as_str()).as_str(),
        ).concat(" direct=").concat(
            decimal_text(payload.peer.direct_addrs.len() as u64).as_str(),
        ).concat(" relay=").concat(decimal_text(payload.relay_urls.len() as u64).as_str()),
    }
}

/// Description of an advertised endpoint.
pub open spec fn advertised_description(
    peer: PeerDescriptorView,
    payload: Option<QrInviteView>,
) -> Seq<char> {
    "advertised endpoint="@ + short_id(peer.endpoint_id) + " direct="@ + decimal(
        peer.direct_addrs.len(),
    ) + " relay="@ + decimal(
        match payload {
            Some(payload) => payload.relay_urls.len(),
            None => 0,
        },
    )
}

/// Describes an advertised endpoint, given how its invite decodes.
pub fn advertised_endpoint_debug(peer: &PeerDescriptor, payload: &Option<QrInvitePayload>) -> (r: String)
    ensures
        r@ == advertised_description(
            peer@,
            match *payload {
                Some(payload) => Some(payload@),
                None => None,
            },
        ),
{
    let relays: u64 = match payload {
        Some(payload) => payload.relay_urls.len() as u64,
        None => 0,
    };
    joined(
        "advertised endpoint=",
        short_endpoint_id(peer.endpoint_id.as_str()).as_str(),
    ).concat(" direct=").concat(decimal_text(peer.direct_addrs.len() as u64).as_str()).concat(
        " relay=",
    ).concat(decimal_text(relays).as_str())
}

/// What the description of a source is: it tells rooms, brokers and sizes, but
/// no invite and no part of a room code behind its first dash. Of a token it
/// tells whether there is one; one for the local network can be a room code and
/// is told up to its first dash.
pub open spec fn is_source_description(
    source: PeerSource,
    payload: Option<QrInviteView>,
    text: Seq<char>,
) -> bool {
    match source {
        PeerSource::Manual { .. } => text == "source=manual"@,
        PeerSource::Invite { invite } => text == invite_description(invite@, payload),
        PeerSource::ShowManual { token } => text == "source=show-manual token="@ + token_label(
            text_option(token),
        ),
        PeerSource::ShowInvite { ttl_secs, token } => text == "source=show-invite ttl="@ + decimal(
            ttl_secs as nat,
        ) + "s token="@ + token_label(text_option(token)),
        PeerSource::Mdns { token } => text == "source=mdns token="@ + match token {
            Some(code) => match room_of(code@) {
                Some(room) => room,
                None => token_label(Some(code@)),
            },
            None => token_label(None),
        },
        PeerSource::Room { code, broker } => text == "source=room room="@ + before_first(
            code@,
            '-',
        ) + " broker="@ + broker_address(broker@),
    }
}

/// Describes a source, given how its invite decodes.
pub fn peer_source_debug(source: &PeerSource, payload: &Option<QrInvitePayload>) -> (r: String)
    ensures
        is_source_description(
            *source,
            match *payload {
                Some(payload) => Some(payload@),
                None => None,
            },
            r@,
        ),
{
    match source {
        PeerSource::Manual { .. } => "source=manual".to_owned(),
        PeerSource::Invite { invite } => invite_source_debug(invite.as_str(), payload),
        PeerSource::ShowManual { token } => joined(
            "source=show-manual token=",
            token_state_of(token),
        ),
        PeerSource::ShowInvite { ttl_secs, token } => joined3(
            "source=show-invite ttl=",
            decimal_text(*ttl_secs).as_str(),
            "s token=",
        ).concat(token_state_of(token)),
        PeerSource::Mdns { token } => match token {
            Some(code) => match optional_code_room(code.as_str()) {
                Some(room) => joined("source=mdns token=", room.as_str()),
                None => joined("source=mdns token=", token_state_of(token)),
            },
            None => joined("source=mdns token=", token_state_of(token)),
        },
        PeerSource::Room { code, broker } => joined3(
            "source=room room=",
            code_room(code.as_str()).as_str(),
            " broker=",
        ).concat(broker_label(broker.as_str()).as_str()),
    }
}

/// The path policy of an attempt as status lines show it.
pub open spec fn override_label(path_policy_override: Option<FfiPathPolicy>) -> Seq<char> {
    match path_policy_override {
        Some(policy) => " path="@ + policy_label(policy),
        None => Seq::empty(),
    }
}

/// Describes attempt `index` of `count`, given how its invite decodes.
pub fn attempt_debug_summary(
    index: usize,
    count: usize,
    attempt: &TransferAttemptSource,
    payload: &Option<QrInvitePayload>,
) -> (r: String)
    requires
        index < usize::MAX,
    ensures
        exists|source: Seq<char>|
            is_source_description(
                attempt.source,
                match *payload {
                    Some(payload) => Some(payload@),
                    None => None,
                },
                source,
            ) && r@ == #[trigger] attempt_line(
                (index + 1) as nat,
                count as nat,
                attempt.mode,
                attempt.path_policy_override,
                source,
            ),
{
    let path = match attempt.path_policy_override {
        Some(policy) => joined(" path=", path_policy_label(policy)),
        None => String::new(),
    };
    let source = peer_source_debug(&attempt.source, payload);
    let head = joined3(
        "attempt ",
        decimal_text((index + 1) as u64).as_str(),
        "/",
    ).concat(decimal_text(count as u64).as_str());
    let r = head.concat(" via ").concat(transfer_mode_label(attempt.mode)).concat(
        path.as_str(),
    ).concat(" ").concat(source.as_str());
    assert(r@ == attempt_line(
        (index + 1) as nat,
        count as nat,
        attempt.mode,
        attempt.path_policy_override,
        source@,
    ));
    r
}

/// The status line of one attempt.
pub open spec fn attempt_line(
    number: nat,
    count: nat,
    mode: FfiTransferMode,
    path_policy_override: Option<FfiPathPolicy>,
    source: Seq<char>,
) -> Seq<char> {
    "attempt "@ + decimal(number) + "/"@ + decimal(count) + " via "@ + mode_label(mode)
        + override_label(path_policy_override) + " "@ + source
}

/// The modes of the attempts, in order, as one text.
pub open spec fn route_list(attempts: Seq<AttemptView>) -> Seq<char>
    decreases attempts.len(),
{
    if attempts.len() == 0 {
        Seq::empty()
    } else if attempts.len() == 1 {
        mode_label(attempts[0].mode)
    } else {
        route_list(attempts.drop_last()) + " -> "@ + mode_label(attempts.last().mode)
    }
}

fn routes_text(attempts: &Vec<TransferAttemptSource>) -> (r: String)
    ensures
        r@ == route_list(attempt_views(attempts@)),
{
    let mut text = String::new();
    let mut i: usize = 0;
    let ghost all = attempt_views(attempts@);
    assert(all.take(0) =~= Seq::empty());
    while i < attempts.len()
        invariant
            i <= attempts@.len(),
            all == attempt_views(attempts@),
            text@ == route_list(all.take(i as int)),
        decreases attempts@.len() - i,
    {
        let label = transfer_mode_label(attempts[i].mode);
        let ghost next = all.take(i + 1);
        assert(next.drop_last() =~= all.take(i as int));
        assert(next.last() == attempts@[i as int]@);
        if i == 0 {
            text = label.to_owned();
        } else {
            text = text.concat(" -> ").concat(label);
        }
        i += 1;
    }
    assert(all.take(i as int) =~= all);
    text
}

/// The room of a request as status lines show it.
pub open spec fn room_label(code: Seq<char>) -> Seq<char> {
    match room_of(code) {
        Some(room) => " room="@ + room,
        None => Seq::empty(),
    }
}

/// The status line of a request, given the label of its path.
pub open spec fn request_line(
    settings: SettingsView,
    request: RequestView,
    attempts: Seq<AttemptView>,
    path: Seq<char>,
) -> Seq<char> {
    "request direction="@ + direction_label(request.direction) + " mode="@ + mode_label(
        request.mode,
    ) + room_label(request.code) + " routes=["@ + route_list(attempts) + "] "@ + path + " broker="@
        + effective_broker(settings, request) + " relay="@ + effective_relay(settings, request)
        + " internet="@ + (if request.rendezvous.internet_available {
        "true"@
    } else {
        "false"@
    })
}

/// What the label of the path of a request can be.
pub open spec fn is_request_path_label(request: RequestView, label: Seq<char>) -> bool {
    match request.direction {
        FfiTransferDirection::Send => is_path_label("file="@, request.file_path, label),
        FfiTransferDirection::Receive => is_path_label("output_dir="@, request.output_dir, label),
        FfiTransferDirection::Unknown => label == "path=<unknown>"@,
    }
}

/// Describes a request and its routes without telling any secret, given the
/// label of its path.
pub fn labelled_request_summary(
    settings: &EnvoixRuntimeSettings,
    request: &FfiTransferRequest,
    attempts: &Vec<TransferAttemptSource>,
    path: &str,
) -> (r: String)
    ensures
        r@ == request_line(settings@, request@, attempt_views(attempts@), path@),
{
    let room = match optional_code_room(request.code.as_str()) {
        Some(room) => joined(" room=", room.as_str()),
        None => String::new(),
    };
    let routes = routes_text(attempts);
    let broker = effective_broker_label(settings, request);
    let relay = effective_relay_label(settings, request);
    let head = joined3(
        "request direction=",
        transfer_direction_label(request.direction),
        " mode=",
    ).concat(transfer_mode_label(request.mode)).concat(room.as_str());
    head.concat(" routes=[").concat(routes.as_str()).concat("] ").concat(path).concat(
        " broker=",
    ).concat(broker.as_str()).concat(" relay=").concat(relay.as_str()).concat(
        " internet=",
    ).concat(
        if request.rendezvous.internet_available {
            "true"
        } else {
            "false"
        },
    )
}

/// The label of the path of a request.
pub fn request_path_label(request: &FfiTransferRequest) -> (r: String)
    ensures
        is_request_path_label(request@, r@),
{
    match request.direction {
        FfiTransferDirection::Send => file_label(request.file_path.as_str()),
        FfiTransferDirection::Receive => dir_label(request.output_dir.as_str()),
        FfiTransferDirection::Unknown => "path=<unknown>".to_owned(),
    }
}

/// What the description of a request can be: its line for a label of its path.
pub open spec fn is_request_summary(
    settings: SettingsView,
    request: RequestView,
    attempts: Seq<AttemptView>,
    line: Seq<char>,
) -> bool {
    exists|path: Seq<char>|
        is_request_path_label(request, path) && line == #[trigger] request_line(
            settings,
            request,
            attempts,
            path,
        )
}

/// Describes a request and its routes without telling any secret.
pub fn request_debug_summary(
    settings: &EnvoixRuntimeSettings,
    request: &FfiTransferRequest,
    attempts: &Vec<TransferAttemptSource>,
) -> (r: String)
    ensures
        is_request_summary(settings@, request@, attempt_views(attempts@), r@),
{
    let path = request_path_label(request);
    labelled_request_summary(settings, request, attempts, path.as_str())
}

/// Whether two sources differ in nothing but what their descriptions hide: the
/// peer and the token of a manual one, the token of a shown one where both have
/// one or both have none, and what follows the room of a code.
pub open spec fn differ_in_secrets(a: PeerSource, b: PeerSource) -> bool {
    match (a, b) {
        (PeerSource::Manual { .. }, PeerSource::Manual { .. }) => true,
        (PeerSource::ShowManual { token: x }, PeerSource::ShowManual { token: y }) => token_label(
            text_option(x),
        ) == token_label(text_option(y)),
        (
            PeerSource::ShowInvite { ttl_secs: s, token: x },
            PeerSource::ShowInvite { ttl_secs: t, token: y },
        ) => s == t && token_label(text_option(x)) == token_label(text_option(y)),
        (PeerSource::Mdns { token: Some(x) }, PeerSource::Mdns { token: Some(y) }) => room_of(x@)
            == room_of(y@),
        (
            PeerSource::Room { code: x, broker: m },
            PeerSource::Room { code: y, broker: n },
        ) => before_first(x@, '-') == before_first(y@, '-') && m@ == n@,
        _ => false,
    }
}

/// Sources that differ in nothing but their secrets are described alike.
pub proof fn source_descriptions_hide_tokens(
    a: PeerSource,
    b: PeerSource,
    payload: Option<QrInviteView>,
    s: Seq<char>,
    t: Seq<char>,
)
    requires
        differ_in_secrets(a, b),
        is_source_description(a, payload, s),
        is_source_description(b, payload, t),
    ensures
        s == t,
{
}

proof fn first_dash(head: Seq<char>, tail: Seq<char>)
    requires
        !head.contains('-'),
    ensures
        before_first(head + seq!['-'] + tail, '-') == head,
{
    let whole = head + seq!['-'] + tail;
    position_is_first(whole, '-');
    let at = position(whole, '-') as int;
    assert(whole[head.len() as int] == '-');
    if at < head.len() {
        assert(head[at] == '-');
    }
    assert(whole.take(at) =~= head);
}

/// The room of a code with a dash does not depend on what follows the dash.
proof fn rooms_end_at_the_dash(code: Seq<char>)
    requires
        code.contains('-'),
    ensures
        room_of(code) == Some(trimmed_start(before_first(code, '-'))),
{
    position_is_first(code, '-');
    let at = position(code, '-') as int;
    let i = choose|i: int| 0 <= i < code.len() && code[i] == '-';
    let head = code.take(at);
    let tail = code.skip(at + 1);
    assert(code =~= head + seq!['-'] + tail);
    assert(!head.contains('-'));
    trimming_stops_inside(head, '-', tail);
    first_dash(trimmed_start(head), trimmed_end(tail));
}

/// Whether two requests differ in nothing but their token, their invite, their
/// descriptor and what follows the first dash of their code.
pub open spec fn differ_in_pairing_secrets(a: RequestView, b: RequestView) -> bool {
    &&& b == (RequestView {
        token: b.token,
        invite: b.invite,
        peer_descriptor: b.peer_descriptor,
        code: b.code,
        ..a
    })
    &&& a.code.contains('-')
    &&& b.code.contains('-')
    &&& before_first(a.code, '-') == before_first(b.code, '-')
}

/// The status line of a request tells its room number but no pairing secret:
/// requests that differ in nothing but their pairing secrets have the same line
/// for a label of their path, and the same labels.
pub proof fn request_lines_hide_secrets(
    settings: SettingsView,
    a: RequestView,
    b: RequestView,
    attempts: Seq<AttemptView>,
    path: Seq<char>,
)
    requires
        differ_in_pairing_secrets(a, b),
    ensures
        is_request_path_label(a, path) == is_request_path_label(b, path),
        request_line(settings, a, attempts, path) == request_line(settings, b, attempts, path),
{
    rooms_end_at_the_dash(a.code);
    rooms_end_at_the_dash(b.code);
}

/// Whether every platform gives the path of a request the same label.
pub open spec fn has_one_label(request: RequestView) -> bool {
    match request.direction {
        FfiTransferDirection::Send => reads_alike(trimmed(request.file_path)),
        FfiTransferDirection::Receive => reads_alike(trimmed(request.output_dir)),
        FfiTransferDirection::Unknown => true,
    }
}

/// Requests that differ in nothing but their pairing secrets are described by
/// one and the same line, wherever every platform gives their path one label.
pub proof fn request_summaries_hide_secrets(
    settings: SettingsView,
    a: RequestView,
    b: RequestView,
    attempts: Seq<AttemptView>,
    s: Seq<char>,
    t: Seq<char>,
)
    requires
        differ_in_pairing_secrets(a, b),
        has_one_label(a),
        is_request_summary(settings, a, attempts, s),
        is_request_summary(settings, b, attempts, t),
    ensures
        s == t,
{
    let x = choose|path: Seq<char>|
        is_request_path_label(a, path) && s == #[trigger] request_line(settings, a, attempts, path);
    let y = choose|path: Seq<char>|
        is_request_path_label(b, path) && t == #[trigger] request_line(settings, b, attempts, path);
    assert(x == y);
    request_lines_hide_secrets(settings, a, b, attempts, x);
}

/// Each policy, direction, mode and step has its own label.
pub proof fn labels_name_their_values(
    policy: FfiPathPolicy,
    direction: FfiTransferDirection,
    mode: FfiTransferMode,
    step: PairingStep,
    engine_direction: TransferDirection,
    engine_mode: TransferMode,
)
    ensures
        policy is Auto ==> policy_label(policy) == "auto"@,
        policy is RelayOnly ==> policy_label(policy) == "relay-only"@,
        policy is DirectOnly ==> policy_label(policy) == "direct-only"@,
        direction is Send ==> direction_label(direction) == "send"@,
        direction is Receive ==> direction_label(direction) == "receive"@,
        direction is Unknown ==> direction_label(direction) == "unknown"@,
        mode is Manual ==> mode_label(mode) == "manual"@,
        mode is Invite ==> mode_label(mode) == "invite"@,
        mode is ShowManual ==> mode_label(mode) == "show-manual"@,
        mode is ShowInvite ==> mode_label(mode) == "show-invite"@,
        mode is Mdns ==> mode_label(mode) == "mDNS"@,
        mode is Room ==> mode_label(mode) == "room"@,
        mode is Unknown ==> mode_label(mode) == "unknown"@,
        step is Joining ==> step_label(step) == "joining room"@,
        step is Matched ==> step_label(step) == "peer matched"@,
        step is Exchanged ==> step_label(step) == "keys exchanged"@,
        engine_direction is Send ==> engine_direction_name_of(engine_direction) == "Send"@,
        engine_direction is Receive ==> engine_direction_name_of(engine_direction) == "Receive"@,
        engine_mode is Manual ==> engine_mode_name_of(engine_mode) == "Manual"@,
        engine_mode is Invite ==> engine_mode_name_of(engine_mode) == "Invite"@,
        engine_mode is ShowManual ==> engine_mode_name_of(engine_mode) == "ShowManual"@,
        engine_mode is ShowInvite ==> engine_mode_name_of(engine_mode) == "ShowInvite"@,
        engine_mode is Mdns ==> engine_mode_name_of(engine_mode) == "Mdns"@,
        engine_mode is Room ==> engine_mode_name_of(engine_mode) == "Room"@,
{
}

/// A line names a token only by whether there is one.
pub proof fn tokens_are_named_by_their_presence(token: Option<Seq<char>>)
    ensures
        token is Some && !is_blank(token->0) ==> token_label(token) == "set"@,
        token is None || is_blank(token->0) ==> token_label(token) == "generated"@,
{
}

/// A room is named by the public part of its code, and a broker without the
/// account in front of its address.
pub proof fn rooms_and_brokers_are_named_in_public(
    code: Seq<char>,
    account: Seq<char>,
    address: Seq<char>,
)
    requires
        !account.contains('@'),
    ensures
        is_blank(code) <==> room_of(code) is None,
        room_of(code) matches Some(room) ==> room == before_first(trimmed(code), '-'),
        broker_address(account) == account,
        broker_address(account + seq!['@'] + address) == address,
        room_of(code) is None ==> room_label(code).len() == 0,
        room_of(code) matches Some(room) ==> room_label(code) == " room="@ + room,
{
    let broker = account + seq!['@'] + address;
    position_is_first(account, '@');
    position_is_first(broker, '@');
    assert(broker[account.len() as int] == '@');
    if position(broker, '@') < account.len() {
        assert(broker[position(broker, '@') as int] == account[position(broker, '@') as int]);
    }
    assert(broker.skip(account.len() as int + 1) =~= address);
}

/// A line names the servers that a request uses: its own first, then the
/// session's, then the hosted ones by the word for them.
pub proof fn lines_name_the_used_servers(settings: SettingsView, request: RequestView)
    ensures
        !is_blank(request.broker) ==> effective_broker(settings, request) == broker_address(
            trimmed(request.broker),
        ),
        is_blank(request.broker) && !is_blank(settings.server_url) ==> effective_broker(
            settings,
            request,
        ) == broker_address(trimmed(settings.server_url)),
        is_blank(request.broker) && is_blank(settings.server_url) ==> effective_broker(
            settings,
            request,
        ) == "default"@,
        !is_blank(request.relay) ==> effective_relay(settings, request) == trimmed(request.relay),
        is_blank(request.relay) && !is_blank(settings.relay_url) ==> effective_relay(
            settings,
            request,
        ) == trimmed(settings.relay_url),
        is_blank(request.relay) && is_blank(settings.relay_url) && is_blank(request.broker)
            && is_blank(settings.server_url) ==> effective_relay(settings, request) == "default"@,
        is_blank(request.relay) && is_blank(settings.relay_url) && (!is_blank(request.broker)
            || !is_blank(settings.server_url)) ==> effective_relay(settings, request) == "none"@,
{
}

/// An endpoint is named by the first twelve characters of its id at most.
pub proof fn endpoints_are_named_by_their_start(endpoint_id: Seq<char>)
    ensures
        short_id(endpoint_id).len() <= 12,
        short_id(endpoint_id).is_prefix_of(endpoint_id),
        endpoint_id.len() <= 12 ==> short_id(endpoint_id) == endpoint_id,
        endpoint_id.len() > 12 ==> short_id(endpoint_id).len() == 12,
{
}

/// The routes of a request are listed in their order.
pub proof fn routes_are_listed_in_order(attempts: Seq<AttemptView>, next: AttemptView)
    ensures
        attempts.len() == 0 ==> route_list(attempts.push(next)) == mode_label(next.mode),
        attempts.len() > 0 ==> route_list(attempts.push(next)) == route_list(attempts) + " -> "@
            + mode_label(next.mode),
        route_list(Seq::empty()).len() == 0,
{
    assert(attempts.push(next).drop_last() =~= attempts);
}

/// An attempt is announced by its number, its mode and its own policy where it has
/// one.
pub proof fn attempts_are_announced(
    number: nat,
    count: nat,
    mode: FfiTransferMode,
    policy: FfiPathPolicy,
    source: Seq<char>,
)
    ensures
        attempt_line(number, count, mode, None, source) == "attempt "@ + decimal(number) + "/"@
            + decimal(count) + " via "@ + mode_label(mode) + " "@ + source,
        attempt_line(number, count, mode, Some(policy), source) == "attempt "@ + decimal(number)
            + "/"@ + decimal(count) + " via "@ + mode_label(mode) + (" path="@ + policy_label(
            policy,
        )) + " "@ + source,
{
    assert(attempt_line(number, count, mode, None, source) =~= "attempt "@ + decimal(number)
        + "/"@ + decimal(count) + " via "@ + mode_label(mode) + " "@ + source);
}

/// An invite is described by its length and, where it decodes, by what is public of
/// it; an advertised peer likewise.
pub proof fn invites_are_described_in_public(
    invite: Seq<char>,
    payload: QrInviteView,
    peer: PeerDescriptorView,
)
    ensures
        invite_description(invite, None) == "source=invite len="@ + decimal(
            encode_utf8(invite).len() as usize as nat,
        ) + " parse=failed"@,
        invite_description(invite, Some(payload)) == "source=invite len="@ + decimal(
            encode_utf8(invite).len() as usize as nat,
        ) + " endpoint="@ + short_id(payload.peer.endpoint_id) + " direct="@ + decimal(
            payload.peer.direct_addrs.len(),
        ) + " relay="@ + decimal(payload.relay_urls.len()),
        advertised_description(peer, None) == "advertised endpoint="@ + short_id(peer.endpoint_id)
            + " direct="@ + decimal(peer.direct_addrs.len()) + " relay="@ + decimal(0),
        advertised_description(peer, Some(payload)) == "advertised endpoint="@ + short_id(
            peer.endpoint_id,
        ) + " direct="@ + decimal(peer.direct_addrs.len()) + " relay="@ + decimal(
            payload.relay_urls.len(),
        ),
{
}

/// A path is named by its last part, or by the word for none.
pub proof fn paths_are_named_by_their_last_part(prefix: Seq<char>, name: Seq<char>)
    ensures
        named_label(prefix, Some(name)) == prefix + name,
        named_label(prefix, None) == prefix + "<none>"@,
{
}

/// A line about a request names its direction and mode, its room, its routes, its
/// path, its servers, and whether there is internet.
pub proof fn request_lines_name_the_request(
    settings: SettingsView,
    request: RequestView,
    attempts: Seq<AttemptView>,
    path: Seq<char>,
)
    ensures
        request.rendezvous.internet_available ==> request_line(settings, request, attempts, path)
            == "request direction="@ + direction_label(request.direction) + " mode="@ + mode_label(
            request.mode,
        ) + room_label(request.code) + " routes=["@ + route_list(attempts) + "] "@ + path
            + " broker="@ + effective_broker(settings, request) + " relay="@ + effective_relay(
            settings,
            request,
        ) + " internet="@ + "true"@,
        !request.rendezvous.internet_available ==> request_line(settings, request, attempts, path)
            == "request direction="@ + direction_label(request.direction) + " mode="@ + mode_label(
            request.mode,
        ) + room_label(request.code) + " routes=["@ + route_list(attempts) + "] "@ + path
            + " broker="@ + effective_broker(settings, request) + " relay="@ + effective_relay(
            settings,
            request,
        ) + " internet="@ + "false"@,
{
}

/// A source is described by its kind and what is public of it.
pub proof fn sources_are_described_in_public(
    source: PeerSource,
    payload: Option<QrInviteView>,
    text: Seq<char>,
)
    requires
        is_source_description(source, payload, text),
    ensures
        source is Manual ==> text == "source=manual"@,
        source matches PeerSource::Invite { invite } ==> text == invite_description(
            invite@,
            payload,
        ),
        source matches PeerSource::ShowManual { token } ==> text == "source=show-manual token="@
            + token_label(text_option(token)),
        source matches PeerSource::ShowInvite { ttl_secs, token } ==> text
            == "source=show-invite ttl="@ + decimal(ttl_secs as nat) + "s token="@ + token_label(
            text_option(token),
        ),
        source matches PeerSource::Mdns { token: None } ==> text == "source=mdns token="@
            + "generated"@,
        source matches PeerSource::Mdns { token: Some(code) } ==> (!is_blank(code@) ==> text
            == "source=mdns token="@ + before_first(trimmed(code@), '-')),
        source matches PeerSource::Room { code, broker } ==> text == "source=room room="@
            + before_first(code@, '-') + " broker="@ + broker_address(broker@),
{
}

} // verus!
