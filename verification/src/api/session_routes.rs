//! Routes of a Manifest v2 session: how authentication advances, which
//! attempts are made in which order, when an attempt is the last one, and what
//! clients are told when none is left.
use vstd::prelude::*;
use vstd::string::*;

use crate::api::failures::{
    FailureVerdict, SessionCause, SessionCauseView, SessionError, SessionErrorView,
};
use crate::api::invitations::{
    build_client_for_request, first_given, op_err, op_error, options_of, transfer_options_for_request,
    OptionsView, PeerSource, RouteAttempt, RouteView, SourceView, TransferOptions,
};
use crate::api::job::{
    encode_job_id, unsealed_job, CanonicalTransferJob, FfiTransferJobV2, JobView,
};
use crate::api::session::{
    calls_view, clamp_u32, clamped_u32, completion_result, delivered_call_list, delivered_calls,
    directory_of, failure_report, invalid_session, invalid_session_input, is_failure_report,
    own_error, required_directory, SessionReport,
};
use crate::api::session_types::{
    CompletionView, FfiManifestV2Completion, JudgedError, ManifestV2, ManifestView, ObserverCall,
    ObserverCallView, RenderedError, SessionSummary,
};
use crate::api::types::{
    EnvoixError, EnvoixRuntimeSettings, ErrorView, FfiFailurePhase, FfiTransferDirection,
    FfiTransferRequest, RequestView, SettingsView,
};
use crate::hex::hex_of;
use crate::text::{is_blank, joined, text_option, text_seq, trimmed};
use crate::tokens::{is_link_char, link_text, random_token, TOKEN_BYTES, TOKEN_CHARS};

verus! {

broadcast use vstd::seq_lib::group_seq_properties;

/// A credential with the generation it is stored under.
#[derive(PartialEq, Eq)]
pub struct RememberedCredential {
    pub opaque: Vec<u8>,
    pub generation: u64,
}

/// What a [`RememberedCredential`] holds.
#[verifier::ext_equal]
pub struct CredentialView {
    pub opaque: Seq<u8>,
    pub generation: u64,
}

impl View for RememberedCredential {
    type V = CredentialView;

    open spec fn view(&self) -> CredentialView {
        CredentialView {
            opaque: self.opaque@,
            generation: self.generation,
        }
    }
}

impl Clone for RememberedCredential {
    fn clone(&self) -> (r: Self)
        ensures
            r@ == self@,
    {
        let r = RememberedCredential {
            opaque: self.opaque.clone(),
            generation: self.generation,
        };
        assert(r.opaque@ =~= self.opaque@);
        r
    }
}

/// State of an authentication.
#[verifier::ext_equal]
pub struct AuthenticationView {
    pub remember_consent: bool,
    pub rotation: Option<CredentialView>,
    pub has_invitation: bool,
    pub authenticated: bool,
    pub persisted: bool,
}

/// The authentication of one attempt.
pub struct NativeAuthentication {
    remember_consent: bool,
    rotation: Option<RememberedCredential>,
    has_invitation: bool,
    authenticated: bool,
    persisted: bool,
}

impl View for NativeAuthentication {
    type V = AuthenticationView;

    closed spec fn view(&self) -> AuthenticationView {
        AuthenticationView {
            remember_consent: self.remember_consent,
            rotation: match self.rotation {
                Some(credential) => Some(credential@),
                None => None,
            },
            has_invitation: self.has_invitation,
            authenticated: self.authenticated,
            persisted: self.persisted,
        }
    }
}

/// What a reached authentication asks for.
pub struct AuthenticationStep {
    /// Whether the one-time invitation is used up now.
    pub consume_invitation: bool,
    /// The credential to store, if there is one.
    pub credential: Option<RememberedCredential>,
}

/// The credential that a reached authentication leads to: a new one starts at
/// generation zero, else the one under rotation moves on.
pub open spec fn credential_to_store(state: AuthenticationView, secret: Option<Seq<u8>>) -> Option<
    CredentialView,
> {
    match secret {
        Some(opaque) => Some(CredentialView { opaque, generation: 0 }),
        None => state.rotation,
    }
}

/// The view of an optional credential.
pub open spec fn credential_view(credential: Option<RememberedCredential>) -> Option<CredentialView> {
    match credential {
        Some(credential) => Some(credential@),
        None => None,
    }
}

/// The view of optional bytes.
pub open spec fn bytes_option(bytes: Option<Vec<u8>>) -> Option<Seq<u8>> {
    match bytes {
        Some(bytes) => Some(bytes@),
        None => None,
    }
}

impl NativeAuthentication {
    /// An authentication through a one-time invitation.
    pub fn invitation(remember_consent: bool) -> (r: Self)
        ensures
            r@ == (AuthenticationView {
                remember_consent,
                rotation: None,
                has_invitation: true,
                authenticated: false,
                persisted: false,
            }),
    {
        NativeAuthentication {
            remember_consent,
            rotation: None,
            has_invitation: true,
            authenticated: false,
            persisted: false,
        }
    }

    /// An authentication through a remembered credential, which moves on to
    /// its next generation.
    pub fn rotation(opaque_credential: Vec<u8>, next_generation: u64) -> (r: Self)
        ensures
            r@ == (AuthenticationView {
                remember_consent: false,
                rotation: Some(
                    CredentialView { opaque: opaque_credential@, generation: next_generation },
                ),
                has_invitation: false,
                authenticated: false,
                persisted: false,
            }),
    {
        NativeAuthentication {
            remember_consent: false,
            rotation: Some(
                RememberedCredential { opaque: opaque_credential, generation: next_generation },
            ),
            has_invitation: false,
            authenticated: false,
            persisted: false,
        }
    }

    /// Whether the user agreed to remember the peer.
    pub fn remember_consent(&self) -> (r: bool)
        ensures
            r == self@.remember_consent,
    {
        self.remember_consent
    }

    /// Whether the peer is authenticated.
    pub fn authenticated(&self) -> (r: bool)
        ensures
            r == self@.authenticated,
    {
        self.authenticated
    }

    /// Whether a credential was stored.
    pub fn persisted(&self) -> (r: bool)
        ensures
            r == self@.persisted,
    {
        self.persisted
    }

    /// The peer is authenticated. This counts from here on, whatever comes of
    /// storing the credential.
    pub fn on_authenticated(&mut self, remember_secret: Option<Vec<u8>>) -> (r: AuthenticationStep)
        ensures
            final(self)@ == (AuthenticationView { authenticated: true, ..old(self)@ }),
            r.consume_invitation == old(self)@.has_invitation,
            credential_view(r.credential) == credential_to_store(
                old(self)@,
                bytes_option(remember_secret),
            ),
    {
        self.authenticated = true;
        let credential = match remember_secret {
            Some(opaque) => Some(RememberedCredential { opaque, generation: 0 }),
            None => match &self.rotation {
                Some(credential) => Some(credential.clone()),
                None => None,
            },
        };
        AuthenticationStep { consume_invitation: self.has_invitation, credential }
    }

    /// The credential was handed to the observer, which stored it or did not.
    pub fn on_credential_stored(&mut self, stored: bool) -> (r: Result<(), SessionError>)
        ensures
            final(self)@ == (AuthenticationView {
                persisted: old(self)@.persisted || stored,
                ..old(self)@
            }),
            match r {
                Ok(_) => stored,
                Err(error) => !stored && error@ == own_error(
                    SessionCauseView::Storage {
                        detail: "protected remembered credential could not be persisted"@,
                    },
                ),
            },
    {
        if stored {
            self.persisted = true;
            Ok(())
        } else {
            Err(
                SessionError {
                    cause: SessionCause::Storage {
                        detail: "protected remembered credential could not be persisted".to_owned(),
                    },
                    invitation_consumed: false,
                },
            )
        }
    }
}

/// Whether a plan is authenticated through a one-time invitation. Manual and
/// local plans authenticate by their token alone, and a remembered peer by a
/// rotation for each generation.
pub fn invitation_authentication(plan: &AttemptPlan, remember_consent: bool) -> (r: Option<
    NativeAuthentication,
>)
    ensures
        match r {
            Some(authentication) => plan@ is Invitation && authentication@ == (AuthenticationView {
                remember_consent,
                rotation: None,
                has_invitation: true,
                authenticated: false,
                persisted: false,
            }),
            None => !(plan@ is Invitation),
        },
{
    match plan {
        AttemptPlan::Invitation { .. } => Some(NativeAuthentication::invitation(remember_consent)),
        _ => None,
    }
}

/// An authentication stays reached when its credential cannot be stored, so
/// that no other generation is tried after it.
pub proof fn authentication_precedes_persistence(
    state: AuthenticationView,
    stored: bool,
    succeeded: bool,
    cancelled: bool,
)
    ensures
        ({
            let reached = AuthenticationView { authenticated: true, ..state };
            let after = AuthenticationView { persisted: reached.persisted || stored, ..reached };
            after.authenticated && stops_fallback(succeeded, after.authenticated, cancelled)
        }),
{
}

/// Whether an attempt ends the remembered fallback.
pub open spec fn stops_fallback(succeeded: bool, authenticated: bool, cancelled: bool) -> bool {
    succeeded || authenticated || cancelled
}

/// Whether an attempt ends the remembered fallback: it worked, the peer was
/// authenticated, or the user canceled.
pub fn should_stop_remembered_fallback(
    succeeded: bool,
    authentication: &NativeAuthentication,
    cancelled: bool,
) -> (r: bool)
    ensures
        r == stops_fallback(succeeded, authentication@.authenticated, cancelled),
{
    succeeded || authentication.authenticated() || cancelled
}

/// Whether a one-time invitation is used up after an attempt.
pub fn should_consume_invitation(succeeded: bool, authentication: &NativeAuthentication) -> (r: bool)
    ensures
        r == (succeeded || authentication@.authenticated),
{
    succeeded || authentication.authenticated()
}

/// The generations that a sender tries.
pub open spec fn send_generations_of(generation: u64, previous: Option<u64>) -> Seq<u64> {
    match previous {
        Some(previous) => seq![generation, generation, previous],
        None => seq![generation, generation],
    }
}

/// The generations that a sender tries, in their order: it keeps joining the
/// receiver's fallback window before it tries its own previous generation.
pub fn send_generations(generation: u64, previous: Option<u64>) -> (r: Vec<u64>)
    ensures
        r@ == send_generations_of(generation, previous),
{
    let mut generations: Vec<u64> = Vec::new();
    generations.push(generation);
    generations.push(generation);
    if let Some(previous) = previous {
        generations.push(previous);
    }
    assert(generations@ =~= send_generations_of(generation, previous));
    generations
}

/// The generations that a receiver tries.
pub open spec fn receive_generations_of(generation: u64, previous: Option<u64>) -> Seq<u64> {
    match previous {
        Some(previous) => seq![generation, previous, generation],
        None => seq![generation],
    }
}

/// The generations that a receiver tries, in their order: offset against the
/// sender's, so that either side of a crash by one generation can meet.
pub fn receive_generations(generation: u64, previous: Option<u64>) -> (r: Vec<u64>)
    ensures
        r@ == receive_generations_of(generation, previous),
{
    let mut generations: Vec<u64> = Vec::new();
    generations.push(generation);
    if let Some(previous) = previous {
        generations.push(previous);
        generations.push(generation);
    }
    assert(generations@ =~= receive_generations_of(generation, previous));
    generations
}

/// Peers that a crash left one generation apart still meet: where one side's
/// generation is the other side's previous one, or both stand at the same one,
/// there is a generation that both try. A receiver that knows a previous
/// generation tries it in the same turn as the sender; one that knows none
/// waits under its only generation.
pub proof fn crashed_peers_share_a_generation(
    sender: u64,
    sender_previous: Option<u64>,
    receiver: u64,
    receiver_previous: Option<u64>,
) -> (turn: int)
    requires
        sender == receiver || sender_previous == Some(receiver) || receiver_previous == Some(
            sender,
        ),
    ensures
        ({
            let sent = send_generations_of(sender, sender_previous);
            let received = receive_generations_of(receiver, receiver_previous);
            &&& 0 <= turn < sent.len()
            &&& if receiver_previous is Some {
                turn < received.len() && received[turn] == sent[turn]
            } else {
                received == seq![sent[turn]]
            }
        }),
{
    let received = receive_generations_of(receiver, receiver_previous);
    assert(receiver_previous is None ==> received =~= seq![receiver]);
    if sender == receiver {
        0
    } else if sender_previous == Some(receiver) {
        2
    } else {
        1
    }
}

/// How long a receiver waits for the peer under a generation that is not the
/// last, in seconds.
pub const GENERATION_WAIT_SECONDS: u64 = 35;

/// State of a remembered fallback.
#[verifier::ext_equal]
pub struct FallbackView {
    pub generations: Seq<u64>,
    pub next: nat,
    pub last_error: Option<SessionErrorView>,
}

/// The remembered fallback of one attempt.
pub struct RememberedFallback {
    generations: Vec<u64>,
    next: usize,
    last_error: Option<SessionError>,
}

impl View for RememberedFallback {
    type V = FallbackView;

    closed spec fn view(&self) -> FallbackView {
        FallbackView {
            generations: self.generations@,
            next: self.next as nat,
            last_error: match self.last_error {
                Some(error) => Some(error@),
                None => None,
            },
        }
    }
}

/// What a remembered fallback does next.
pub enum FallbackStep {
    /// Try a generation; success moves the credential on to the next one.
    /// `limited` tells whether a receiver waits only a while.
    Try { generation: u64, next_generation: u64, limited: bool },
    /// Nothing is left to try.
    Fail(SessionError),
}

impl FallbackView {
    /// Whether the fallback is in order.
    pub open spec fn wf(self) -> bool {
        self.next <= self.generations.len()
    }

    /// Whether there is a generation to try whose successor exists.
    pub open spec fn can_try(self) -> bool {
        self.next < self.generations.len() && self.generations[self.next as int] < u64::MAX
    }

    /// What the fallback fails with where it can try nothing.
    pub open spec fn failure(self) -> SessionErrorView {
        if self.next < self.generations.len() {
            invalid_session_input("remembered credential generation is exhausted"@)
        } else {
            match self.last_error {
                Some(error) => error,
                None => invalid_session_input("remembered credential has no usable generation"@),
            }
        }
    }
}

impl RememberedFallback {
    /// A fallback over generations.
    pub fn new(generations: Vec<u64>) -> (r: Self)
        ensures
            r@ == (FallbackView { generations: generations@, next: 0, last_error: None }),
            r@.wf(),
    {
        RememberedFallback { generations, next: 0, last_error: None }
    }

    /// What to do next.
    pub fn step(&self) -> (r: FallbackStep)
        requires
            self@.wf(),
        ensures
            match r {
                FallbackStep::Try { generation, next_generation, limited } => {
                    &&& self@.can_try()
                    &&& generation == self@.generations[self@.next as int]
                    &&& next_generation == generation + 1
                    &&& limited == (self@.next + 1 < self@.generations.len())
                },
                FallbackStep::Fail(error) => !self@.can_try() && error@ == self@.failure(),
            },
    {
        if self.next < self.generations.len() {
            let generation = self.generations[self.next];
            match generation.checked_add(1) {
                Some(next_generation) => FallbackStep::Try {
                    generation,
                    next_generation,
                    limited: self.next < self.generations.len() - 1,
                },
                None => FallbackStep::Fail(
                    invalid_session("remembered credential generation is exhausted"),
                ),
            }
        } else {
            match &self.last_error {
                Some(error) => FallbackStep::Fail(error.clone()),
                None => FallbackStep::Fail(
                    invalid_session("remembered credential has no usable generation"),
                ),
            }
        }
    }

    /// A generation was tried without success and without stopping the
    /// fallback.
    pub fn failed(&mut self, error: SessionError)
        requires
            old(self)@.wf(),
            old(self)@.next < old(self)@.generations.len(),
        ensures
            final(self)@.wf(),
            final(self)@ == (FallbackView {
                next: old(self)@.next + 1,
                last_error: Some(error@),
                ..old(self)@
            }),
    {
        let count: usize = self.generations.len();
        assert(self.next < count);
        self.next = self.next + 1;
        self.last_error = Some(error);
    }
}

/// The failure of a receiver that did not meet its peer in time.
pub fn generation_timed_out() -> (r: SessionError)
    ensures
        r@ == own_error(
            SessionCauseView::Transport {
                detail: "current remembered generation did not find the peer"@,
            },
        ),
{
    SessionError {
        cause: SessionCause::Transport {
            detail: "current remembered generation did not find the peer".to_owned(),
        },
        invitation_consumed: false,
    }
}

/// How an attempt of a session is made.
#[derive(Debug, PartialEq, Eq)]
#[allow(inconsistent_fields)]
pub enum AttemptPlan {
    /// Dial a peer that was named, with a shared token.
    Manual { peer_descriptor: String, token: String },
    /// Meet in a room through a one-time invitation.
    Invitation { secret_ref: String, broker: String },
    /// Meet under a remembered credential, generation by generation.
    Remembered { credential_ref: String, broker: String, generations: Vec<u64> },
    /// Look for the peer on the local network.
    Mdns { token: Option<String> },
    /// Show this device's address and wait, with a shared token.
    ShowManual { token: String },
}

/// What a [`AttemptPlan`] holds.
#[verifier::ext_equal]
#[allow(inconsistent_fields)]
pub enum PlanView {
    Manual { peer_descriptor: Seq<char>, token: Seq<char> },
    Invitation { secret_ref: Seq<char>, broker: Seq<char> },
    Remembered { credential_ref: Seq<char>, broker: Seq<char>, generations: Seq<u64> },
    Mdns { token: Option<Seq<char>> },
    ShowManual { token: Seq<char> },
}

impl View for AttemptPlan {
    type V = PlanView;

    open spec fn view(&self) -> PlanView {
        match *self {
            AttemptPlan::Manual { peer_descriptor, token } => PlanView::Manual { peer_descriptor: peer_descriptor@, token: token@ },
            AttemptPlan::Invitation { secret_ref, broker } => PlanView::Invitation { secret_ref: secret_ref@, broker: broker@ },
            AttemptPlan::Remembered { credential_ref, broker, generations } => PlanView::Remembered { credential_ref: credential_ref@, broker: broker@, generations: generations@ },
            AttemptPlan::Mdns { token } => PlanView::Mdns { token: text_option(token) },
            AttemptPlan::ShowManual { token } => PlanView::ShowManual { token: token@ },
        }
    }
}

impl Clone for AttemptPlan {
    fn clone(&self) -> (r: Self)
        ensures
            r@ == self@,
    {
        let r = match self {
            AttemptPlan::Manual { peer_descriptor, token } => AttemptPlan::Manual { peer_descriptor: peer_descriptor.clone(), token: token.clone() },
            AttemptPlan::Invitation { secret_ref, broker } => AttemptPlan::Invitation { secret_ref: secret_ref.clone(), broker: broker.clone() },
            AttemptPlan::Remembered { credential_ref, broker, generations } => AttemptPlan::Remembered { credential_ref: credential_ref.clone(), broker: broker.clone(), generations: generations.clone() },
            AttemptPlan::Mdns { token } => AttemptPlan::Mdns { token: token.clone() },
            AttemptPlan::ShowManual { token } => AttemptPlan::ShowManual { token: token.clone() },
        };
        assert(r@ =~= self@);
        r
    }
}

/// How a sender makes an attempt, or why it cannot.
pub open spec fn send_plan_of(source: SourceView) -> Result<PlanView, SessionErrorView> {
    match source {
        SourceView::Manual { peer_descriptor, token } => Ok(
            PlanView::Manual { peer_descriptor, token },
        ),
        SourceView::Invitation { secret_ref, broker, .. } => Ok(
            PlanView::Invitation { secret_ref, broker },
        ),
        SourceView::Remembered { credential_ref, generation, previous_generation, broker } => Ok(
            PlanView::Remembered {
                credential_ref,
                broker,
                generations: send_generations_of(generation, previous_generation),
            },
        ),
        SourceView::Mdns { token: Some(token) } => Ok(PlanView::Mdns { token: Some(token) }),
        _ => Err(invalid_session_input("selected route cannot dial a canonical receiver"@)),
    }
}

/// The view of a plan.
pub open spec fn plan_result(result: Result<AttemptPlan, SessionError>) -> Result<
    PlanView,
    SessionErrorView,
> {
    match result {
        Ok(plan) => Ok(plan@),
        Err(error) => Err(error@),
    }
}

/// How a sender makes an attempt.
pub fn send_attempt(source: &PeerSource) -> (r: Result<AttemptPlan, SessionError>)
    ensures
        plan_result(r) == send_plan_of(source@),
{
    match source {
        PeerSource::Manual { peer_descriptor, token } => Ok(
            AttemptPlan::Manual {
                peer_descriptor: peer_descriptor.clone(),
                token: token.clone(),
            },
        ),
        PeerSource::Invitation { secret_ref, broker, .. } => Ok(
            AttemptPlan::Invitation { secret_ref: secret_ref.clone(), broker: broker.clone() },
        ),
        PeerSource::Remembered { credential_ref, generation, previous_generation, broker } => Ok(
            AttemptPlan::Remembered {
                credential_ref: credential_ref.clone(),
                broker: broker.clone(),
                generations: send_generations(*generation, *previous_generation),
            },
        ),
        PeerSource::Mdns { token: Some(token) } => Ok(
            AttemptPlan::Mdns { token: Some(token.clone()) },
        ),
        _ => Err(invalid_session("selected route cannot dial a canonical receiver")),
    }
}

/// How a receiver makes an attempt, or why it cannot.
pub open spec fn receive_plan_of(source: SourceView) -> Result<PlanView, SessionErrorView> {
    match source {
        SourceView::ShowManual { token } => match token {
            Some(token) => Ok(PlanView::ShowManual { token }),
            None => Err(
                invalid_session_input(
                    "manual receiver display requires a caller-owned pairing token"@,
                ),
            ),
        },
        SourceView::Mdns { token } => Ok(PlanView::Mdns { token }),
        SourceView::Invitation { secret_ref, broker, .. } => Ok(
            PlanView::Invitation { secret_ref, broker },
        ),
        SourceView::Remembered { credential_ref, generation, previous_generation, broker } => Ok(
            PlanView::Remembered {
                credential_ref,
                broker,
                generations: receive_generations_of(generation, previous_generation),
            },
        ),
        SourceView::Manual { .. } => Err(
            invalid_session_input("selected route cannot listen for a canonical sender"@),
        ),
    }
}

/// How a receiver makes an attempt. Without a token, one that looks on the
/// local network makes its own.
pub fn receive_offer_attempt(source: &PeerSource) -> (r: Result<AttemptPlan, SessionError>)
    ensures
        plan_result(r) == receive_plan_of(source@),
{
    match source {
        PeerSource::ShowManual { token } => match token {
            Some(token) => Ok(AttemptPlan::ShowManual { token: token.clone() }),
            None => Err(
                invalid_session("manual receiver display requires a caller-owned pairing token"),
            ),
        },
        PeerSource::Mdns { token } => Ok(AttemptPlan::Mdns { token: token.clone() }),
        PeerSource::Invitation { secret_ref, broker, .. } => Ok(
            AttemptPlan::Invitation { secret_ref: secret_ref.clone(), broker: broker.clone() },
        ),
        PeerSource::Remembered { credential_ref, generation, previous_generation, broker } => Ok(
            AttemptPlan::Remembered {
                credential_ref: credential_ref.clone(),
                broker: broker.clone(),
                generations: receive_generations(*generation, *previous_generation),
            },
        ),
        PeerSource::Manual { .. } => Err(
            invalid_session("selected route cannot listen for a canonical sender"),
        ),
    }
}

/// A fresh pairing token, or why there is none.
pub fn generate_token() -> (r: Result<String, SessionError>)
    ensures
        match r {
            Ok(token) => {
                &&& token@.len() == TOKEN_CHARS
                &&& forall|i: int| 0 <= i < token@.len() ==> is_link_char(#[trigger] token@[i])
                &&& exists|bytes: Seq<u8>|
                    bytes.len() == TOKEN_BYTES && token@ == #[trigger] link_text(bytes)
            },
            Err(error) => exists|cause: Seq<char>| error@ == #[trigger] entropy_failure(cause),
        },
{
    match random_token() {
        Ok(token) => Ok(token),
        Err(cause) => {
            let error = entropy_error(cause.as_str());
            assert(error@ == entropy_failure(cause@));
            Err(error)
        },
    }
}

/// The failure of a missing random number source.
pub open spec fn entropy_failure(cause: Seq<char>) -> SessionErrorView {
    own_error(SessionCauseView::Crypto { detail: "token entropy unavailable: "@ + cause })
}

/// The failure of a missing random number source.
pub fn entropy_error(cause: &str) -> (r: SessionError)
    ensures
        r@ == entropy_failure(cause@),
{
    SessionError {
        cause: SessionCause::Crypto { detail: joined("token entropy unavailable: ", cause) },
        invitation_consumed: false,
    }
}

/// What an attempt is configured with.
#[derive(Debug, PartialEq, Eq)]
pub struct AttemptConfig {
    pub options: TransferOptions,
    pub config_path: Option<String>,
}

/// What a [`AttemptConfig`] holds.
#[verifier::ext_equal]
pub struct ConfigView {
    pub options: OptionsView,
    pub config_path: Option<Seq<char>>,
}

impl View for AttemptConfig {
    type V = ConfigView;

    open spec fn view(&self) -> ConfigView {
        ConfigView {
            options: self.options@,
            config_path: text_option(self.config_path),
        }
    }
}

impl Clone for AttemptConfig {
    fn clone(&self) -> (r: Self)
        ensures
            r == *self,
    {
        AttemptConfig {
            options: self.options.clone(),
            config_path: self.config_path.clone(),
        }
    }
}

/// What an attempt is configured with, or why it cannot be: its options are
/// looked at first, then its client. `client_error` is why the client cannot be
/// built, if it cannot.
pub open spec fn config_of(
    settings: SettingsView,
    request: RequestView,
    attempt: RouteView,
    client_error: Option<Seq<char>>,
) -> Result<ConfigView, ErrorView> {
    match options_of(settings, request, attempt.path_policy_override) {
        Err(error) => Err(error),
        Ok(options) => match client_error {
            Some(reason) => Err(ErrorView::Operation { reason }),
            None => Ok(
                ConfigView {
                    options,
                    config_path: first_given(request.config_path, settings.config_path),
                },
            ),
        },
    }
}

/// What an attempt is configured with. `client_error` is why its client cannot
/// be built, if it cannot.
pub fn attempt_config(
    settings: &EnvoixRuntimeSettings,
    request: &FfiTransferRequest,
    attempt: &RouteAttempt,
    client_error: &Option<String>,
) -> (r: Result<AttemptConfig, EnvoixError>)
    ensures
        (match r {
            Ok(config) => Ok(config@),
            Err(error) => Err(error@),
        }) == config_of(settings@, request@, attempt@, text_option(*client_error)),
{
    match transfer_options_for_request(settings, request, attempt.path_policy_override) {
        Err(error) => Err(error),
        Ok(options) => match client_error {
            Some(reason) => Err(op_err(reason.clone())),
            None => Ok(
                AttemptConfig { options, config_path: build_client_for_request(settings, request) },
            ),
        },
    }
}

/// The text of an error.
pub open spec fn error_text_of(error: ErrorView) -> Seq<char> {
    match error {
        ErrorView::Operation { reason } => reason,
        ErrorView::Invitation { reason, .. } => reason,
    }
}

/// What a receiver's attempt is configured with; where it cannot be, the
/// attempt fails like any other. `client_error` is why its client cannot be
/// built, if it cannot.
pub fn receive_one_offer_attempt(
    settings: &EnvoixRuntimeSettings,
    request: &FfiTransferRequest,
    attempt: &RouteAttempt,
    client_error: &Option<String>,
) -> (r: Result<AttemptConfig, SessionError>)
    ensures
        match (r, config_of(settings@, request@, attempt@, text_option(*client_error))) {
            (Ok(config), Ok(expected)) => config@ == expected,
            (Err(error), Err(refusal)) => error@ == invalid_session_input(error_text_of(refusal)),
            _ => false,
        },
{
    match attempt_config(settings, request, attempt, client_error) {
        Ok(config) => Ok(config),
        Err(EnvoixError::Operation { reason }) => Err(invalid_session(reason.as_str())),
        Err(EnvoixError::Invitation { reason, .. }) => Err(invalid_session(reason.as_str())),
    }
}

/// State of a sending session.
#[verifier::ext_equal]
pub struct SendView {
    pub attempts: Seq<RouteView>,
    pub next: nat,
    pub last_error: Option<SessionErrorView>,
    pub manifest: ManifestView,
}

/// A sending session that goes through its routes.
pub struct SendSession {
    attempts: Vec<RouteAttempt>,
    next: usize,
    last_error: Option<SessionError>,
    manifest: ManifestV2,
}

impl View for SendSession {
    type V = SendView;

    closed spec fn view(&self) -> SendView {
        SendView {
            attempts: self.attempts@.map_values(|x: RouteAttempt| x@),
            next: self.next as nat,
            last_error: match self.last_error {
                Some(error) => Some(error@),
                None => None,
            },
            manifest: self.manifest@,
        }
    }
}

impl SendView {
    /// Whether the session is in order.
    pub open spec fn wf(self) -> bool {
        self.next <= self.attempts.len()
    }

    /// What the session fails with when no route is left.
    pub open spec fn failure(self) -> SessionErrorView {
        match self.last_error {
            Some(error) => error,
            None => invalid_session_input("no canonical send route is available"@),
        }
    }
}

/// What a sending session does next.
pub enum SendStep {
    /// Try a route.
    Try { attempt: RouteAttempt, config: AttemptConfig },
    /// The request cannot be served; its observer is not told.
    Refuse(EnvoixError),
    /// No route is left; the session fails while connecting.
    Fail(SessionError),
}

/// What came of a tried route.
pub enum SendProgress {
    /// The session goes on with the next route after this note.
    Next(Vec<ObserverCall>),
    /// The session is over.
    Done(SessionReport),
}

/// The note about a route that failed.
pub open spec fn next_route_note(rendered: Seq<char>) -> Seq<ObserverCallView> {
    seq![
        ObserverCallView::Diagnostic {
            message: "route failed; trying next route: "@ + rendered,
        },
    ]
}

/// Checks what a sending session is started with: its direction first, then
/// its state directory.
pub fn check_send_request(request: &FfiTransferRequest, state_directory: &str) -> (r: Result<
    String,
    EnvoixError,
>)
    ensures
        match r {
            Ok(directory) => request@.direction == FfiTransferDirection::Send && directory_of(
                state_directory@,
                "state_directory"@,
            ) == Ok::<Seq<char>, ErrorView>(directory@),
            Err(error) => if request@.direction != FfiTransferDirection::Send {
                error@ == (ErrorView::Operation {
                    reason: "send_transfer_job_v2 requires a send request"@,
                })
            } else {
                directory_of(state_directory@, "state_directory"@) == Err::<Seq<char>, ErrorView>(
                    error@,
                )
            },
        },
{
    if request.direction != FfiTransferDirection::Send {
        return Err(op_error("send_transfer_job_v2 requires a send request"));
    }
    required_directory(state_directory, "state_directory")
}

/// Checks what a receiving session is started with: its direction first, then
/// its state directory.
pub fn check_receive_request(request: &FfiTransferRequest, state_directory: &str) -> (r: Result<
    String,
    EnvoixError,
>)
    ensures
        match r {
            Ok(directory) => request@.direction == FfiTransferDirection::Receive && directory_of(
                state_directory@,
                "state_directory"@,
            ) == Ok::<Seq<char>, ErrorView>(directory@),
            Err(error) => if request@.direction != FfiTransferDirection::Receive {
                error@ == (ErrorView::Operation {
                    reason: "receive_transfer_offer_v2 requires a receive request"@,
                })
            } else {
                directory_of(state_directory@, "state_directory"@) == Err::<Seq<char>, ErrorView>(
                    error@,
                )
            },
        },
{
    if request.direction != FfiTransferDirection::Receive {
        return Err(op_error("receive_transfer_offer_v2 requires a receive request"));
    }
    required_directory(state_directory, "state_directory")
}

/// The call that a started sender's observer gets, before routes are looked
/// for.
pub fn send_started(manifest: &ManifestV2) -> (r: ObserverCall)
    ensures
        r@ == (ObserverCallView::Started {
            item_count: clamped_u32(manifest@.entries.len()),
            total_bytes: manifest@.totals.total_plaintext_bytes,
        }),
{
    assert(manifest@.entries.len() == manifest.entries@.len());
    ObserverCall::Started {
        item_count: clamp_u32(manifest.entries.len()),
        total_bytes: manifest.totals.total_plaintext_bytes,
    }
}

/// What a sending session starts with.
#[verifier::ext_equal]
pub struct SendStartView {
    pub state_directory: Seq<char>,
    pub job: JobView,
    pub manifest: ManifestView,
}

impl SendStartView {
    /// The call that the observer gets before routes are looked for.
    pub open spec fn started(self) -> ObserverCallView {
        ObserverCallView::Started {
            item_count: clamped_u32(self.manifest.entries.len()),
            total_bytes: self.manifest.totals.total_plaintext_bytes,
        }
    }
}

/// What a sending session starts with: a sealed job with its manifest, and the
/// directory of the session's state.
pub struct SendStart {
    state_directory: String,
    job: CanonicalTransferJob,
    manifest: ManifestV2,
}

impl View for SendStart {
    type V = SendStartView;

    closed spec fn view(&self) -> SendStartView {
        SendStartView {
            state_directory: self.state_directory@,
            job: self.job@,
            manifest: self.manifest@,
        }
    }
}

/// What a sending session starts with, or why it does not start: its direction
/// is looked at first, then its state directory, then whether the job is sealed.
pub open spec fn send_start_of(
    request: RequestView,
    state_directory: Seq<char>,
    job: JobView,
) -> Result<SendStartView, ErrorView> {
    if request.direction != FfiTransferDirection::Send {
        Err(ErrorView::Operation { reason: "send_transfer_job_v2 requires a send request"@ })
    } else {
        match directory_of(state_directory, "state_directory"@) {
            Err(error) => Err(error),
            Ok(state_directory) => match job.manifest {
                None => Err(unsealed_job()),
                Some(manifest) => Ok(SendStartView { state_directory, job, manifest }),
            },
        }
    }
}

/// Starts a sending session: only a sealed job has one.
pub fn start_send(request: &FfiTransferRequest, state_directory: &str, job: &FfiTransferJobV2) -> (r:
    Result<SendStart, EnvoixError>)
    ensures
        (match r {
            Ok(start) => Ok(start@),
            Err(error) => Err(error@),
        }) == send_start_of(request@, state_directory@, job@),
{
    let state_directory = match check_send_request(request, state_directory) {
        Ok(directory) => directory,
        Err(error) => return Err(error),
    };
    let job = match job.clone_sealed_job() {
        Ok(job) => job,
        Err(error) => return Err(error),
    };
    match &job.manifest {
        Some(manifest) => {
            let manifest = manifest.clone();
            Ok(SendStart { state_directory, job, manifest })
        },
        None => Err(op_error("transfer job must be sealed by an explicit Send action")),
    }
}

impl SendStart {
    #[verifier::type_invariant]
    spec fn is_sealed(self) -> bool {
        self.job@.manifest == Some(self.manifest@)
    }

    /// The sealed job.
    pub fn job(&self) -> (r: &CanonicalTransferJob)
        ensures
            r@ == self@.job,
            r@.manifest == Some(self@.manifest),
    {
        proof {
            use_type_invariant(self);
        }
        &self.job
    }

    /// The directory in which the session keeps its state.
    pub fn state_directory(&self) -> (r: &str)
        ensures
            r@ == self@.state_directory,
    {
        self.state_directory.as_str()
    }

    /// The call that the observer gets before routes are looked for.
    pub fn started(&self) -> (r: ObserverCall)
        ensures
            r@ == self@.started(),
    {
        send_started(&self.manifest)
    }
}

/// No session sends anything of a job that was not sealed, and what it sends is
/// what the seal froze.
pub proof fn only_sealed_jobs_are_sent(request: RequestView, state_directory: Seq<char>, job: JobView)
    ensures
        job.manifest is None ==> send_start_of(request, state_directory, job) is Err,
        send_start_of(request, state_directory, job) matches Ok(start) ==> job.manifest == Some(
            start.manifest,
        ) && start.job == job,
{
}

impl SendSession {
    /// A session over routes, for a sealed job.
    pub fn new(start: &SendStart, attempts: Vec<RouteAttempt>) -> (r: Self)
        ensures
            r@ == (SendView {
                attempts: attempts@.map_values(|x: RouteAttempt| x@),
                next: 0,
                last_error: None,
                manifest: start@.manifest,
            }),
            start@.job.manifest == Some(r@.manifest),
            r@.wf(),
    {
        proof {
            use_type_invariant(start);
        }
        SendSession { attempts, next: 0, last_error: None, manifest: start.manifest.clone() }
    }

    /// What to do next. `client_error` is why the client of an attempt cannot be
    /// built, if it cannot: this ends the session without a word to its observer.
    pub fn step(
        &self,
        settings: &EnvoixRuntimeSettings,
        request: &FfiTransferRequest,
        client_error: &Option<String>,
    ) -> (r: SendStep)
        requires
            self@.wf(),
        ensures
            match r {
                SendStep::Try { attempt, config } => {
                    &&& self@.next < self@.attempts.len()
                    &&& attempt@ == self@.attempts[self@.next as int]
                    &&& config_of(settings@, request@, attempt@, text_option(*client_error))
                        == Ok::<ConfigView, ErrorView>(config@)
                },
                SendStep::Refuse(error) => {
                    &&& self@.next < self@.attempts.len()
                    &&& config_of(
                        settings@,
                        request@,
                        self@.attempts[self@.next as int],
                        text_option(*client_error),
                    ) == Err::<ConfigView, ErrorView>(error@)
                },
                SendStep::Fail(error) => self@.next == self@.attempts.len() && error@
                    == self@.failure(),
            },
    {
        assert(self@.attempts.len() == self.attempts@.len());
        if self.next < self.attempts.len() {
            let attempt = &self.attempts[self.next];
            assert(self@.attempts[self.next as int] == attempt@);
            match attempt_config(settings, request, attempt, client_error) {
                Err(error) => SendStep::Refuse(error),
                Ok(config) => SendStep::Try { attempt: attempt.clone(), config },
            }
        } else {
            match &self.last_error {
                Some(error) => SendStep::Fail(error.clone()),
                None => SendStep::Fail(invalid_session("no canonical send route is available")),
            }
        }
    }

    /// Takes in what came of a route. A failure leads on to the next route,
    /// unless the user canceled or the one-time invitation is used up.
    pub fn tried(
        &mut self,
        outcome: &Result<SessionSummary, JudgedError>,
        cancelled: bool,
    ) -> (r: SendProgress)
        requires
            old(self)@.wf(),
            old(self)@.next < old(self)@.attempts.len(),
        ensures
            final(self)@.wf(),
            match *outcome {
                Ok(summary) => {
                    &&& final(self)@ == old(self)@
                    &&& r matches SendProgress::Done(report) && completion_result(report.result)
                        == Ok::<CompletionView, ErrorView>(
                        CompletionView {
                            job_id: hex_of(old(self)@.manifest.job_id@),
                            entry_count: clamped_u32(summary@.entry_result_count as nat),
                            total_plaintext_bytes: old(
                                self,
                            )@.manifest.totals.total_plaintext_bytes,
                            delivery_proof_digest: summary@.delivery_proof_digest,
                            saved_paths: Seq::empty(),
                        },
                    ) && calls_view(report.calls@) == delivered_calls(
                        old(self)@.manifest.totals.total_plaintext_bytes,
                    )
                },
                Err(judged) => if cancelled || judged.failure.error@.invitation_consumed {
                    &&& final(self)@ == old(self)@
                    &&& r matches SendProgress::Done(report) && is_failure_report(
                        report,
                        judged.failure,
                        judged.verdict,
                        FfiTransferDirection::Send,
                        FfiFailurePhase::Transferring,
                    )
                } else {
                    &&& final(self)@ == (SendView {
                        next: old(self)@.next + 1,
                        last_error: Some(judged.failure.error@),
                        ..old(self)@
                    })
                    &&& r matches SendProgress::Next(calls) && calls_view(calls@)
                        == next_route_note(judged.failure.rendered@)
                },
            },
    {
        assert(self@.attempts.len() == self.attempts@.len());
        match outcome {
            Ok(summary) => {
                let delivery_proof_digest = summary.delivery_proof_digest.clone();
                assert(delivery_proof_digest@ =~= summary.delivery_proof_digest@);
                let saved_paths: Vec<String> = Vec::new();
                assert(text_seq(saved_paths@) =~= Seq::empty());
                let total = self.manifest.totals.total_plaintext_bytes;
                SendProgress::Done(
                    SessionReport {
                        result: Ok(
                            FfiManifestV2Completion {
                                job_id: encode_job_id(&self.manifest.job_id),
                                entry_count: clamp_u32(summary.entry_result_count),
                                total_plaintext_bytes: total,
                                delivery_proof_digest,
                                saved_paths,
                            },
                        ),
                        calls: delivered_call_list(total),
                    },
                )
            },
            Err(judged) => {
                let failure = &judged.failure;
                if cancelled || failure.error.invitation_consumed {
                    return SendProgress::Done(
                        failure_report(
                            failure,
                            judged.verdict,
                            FfiTransferDirection::Send,
                            FfiFailurePhase::Transferring,
                        ),
                    );
                }
                let count: usize = self.attempts.len();
                assert(self.next < count);
                self.next = self.next + 1;
                self.last_error = Some(failure.error.clone());
                let mut calls: Vec<ObserverCall> = Vec::new();
                calls.push(
                    ObserverCall::Diagnostic {
                        message: joined(
                            "route failed; trying next route: ",
                            failure.rendered.as_str(),
                        ),
                    },
                );
                assert(calls_view(calls@) =~= next_route_note(failure.rendered@));
                SendProgress::Next(calls)
            },
        }
    }

    /// Reports that no route is left.
    pub fn exhausted(&self, error: &RenderedError, verdict: FailureVerdict) -> (r: SessionReport)
        ensures
            is_failure_report(
                r,
                *error,
                verdict,
                FfiTransferDirection::Send,
                FfiFailurePhase::Connecting,
            ),
    {
        failure_report(
            error,
            verdict,
            FfiTransferDirection::Send,
            FfiFailurePhase::Connecting,
        )
    }
}

/// What happens among routes that a receiver holds open together.
pub enum RaceEvent {
    /// A route reached an offer.
    Won(usize),
    /// A route failed.
    Failed(RenderedError),
    /// The task of a route broke down, with its error as text.
    Broken(String),
    /// The user canceled.
    Cancelled,
    /// No route runs any more.
    NoneLeft,
}

/// What a receiver does after an event of its routes.
pub enum RaceAction {
    /// Cancel every route but the winner and show its offer.
    Accept(usize),
    /// Cancel every route and fail in the given phase.
    Abort { error: SessionError, phase: FfiFailurePhase },
    /// Keep waiting, after telling the observer.
    Wait(Vec<ObserverCall>),
    /// Fail while connecting, after telling the observer.
    Fail { error: SessionError, calls: Vec<ObserverCall> },
}

/// State of routes that a receiver holds open together.
#[verifier::ext_equal]
pub struct RaceView {
    /// How many routes still run.
    pub running: nat,
    pub last_error: Option<SessionErrorView>,
}

/// Routes that a receiver holds open together.
pub struct RouteRace {
    running: usize,
    last_error: Option<SessionError>,
}

impl View for RouteRace {
    type V = RaceView;

    closed spec fn view(&self) -> RaceView {
        RaceView {
            running: self.running as nat,
            last_error: match self.last_error {
                Some(error) => Some(error@),
                None => None,
            },
        }
    }
}

impl RaceView {
    /// What the race fails with when no route is left.
    pub open spec fn failure(self) -> SessionErrorView {
        match self.last_error {
            Some(error) => error,
            None => invalid_session_input("no canonical receive route is available"@),
        }
    }

    /// The race after one of its routes ended with an error.
    pub open spec fn lost(self, error: SessionErrorView) -> RaceView {
        RaceView {
            running: if self.running == 0 {
                0
            } else {
                (self.running - 1) as nat
            },
            last_error: Some(error),
        }
    }
}

/// The note about a route that failed while others run.
pub open spec fn other_routes_note(rendered: Seq<char>) -> Seq<ObserverCallView> {
    seq![
        ObserverCallView::Diagnostic {
            message: "receive route failed; keeping other routes active: "@ + rendered,
        },
    ]
}

/// Whether an action follows from a lost route.
pub open spec fn follows_loss(
    action: RaceAction,
    before: RaceView,
    error: SessionErrorView,
    notes: Seq<ObserverCallView>,
) -> bool {
    if before.lost(error).running == 0 {
        action matches RaceAction::Fail { error: e, calls } && e@ == error && calls_view(calls@)
            == notes
    } else {
        action matches RaceAction::Wait(calls) && calls_view(calls@) == notes
    }
}

/// The error of a route whose task broke down.
pub open spec fn broken_route(text: Seq<char>) -> SessionErrorView {
    own_error(SessionCauseView::Transfer { detail: "receive route task failed: "@ + text })
}

impl RouteRace {
    /// A race of so many routes.
    pub fn new(routes: usize) -> (r: Self)
        ensures
            r@ == (RaceView { running: routes as nat, last_error: None }),
    {
        RouteRace { running: routes, last_error: None }
    }

    fn lose(&mut self, error: SessionError, calls: Vec<ObserverCall>) -> (r: RaceAction)
        ensures
            final(self)@ == old(self)@.lost(error@),
            follows_loss(r, old(self)@, error@, calls_view(calls@)),
    {
        let left: usize = if self.running == 0 {
            0
        } else {
            self.running - 1
        };
        self.running = left;
        self.last_error = Some(error.clone());
        if left == 0 {
            RaceAction::Fail { error, calls }
        } else {
            RaceAction::Wait(calls)
        }
    }

    /// What to do after an event. The first offer wins; a failed route leaves
    /// the others running, unless it used up the one-time invitation.
    pub fn on_event(&mut self, event: RaceEvent) -> (r: RaceAction)
        ensures
            match event {
                RaceEvent::Won(index) => r == RaceAction::Accept(index) && final(self)@ == old(
                    self,
                )@,
                RaceEvent::Failed(failure) => if failure.error@.invitation_consumed {
                    &&& final(self)@ == old(self)@
                    &&& r matches RaceAction::Abort { error, phase } && error@ == failure.error@
                        && phase == FfiFailurePhase::Authenticating
                } else {
                    &&& final(self)@ == old(self)@.lost(failure.error@)
                    &&& follows_loss(
                        r,
                        old(self)@,
                        failure.error@,
                        other_routes_note(failure.rendered@),
                    )
                },
                RaceEvent::Broken(text) => {
                    &&& final(self)@ == old(self)@.lost(broken_route(text@))
                    &&& follows_loss(r, old(self)@, broken_route(text@), Seq::empty())
                },
                RaceEvent::Cancelled => {
                    &&& final(self)@ == old(self)@
                    &&& r matches RaceAction::Abort { error, phase } && error@ == own_error(
                        SessionCauseView::Cancelled,
                    ) && phase == FfiFailurePhase::Connecting
                },
                RaceEvent::NoneLeft => {
                    &&& final(self)@ == old(self)@
                    &&& r matches RaceAction::Fail { error, calls } && error@ == old(
                        self,
                    )@.failure() && calls@.len() == 0
                },
            },
    {
        match event {
            RaceEvent::Won(index) => RaceAction::Accept(index),
            RaceEvent::Failed(failure) => {
                if failure.error.invitation_consumed {
                    return RaceAction::Abort {
                        error: failure.error,
                        phase: FfiFailurePhase::Authenticating,
                    };
                }
                let mut calls: Vec<ObserverCall> = Vec::new();
                calls.push(
                    ObserverCall::Diagnostic {
                        message: joined(
                            "receive route failed; keeping other routes active: ",
                            failure.rendered.as_str(),
                        ),
                    },
                );
                assert(calls_view(calls@) =~= other_routes_note(failure.rendered@));
                self.lose(failure.error, calls)
            },
            RaceEvent::Broken(text) => {
                let error = SessionError {
                    cause: SessionCause::Transfer {
                        detail: joined("receive route task failed: ", text.as_str()),
                    },
                    invitation_consumed: false,
                };
                let calls: Vec<ObserverCall> = Vec::new();
                assert(calls_view(calls@) =~= Seq::empty());
                self.lose(error, calls)
            },
            RaceEvent::Cancelled => RaceAction::Abort {
                error: SessionError {
                    cause: SessionCause::Cancelled,
                    invitation_consumed: false,
                },
                phase: FfiFailurePhase::Connecting,
            },
            RaceEvent::NoneLeft => {
                let error = match &self.last_error {
                    Some(error) => error.clone(),
                    None => invalid_session("no canonical receive route is available"),
                };
                RaceAction::Fail { error, calls: Vec::new() }
            },
        }
    }
}

/// How a receiver waits on its routes.
pub enum ReceiveRouting {
    /// On one route alone, under the session's own cancellation.
    Single(RouteAttempt),
    /// On all routes together, each under a cancellation of its own.
    Race { attempts: Vec<RouteAttempt>, race: RouteRace },
}

/// How a receiver waits on its routes: a single one is not raced.
pub fn receive_offer_from_attempts(attempts: Vec<RouteAttempt>) -> (r: ReceiveRouting)
    ensures
        match r {
            ReceiveRouting::Single(attempt) => attempts@.len() == 1 && attempt@ == attempts@[0]@,
            ReceiveRouting::Race { attempts: raced, race } => {
                &&& attempts@.len() != 1
                &&& raced == attempts
                &&& race@ == (RaceView { running: attempts@.len(), last_error: None })
            },
        },
{
    if attempts.len() == 1 {
        ReceiveRouting::Single(attempts[0].clone())
    } else {
        let race = RouteRace::new(attempts.len());
        ReceiveRouting::Race { attempts, race }
    }
}

impl ReceiveRouting {
    /// Whether canceling the session is left to the route itself, which then
    /// fails like any other; a race ends at once.
    pub fn shares_cancellation(&self) -> (r: bool)
        ensures
            r == (self is Single),
    {
        match self {
            ReceiveRouting::Single(_) => true,
            ReceiveRouting::Race { .. } => false,
        }
    }
}

/// Reports that the single route of a receiving session failed. No other route
/// is spoken of, and the session fails while connecting whatever the error is,
/// a used-up invitation too.
pub fn single_route_failed(error: &RenderedError, verdict: FailureVerdict) -> (r: SessionReport)
    ensures
        is_failure_report(
            r,
            *error,
            verdict,
            FfiTransferDirection::Receive,
            FfiFailurePhase::Connecting,
        ),
{
    receive_failed(error, verdict, FfiFailurePhase::Connecting)
}

/// Reports a receiving session that reached no offer.
pub fn receive_failed(error: &RenderedError, verdict: FailureVerdict, phase: FfiFailurePhase) -> (r:
    SessionReport)
    ensures
        is_failure_report(r, *error, verdict, FfiTransferDirection::Receive, phase),
{
    failure_report(error, verdict, FfiTransferDirection::Receive, phase)
}

/// Every source that can dial has a plan with its own data in it. A remembered
/// peer is met under its generation before the previous one is tried.
pub proof fn dialing_plans_carry_their_source(
    peer_descriptor: Seq<char>,
    token: Seq<char>,
    room_id: Seq<char>,
    secret_ref: Seq<char>,
    credential_ref: Seq<char>,
    broker: Seq<char>,
    generation: u64,
    previous: u64,
)
    ensures
        send_plan_of(SourceView::Manual { peer_descriptor, token }) == Ok::<
            PlanView,
            SessionErrorView,
        >(PlanView::Manual { peer_descriptor, token }),
        send_plan_of(SourceView::Invitation { room_id, secret_ref, broker }) == Ok::<
            PlanView,
            SessionErrorView,
        >(PlanView::Invitation { secret_ref, broker }),
        send_plan_of(
            SourceView::Remembered {
                credential_ref,
                generation,
                previous_generation: None,
                broker,
            },
        ) == Ok::<PlanView, SessionErrorView>(
            PlanView::Remembered {
                credential_ref,
                broker,
                generations: seq![generation, generation],
            },
        ),
        send_plan_of(
            SourceView::Remembered {
                credential_ref,
                generation,
                previous_generation: Some(previous),
                broker,
            },
        ) == Ok::<PlanView, SessionErrorView>(
            PlanView::Remembered {
                credential_ref,
                broker,
                generations: seq![generation, generation, previous],
            },
        ),
        send_plan_of(SourceView::Mdns { token: Some(token) }) == Ok::<PlanView, SessionErrorView>(
            PlanView::Mdns { token: Some(token) },
        ),
{
}

/// A source cannot dial exactly where it shows a descriptor, or where it looks on
/// the local network without a token.
pub proof fn only_waiting_sources_cannot_dial(source: SourceView)
    ensures
        send_plan_of(source) is Err <==> source is ShowManual || source == (SourceView::Mdns {
            token: None,
        }),
        send_plan_of(source) matches Err(error) ==> error.cause == (SessionCauseView::InvalidInput {
            detail: "selected route cannot dial a canonical receiver"@,
        }) && !error.invitation_consumed,
{
}

/// Every source that can listen has a plan with its own data in it. A remembered
/// peer is awaited under its generation, then under the previous one, then again.
pub proof fn listening_plans_carry_their_source(
    token: Seq<char>,
    local: Option<Seq<char>>,
    room_id: Seq<char>,
    secret_ref: Seq<char>,
    credential_ref: Seq<char>,
    broker: Seq<char>,
    generation: u64,
    previous: u64,
)
    ensures
        receive_plan_of(SourceView::ShowManual { token: Some(token) }) == Ok::<
            PlanView,
            SessionErrorView,
        >(PlanView::ShowManual { token }),
        receive_plan_of(SourceView::Mdns { token: local }) == Ok::<PlanView, SessionErrorView>(
            PlanView::Mdns { token: local },
        ),
        receive_plan_of(SourceView::Invitation { room_id, secret_ref, broker }) == Ok::<
            PlanView,
            SessionErrorView,
        >(PlanView::Invitation { secret_ref, broker }),
        receive_plan_of(
            SourceView::Remembered {
                credential_ref,
                generation,
                previous_generation: None,
                broker,
            },
        ) == Ok::<PlanView, SessionErrorView>(
            PlanView::Remembered { credential_ref, broker, generations: seq![generation] },
        ),
        receive_plan_of(
            SourceView::Remembered {
                credential_ref,
                generation,
                previous_generation: Some(previous),
                broker,
            },
        ) == Ok::<PlanView, SessionErrorView>(
            PlanView::Remembered {
                credential_ref,
                broker,
                generations: seq![generation, previous, generation],
            },
        ),
{
}

/// A source cannot listen exactly where it dials a descriptor, or where it shows
/// one without a token.
pub proof fn only_dialing_sources_cannot_listen(source: SourceView)
    ensures
        receive_plan_of(source) is Err <==> source is Manual || source == (SourceView::ShowManual {
            token: None,
        }),
        source is Manual ==> receive_plan_of(source) == Err::<PlanView, SessionErrorView>(
            SessionErrorView {
                cause: SessionCauseView::InvalidInput {
                    detail: "selected route cannot listen for a canonical sender"@,
                },
                invitation_consumed: false,
            },
        ),
        receive_plan_of(SourceView::ShowManual { token: None }) == Err::<
            PlanView,
            SessionErrorView,
        >(
            SessionErrorView {
                cause: SessionCauseView::InvalidInput {
                    detail: "manual receiver display requires a caller-owned pairing token"@,
                },
                invitation_consumed: false,
            },
        ),
{
}

/// A new secret is stored as it is, under the first generation. Without one, the
/// credential under rotation is stored, and nothing else ever is.
pub proof fn only_earned_credentials_are_stored(
    state: AuthenticationView,
    secret: Option<Seq<u8>>,
)
    ensures
        secret matches Some(bytes) ==> credential_to_store(state, secret) == Some(
            CredentialView { opaque: bytes, generation: 0 },
        ),
        secret is None ==> credential_to_store(state, secret) == state.rotation,
        credential_to_store(state, secret) is None <==> secret is None && state.rotation is None,
{
}

/// A remembered fallback goes on exactly as long as nothing was reached: neither
/// a transfer nor a peer nor the user's cancellation.
pub proof fn fallback_goes_on_until_a_peer_is_met(
    succeeded: bool,
    authenticated: bool,
    cancelled: bool,
)
    ensures
        !stops_fallback(succeeded, authenticated, cancelled) <==> !succeeded && !authenticated
            && !cancelled,
{
}

/// A remembered fallback that has nothing left fails with what its last try
/// failed with; one that never tried says so, and a generation without a
/// successor is not tried.
pub proof fn fallbacks_fail_with_their_last_error(fallback: FallbackView)
    requires
        fallback.wf(),
    ensures
        fallback.next == fallback.generations.len() ==> !fallback.can_try() && (
        fallback.last_error matches Some(error) ==> fallback.failure() == error),
        fallback.next == fallback.generations.len() && fallback.last_error is None
            ==> fallback.failure().cause == (SessionCauseView::InvalidInput {
            detail: "remembered credential has no usable generation"@,
        }),
        fallback.next < fallback.generations.len() ==> (fallback.can_try()
            <==> fallback.generations[fallback.next as int] != u64::MAX),
        fallback.next < fallback.generations.len() && !fallback.can_try()
            ==> fallback.failure().cause == (SessionCauseView::InvalidInput {
            detail: "remembered credential generation is exhausted"@,
        }),
{
}

/// An attempt is configured exactly where its options hold and its client can be
/// built. It then has those options, and the request's configuration before the
/// session's.
pub proof fn attempts_are_configured_by_their_request(
    settings: SettingsView,
    request: RequestView,
    attempt: RouteView,
    client_error: Option<Seq<char>>,
)
    ensures
        config_of(settings, request, attempt, client_error) is Ok <==> client_error is None
            && options_of(settings, request, attempt.path_policy_override) is Ok,
        config_of(settings, request, attempt, client_error) matches Ok(config) ==> options_of(
            settings,
            request,
            attempt.path_policy_override,
        ) == Ok::<OptionsView, ErrorView>(config.options) && (!is_blank(request.config_path)
            ==> config.config_path == Some(trimmed(request.config_path))) && (is_blank(
            request.config_path,
        ) && !is_blank(settings.config_path) ==> config.config_path == Some(
            trimmed(settings.config_path),
        )) && (is_blank(request.config_path) && is_blank(settings.config_path)
            ==> config.config_path is None),
        options_of(settings, request, attempt.path_policy_override) is Ok ==> (
        client_error matches Some(reason) ==> config_of(settings, request, attempt, client_error)
            == Err::<ConfigView, ErrorView>(ErrorView::Operation { reason })),
{
}

/// A sending session starts exactly where it sends, has a directory for its state
/// and a sealed job.
pub proof fn sessions_start_for_sealed_send_jobs(
    request: RequestView,
    state_directory: Seq<char>,
    job: JobView,
)
    ensures
        send_start_of(request, state_directory, job) is Ok <==> request.direction
            == FfiTransferDirection::Send && job.manifest is Some && directory_of(
            state_directory,
            "state_directory"@,
        ) is Ok,
        send_start_of(request, state_directory, job) matches Ok(start) ==> directory_of(
            state_directory,
            "state_directory"@,
        ) == Ok::<Seq<char>, ErrorView>(start.state_directory) && start.started() == (
        ObserverCallView::Started {
            item_count: if start.manifest.entries.len() <= u32::MAX {
                start.manifest.entries.len() as u32
            } else {
                u32::MAX
            },
            total_bytes: start.manifest.totals.total_plaintext_bytes,
        }),
{
}

/// A lost route is counted off, and what it failed with is remembered. The race
/// is over exactly when no route is left, and it then fails with that error.
pub proof fn races_end_with_their_last_route(race: RaceView, error: SessionErrorView)
    ensures
        race.running > 0 ==> race.lost(error).running + 1 == race.running,
        race.running == 0 ==> race.lost(error).running == 0,
        race.lost(error).last_error == Some(error),
        race.lost(error).failure() == error,
        race.last_error is None ==> race.failure().cause == (SessionCauseView::InvalidInput {
            detail: "no canonical receive route is available"@,
        }),
{
}

/// A sending session that has no route left fails with what its last route
/// failed with, or says that there was none.
pub proof fn sends_fail_with_their_last_error(session: SendView)
    ensures
        session.last_error matches Some(error) ==> session.failure() == error,
        session.last_error is None ==> session.failure().cause == (SessionCauseView::InvalidInput {
            detail: "no canonical send route is available"@,
        }),
{
}

/// A failed route is told of once, with its own text behind what comes next.
pub proof fn failed_routes_are_told_once(rendered: Seq<char>)
    ensures
        next_route_note(rendered).len() == 1,
        next_route_note(rendered)[0] == (ObserverCallView::Diagnostic {
            message: "route failed; trying next route: "@ + rendered,
        }),
        other_routes_note(rendered).len() == 1,
        other_routes_note(rendered)[0] == (ObserverCallView::Diagnostic {
            message: "receive route failed; keeping other routes active: "@ + rendered,
        }),
        broken_route(rendered).cause == (SessionCauseView::Transfer {
            detail: "receive route task failed: "@ + rendered,
        }),
        !broken_route(rendered).invitation_consumed,
        entropy_failure(rendered).cause == (SessionCauseView::Crypto {
            detail: "token entropy unavailable: "@ + rendered,
        }),
{
}

/// What keeps a sending session from starting is told in one order: its direction,
/// the directory of its state, the seal of its job.
pub proof fn refused_sends_say_why(request: RequestView, state_directory: Seq<char>, job: JobView)
    ensures
        !(request.direction is Send) ==> send_start_of(request, state_directory, job) == Err::<
            SendStartView,
            ErrorView,
        >(ErrorView::Operation { reason: "send_transfer_job_v2 requires a send request"@ }),
        request.direction is Send ==> (directory_of(state_directory, "state_directory"@) matches Err(
            error,
        ) ==> send_start_of(request, state_directory, job) == Err::<SendStartView, ErrorView>(
            error,
        )),
        request.direction is Send && directory_of(state_directory, "state_directory"@) is Ok
            && job.manifest is None ==> send_start_of(request, state_directory, job) == Err::<
            SendStartView,
            ErrorView,
        >(
            ErrorView::Operation {
                reason: "transfer job must be sealed by an explicit Send action"@,
            },
        ),
{
}

/// An attempt whose options do not hold is refused with their error, and an error is
/// told by its own text.
pub proof fn refused_attempts_say_why(
    settings: SettingsView,
    request: RequestView,
    attempt: RouteView,
    client_error: Option<Seq<char>>,
    error: ErrorView,
)
    ensures
        options_of(settings, request, attempt.path_policy_override) matches Err(refusal)
            ==> config_of(settings, request, attempt, client_error) == Err::<ConfigView, ErrorView>(
            refusal,
        ),
        error matches ErrorView::Operation { reason } ==> error_text_of(error) == reason,
        error matches ErrorView::Invitation { reason, .. } ==> error_text_of(error) == reason,
{
}

/// A lost route ends the race exactly where it was the last one, with its own error;
/// else the receiver waits on. Either way the observer is told the same notes.
pub proof fn lost_routes_end_the_race_at_last(
    action: RaceAction,
    before: RaceView,
    error: SessionErrorView,
    notes: Seq<ObserverCallView>,
)
    requires
        follows_loss(action, before, error, notes),
    ensures
        action is Fail <==> before.running <= 1,
        action is Wait <==> before.running > 1,
        action matches RaceAction::Fail { error: told, calls } ==> told@ == error && calls_view(
            calls@,
        ) == notes,
        action matches RaceAction::Wait(calls) ==> calls_view(calls@) == notes,
{
}

} // verus!
