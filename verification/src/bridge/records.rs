//! Durable records: the engine context of a request, the request behind a
//! stored context, platform extras and the card of a stored session.
use vstd::prelude::*;

use crate::bridge::engine::{
    CanonicalState, ClientContext, ClientContextView, ContextView, OptionsView, ParamsView,
    PauseOrigin, PeerSource, PeerSourceView, Session, SessionContext, SessionParams,
    SessionSnapshot, SessionView, SnapshotView, TransferDirection, TransferMode,
};
use crate::bridge::models::{
    ActivityView, EnvoixError, EnvoixRuntimeSettings, FailureView, FfiTransferActivityRecord,
    FfiTransferActivityState, FfiTransferDirection, FfiTransferMode, FfiTransferRequest,
    PersistedNativePublication, PublicationView, RequestView, SettingsView,
};
use crate::bridge::projection::{ffi_path_policy, ffi_path_policy_of, ffi_transfer_mode, mode_of};
use crate::bridge::routes::{
    attempt_views, attempts_of, op_err, op_error, options_of, path_for_request,
    peer_sources_for_request, plain_request, request_path, transfer_options_for_request,
    AttemptView, LookupsView, SourceLookups, TransferAttemptSource,
};
use crate::bridge::snapshot::{
    apply_canonical_snapshot, driven_state, is_completed_path, is_driven_state, is_stored_state,
    or_empty, text_or_empty,
};
use crate::text::{
    contains_whitespace, has_prefix, has_whitespace, is_blank, same_text, text_option, text_seq,
    text_without_trailing, trimmed, without_trailing,
};

verus! {

broadcast use vstd::seq_lib::group_seq_properties;

/// One member of the platform extras that the bindings do not interpret.
#[derive(Debug, PartialEq, Eq)]
pub struct ExtraMember {
    pub key: String,
    /// JSON text of the value.
    pub json: String,
}

/// What a [`ExtraMember`] holds.
#[verifier::ext_equal]
pub struct ExtraMemberView {
    pub key: Seq<char>,
    pub json: Seq<char>,
}

impl View for ExtraMember {
    type V = ExtraMemberView;

    open spec fn view(&self) -> ExtraMemberView {
        ExtraMemberView {
            key: self.key@,
            json: self.json@,
        }
    }
}

impl Clone for ExtraMember {
    fn clone(&self) -> (r: Self)
        ensures
            r == *self,
    {
        ExtraMember {
            key: self.key.clone(),
            json: self.json.clone(),
        }
    }
}

/// Platform extras of a record, as far as the bindings interpret them.
#[derive(Debug, PartialEq, Eq)]
pub struct PlatformExtras {
    /// Whether the extras are a JSON object; nothing can be stored otherwise.
    pub is_object: bool,
    /// The activity id under which native code knows the record.
    pub external_record_id: Option<String>,
    /// State of the native publication.
    pub publication: Option<PersistedNativePublication>,
    /// Everything else, kept as it is.
    pub others: Vec<ExtraMember>,
}

/// What a [`PlatformExtras`] holds.
#[verifier::ext_equal]
pub struct ExtrasView {
    pub is_object: bool,
    pub external_record_id: Option<Seq<char>>,
    pub publication: Option<PublicationView>,
    pub others: Seq<ExtraMemberView>,
}

impl View for PlatformExtras {
    type V = ExtrasView;

    open spec fn view(&self) -> ExtrasView {
        ExtrasView {
            is_object: self.is_object,
            external_record_id: text_option(self.external_record_id),
            publication: match self.publication { Some(x) => Some(x@), None => None },
            others: self.others@.map_values(|x: ExtraMember| x@),
        }
    }
}

impl Clone for PlatformExtras {
    fn clone(&self) -> (r: Self)
        ensures
            r@ == self@,
    {
        let r = PlatformExtras {
            is_object: self.is_object,
            external_record_id: self.external_record_id.clone(),
            publication: self.publication.clone(),
            others: self.others.clone(),
        };
        assert(r@.others =~= self@.others);
        r
    }
}

/// A session as the record store keeps it.
#[derive(Debug, PartialEq, Eq)]
pub struct TransferRecord {
    /// Text form of the record id.
    pub id: String,
    pub created_ms: u64,
    pub updated_ms: u64,
    pub session: Session,
    pub context: SessionContext,
    pub platform_extras: Option<PlatformExtras>,
}

/// What a [`TransferRecord`] holds.
#[verifier::ext_equal]
pub struct RecordView {
    pub id: Seq<char>,
    pub created_ms: u64,
    pub updated_ms: u64,
    pub session: SessionView,
    pub context: ContextView,
    pub platform_extras: Option<ExtrasView>,
}

impl View for TransferRecord {
    type V = RecordView;

    open spec fn view(&self) -> RecordView {
        RecordView {
            id: self.id@,
            created_ms: self.created_ms,
            updated_ms: self.updated_ms,
            session: self.session@,
            context: self.context@,
            platform_extras: match self.platform_extras { Some(x) => Some(x@), None => None },
        }
    }
}

impl Clone for TransferRecord {
    fn clone(&self) -> (r: Self)
        ensures
            r@ == self@,
    {
        let r = TransferRecord {
            id: self.id.clone(),
            created_ms: self.created_ms,
            updated_ms: self.updated_ms,
            session: self.session.clone(),
            context: self.context.clone(),
            platform_extras: self.platform_extras.clone(),
        };
        r
    }
}

/// Whether two sources are the same.
pub fn same_source(a: &PeerSource, b: &PeerSource) -> (r: bool)
    ensures
        r == (a@ == b@),
{
    match (a, b) {
        (
            PeerSource::Manual { peer: p, token: s },
            PeerSource::Manual { peer: q, token: t },
        ) => same_text(p.compact.as_str(), q.compact.as_str()) && same_text(
            p.endpoint_id.as_str(),
            q.endpoint_id.as_str(),
        ) && same_texts(&p.direct_addrs, &q.direct_addrs) && same_text(s.as_str(), t.as_str()),
        (PeerSource::Invite { invite: s }, PeerSource::Invite { invite: t }) => same_text(
            s.as_str(),
            t.as_str(),
        ),
        (PeerSource::ShowManual { token: s }, PeerSource::ShowManual { token: t }) => same_option(
            s,
            t,
        ),
        (
            PeerSource::ShowInvite { ttl_secs: m, token: s },
            PeerSource::ShowInvite { ttl_secs: n, token: t },
        ) => *m == *n && same_option(s, t),
        (PeerSource::Mdns { token: s }, PeerSource::Mdns { token: t }) => same_option(s, t),
        (
            PeerSource::Room { code: s, broker: p },
            PeerSource::Room { code: t, broker: q },
        ) => same_text(s.as_str(), t.as_str()) && same_text(p.as_str(), q.as_str()),
        _ => false,
    }
}

fn same_option(a: &Option<String>, b: &Option<String>) -> (r: bool)
    ensures
        r == (text_option(*a) == text_option(*b)),
{
    match (a, b) {
        (Some(s), Some(t)) => same_text(s.as_str(), t.as_str()),
        (None, None) => true,
        _ => false,
    }
}

pub(crate) fn same_texts(a: &Vec<String>, b: &Vec<String>) -> (r: bool)
    ensures
        r == (text_seq(a@) == text_seq(b@)),
{
    if a.len() != b.len() {
        assert(text_seq(a@).len() != text_seq(b@).len());
        return false;
    }
    let mut i: usize = 0;
    while i < a.len()
        invariant
            i <= a@.len(),
            a@.len() == b@.len(),
            forall|k: int| 0 <= k < i ==> text_seq(a@)[k] == text_seq(b@)[k],
        decreases a@.len() - i,
    {
        if !same_text(a[i].as_str(), b[i].as_str()) {
            assert(text_seq(a@)[i as int] != text_seq(b@)[i as int]);
            return false;
        }
        i += 1;
    }
    assert(text_seq(a@) =~= text_seq(b@));
    true
}

/// The sources of the attempts, each one once, in the order of their first
/// occurrence.
pub open spec fn distinct_sources(attempts: Seq<AttemptView>) -> Seq<PeerSourceView>
    decreases attempts.len(),
{
    if attempts.len() == 0 {
        Seq::empty()
    } else {
        let before = distinct_sources(attempts.drop_last());
        if before.contains(attempts.last().source) {
            before
        } else {
            before.push(attempts.last().source)
        }
    }
}

/// The views of a list of sources.
pub open spec fn source_views(sources: Seq<PeerSource>) -> Seq<PeerSourceView> {
    sources.map_values(|s: PeerSource| s@)
}

fn holds_source(sources: &Vec<PeerSource>, source: &PeerSource) -> (r: bool)
    ensures
        r == source_views(sources@).contains(source@),
{
    let mut i: usize = 0;
    while i < sources.len()
        invariant
            i <= sources@.len(),
            forall|k: int| 0 <= k < i ==> source_views(sources@)[k] != source@,
        decreases sources@.len() - i,
    {
        if same_source(&sources[i], source) {
            assert(source_views(sources@)[i as int] == source@);
            return true;
        }
        i += 1;
    }
    false
}

/// Collects the sources of the attempts, each one once.
pub fn collect_sources(attempts: &Vec<TransferAttemptSource>) -> (r: Vec<PeerSource>)
    ensures
        source_views(r@) == distinct_sources(attempt_views(attempts@)),
{
    let mut sources: Vec<PeerSource> = Vec::new();
    let mut i: usize = 0;
    assert(attempt_views(attempts@).take(0) =~= Seq::empty());
    assert(source_views(sources@) =~= Seq::empty());
    while i < attempts.len()
        invariant
            i <= attempts@.len(),
            source_views(sources@) == distinct_sources(attempt_views(attempts@).take(i as int)),
        decreases attempts@.len() - i,
    {
        let ghost before = source_views(sources@);
        if !holds_source(&sources, &attempts[i].source) {
            sources.push(attempts[i].source.clone());
            assert(source_views(sources@) =~= before.push(attempts@[i as int].source@));
        }
        let ghost next = attempt_views(attempts@).take(i + 1);
        assert(next.drop_last() =~= attempt_views(attempts@).take(i as int));
        assert(next.last() == attempts@[i as int]@);
        i += 1;
    }
    assert(attempt_views(attempts@).take(i as int) =~= attempt_views(attempts@));
    sources
}

/// Every source of a plan is kept exactly once.
pub proof fn distinct_sources_are_complete(attempts: Seq<AttemptView>)
    ensures
        distinct_sources(attempts).no_duplicates(),
        forall|i: int|
            0 <= i < attempts.len() ==> distinct_sources(attempts).contains(
                (#[trigger] attempts[i]).source,
            ),
    decreases attempts.len(),
{
    if attempts.len() > 0 {
        distinct_sources_are_complete(attempts.drop_last());
        let before = distinct_sources(attempts.drop_last());
        let after = distinct_sources(attempts);
        assert forall|i: int| 0 <= i < attempts.len() implies after.contains(
            (#[trigger] attempts[i]).source,
        ) by {
            if i < attempts.len() - 1 {
                assert(attempts.drop_last()[i] == attempts[i]);
                let k = choose|k: int| 0 <= k < before.len() && before[k] == attempts[i].source;
                assert(after[k] == attempts[i].source);
            } else if !before.contains(attempts.last().source) {
                assert(after.last() == attempts[i].source);
            }
        }
    }
}

/// The engine context of a request, or why it has none.
pub open spec fn context_of(
    settings: SettingsView,
    request: RequestView,
    client: Result<ClientContextView, Seq<char>>,
    lookups: LookupsView,
) -> Result<ContextView, Seq<char>> {
    match client {
        Err(reason) => Err(reason),
        Ok(client) => match attempts_of(settings, request, lookups) {
            Err(reason) => Err(reason),
            Ok(attempts) => if request.direction == FfiTransferDirection::Unknown {
                Err("transfer direction must not be unknown"@)
            } else {
                match request_path(request) {
                    Err(reason) => Err(reason),
                    Ok(path) => match options_of(settings, request, request.path_policy) {
                        Err(reason) => Err(reason),
                        Ok(options) => Ok(
                            ContextView {
                                client,
                                params: ParamsView {
                                    direction: if request.direction == FfiTransferDirection::Send {
                                        TransferDirection::Send
                                    } else {
                                        TransferDirection::Receive
                                    },
                                    path,
                                    sources: distinct_sources(attempts),
                                    options,
                                    publication_required: request.publication_required,
                                },
                            },
                        ),
                    },
                }
            },
        },
    }
}

/// The view of a client context, or the reason why there is none.
pub open spec fn client_view(client: Result<ClientContext, String>) -> Result<
    ClientContextView,
    Seq<char>,
> {
    match client {
        Ok(context) => Ok(context@),
        Err(reason) => Err(reason@),
    }
}

/// Builds the engine context of a request. `client` is the client context that
/// its configuration gives, or why it gives none.
pub fn canonical_context_for_request(
    settings: &EnvoixRuntimeSettings,
    request: &FfiTransferRequest,
    client: Result<ClientContext, String>,
    lookups: &SourceLookups,
) -> (r: Result<SessionContext, EnvoixError>)
    ensures
        match r {
            Ok(context) => context_of(settings@, request@, client_view(client), lookups@) == Ok::<
                ContextView,
                Seq<char>,
            >(context@),
            Err(error) => context_of(settings@, request@, client_view(client), lookups@) == Err::<
                ContextView,
                Seq<char>,
            >(error.reason_view()),
        },
{
    let client = match client {
        Ok(client) => client,
        Err(reason) => return Err(op_err(reason)),
    };
    let attempts = match peer_sources_for_request(settings, request, lookups) {
        Ok(attempts) => attempts,
        Err(error) => return Err(error),
    };
    let sources = collect_sources(&attempts);
    let direction = match request.direction {
        FfiTransferDirection::Send => TransferDirection::Send,
        FfiTransferDirection::Receive => TransferDirection::Receive,
        FfiTransferDirection::Unknown => {
            return Err(op_error("transfer direction must not be unknown"));
        },
    };
    let path = match path_for_request(request) {
        Ok(path) => path,
        Err(error) => return Err(error),
    };
    let options = match transfer_options_for_request(settings, request, None) {
        Ok(options) => options,
        Err(error) => return Err(error),
    };
    Ok(
        SessionContext {
            client,
            params: SessionParams {
                direction,
                path,
                sources,
                options,
                publication_required: request.publication_required,
            },
        },
    )
}

/// The mode of a source.
pub open spec fn source_mode(source: PeerSourceView) -> TransferMode {
    match source {
        PeerSourceView::Manual { .. } => TransferMode::Manual,
        PeerSourceView::Invite { .. } => TransferMode::Invite,
        PeerSourceView::ShowManual { .. } => TransferMode::ShowManual,
        PeerSourceView::ShowInvite { .. } => TransferMode::ShowInvite,
        PeerSourceView::Mdns { .. } => TransferMode::Mdns,
        PeerSourceView::Room { .. } => TransferMode::Room,
    }
}

impl PeerSource {
    /// The mode of a source.
    pub fn mode(&self) -> (r: TransferMode)
        ensures
            r == source_mode(self@),
    {
        match self {
            PeerSource::Manual { .. } => TransferMode::Manual,
            PeerSource::Invite { .. } => TransferMode::Invite,
            PeerSource::ShowManual { .. } => TransferMode::ShowManual,
            PeerSource::ShowInvite { .. } => TransferMode::ShowInvite,
            PeerSource::Mdns { .. } => TransferMode::Mdns,
            PeerSource::Room { .. } => TransferMode::Room,
        }
    }
}

/// The request fields that a source stands for.
pub open spec fn with_source(request: RequestView, source: PeerSourceView) -> RequestView {
    match source {
        PeerSourceView::Manual { peer, token } => RequestView {
            peer_descriptor: peer.compact,
            token,
            ..request
        },
        PeerSourceView::Invite { invite } => RequestView { invite, ..request },
        PeerSourceView::ShowManual { token } => RequestView { token: or_empty(token), ..request },
        PeerSourceView::Mdns { token } => RequestView { token: or_empty(token), ..request },
        PeerSourceView::ShowInvite { .. } => request,
        PeerSourceView::Room { code, broker } => RequestView { code, broker, ..request },
    }
}

/// The request that a stored context answers: its first source gives the mode
/// and the pairing fields.
pub open spec fn request_of(activity_id: Seq<char>, context: ContextView) -> RequestView {
    let params = context.params;
    let mode = if params.sources.len() > 0 {
        mode_of(source_mode(params.sources[0]))
    } else {
        FfiTransferMode::Unknown
    };
    let plain = match params.direction {
        TransferDirection::Send => RequestView {
            file_path: params.path,
            ..plain_request(activity_id, FfiTransferDirection::Send, mode)
        },
        TransferDirection::Receive => RequestView {
            output_dir: params.path,
            ..plain_request(activity_id, FfiTransferDirection::Receive, mode)
        },
    };
    let request = RequestView {
        resume: params.options.resume,
        publication_required: params.publication_required,
        relay: or_empty(params.options.relay),
        path_policy: ffi_path_policy_of(params.options.path),
        ..plain
    };
    if params.sources.len() > 0 {
        with_source(request, params.sources[0])
    } else {
        request
    }
}

/// Rebuilds the request behind a stored context.
pub fn request_from_canonical_context(activity_id: &str, context: &SessionContext) -> (r:
    FfiTransferRequest)
    ensures
        r@ == request_of(activity_id@, context@),
{
    let params = &context.params;
    let mode = if params.sources.len() > 0 {
        ffi_transfer_mode(params.sources[0].mode())
    } else {
        FfiTransferMode::Unknown
    };
    let path = params.path.clone();
    let mut request = match params.direction {
        TransferDirection::Send => FfiTransferRequest::send(activity_id.to_owned(), path, mode),
        TransferDirection::Receive => FfiTransferRequest::receive(
            activity_id.to_owned(),
            path,
            mode,
        ),
    };
    request.resume = params.options.resume;
    request.publication_required = params.publication_required;
    request.relay = text_or_empty(&params.options.relay);
    request.path_policy = ffi_path_policy(params.options.path);
    if params.sources.len() > 0 {
        assert(context@.params.sources[0] == params.sources@[0]@);
        match &params.sources[0] {
            PeerSource::Manual { peer, token } => {
                request.peer_descriptor = peer.compact.clone();
                request.token = token.clone();
            },
            PeerSource::Invite { invite } => {
                request.invite = invite.clone();
            },
            PeerSource::ShowManual { token } | PeerSource::Mdns { token } => {
                request.token = text_or_empty(token);
            },
            PeerSource::ShowInvite { .. } => {},
            PeerSource::Room { code, broker } => {
                request.code = code.clone();
                request.broker = broker.clone();
            },
        }
    }
    request
}

/// The receipt endpoint that a setting stands for, or why it stands for none.
pub open spec fn receipt_server_of(value: Seq<char>) -> Result<Option<Seq<char>>, Seq<char>> {
    let text = trimmed(value);
    if text.len() == 0 {
        Ok(None)
    } else if has_whitespace(text) || !("http://"@.is_prefix_of(text) || "https://"@.is_prefix_of(
        text,
    )) {
        Err("receipt_server must be an HTTP(S) endpoint"@)
    } else {
        Ok(Some(without_trailing(text, '/')))
    }
}

/// Normalizes the receipt endpoint: blank means none, and no slash is left at
/// the end of one.
pub fn normalized_receipt_server(value: &str) -> (r: Result<Option<String>, EnvoixError>)
    ensures
        match r {
            Ok(server) => receipt_server_of(value@) == Ok::<Option<Seq<char>>, Seq<char>>(
                text_option(server),
            ),
            Err(error) => receipt_server_of(value@) == Err::<Option<Seq<char>>, Seq<char>>(
                error.reason_view(),
            ),
        },
{
    let text = value.trim();
    if text.is_empty() {
        return Ok(None);
    }
    if contains_whitespace(text) || !(has_prefix(text, "http://") || has_prefix(text, "https://")) {
        return Err(op_error("receipt_server must be an HTTP(S) endpoint"));
    }
    Ok(Some(text_without_trailing(text, '/')))
}

impl RecordView {
    /// The activity id under which native code knows the record; its own id
    /// where the extras give none.
    pub open spec fn external_id(self) -> Seq<char> {
        match self.platform_extras {
            Some(extras) => match extras.external_record_id {
                Some(id) if extras.is_object => id,
                _ => self.id,
            },
            None => self.id,
        }
    }

    /// The publication state in the extras.
    pub open spec fn publication(self) -> Option<PublicationView> {
        match self.platform_extras {
            Some(extras) => extras.stored_publication(),
            None => None,
        }
    }
}

impl ExtrasView {
    /// The publication state that these extras hold.
    pub open spec fn stored_publication(self) -> Option<PublicationView> {
        if self.is_object {
            self.publication
        } else {
            None
        }
    }

    /// The extras of a record that holds nothing but its activity id.
    pub open spec fn of_activity(activity_id: Seq<char>) -> ExtrasView {
        ExtrasView {
            is_object: true,
            external_record_id: Some(activity_id),
            publication: None,
            others: Seq::empty(),
        }
    }
}

impl PlatformExtras {
    /// The extras of a record that holds nothing but its activity id.
    pub fn of_activity(activity_id: &str) -> (r: Self)
        ensures
            r@ == ExtrasView::of_activity(activity_id@),
    {
        let r = PlatformExtras {
            is_object: true,
            external_record_id: Some(activity_id.to_owned()),
            publication: None,
            others: Vec::new(),
        };
        assert(r@.others =~= Seq::empty());
        r
    }
}

/// The activity id under which native code knows a record.
pub fn external_activity_id(record: &TransferRecord) -> (r: String)
    ensures
        r@ == record@.external_id(),
{
    if let Some(extras) = &record.platform_extras {
        if extras.is_object {
            if let Some(id) = &extras.external_record_id {
                return id.clone();
            }
        }
    }
    record.id.clone()
}

/// The publication state in platform extras.
pub fn native_publication_metadata_from_extras(extras: &PlatformExtras) -> (r: Option<
    PersistedNativePublication,
>)
    ensures
        (match r {
            Some(publication) => Some(publication@),
            None => None,
        }) == extras@.stored_publication(),
{
    if !extras.is_object {
        return None;
    }
    match &extras.publication {
        Some(publication) => Some(publication.clone()),
        None => None,
    }
}

/// The publication state of a record.
pub fn native_publication_metadata(record: &TransferRecord) -> (r: Option<
    PersistedNativePublication,
>)
    ensures
        (match r {
            Some(publication) => Some(publication@),
            None => None,
        }) == record@.publication(),
{
    match &record.platform_extras {
        Some(extras) => native_publication_metadata_from_extras(extras),
        None => None,
    }
}

/// The session of a record as it reads after a restart: whatever a task was
/// driving is paused and can be resumed.
pub open spec fn restarted(session: SessionView) -> SessionView {
    if is_driven_state(session.state) {
        SessionView {
            state: CanonicalState::Paused(PauseOrigin::Lost),
            reason: Some("interrupted by an app restart"@),
            ..session
        }
    } else {
        session
    }
}

pub(crate) fn restarted_session(session: &Session) -> (r: Session)
    ensures
        r@ == restarted(session@),
{
    let mut session = session.clone();
    if driven_state(session.state) {
        session.state = CanonicalState::Paused(PauseOrigin::Lost);
        session.reason = Some("interrupted by an app restart".to_owned());
    }
    session
}

/// The card of a stored session; `path` is where stored bytes can be found.
pub open spec fn card_of_record(record: RecordView, path: Seq<char>) -> ActivityView {
    let request = request_of(record.external_id(), record.context);
    let card = ActivityView::queued(request, Seq::empty(), record.created_ms).after_snapshot(
        SnapshotView { seq: 0, speed_bps: 0, avg_bps: 0, session: restarted(record.session) },
        path,
        record.updated_ms,
    );
    match record.publication() {
        Some(publication) if card.state
            == FfiTransferActivityState::Publishing => match publication.failure {
            Some(failure) => card.publication_failed(failure, record.updated_ms),
            None => card,
        },
        _ => card,
    }
}

/// Renders a stored session as a card.
pub fn activity_from_canonical_record(record: &TransferRecord) -> (r: FfiTransferActivityRecord)
    ensures
        r@ == card_of_record(record@, r@.completed_file_path),
        is_stored_state(record.session.state) ==> is_completed_path(
            record.context@,
            record.session@,
            r@.completed_file_path,
        ),
{
    let activity_id = external_activity_id(record);
    let request = request_from_canonical_context(activity_id.as_str(), &record.context);
    let mut activity = FfiTransferActivityRecord::from_request(&request, record.created_ms);
    let session = restarted_session(&record.session);
    let snapshot = SessionSnapshot { seq: 0, speed_bps: 0, avg_bps: 0, session };
    apply_canonical_snapshot(&mut activity, &snapshot, &record.context, record.updated_ms);
    if activity.state == FfiTransferActivityState::Publishing {
        if let Some(publication) = native_publication_metadata(record) {
            if let Some(failure) = &publication.failure {
                activity.apply_publication_failure(failure, record.updated_ms);
            }
        }
    }
    activity
}

/// After a restart no card claims that a task is still driving it, and every
/// interrupted one can be resumed.
pub proof fn restored_cards_can_be_resumed(record: RecordView, path: Seq<char>)
    requires
        is_driven_state(record.session.state),
    ensures
        card_of_record(record, path).state == FfiTransferActivityState::Paused,
        card_of_record(record, path).actions().can_resume,
        card_of_record(record, path).diagnostic_message
            == "interrupted by an app restart"@,
{
}

/// A publication that failed before a restart can be tried again after it.
pub proof fn restored_publication_failures_stay_visible(
    record: RecordView,
    failure: FailureView,
    path: Seq<char>,
)
    requires
        record.session.state == CanonicalState::AwaitingPublication,
        record.publication() matches Some(publication) && publication.failure == Some(failure),
    ensures
        card_of_record(record, path).state == FfiTransferActivityState::Publishing,
        card_of_record(record, path).failure_code == failure.code,
        card_of_record(record, path).retryable == failure.retryable,
{
}

/// A source is kept under the mode of its own kind.
pub proof fn sources_keep_their_mode(source: PeerSourceView)
    ensures
        source_mode(source) is Manual <==> source is Manual,
        source_mode(source) is Invite <==> source is Invite,
        source_mode(source) is ShowManual <==> source is ShowManual,
        source_mode(source) is ShowInvite <==> source is ShowInvite,
        source_mode(source) is Mdns <==> source is Mdns,
        source_mode(source) is Room <==> source is Room,
{
}

/// A request that is made from a source again names what the source holds: every
/// secret of it, and nothing but it is changed.
pub proof fn sources_come_back_in_requests(request: RequestView, source: PeerSourceView)
    ensures
        source matches PeerSourceView::Manual { peer, token } ==> with_source(
            request,
            source,
        ).peer_descriptor == peer.compact && with_source(request, source).token == token,
        source matches PeerSourceView::Invite { invite } ==> with_source(request, source).invite
            == invite,
        source matches PeerSourceView::ShowManual { token: Some(token) } ==> with_source(
            request,
            source,
        ).token == token,
        source matches PeerSourceView::Mdns { token: Some(token) } ==> with_source(
            request,
            source,
        ).token == token,
        source matches PeerSourceView::Room { code, broker } ==> with_source(request, source).code
            == code && with_source(request, source).broker == broker,
        with_source(request, source).direction == request.direction,
        with_source(request, source).mode == request.mode,
        with_source(request, source).activity_id == request.activity_id,
        with_source(request, source).file_path == request.file_path,
        with_source(request, source).output_dir == request.output_dir,
        with_source(request, source).path_policy == request.path_policy,
        with_source(request, source).relay == request.relay,
{
}

/// A request that is made from a stored context again goes the same way: the same
/// direction, path, relay, policy and resumption, in the mode of its first source.
pub proof fn stored_contexts_make_the_request_again(activity_id: Seq<char>, context: ContextView)
    ensures
        ({
            let request = request_of(activity_id, context);
            let params = context.params;
            &&& request.activity_id == activity_id
            &&& request.direction is Send <==> params.direction is Send
            &&& request.direction is Receive <==> params.direction is Receive
            &&& params.direction is Send ==> request.file_path == params.path
            &&& params.direction is Receive ==> request.output_dir == params.path
            &&& request.resume == params.options.resume
            &&& request.publication_required == params.publication_required
            &&& params.options.relay matches Some(relay) ==> request.relay == relay
            &&& request.path_policy == ffi_path_policy_of(params.options.path)
            &&& params.sources.len() == 0 ==> request.mode is Unknown
            &&& params.sources.len() > 0 ==> request.mode == mode_of(
                source_mode(params.sources[0]),
            )
            &&& params.sources.len() > 0 ==> (params.sources[0] matches PeerSourceView::Room {
                code,
                broker,
            } ==> request.code == code && request.broker == broker)
            &&& params.sources.len() > 0 ==> (params.sources[0] matches PeerSourceView::Mdns {
                token: Some(token),
            } ==> request.token == token)
            &&& params.sources.len() > 0 ==> (params.sources[0] matches PeerSourceView::Invite {
                invite,
            } ==> request.invite == invite)
        }),
{
}

/// A context is stored exactly where the client, the attempts, the path and the
/// options of the request are in order. It holds them, with every planned source
/// once.
pub proof fn contexts_hold_their_request(
    settings: SettingsView,
    request: RequestView,
    client: Result<ClientContextView, Seq<char>>,
    lookups: LookupsView,
)
    ensures
        context_of(settings, request, client, lookups) is Ok <==> client is Ok && attempts_of(
            settings,
            request,
            lookups,
        ) is Ok && request_path(request) is Ok && options_of(settings, request, request.path_policy)
            is Ok,
        context_of(settings, request, client, lookups) matches Ok(context) ==> {
            let attempts = attempts_of(settings, request, lookups)->Ok_0;
            &&& client == Ok::<ClientContextView, Seq<char>>(context.client)
            &&& request_path(request) == Ok::<Seq<char>, Seq<char>>(context.params.path)
            &&& context.params.direction is Send <==> request.direction is Send
            &&& options_of(settings, request, request.path_policy) == Ok::<OptionsView, Seq<char>>(
                context.params.options,
            )
            &&& context.params.publication_required == request.publication_required
            &&& context.params.sources.no_duplicates()
            &&& forall|i: int|
                0 <= i < attempts.len() ==> context.params.sources.contains(
                    (#[trigger] attempts[i]).source,
                )
        },
{
    if let Ok(attempts) = attempts_of(settings, request, lookups) {
        distinct_sources_are_complete(attempts);
    }
}

/// Sources are kept in the order of their attempts, and only those: the first one
/// comes first.
pub proof fn sources_keep_the_order_of_their_attempts(attempts: Seq<AttemptView>, k: int)
    requires
        attempts.len() > 0,
        0 <= k < distinct_sources(attempts).len(),
    ensures
        distinct_sources(attempts)[0] == attempts[0].source,
        distinct_sources(attempts).len() <= attempts.len(),
        exists|i: int|
            0 <= i < attempts.len() && (#[trigger] attempts[i]).source == distinct_sources(
                attempts,
            )[k],
    decreases attempts.len(),
{
    let before = attempts.drop_last();
    let kept = distinct_sources(before);
    assert(attempts.last() == attempts[attempts.len() - 1]);
    if before.len() > 0 {
        distinct_sources_are_complete(before);
        assert(kept.contains(before[0].source));
        sources_keep_the_order_of_their_attempts(before, 0);
        if k < kept.len() {
            sources_keep_the_order_of_their_attempts(before, k);
            let i = choose|i: int|
                0 <= i < before.len() && (#[trigger] before[i]).source == kept[k];
            assert(attempts[i].source == kept[k]);
        }
    } else {
        assert(kept.len() == 0);
    }
}

/// A receipt server is an endpoint without blanks under one of two schemes, and
/// kept without the slashes at its end. A blank one is none.
pub proof fn receipt_servers_are_endpoints(value: Seq<char>)
    ensures
        is_blank(value) ==> receipt_server_of(value) == Ok::<Option<Seq<char>>, Seq<char>>(None),
        !is_blank(value) ==> (receipt_server_of(value) is Ok <==> !has_whitespace(trimmed(value))
            && ("http://"@.is_prefix_of(trimmed(value)) || "https://"@.is_prefix_of(
            trimmed(value),
        ))),
        !is_blank(value) ==> (receipt_server_of(value) matches Ok(server) ==> server == Some(
            without_trailing(trimmed(value), '/'),
        )),
{
}

/// A record goes by the id that the platform gave it, else by its own.
pub proof fn records_go_by_their_given_id(record: RecordView, id: Seq<char>)
    ensures
        record.platform_extras is None ==> record.external_id() == record.id,
        record.platform_extras matches Some(extras) ==> (extras.is_object
            && extras.external_record_id == Some(id) ==> record.external_id() == id),
        record.platform_extras matches Some(extras) ==> (!extras.is_object
            || extras.external_record_id is None ==> record.external_id() == record.id),
        record.platform_extras is None ==> record.publication() is None,
        record.platform_extras matches Some(extras) ==> (extras.is_object ==> record.publication()
            == extras.publication),
        ExtrasView::of_activity(id).external_record_id == Some(id),
        ExtrasView::of_activity(id).is_object,
        ExtrasView::of_activity(id).publication is None,
        ExtrasView::of_activity(id).others.len() == 0,
{
}

/// A session that was driven when the app ended comes back as one that lost its
/// driver; any other comes back as it was.
pub proof fn restarts_interrupt_driven_sessions(session: SessionView)
    ensures
        is_driven_state(session.state) ==> restarted(session).state == CanonicalState::Paused(
            PauseOrigin::Lost,
        ) && restarted(session).bytes == session.bytes && restarted(session).total
            == session.total,
        !is_driven_state(session.state) ==> restarted(session) == session,
        !is_driven_state(restarted(session).state),
        restarted(restarted(session)) == restarted(session),
{
}

/// A restored card goes by the id of its record and the request that it was made
/// for.
pub proof fn restored_cards_belong_to_their_record(record: RecordView, path: Seq<char>)
    ensures
        card_of_record(record, path).activity_id == record.external_id(),
        card_of_record(record, path).mode == request_of(
            record.external_id(),
            record.context,
        ).mode,
        card_of_record(record, path).created_at_ms == record.created_ms,
{
}

/// What keeps a context from being stored is told in one order: the client, the
/// attempts, the direction, the path, the options.
pub proof fn missing_contexts_say_why(
    settings: SettingsView,
    request: RequestView,
    client: Result<ClientContextView, Seq<char>>,
    lookups: LookupsView,
)
    ensures
        ({
            let context = context_of(settings, request, client, lookups);
            let planned = client is Ok && attempts_of(settings, request, lookups) is Ok;
            &&& client matches Err(reason) ==> context == Err::<ContextView, Seq<char>>(reason)
            &&& client is Ok ==> (attempts_of(settings, request, lookups) matches Err(reason)
                ==> context == Err::<ContextView, Seq<char>>(reason))
            &&& planned && request.direction is Unknown ==> context == Err::<
                ContextView,
                Seq<char>,
            >("transfer direction must not be unknown"@)
            &&& planned && !(request.direction is Unknown) ==> (request_path(request) matches Err(
                reason,
            ) ==> context == Err::<ContextView, Seq<char>>(reason))
            &&& planned && request_path(request) is Ok ==> (options_of(
                settings,
                request,
                request.path_policy,
            ) matches Err(reason) ==> context == Err::<ContextView, Seq<char>>(reason))
        }),
{
}

/// A restored card shows the failure of its publication exactly while it publishes.
pub proof fn restored_failures_belong_to_publishing(record: RecordView, path: Seq<char>)
    ensures
        ({
            let card = card_of_record(record, path);
            let request = request_of(record.external_id(), record.context);
            let plain = ActivityView::queued(request, Seq::empty(), record.created_ms).after_snapshot(
                SnapshotView {
                    seq: 0,
                    speed_bps: 0,
                    avg_bps: 0,
                    session: restarted(record.session),
                },
                path,
                record.updated_ms,
            );
            &&& !(plain.state is Publishing) ==> card == plain
            &&& record.publication() is None ==> card == plain
            &&& card.state == plain.state
            &&& card.bytes_transferred == plain.bytes_transferred
        }),
{
}

} // verus!
