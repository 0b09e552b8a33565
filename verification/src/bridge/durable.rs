//! Durable cards: what native clients may ask of them, their publication
//! state, and how they start and come back after a restart.
use vstd::prelude::*;
use vstd::string::*;

use crate::bridge::activity::{
    can_cancel_durable_activity, can_pause_durable_activity, can_resume_durable_activity,
    is_running_state, is_terminal_state, is_request_file_name,
};
use crate::bridge::engine::{
    ClientContext, ClientContextView, ContextView, SessionContext,
};
use crate::bridge::models::{
    ActivityView, EnvoixError, EnvoixRuntimeSettings, FailureView, FfiNativePublicationTarget,
    FfiTransferActivityRecord, FfiTransferActivityState, FfiTransferDirection, FfiTransferFailure,
    FfiTransferRequest, PersistedNativePublication, PublicationTargetView, PublicationView,
    RequestView, SettingsView,
};
use crate::bridge::records::{
    activity_from_canonical_record, canonical_context_for_request, card_of_record, client_view,
    context_of, external_activity_id, native_publication_metadata_from_extras, ExtrasView,
    PlatformExtras, RecordView, TransferRecord,
};
use crate::bridge::routes::{
    op_err, op_error, request_problem, required_of, required_value, validate_transfer_request,
    LookupsView, SourceLookups,
};
use crate::bridge::snapshot::{is_completed_path, is_stored_state};
use crate::bridge::session::{prepare_request, prepared_request};
use crate::text::{is_blank, joined, same_text, text_option, trimmed, trimmed_text};

verus! {

broadcast use vstd::seq_lib::group_seq_properties;

/// One durable card and what the bindings keep beside it.
#[derive(Debug, PartialEq, Eq)]
pub struct DurableEnvoixSession {
    /// Whether the engine session behind the card still exists.
    pub has_driver: bool,
    pub activity: FfiTransferActivityRecord,
    /// Key of the completion receipt that is being fetched.
    pub pending_receipt_key: Option<String>,
    pub platform_extras: PlatformExtras,
}

/// What a [`DurableEnvoixSession`] holds.
#[verifier::ext_equal]
pub struct DurableView {
    pub has_driver: bool,
    pub activity: ActivityView,
    pub pending_receipt_key: Option<Seq<char>>,
    pub platform_extras: ExtrasView,
}

impl View for DurableEnvoixSession {
    type V = DurableView;

    open spec fn view(&self) -> DurableView {
        DurableView {
            has_driver: self.has_driver,
            activity: self.activity@,
            pending_receipt_key: text_option(self.pending_receipt_key),
            platform_extras: self.platform_extras@,
        }
    }
}

impl Clone for DurableEnvoixSession {
    fn clone(&self) -> (r: Self)
        ensures
            r@ == self@,
    {
        let r = DurableEnvoixSession {
            has_driver: self.has_driver,
            activity: self.activity.clone(),
            pending_receipt_key: self.pending_receipt_key.clone(),
            platform_extras: self.platform_extras.clone(),
        };
        r
    }
}

/// The answer to a receipt request that goes to the engine.
#[derive(Debug, PartialEq, Eq)]
pub struct ReceiptReply {
    pub key: String,
    /// The receipt, where there is one.
    pub blob: Option<Vec<u8>>,
}

impl ExtrasView {
    /// The extras with a publication state in them.
    pub open spec fn with_publication(self, publication: PublicationView) -> ExtrasView {
        ExtrasView { publication: Some(publication), ..self }
    }

    /// The publication target in the extras.
    pub open spec fn target(self) -> Option<PublicationTargetView> {
        match self.stored_publication() {
            Some(publication) => publication.target,
            None => None,
        }
    }
}

/// Whether a card takes a publication target.
pub open spec fn takes_target(card: ActivityView, destination: Seq<char>) -> bool {
    &&& !is_blank(destination)
    &&& card.direction == FfiTransferDirection::Receive
    &&& !is_terminal_state(card.state)
}

/// Whether a card takes a publication failure.
pub open spec fn takes_publication_failure(card: ActivityView, failure: FailureView) -> bool {
    &&& card.state == FfiTransferActivityState::Publishing
    &&& failure.retryable
    &&& failure.direction == FfiTransferDirection::Receive || failure.direction
        == FfiTransferDirection::Unknown
}

pub(crate) fn accepts_target(activity: &FfiTransferActivityRecord, target: &FfiNativePublicationTarget) -> (r:
    bool)
    ensures
        r == takes_target(activity@, target@.destination_path),
{
    !target.destination_path.as_str().trim().is_empty() && activity.direction
        == FfiTransferDirection::Receive && !matches!(
        activity.state,
        FfiTransferActivityState::Completed | FfiTransferActivityState::Canceled
            | FfiTransferActivityState::Failed
    )
}

pub(crate) fn accepts_publication_failure(
    activity: &FfiTransferActivityRecord,
    failure: &FfiTransferFailure,
) -> (r: bool)
    ensures
        r == takes_publication_failure(activity@, failure@),
{
    activity.state == FfiTransferActivityState::Publishing && failure.retryable && matches!(
        failure.direction,
        FfiTransferDirection::Receive | FfiTransferDirection::Unknown
    )
}

/// The publication state of a fresh target; an earlier failure is forgotten.
pub open spec fn fresh_publication(target: PublicationTargetView) -> PublicationView {
    PublicationView {
        target: Some(
            PublicationTargetView { destination_path: trimmed(target.destination_path), ..target },
        ),
        failure: None,
    }
}

/// The publication state after a failure; the target stays.
pub open spec fn failed_publication(extras: ExtrasView, failure: FailureView) -> PublicationView {
    PublicationView { target: extras.target(), failure: Some(failure) }
}

pub(crate) fn extras_with_target(extras: &PlatformExtras, target: &FfiNativePublicationTarget) -> (r:
    PlatformExtras)
    ensures
        r@ == extras@.with_publication(fresh_publication(target@)),
{
    let fresh = FfiNativePublicationTarget {
        destination_path: trimmed_text(target.destination_path.as_str()),
        bookmark: target.bookmark.clone(),
    };
    assert(fresh.bookmark@ =~= target.bookmark@);
    let others = extras.others.clone();
    let r = PlatformExtras {
        is_object: extras.is_object,
        external_record_id: extras.external_record_id.clone(),
        publication: Some(PersistedNativePublication { target: Some(fresh), failure: None }),
        others,
    };
    assert(r@.others =~= extras@.others);
    r
}

pub(crate) fn extras_with_failure(extras: &PlatformExtras, failure: &FfiTransferFailure) -> (r: PlatformExtras)
    ensures
        r@ == extras@.with_publication(failed_publication(extras@, failure@)),
{
    let target = match native_publication_metadata_from_extras(extras) {
        Some(publication) => publication.target,
        None => None,
    };
    let others = extras.others.clone();
    let r = PlatformExtras {
        is_object: extras.is_object,
        external_record_id: extras.external_record_id.clone(),
        publication: Some(
            PersistedNativePublication { target, failure: Some(failure.clone()) },
        ),
        others,
    };
    assert(r@.others =~= extras@.others);
    r
}

impl DurableEnvoixSession {
    /// The card behind a running engine session.
    pub fn started(activity: FfiTransferActivityRecord, platform_extras: PlatformExtras) -> (r: Self)
        ensures
            r@ == (DurableView {
                has_driver: true,
                activity: activity@,
                pending_receipt_key: None,
                platform_extras: platform_extras@,
            }),
    {
        DurableEnvoixSession {
            has_driver: true,
            activity,
            pending_receipt_key: None,
            platform_extras,
        }
    }

    /// Whether the engine is to be asked to pause.
    pub fn pause(&self) -> (r: bool)
        ensures
            r == (self@.has_driver && is_running_state(self@.activity.state)
                && !self@.activity.is_finalizing()),
    {
        self.has_driver && can_pause_durable_activity(&self.activity)
    }

    /// Whether the engine is to be asked to resume.
    pub fn resume(&self) -> (r: bool)
        ensures
            r == (self@.has_driver && (self@.activity.state == FfiTransferActivityState::Paused
                || self@.activity.state == FfiTransferActivityState::Unconfirmed
                || self@.activity.state == FfiTransferActivityState::Failed || self@.activity.state
                == FfiTransferActivityState::Canceled)),
    {
        self.has_driver && can_resume_durable_activity(&self.activity)
    }

    /// Whether the engine is to be asked to cancel.
    pub fn cancel(&self) -> (r: bool)
        ensures
            r == (self@.has_driver && (is_running_state(self@.activity.state)
                || self@.activity.state == FfiTransferActivityState::Paused || self@.activity.state
                == FfiTransferActivityState::Unconfirmed || self@.activity.state
                == FfiTransferActivityState::Publishing) && !self@.activity.is_finalizing()),
    {
        self.has_driver && can_cancel_durable_activity(&self.activity)
    }

    /// Remembers which receipt native code is fetching.
    pub fn fetch_receipt(&mut self, key: String)
        ensures
            final(self)@ == (DurableView { pending_receipt_key: Some(key@), ..old(self)@ }),
    {
        self.pending_receipt_key = Some(key);
    }

    /// Takes the answer of the courier. Each fetch is answered once; an empty
    /// blob means that there is no receipt.
    pub fn receipt_response(&mut self, blob: Vec<u8>) -> (r: Option<ReceiptReply>)
        ensures
            final(self)@ == (DurableView { pending_receipt_key: None, ..old(self)@ }),
            r is Some == (old(self)@.pending_receipt_key is Some && old(self)@.has_driver),
            r matches Some(reply) ==> Some(reply.key@) == old(self)@.pending_receipt_key && (
            match reply.blob {
                Some(bytes) => blob@.len() > 0 && bytes@ == blob@,
                None => blob@.len() == 0,
            }),
    {
        let key = self.pending_receipt_key.take();
        match key {
            Some(key) => if self.has_driver {
                let blob = if blob.len() == 0 {
                    None
                } else {
                    Some(blob)
                };
                Some(ReceiptReply { key, blob })
            } else {
                None
            },
            None => None,
        }
    }

    /// Whether the engine is to be told that its receipt was posted.
    pub fn receipt_posted(&self) -> (r: bool)
        ensures
            r == self@.has_driver,
    {
        self.has_driver
    }

    /// The extras to hand to the engine for a new publication target, where
    /// the card takes one.
    pub fn target_candidate(&self, target: &FfiNativePublicationTarget) -> (r: Option<PlatformExtras>)
        ensures
            r is Some == (takes_target(self@.activity, target@.destination_path)
                && self@.platform_extras.is_object && self@.has_driver),
            r matches Some(extras) ==> extras@ == self@.platform_extras.with_publication(
                fresh_publication(target@),
            ),
    {
        if !accepts_target(&self.activity, target) || !self.platform_extras.is_object
            || !self.has_driver {
            return None;
        }
        Some(extras_with_target(&self.platform_extras, target))
    }

    /// Persists or replaces the publication target, once the engine has
    /// `stored` the candidate extras. The last publication failure is cleared
    /// so that the same card can be retried in place.
    pub fn set_publication_target(
        &mut self,
        target: &FfiNativePublicationTarget,
        stored: bool,
        now_ms: u64,
    ) -> (r: bool)
        ensures
            r == (stored && takes_target(old(self)@.activity, target@.destination_path) && old(
                self,
            )@.platform_extras.is_object && old(self)@.has_driver),
            !r ==> final(self)@ == old(self)@,
            r ==> final(self)@ == (DurableView {
                platform_extras: old(self)@.platform_extras.with_publication(
                    fresh_publication(target@),
                ),
                activity: ActivityView {
                    updated_at_ms: now_ms,
                    ..old(self)@.activity.without_failure()
                },
                ..old(self)@
            }),
    {
        match self.target_candidate(target) {
            Some(extras) => if stored {
                self.platform_extras = extras;
                self.activity.clear_failure_metadata(now_ms);
                true
            } else {
                false
            },
            None => false,
        }
    }

    /// The publication target of the card.
    pub fn publication_target(&self) -> (r: Option<FfiNativePublicationTarget>)
        ensures
            (match r {
                Some(target) => Some(target@),
                None => None,
            }) == self@.platform_extras.target(),
    {
        match native_publication_metadata_from_extras(&self.platform_extras) {
            Some(publication) => publication.target,
            None => None,
        }
    }

    /// The extras to hand to the engine for a publication failure, where the
    /// card takes one.
    pub fn failure_candidate(&self, failure: &FfiTransferFailure) -> (r: Option<PlatformExtras>)
        ensures
            r is Some == (takes_publication_failure(self@.activity, failure@)
                && self@.platform_extras.is_object && self@.has_driver),
            r matches Some(extras) ==> extras@ == self@.platform_extras.with_publication(
                failed_publication(self@.platform_extras, failure@),
            ),
    {
        if !accepts_publication_failure(&self.activity, failure) || !self.platform_extras.is_object
            || !self.has_driver {
            return None;
        }
        Some(extras_with_failure(&self.platform_extras, failure))
    }

    /// Persists a publication failure, once the engine has `stored` the
    /// candidate extras. The card stays publishing so that the same staged
    /// bytes can be tried again.
    pub fn publication_failed(&mut self, failure: &FfiTransferFailure, stored: bool, now_ms: u64) -> (r:
        bool)
        ensures
            r == (stored && takes_publication_failure(old(self)@.activity, failure@) && old(
                self,
            )@.platform_extras.is_object && old(self)@.has_driver),
            !r ==> final(self)@ == old(self)@,
            r ==> final(self)@ == (DurableView {
                platform_extras: old(self)@.platform_extras.with_publication(
                    failed_publication(old(self)@.platform_extras, failure@),
                ),
                activity: old(self)@.activity.publication_failed(failure@, now_ms),
                ..old(self)@
            }),
    {
        match self.failure_candidate(failure) {
            Some(extras) => if stored {
                self.platform_extras = extras;
                self.activity.apply_publication_failure(failure, now_ms);
                true
            } else {
                false
            },
            None => false,
        }
    }

    /// The path to report to the engine as published, where the card waits for
    /// its publication.
    pub fn publication_succeeded(&self, path: &str) -> (r: Option<String>)
        ensures
            text_option(r) == (if !is_blank(path@) && self@.activity.state
                == FfiTransferActivityState::Publishing && self@.has_driver {
                Some(trimmed(path@))
            } else {
                None
            }),
    {
        let path = path.trim();
        if path.is_empty() || self.activity.state != FfiTransferActivityState::Publishing
            || !self.has_driver {
            return None;
        }
        Some(path.to_owned())
    }

    /// Gives the engine session up for good; false where it is gone already.
    pub fn remove(&mut self) -> (r: bool)
        ensures
            r == old(self)@.has_driver,
            final(self)@ == (DurableView { has_driver: false, ..old(self)@ }),
    {
        let r = self.has_driver;
        self.has_driver = false;
        r
    }

    /// The card.
    pub fn activity(&self) -> (r: FfiTransferActivityRecord)
        ensures
            r@ == self@.activity,
    {
        self.activity.clone()
    }
}

/// A stored target is the one that is read back, trimmed.
pub proof fn stored_targets_are_read_back(extras: ExtrasView, target: PublicationTargetView)
    requires
        extras.is_object,
    ensures
        extras.with_publication(fresh_publication(target)).target() == fresh_publication(
            target,
        ).target,
        extras.with_publication(fresh_publication(target)).external_record_id
            == extras.external_record_id,
        extras.with_publication(fresh_publication(target)).others == extras.others,
{
}

/// A publication failure does not lose the target, so the same publication can
/// be tried again.
pub proof fn publication_failures_keep_the_target(extras: ExtrasView, failure: FailureView)
    requires
        extras.is_object,
    ensures
        extras.with_publication(failed_publication(extras, failure)).target() == extras.target(),
{
}

/// Everything that a durable transfer starts with.
#[derive(Debug, PartialEq, Eq)]
pub struct DurableStart {
    pub request: FfiTransferRequest,
    pub records_dir: String,
    pub context: SessionContext,
    pub extras: PlatformExtras,
    pub activity: FfiTransferActivityRecord,
}

/// What a [`DurableStart`] holds.
#[verifier::ext_equal]
pub struct DurableStartView {
    pub request: RequestView,
    pub records_dir: Seq<char>,
    pub context: ContextView,
    pub extras: ExtrasView,
    pub activity: ActivityView,
}

impl View for DurableStart {
    type V = DurableStartView;

    open spec fn view(&self) -> DurableStartView {
        DurableStartView {
            request: self.request@,
            records_dir: self.records_dir@,
            context: self.context@,
            extras: self.extras@,
            activity: self.activity@,
        }
    }
}

impl Clone for DurableStart {
    fn clone(&self) -> (r: Self)
        ensures
            r@ == self@,
    {
        let r = DurableStart {
            request: self.request.clone(),
            records_dir: self.records_dir.clone(),
            context: self.context.clone(),
            extras: self.extras.clone(),
            activity: self.activity.clone(),
        };
        r
    }
}

/// The view of a started durable transfer, or why it does not start.
pub open spec fn start_result(result: Result<DurableStart, EnvoixError>) -> Result<
    DurableStartView,
    Seq<char>,
> {
    match result {
        Ok(start) => Ok(start@),
        Err(error) => Err(error.reason_view()),
    }
}

/// The context with a receipt endpoint in it, where one is given.
pub open spec fn with_receipt_server(context: ContextView, server: Option<Seq<char>>) -> ContextView {
    if server is Some {
        ContextView {
            client: ClientContextView { receipt_server: server, ..context.client },
            ..context
        }
    } else {
        context
    }
}

/// What a durable transfer starts with, for the name that its card shows, or
/// why it does not start.
pub open spec fn durable_start_of(
    settings: SettingsView,
    request: RequestView,
    records_dir: Seq<char>,
    receipt_server: Option<Seq<char>>,
    client: Result<ClientContextView, Seq<char>>,
    client_error: Option<Seq<char>>,
    lookups: LookupsView,
    file_name: Seq<char>,
    now_ms: u64,
) -> Result<DurableStartView, Seq<char>> {
    match request_problem(settings, request, client_error, lookups) {
        Some(reason) => Err(reason),
        None => match required_of(records_dir, "records_dir"@) {
            Err(reason) => Err(reason),
            Ok(records_dir) => match context_of(settings, request, client, lookups) {
                Err(reason) => Err(reason),
                Ok(context) => Ok(
                    DurableStartView {
                        request,
                        records_dir,
                        context: with_receipt_server(context, receipt_server),
                        extras: ExtrasView::of_activity(request.activity_id),
                        activity: ActivityView::queued(request, file_name, now_ms),
                    },
                ),
            },
        },
    }
}

/// Prepares a durable transfer. A given receipt endpoint is frozen into the
/// context before the first snapshot.
pub fn start_durable_transfer(
    settings: &EnvoixRuntimeSettings,
    request: FfiTransferRequest,
    records_dir: &str,
    receipt_server: Option<String>,
    client: Result<ClientContext, String>,
    client_error: &Option<String>,
    lookups: &SourceLookups,
    next_activity: &mut u64,
    now_ms: u64,
) -> (r: Result<DurableStart, EnvoixError>)
    ensures
        exists|file_name: Seq<char>|
            #![trigger is_request_file_name(
                prepared_request(request@, settings@, *old(next_activity)),
                file_name,
            )]
            is_request_file_name(
                prepared_request(request@, settings@, *old(next_activity)),
                file_name,
            ) && start_result(r) == durable_start_of(
                settings@,
                prepared_request(request@, settings@, *old(next_activity)),
                records_dir@,
                text_option(receipt_server),
                client_view(client),
                text_option(*client_error),
                lookups@,
                file_name,
                now_ms,
            ),
        *final(next_activity) == (if is_blank(request@.activity_id) {
            old(next_activity).wrapping_add(1)
        } else {
            *old(next_activity)
        }),
{
    let request = prepare_request(request, settings, next_activity);
    let activity = FfiTransferActivityRecord::from_request(&request, now_ms);
    let ghost name = activity@.file_name;
    assert(is_request_file_name(request@, name));
    if let Err(error) = validate_transfer_request(settings, &request, client_error, lookups) {
        return Err(error);
    }
    let records_dir = match required_value(records_dir, "records_dir") {
        Ok(dir) => dir,
        Err(error) => return Err(error),
    };
    let mut context = match canonical_context_for_request(settings, &request, client, lookups) {
        Ok(context) => context,
        Err(error) => return Err(error),
    };
    if receipt_server.is_some() {
        let ghost before = context@;
        context.client.receipt_server = receipt_server;
        assert(context@.params == before.params);
    }
    let extras = PlatformExtras::of_activity(request.activity_id.as_str());
    Ok(DurableStart { request, records_dir, context, extras, activity })
}

/// Checks that a record found under the id of a request is its own.
pub fn check_record_collision(existing: &Option<TransferRecord>, activity_id: &str) -> (r: Result<
    (),
    EnvoixError,
>)
    ensures
        match r {
            Ok(_) => existing matches Some(record) ==> record@.external_id() == activity_id@,
            Err(error) => {
                &&& existing matches Some(record) && record@.external_id() != activity_id@
                &&& error.reason_view() == "activity id collided with an existing durable record"@
            },
        },
{
    if let Some(record) = existing {
        if !same_text(external_activity_id(record).as_str(), activity_id) {
            return Err(op_error("activity id collided with an existing durable record"));
        }
    }
    Ok(())
}

/// Finds the record that native code knows under an activity id: the first
/// one of that id among the records of a directory.
pub fn find_durable_record(
    records: &Vec<TransferRecord>,
    activity_id: &str,
    records_dir: &str,
) -> (r: Result<usize, EnvoixError>)
    ensures
        match r {
            Ok(i) => {
                &&& i < records@.len()
                &&& !is_blank(activity_id@)
                &&& !is_blank(records_dir@)
                &&& records@[i as int]@.external_id() == trimmed(activity_id@)
                &&& forall|k: int|
                    0 <= k < i ==> (#[trigger] records@[k])@.external_id() != trimmed(activity_id@)
            },
            Err(error) => if is_blank(activity_id@) {
                error.reason_view() == "activity_id"@ + " must not be empty"@
            } else if is_blank(records_dir@) {
                error.reason_view() == "records_dir"@ + " must not be empty"@
            } else {
                &&& error.reason_view() == "transfer record not found: "@ + trimmed(activity_id@)
                &&& forall|k: int|
                    0 <= k < records@.len() ==> (#[trigger] records@[k])@.external_id() != trimmed(
                        activity_id@,
                    )
            },
        },
{
    let id = match required_value(activity_id, "activity_id") {
        Ok(id) => id,
        Err(error) => return Err(error),
    };
    if let Err(error) = required_value(records_dir, "records_dir") {
        return Err(error);
    }
    let mut i: usize = 0;
    while i < records.len()
        invariant
            i <= records@.len(),
            id@ == trimmed(activity_id@),
            !is_blank(activity_id@),
            !is_blank(records_dir@),
            forall|k: int| 0 <= k < i ==> (#[trigger] records@[k])@.external_id() != id@,
        decreases records@.len() - i,
    {
        if same_text(external_activity_id(&records[i]).as_str(), id.as_str()) {
            return Ok(i);
        }
        i += 1;
    }
    Err(op_err(joined("transfer record not found: ", id.as_str())))
}

/// The extras of a restored record; a record without any gets those of its
/// activity.
pub fn restored_extras(record: &TransferRecord, activity_id: &str) -> (r: PlatformExtras)
    ensures
        r@ == (match record@.platform_extras {
            Some(extras) => extras,
            None => ExtrasView::of_activity(activity_id@),
        }),
{
    match &record.platform_extras {
        Some(extras) => extras.clone(),
        None => PlatformExtras::of_activity(activity_id),
    }
}

/// Renders every stored record as a card.
fn stored_cards(records: &Vec<TransferRecord>) -> (r: Vec<FfiTransferActivityRecord>)
    ensures
        r@.len() == records@.len(),
        forall|i: int|
            0 <= i < r@.len() ==> (#[trigger] r@[i])@ == card_of_record(
                records@[i]@,
                r@[i]@.completed_file_path,
            ),
        forall|i: int|
            #![trigger r@[i]]
            0 <= i < r@.len() && is_stored_state(records@[i].session.state) ==> is_completed_path(
                records@[i].context@,
                records@[i].session@,
                r@[i]@.completed_file_path,
            ),
{
    let mut cards: Vec<FfiTransferActivityRecord> = Vec::new();
    let mut i: usize = 0;
    while i < records.len()
        invariant
            i <= records@.len(),
            cards@.len() == i,
            forall|k: int|
                0 <= k < i ==> (#[trigger] cards@[k])@ == card_of_record(
                    records@[k]@,
                    cards@[k]@.completed_file_path,
                ),
            forall|k: int|
                #![trigger cards@[k]]
                0 <= k < i && is_stored_state(records@[k].session.state) ==> is_completed_path(
                    records@[k].context@,
                    records@[k].session@,
                    cards@[k]@.completed_file_path,
                ),
        decreases records@.len() - i,
    {
        cards.push(activity_from_canonical_record(&records[i]));
        i += 1;
    }
    cards
}

/// Lists the cards of all records of a directory. `records` is what the
/// directory holds.
pub fn list_durable_transfer_records(records_dir: &str, records: &Vec<TransferRecord>) -> (r: Result<
    Vec<FfiTransferActivityRecord>,
    EnvoixError,
>)
    ensures
        match r {
            Err(error) => is_blank(records_dir@) && error.reason_view() == "records_dir"@
                + " must not be empty"@,
            Ok(cards) => {
                &&& !is_blank(records_dir@)
                &&& cards@.len() == records@.len()
                &&& forall|i: int|
                    0 <= i < cards@.len() ==> (#[trigger] cards@[i])@ == card_of_record(
                        records@[i]@,
                        cards@[i]@.completed_file_path,
                    )
                &&& forall|i: int|
                    #![trigger cards@[i]]
                    0 <= i < cards@.len() && is_stored_state(records@[i].session.state)
                        ==> is_completed_path(
                        records@[i].context@,
                        records@[i].session@,
                        cards@[i]@.completed_file_path,
                    )
            },
        },
{
    match required_value(records_dir, "records_dir") {
        Err(error) => Err(error),
        Ok(_) => Ok(stored_cards(records)),
    }
}

/// The identity file of a session that may listen: one that needs a stable
/// address and has no file yet takes the one of its record.
pub open spec fn listener_identity_of(
    current: Option<Seq<char>>,
    needs_stable_address: bool,
    record_path: Seq<char>,
) -> Option<Seq<char>> {
    if needs_stable_address && current is None {
        Some(record_path)
    } else {
        current
    }
}

/// The identity file of a restored session that may listen.
pub fn restored_listener_identity(
    current: &Option<String>,
    needs_stable_address: bool,
    record_path: &str,
) -> (r: Option<String>)
    ensures
        text_option(r) == listener_identity_of(
            text_option(*current),
            needs_stable_address,
            record_path@,
        ),
{
    match current {
        Some(path) => Some(path.clone()),
        None => if needs_stable_address {
            Some(record_path.to_owned())
        } else {
            None
        },
    }
}

/// The identity file of a new session: one that needs a stable address always
/// takes the one of its record.
pub fn new_listener_identity(
    current: &Option<String>,
    needs_stable_address: bool,
    record_path: &str,
) -> (r: Option<String>)
    ensures
        text_option(r) == (if needs_stable_address {
            Some(record_path@)
        } else {
            text_option(*current)
        }),
{
    if needs_stable_address {
        Some(record_path.to_owned())
    } else {
        current.clone()
    }
}

impl RecordView {
    /// The record with the identity file that its session is restored with.
    pub open spec fn listening(self, needs_stable_address: bool, record_path: Seq<char>) -> RecordView {
        RecordView {
            context: ContextView {
                client: ClientContextView {
                    identity_file: listener_identity_of(
                        self.context.client.identity_file,
                        needs_stable_address,
                        record_path,
                    ),
                    ..self.context.client
                },
                ..self.context
            },
            ..self
        }
    }
}

/// A stored transfer that is about to run again.
#[derive(Debug, PartialEq, Eq)]
pub struct RestoredTransfer {
    /// The record that the engine continues from.
    pub record: TransferRecord,
    /// The card that native code sees until the first notice.
    pub session: DurableEnvoixSession,
}

/// Brings a stored transfer back: its card, its extras, and the identity file
/// that a listening session keeps its address with.
pub fn restore_durable_transfer(
    record: TransferRecord,
    needs_stable_address: bool,
    record_path: &str,
) -> (r: RestoredTransfer)
    ensures
        r.record@ == record@.listening(needs_stable_address, record_path@),
        r.session@ == (DurableView {
            has_driver: true,
            activity: card_of_record(r.record@, r.session@.activity.completed_file_path),
            pending_receipt_key: None,
            platform_extras: match record@.platform_extras {
                Some(extras) => extras,
                None => ExtrasView::of_activity(record@.external_id()),
            },
        }),
        is_stored_state(record.session.state) ==> is_completed_path(
            r.record@.context,
            record.session@,
            r.session@.activity.completed_file_path,
        ),
{
    let mut record = record;
    let ghost stored = record@;
    let activity_id = external_activity_id(&record);
    let extras = restored_extras(&record, activity_id.as_str());
    record.context.client.identity_file =
    restored_listener_identity(
        &record.context.client.identity_file,
        needs_stable_address,
        record_path,
    );
    assert(record@ == stored.listening(needs_stable_address, record_path@));
    let activity = activity_from_canonical_record(&record);
    let session = DurableEnvoixSession::started(activity, extras);
    RestoredTransfer { record, session }
}

/// A target is taken exactly for a received transfer that has not ended, and a
/// publication failure exactly while the platform publishes and may try again.
pub proof fn targets_belong_to_received_transfers(
    card: ActivityView,
    destination: Seq<char>,
    failure: FailureView,
)
    ensures
        takes_target(card, destination) <==> !is_blank(destination) && card.direction is Receive
            && !(card.state is Completed) && !(card.state is Failed) && !(card.state is Canceled),
        takes_publication_failure(card, failure) <==> card.state is Publishing && failure.retryable
            && !(failure.direction is Send),
{
}

/// A taken target is kept as it was given, but for the blanks around its path, and
/// takes back an earlier failure. A failure is kept beside the target.
pub proof fn publications_keep_target_and_failure(
    extras: ExtrasView,
    target: PublicationTargetView,
    failure: FailureView,
)
    ensures
        fresh_publication(target).failure is None,
        fresh_publication(target).target matches Some(kept) && kept.destination_path == trimmed(
            target.destination_path,
        ) && (PublicationTargetView { destination_path: target.destination_path, ..kept })
            == target,
        failed_publication(extras, failure).failure == Some(failure),
        failed_publication(extras, failure).target == extras.target(),
{
}

/// A stored publication is kept beside everything else that a record holds.
pub proof fn publications_leave_other_members(extras: ExtrasView, publication: PublicationView)
    ensures
        extras.with_publication(publication).publication == Some(publication),
        extras.with_publication(publication).is_object == extras.is_object,
        extras.with_publication(publication).external_record_id == extras.external_record_id,
        extras.with_publication(publication).others == extras.others,
{
}

/// A receipt server is used where one is given, and else the client's stays.
pub proof fn given_receipt_servers_are_used(context: ContextView, server: Option<Seq<char>>)
    ensures
        server is Some ==> with_receipt_server(context, server).client.receipt_server == server,
        server is None ==> with_receipt_server(context, server) == context,
        with_receipt_server(context, server).params == context.params,
        with_receipt_server(context, server).client.identity_file == context.client.identity_file,
{
}

/// A durable transfer starts exactly where its request can be served, it has a
/// directory for its records and a context. It starts as a card that waits, under
/// the request's own id.
pub proof fn durable_transfers_start_from_their_request(
    settings: SettingsView,
    request: RequestView,
    records_dir: Seq<char>,
    receipt_server: Option<Seq<char>>,
    client: Result<ClientContextView, Seq<char>>,
    client_error: Option<Seq<char>>,
    lookups: LookupsView,
    file_name: Seq<char>,
    now_ms: u64,
)
    ensures
        ({
            let start = durable_start_of(
                settings,
                request,
                records_dir,
                receipt_server,
                client,
                client_error,
                lookups,
                file_name,
                now_ms,
            );
            &&& start is Ok <==> request_problem(settings, request, client_error, lookups) is None
                && !is_blank(records_dir) && context_of(settings, request, client, lookups) is Ok
            &&& start matches Ok(begun) ==> {
                &&& begun.request == request
                &&& begun.records_dir == trimmed(records_dir)
                &&& begun.activity.activity_id == request.activity_id
                &&& begun.activity.state is Queued
                &&& begun.activity.file_name == file_name
                &&& begun.activity.created_at_ms == now_ms
                &&& begun.extras.external_record_id == Some(request.activity_id)
                &&& begun.extras.publication is None
                &&& receipt_server is Some ==> begun.context.client.receipt_server
                    == receipt_server
                &&& context_of(settings, request, client, lookups) matches Ok(context)
                    && begun.context.params == context.params
            }
            &&& request_problem(settings, request, client_error, lookups) matches Some(reason)
                ==> start == Err::<DurableStartView, Seq<char>>(reason)
        }),
{
}

/// A listener that needs a stable address keeps its identity beside its record,
/// unless it has one; nothing else of the record changes.
pub proof fn listeners_keep_their_identity(
    record: RecordView,
    needs_stable_address: bool,
    record_path: Seq<char>,
)
    ensures
        record.context.client.identity_file is Some ==> record.listening(
            needs_stable_address,
            record_path,
        ) == record,
        !needs_stable_address ==> record.listening(needs_stable_address, record_path) == record,
        needs_stable_address && record.context.client.identity_file is None ==> record.listening(
            needs_stable_address,
            record_path,
        ).context.client.identity_file == Some(record_path),
        record.listening(needs_stable_address, record_path).context.params == record.context.params,
        record.listening(needs_stable_address, record_path).session == record.session,
        record.listening(needs_stable_address, record_path).id == record.id,
{
}

/// What keeps a durable transfer from starting is told in one order: the request,
/// the directory of its records, its context.
pub proof fn refused_durable_starts_say_why(
    settings: SettingsView,
    request: RequestView,
    records_dir: Seq<char>,
    receipt_server: Option<Seq<char>>,
    client: Result<ClientContextView, Seq<char>>,
    client_error: Option<Seq<char>>,
    lookups: LookupsView,
    file_name: Seq<char>,
    now_ms: u64,
)
    requires
        request_problem(settings, request, client_error, lookups) is None,
    ensures
        ({
            let start = durable_start_of(
                settings,
                request,
                records_dir,
                receipt_server,
                client,
                client_error,
                lookups,
                file_name,
                now_ms,
            );
            &&& is_blank(records_dir) ==> start == Err::<DurableStartView, Seq<char>>(
                "records_dir"@ + " must not be empty"@,
            )
            &&& !is_blank(records_dir) ==> (context_of(settings, request, client, lookups)
                matches Err(reason) ==> start == Err::<DurableStartView, Seq<char>>(reason))
        }),
{
}

} // verus!
