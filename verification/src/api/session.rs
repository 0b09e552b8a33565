//! Manifest v2 sessions: what clients see of a running session, which routes
//! are tried in which order, how authentication and remembered credentials
//! advance, and how an offer is shown and continued.
use vstd::prelude::*;
use vstd::string::*;

use crate::api::failures::{
    report_v2_failure, reported_failure, FailureVerdict, SessionCause, SessionCauseView,
    SessionError, SessionErrorView,
};
use crate::api::invitations::{blank_field, op_err, op_error};
use crate::api::job::{encode_job_id, ManifestEntryKindV2};
use crate::api::session_types::{
    CompletionView, DataPath, DataPathView, DestinationChoiceView, DestinationDecisionV2,
    DestinationRequestV2, DestinationView, FfiDestinationDecisionV2, FfiDestinationRequestV2,
    FfiManifestEntryKindV2, FfiManifestOfferEntryV2, FfiManifestOfferPageV2,
    FfiManifestOfferSummaryV2, FfiManifestV2Completion, JudgedError, ManifestEntryV2,
    ManifestEntryView, ManifestV2, ManifestV2ProgressPhase, ManifestView, ObserverCall, ObserverCallView,
    OfferEntryView, OfferPageView, OfferSummaryView, PairingStep, RenderedError, SessionEventView,
    SessionSummary, TransferEvent,
};
use crate::api::types::{
    EnvoixError, ErrorView, FailureView, FfiConnectionPathEvent, FfiConnectionPathEventKind,
    FfiDataPathKind, FfiFailurePhase, FfiManifestV2Phase, FfiTransferDirection,
};
use crate::hex::hex_of;
use crate::text::{is_blank, joined, text_seq};

verus! {

broadcast use vstd::seq_lib::group_seq_properties;

/// What a list of observer calls holds.
pub open spec fn calls_view(calls: Seq<ObserverCall>) -> Seq<ObserverCallView> {
    calls.map_values(|call: ObserverCall| call@)
}

/// The class of a data path.
pub open spec fn path_kind_of(path: DataPathView) -> FfiDataPathKind {
    match path {
        DataPathView::Direct { .. } => FfiDataPathKind::Direct,
        DataPathView::Relay { .. } => FfiDataPathKind::Relay,
        DataPathView::Other { .. } => FfiDataPathKind::Other,
    }
}

/// Projects a data path to its class; its endpoint stays behind.
pub fn project_connection_path(path: &DataPath, event_kind: FfiConnectionPathEventKind) -> (r:
    FfiConnectionPathEvent)
    ensures
        r == (FfiConnectionPathEvent { path_kind: path_kind_of(path@), event_kind }),
{
    let path_kind = match path {
        DataPath::Direct { .. } => FfiDataPathKind::Direct,
        DataPath::Relay { .. } => FfiDataPathKind::Relay,
        DataPath::Other { .. } => FfiDataPathKind::Other,
    };
    FfiConnectionPathEvent { path_kind, event_kind }
}

/// The label of a [`FfiDataPathKind`].
pub open spec fn path_kind_name_of(value: FfiDataPathKind) -> Seq<char> {
    match value {
        FfiDataPathKind::Direct => "Direct"@,
        FfiDataPathKind::DirectIpv4 => "DirectIpv4"@,
        FfiDataPathKind::DirectIpv6 => "DirectIpv6"@,
        FfiDataPathKind::Relay => "Relay"@,
        FfiDataPathKind::WifiAware => "WifiAware"@,
        FfiDataPathKind::Other => "Other"@,
    }
}

/// The name of a path class.
pub fn path_kind_name(value: FfiDataPathKind) -> (r: &'static str)
    ensures
        r@ == path_kind_name_of(value),
{
    match value {
        FfiDataPathKind::Direct => "Direct",
        FfiDataPathKind::DirectIpv4 => "DirectIpv4",
        FfiDataPathKind::DirectIpv6 => "DirectIpv6",
        FfiDataPathKind::Relay => "Relay",
        FfiDataPathKind::WifiAware => "WifiAware",
        FfiDataPathKind::Other => "Other",
    }
}

/// The label of a [`PairingStep`].
pub open spec fn pairing_step_name_of(value: PairingStep) -> Seq<char> {
    match value {
        PairingStep::Joining => "Joining"@,
        PairingStep::Matched => "Matched"@,
        PairingStep::Exchanged => "Exchanged"@,
    }
}

/// The name of a pairing step.
pub fn pairing_step_name(value: PairingStep) -> (r: &'static str)
    ensures
        r@ == pairing_step_name_of(value),
{
    match value {
        PairingStep::Joining => "Joining",
        PairingStep::Matched => "Matched",
        PairingStep::Exchanged => "Exchanged",
    }
}

/// The phase that clients see in a pairing step.
pub open spec fn pairing_phase_of(step: PairingStep) -> Option<FfiManifestV2Phase> {
    match step {
        PairingStep::Joining => Some(FfiManifestV2Phase::WaitingForPeer),
        PairingStep::Matched | PairingStep::Exchanged => Some(FfiManifestV2Phase::Pairing),
    }
}

/// The phase that clients see in a pairing step.
pub fn pairing_phase(step: PairingStep) -> (r: Option<FfiManifestV2Phase>)
    ensures
        r == pairing_phase_of(step),
{
    match step {
        PairingStep::Joining => Some(FfiManifestV2Phase::WaitingForPeer),
        PairingStep::Matched | PairingStep::Exchanged => Some(FfiManifestV2Phase::Pairing),
    }
}

/// The [`FfiManifestV2Phase`] that stands for a [`ManifestV2ProgressPhase`].
pub open spec fn progress_phase_of(value: ManifestV2ProgressPhase) -> FfiManifestV2Phase {
    match value {
        ManifestV2ProgressPhase::Transferring => FfiManifestV2Phase::Transferring,
        ManifestV2ProgressPhase::Verifying => FfiManifestV2Phase::Verifying,
        ManifestV2ProgressPhase::Saving => FfiManifestV2Phase::Saving,
        ManifestV2ProgressPhase::WaitingForReceiverSave => FfiManifestV2Phase::WaitingForReceiverSave,
        ManifestV2ProgressPhase::FinalizingDelivery => FfiManifestV2Phase::FinalizingDelivery,
    }
}

/// Projects the phase of a running transfer.
pub fn progress_phase(value: ManifestV2ProgressPhase) -> (r: FfiManifestV2Phase)
    ensures
        r == progress_phase_of(value),
{
    match value {
        ManifestV2ProgressPhase::Transferring => FfiManifestV2Phase::Transferring,
        ManifestV2ProgressPhase::Verifying => FfiManifestV2Phase::Verifying,
        ManifestV2ProgressPhase::Saving => FfiManifestV2Phase::Saving,
        ManifestV2ProgressPhase::WaitingForReceiverSave => FfiManifestV2Phase::WaitingForReceiverSave,
        ManifestV2ProgressPhase::FinalizingDelivery => FfiManifestV2Phase::FinalizingDelivery,
    }
}

/// The calls that an event leads to.
pub open spec fn event_calls(event: SessionEventView) -> Seq<ObserverCallView> {
    match event {
        SessionEventView::Diagnostic { message } => seq![ObserverCallView::Diagnostic { message }],
        SessionEventView::Pairing { step } => {
            let note = ObserverCallView::Diagnostic {
                message: "pairing: "@ + pairing_step_name_of(step),
            };
            match pairing_phase_of(step) {
                Some(phase) => seq![ObserverCallView::Phase { phase }, note],
                None => seq![note],
            }
        },
        SessionEventView::Connecting => seq![
            ObserverCallView::Phase { phase: FfiManifestV2Phase::Connecting },
        ],
        SessionEventView::Connected { path } => seq![
            ObserverCallView::ConnectionPath {
                path: FfiConnectionPathEvent {
                    path_kind: path_kind_of(path),
                    event_kind: FfiConnectionPathEventKind::Selected,
                },
            },
            ObserverCallView::Diagnostic {
                message: "connected via "@ + path_kind_name_of(path_kind_of(path)),
            },
        ],
        SessionEventView::PathChanged { path } => seq![
            ObserverCallView::ConnectionPath {
                path: FfiConnectionPathEvent {
                    path_kind: path_kind_of(path),
                    event_kind: FfiConnectionPathEventKind::Changed,
                },
            },
            ObserverCallView::Diagnostic {
                message: "path changed: "@ + path_kind_name_of(path_kind_of(path)),
            },
        ],
        SessionEventView::Progress { bytes_transferred, total_bytes } => seq![
            ObserverCallView::Progress { transferred: bytes_transferred, total: total_bytes },
        ],
        SessionEventView::ManifestV2Phase { phase } => seq![
            ObserverCallView::Phase { phase: progress_phase_of(phase) },
        ],
    }
}

/// The calls that an event of a session leads to, in their order.
pub fn on_event(event: &TransferEvent) -> (r: Vec<ObserverCall>)
    ensures
        calls_view(r@) == event_calls(event@),
{
    let mut calls: Vec<ObserverCall> = Vec::new();
    match event {
        TransferEvent::Diagnostic { message } => {
            calls.push(ObserverCall::Diagnostic { message: message.clone() });
        },
        TransferEvent::Pairing { step } => {
            if let Some(phase) = pairing_phase(*step) {
                calls.push(ObserverCall::Phase { phase });
            }
            calls.push(
                ObserverCall::Diagnostic { message: joined("pairing: ", pairing_step_name(*step)) },
            );
        },
        TransferEvent::Connecting => {
            calls.push(ObserverCall::Phase { phase: FfiManifestV2Phase::Connecting });
        },
        TransferEvent::Connected { path } => {
            let event = project_connection_path(path, FfiConnectionPathEventKind::Selected);
            calls.push(ObserverCall::ConnectionPath { path: event });
            calls.push(
                ObserverCall::Diagnostic {
                    message: joined("connected via ", path_kind_name(event.path_kind)),
                },
            );
        },
        TransferEvent::PathChanged { path } => {
            let event = project_connection_path(path, FfiConnectionPathEventKind::Changed);
            calls.push(ObserverCall::ConnectionPath { path: event });
            calls.push(
                ObserverCall::Diagnostic {
                    message: joined("path changed: ", path_kind_name(event.path_kind)),
                },
            );
        },
        TransferEvent::Progress { bytes_transferred, total_bytes } => {
            calls.push(
                ObserverCall::Progress { transferred: *bytes_transferred, total: *total_bytes },
            );
        },
        TransferEvent::ManifestV2Phase { phase } => {
            calls.push(ObserverCall::Phase { phase: progress_phase(*phase) });
        },
    }
    assert(calls_view(calls@) =~= event_calls(event@));
    calls
}

/// What clients are told of a data path depends on its kind alone, and not on
/// its endpoint.
pub proof fn path_events_hide_endpoints(a: DataPathView, b: DataPathView)
    requires
        path_kind_of(a) == path_kind_of(b),
    ensures
        event_calls(SessionEventView::Connected { path: a }) == event_calls(
            SessionEventView::Connected { path: b },
        ),
        event_calls(SessionEventView::PathChanged { path: a }) == event_calls(
            SessionEventView::PathChanged { path: b },
        ),
{
}

/// A session error of this library's own making.
pub open spec fn own_error(cause: SessionCauseView) -> SessionErrorView {
    SessionErrorView { cause, invitation_consumed: false }
}

/// The refusal of an input.
pub open spec fn invalid_session_input(detail: Seq<char>) -> SessionErrorView {
    own_error(SessionCauseView::InvalidInput { detail })
}

pub(crate) fn invalid_session(detail: &str) -> (r: SessionError)
    ensures
        r@ == invalid_session_input(detail@),
{
    SessionError {
        cause: SessionCause::InvalidInput { detail: detail.to_owned() },
        invitation_consumed: false,
    }
}

/// The session error of a failed lookup in the engine.
pub fn op_err_core(reason: &str) -> (r: SessionError)
    ensures
        r@ == invalid_session_input(reason@),
{
    invalid_session(reason)
}

/// The value of a directory field.
pub open spec fn directory_of(value: Seq<char>, field: Seq<char>) -> Result<Seq<char>, ErrorView> {
    if is_blank(value) {
        Err(blank_field(field))
    } else {
        Ok(value)
    }
}

/// The value of a directory field, as it was given; it must not be blank.
pub fn required_directory(value: &str, field: &str) -> (r: Result<String, EnvoixError>)
    ensures
        (match r {
            Ok(text) => Ok(text@),
            Err(error) => Err(error@),
        }) == directory_of(value@, field@),
{
    if value.trim().is_empty() {
        Err(op_err(joined(field, " must not be empty")))
    } else {
        Ok(value.to_owned())
    }
}

/// The [`DestinationDecisionV2`] that stands for a [`FfiDestinationDecisionV2`].
pub open spec fn core_decision_of(value: FfiDestinationDecisionV2) -> DestinationDecisionV2 {
    match value {
        FfiDestinationDecisionV2::SaveDirectly => DestinationDecisionV2::UseDirectSave,
        FfiDestinationDecisionV2::CopyAfterVerify => DestinationDecisionV2::ContinueWithCopyAfterVerify,
    }
}

/// The engine form of how content reaches its destination.
pub fn core_destination_decision(value: FfiDestinationDecisionV2) -> (r: DestinationDecisionV2)
    ensures
        r == core_decision_of(value),
{
    match value {
        FfiDestinationDecisionV2::SaveDirectly => DestinationDecisionV2::UseDirectSave,
        FfiDestinationDecisionV2::CopyAfterVerify => DestinationDecisionV2::ContinueWithCopyAfterVerify,
    }
}

/// The engine form of a destination, or why it has none.
pub open spec fn core_destination_of(request: DestinationChoiceView) -> Result<
    DestinationView,
    ErrorView,
> {
    match directory_of(request.target_directory, "target_directory"@) {
        Err(error) => Err(error),
        Ok(target_directory) => Ok(
            DestinationView {
                target_directory,
                copy_staging_directory: match request.copy_staging_directory {
                    Some(path) => if is_blank(path) {
                        None
                    } else {
                        Some(path)
                    },
                    None => None,
                },
                decision: core_decision_of(request.decision),
                target_allocatable_bytes: request.target_allocatable_bytes,
                staging_allocatable_bytes: request.staging_allocatable_bytes,
                stable_object_identity: request.stable_object_identity,
                exceptional_transfer_approved: request.exceptional_transfer_approved,
                preplanned_root_names: None,
            },
        ),
    }
}

/// The engine form of a destination; a blank staging directory counts as none.
pub fn core_destination_request(request: &FfiDestinationRequestV2) -> (r: Result<
    DestinationRequestV2,
    EnvoixError,
>)
    ensures
        (match r {
            Ok(destination) => Ok(destination@),
            Err(error) => Err(error@),
        }) == core_destination_of(request@),
{
    match required_directory(request.target_directory.as_str(), "target_directory") {
        Err(error) => Err(error),
        Ok(target_directory) => {
            let copy_staging_directory = match &request.copy_staging_directory {
                Some(path) => if path.as_str().trim().is_empty() {
                    None
                } else {
                    Some(path.clone())
                },
                None => None,
            };
            Ok(
                DestinationRequestV2 {
                    target_directory,
                    copy_staging_directory,
                    decision: core_destination_decision(request.decision),
                    target_allocatable_bytes: request.target_allocatable_bytes,
                    staging_allocatable_bytes: request.staging_allocatable_bytes,
                    stable_object_identity: request.stable_object_identity,
                    exceptional_transfer_approved: request.exceptional_transfer_approved,
                    preplanned_root_names: None,
                },
            )
        },
    }
}

/// A count in 32 bits, or the largest where it does not fit.
pub open spec fn clamped_u32(n: nat) -> u32 {
    if n <= u32::MAX {
        n as u32
    } else {
        u32::MAX
    }
}

pub(crate) fn clamp_u32(n: usize) -> (r: u32)
    ensures
        r == clamped_u32(n as nat),
{
    if n <= u32::MAX as usize {
        n as u32
    } else {
        u32::MAX
    }
}

/// The [`FfiManifestEntryKindV2`] that stands for a [`ManifestEntryKindV2`].
pub open spec fn ffi_entry_kind_of(value: ManifestEntryKindV2) -> FfiManifestEntryKindV2 {
    match value {
        ManifestEntryKindV2::RegularFile => FfiManifestEntryKindV2::File,
        ManifestEntryKindV2::Directory => FfiManifestEntryKindV2::Directory,
    }
}

/// Projects the kind of an entry.
pub fn ffi_entry_kind(value: ManifestEntryKindV2) -> (r: FfiManifestEntryKindV2)
    ensures
        r == ffi_entry_kind_of(value),
{
    match value {
        ManifestEntryKindV2::RegularFile => FfiManifestEntryKindV2::File,
        ManifestEntryKindV2::Directory => FfiManifestEntryKindV2::Directory,
    }
}

/// The native form of an entry.
pub open spec fn offer_entry_of(entry: ManifestEntryView) -> OfferEntryView {
    OfferEntryView {
        entry_id: entry.entry_id,
        root_id: entry.root_id,
        parent_entry_id: entry.parent_entry_id,
        name: entry.component,
        kind: ffi_entry_kind_of(entry.kind),
        plaintext_size: entry.plaintext_size,
        digest_known: entry.digest_known,
    }
}

/// Projects an entry.
pub fn offer_entry(entry: &ManifestEntryV2) -> (r: FfiManifestOfferEntryV2)
    ensures
        r@ == offer_entry_of(entry@),
{
    FfiManifestOfferEntryV2 {
        entry_id: entry.entry_id,
        root_id: entry.root_id,
        parent_entry_id: entry.parent_entry_id,
        name: entry.component.clone(),
        kind: ffi_entry_kind(entry.kind),
        plaintext_size: entry.plaintext_size,
        digest_known: entry.digest_known,
    }
}

/// [`offer_entry_of`] of every item, in their order.
pub open spec fn offer_entries_of(items: Seq<ManifestEntryView>) -> Seq<OfferEntryView> {
    items.map_values(|x: ManifestEntryView| offer_entry_of(x))
}

/// Projects entries, in their order.
pub fn offer_entries(items: &Vec<ManifestEntryV2>) -> (r: Vec<FfiManifestOfferEntryV2>)
    ensures
        r@.map_values(|x: FfiManifestOfferEntryV2| x@) == offer_entries_of(items@.map_values(|x: ManifestEntryV2| x@)),
{
    let mut list: Vec<FfiManifestOfferEntryV2> = Vec::new();
    let mut i: usize = 0;
    while i < items.len()
        invariant
            i <= items@.len(),
            list@.len() == i,
            forall|k: int| 0 <= k < i ==> (#[trigger] list@[k])@ == offer_entry_of(items@[k]@),
        decreases items@.len() - i,
    {
        list.push(offer_entry(&items[i]));
        i += 1;
    }
    assert(list@.map_values(|x: FfiManifestOfferEntryV2| x@) =~= offer_entries_of(items@.map_values(|x: ManifestEntryV2| x@)));
    list
}

/// The native form of an offer. An offer above the limit of automatic
/// reception is exceptional.
pub open spec fn offer_summary_of(manifest: ManifestView, automatic_limit: u64) -> OfferSummaryView {
    OfferSummaryView {
        job_id: hex_of(manifest.job_id@),
        generation: manifest.generation,
        selection_revision: manifest.selection_revision,
        root_count: clamped_u32(manifest.roots.len()),
        file_count: manifest.totals.file_count,
        directory_count: manifest.totals.directory_count,
        total_plaintext_bytes: manifest.totals.total_plaintext_bytes,
        exceptional_offer: manifest.totals.total_plaintext_bytes > automatic_limit,
    }
}

/// A transfer that can be canceled.
pub struct FfiManifestV2Cancellation {
    cancelled: bool,
}

impl View for FfiManifestV2Cancellation {
    type V = bool;

    closed spec fn view(&self) -> bool {
        self.cancelled
    }
}

impl FfiManifestV2Cancellation {
    /// Not canceled yet.
    pub fn new() -> (r: Self)
        ensures
            !r@,
    {
        FfiManifestV2Cancellation { cancelled: false }
    }

    /// Cancels; there is no way back.
    pub fn cancel(&mut self)
        ensures
            final(self)@,
    {
        self.cancelled = true;
    }

    /// Whether the transfer was canceled.
    pub fn is_cancelled(&self) -> (r: bool)
        ensures
            r == self@,
    {
        self.cancelled
    }
}

/// Longest page of an offer's entries.
pub const MAX_OFFER_PAGE: usize = 512;

/// The length of a page that a client asks for.
pub open spec fn page_limit(limit: u32) -> int {
    if limit < 1 {
        1
    } else if limit > MAX_OFFER_PAGE {
        MAX_OFFER_PAGE as int
    } else {
        limit as int
    }
}

/// Where a page starts.
pub open spec fn page_start(count: nat, offset: u32) -> int {
    if offset <= count {
        offset as int
    } else {
        count as int
    }
}

/// Where a page ends.
pub open spec fn page_end(count: nat, offset: u32, limit: u32) -> int {
    let end = page_start(count, offset) + page_limit(limit);
    if end <= count {
        end
    } else {
        count as int
    }
}

/// A page of entries.
pub open spec fn offer_page(entries: Seq<OfferEntryView>, offset: u32, limit: u32) -> OfferPageView {
    let start = page_start(entries.len(), offset);
    let end = page_end(entries.len(), offset, limit);
    OfferPageView {
        entries: entries.subrange(start, end),
        next_offset: if end < entries.len() {
            Some(clamped_u32(end as nat))
        } else {
            None
        },
    }
}

/// An authenticated offer.
#[verifier::ext_equal]
pub struct PendingView {
    pub summary: OfferSummaryView,
    pub entries: Seq<OfferEntryView>,
    pub state_directory: Seq<char>,
    /// Whether a client has continued it.
    pub continued: bool,
}

/// An authenticated offer that a client can look at and continue once.
pub struct FfiPendingManifestV2Receive {
    summary: FfiManifestOfferSummaryV2,
    entries: Vec<FfiManifestOfferEntryV2>,
    state_directory: String,
    continued: bool,
}

impl View for FfiPendingManifestV2Receive {
    type V = PendingView;

    closed spec fn view(&self) -> PendingView {
        PendingView {
            summary: self.summary@,
            entries: self.entries@.map_values(|x: FfiManifestOfferEntryV2| x@),
            state_directory: self.state_directory@,
            continued: self.continued,
        }
    }
}

/// Shows an authenticated offer. `automatic_limit` is the size up to which
/// offers are received without asking.
pub fn project_pending_offer(manifest: &ManifestV2, automatic_limit: u64, state_directory: &str) -> (r:
    FfiPendingManifestV2Receive)
    ensures
        r@ == (PendingView {
            summary: offer_summary_of(manifest@, automatic_limit),
            entries: offer_entries_of(manifest@.entries),
            state_directory: state_directory@,
            continued: false,
        }),
{
    let total = manifest.totals.total_plaintext_bytes;
    assert(manifest@.roots.len() == manifest.roots@.len());
    let summary = FfiManifestOfferSummaryV2 {
        job_id: encode_job_id(&manifest.job_id),
        generation: manifest.generation,
        selection_revision: manifest.selection_revision,
        root_count: clamp_u32(manifest.roots.len()),
        file_count: manifest.totals.file_count,
        directory_count: manifest.totals.directory_count,
        total_plaintext_bytes: total,
        exceptional_offer: total > automatic_limit,
    };
    FfiPendingManifestV2Receive {
        summary,
        entries: offer_entries(&manifest.entries),
        state_directory: state_directory.to_owned(),
        continued: false,
    }
}

/// What the engine says of a received transfer.
pub struct ReceiveSummary {
    pub session: SessionSummary,
    /// The final path of each planned root, where it has one.
    pub root_paths: Vec<Option<String>>,
}

/// The paths that are there, in their order.
pub open spec fn present_paths(paths: Seq<Option<String>>) -> Seq<Seq<char>>
    decreases paths.len(),
{
    if paths.len() == 0 {
        Seq::empty()
    } else {
        match paths.last() {
            Some(path) => present_paths(paths.drop_last()).push(path@),
            None => present_paths(paths.drop_last()),
        }
    }
}

fn present_path_list(paths: &Vec<Option<String>>) -> (r: Vec<String>)
    ensures
        text_seq(r@) == present_paths(paths@),
{
    let mut list: Vec<String> = Vec::new();
    let mut i: usize = 0;
    assert(paths@.take(0) =~= Seq::empty());
    assert(text_seq(list@) =~= Seq::empty());
    while i < paths.len()
        invariant
            i <= paths@.len(),
            text_seq(list@) == present_paths(paths@.take(i as int)),
        decreases paths@.len() - i,
    {
        let ghost next = paths@.take(i + 1);
        assert(next.drop_last() =~= paths@.take(i as int));
        assert(next.last() == paths@[i as int]);
        let ghost before = text_seq(list@);
        if let Some(path) = &paths[i] {
            list.push(path.clone());
            assert(text_seq(list@) =~= before.push(path@));
        }
        i += 1;
    }
    assert(paths@.take(i as int) =~= paths@);
    list
}

/// What a client is told after a session: the result, and the calls that its
/// observer got on the way.
pub struct SessionReport {
    pub result: Result<FfiManifestV2Completion, EnvoixError>,
    pub calls: Vec<ObserverCall>,
}

/// The view of a result.
pub open spec fn completion_result(result: Result<FfiManifestV2Completion, EnvoixError>) -> Result<
    CompletionView,
    ErrorView,
> {
    match result {
        Ok(completion) => Ok(completion@),
        Err(error) => Err(error@),
    }
}

/// The calls of a transfer that was delivered.
pub open spec fn delivered_calls(total: u64) -> Seq<ObserverCallView> {
    seq![
        ObserverCallView::Phase { phase: FfiManifestV2Phase::Delivered },
        ObserverCallView::Completed { bytes: total },
    ]
}

pub(crate) fn delivered_call_list(total: u64) -> (r: Vec<ObserverCall>)
    ensures
        calls_view(r@) == delivered_calls(total),
{
    let mut calls: Vec<ObserverCall> = Vec::new();
    calls.push(ObserverCall::Phase { phase: FfiManifestV2Phase::Delivered });
    calls.push(ObserverCall::Completed { bytes: total });
    assert(calls_view(calls@) =~= delivered_calls(total));
    calls
}

/// The calls of a failed transfer.
pub open spec fn failed_calls(failure: FailureView) -> Seq<ObserverCallView> {
    seq![ObserverCallView::Failed { failure }]
}

/// Whether a call tells that a transfer was delivered.
pub open spec fn tells_delivery(call: ObserverCallView) -> bool {
    call is Completed || call == (ObserverCallView::Phase { phase: FfiManifestV2Phase::Delivered })
}

/// Only the report of a session that ended with a delivery proof tells that a
/// transfer was delivered: no event of a running session does, and no failure.
pub proof fn only_proofs_tell_delivery(event: SessionEventView, failure: FailureView, total: u64)
    ensures
        forall|i: int|
            0 <= i < event_calls(event).len() ==> !tells_delivery(#[trigger] event_calls(event)[i]),
        forall|i: int|
            0 <= i < failed_calls(failure).len() ==> !tells_delivery(
                #[trigger] failed_calls(failure)[i],
            ),
        forall|i: int|
            0 <= i < delivered_calls(total).len() ==> tells_delivery(
                #[trigger] delivered_calls(total)[i],
            ),
{
}

/// A report of a failed session.
pub open spec fn is_failure_report(
    report: SessionReport,
    error: RenderedError,
    verdict: FailureVerdict,
    direction: FfiTransferDirection,
    phase: FfiFailurePhase,
) -> bool {
    &&& completion_result(report.result) == Err::<CompletionView, ErrorView>(
        ErrorView::Operation { reason: error.rendered@ },
    )
    &&& calls_view(report.calls@) == failed_calls(
        reported_failure(error.error@, error.rendered@, verdict, direction, phase),
    )
}

/// Reports a failed session to its observer and to the client.
pub fn failure_report(
    error: &RenderedError,
    verdict: FailureVerdict,
    direction: FfiTransferDirection,
    phase: FfiFailurePhase,
) -> (r: SessionReport)
    ensures
        is_failure_report(r, *error, verdict, direction, phase),
{
    let failure = report_v2_failure(
        &error.error,
        error.rendered.as_str(),
        verdict,
        direction,
        phase,
    );
    let ghost shown = failure@;
    let mut calls: Vec<ObserverCall> = Vec::new();
    calls.push(ObserverCall::Failed { failure });
    assert(calls_view(calls@) =~= failed_calls(shown));
    SessionReport { result: Err(op_err(error.rendered.clone())), calls }
}

impl FfiPendingManifestV2Receive {
    /// What the offer amounts to.
    pub fn summary(&self) -> (r: FfiManifestOfferSummaryV2)
        ensures
            r@ == self@.summary,
    {
        self.summary.clone()
    }

    /// The directory in which the session keeps its state.
    pub fn state_directory(&self) -> (r: &str)
        ensures
            r@ == self@.state_directory,
    {
        self.state_directory.as_str()
    }

    /// A page of the offer's entries. Pages hold at least one entry while there
    /// is one, and at most [`MAX_OFFER_PAGE`].
    pub fn list_entries(&self, offset: u32, limit: u32) -> (r: FfiManifestOfferPageV2)
        ensures
            r@ == offer_page(self@.entries, offset, limit),
    {
        let count: usize = self.entries.len();
        let start: usize = if (offset as usize) <= count {
            offset as usize
        } else {
            count
        };
        let wanted: usize = if limit < 1 {
            1
        } else if (limit as usize) > MAX_OFFER_PAGE {
            MAX_OFFER_PAGE
        } else {
            limit as usize
        };
        let end: usize = if wanted <= count - start {
            start + wanted
        } else {
            count
        };
        let mut page: Vec<FfiManifestOfferEntryV2> = Vec::new();
        let mut i: usize = start;
        while i < end
            invariant
                start <= i <= end,
                end <= self.entries@.len(),
                page@.len() == i - start,
                forall|k: int|
                    0 <= k < i - start ==> (#[trigger] page@[k])@ == self.entries@[start + k]@,
            decreases end - i,
        {
            page.push(self.entries[i].clone());
            i += 1;
        }
        assert(page@.map_values(|x: FfiManifestOfferEntryV2| x@) =~= self@.entries.subrange(
            start as int,
            end as int,
        ));
        FfiManifestOfferPageV2 {
            entries: page,
            next_offset: if end < count {
                Some(clamp_u32(end))
            } else {
                None
            },
        }
    }

    /// Continues the offer towards a destination. This is the only step after
    /// which payload may flow, and it can be taken once.
    pub fn begin_receive(&mut self, destination: &FfiDestinationRequestV2) -> (r: Result<
        (DestinationRequestV2, Vec<ObserverCall>),
        EnvoixError,
    >)
        ensures
            match r {
                Ok((request, calls)) => {
                    &&& !old(self)@.continued
                    &&& core_destination_of(destination@) == Ok::<DestinationView, ErrorView>(
                        request@,
                    )
                    &&& calls_view(calls@) == seq![
                        ObserverCallView::Started {
                            item_count: clamped_u32(old(self)@.entries.len()),
                            total_bytes: old(self)@.summary.total_plaintext_bytes,
                        },
                    ]
                    &&& final(self)@ == (PendingView { continued: true, ..old(self)@ })
                },
                Err(error) => {
                    &&& final(self)@ == old(self)@
                    &&& match core_destination_of(destination@) {
                        Err(refusal) => error@ == refusal,
                        Ok(_) => old(self)@.continued && error@ == (ErrorView::Operation {
                            reason: "this authenticated offer has already been continued"@,
                        }),
                    }
                },
            },
    {
        let request = match core_destination_request(destination) {
            Ok(request) => request,
            Err(error) => return Err(error),
        };
        if self.continued {
            return Err(op_error("this authenticated offer has already been continued"));
        }
        self.continued = true;
        assert(self@.entries.len() == self.entries@.len());
        let mut calls: Vec<ObserverCall> = Vec::new();
        calls.push(
            ObserverCall::Started {
                item_count: clamp_u32(self.entries.len()),
                total_bytes: self.summary.total_plaintext_bytes,
            },
        );
        assert(calls_view(calls@) =~= seq![
            ObserverCallView::Started {
                item_count: clamped_u32(self@.entries.len()),
                total_bytes: self@.summary.total_plaintext_bytes,
            },
        ]);
        Ok((request, calls))
    }

    /// Reports how a continued offer ended.
    pub fn finish_receive(&self, outcome: &Result<ReceiveSummary, JudgedError>) -> (r: SessionReport)
        ensures
            match *outcome {
                Ok(summary) => {
                    &&& completion_result(r.result) == Ok::<CompletionView, ErrorView>(
                        CompletionView {
                            job_id: self@.summary.job_id,
                            entry_count: clamped_u32(summary.session@.entry_result_count as nat),
                            total_plaintext_bytes: self@.summary.total_plaintext_bytes,
                            delivery_proof_digest: summary.session@.delivery_proof_digest,
                            saved_paths: present_paths(summary.root_paths@),
                        },
                    )
                    &&& calls_view(r.calls@) == delivered_calls(
                        self@.summary.total_plaintext_bytes,
                    )
                },
                Err(error) => is_failure_report(
                    r,
                    error.failure,
                    error.verdict,
                    FfiTransferDirection::Receive,
                    FfiFailurePhase::Committing,
                ),
            },
    {
        match outcome {
            Err(error) => failure_report(
                &error.failure,
                error.verdict,
                FfiTransferDirection::Receive,
                FfiFailurePhase::Committing,
            ),
            Ok(summary) => {
                let delivery_proof_digest = summary.session.delivery_proof_digest.clone();
                assert(delivery_proof_digest@ =~= summary.session.delivery_proof_digest@);
                SessionReport {
                    result: Ok(
                        FfiManifestV2Completion {
                            job_id: self.summary.job_id.clone(),
                            entry_count: clamp_u32(summary.session.entry_result_count),
                            total_plaintext_bytes: self.summary.total_plaintext_bytes,
                            delivery_proof_digest,
                            saved_paths: present_path_list(&summary.root_paths),
                        },
                    ),
                    calls: delivered_call_list(self.summary.total_plaintext_bytes),
                }
            },
        }
    }
}

/// Walking an offer page by page shows every entry once: a page that is not
/// the last leads on to where it ended.
pub proof fn pages_cover_the_offer(entries: Seq<OfferEntryView>, offset: u32, limit: u32)
    requires
        entries.len() <= u32::MAX,
        offset <= entries.len(),
    ensures
        match offer_page(entries, offset, limit).next_offset {
            Some(next) => {
                &&& offset < next < entries.len()
                &&& offer_page(entries, offset, limit).entries == entries.subrange(
                    offset as int,
                    next as int,
                )
            },
            None => offer_page(entries, offset, limit).entries == entries.subrange(
                offset as int,
                entries.len() as int,
            ),
        },
        offer_page(entries, offset, limit).entries.len() <= MAX_OFFER_PAGE,
{
}

/// Path kinds, pairing steps, phases, decisions and kinds of a session keep their
/// meaning on the way to clients and back.
pub proof fn session_values_keep_their_names(
    path_kind: FfiDataPathKind,
    step: PairingStep,
    phase: ManifestV2ProgressPhase,
    decision: FfiDestinationDecisionV2,
    kind: ManifestEntryKindV2,
)
    ensures
        path_kind is Direct ==> path_kind_name_of(path_kind) == "Direct"@,
        path_kind is DirectIpv4 ==> path_kind_name_of(path_kind) == "DirectIpv4"@,
        path_kind is DirectIpv6 ==> path_kind_name_of(path_kind) == "DirectIpv6"@,
        path_kind is Relay ==> path_kind_name_of(path_kind) == "Relay"@,
        path_kind is WifiAware ==> path_kind_name_of(path_kind) == "WifiAware"@,
        path_kind is Other ==> path_kind_name_of(path_kind) == "Other"@,
        step is Joining ==> pairing_step_name_of(step) == "Joining"@,
        step is Matched ==> pairing_step_name_of(step) == "Matched"@,
        step is Exchanged ==> pairing_step_name_of(step) == "Exchanged"@,
        progress_phase_of(phase) is Transferring <==> phase is Transferring,
        progress_phase_of(phase) is Verifying <==> phase is Verifying,
        progress_phase_of(phase) is Saving <==> phase is Saving,
        progress_phase_of(phase) is WaitingForReceiverSave <==> phase is WaitingForReceiverSave,
        progress_phase_of(phase) is FinalizingDelivery <==> phase is FinalizingDelivery,
        core_decision_of(decision) is UseDirectSave <==> decision is SaveDirectly,
        core_decision_of(decision) is ContinueWithCopyAfterVerify <==> decision is CopyAfterVerify,
        ffi_entry_kind_of(kind) is File <==> kind is RegularFile,
        ffi_entry_kind_of(kind) is Directory <==> kind is Directory,
{
}

/// The observer of a session is told each event as it is: its path by kind, its
/// bytes, its phase, its text.
pub proof fn session_events_are_told_as_they_are(event: SessionEventView)
    ensures
        event matches SessionEventView::Diagnostic { message } ==> event_calls(event) == seq![
            ObserverCallView::Diagnostic { message },
        ],
        event matches SessionEventView::Progress { bytes_transferred, total_bytes } ==> event_calls(
            event,
        ) == seq![ObserverCallView::Progress { transferred: bytes_transferred, total: total_bytes }],
        event is Connecting ==> event_calls(event) == seq![
            ObserverCallView::Phase { phase: FfiManifestV2Phase::Connecting },
        ],
        event matches SessionEventView::ManifestV2Phase { phase } ==> event_calls(event) == seq![
            ObserverCallView::Phase { phase: progress_phase_of(phase) },
        ],
        event matches SessionEventView::Pairing { step } ==> event_calls(event).len() == 2
            && event_calls(event)[0] == (ObserverCallView::Phase {
            phase: if step is Joining {
                FfiManifestV2Phase::WaitingForPeer
            } else {
                FfiManifestV2Phase::Pairing
            },
        }) && event_calls(event)[1] == (ObserverCallView::Diagnostic {
            message: "pairing: "@ + pairing_step_name_of(step),
        }),
        event matches SessionEventView::Connected { path } ==> event_calls(event).len() == 2
            && event_calls(event)[0] == (ObserverCallView::ConnectionPath {
            path: FfiConnectionPathEvent {
                path_kind: path_kind_of(path),
                event_kind: FfiConnectionPathEventKind::Selected,
            },
        }) && event_calls(event)[1] == (ObserverCallView::Diagnostic {
            message: "connected via "@ + path_kind_name_of(path_kind_of(path)),
        }),
        event matches SessionEventView::PathChanged { path } ==> event_calls(event).len() == 2
            && event_calls(event)[0] == (ObserverCallView::ConnectionPath {
            path: FfiConnectionPathEvent {
                path_kind: path_kind_of(path),
                event_kind: FfiConnectionPathEventKind::Changed,
            },
        }) && event_calls(event)[1] == (ObserverCallView::Diagnostic {
            message: "path changed: "@ + path_kind_name_of(path_kind_of(path)),
        }),
{
}

/// A path is shown by its kind alone.
pub proof fn paths_are_shown_by_their_kind(path: DataPathView)
    ensures
        path_kind_of(path) is Direct <==> path is Direct,
        path_kind_of(path) is Relay <==> path is Relay,
        path_kind_of(path) is Other <==> path is Other,
{
}

/// A destination reaches the engine as it was chosen, and exactly where it names a
/// directory. A blank staging directory is none.
pub proof fn destinations_reach_the_engine(request: DestinationChoiceView)
    ensures
        core_destination_of(request) is Ok <==> !is_blank(request.target_directory),
        core_destination_of(request) matches Ok(engine) ==> {
            &&& engine.target_directory == request.target_directory
            &&& engine.decision is UseDirectSave <==> request.decision is SaveDirectly
            &&& engine.target_allocatable_bytes == request.target_allocatable_bytes
            &&& engine.staging_allocatable_bytes == request.staging_allocatable_bytes
            &&& engine.stable_object_identity == request.stable_object_identity
            &&& engine.exceptional_transfer_approved == request.exceptional_transfer_approved
            &&& engine.preplanned_root_names is None
            &&& request.copy_staging_directory matches Some(path) ==> (!is_blank(path)
                ==> engine.copy_staging_directory == Some(path))
            &&& request.copy_staging_directory matches Some(path) ==> (is_blank(path)
                ==> engine.copy_staging_directory is None)
            &&& request.copy_staging_directory is None ==> engine.copy_staging_directory is None
        },
        core_destination_of(request) matches Err(error) ==> error == (ErrorView::Operation {
            reason: "target_directory"@ + " must not be empty"@,
        }),
{
}

/// A directory is taken as it is given, and needed.
pub proof fn directories_are_needed(value: Seq<char>, field: Seq<char>)
    ensures
        !is_blank(value) ==> directory_of(value, field) == Ok::<Seq<char>, ErrorView>(value),
        is_blank(value) ==> directory_of(value, field) == Err::<Seq<char>, ErrorView>(
            ErrorView::Operation { reason: field + " must not be empty"@ },
        ),
{
}

/// An offer is summed up by its own job, counts and bytes. It is exceptional
/// exactly above what is accepted by itself.
pub proof fn offers_are_summed_up(manifest: ManifestView, automatic_limit: u64)
    ensures
        ({
            let summary = offer_summary_of(manifest, automatic_limit);
            &&& summary.job_id == hex_of(manifest.job_id@)
            &&& summary.generation == manifest.generation
            &&& summary.selection_revision == manifest.selection_revision
            &&& manifest.roots.len() <= u32::MAX ==> summary.root_count == manifest.roots.len()
            &&& summary.file_count == manifest.totals.file_count
            &&& summary.directory_count == manifest.totals.directory_count
            &&& summary.total_plaintext_bytes == manifest.totals.total_plaintext_bytes
            &&& summary.exceptional_offer <==> manifest.totals.total_plaintext_bytes
                > automatic_limit
        }),
{
}

/// An entry of an offer is shown with its own ids, name and size, one for one.
pub proof fn offers_show_their_entries(entries: Seq<ManifestEntryView>, i: int)
    requires
        0 <= i < entries.len(),
    ensures
        offer_entries_of(entries).len() == entries.len(),
        offer_entries_of(entries)[i].entry_id == entries[i].entry_id,
        offer_entries_of(entries)[i].root_id == entries[i].root_id,
        offer_entries_of(entries)[i].parent_entry_id == entries[i].parent_entry_id,
        offer_entries_of(entries)[i].name == entries[i].component,
        offer_entries_of(entries)[i].plaintext_size == entries[i].plaintext_size,
        offer_entries_of(entries)[i].digest_known == entries[i].digest_known,
        offer_entries_of(entries)[i].kind is Directory <==> entries[i].kind is Directory,
{
}

/// A page holds at least one entry where one is left, and at most as many as were
/// asked for.
pub proof fn pages_are_as_long_as_asked(entries: Seq<OfferEntryView>, offset: u32, limit: u32)
    ensures
        offer_page(entries, offset, limit).entries.len() <= 512,
        limit > 0 ==> offer_page(entries, offset, limit).entries.len() <= limit,
        offset < entries.len() ==> offer_page(entries, offset, limit).entries.len() > 0,
        offset < entries.len() ==> offer_page(entries, offset, limit).entries[0]
            == entries[offset as int],
        1 <= limit <= 512 && offset + limit <= entries.len() ==> offer_page(
            entries,
            offset,
            limit,
        ).entries.len() == limit,
        offset >= entries.len() ==> offer_page(entries, offset, limit).entries.len() == 0
            && offer_page(entries, offset, limit).next_offset is None,
{
}

/// A count that does not fit is shown as the largest that does.
pub proof fn counts_are_clamped(n: nat)
    ensures
        n <= u32::MAX ==> clamped_u32(n) == n,
        n > u32::MAX ==> clamped_u32(n) == u32::MAX,
{
}

/// The paths of a completion are the known ones, in their order.
pub proof fn known_paths_are_kept(paths: Seq<Option<String>>, path: Option<String>)
    ensures
        present_paths(Seq::empty()).len() == 0,
        path is None ==> present_paths(paths.push(path)) == present_paths(paths),
        path is Some ==> present_paths(paths.push(path)) == present_paths(paths).push(path->0@),
{
    assert(paths.push(path).drop_last() =~= paths);
}

/// A delivery is told with all of its bytes, and a failure once, as it is.
pub proof fn ends_are_told_once(total: u64, failure: FailureView)
    ensures
        delivered_calls(total).len() == 2,
        delivered_calls(total)[0] == (ObserverCallView::Phase {
            phase: FfiManifestV2Phase::Delivered,
        }),
        delivered_calls(total)[1] == (ObserverCallView::Completed { bytes: total }),
        failed_calls(failure).len() == 1,
        failed_calls(failure)[0] == (ObserverCallView::Failed { failure }),
{
}

/// A failed session is reported once: the caller gets the text of the error, and the
/// observer the failure that it was judged to be, in the same direction and phase.
pub proof fn failed_sessions_are_reported_once(
    report: SessionReport,
    error: RenderedError,
    verdict: FailureVerdict,
    direction: FfiTransferDirection,
    phase: FfiFailurePhase,
)
    requires
        is_failure_report(report, error, verdict, direction, phase),
    ensures
        report.result is Err,
        report.result->Err_0@ == (ErrorView::Operation { reason: error.rendered@ }),
        calls_view(report.calls@).len() == 1,
        calls_view(report.calls@)[0] == (ObserverCallView::Failed {
            failure: reported_failure(error.error@, error.rendered@, verdict, direction, phase),
        }),
{
}

/// An error of the session's own uses up no invitation and keeps its text.
pub proof fn own_errors_keep_the_invitation(cause: SessionCauseView, detail: Seq<char>)
    ensures
        own_error(cause).cause == cause,
        !own_error(cause).invitation_consumed,
        invalid_session_input(detail).cause == (SessionCauseView::InvalidInput { detail }),
        !invalid_session_input(detail).invitation_consumed,
{
}

} // verus!
