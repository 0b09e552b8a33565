//! Engine events: their native form, how often native clients see progress,
//! and the callbacks each event leads to.
use vstd::prelude::*;
use vstd::string::*;

use crate::bridge::engine::{
    DataPath, DataPathView, PairingStep, PeerDescriptor, PeerDescriptorView, QrInvitePayload,
    QrInviteView, TransferDirection, TransferMode,
};
use crate::bridge::labels::{
    advertised_description, advertised_endpoint_debug, engine_direction_name,
    engine_direction_name_of, engine_mode_name, engine_mode_name_of, pairing_step_label, step_label,
};
use crate::bridge::models::{
    ActivityView, EventView, FailureView, FfiDataPathKind, FfiPairingStep, FfiTransferActivityRecord,
    FfiTransferDirection, FfiTransferEvent, FfiTransferEventKind, FfiTransferFailure,
    FfiTransferMode,
};
use crate::bridge::projection::{
    data_path_of, direction_of, ffi_data_path, ffi_direction, ffi_pairing_step, ffi_transfer_mode,
    mode_of, pairing_step_of,
};
use crate::bridge::snapshot::{or_empty, text_or_empty};
use crate::text::{decimal, decimal_text, joined, joined3, text_option};

verus! {

broadcast use vstd::seq_lib::group_seq_properties;

/// Native UIs do not need one callback per network chunk. A bounded cadence
/// keeps large transfers from flooding the UI thread.
pub const NATIVE_PROGRESS_INTERVAL_MS: u64 = 500;

/// Terminal status of one Manifest entry.
#[derive(Clone, Copy, Debug, PartialEq, Eq, Structural)]
pub enum ManifestEntryResultStatus {
    Completed,
    SkippedIdentical,
    Renamed,
    Failed,
    Cancelled,
}

/// The label of a [`ManifestEntryResultStatus`].
pub open spec fn result_status_label(value: ManifestEntryResultStatus) -> Seq<char> {
    match value {
        ManifestEntryResultStatus::Completed => "completed"@,
        ManifestEntryResultStatus::SkippedIdentical => "skipped_identical"@,
        ManifestEntryResultStatus::Renamed => "renamed"@,
        ManifestEntryResultStatus::Failed => "failed"@,
        ManifestEntryResultStatus::Cancelled => "cancelled"@,
    }
}

/// Label of a Manifest entry status.
pub fn manifest_result_status_label(value: ManifestEntryResultStatus) -> (r: &'static str)
    ensures
        r@ == result_status_label(value),
{
    match value {
        ManifestEntryResultStatus::Completed => "completed",
        ManifestEntryResultStatus::SkippedIdentical => "skipped_identical",
        ManifestEntryResultStatus::Renamed => "renamed",
        ManifestEntryResultStatus::Failed => "failed",
        ManifestEntryResultStatus::Cancelled => "cancelled",
    }
}

/// Receiver-authoritative result of one Manifest entry.
#[derive(Debug, PartialEq, Eq)]
pub struct ManifestEntryResult {
    pub entry_id: u32,
    pub status: ManifestEntryResultStatus,
    pub offered_relative_path: String,
    pub final_relative_path: Option<String>,
    pub failure_code: Option<String>,
}

/// What a [`ManifestEntryResult`] holds.
#[verifier::ext_equal]
pub struct EntryResultView {
    pub entry_id: u32,
    pub status: ManifestEntryResultStatus,
    pub offered_relative_path: Seq<char>,
    pub final_relative_path: Option<Seq<char>>,
    pub failure_code: Option<Seq<char>>,
}

impl View for ManifestEntryResult {
    type V = EntryResultView;

    open spec fn view(&self) -> EntryResultView {
        EntryResultView {
            entry_id: self.entry_id,
            status: self.status,
            offered_relative_path: self.offered_relative_path@,
            final_relative_path: text_option(self.final_relative_path),
            failure_code: text_option(self.failure_code),
        }
    }
}

impl Clone for ManifestEntryResult {
    fn clone(&self) -> (r: Self)
        ensures
            r == *self,
    {
        ManifestEntryResult {
            entry_id: self.entry_id,
            status: self.status,
            offered_relative_path: self.offered_relative_path.clone(),
            final_relative_path: self.final_relative_path.clone(),
            failure_code: self.failure_code.clone(),
        }
    }
}

/// An event that the engine reports.
#[derive(Debug, PartialEq, Eq)]
pub enum TransferEvent {
    Diagnostic { message: String },
    Binding { direction: TransferDirection, mode: TransferMode },
    Advertised { peer: PeerDescriptor, token: Option<String>, invite: Option<String> },
    Pairing { step: PairingStep },
    Connecting,
    /// `path_text` is the path in the engine's own words.
    Connected { path: DataPath, path_text: String },
    /// `path_text` is the path in the engine's own words.
    PathChanged { path: DataPath, path_text: String },
    Started { transfer_id: String, direction: TransferDirection, file_name: String, total_bytes: u64, bytes_resumed: u64 },
    Progress { transfer_id: String, bytes_transferred: u64, total_bytes: u64 },
    Verifying { transfer_id: String, direction: TransferDirection, file_name: String, bytes_to_hash: u64 },
    Verified { transfer_id: String, direction: TransferDirection, file_name: String, bytes_hashed: u64 },
    Confirming { transfer_id: String },
    Completed { transfer_id: String, file_name: String, bytes_transferred: u64 },
    ManifestPreparingEntry { manifest_id: String, entry_id: u32, relative_path: String, size: u64 },
    ManifestPlanned { direction: TransferDirection, manifest_id: String, file_count: u32, directory_count: u32, root_count: u32, total_bytes: u64 },
    ManifestStarted { manifest_id: String, direction: TransferDirection, file_count: u32, directory_count: u32, total_bytes: u64 },
    ManifestEntryStarted { manifest_id: String, entry_id: u32, transfer_id: String, relative_path: String, total_bytes: u64, bytes_resumed: u64 },
    ManifestProgress { manifest_id: String, entry_id: u32, entry_bytes: u64, entry_total_bytes: u64, completed_bytes: u64, total_bytes: u64 },
    ManifestEntryCompleted { manifest_id: String, result: ManifestEntryResult },
    ManifestCompleted { manifest_id: String, file_count: u32, directory_count: u32, total_bytes: u64 },
    Failed { direction: TransferDirection, reason: String },
    /// An event that these bindings do not render.
    Unlisted,
}

/// What a [`TransferEvent`] holds.
#[verifier::ext_equal]
pub enum EngineEventView {
    Diagnostic { message: Seq<char> },
    Binding { direction: TransferDirection, mode: TransferMode },
    Advertised { peer: PeerDescriptorView, token: Option<Seq<char>>, invite: Option<Seq<char>> },
    Pairing { step: PairingStep },
    Connecting,
    Connected { path: DataPathView, path_text: Seq<char> },
    PathChanged { path: DataPathView, path_text: Seq<char> },
    Started { transfer_id: Seq<char>, direction: TransferDirection, file_name: Seq<char>, total_bytes: u64, bytes_resumed: u64 },
    Progress { transfer_id: Seq<char>, bytes_transferred: u64, total_bytes: u64 },
    Verifying { transfer_id: Seq<char>, direction: TransferDirection, file_name: Seq<char>, bytes_to_hash: u64 },
    Verified { transfer_id: Seq<char>, direction: TransferDirection, file_name: Seq<char>, bytes_hashed: u64 },
    Confirming { transfer_id: Seq<char> },
    Completed { transfer_id: Seq<char>, file_name: Seq<char>, bytes_transferred: u64 },
    ManifestPreparingEntry { manifest_id: Seq<char>, entry_id: u32, relative_path: Seq<char>, size: u64 },
    ManifestPlanned { direction: TransferDirection, manifest_id: Seq<char>, file_count: u32, directory_count: u32, root_count: u32, total_bytes: u64 },
    ManifestStarted { manifest_id: Seq<char>, direction: TransferDirection, file_count: u32, directory_count: u32, total_bytes: u64 },
    ManifestEntryStarted { manifest_id: Seq<char>, entry_id: u32, transfer_id: Seq<char>, relative_path: Seq<char>, total_bytes: u64, bytes_resumed: u64 },
    ManifestProgress { manifest_id: Seq<char>, entry_id: u32, entry_bytes: u64, entry_total_bytes: u64, completed_bytes: u64, total_bytes: u64 },
    ManifestEntryCompleted { manifest_id: Seq<char>, result: EntryResultView },
    ManifestCompleted { manifest_id: Seq<char>, file_count: u32, directory_count: u32, total_bytes: u64 },
    Failed { direction: TransferDirection, reason: Seq<char> },
    Unlisted,
}

impl View for TransferEvent {
    type V = EngineEventView;

    open spec fn view(&self) -> EngineEventView {
        match *self {
            TransferEvent::Diagnostic { message } => EngineEventView::Diagnostic { message: message@ },
            TransferEvent::Binding { direction, mode } => EngineEventView::Binding { direction, mode },
            TransferEvent::Advertised { peer, token, invite } => EngineEventView::Advertised { peer: peer@, token: text_option(token), invite: text_option(invite) },
            TransferEvent::Pairing { step } => EngineEventView::Pairing { step },
            TransferEvent::Connecting => EngineEventView::Connecting,
            TransferEvent::Connected { path, path_text } => EngineEventView::Connected { path: path@, path_text: path_text@ },
            TransferEvent::PathChanged { path, path_text } => EngineEventView::PathChanged { path: path@, path_text: path_text@ },
            TransferEvent::Started { transfer_id, direction, file_name, total_bytes, bytes_resumed } => EngineEventView::Started { transfer_id: transfer_id@, direction, file_name: file_name@, total_bytes, bytes_resumed },
            TransferEvent::Progress { transfer_id, bytes_transferred, total_bytes } => EngineEventView::Progress { transfer_id: transfer_id@, bytes_transferred, total_bytes },
            TransferEvent::Verifying { transfer_id, direction, file_name, bytes_to_hash } => EngineEventView::Verifying { transfer_id: transfer_id@, direction, file_name: file_name@, bytes_to_hash },
            TransferEvent::Verified { transfer_id, direction, file_name, bytes_hashed } => EngineEventView::Verified { transfer_id: transfer_id@, direction, file_name: file_name@, bytes_hashed },
            TransferEvent::Confirming { transfer_id } => EngineEventView::Confirming { transfer_id: transfer_id@ },
            TransferEvent::Completed { transfer_id, file_name, bytes_transferred } => EngineEventView::Completed { transfer_id: transfer_id@, file_name: file_name@, bytes_transferred },
            TransferEvent::ManifestPreparingEntry { manifest_id, entry_id, relative_path, size } => EngineEventView::ManifestPreparingEntry { manifest_id: manifest_id@, entry_id, relative_path: relative_path@, size },
            TransferEvent::ManifestPlanned { direction, manifest_id, file_count, directory_count, root_count, total_bytes } => EngineEventView::ManifestPlanned { direction, manifest_id: manifest_id@, file_count, directory_count, root_count, total_bytes },
            TransferEvent::ManifestStarted { manifest_id, direction, file_count, directory_count, total_bytes } => EngineEventView::ManifestStarted { manifest_id: manifest_id@, direction, file_count, directory_count, total_bytes },
            TransferEvent::ManifestEntryStarted { manifest_id, entry_id, transfer_id, relative_path, total_bytes, bytes_resumed } => EngineEventView::ManifestEntryStarted { manifest_id: manifest_id@, entry_id, transfer_id: transfer_id@, relative_path: relative_path@, total_bytes, bytes_resumed },
            TransferEvent::ManifestProgress { manifest_id, entry_id, entry_bytes, entry_total_bytes, completed_bytes, total_bytes } => EngineEventView::ManifestProgress { manifest_id: manifest_id@, entry_id, entry_bytes, entry_total_bytes, completed_bytes, total_bytes },
            TransferEvent::ManifestEntryCompleted { manifest_id, result } => EngineEventView::ManifestEntryCompleted { manifest_id: manifest_id@, result: result@ },
            TransferEvent::ManifestCompleted { manifest_id, file_count, directory_count, total_bytes } => EngineEventView::ManifestCompleted { manifest_id: manifest_id@, file_count, directory_count, total_bytes },
            TransferEvent::Failed { direction, reason } => EngineEventView::Failed { direction, reason: reason@ },
            TransferEvent::Unlisted => EngineEventView::Unlisted,
        }
    }
}

impl Clone for TransferEvent {
    fn clone(&self) -> (r: Self)
        ensures
            r@ == self@,
    {
        let r = match self {
            TransferEvent::Diagnostic { message } => TransferEvent::Diagnostic { message: message.clone() },
            TransferEvent::Binding { direction, mode } => TransferEvent::Binding { direction: *direction, mode: *mode },
            TransferEvent::Advertised { peer, token, invite } => TransferEvent::Advertised { peer: peer.clone(), token: token.clone(), invite: invite.clone() },
            TransferEvent::Pairing { step } => TransferEvent::Pairing { step: *step },
            TransferEvent::Connecting => TransferEvent::Connecting,
            TransferEvent::Connected { path, path_text } => TransferEvent::Connected { path: path.clone(), path_text: path_text.clone() },
            TransferEvent::PathChanged { path, path_text } => TransferEvent::PathChanged { path: path.clone(), path_text: path_text.clone() },
            TransferEvent::Started { transfer_id, direction, file_name, total_bytes, bytes_resumed } => TransferEvent::Started { transfer_id: transfer_id.clone(), direction: *direction, file_name: file_name.clone(), total_bytes: *total_bytes, bytes_resumed: *bytes_resumed },
            TransferEvent::Progress { transfer_id, bytes_transferred, total_bytes } => TransferEvent::Progress { transfer_id: transfer_id.clone(), bytes_transferred: *bytes_transferred, total_bytes: *total_bytes },
            TransferEvent::Verifying { transfer_id, direction, file_name, bytes_to_hash } => TransferEvent::Verifying { transfer_id: transfer_id.clone(), direction: *direction, file_name: file_name.clone(), bytes_to_hash: *bytes_to_hash },
            TransferEvent::Verified { transfer_id, direction, file_name, bytes_hashed } => TransferEvent::Verified { transfer_id: transfer_id.clone(), direction: *direction, file_name: file_name.clone(), bytes_hashed: *bytes_hashed },
            TransferEvent::Confirming { transfer_id } => TransferEvent::Confirming { transfer_id: transfer_id.clone() },
            TransferEvent::Completed { transfer_id, file_name, bytes_transferred } => TransferEvent::Completed { transfer_id: transfer_id.clone(), file_name: file_name.clone(), bytes_transferred: *bytes_transferred },
            TransferEvent::ManifestPreparingEntry { manifest_id, entry_id, relative_path, size } => TransferEvent::ManifestPreparingEntry { manifest_id: manifest_id.clone(), entry_id: *entry_id, relative_path: relative_path.clone(), size: *size },
            TransferEvent::ManifestPlanned { direction, manifest_id, file_count, directory_count, root_count, total_bytes } => TransferEvent::ManifestPlanned { direction: *direction, manifest_id: manifest_id.clone(), file_count: *file_count, directory_count: *directory_count, root_count: *root_count, total_bytes: *total_bytes },
            TransferEvent::ManifestStarted { manifest_id, direction, file_count, directory_count, total_bytes } => TransferEvent::ManifestStarted { manifest_id: manifest_id.clone(), direction: *direction, file_count: *file_count, directory_count: *directory_count, total_bytes: *total_bytes },
            TransferEvent::ManifestEntryStarted { manifest_id, entry_id, transfer_id, relative_path, total_bytes, bytes_resumed } => TransferEvent::ManifestEntryStarted { manifest_id: manifest_id.clone(), entry_id: *entry_id, transfer_id: transfer_id.clone(), relative_path: relative_path.clone(), total_bytes: *total_bytes, bytes_resumed: *bytes_resumed },
            TransferEvent::ManifestProgress { manifest_id, entry_id, entry_bytes, entry_total_bytes, completed_bytes, total_bytes } => TransferEvent::ManifestProgress { manifest_id: manifest_id.clone(), entry_id: *entry_id, entry_bytes: *entry_bytes, entry_total_bytes: *entry_total_bytes, completed_bytes: *completed_bytes, total_bytes: *total_bytes },
            TransferEvent::ManifestEntryCompleted { manifest_id, result } => TransferEvent::ManifestEntryCompleted { manifest_id: manifest_id.clone(), result: result.clone() },
            TransferEvent::ManifestCompleted { manifest_id, file_count, directory_count, total_bytes } => TransferEvent::ManifestCompleted { manifest_id: manifest_id.clone(), file_count: *file_count, directory_count: *directory_count, total_bytes: *total_bytes },
            TransferEvent::Failed { direction, reason } => TransferEvent::Failed { direction: *direction, reason: reason.clone() },
            TransferEvent::Unlisted => TransferEvent::Unlisted,
        };
        assert(r@ =~= self@);
        r
    }
}

/// An engine event with its time.
#[derive(Debug, PartialEq, Eq)]
pub struct StampedEvent {
    pub ts_ms: u64,
    pub event: TransferEvent,
}

/// What a [`StampedEvent`] holds.
#[verifier::ext_equal]
pub struct StampedView {
    pub ts_ms: u64,
    pub event: EngineEventView,
}

impl View for StampedEvent {
    type V = StampedView;

    open spec fn view(&self) -> StampedView {
        StampedView {
            ts_ms: self.ts_ms,
            event: self.event@,
        }
    }
}

impl Clone for StampedEvent {
    fn clone(&self) -> (r: Self)
        ensures
            r@ == self@,
    {
        let r = StampedEvent {
            ts_ms: self.ts_ms,
            event: self.event.clone(),
        };
        r
    }
}

/// One call to the observer of a transfer.
#[derive(Debug, PartialEq, Eq)]
pub enum TransferCallback {
    InviteReady { invite: String },
    Started { file_name: String, total_bytes: u64 },
    Progress { transferred: u64, total: u64 },
    Completed { bytes: u64 },
    TransferFailed { failure: FfiTransferFailure },
    Failed { reason: String },
    Event { event: FfiTransferEvent },
    Activity { record: FfiTransferActivityRecord },
    Status { message: String },
}

/// What a [`TransferCallback`] holds.
#[verifier::ext_equal]
pub enum CallbackView {
    InviteReady { invite: Seq<char> },
    Started { file_name: Seq<char>, total_bytes: u64 },
    Progress { transferred: u64, total: u64 },
    Completed { bytes: u64 },
    TransferFailed { failure: FailureView },
    Failed { reason: Seq<char> },
    Event { event: EventView },
    Activity { record: ActivityView },
    Status { message: Seq<char> },
}

impl View for TransferCallback {
    type V = CallbackView;

    open spec fn view(&self) -> CallbackView {
        match *self {
            TransferCallback::InviteReady { invite } => CallbackView::InviteReady { invite: invite@ },
            TransferCallback::Started { file_name, total_bytes } => CallbackView::Started { file_name: file_name@, total_bytes },
            TransferCallback::Progress { transferred, total } => CallbackView::Progress { transferred, total },
            TransferCallback::Completed { bytes } => CallbackView::Completed { bytes },
            TransferCallback::TransferFailed { failure } => CallbackView::TransferFailed { failure: failure@ },
            TransferCallback::Failed { reason } => CallbackView::Failed { reason: reason@ },
            TransferCallback::Event { event } => CallbackView::Event { event: event@ },
            TransferCallback::Activity { record } => CallbackView::Activity { record: record@ },
            TransferCallback::Status { message } => CallbackView::Status { message: message@ },
        }
    }
}

impl Clone for TransferCallback {
    fn clone(&self) -> (r: Self)
        ensures
            r == *self,
    {
        match self {
            TransferCallback::InviteReady { invite } => TransferCallback::InviteReady { invite: invite.clone() },
            TransferCallback::Started { file_name, total_bytes } => TransferCallback::Started { file_name: file_name.clone(), total_bytes: *total_bytes },
            TransferCallback::Progress { transferred, total } => TransferCallback::Progress { transferred: *transferred, total: *total },
            TransferCallback::Completed { bytes } => TransferCallback::Completed { bytes: *bytes },
            TransferCallback::TransferFailed { failure } => TransferCallback::TransferFailed { failure: failure.clone() },
            TransferCallback::Failed { reason } => TransferCallback::Failed { reason: reason.clone() },
            TransferCallback::Event { event } => TransferCallback::Event { event: event.clone() },
            TransferCallback::Activity { record } => TransferCallback::Activity { record: record.clone() },
            TransferCallback::Status { message } => TransferCallback::Status { message: message.clone() },
        }
    }
}

/// The views of a list of callbacks.
pub open spec fn callback_views(calls: Seq<TransferCallback>) -> Seq<CallbackView> {
    calls.map_values(|c: TransferCallback| c@)
}

/// An event that says nothing but whose card it is for and when it happened.
pub open spec fn empty_event(activity_id: Seq<char>, ts_ms: u64) -> EventView {
    EventView {
        activity_id,
        kind: FfiTransferEventKind::Unknown,
        ts_ms,
        direction: FfiTransferDirection::Unknown,
        mode: FfiTransferMode::Unknown,
        transfer_id: Seq::empty(),
        file_name: Seq::empty(),
        total_bytes: 0,
        bytes_transferred: 0,
        bytes_resumed: 0,
        pairing_step: FfiPairingStep::NoStep,
        data_path_kind: FfiDataPathKind::NoPath,
        data_path_detail: Seq::empty(),
        invite: Seq::empty(),
        token: Seq::empty(),
        peer_descriptor: Seq::empty(),
        diagnostic_message: Seq::empty(),
    }
}

impl FfiTransferEvent {
    /// An event that says nothing but whose card it is for and when it
    /// happened.
    pub fn empty(activity_id: &str, ts_ms: u64) -> (r: Self)
        ensures
            r@ == empty_event(activity_id@, ts_ms),
    {
        FfiTransferEvent {
            activity_id: activity_id.to_owned(),
            kind: FfiTransferEventKind::Unknown,
            ts_ms,
            direction: FfiTransferDirection::Unknown,
            mode: FfiTransferMode::Unknown,
            transfer_id: String::new(),
            file_name: String::new(),
            total_bytes: 0,
            bytes_transferred: 0,
            bytes_resumed: 0,
            pairing_step: FfiPairingStep::NoStep,
            data_path_kind: FfiDataPathKind::NoPath,
            data_path_detail: String::new(),
            invite: String::new(),
            token: String::new(),
            peer_descriptor: String::new(),
            diagnostic_message: String::new(),
        }
    }
}

/// The result line of a Manifest entry.
pub open spec fn entry_result_line(result: EntryResultView) -> Seq<char> {
    "entry_id="@ + decimal(result.entry_id as nat) + " status="@ + result_status_label(
        result.status,
    ) + " final="@ + or_empty(result.final_relative_path) + " failure="@ + or_empty(
        result.failure_code,
    )
}

fn entry_result_text(result: &ManifestEntryResult) -> (r: String)
    ensures
        r@ == entry_result_line(result@),
{
    joined3("entry_id=", decimal_text(result.entry_id as u64).as_str(), " status=").concat(
        manifest_result_status_label(result.status),
    ).concat(" final=").concat(text_or_empty(&result.final_relative_path).as_str()).concat(
        " failure=",
    ).concat(text_or_empty(&result.failure_code).as_str())
}

/// The counts of a Manifest.
pub open spec fn manifest_counts(files: u32, directories: u32) -> Seq<char> {
    "manifest files="@ + decimal(files as nat) + " directories="@ + decimal(directories as nat)
}

fn manifest_counts_text(files: u32, directories: u32) -> (r: String)
    ensures
        r@ == manifest_counts(files, directories),
{
    joined3("manifest files=", decimal_text(files as u64).as_str(), " directories=").concat(
        decimal_text(directories as u64).as_str(),
    )
}

/// The native form of an engine event.
pub open spec fn event_of(stamped: StampedView, activity_id: Seq<char>) -> EventView {
    let empty = empty_event(activity_id, stamped.ts_ms);
    match stamped.event {
        EngineEventView::Diagnostic { message } => EventView {
            diagnostic_message: message,
            ..empty
        },
        EngineEventView::Binding { direction, mode } => EventView {
            kind: FfiTransferEventKind::Binding,
            direction: direction_of(Some(direction)),
            mode: mode_of(mode),
            ..empty
        },
        EngineEventView::Advertised { peer, token, invite } => EventView {
            kind: FfiTransferEventKind::Advertised,
            peer_descriptor: peer.compact,
            token: or_empty(token),
            invite: or_empty(invite),
            ..empty
        },
        EngineEventView::Pairing { step } => EventView {
            kind: FfiTransferEventKind::Pairing,
            pairing_step: pairing_step_of(step),
            ..empty
        },
        EngineEventView::Connecting => EventView {
            kind: FfiTransferEventKind::Connecting,
            ..empty
        },
        EngineEventView::Connected { path, .. } => EventView {
            kind: FfiTransferEventKind::Connected,
            data_path_kind: data_path_of(path).0,
            data_path_detail: data_path_of(path).1,
            ..empty
        },
        EngineEventView::PathChanged { path, .. } => EventView {
            kind: FfiTransferEventKind::PathChanged,
            data_path_kind: data_path_of(path).0,
            data_path_detail: data_path_of(path).1,
            ..empty
        },
        EngineEventView::Started { transfer_id, direction, file_name, total_bytes, bytes_resumed } => EventView {
            kind: FfiTransferEventKind::Started,
            direction: direction_of(Some(direction)),
            transfer_id,
            file_name,
            total_bytes,
            bytes_resumed,
            ..empty
        },
        EngineEventView::Progress { transfer_id, bytes_transferred, total_bytes } => EventView {
            kind: FfiTransferEventKind::Progress,
            transfer_id,
            bytes_transferred,
            total_bytes,
            ..empty
        },
        EngineEventView::Verifying { transfer_id, direction, file_name, bytes_to_hash } => EventView {
            kind: FfiTransferEventKind::Verifying,
            direction: direction_of(Some(direction)),
            transfer_id,
            file_name,
            total_bytes: bytes_to_hash,
            ..empty
        },
        EngineEventView::Verified { transfer_id, direction, file_name, bytes_hashed } => EventView {
            kind: FfiTransferEventKind::Verified,
            direction: direction_of(Some(direction)),
            transfer_id,
            file_name,
            bytes_transferred: bytes_hashed,
            total_bytes: bytes_hashed,
            bytes_resumed: if direction == TransferDirection::Receive {
                bytes_hashed
            } else {
                0
            },
            ..empty
        },
        EngineEventView::Confirming { transfer_id } => EventView {
            kind: FfiTransferEventKind::Verifying,
            transfer_id,
            diagnostic_message: "confirming"@,
            ..empty
        },
        EngineEventView::Completed { transfer_id, file_name, bytes_transferred } => EventView {
            kind: FfiTransferEventKind::Completed,
            transfer_id,
            file_name,
            bytes_transferred,
            total_bytes: bytes_transferred,
            ..empty
        },
        EngineEventView::Failed { direction, reason } => EventView {
            kind: FfiTransferEventKind::Failed,
            direction: direction_of(Some(direction)),
            diagnostic_message: reason,
            ..empty
        },
        EngineEventView::Unlisted => empty,
        _ => manifest_event_of(stamped.event, empty),
    }
}

/// The native form of a Manifest event, filled into `empty`.
pub open spec fn manifest_event_of(event: EngineEventView, empty: EventView) -> EventView {
    match event {
        EngineEventView::ManifestPreparingEntry { manifest_id, entry_id, relative_path, size } => EventView {
            transfer_id: manifest_id,
            file_name: relative_path,
            total_bytes: size,
            diagnostic_message: "manifest source check entry_id="@ + decimal(entry_id as nat),
            ..empty
        },
        EngineEventView::ManifestPlanned {
            direction,
            manifest_id,
            file_count,
            directory_count,
            root_count,
            total_bytes,
        } => EventView {
            direction: direction_of(Some(direction)),
            transfer_id: manifest_id,
            total_bytes,
            diagnostic_message: "manifest planned files="@ + decimal(file_count as nat)
                + " directories="@ + decimal(directory_count as nat) + " roots="@ + decimal(
                root_count as nat,
            ),
            ..empty
        },
        EngineEventView::ManifestStarted {
            manifest_id,
            direction,
            file_count,
            directory_count,
            total_bytes,
        } => EventView {
            kind: FfiTransferEventKind::Started,
            direction: direction_of(Some(direction)),
            transfer_id: manifest_id,
            file_name: manifest_id,
            total_bytes,
            diagnostic_message: manifest_counts(file_count, directory_count),
            ..empty
        },
        EngineEventView::ManifestEntryStarted {
            manifest_id,
            entry_id,
            transfer_id,
            relative_path,
            total_bytes,
            bytes_resumed,
        } => EventView {
            kind: FfiTransferEventKind::Started,
            transfer_id,
            file_name: relative_path,
            total_bytes,
            bytes_resumed,
            diagnostic_message: "manifest_id="@ + manifest_id + " entry_id="@ + decimal(
                entry_id as nat,
            ),
            ..empty
        },
        EngineEventView::ManifestProgress {
            manifest_id,
            entry_id,
            entry_bytes,
            entry_total_bytes,
            completed_bytes,
            total_bytes,
        } => EventView {
            kind: FfiTransferEventKind::Progress,
            transfer_id: manifest_id,
            bytes_transferred: completed_bytes,
            total_bytes,
            diagnostic_message: "entry_id="@ + decimal(entry_id as nat) + " entry_bytes="@
                + decimal(entry_bytes as nat) + "/"@ + decimal(entry_total_bytes as nat),
            ..empty
        },
        EngineEventView::ManifestEntryCompleted { manifest_id, result } => EventView {
            kind: if result.status == ManifestEntryResultStatus::Failed || result.status
                == ManifestEntryResultStatus::Cancelled {
                FfiTransferEventKind::Failed
            } else {
                FfiTransferEventKind::Completed
            },
            transfer_id: manifest_id,
            file_name: result.offered_relative_path,
            diagnostic_message: entry_result_line(result),
            ..empty
        },
        EngineEventView::ManifestCompleted { manifest_id, file_count, directory_count, total_bytes } => EventView {
            kind: FfiTransferEventKind::Completed,
            transfer_id: manifest_id,
            file_name: manifest_id,
            bytes_transferred: total_bytes,
            total_bytes,
            diagnostic_message: manifest_counts(file_count, directory_count),
            ..empty
        },
        _ => empty,
    }
}

/// Projects an engine event onto the card `activity_id`.
pub fn to_ffi_event(event: &StampedEvent, activity_id: &str) -> (r: FfiTransferEvent)
    ensures
        r@ == event_of(event@, activity_id@),
{
    let mut ffi = FfiTransferEvent::empty(activity_id, event.ts_ms);
    match &event.event {
        TransferEvent::Diagnostic { message } => {
            ffi.diagnostic_message = message.clone();
        },
        TransferEvent::Binding { direction, mode } => {
            ffi.kind = FfiTransferEventKind::Binding;
            ffi.direction = ffi_direction(Some(*direction));
            ffi.mode = ffi_transfer_mode(*mode);
        },
        TransferEvent::Advertised { peer, token, invite } => {
            ffi.kind = FfiTransferEventKind::Advertised;
            ffi.peer_descriptor = peer.compact.clone();
            ffi.token = text_or_empty(token);
            ffi.invite = text_or_empty(invite);
        },
        TransferEvent::Pairing { step } => {
            ffi.kind = FfiTransferEventKind::Pairing;
            ffi.pairing_step = ffi_pairing_step(*step);
        },
        TransferEvent::Connecting => {
            ffi.kind = FfiTransferEventKind::Connecting;
        },
        TransferEvent::Connected { path, .. } => {
            ffi.kind = FfiTransferEventKind::Connected;
            let (kind, detail) = ffi_data_path(path);
            ffi.data_path_kind = kind;
            ffi.data_path_detail = detail;
        },
        TransferEvent::PathChanged { path, .. } => {
            ffi.kind = FfiTransferEventKind::PathChanged;
            let (kind, detail) = ffi_data_path(path);
            ffi.data_path_kind = kind;
            ffi.data_path_detail = detail;
        },
        TransferEvent::Started { transfer_id, direction, file_name, total_bytes, bytes_resumed } => {
            ffi.kind = FfiTransferEventKind::Started;
            ffi.direction = ffi_direction(Some(*direction));
            ffi.transfer_id = transfer_id.clone();
            ffi.file_name = file_name.clone();
            ffi.total_bytes = *total_bytes;
            ffi.bytes_resumed = *bytes_resumed;
        },
        TransferEvent::Progress { transfer_id, bytes_transferred, total_bytes } => {
            ffi.kind = FfiTransferEventKind::Progress;
            ffi.transfer_id = transfer_id.clone();
            ffi.bytes_transferred = *bytes_transferred;
            ffi.total_bytes = *total_bytes;
        },
        TransferEvent::Verifying { transfer_id, direction, file_name, bytes_to_hash } => {
            ffi.kind = FfiTransferEventKind::Verifying;
            ffi.direction = ffi_direction(Some(*direction));
            ffi.transfer_id = transfer_id.clone();
            ffi.file_name = file_name.clone();
            ffi.total_bytes = *bytes_to_hash;
        },
        TransferEvent::Verified { transfer_id, direction, file_name, bytes_hashed } => {
            ffi.kind = FfiTransferEventKind::Verified;
            ffi.direction = ffi_direction(Some(*direction));
            ffi.transfer_id = transfer_id.clone();
            ffi.file_name = file_name.clone();
            ffi.bytes_transferred = *bytes_hashed;
            ffi.total_bytes = *bytes_hashed;
            if *direction == TransferDirection::Receive {
                ffi.bytes_resumed = *bytes_hashed;
            }
        },
        TransferEvent::Confirming { transfer_id } => {
            ffi.kind = FfiTransferEventKind::Verifying;
            ffi.transfer_id = transfer_id.clone();
            ffi.diagnostic_message = "confirming".to_owned();
        },
        TransferEvent::Completed { transfer_id, file_name, bytes_transferred } => {
            ffi.kind = FfiTransferEventKind::Completed;
            ffi.transfer_id = transfer_id.clone();
            ffi.file_name = file_name.clone();
            ffi.bytes_transferred = *bytes_transferred;
            ffi.total_bytes = *bytes_transferred;
        },
        TransferEvent::Failed { direction, reason } => {
            ffi.kind = FfiTransferEventKind::Failed;
            ffi.direction = ffi_direction(Some(*direction));
            ffi.diagnostic_message = reason.clone();
        },
        TransferEvent::Unlisted => {},
        _ => {
            return to_manifest_event(&event.event, ffi);
        },
    }
    ffi
}

fn to_manifest_event(event: &TransferEvent, empty: FfiTransferEvent) -> (r: FfiTransferEvent)
    ensures
        r@ == manifest_event_of(event@, empty@),
{
    let mut ffi = empty;
    match event {
        TransferEvent::ManifestPreparingEntry { manifest_id, entry_id, relative_path, size } => {
            ffi.transfer_id = manifest_id.clone();
            ffi.file_name = relative_path.clone();
            ffi.total_bytes = *size;
            ffi.diagnostic_message =
            joined("manifest source check entry_id=", decimal_text(*entry_id as u64).as_str());
        },
        TransferEvent::ManifestPlanned {
            direction,
            manifest_id,
            file_count,
            directory_count,
            root_count,
            total_bytes,
        } => {
            ffi.direction = ffi_direction(Some(*direction));
            ffi.transfer_id = manifest_id.clone();
            ffi.total_bytes = *total_bytes;
            ffi.diagnostic_message =
            joined3(
                "manifest planned files=",
                decimal_text(*file_count as u64).as_str(),
                " directories=",
            ).concat(decimal_text(*directory_count as u64).as_str()).concat(" roots=").concat(
                decimal_text(*root_count as u64).as_str(),
            );
        },
        TransferEvent::ManifestStarted {
            manifest_id,
            direction,
            file_count,
            directory_count,
            total_bytes,
        } => {
            ffi.kind = FfiTransferEventKind::Started;
            ffi.direction = ffi_direction(Some(*direction));
            ffi.transfer_id = manifest_id.clone();
            ffi.file_name = manifest_id.clone();
            ffi.total_bytes = *total_bytes;
            ffi.diagnostic_message = manifest_counts_text(*file_count, *directory_count);
        },
        TransferEvent::ManifestEntryStarted {
            manifest_id,
            entry_id,
            transfer_id,
            relative_path,
            total_bytes,
            bytes_resumed,
        } => {
            ffi.kind = FfiTransferEventKind::Started;
            ffi.transfer_id = transfer_id.clone();
            ffi.file_name = relative_path.clone();
            ffi.total_bytes = *total_bytes;
            ffi.bytes_resumed = *bytes_resumed;
            ffi.diagnostic_message =
            joined3("manifest_id=", manifest_id.as_str(), " entry_id=").concat(
                decimal_text(*entry_id as u64).as_str(),
            );
        },
        TransferEvent::ManifestProgress {
            manifest_id,
            entry_id,
            entry_bytes,
            entry_total_bytes,
            completed_bytes,
            total_bytes,
        } => {
            ffi.kind = FfiTransferEventKind::Progress;
            ffi.transfer_id = manifest_id.clone();
            ffi.bytes_transferred = *completed_bytes;
            ffi.total_bytes = *total_bytes;
            ffi.diagnostic_message =
            joined3(
                "entry_id=",
                decimal_text(*entry_id as u64).as_str(),
                " entry_bytes=",
            ).concat(decimal_text(*entry_bytes).as_str()).concat("/").concat(
                decimal_text(*entry_total_bytes).as_str(),
            );
        },
        TransferEvent::ManifestEntryCompleted { manifest_id, result } => {
            ffi.kind =
            if result.status == ManifestEntryResultStatus::Failed || result.status
                == ManifestEntryResultStatus::Cancelled {
                FfiTransferEventKind::Failed
            } else {
                FfiTransferEventKind::Completed
            };
            ffi.transfer_id = manifest_id.clone();
            ffi.file_name = result.offered_relative_path.clone();
            ffi.diagnostic_message = entry_result_text(result);
        },
        TransferEvent::ManifestCompleted { manifest_id, file_count, directory_count, total_bytes } => {
            ffi.kind = FfiTransferEventKind::Completed;
            ffi.transfer_id = manifest_id.clone();
            ffi.file_name = manifest_id.clone();
            ffi.bytes_transferred = *total_bytes;
            ffi.total_bytes = *total_bytes;
            ffi.diagnostic_message = manifest_counts_text(*file_count, *directory_count);
        },
        _ => {},
    }
    ffi
}

/// The direction that an event tells, if it tells one.
pub open spec fn told_direction(event: EngineEventView) -> Option<TransferDirection> {
    match event {
        EngineEventView::Binding { direction, .. } => Some(direction),
        EngineEventView::Started { direction, .. } => Some(direction),
        EngineEventView::Verifying { direction, .. } => Some(direction),
        EngineEventView::Verified { direction, .. } => Some(direction),
        EngineEventView::Failed { direction, .. } => Some(direction),
        _ => None,
    }
}

/// The direction that an event tells, if it tells one.
pub fn event_direction(event: &TransferEvent) -> (r: Option<TransferDirection>)
    ensures
        r == told_direction(event@),
{
    match event {
        TransferEvent::Binding { direction, .. } => Some(*direction),
        TransferEvent::Started { direction, .. } => Some(*direction),
        TransferEvent::Verifying { direction, .. } => Some(*direction),
        TransferEvent::Verified { direction, .. } => Some(*direction),
        TransferEvent::Failed { direction, .. } => Some(*direction),
        _ => None,
    }
}

/// Whether a progress event reports the last byte.
pub open spec fn is_final_progress(event: EventView) -> bool {
    event.total_bytes > 0 && event.bytes_transferred >= event.total_bytes
}

/// Whether native clients see an event: everything but progress that follows
/// the last shown progress too closely without being the last of it.
pub open spec fn is_shown(event: EventView, last_progress_ms: u64) -> bool {
    ||| event.kind != FfiTransferEventKind::Progress
    ||| last_progress_ms == 0
    ||| event.ts_ms - last_progress_ms >= NATIVE_PROGRESS_INTERVAL_MS
    ||| is_final_progress(event)
}

/// The time of the last shown progress after an event.
pub open spec fn last_progress_after(event: EventView, last_progress_ms: u64) -> u64 {
    if event.kind == FfiTransferEventKind::Progress && is_shown(event, last_progress_ms) {
        event.ts_ms
    } else {
        last_progress_ms
    }
}

/// Decides whether native clients see an event.
pub fn should_emit_native_event(event: &FfiTransferEvent, last_progress_ms: &mut u64) -> (r: bool)
    ensures
        r == is_shown(event@, *old(last_progress_ms)),
        *final(last_progress_ms) == last_progress_after(event@, *old(last_progress_ms)),
{
    if event.kind != FfiTransferEventKind::Progress {
        return true;
    }
    let is_final = event.total_bytes > 0 && event.bytes_transferred >= event.total_bytes;
    let elapsed = *last_progress_ms == 0 || event.ts_ms.saturating_sub(*last_progress_ms)
        >= NATIVE_PROGRESS_INTERVAL_MS;
    if elapsed || is_final {
        *last_progress_ms = event.ts_ms;
        return true;
    }
    false
}

/// Two shown progress events in a row are an interval apart, unless the second
/// reports the last byte.
pub proof fn shown_progress_is_spaced(first: EventView, second: EventView, last_progress_ms: u64)
    requires
        first.kind == FfiTransferEventKind::Progress,
        second.kind == FfiTransferEventKind::Progress,
        first.ts_ms > 0,
        is_shown(first, last_progress_ms),
        is_shown(second, last_progress_after(first, last_progress_ms)),
    ensures
        second.ts_ms >= first.ts_ms + NATIVE_PROGRESS_INTERVAL_MS || is_final_progress(second),
{
}

fn status(message: &str) -> (r: TransferCallback)
    ensures
        r@ == (CallbackView::Status { message: message@ }),
{
    TransferCallback::Status { message: message.to_owned() }
}

/// The observer calls that a raw engine event leads to.
pub open spec fn event_callbacks(event: EngineEventView, invite_payload: Option<QrInviteView>) -> Seq<
    CallbackView,
> {
    match event {
        EngineEventView::Diagnostic { message } => seq![CallbackView::Status { message }],
        EngineEventView::Binding { direction, mode } => seq![
            CallbackView::Status {
                message: "binding "@ + engine_direction_name_of(direction) + " via "@
                    + engine_mode_name_of(mode),
            },
        ],
        EngineEventView::Advertised { peer, invite, .. } => {
            let shown = CallbackView::Status {
                message: advertised_description(
                    peer,
                    if invite is Some {
                        invite_payload
                    } else {
                        None
                    },
                ),
            };
            match invite {
                Some(invite) => seq![
                    shown,
                    CallbackView::InviteReady { invite },
                    CallbackView::Status { message: "invite ready; waiting for sender"@ },
                ],
                None => seq![shown, CallbackView::Status { message: "waiting for peer"@ }],
            }
        },
        EngineEventView::Pairing { step } => seq![
            CallbackView::Status { message: "pairing: "@ + step_label(step) },
        ],
        EngineEventView::Connecting => seq![CallbackView::Status { message: "connecting"@ }],
        EngineEventView::Connected { path_text, .. } => seq![
            CallbackView::Status { message: "connected via "@ + path_text },
        ],
        EngineEventView::PathChanged { path_text, .. } => seq![
            CallbackView::Status { message: "path changed: "@ + path_text },
        ],
        EngineEventView::Started { file_name, total_bytes, .. } => seq![
            CallbackView::Started { file_name, total_bytes },
        ],
        EngineEventView::Progress { bytes_transferred, total_bytes, .. } => seq![
            CallbackView::Progress { transferred: bytes_transferred, total: total_bytes },
        ],
        EngineEventView::Verifying { .. } => seq![CallbackView::Status { message: "verifying"@ }],
        EngineEventView::Verified { .. } => seq![CallbackView::Status { message: "verified"@ }],
        EngineEventView::Confirming { .. } => seq![CallbackView::Status { message: "confirming"@ }],
        _ => Seq::empty(),
    }
}

/// Lists the observer calls that a raw engine event leads to.
/// `invite_payload` is how an advertised invite decodes.
pub fn emit_transfer_event_callbacks(event: &TransferEvent, invite_payload: &Option<QrInvitePayload>) -> (r:
    Vec<TransferCallback>)
    ensures
        callback_views(r@) == event_callbacks(
            event@,
            match *invite_payload {
                Some(payload) => Some(payload@),
                None => None,
            },
        ),
{
    let mut calls: Vec<TransferCallback> = Vec::new();
    match event {
        TransferEvent::Diagnostic { message } => calls.push(status(message.as_str())),
        TransferEvent::Binding { direction, mode } => calls.push(
            TransferCallback::Status {
                message: joined3("binding ", engine_direction_name(*direction), " via ").concat(
                    engine_mode_name(*mode),
                ),
            },
        ),
        TransferEvent::Advertised { peer, invite, .. } => {
            match invite {
                Some(invite) => {
                    calls.push(
                        TransferCallback::Status {
                            message: advertised_endpoint_debug(peer, invite_payload),
                        },
                    );
                    calls.push(TransferCallback::InviteReady { invite: invite.clone() });
                    calls.push(status("invite ready; waiting for sender"));
                },
                None => {
                    calls.push(
                        TransferCallback::Status {
                            message: advertised_endpoint_debug(peer, &None),
                        },
                    );
                    calls.push(status("waiting for peer"));
                },
            }
        },
        TransferEvent::Pairing { step } => calls.push(
            TransferCallback::Status { message: joined("pairing: ", pairing_step_label(*step)) },
        ),
        TransferEvent::Connecting => calls.push(status("connecting")),
        TransferEvent::Connected { path_text, .. } => calls.push(
            TransferCallback::Status { message: joined("connected via ", path_text.as_str()) },
        ),
        TransferEvent::PathChanged { path_text, .. } => calls.push(
            TransferCallback::Status { message: joined("path changed: ", path_text.as_str()) },
        ),
        TransferEvent::Started { file_name, total_bytes, .. } => calls.push(
            TransferCallback::Started { file_name: file_name.clone(), total_bytes: *total_bytes },
        ),
        TransferEvent::Progress { bytes_transferred, total_bytes, .. } => calls.push(
            TransferCallback::Progress { transferred: *bytes_transferred, total: *total_bytes },
        ),
        TransferEvent::Verifying { .. } => calls.push(status("verifying")),
        TransferEvent::Verified { .. } => calls.push(status("verified")),
        TransferEvent::Confirming { .. } => calls.push(status("confirming")),
        _ => {},
    }
    assert(callback_views(calls@) =~= event_callbacks(
        event@,
        match *invite_payload {
            Some(payload) => Some(payload@),
            None => None,
        },
    ));
    calls
}

/// The observer calls for an engine event on a live card.
pub open spec fn observed_callbacks(
    stamped: StampedView,
    card: ActivityView,
    last_progress_ms: u64,
    invite_payload: Option<QrInviteView>,
) -> Seq<CallbackView> {
    let event = event_of(stamped, card.activity_id);
    if is_shown(event, last_progress_ms) {
        seq![
            CallbackView::Event { event },
            CallbackView::Activity { record: card.after_event(event) },
        ] + event_callbacks(stamped.event, invite_payload)
    } else {
        Seq::empty()
    }
}

/// The view of a decoded invite.
pub open spec fn payload_view(payload: Option<QrInvitePayload>) -> Option<QrInviteView> {
    match payload {
        Some(payload) => Some(payload@),
        None => None,
    }
}

/// Folds an engine event into a live card and lists the observer calls it
/// leads to; `None` where native clients do not see the event.
pub fn observe_transfer_event(
    activity: &mut FfiTransferActivityRecord,
    event: &StampedEvent,
    last_native_progress_ms: &mut u64,
    invite_payload: &Option<QrInvitePayload>,
) -> (r: Option<Vec<TransferCallback>>)
    ensures
        final(activity)@ == old(activity)@.after_event(event_of(event@, old(activity)@.activity_id)),
        *final(last_native_progress_ms) == last_progress_after(
            event_of(event@, old(activity)@.activity_id),
            *old(last_native_progress_ms),
        ),
        r is Some == is_shown(
            event_of(event@, old(activity)@.activity_id),
            *old(last_native_progress_ms),
        ),
        r matches Some(calls) ==> callback_views(calls@) == observed_callbacks(
            event@,
            old(activity)@,
            *old(last_native_progress_ms),
            payload_view(*invite_payload),
        ),
{
    let ffi_event = to_ffi_event(event, activity.activity_id.as_str());
    activity.apply_event(&ffi_event);
    if !should_emit_native_event(&ffi_event, last_native_progress_ms) {
        return None;
    }
    let mut calls: Vec<TransferCallback> = Vec::new();
    calls.push(TransferCallback::Event { event: ffi_event });
    calls.push(TransferCallback::Activity { record: activity.clone() });
    let mut more = emit_transfer_event_callbacks(&event.event, invite_payload);
    let ghost head = calls@;
    let ghost tail = more@;
    calls.append(&mut more);
    assert(callback_views(calls@) =~= callback_views(head) + callback_views(tail));
    assert(callback_views(head) =~= seq![head[0]@, head[1]@]);
    Some(calls)
}

/// Copies an engine event onto a durable card and lists the observer calls it
/// leads to; `None` where native clients do not see the event. Durable cards
/// take their state from snapshots alone.
pub fn observe_durable_transfer_event(
    activity: &mut FfiTransferActivityRecord,
    event: &StampedEvent,
    last_native_progress_ms: &mut u64,
    invite_payload: &Option<QrInvitePayload>,
) -> (r: Option<Vec<TransferCallback>>)
    ensures
        final(activity)@ == old(activity)@.observed(event_of(event@, old(activity)@.activity_id)),
        *final(last_native_progress_ms) == last_progress_after(
            event_of(event@, old(activity)@.activity_id),
            *old(last_native_progress_ms),
        ),
        r is Some == is_shown(
            event_of(event@, old(activity)@.activity_id),
            *old(last_native_progress_ms),
        ),
        r matches Some(calls) ==> callback_views(calls@) == seq![
            CallbackView::Event { event: event_of(event@, old(activity)@.activity_id) },
        ] + event_callbacks(event@.event, payload_view(*invite_payload)),
{
    let ffi_event = to_ffi_event(event, activity.activity_id.as_str());
    activity.apply_observation(&ffi_event);
    if !should_emit_native_event(&ffi_event, last_native_progress_ms) {
        return None;
    }
    let mut calls: Vec<TransferCallback> = Vec::new();
    calls.push(TransferCallback::Event { event: ffi_event });
    let mut more = emit_transfer_event_callbacks(&event.event, invite_payload);
    let ghost head = calls@;
    let ghost tail = more@;
    calls.append(&mut more);
    assert(callback_views(calls@) =~= callback_views(head) + callback_views(tail));
    assert(callback_views(head) =~= seq![head[0]@]);
    Some(calls)
}

/// The result of an entry is told by the label of its own status.
pub proof fn results_have_their_own_label(status: ManifestEntryResultStatus)
    ensures
        status is Completed ==> result_status_label(status) == "completed"@,
        status is SkippedIdentical ==> result_status_label(status) == "skipped_identical"@,
        status is Renamed ==> result_status_label(status) == "renamed"@,
        status is Failed ==> result_status_label(status) == "failed"@,
        status is Cancelled ==> result_status_label(status) == "cancelled"@,
{
}

/// Every event belongs to its card and keeps its time.
pub proof fn events_belong_to_their_card(stamped: StampedView, activity_id: Seq<char>)
    ensures
        event_of(stamped, activity_id).activity_id == activity_id,
        event_of(stamped, activity_id).ts_ms == stamped.ts_ms,
{
}

/// An event of a single transfer is told under its own kind, with what it brings.
pub proof fn transfer_events_keep_their_data(stamped: StampedView, activity_id: Seq<char>)
    ensures
        ({
            let told = event_of(stamped, activity_id);
            &&& stamped.event matches EngineEventView::Diagnostic { message } ==> told.kind
                is Unknown && told.diagnostic_message == message
            &&& stamped.event matches EngineEventView::Binding { direction, mode } ==> told.kind
                is Binding && told.mode == mode_of(mode) && (told.direction is Send
                <==> direction is Send) && (told.direction is Receive <==> direction is Receive)
            &&& stamped.event matches EngineEventView::Advertised { peer, token, invite }
                ==> told.kind is Advertised && told.peer_descriptor == peer.compact && (
            token is Some ==> told.token == token->0) && (invite is Some ==> told.invite
                == invite->0) && (token is None ==> told.token.len() == 0) && (invite is None
                ==> told.invite.len() == 0)
            &&& stamped.event matches EngineEventView::Pairing { step } ==> told.kind is Pairing
                && told.pairing_step == pairing_step_of(step)
            &&& stamped.event is Connecting ==> told.kind is Connecting
            &&& stamped.event matches EngineEventView::Connected { path, .. } ==> told.kind
                is Connected && told.data_path_kind == data_path_of(path).0
                && told.data_path_detail == data_path_of(path).1
            &&& stamped.event matches EngineEventView::PathChanged { path, .. } ==> told.kind
                is PathChanged && told.data_path_kind == data_path_of(path).0
                && told.data_path_detail == data_path_of(path).1
            &&& stamped.event matches EngineEventView::Started {
                transfer_id,
                direction,
                file_name,
                total_bytes,
                bytes_resumed,
            } ==> told.kind is Started && told.transfer_id == transfer_id && told.file_name
                == file_name && told.total_bytes == total_bytes && told.bytes_resumed
                == bytes_resumed && (told.direction is Send <==> direction is Send)
            &&& stamped.event matches EngineEventView::Progress {
                transfer_id,
                bytes_transferred,
                total_bytes,
            } ==> told.kind is Progress && told.transfer_id == transfer_id
                && told.bytes_transferred == bytes_transferred && told.total_bytes == total_bytes
            &&& stamped.event matches EngineEventView::Verifying {
                transfer_id,
                direction,
                file_name,
                bytes_to_hash,
            } ==> told.kind is Verifying && told.transfer_id == transfer_id && told.file_name
                == file_name && told.total_bytes == bytes_to_hash && (told.direction is Send
                <==> direction is Send) && told.diagnostic_message.len() == 0
            &&& stamped.event matches EngineEventView::Verified {
                transfer_id,
                direction,
                file_name,
                bytes_hashed,
            } ==> told.kind is Verified && told.transfer_id == transfer_id && told.file_name
                == file_name && told.total_bytes == bytes_hashed && told.bytes_transferred
                == bytes_hashed && told.bytes_resumed == if direction is Receive {
                bytes_hashed
            } else {
                0
            }
            &&& stamped.event matches EngineEventView::Confirming { transfer_id } ==> told.kind
                is Verifying && told.transfer_id == transfer_id && told.diagnostic_message
                == "confirming"@
            &&& stamped.event matches EngineEventView::Completed {
                transfer_id,
                file_name,
                bytes_transferred,
            } ==> told.kind is Completed && told.transfer_id == transfer_id && told.file_name
                == file_name && told.bytes_transferred == bytes_transferred && told.total_bytes
                == bytes_transferred
            &&& stamped.event matches EngineEventView::Failed { direction, reason } ==> told.kind
                is Failed && told.diagnostic_message == reason && (told.direction is Send
                <==> direction is Send)
            &&& stamped.event is Unlisted ==> told.kind is Unknown
        }),
{
}

/// An event of a manifest is told under the kind that a single transfer's would
/// be, with the manifest as the transfer and what it brings.
pub proof fn manifest_events_keep_their_data(stamped: StampedView, activity_id: Seq<char>)
    ensures
        ({
            let told = event_of(stamped, activity_id);
            &&& stamped.event matches EngineEventView::ManifestPreparingEntry {
                manifest_id,
                entry_id,
                relative_path,
                size,
            } ==> told.kind is Unknown && told.transfer_id == manifest_id && told.file_name
                == relative_path && told.total_bytes == size
            &&& stamped.event matches EngineEventView::ManifestPlanned {
                direction,
                manifest_id,
                total_bytes,
                ..
            } ==> told.kind is Unknown && told.transfer_id == manifest_id && told.total_bytes
                == total_bytes && (told.direction is Send <==> direction is Send)
            &&& stamped.event matches EngineEventView::ManifestStarted {
                manifest_id,
                direction,
                total_bytes,
                ..
            } ==> told.kind is Started && told.transfer_id == manifest_id && told.total_bytes
                == total_bytes && (told.direction is Send <==> direction is Send)
            &&& stamped.event matches EngineEventView::ManifestEntryStarted {
                transfer_id,
                relative_path,
                total_bytes,
                bytes_resumed,
                ..
            } ==> told.kind is Started && told.transfer_id == transfer_id && told.file_name
                == relative_path && told.total_bytes == total_bytes && told.bytes_resumed
                == bytes_resumed
            &&& stamped.event matches EngineEventView::ManifestProgress {
                manifest_id,
                completed_bytes,
                total_bytes,
                ..
            } ==> told.kind is Progress && told.transfer_id == manifest_id
                && told.bytes_transferred == completed_bytes && told.total_bytes == total_bytes
            &&& stamped.event matches EngineEventView::ManifestEntryCompleted {
                manifest_id,
                result,
            } ==> told.transfer_id == manifest_id && told.file_name
                == result.offered_relative_path && (told.kind is Failed <==> result.status is Failed
                || result.status is Cancelled) && (told.kind is Completed
                <==> result.status is Completed || result.status is SkippedIdentical
                || result.status is Renamed)
            &&& stamped.event matches EngineEventView::ManifestCompleted {
                manifest_id,
                total_bytes,
                ..
            } ==> told.kind is Completed && told.transfer_id == manifest_id
                && told.bytes_transferred == total_bytes && told.total_bytes == total_bytes
        }),
{
}

/// The observer of an engine event is told in its own words: bytes and names as
/// they are, an invite as soon as there is one, and the rest as a line.
pub proof fn observers_hear_what_happens(event: EngineEventView, payload: Option<QrInviteView>)
    ensures
        ({
            let calls = event_callbacks(event, payload);
            &&& event matches EngineEventView::Diagnostic { message } ==> calls == seq![
                CallbackView::Status { message },
            ]
            &&& event matches EngineEventView::Started { file_name, total_bytes, .. } ==> calls
                == seq![CallbackView::Started { file_name, total_bytes }]
            &&& event matches EngineEventView::Progress { bytes_transferred, total_bytes, .. }
                ==> calls == seq![
                CallbackView::Progress { transferred: bytes_transferred, total: total_bytes },
            ]
            &&& event matches EngineEventView::Advertised { invite: Some(invite), .. }
                ==> calls.len() == 3 && calls[0] is Status && calls[1] == (
            CallbackView::InviteReady { invite }) && calls[2] == (CallbackView::Status {
                message: "invite ready; waiting for sender"@,
            })
            &&& event matches EngineEventView::Advertised { invite: None, .. } ==> calls.len() == 2
                && calls[0] is Status && calls[1] == (CallbackView::Status {
                message: "waiting for peer"@,
            })
            &&& event is Connecting ==> calls == seq![
                CallbackView::Status { message: "connecting"@ },
            ]
            &&& event matches EngineEventView::Connected { path_text, .. } ==> calls == seq![
                CallbackView::Status { message: "connected via "@ + path_text },
            ]
            &&& event matches EngineEventView::PathChanged { path_text, .. } ==> calls == seq![
                CallbackView::Status { message: "path changed: "@ + path_text },
            ]
            &&& event is Verifying ==> calls == seq![CallbackView::Status { message: "verifying"@ }]
            &&& event is Verified ==> calls == seq![CallbackView::Status { message: "verified"@ }]
            &&& event is Confirming ==> calls == seq![
                CallbackView::Status { message: "confirming"@ },
            ]
            &&& event matches EngineEventView::Pairing { step } ==> calls == seq![
                CallbackView::Status { message: "pairing: "@ + step_label(step) },
            ]
            &&& event is Completed || event is Failed || event is Unlisted ==> calls.len() == 0
        }),
{
}

/// The direction of a transfer is learned from every event that tells it.
pub proof fn directions_are_learned_from_events(event: EngineEventView)
    ensures
        event matches EngineEventView::Binding { direction, .. } ==> told_direction(event) == Some(
            direction,
        ),
        event matches EngineEventView::Started { direction, .. } ==> told_direction(event) == Some(
            direction,
        ),
        event matches EngineEventView::Verifying { direction, .. } ==> told_direction(event)
            == Some(direction),
        event matches EngineEventView::Verified { direction, .. } ==> told_direction(event)
            == Some(direction),
        event matches EngineEventView::Failed { direction, .. } ==> told_direction(event) == Some(
            direction,
        ),
        event is Progress || event is Completed || event is Connecting || event is Diagnostic
            ==> told_direction(event) is None,
{
}

/// Everything but progress is shown; progress is shown the first time, at the end,
/// and else twice a second at most. A shown event comes with the card after it.
pub proof fn shown_events_come_with_their_card(
    stamped: StampedView,
    card: ActivityView,
    last_ms: u64,
    payload: Option<QrInviteView>,
)
    ensures
        ({
            let event = event_of(stamped, card.activity_id);
            let calls = observed_callbacks(stamped, card, last_ms, payload);
            &&& !(event.kind is Progress) ==> calls.len() >= 2
            &&& last_ms == 0 ==> calls.len() >= 2
            &&& event.kind is Progress && last_ms != 0 && event.ts_ms - last_ms < 500
                && event.bytes_transferred < event.total_bytes ==> calls.len() == 0
            &&& event.total_bytes > 0 && event.bytes_transferred >= event.total_bytes
                ==> calls.len() >= 2
            &&& event.ts_ms - last_ms >= 500 ==> calls.len() >= 2
            &&& calls.len() > 0 ==> calls[0] == (CallbackView::Event { event }) && calls[1] == (
            CallbackView::Activity { record: card.after_event(event) }) && calls.skip(2)
                == event_callbacks(stamped.event, payload)
        }),
{
    let event = event_of(stamped, card.activity_id);
    let calls = observed_callbacks(stamped, card, last_ms, payload);
    let rest = event_callbacks(stamped.event, payload);
    if is_shown(event, last_ms) {
        assert(calls.skip(2) =~= rest);
    }
}

/// The time of the last shown progress moves with shown progress alone.
pub proof fn only_shown_progress_counts(event: EventView, last_ms: u64)
    ensures
        !(event.kind is Progress) ==> last_progress_after(event, last_ms) == last_ms,
        event.kind is Progress && last_ms == 0 ==> last_progress_after(event, last_ms)
            == event.ts_ms,
        event.kind is Progress && !is_shown(event, last_ms) ==> last_progress_after(event, last_ms)
            == last_ms,
        event.kind is Progress && is_shown(event, last_ms) ==> last_progress_after(event, last_ms)
            == event.ts_ms,
{
}

/// The result of an entry is told in one line: which entry, how it ended, where it
/// is and what failed.
pub proof fn results_are_told_in_one_line(result: EntryResultView, files: u32, directories: u32)
    ensures
        entry_result_line(result) == "entry_id="@ + decimal(result.entry_id as nat) + " status="@
            + result_status_label(result.status) + " final="@ + (
        if result.final_relative_path is Some {
            result.final_relative_path->0
        } else {
            Seq::empty()
        }) + " failure="@ + (if result.failure_code is Some {
            result.failure_code->0
        } else {
            Seq::empty()
        }),
        manifest_counts(files, directories) == "manifest files="@ + decimal(files as nat)
            + " directories="@ + decimal(directories as nat),
{
}

} // verus!
