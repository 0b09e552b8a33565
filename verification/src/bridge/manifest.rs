//! Durable Manifest cards: prepared plans, the projection of Manifest
//! activities onto cards, and what native clients may ask of them.
use vstd::prelude::*;
use vstd::string::*;

use crate::bridge::activity::{
    is_running_state, manifest_can_cancel, manifest_can_pause, manifest_can_resume,
};
use crate::bridge::driver::same_but_bytes;
use crate::bridge::durable::{
    accepts_publication_failure, accepts_target, extras_with_failure, extras_with_target,
    failed_publication, fresh_publication, listener_identity_of, restored_listener_identity,
    takes_publication_failure, takes_target,
};
use crate::bridge::engine::{
    CanonicalState, ClientContext, ClientContextView, ContextView, OptionsView, ParamsView,
    PeerSource, PeerSourceView, Session, SessionContext, SessionParams, SessionSnapshot,
    SessionView, SnapshotView, TransferDirection, TransferOptions,
};
use crate::bridge::events::{
    event_of, to_ffi_event, EntryResultView, ManifestEntryResult, ManifestEntryResultStatus,
    StampedEvent, NATIVE_PROGRESS_INTERVAL_MS,
};
use crate::bridge::models::{
    ActivityView, EnvoixError, EnvoixRuntimeSettings, FfiNativePublicationTarget,
    FfiTransferActivityActions, FfiTransferActivityRecord, FfiTransferActivityState,
    FfiTransferDirection, FfiTransferFailure, FfiTransferRequest, RequestView, SettingsView,
};
use crate::bridge::projection::{direction_of, ffi_direction};
use crate::bridge::records::{
    client_view, collect_sources, distinct_sources, native_publication_metadata_from_extras,
    request_from_canonical_context, request_of, restarted, restarted_session, ExtrasView,
    PlatformExtras,
};
use crate::bridge::routes::{
    activity_id_text, attempts_of, direction_mode_problem, direction_name, direction_name_of,
    next_activity_id, normalize_transfer_limits, op_err, op_error, options_of, parallel_limit,
    peer_sources_for_request, reports, required_of, required_path, required_value,
    transfer_options_for_request, transport_problem, validate_direction_mode, validate_transport,
    LookupsView, SourceLookups,
};
use crate::bridge::snapshot::{
    apply_canonical_snapshot, is_completed_path, is_stored_state, or_empty, text_or_empty,
};
use crate::text::{
    decimal, decimal_text, is_blank, joined, joined3, non_blank, same_text, text_option, trimmed,
};

verus! {

broadcast use vstd::seq_lib::group_seq_properties;

/// Portable entry type in a prepared Manifest.
#[derive(Clone, Copy, Debug, PartialEq, Eq, Structural)]
pub enum FfiManifestEntryKind {
    File,
    Directory,
}

/// Entry type in an engine Manifest.
#[derive(Clone, Copy, Debug, PartialEq, Eq, Structural)]
pub enum ManifestEntryKind {
    RegularFile,
    Directory,
}

/// The [`FfiManifestEntryKind`] that stands for a [`ManifestEntryKind`].
pub open spec fn entry_kind_of(value: ManifestEntryKind) -> FfiManifestEntryKind {
    match value {
        ManifestEntryKind::RegularFile => FfiManifestEntryKind::File,
        ManifestEntryKind::Directory => FfiManifestEntryKind::Directory,
    }
}

/// Projects an entry type.
pub fn ffi_manifest_entry_kind(value: ManifestEntryKind) -> (r: FfiManifestEntryKind)
    ensures
        r == entry_kind_of(value),
{
    match value {
        ManifestEntryKind::RegularFile => FfiManifestEntryKind::File,
        ManifestEntryKind::Directory => FfiManifestEntryKind::Directory,
    }
}

/// Phase of the active Manifest entry.
#[derive(Clone, Copy, Debug, PartialEq, Eq, Structural)]
pub enum FfiManifestEntryPhase {
    NoPhase,
    Preparing,
    Transferring,
}

/// Phase of the active entry in the engine.
#[derive(Clone, Copy, Debug, PartialEq, Eq, Structural)]
pub enum ManifestEntryPhase {
    Preparing,
    Transferring,
}

/// The [`FfiManifestEntryPhase`] that stands for a [`ManifestEntryPhase`].
pub open spec fn entry_phase_of(value: ManifestEntryPhase) -> FfiManifestEntryPhase {
    match value {
        ManifestEntryPhase::Preparing => FfiManifestEntryPhase::Preparing,
        ManifestEntryPhase::Transferring => FfiManifestEntryPhase::Transferring,
    }
}

/// Projects an entry phase.
pub fn ffi_manifest_entry_phase(value: ManifestEntryPhase) -> (r: FfiManifestEntryPhase)
    ensures
        r == entry_phase_of(value),
{
    match value {
        ManifestEntryPhase::Preparing => FfiManifestEntryPhase::Preparing,
        ManifestEntryPhase::Transferring => FfiManifestEntryPhase::Transferring,
    }
}

/// Receiver-authoritative terminal status of one Manifest entry.
#[derive(Clone, Copy, Debug, PartialEq, Eq, Structural)]
pub enum FfiManifestEntryResultStatus {
    Completed,
    SkippedIdentical,
    Renamed,
    Failed,
    Canceled,
}

/// The [`FfiManifestEntryResultStatus`] that stands for a [`ManifestEntryResultStatus`].
pub open spec fn result_status_of(value: ManifestEntryResultStatus) -> FfiManifestEntryResultStatus {
    match value {
        ManifestEntryResultStatus::Completed => FfiManifestEntryResultStatus::Completed,
        ManifestEntryResultStatus::SkippedIdentical => FfiManifestEntryResultStatus::SkippedIdentical,
        ManifestEntryResultStatus::Renamed => FfiManifestEntryResultStatus::Renamed,
        ManifestEntryResultStatus::Failed => FfiManifestEntryResultStatus::Failed,
        ManifestEntryResultStatus::Cancelled => FfiManifestEntryResultStatus::Canceled,
    }
}

/// Projects an entry status.
pub fn ffi_manifest_result_status(value: ManifestEntryResultStatus) -> (r: FfiManifestEntryResultStatus)
    ensures
        r == result_status_of(value),
{
    match value {
        ManifestEntryResultStatus::Completed => FfiManifestEntryResultStatus::Completed,
        ManifestEntryResultStatus::SkippedIdentical => FfiManifestEntryResultStatus::SkippedIdentical,
        ManifestEntryResultStatus::Renamed => FfiManifestEntryResultStatus::Renamed,
        ManifestEntryResultStatus::Failed => FfiManifestEntryResultStatus::Failed,
        ManifestEntryResultStatus::Cancelled => FfiManifestEntryResultStatus::Canceled,
    }
}

/// One typed entry returned by Manifest preparation.
#[derive(Debug, PartialEq, Eq)]
pub struct FfiPreparedManifestEntry {
    pub entry_id: u32,
    pub relative_path: String,
    pub kind: FfiManifestEntryKind,
    pub size: u64,
    /// BLAKE3-256 for files; empty for directories.
    pub hash: Vec<u8>,
    pub modified_at_unix_ms: Option<u64>,
    /// Local source for files; empty for directories.
    pub source_path: String,
}

/// What a [`FfiPreparedManifestEntry`] holds.
#[verifier::ext_equal]
pub struct PreparedEntryView {
    pub entry_id: u32,
    pub relative_path: Seq<char>,
    pub kind: FfiManifestEntryKind,
    pub size: u64,
    pub hash: Seq<u8>,
    pub modified_at_unix_ms: Option<u64>,
    pub source_path: Seq<char>,
}

impl View for FfiPreparedManifestEntry {
    type V = PreparedEntryView;

    open spec fn view(&self) -> PreparedEntryView {
        PreparedEntryView {
            entry_id: self.entry_id,
            relative_path: self.relative_path@,
            kind: self.kind,
            size: self.size,
            hash: self.hash@,
            modified_at_unix_ms: self.modified_at_unix_ms,
            source_path: self.source_path@,
        }
    }
}

impl Clone for FfiPreparedManifestEntry {
    fn clone(&self) -> (r: Self)
        ensures
            r@ == self@,
    {
        let r = FfiPreparedManifestEntry {
            entry_id: self.entry_id,
            relative_path: self.relative_path.clone(),
            kind: self.kind,
            size: self.size,
            hash: self.hash.clone(),
            modified_at_unix_ms: self.modified_at_unix_ms,
            source_path: self.source_path.clone(),
        };
        assert(r.hash@ =~= self.hash@);
        r
    }
}

/// Fully prepared, typed Manifest send plan. Native code may persist it; every
/// field is checked again before a network attempt.
#[derive(Debug, PartialEq, Eq)]
pub struct FfiPreparedManifestSend {
    pub manifest_id: String,
    pub entries: Vec<FfiPreparedManifestEntry>,
    pub file_count: u32,
    pub directory_count: u32,
    pub root_count: u32,
    pub total_bytes: u64,
}

/// What a [`FfiPreparedManifestSend`] holds.
#[verifier::ext_equal]
pub struct PreparedSendView {
    pub manifest_id: Seq<char>,
    pub entries: Seq<PreparedEntryView>,
    pub file_count: u32,
    pub directory_count: u32,
    pub root_count: u32,
    pub total_bytes: u64,
}

impl View for FfiPreparedManifestSend {
    type V = PreparedSendView;

    open spec fn view(&self) -> PreparedSendView {
        PreparedSendView {
            manifest_id: self.manifest_id@,
            entries: self.entries@.map_values(|x: FfiPreparedManifestEntry| x@),
            file_count: self.file_count,
            directory_count: self.directory_count,
            root_count: self.root_count,
            total_bytes: self.total_bytes,
        }
    }
}

impl Clone for FfiPreparedManifestSend {
    fn clone(&self) -> (r: Self)
        ensures
            r@ == self@,
    {
        let r = FfiPreparedManifestSend {
            manifest_id: self.manifest_id.clone(),
            entries: self.entries.clone(),
            file_count: self.file_count,
            directory_count: self.directory_count,
            root_count: self.root_count,
            total_bytes: self.total_bytes,
        };
        assert(r@.entries =~= self@.entries);
        r
    }
}

/// Content hash of a file.
#[derive(Debug, PartialEq, Eq)]
pub struct ManifestHash {
    pub bytes: Vec<u8>,
}

/// What a [`ManifestHash`] holds.
#[verifier::ext_equal]
pub struct HashView {
    pub bytes: Seq<u8>,
}

impl View for ManifestHash {
    type V = HashView;

    open spec fn view(&self) -> HashView {
        HashView {
            bytes: self.bytes@,
        }
    }
}

impl Clone for ManifestHash {
    fn clone(&self) -> (r: Self)
        ensures
            r@ == self@,
    {
        let r = ManifestHash {
            bytes: self.bytes.clone(),
        };
        assert(r.bytes@ =~= self.bytes@);
        r
    }
}

/// One entry of an engine Manifest.
#[derive(Debug, PartialEq, Eq)]
pub struct ManifestEntryV1 {
    pub entry_id: u32,
    pub relative_path: String,
    pub kind: ManifestEntryKind,
    pub size: u64,
    pub hash: Option<ManifestHash>,
    pub modified_at_unix_ms: Option<u64>,
}

/// What a [`ManifestEntryV1`] holds.
#[verifier::ext_equal]
pub struct CoreEntryView {
    pub entry_id: u32,
    pub relative_path: Seq<char>,
    pub kind: ManifestEntryKind,
    pub size: u64,
    pub hash: Option<HashView>,
    pub modified_at_unix_ms: Option<u64>,
}

impl View for ManifestEntryV1 {
    type V = CoreEntryView;

    open spec fn view(&self) -> CoreEntryView {
        CoreEntryView {
            entry_id: self.entry_id,
            relative_path: self.relative_path@,
            kind: self.kind,
            size: self.size,
            hash: match self.hash { Some(x) => Some(x@), None => None },
            modified_at_unix_ms: self.modified_at_unix_ms,
        }
    }
}

impl Clone for ManifestEntryV1 {
    fn clone(&self) -> (r: Self)
        ensures
            r@ == self@,
    {
        let r = ManifestEntryV1 {
            entry_id: self.entry_id,
            relative_path: self.relative_path.clone(),
            kind: self.kind,
            size: self.size,
            hash: self.hash.clone(),
            modified_at_unix_ms: self.modified_at_unix_ms,
        };
        r
    }
}

/// An engine Manifest.
#[derive(Debug, PartialEq, Eq)]
pub struct ManifestV1 {
    pub manifest_id: String,
    pub entries: Vec<ManifestEntryV1>,
    pub file_count: u32,
    pub directory_count: u32,
    pub root_count: u32,
    pub total_bytes: u64,
}

/// What a [`ManifestV1`] holds.
#[verifier::ext_equal]
pub struct ManifestView {
    pub manifest_id: Seq<char>,
    pub entries: Seq<CoreEntryView>,
    pub file_count: u32,
    pub directory_count: u32,
    pub root_count: u32,
    pub total_bytes: u64,
}

impl View for ManifestV1 {
    type V = ManifestView;

    open spec fn view(&self) -> ManifestView {
        ManifestView {
            manifest_id: self.manifest_id@,
            entries: self.entries@.map_values(|x: ManifestEntryV1| x@),
            file_count: self.file_count,
            directory_count: self.directory_count,
            root_count: self.root_count,
            total_bytes: self.total_bytes,
        }
    }
}

impl Clone for ManifestV1 {
    fn clone(&self) -> (r: Self)
        ensures
            r@ == self@,
    {
        let r = ManifestV1 {
            manifest_id: self.manifest_id.clone(),
            entries: self.entries.clone(),
            file_count: self.file_count,
            directory_count: self.directory_count,
            root_count: self.root_count,
            total_bytes: self.total_bytes,
        };
        assert(r@.entries =~= self@.entries);
        r
    }
}

/// Where the bytes of one entry are read from.
#[derive(Debug, PartialEq, Eq)]
pub struct EntrySource {
    pub entry_id: u32,
    pub path: String,
}

/// What a [`EntrySource`] holds.
#[verifier::ext_equal]
pub struct EntrySourceView {
    pub entry_id: u32,
    pub path: Seq<char>,
}

impl View for EntrySource {
    type V = EntrySourceView;

    open spec fn view(&self) -> EntrySourceView {
        EntrySourceView {
            entry_id: self.entry_id,
            path: self.path@,
        }
    }
}

impl Clone for EntrySource {
    fn clone(&self) -> (r: Self)
        ensures
            r == *self,
    {
        EntrySource {
            entry_id: self.entry_id,
            path: self.path.clone(),
        }
    }
}

/// A Manifest with the sources of its files.
#[derive(Debug, PartialEq, Eq)]
pub struct ManifestSendRequest {
    pub manifest: ManifestV1,
    pub source_paths: Vec<EntrySource>,
}

/// What a [`ManifestSendRequest`] holds.
#[verifier::ext_equal]
pub struct SendRequestView {
    pub manifest: ManifestView,
    pub source_paths: Seq<EntrySourceView>,
}

impl View for ManifestSendRequest {
    type V = SendRequestView;

    open spec fn view(&self) -> SendRequestView {
        SendRequestView {
            manifest: self.manifest@,
            source_paths: self.source_paths@.map_values(|x: EntrySource| x@),
        }
    }
}

impl Clone for ManifestSendRequest {
    fn clone(&self) -> (r: Self)
        ensures
            r@ == self@,
    {
        let r = ManifestSendRequest {
            manifest: self.manifest.clone(),
            source_paths: self.source_paths.clone(),
        };
        assert(r@.source_paths =~= self@.source_paths);
        r
    }
}

/// The first source of an entry.
pub open spec fn source_of(sources: Seq<EntrySourceView>, entry_id: u32) -> Option<Seq<char>>
    decreases sources.len(),
{
    if sources.len() == 0 {
        None
    } else if sources[0].entry_id == entry_id {
        Some(sources[0].path)
    } else {
        source_of(sources.skip(1), entry_id)
    }
}

impl ManifestSendRequest {
    /// The source of an entry.
    pub fn source_path(&self, entry_id: u32) -> (r: Option<&String>)
        ensures
            (match r {
                Some(path) => Some(path@),
                None => None,
            }) == source_of(self@.source_paths, entry_id),
    {
        let ghost sources = self@.source_paths;
        let mut i: usize = 0;
        assert(sources.skip(0) =~= sources);
        while i < self.source_paths.len()
            invariant
                i <= self.source_paths@.len(),
                sources == self@.source_paths,
                source_of(sources.skip(i as int), entry_id) == source_of(sources, entry_id),
            decreases self.source_paths@.len() - i,
        {
            assert(sources.skip(i as int)[0] == self.source_paths@[i as int]@);
            if self.source_paths[i].entry_id == entry_id {
                return Some(&self.source_paths[i].path);
            }
            assert(sources.skip(i as int).skip(1) =~= sources.skip(i + 1));
            i += 1;
        }
        None
    }
}

/// The bytes of an optional hash.
pub open spec fn hash_bytes(hash: Option<HashView>) -> Seq<u8> {
    match hash {
        Some(hash) => hash.bytes,
        None => Seq::empty(),
    }
}

/// The native form of an entry whose bytes are read from `source_path`.
pub open spec fn prepared_entry(entry: CoreEntryView, source_path: Seq<char>) -> PreparedEntryView {
    PreparedEntryView {
        entry_id: entry.entry_id,
        relative_path: entry.relative_path,
        kind: entry_kind_of(entry.kind),
        size: entry.size,
        hash: hash_bytes(entry.hash),
        modified_at_unix_ms: entry.modified_at_unix_ms,
        source_path,
    }
}

fn to_prepared_entry(entry: &ManifestEntryV1, source_path: String) -> (r: FfiPreparedManifestEntry)
    ensures
        r@ == prepared_entry(entry@, source_path@),
{
    let hash = match &entry.hash {
        Some(hash) => hash.bytes.clone(),
        None => Vec::new(),
    };
    assert(hash@ =~= hash_bytes(entry@.hash));
    FfiPreparedManifestEntry {
        entry_id: entry.entry_id,
        relative_path: entry.relative_path.clone(),
        kind: ffi_manifest_entry_kind(entry.kind),
        size: entry.size,
        hash,
        modified_at_unix_ms: entry.modified_at_unix_ms,
        source_path,
    }
}

/// Whether every file of a request has a source.
pub open spec fn has_all_sources(request: SendRequestView) -> bool {
    forall|i: int|
        0 <= i < request.manifest.entries.len() && (#[trigger] request.manifest.entries[i]).kind
            == ManifestEntryKind::RegularFile ==> source_of(
            request.source_paths,
            request.manifest.entries[i].entry_id,
        ) is Some
}

/// The source that a plan shows for an entry.
pub open spec fn shown_source(request: SendRequestView, entry: CoreEntryView) -> Seq<char> {
    if entry.kind == ManifestEntryKind::RegularFile {
        or_empty(source_of(request.source_paths, entry.entry_id))
    } else {
        Seq::empty()
    }
}

/// The plan of an engine request.
pub open spec fn plan_of(request: SendRequestView) -> PreparedSendView {
    PreparedSendView {
        manifest_id: request.manifest.manifest_id,
        entries: request.manifest.entries.map_values(
            |entry: CoreEntryView| prepared_entry(entry, shown_source(request, entry)),
        ),
        file_count: request.manifest.file_count,
        directory_count: request.manifest.directory_count,
        root_count: request.manifest.root_count,
        total_bytes: request.manifest.total_bytes,
    }
}

/// How many bytes a content hash has.
pub const HASH_BYTES: usize = 32;

/// Why an entry of a plan cannot be sent, if it cannot: files have a hash and
/// a source, directories have neither.
pub open spec fn entry_problem(entry: PreparedEntryView) -> Option<Seq<char>> {
    match entry.kind {
        FfiManifestEntryKind::File => if entry.hash.len() != HASH_BYTES {
            Some(
                "Manifest file entry "@ + decimal(entry.entry_id as nat)
                    + " must have a 32-byte hash"@,
            )
        } else if entry.source_path.len() == 0 {
            Some("source_path must not be empty"@)
        } else {
            None
        },
        FfiManifestEntryKind::Directory => if entry.hash.len() > 0 || entry.source_path.len() > 0 {
            Some(
                "Manifest directory entry "@ + decimal(entry.entry_id as nat)
                    + " cannot have a hash or source file"@,
            )
        } else {
            None
        },
    }
}

/// The problem of the first entry that has one.
pub open spec fn first_problem(entries: Seq<PreparedEntryView>) -> Option<Seq<char>>
    decreases entries.len(),
{
    if entries.len() == 0 {
        None
    } else {
        match first_problem(entries.drop_last()) {
            Some(problem) => Some(problem),
            None => entry_problem(entries.last()),
        }
    }
}

/// The engine form of an entry.
pub open spec fn core_entry_of(entry: PreparedEntryView) -> CoreEntryView {
    CoreEntryView {
        entry_id: entry.entry_id,
        relative_path: entry.relative_path,
        kind: match entry.kind {
            FfiManifestEntryKind::File => ManifestEntryKind::RegularFile,
            FfiManifestEntryKind::Directory => ManifestEntryKind::Directory,
        },
        size: entry.size,
        hash: match entry.kind {
            FfiManifestEntryKind::File => Some(HashView { bytes: entry.hash }),
            FfiManifestEntryKind::Directory => None,
        },
        modified_at_unix_ms: entry.modified_at_unix_ms,
    }
}

/// The sources of the files among the entries, in order.
pub open spec fn file_sources(entries: Seq<PreparedEntryView>) -> Seq<EntrySourceView>
    decreases entries.len(),
{
    if entries.len() == 0 {
        Seq::empty()
    } else {
        let before = file_sources(entries.drop_last());
        let entry = entries.last();
        if entry.kind == FfiManifestEntryKind::File {
            before.push(EntrySourceView { entry_id: entry.entry_id, path: entry.source_path })
        } else {
            before
        }
    }
}

/// The engine request that a plan asks for, or why it asks for none.
pub open spec fn request_of_plan(plan: PreparedSendView) -> Result<SendRequestView, Seq<char>> {
    match required_of(plan.manifest_id, "manifest_id"@) {
        Err(reason) => Err(reason),
        Ok(manifest_id) => match first_problem(plan.entries) {
            Some(reason) => Err(reason),
            None => Ok(
                SendRequestView {
                    manifest: ManifestView {
                        manifest_id,
                        entries: plan.entries.map_values(|e: PreparedEntryView| core_entry_of(e)),
                        file_count: plan.file_count,
                        directory_count: plan.directory_count,
                        root_count: plan.root_count,
                        total_bytes: plan.total_bytes,
                    },
                    source_paths: file_sources(plan.entries),
                },
            ),
        },
    }
}

/// The engine request of a plan, or why it has none. `plan_refused` is why the
/// engine refuses the request that the plan asks for, if it does.
pub open spec fn checked_plan(plan: PreparedSendView, plan_refused: Option<Seq<char>>) -> Result<
    SendRequestView,
    Seq<char>,
> {
    match request_of_plan(plan) {
        Err(reason) => Err(reason),
        Ok(request) => match plan_refused {
            Some(reason) => Err(reason),
            None => Ok(request),
        },
    }
}

fn check_entry(entry: &FfiPreparedManifestEntry) -> (r: Option<String>)
    ensures
        text_option(r) == entry_problem(entry@),
{
    match entry.kind {
        FfiManifestEntryKind::File => if entry.hash.len() != HASH_BYTES {
            Some(
                joined3(
                    "Manifest file entry ",
                    decimal_text(entry.entry_id as u64).as_str(),
                    " must have a 32-byte hash",
                ),
            )
        } else if entry.source_path.as_str().is_empty() {
            Some("source_path must not be empty".to_owned())
        } else {
            None
        },
        FfiManifestEntryKind::Directory => if entry.hash.len() > 0
            || !entry.source_path.as_str().is_empty() {
            Some(
                joined3(
                    "Manifest directory entry ",
                    decimal_text(entry.entry_id as u64).as_str(),
                    " cannot have a hash or source file",
                ),
            )
        } else {
            None
        },
    }
}

fn to_core_entry(entry: &FfiPreparedManifestEntry) -> (r: ManifestEntryV1)
    ensures
        r@ == core_entry_of(entry@),
{
    let (kind, hash) = match entry.kind {
        FfiManifestEntryKind::File => {
            let bytes = entry.hash.clone();
            assert(bytes@ =~= entry.hash@);
            (ManifestEntryKind::RegularFile, Some(ManifestHash { bytes }))
        },
        FfiManifestEntryKind::Directory => (ManifestEntryKind::Directory, None),
    };
    ManifestEntryV1 {
        entry_id: entry.entry_id,
        relative_path: entry.relative_path.clone(),
        kind,
        size: entry.size,
        hash,
        modified_at_unix_ms: entry.modified_at_unix_ms,
    }
}

impl FfiPreparedManifestSend {
    /// The plan of an engine request. `missing_source` is what the engine says
    /// of a file without a source.
    pub fn from_core(request: &ManifestSendRequest, missing_source: &str) -> (r: Result<
        Self,
        EnvoixError,
    >)
        ensures
            match r {
                Ok(plan) => has_all_sources(request@) && plan@ == plan_of(request@),
                Err(error) => !has_all_sources(request@) && error.reason_view() == missing_source@,
            },
    {
        let ghost core = request@;
        let mut entries: Vec<FfiPreparedManifestEntry> = Vec::new();
        let mut i: usize = 0;
        while i < request.manifest.entries.len()
            invariant
                i <= request.manifest.entries@.len(),
                core == request@,
                entries@.len() == i,
                forall|k: int|
                    0 <= k < i ==> (#[trigger] entries@[k])@ == prepared_entry(
                        core.manifest.entries[k],
                        shown_source(core, core.manifest.entries[k]),
                    ),
                forall|k: int|
                    0 <= k < i && (#[trigger] core.manifest.entries[k]).kind
                        == ManifestEntryKind::RegularFile ==> source_of(
                        core.source_paths,
                        core.manifest.entries[k].entry_id,
                    ) is Some,
            decreases request.manifest.entries@.len() - i,
        {
            let entry = &request.manifest.entries[i];
            assert(core.manifest.entries[i as int] == entry@);
            let source = if entry.kind == ManifestEntryKind::RegularFile {
                match request.source_path(entry.entry_id) {
                    Some(path) => path.clone(),
                    None => return Err(op_error(missing_source)),
                }
            } else {
                String::new()
            };
            entries.push(to_prepared_entry(entry, source));
            i += 1;
        }
        let r = FfiPreparedManifestSend {
            manifest_id: request.manifest.manifest_id.clone(),
            entries,
            file_count: request.manifest.file_count,
            directory_count: request.manifest.directory_count,
            root_count: request.manifest.root_count,
            total_bytes: request.manifest.total_bytes,
        };
        assert(r@.entries =~= plan_of(core).entries);
        Ok(r)
    }

    /// The engine request that a plan asks for, as it goes into the engine's own
    /// checks.
    pub fn proposed_request(&self) -> (r: Result<ManifestSendRequest, EnvoixError>)
        ensures
            match r {
                Ok(request) => request_of_plan(self@) == Ok::<SendRequestView, Seq<char>>(request@),
                Err(error) => request_of_plan(self@) == Err::<SendRequestView, Seq<char>>(
                    error.reason_view(),
                ),
            },
    {
        let manifest_id = match required_value(self.manifest_id.as_str(), "manifest_id") {
            Ok(id) => id,
            Err(error) => return Err(error),
        };
        let ghost plan = self@.entries;
        let mut entries: Vec<ManifestEntryV1> = Vec::new();
        let mut sources: Vec<EntrySource> = Vec::new();
        let mut i: usize = 0;
        assert(plan.take(0) =~= Seq::empty());
        assert(sources@.map_values(|s: EntrySource| s@) =~= file_sources(plan.take(0)));
        while i < self.entries.len()
            invariant
                i <= self.entries@.len(),
                plan == self@.entries,
                required_of(self@.manifest_id, "manifest_id"@) is Ok,
                first_problem(plan.take(i as int)) is None,
                entries@.len() == i,
                forall|k: int| 0 <= k < i ==> (#[trigger] entries@[k])@ == core_entry_of(plan[k]),
                sources@.map_values(|s: EntrySource| s@) == file_sources(plan.take(i as int)),
            decreases self.entries@.len() - i,
        {
            let entry = &self.entries[i];
            let ghost next = plan.take(i + 1);
            let ghost so_far = sources@.map_values(|s: EntrySource| s@);
            proof {
                assert(next.drop_last() =~= plan.take(i as int));
                assert(next.last() == entry@);
            }
            if let Some(problem) = check_entry(entry) {
                proof {
                    problems_persist(plan, i + 1);
                }
                return Err(op_err(problem));
            }
            entries.push(to_core_entry(entry));
            if entry.kind == FfiManifestEntryKind::File {
                let source = EntrySource {
                    entry_id: entry.entry_id,
                    path: entry.source_path.clone(),
                };
                let ghost added = source@;
                sources.push(source);
                assert(sources@.map_values(|s: EntrySource| s@) =~= so_far.push(added));
            }
            i += 1;
        }
        assert(plan.take(i as int) =~= plan);
        let r = ManifestSendRequest {
            manifest: ManifestV1 {
                manifest_id,
                entries,
                file_count: self.file_count,
                directory_count: self.directory_count,
                root_count: self.root_count,
                total_bytes: self.total_bytes,
            },
            source_paths: sources,
        };
        assert(r@.manifest.entries =~= plan.map_values(|e: PreparedEntryView| core_entry_of(e)));
        Ok(r)
    }

    /// The engine request of a plan. `plan_refused` is why the engine refuses
    /// what [`proposed_request`](Self::proposed_request) gives, if it does.
    pub fn to_core(&self, plan_refused: &Option<String>) -> (r: Result<
        ManifestSendRequest,
        EnvoixError,
    >)
        ensures
            (match r {
                Ok(request) => Ok(request@),
                Err(error) => Err(error.reason_view()),
            }) == checked_plan(self@, text_option(*plan_refused)),
    {
        match self.proposed_request() {
            Err(error) => Err(error),
            Ok(request) => match plan_refused {
                Some(reason) => Err(op_err(reason.clone())),
                None => Ok(request),
            },
        }
    }
}

proof fn problems_persist(entries: Seq<PreparedEntryView>, i: int)
    requires
        0 <= i <= entries.len(),
        first_problem(entries.take(i)) is Some,
    ensures
        first_problem(entries) == first_problem(entries.take(i)),
    decreases entries.len(),
{
    if i == entries.len() {
        assert(entries.take(i) =~= entries);
    } else {
        assert(entries.drop_last().take(i) =~= entries.take(i));
        problems_persist(entries.drop_last(), i);
    }
}

/// Whether no two files of a plan share an entry id.
pub open spec fn file_ids_differ(entries: Seq<PreparedEntryView>) -> bool {
    forall|i: int, j: int|
        #![trigger entries[i], entries[j]]
        0 <= i < j < entries.len() && entries[i].kind == FfiManifestEntryKind::File
            && entries[j].kind == FfiManifestEntryKind::File ==> entries[i].entry_id
            != entries[j].entry_id
}

proof fn source_of_append(sources: Seq<EntrySourceView>, added: EntrySourceView, id: u32)
    ensures
        source_of(sources.push(added), id) == (match source_of(sources, id) {
            Some(path) => Some(path),
            None => if added.entry_id == id {
                Some(added.path)
            } else {
                None
            },
        }),
    decreases sources.len(),
{
    let all = sources.push(added);
    if sources.len() == 0 {
        assert(all.skip(1) =~= Seq::empty());
        assert(source_of(all.skip(1), id) is None);
    } else {
        assert(all.skip(1) =~= sources.skip(1).push(added));
        source_of_append(sources.skip(1), added, id);
    }
}

proof fn file_sources_find(entries: Seq<PreparedEntryView>, id: u32)
    requires
        file_ids_differ(entries),
    ensures
        forall|i: int|
            0 <= i < entries.len() && (#[trigger] entries[i]).kind == FfiManifestEntryKind::File
                && entries[i].entry_id == id ==> source_of(file_sources(entries), id) == Some(
                entries[i].source_path,
            ),
        (forall|i: int|
            0 <= i < entries.len() && (#[trigger] entries[i]).kind == FfiManifestEntryKind::File
                ==> entries[i].entry_id != id) ==> source_of(file_sources(entries), id) is None,
    decreases entries.len(),
{
    if entries.len() > 0 {
        let init = entries.drop_last();
        assert forall|i: int, j: int|
            #![trigger init[i], init[j]]
            0 <= i < j < init.len() && init[i].kind == FfiManifestEntryKind::File && init[j].kind
                == FfiManifestEntryKind::File implies init[i].entry_id != init[j].entry_id by {
            assert(entries[i].entry_id != entries[j].entry_id);
        }
        file_sources_find(init, id);
        let last = entries.last();
        if last.kind == FfiManifestEntryKind::File {
            source_of_append(
                file_sources(init),
                EntrySourceView { entry_id: last.entry_id, path: last.source_path },
                id,
            );
        }
        assert forall|i: int|
            0 <= i < entries.len() && (#[trigger] entries[i]).kind == FfiManifestEntryKind::File
                && entries[i].entry_id == id implies source_of(file_sources(entries), id) == Some(
            entries[i].source_path,
        ) by {
            if i < init.len() {
                assert(init[i] == entries[i]);
            } else {
                assert forall|k: int|
                    0 <= k < init.len() && (#[trigger] init[k]).kind == FfiManifestEntryKind::File implies init[k].entry_id
                    != id by {
                    assert(entries[k].entry_id != entries[i].entry_id);
                }
            }
        }
        if forall|i: int|
            0 <= i < entries.len() && (#[trigger] entries[i]).kind == FfiManifestEntryKind::File
                ==> entries[i].entry_id != id {
            assert forall|k: int|
                0 <= k < init.len() && (#[trigger] init[k]).kind == FfiManifestEntryKind::File implies init[k].entry_id
                != id by {
                assert(entries[k].entry_id != id);
            }
            assert(entries[entries.len() - 1] == last);
        }
    }
}

proof fn no_problem_anywhere(entries: Seq<PreparedEntryView>)
    requires
        first_problem(entries) is None,
    ensures
        forall|i: int| 0 <= i < entries.len() ==> entry_problem(#[trigger] entries[i]) is None,
    decreases entries.len(),
{
    if entries.len() > 0 {
        no_problem_anywhere(entries.drop_last());
        assert forall|i: int| 0 <= i < entries.len() implies entry_problem(
            #[trigger] entries[i],
        ) is None by {
            if i < entries.len() - 1 {
                assert(entries.drop_last()[i] == entries[i]);
            }
        }
    }
}

/// A plan that is accepted and projected back is the same plan, apart from
/// white space around its id.
pub proof fn accepted_plans_survive(plan: PreparedSendView, request: SendRequestView)
    requires
        checked_plan(plan, None) == Ok::<SendRequestView, Seq<char>>(request),
        file_ids_differ(plan.entries),
    ensures
        has_all_sources(request),
        plan_of(request) == (PreparedSendView { manifest_id: trimmed(plan.manifest_id), ..plan }),
{
    no_problem_anywhere(plan.entries);
    assert forall|i: int| 0 <= i < plan.entries.len() implies #[trigger] plan_of(request).entries[i]
        == plan.entries[i] && (plan.entries[i].kind == FfiManifestEntryKind::File ==> source_of(
        request.source_paths,
        plan.entries[i].entry_id,
    ) is Some) by {
        let entry = plan.entries[i];
        assert(request.manifest.entries[i] == core_entry_of(entry));
        file_sources_find(plan.entries, entry.entry_id);
        assert(entry_problem(entry) is None);
        if entry.kind == FfiManifestEntryKind::Directory {
            assert(entry.hash =~= Seq::empty());
            assert(entry.source_path =~= Seq::empty());
        }
    }
    assert forall|i: int|
        0 <= i < request.manifest.entries.len() && (#[trigger] request.manifest.entries[i]).kind
            == ManifestEntryKind::RegularFile implies source_of(
        request.source_paths,
        request.manifest.entries[i].entry_id,
    ) is Some by {
        assert(request.manifest.entries[i] == core_entry_of(plan.entries[i]));
        assert(plan_of(request).entries[i] == plan.entries[i]);
    }
    assert(plan_of(request).entries =~= plan.entries);
}

/// The id and the paths of a Manifest preparation, or why it is refused.
pub fn manifest_preparation(
    activity_id: &str,
    selected_paths: &Vec<String>,
    next_activity: &mut u64,
) -> (r: Result<String, EnvoixError>)
    ensures
        *final(next_activity) == (if is_blank(activity_id@) {
            old(next_activity).wrapping_add(1)
        } else {
            *old(next_activity)
        }),
        ({
            let usable = selected_paths@.len() > 0 && forall|i: int|
                0 <= i < selected_paths@.len() ==> (#[trigger] selected_paths@[i])@.len() > 0;
            match r {
                Ok(id) => usable && id@ == (if is_blank(activity_id@) {
                    activity_id_text(*old(next_activity))
                } else {
                    trimmed(activity_id@)
                }),
                Err(error) => !usable && error.reason_view()
                    == "selected_paths must contain at least one non-empty path"@,
            }
        }),
{
    let id = match non_blank(activity_id) {
        Some(id) => id,
        None => next_activity_id(next_activity),
    };
    if selected_paths.len() == 0 {
        return Err(op_error("selected_paths must contain at least one non-empty path"));
    }
    let mut i: usize = 0;
    while i < selected_paths.len()
        invariant
            i <= selected_paths@.len(),
            *next_activity == (if is_blank(activity_id@) {
                old(next_activity).wrapping_add(1)
            } else {
                *old(next_activity)
            }),
            forall|k: int| 0 <= k < i ==> (#[trigger] selected_paths@[k])@.len() > 0,
        decreases selected_paths@.len() - i,
    {
        if selected_paths[i].as_str().is_empty() {
            assert(selected_paths@[i as int]@.len() == 0);
            return Err(op_error("selected_paths must contain at least one non-empty path"));
        }
        i += 1;
    }
    Ok(id)
}

/// Reports a prepared send. `prepared` is what the engine made of the paths
/// that [`manifest_preparation`] took; `missing_source` is what it says of a
/// file without a source.
pub fn prepare_manifest_send(
    prepared: &Result<ManifestSendRequest, String>,
    missing_source: &str,
) -> (r: Result<FfiPreparedManifestSend, EnvoixError>)
    ensures
        match *prepared {
            Err(reason) => r matches Err(error) && error.reason_view() == reason@,
            Ok(request) => match r {
                Ok(plan) => has_all_sources(request@) && plan@ == plan_of(request@),
                Err(error) => !has_all_sources(request@) && error.reason_view() == missing_source@,
            },
        },
{
    match prepared {
        Err(reason) => Err(op_err(reason.clone())),
        Ok(request) => FfiPreparedManifestSend::from_core(request, missing_source),
    }
}

/// The entry that is being worked on.
#[derive(Debug, PartialEq, Eq)]
pub struct ManifestCurrentEntry {
    pub entry_id: u32,
    pub phase: ManifestEntryPhase,
    pub transfer_id: Option<String>,
    pub relative_path: String,
    pub bytes: u64,
    pub total: u64,
    pub bytes_resumed: u64,
}

/// What a [`ManifestCurrentEntry`] holds.
#[verifier::ext_equal]
pub struct CoreCurrentView {
    pub entry_id: u32,
    pub phase: ManifestEntryPhase,
    pub transfer_id: Option<Seq<char>>,
    pub relative_path: Seq<char>,
    pub bytes: u64,
    pub total: u64,
    pub bytes_resumed: u64,
}

impl View for ManifestCurrentEntry {
    type V = CoreCurrentView;

    open spec fn view(&self) -> CoreCurrentView {
        CoreCurrentView {
            entry_id: self.entry_id,
            phase: self.phase,
            transfer_id: text_option(self.transfer_id),
            relative_path: self.relative_path@,
            bytes: self.bytes,
            total: self.total,
            bytes_resumed: self.bytes_resumed,
        }
    }
}

impl Clone for ManifestCurrentEntry {
    fn clone(&self) -> (r: Self)
        ensures
            r == *self,
    {
        ManifestCurrentEntry {
            entry_id: self.entry_id,
            phase: self.phase,
            transfer_id: self.transfer_id.clone(),
            relative_path: self.relative_path.clone(),
            bytes: self.bytes,
            total: self.total,
            bytes_resumed: self.bytes_resumed,
        }
    }
}

/// A Manifest activity as the engine keeps it.
#[derive(Debug, PartialEq, Eq)]
pub struct ManifestActivity {
    pub session: Session,
    pub manifest: Option<ManifestV1>,
    pub current_entry: Option<ManifestCurrentEntry>,
    pub completed_files: u32,
    pub entry_results: Vec<ManifestEntryResult>,
}

/// What a [`ManifestActivity`] holds.
#[verifier::ext_equal]
pub struct ManifestActivityView {
    pub session: SessionView,
    pub manifest: Option<ManifestView>,
    pub current_entry: Option<CoreCurrentView>,
    pub completed_files: u32,
    pub entry_results: Seq<EntryResultView>,
}

impl View for ManifestActivity {
    type V = ManifestActivityView;

    open spec fn view(&self) -> ManifestActivityView {
        ManifestActivityView {
            session: self.session@,
            manifest: match self.manifest { Some(x) => Some(x@), None => None },
            current_entry: match self.current_entry { Some(x) => Some(x@), None => None },
            completed_files: self.completed_files,
            entry_results: self.entry_results@.map_values(|x: ManifestEntryResult| x@),
        }
    }
}

impl Clone for ManifestActivity {
    fn clone(&self) -> (r: Self)
        ensures
            r@ == self@,
    {
        let r = ManifestActivity {
            session: self.session.clone(),
            manifest: self.manifest.clone(),
            current_entry: self.current_entry.clone(),
            completed_files: self.completed_files,
            entry_results: self.entry_results.clone(),
        };
        assert(r@.entry_results =~= self@.entry_results);
        r
    }
}

/// A Manifest activity at one moment, with its rates in whole bytes per second.
#[derive(Debug, PartialEq, Eq)]
pub struct ManifestSessionSnapshot {
    pub seq: u64,
    pub speed_bps: u64,
    pub avg_bps: u64,
    pub activity: ManifestActivity,
}

/// What a [`ManifestSessionSnapshot`] holds.
#[verifier::ext_equal]
pub struct ManifestSnapshotView {
    pub seq: u64,
    pub speed_bps: u64,
    pub avg_bps: u64,
    pub activity: ManifestActivityView,
}

impl View for ManifestSessionSnapshot {
    type V = ManifestSnapshotView;

    open spec fn view(&self) -> ManifestSnapshotView {
        ManifestSnapshotView {
            seq: self.seq,
            speed_bps: self.speed_bps,
            avg_bps: self.avg_bps,
            activity: self.activity@,
        }
    }
}

impl Clone for ManifestSessionSnapshot {
    fn clone(&self) -> (r: Self)
        ensures
            r@ == self@,
    {
        let r = ManifestSessionSnapshot {
            seq: self.seq,
            speed_bps: self.speed_bps,
            avg_bps: self.avg_bps,
            activity: self.activity.clone(),
        };
        r
    }
}

/// Active per-entry projection.
#[derive(Debug, PartialEq, Eq)]
pub struct FfiManifestCurrentEntry {
    pub entry_id: u32,
    pub phase: FfiManifestEntryPhase,
    pub transfer_id: String,
    pub relative_path: String,
    pub bytes_transferred: u64,
    pub total_bytes: u64,
    pub bytes_resumed: u64,
}

/// What a [`FfiManifestCurrentEntry`] holds.
#[verifier::ext_equal]
pub struct CurrentEntryView {
    pub entry_id: u32,
    pub phase: FfiManifestEntryPhase,
    pub transfer_id: Seq<char>,
    pub relative_path: Seq<char>,
    pub bytes_transferred: u64,
    pub total_bytes: u64,
    pub bytes_resumed: u64,
}

impl View for FfiManifestCurrentEntry {
    type V = CurrentEntryView;

    open spec fn view(&self) -> CurrentEntryView {
        CurrentEntryView {
            entry_id: self.entry_id,
            phase: self.phase,
            transfer_id: self.transfer_id@,
            relative_path: self.relative_path@,
            bytes_transferred: self.bytes_transferred,
            total_bytes: self.total_bytes,
            bytes_resumed: self.bytes_resumed,
        }
    }
}

impl Clone for FfiManifestCurrentEntry {
    fn clone(&self) -> (r: Self)
        ensures
            r == *self,
    {
        FfiManifestCurrentEntry {
            entry_id: self.entry_id,
            phase: self.phase,
            transfer_id: self.transfer_id.clone(),
            relative_path: self.relative_path.clone(),
            bytes_transferred: self.bytes_transferred,
            total_bytes: self.total_bytes,
            bytes_resumed: self.bytes_resumed,
        }
    }
}

/// Native form of an entry result.
#[derive(Debug, PartialEq, Eq)]
pub struct FfiManifestEntryResult {
    pub entry_id: u32,
    pub status: FfiManifestEntryResultStatus,
    pub offered_relative_path: String,
    pub final_relative_path: String,
    pub failure_code: String,
}

/// What a [`FfiManifestEntryResult`] holds.
#[verifier::ext_equal]
pub struct FfiEntryResultView {
    pub entry_id: u32,
    pub status: FfiManifestEntryResultStatus,
    pub offered_relative_path: Seq<char>,
    pub final_relative_path: Seq<char>,
    pub failure_code: Seq<char>,
}

impl View for FfiManifestEntryResult {
    type V = FfiEntryResultView;

    open spec fn view(&self) -> FfiEntryResultView {
        FfiEntryResultView {
            entry_id: self.entry_id,
            status: self.status,
            offered_relative_path: self.offered_relative_path@,
            final_relative_path: self.final_relative_path@,
            failure_code: self.failure_code@,
        }
    }
}

impl Clone for FfiManifestEntryResult {
    fn clone(&self) -> (r: Self)
        ensures
            r == *self,
    {
        FfiManifestEntryResult {
            entry_id: self.entry_id,
            status: self.status,
            offered_relative_path: self.offered_relative_path.clone(),
            final_relative_path: self.final_relative_path.clone(),
            failure_code: self.failure_code.clone(),
        }
    }
}

/// Manifest-aware card: the common card and the transfer set behind it.
#[derive(Debug, PartialEq, Eq)]
pub struct FfiManifestActivityRecord {
    pub activity: FfiTransferActivityRecord,
    pub manifest_id: String,
    pub root_count: u32,
    pub file_count: u32,
    pub directory_count: u32,
    pub completed_files: u32,
    pub entries: Vec<FfiPreparedManifestEntry>,
    pub current_entry: Option<FfiManifestCurrentEntry>,
    pub entry_results: Vec<FfiManifestEntryResult>,
}

/// What a [`FfiManifestActivityRecord`] holds.
#[verifier::ext_equal]
pub struct ManifestCardView {
    pub activity: ActivityView,
    pub manifest_id: Seq<char>,
    pub root_count: u32,
    pub file_count: u32,
    pub directory_count: u32,
    pub completed_files: u32,
    pub entries: Seq<PreparedEntryView>,
    pub current_entry: Option<CurrentEntryView>,
    pub entry_results: Seq<FfiEntryResultView>,
}

impl View for FfiManifestActivityRecord {
    type V = ManifestCardView;

    open spec fn view(&self) -> ManifestCardView {
        ManifestCardView {
            activity: self.activity@,
            manifest_id: self.manifest_id@,
            root_count: self.root_count,
            file_count: self.file_count,
            directory_count: self.directory_count,
            completed_files: self.completed_files,
            entries: self.entries@.map_values(|x: FfiPreparedManifestEntry| x@),
            current_entry: match self.current_entry { Some(x) => Some(x@), None => None },
            entry_results: self.entry_results@.map_values(|x: FfiManifestEntryResult| x@),
        }
    }
}

impl Clone for FfiManifestActivityRecord {
    fn clone(&self) -> (r: Self)
        ensures
            r@ == self@,
    {
        let r = FfiManifestActivityRecord {
            activity: self.activity.clone(),
            manifest_id: self.manifest_id.clone(),
            root_count: self.root_count,
            file_count: self.file_count,
            directory_count: self.directory_count,
            completed_files: self.completed_files,
            entries: self.entries.clone(),
            current_entry: self.current_entry.clone(),
            entry_results: self.entry_results.clone(),
        };
        assert(r@.entries =~= self@.entries);
        assert(r@.entry_results =~= self@.entry_results);
        r
    }
}

/// The native form of the active entry.
pub open spec fn current_entry_of(entry: CoreCurrentView) -> CurrentEntryView {
    CurrentEntryView {
        entry_id: entry.entry_id,
        phase: entry_phase_of(entry.phase),
        transfer_id: or_empty(entry.transfer_id),
        relative_path: entry.relative_path,
        bytes_transferred: entry.bytes,
        total_bytes: entry.total,
        bytes_resumed: entry.bytes_resumed,
    }
}

fn to_current_entry(entry: &ManifestCurrentEntry) -> (r: FfiManifestCurrentEntry)
    ensures
        r@ == current_entry_of(entry@),
{
    FfiManifestCurrentEntry {
        entry_id: entry.entry_id,
        phase: ffi_manifest_entry_phase(entry.phase),
        transfer_id: text_or_empty(&entry.transfer_id),
        relative_path: entry.relative_path.clone(),
        bytes_transferred: entry.bytes,
        total_bytes: entry.total,
        bytes_resumed: entry.bytes_resumed,
    }
}

/// The native form of an entry result.
pub open spec fn entry_result_of(result: EntryResultView) -> FfiEntryResultView {
    FfiEntryResultView {
        entry_id: result.entry_id,
        status: result_status_of(result.status),
        offered_relative_path: result.offered_relative_path,
        final_relative_path: or_empty(result.final_relative_path),
        failure_code: or_empty(result.failure_code),
    }
}

fn to_entry_results(results: &Vec<ManifestEntryResult>) -> (r: Vec<FfiManifestEntryResult>)
    ensures
        r@.map_values(|x: FfiManifestEntryResult| x@) == results@.map_values(
            |x: ManifestEntryResult| entry_result_of(x@),
        ),
{
    let mut r: Vec<FfiManifestEntryResult> = Vec::new();
    let mut i: usize = 0;
    while i < results.len()
        invariant
            i <= results@.len(),
            r@.len() == i,
            forall|k: int| 0 <= k < i ==> (#[trigger] r@[k])@ == entry_result_of(results@[k]@),
        decreases results@.len() - i,
    {
        let result = &results[i];
        r.push(
            FfiManifestEntryResult {
                entry_id: result.entry_id,
                status: ffi_manifest_result_status(result.status),
                offered_relative_path: result.offered_relative_path.clone(),
                final_relative_path: text_or_empty(&result.final_relative_path),
                failure_code: text_or_empty(&result.failure_code),
            },
        );
        i += 1;
    }
    assert(r@.map_values(|x: FfiManifestEntryResult| x@) =~= results@.map_values(
        |x: ManifestEntryResult| entry_result_of(x@),
    ));
    r
}

fn to_inventory(entries: &Vec<ManifestEntryV1>) -> (r: Vec<FfiPreparedManifestEntry>)
    ensures
        r@.map_values(|x: FfiPreparedManifestEntry| x@) == entries@.map_values(
            |x: ManifestEntryV1| prepared_entry(x@, Seq::empty()),
        ),
{
    let mut r: Vec<FfiPreparedManifestEntry> = Vec::new();
    let mut i: usize = 0;
    while i < entries.len()
        invariant
            i <= entries@.len(),
            r@.len() == i,
            forall|k: int|
                0 <= k < i ==> (#[trigger] r@[k])@ == prepared_entry(entries@[k]@, Seq::empty()),
        decreases entries@.len() - i,
    {
        r.push(to_prepared_entry(&entries[i], String::new()));
        i += 1;
    }
    assert(r@.map_values(|x: FfiPreparedManifestEntry| x@) =~= entries@.map_values(
        |x: ManifestEntryV1| prepared_entry(x@, Seq::empty()),
    ));
    r
}

/// The name that a card shows for a Manifest: its only root, or how many roots
/// there are.
pub open spec fn display_name(manifest: ManifestView) -> Seq<char> {
    if manifest.root_count != 1 {
        decimal(manifest.root_count as nat) + " items"@
    } else if manifest.entries.len() > 0 {
        manifest.entries[0].relative_path
    } else {
        manifest.manifest_id
    }
}

/// The name that a card shows for a Manifest.
pub fn manifest_display_name(manifest: &ManifestV1) -> (r: String)
    ensures
        r@ == display_name(manifest@),
{
    if manifest.root_count != 1 {
        joined(decimal_text(manifest.root_count as u64).as_str(), " items")
    } else if manifest.entries.len() > 0 {
        assert(manifest@.entries[0] == manifest.entries@[0]@);
        manifest.entries[0].relative_path.clone()
    } else {
        manifest.manifest_id.clone()
    }
}

impl ManifestCardView {
    /// The card after a Manifest snapshot; `path` is where stored bytes can be
    /// found. Without a Manifest the inventory is empty.
    pub open spec fn after_manifest_snapshot(
        self,
        snapshot: ManifestSnapshotView,
        path: Seq<char>,
        ts_ms: u64,
    ) -> ManifestCardView {
        let activity = snapshot.activity;
        let card = self.activity.after_snapshot(
            SnapshotView {
                seq: snapshot.seq,
                speed_bps: snapshot.speed_bps,
                avg_bps: snapshot.avg_bps,
                session: activity.session,
            },
            path,
            ts_ms,
        );
        let base = ManifestCardView {
            activity: card,
            manifest_id: Seq::empty(),
            root_count: 0,
            file_count: 0,
            directory_count: 0,
            completed_files: activity.completed_files,
            entries: Seq::empty(),
            current_entry: match activity.current_entry {
                Some(entry) => Some(current_entry_of(entry)),
                None => None,
            },
            entry_results: activity.entry_results.map_values(
                |result: EntryResultView| entry_result_of(result),
            ),
        };
        match activity.manifest {
            None => base,
            Some(manifest) => ManifestCardView {
                activity: ActivityView { file_name: display_name(manifest), ..card },
                manifest_id: manifest.manifest_id,
                root_count: manifest.root_count,
                file_count: manifest.file_count,
                directory_count: manifest.directory_count,
                entries: manifest.entries.map_values(
                    |entry: CoreEntryView| prepared_entry(entry, Seq::empty()),
                ),
                ..base
            },
        }
    }
}

/// Renders a Manifest snapshot onto a card.
pub fn apply_manifest_snapshot(
    record: &mut FfiManifestActivityRecord,
    snapshot: &ManifestSessionSnapshot,
    projection: &SessionContext,
    timestamp: u64,
)
    ensures
        final(record)@ == old(record)@.after_manifest_snapshot(
            snapshot@,
            final(record)@.activity.completed_file_path,
            timestamp,
        ),
        is_stored_state(snapshot.activity.session.state) ==> is_completed_path(
            projection@,
            snapshot.activity.session@,
            final(record)@.activity.completed_file_path,
        ),
{
    let plain = SessionSnapshot {
        seq: snapshot.seq,
        speed_bps: snapshot.speed_bps,
        avg_bps: snapshot.avg_bps,
        session: snapshot.activity.session.clone(),
    };
    let mut card = record.activity.clone();
    apply_canonical_snapshot(&mut card, &plain, projection, timestamp);
    let activity = &snapshot.activity;
    let current_entry = match &activity.current_entry {
        Some(entry) => Some(to_current_entry(entry)),
        None => None,
    };
    let entry_results = to_entry_results(&activity.entry_results);
    let ghost results = activity@.entry_results.map_values(
        |result: EntryResultView| entry_result_of(result),
    );
    assert(entry_results@.map_values(|x: FfiManifestEntryResult| x@) =~= results);
    match &activity.manifest {
        None => {
            let entries: Vec<FfiPreparedManifestEntry> = Vec::new();
            assert(entries@.map_values(|x: FfiPreparedManifestEntry| x@) =~= Seq::empty());
            *record = FfiManifestActivityRecord {
                activity: card,
                manifest_id: String::new(),
                root_count: 0,
                file_count: 0,
                directory_count: 0,
                completed_files: activity.completed_files,
                entries,
                current_entry,
                entry_results,
            };
        },
        Some(manifest) => {
            card.file_name = manifest_display_name(manifest);
            let entries = to_inventory(&manifest.entries);
            assert(entries@.map_values(|x: FfiPreparedManifestEntry| x@)
                =~= manifest@.entries.map_values(
                |entry: CoreEntryView| prepared_entry(entry, Seq::empty()),
            ));
            *record = FfiManifestActivityRecord {
                activity: card,
                manifest_id: manifest.manifest_id.clone(),
                root_count: manifest.root_count,
                file_count: manifest.file_count,
                directory_count: manifest.directory_count,
                completed_files: activity.completed_files,
                entries,
                current_entry,
                entry_results,
            };
        },
    }
}

/// What a Manifest session does.
#[derive(Debug, PartialEq, Eq)]
pub enum ManifestOperation {
    Send { request: ManifestSendRequest },
    Receive { output_dir: String },
}

/// What a [`ManifestOperation`] holds.
#[verifier::ext_equal]
pub enum OperationView {
    Send { request: SendRequestView },
    Receive { output_dir: Seq<char> },
}

impl View for ManifestOperation {
    type V = OperationView;

    open spec fn view(&self) -> OperationView {
        match *self {
            ManifestOperation::Send { request } => OperationView::Send { request: request@ },
            ManifestOperation::Receive { output_dir } => OperationView::Receive { output_dir: output_dir@ },
        }
    }
}

impl Clone for ManifestOperation {
    fn clone(&self) -> (r: Self)
        ensures
            r@ == self@,
    {
        let r = match self {
            ManifestOperation::Send { request } => ManifestOperation::Send { request: request.clone() },
            ManifestOperation::Receive { output_dir } => ManifestOperation::Receive { output_dir: output_dir.clone() },
        };
        assert(r@ =~= self@);
        r
    }
}

/// How a Manifest session reaches its peer.
#[derive(Debug, PartialEq, Eq)]
pub struct ManifestSessionParams {
    pub operation: ManifestOperation,
    pub sources: Vec<PeerSource>,
    pub options: TransferOptions,
    pub publication_required: bool,
}

/// What a [`ManifestSessionParams`] holds.
#[verifier::ext_equal]
pub struct ManifestParamsView {
    pub operation: OperationView,
    pub sources: Seq<PeerSourceView>,
    pub options: OptionsView,
    pub publication_required: bool,
}

impl View for ManifestSessionParams {
    type V = ManifestParamsView;

    open spec fn view(&self) -> ManifestParamsView {
        ManifestParamsView {
            operation: self.operation@,
            sources: self.sources@.map_values(|x: PeerSource| x@),
            options: self.options@,
            publication_required: self.publication_required,
        }
    }
}

impl Clone for ManifestSessionParams {
    fn clone(&self) -> (r: Self)
        ensures
            r@ == self@,
    {
        let r = ManifestSessionParams {
            operation: self.operation.clone(),
            sources: self.sources.clone(),
            options: self.options.clone(),
            publication_required: self.publication_required,
        };
        assert(r@.sources =~= self@.sources);
        r
    }
}

/// Everything a Manifest session needs to run again.
#[derive(Debug, PartialEq, Eq)]
pub struct ManifestSessionContext {
    pub client: ClientContext,
    pub params: ManifestSessionParams,
}

/// What a [`ManifestSessionContext`] holds.
#[verifier::ext_equal]
pub struct ManifestContextView {
    pub client: ClientContextView,
    pub params: ManifestParamsView,
}

impl View for ManifestSessionContext {
    type V = ManifestContextView;

    open spec fn view(&self) -> ManifestContextView {
        ManifestContextView {
            client: self.client@,
            params: self.params@,
        }
    }
}

impl Clone for ManifestSessionContext {
    fn clone(&self) -> (r: Self)
        ensures
            r@ == self@,
    {
        let r = ManifestSessionContext {
            client: self.client.clone(),
            params: self.params.clone(),
        };
        r
    }
}

/// A Manifest session as the record store keeps it.
#[derive(Debug, PartialEq, Eq)]
pub struct ManifestTransferRecord {
    /// Text form of the record id.
    pub id: String,
    pub created_ms: u64,
    pub updated_ms: u64,
    pub activity: ManifestActivity,
    pub context: ManifestSessionContext,
    pub platform_extras: Option<PlatformExtras>,
}

/// What a [`ManifestTransferRecord`] holds.
#[verifier::ext_equal]
pub struct ManifestRecordView {
    pub id: Seq<char>,
    pub created_ms: u64,
    pub updated_ms: u64,
    pub activity: ManifestActivityView,
    pub context: ManifestContextView,
    pub platform_extras: Option<ExtrasView>,
}

impl View for ManifestTransferRecord {
    type V = ManifestRecordView;

    open spec fn view(&self) -> ManifestRecordView {
        ManifestRecordView {
            id: self.id@,
            created_ms: self.created_ms,
            updated_ms: self.updated_ms,
            activity: self.activity@,
            context: self.context@,
            platform_extras: match self.platform_extras { Some(x) => Some(x@), None => None },
        }
    }
}

impl Clone for ManifestTransferRecord {
    fn clone(&self) -> (r: Self)
        ensures
            r@ == self@,
    {
        let r = ManifestTransferRecord {
            id: self.id.clone(),
            created_ms: self.created_ms,
            updated_ms: self.updated_ms,
            activity: self.activity.clone(),
            context: self.context.clone(),
            platform_extras: self.platform_extras.clone(),
        };
        r
    }
}

/// The direction of an operation.
pub open spec fn operation_direction(operation: OperationView) -> TransferDirection {
    match operation {
        OperationView::Send { .. } => TransferDirection::Send,
        OperationView::Receive { .. } => TransferDirection::Receive,
    }
}

impl ManifestOperation {
    /// The direction of an operation.
    pub fn direction(&self) -> (r: TransferDirection)
        ensures
            r == operation_direction(self@),
    {
        match self {
            ManifestOperation::Send { .. } => TransferDirection::Send,
            ManifestOperation::Receive { .. } => TransferDirection::Receive,
        }
    }
}

/// The source of the first file among the entries from `i` on.
pub open spec fn first_file_source(request: SendRequestView, i: int) -> Seq<char>
    decreases request.manifest.entries.len() - i,
{
    if i < 0 || i >= request.manifest.entries.len() {
        Seq::empty()
    } else if request.manifest.entries[i].kind == ManifestEntryKind::RegularFile {
        or_empty(source_of(request.source_paths, request.manifest.entries[i].entry_id))
    } else {
        first_file_source(request, i + 1)
    }
}

fn first_source(request: &ManifestSendRequest) -> (r: String)
    ensures
        r@ == first_file_source(request@, 0),
{
    let mut i: usize = 0;
    while i < request.manifest.entries.len()
        invariant
            i <= request.manifest.entries@.len(),
            first_file_source(request@, i as int) == first_file_source(request@, 0),
        decreases request.manifest.entries@.len() - i,
    {
        assert(request@.manifest.entries[i as int] == request.manifest.entries@[i as int]@);
        if request.manifest.entries[i].kind == ManifestEntryKind::RegularFile {
            return match request.source_path(request.manifest.entries[i].entry_id) {
                Some(path) => path.clone(),
                None => String::new(),
            };
        }
        i += 1;
    }
    String::new()
}

/// A Manifest context seen as the context of a single transfer: a receive by
/// its output directory, a send by its first file.
pub open spec fn projected_context(context: ManifestContextView) -> ContextView {
    ContextView {
        client: context.client,
        params: ParamsView {
            direction: operation_direction(context.params.operation),
            path: match context.params.operation {
                OperationView::Receive { output_dir } => output_dir,
                OperationView::Send { request } => first_file_source(request, 0),
            },
            sources: context.params.sources,
            options: context.params.options,
            publication_required: context.params.publication_required,
        },
    }
}

/// A Manifest context seen as the context of a single transfer.
pub fn projection_context(context: &ManifestSessionContext) -> (r: SessionContext)
    ensures
        r@ == projected_context(context@),
{
    let path = match &context.params.operation {
        ManifestOperation::Receive { output_dir } => output_dir.clone(),
        ManifestOperation::Send { request } => first_source(request),
    };
    let sources = context.params.sources.clone();
    let r = SessionContext {
        client: context.client.clone(),
        params: SessionParams {
            direction: context.params.operation.direction(),
            path,
            sources,
            options: context.params.options.clone(),
            publication_required: context.params.publication_required,
        },
    };
    assert(r@.params.sources =~= context@.params.sources);
    r
}

/// Rebuilds the request behind a stored Manifest context.
pub fn request_from_manifest_context(activity_id: &str, context: &ManifestSessionContext) -> (r:
    FfiTransferRequest)
    ensures
        r@ == request_of(activity_id@, projected_context(context@)),
{
    request_from_canonical_context(activity_id, &projection_context(context))
}

impl ManifestRecordView {
    /// The activity id under which native code knows the record; its own id
    /// where the extras give none.
    pub open spec fn external_id(self) -> Seq<char> {
        match self.platform_extras {
            Some(extras) => match extras.external_record_id {
                Some(id) if extras.is_object => id,
                _ => self.id,
            },
            None => self.id,
        }
    }
}

/// The activity id under which native code knows a Manifest record.
pub fn external_manifest_activity_id(record: &ManifestTransferRecord) -> (r: String)
    ensures
        r@ == record@.external_id(),
{
    if let Some(extras) = &record.platform_extras {
        if extras.is_object {
            if let Some(id) = &extras.external_record_id {
                return id.clone();
            }
        }
    }
    record.id.clone()
}

/// The card of a request before any snapshot.
pub open spec fn empty_manifest_card(card: ActivityView) -> ManifestCardView {
    ManifestCardView {
        activity: card,
        manifest_id: Seq::empty(),
        root_count: 0,
        file_count: 0,
        directory_count: 0,
        completed_files: 0,
        entries: Seq::empty(),
        current_entry: None,
        entry_results: Seq::empty(),
    }
}

/// The card of a Manifest activity; `path` is where stored bytes can be found.
pub open spec fn manifest_card_of(
    request: RequestView,
    activity: ManifestActivityView,
    sequence: u64,
    path: Seq<char>,
    created_ms: u64,
    updated_ms: u64,
) -> ManifestCardView {
    empty_manifest_card(
        ActivityView::queued(request, Seq::empty(), created_ms),
    ).after_manifest_snapshot(
        ManifestSnapshotView { seq: sequence, speed_bps: 0, avg_bps: 0, activity },
        path,
        updated_ms,
    )
}

/// Renders a Manifest activity as a card.
#[verifier::spinoff_prover]
#[verifier::rlimit(40)]
pub fn manifest_record_from_activity(
    request: &FfiTransferRequest,
    context: &ManifestSessionContext,
    activity: ManifestActivity,
    sequence: u64,
    created_ms: u64,
    updated_ms: u64,
) -> (r: FfiManifestActivityRecord)
    ensures
        r@ == manifest_card_of(
            request@,
            activity@,
            sequence,
            r@.activity.completed_file_path,
            created_ms,
            updated_ms,
        ),
        is_stored_state(activity.session.state) ==> is_completed_path(
            projected_context(context@),
            activity.session@,
            r@.activity.completed_file_path,
        ),
{
    let entries: Vec<FfiPreparedManifestEntry> = Vec::new();
    let entry_results: Vec<FfiManifestEntryResult> = Vec::new();
    let mut record = FfiManifestActivityRecord {
        activity: FfiTransferActivityRecord::from_request(request, created_ms),
        manifest_id: String::new(),
        root_count: 0,
        file_count: 0,
        directory_count: 0,
        completed_files: 0,
        entries,
        current_entry: None,
        entry_results,
    };
    assert(record@.entries =~= Seq::empty());
    assert(record@.entry_results =~= Seq::empty());
    let snapshot = ManifestSessionSnapshot { seq: sequence, speed_bps: 0, avg_bps: 0, activity };
    apply_manifest_snapshot(&mut record, &snapshot, &projection_context(context), updated_ms);
    record
}

/// The card of a stored Manifest session; `path` is where stored bytes can be
/// found.
pub open spec fn card_of_manifest_record(
    request: RequestView,
    record: ManifestRecordView,
    path: Seq<char>,
) -> ManifestCardView {
    let card = manifest_card_of(
        request,
        ManifestActivityView { session: restarted(record.activity.session), ..record.activity },
        0,
        path,
        record.created_ms,
        record.updated_ms,
    );
    match record.platform_extras {
        Some(extras) if card.activity.state
            == FfiTransferActivityState::Publishing => match extras.stored_publication() {
            Some(publication) => match publication.failure {
                Some(failure) => ManifestCardView {
                    activity: card.activity.publication_failed(failure, record.updated_ms),
                    ..card
                },
                None => card,
            },
            None => card,
        },
        _ => card,
    }
}

/// Renders a stored Manifest session as a card. Whatever a task was driving
/// reads as paused.
pub fn manifest_record_from_canonical_record(
    request: &FfiTransferRequest,
    record: &ManifestTransferRecord,
) -> (r: FfiManifestActivityRecord)
    ensures
        r@ == card_of_manifest_record(request@, record@, r@.activity.completed_file_path),
        is_stored_state(record.activity.session.state) ==> is_completed_path(
            projected_context(record@.context),
            record.activity.session@,
            r@.activity.completed_file_path,
        ),
{
    let mut activity = record.activity.clone();
    activity.session = restarted_session(&record.activity.session);
    let mut projected = manifest_record_from_activity(
        request,
        &record.context,
        activity,
        0,
        record.created_ms,
        record.updated_ms,
    );
    if projected.activity.state == FfiTransferActivityState::Publishing {
        if let Some(extras) = &record.platform_extras {
            if let Some(publication) = native_publication_metadata_from_extras(extras) {
                if let Some(failure) = &publication.failure {
                    let mut card = projected.activity.clone();
                    card.apply_publication_failure(failure, record.updated_ms);
                    projected.activity = card;
                }
            }
        }
    }
    projected
}

/// Renders every stored Manifest session as a card.
fn stored_manifest_cards(records: &Vec<ManifestTransferRecord>) -> (r: Vec<
    FfiManifestActivityRecord,
>)
    ensures
        r@.len() == records@.len(),
        forall|i: int|
            0 <= i < r@.len() ==> (#[trigger] r@[i])@ == card_of_manifest_record(
                request_of(records@[i]@.external_id(), projected_context(records@[i]@.context)),
                records@[i]@,
                r@[i]@.activity.completed_file_path,
            ),
        forall|i: int|
            #![trigger r@[i]]
            0 <= i < r@.len() && is_stored_state(records@[i].activity.session.state)
                ==> is_completed_path(
                projected_context(records@[i]@.context),
                records@[i].activity.session@,
                r@[i]@.activity.completed_file_path,
            ),
{
    let mut cards: Vec<FfiManifestActivityRecord> = Vec::new();
    let mut i: usize = 0;
    while i < records.len()
        invariant
            i <= records@.len(),
            cards@.len() == i,
            forall|k: int|
                0 <= k < i ==> (#[trigger] cards@[k])@ == card_of_manifest_record(
                    request_of(records@[k]@.external_id(), projected_context(records@[k]@.context)),
                    records@[k]@,
                    cards@[k]@.activity.completed_file_path,
                ),
            forall|k: int|
                #![trigger cards@[k]]
                0 <= k < i && is_stored_state(records@[k].activity.session.state)
                    ==> is_completed_path(
                    projected_context(records@[k]@.context),
                    records@[k].activity.session@,
                    cards@[k]@.activity.completed_file_path,
                ),
        decreases records@.len() - i,
    {
        let id = external_manifest_activity_id(&records[i]);
        let request = request_from_manifest_context(id.as_str(), &records[i].context);
        cards.push(manifest_record_from_canonical_record(&request, &records[i]));
        i += 1;
    }
    cards
}

/// Lists the cards of all Manifest records of a directory. `records` is what
/// the directory holds.
pub fn list_durable_manifest_records(
    records_dir: &str,
    records: &Vec<ManifestTransferRecord>,
) -> (r: Result<Vec<FfiManifestActivityRecord>, EnvoixError>)
    ensures
        match r {
            Err(error) => is_blank(records_dir@) && error.reason_view() == "records_dir"@
                + " must not be empty"@,
            Ok(cards) => {
                &&& !is_blank(records_dir@)
                &&& cards@.len() == records@.len()
                &&& forall|i: int|
                    0 <= i < cards@.len() ==> (#[trigger] cards@[i])@ == card_of_manifest_record(
                        records@[i]@.request(),
                        records@[i]@,
                        cards@[i]@.activity.completed_file_path,
                    )
                &&& forall|i: int|
                    #![trigger cards@[i]]
                    0 <= i < cards@.len() && is_stored_state(records@[i].activity.session.state)
                        ==> is_completed_path(
                        projected_context(records@[i]@.context),
                        records@[i].activity.session@,
                        cards@[i]@.activity.completed_file_path,
                    )
            },
        },
{
    match required_value(records_dir, "records_dir") {
        Err(error) => Err(error),
        Ok(_) => Ok(stored_manifest_cards(records)),
    }
}

/// Copies an engine event onto a Manifest card.
pub fn observe_manifest_transport_event(record: &mut FfiManifestActivityRecord, event: &StampedEvent)
    ensures
        final(record)@ == (ManifestCardView {
            activity: old(record)@.activity.observed(
                event_of(event@, old(record)@.activity.activity_id),
            ),
            ..old(record)@
        }),
{
    let ffi_event = to_ffi_event(event, record.activity.activity_id.as_str());
    let mut card = record.activity.clone();
    card.apply_observation(&ffi_event);
    record.activity = card;
}

/// Checks the transport of a Manifest request. `client_error` is why its
/// client cannot be built, if it cannot.
pub fn validate_manifest_transport(
    settings: &EnvoixRuntimeSettings,
    request: &FfiTransferRequest,
    client_error: &Option<String>,
    lookups: &SourceLookups,
) -> (r: Result<(), EnvoixError>)
    ensures
        reports(r, manifest_problem(settings@, request@, text_option(*client_error), lookups@)),
{
    if let Err(error) = validate_direction_mode(request.direction, request.mode) {
        return Err(error);
    }
    if request.direction == FfiTransferDirection::Receive {
        if let Err(error) = required_path(request.output_dir.as_str(), "output_dir") {
            return Err(error);
        }
    }
    validate_transport(settings, request, client_error, lookups)
}

/// The first problem of a Manifest request, if it has any.
pub open spec fn manifest_problem(
    settings: SettingsView,
    request: RequestView,
    client_error: Option<Seq<char>>,
    lookups: LookupsView,
) -> Option<Seq<char>> {
    if direction_mode_problem(request.direction, request.mode) is Some {
        direction_mode_problem(request.direction, request.mode)
    } else if request.direction == FfiTransferDirection::Receive && is_blank(request.output_dir) {
        Some("output_dir"@ + " must not be empty"@)
    } else {
        transport_problem(settings, request, client_error, lookups)
    }
}

/// The engine context that a Manifest request asks for, or why it asks for none.
pub open spec fn manifest_context_of(
    settings: SettingsView,
    request: RequestView,
    operation: OperationView,
    client: Result<ClientContextView, Seq<char>>,
    lookups: LookupsView,
) -> Result<ManifestContextView, Seq<char>> {
    match client {
        Err(reason) => Err(reason),
        Ok(client) => match attempts_of(settings, request, lookups) {
            Err(reason) => Err(reason),
            Ok(attempts) => match options_of(settings, request, request.path_policy) {
                Err(reason) => Err(reason),
                Ok(options) => Ok(
                    ManifestContextView {
                        client,
                        params: ManifestParamsView {
                            operation,
                            sources: distinct_sources(attempts),
                            options,
                            publication_required: request.publication_required,
                        },
                    },
                ),
            },
        },
    }
}

/// The engine context of a Manifest request, or why it has none.
/// `context_refused` is why the engine refuses the context that the request asks
/// for, if it does.
pub open spec fn checked_manifest_context(
    settings: SettingsView,
    request: RequestView,
    operation: OperationView,
    client: Result<ClientContextView, Seq<char>>,
    lookups: LookupsView,
    context_refused: Option<Seq<char>>,
) -> Result<ManifestContextView, Seq<char>> {
    match manifest_context_of(settings, request, operation, client, lookups) {
        Err(reason) => Err(reason),
        Ok(context) => match context_refused {
            Some(reason) => Err(reason),
            None => Ok(context),
        },
    }
}

/// Builds the engine context that a Manifest request asks for, as it goes into
/// the engine's own checks.
pub fn proposed_manifest_context(
    settings: &EnvoixRuntimeSettings,
    request: &FfiTransferRequest,
    operation: ManifestOperation,
    client: Result<ClientContext, String>,
    lookups: &SourceLookups,
) -> (r: Result<ManifestSessionContext, EnvoixError>)
    ensures
        match r {
            Ok(context) => manifest_context_of(
                settings@,
                request@,
                operation@,
                client_view(client),
                lookups@,
            ) == Ok::<ManifestContextView, Seq<char>>(context@),
            Err(error) => manifest_context_of(
                settings@,
                request@,
                operation@,
                client_view(client),
                lookups@,
            ) == Err::<ManifestContextView, Seq<char>>(error.reason_view()),
        },
{
    let client = match client {
        Ok(client) => client,
        Err(reason) => return Err(op_err(reason)),
    };
    let attempts = match peer_sources_for_request(settings, request, lookups) {
        Ok(attempts) => attempts,
        Err(error) => return Err(error),
    };
    let options = match transfer_options_for_request(settings, request, None) {
        Ok(options) => options,
        Err(error) => return Err(error),
    };
    Ok(
        ManifestSessionContext {
            client,
            params: ManifestSessionParams {
                operation,
                sources: collect_sources(&attempts),
                options,
                publication_required: request.publication_required,
            },
        },
    )
}

/// Builds the engine context of a Manifest request. `context_refused` is why the
/// engine refuses what [`proposed_manifest_context`] gives, if it does.
pub fn canonical_manifest_context(
    settings: &EnvoixRuntimeSettings,
    request: &FfiTransferRequest,
    operation: ManifestOperation,
    client: Result<ClientContext, String>,
    lookups: &SourceLookups,
    context_refused: &Option<String>,
) -> (r: Result<ManifestSessionContext, EnvoixError>)
    ensures
        (match r {
            Ok(context) => Ok(context@),
            Err(error) => Err(error.reason_view()),
        }) == checked_manifest_context(
            settings@,
            request@,
            operation@,
            client_view(client),
            lookups@,
            text_option(*context_refused),
        ),
{
    match proposed_manifest_context(settings, request, operation, client, lookups) {
        Err(error) => Err(error),
        Ok(context) => match context_refused {
            Some(reason) => Err(op_err(reason.clone())),
            None => Ok(context),
        },
    }
}

/// The context that a Manifest request asks for depends neither on its id nor on
/// its limits: what the engine says of it holds for the request as it is started.
pub proof fn contexts_ignore_ids_and_limits(
    settings: SettingsView,
    request: RequestView,
    started: RequestView,
    operation: OperationView,
    client: Result<ClientContextView, Seq<char>>,
    lookups: LookupsView,
)
    requires
        started == (RequestView {
            activity_id: started.activity_id,
            limits: started.limits,
            ..request
        }),
    ensures
        manifest_context_of(settings, started, operation, client, lookups) == manifest_context_of(
            settings,
            request,
            operation,
            client,
            lookups,
        ),
{
}

/// The request of a Manifest operation as it is started: with an id, and with
/// effective limits.
pub open spec fn named_manifest_request(
    request: RequestView,
    operation: OperationView,
    next_activity: u64,
) -> RequestView {
    RequestView {
        activity_id: if !is_blank(request.activity_id) {
            request.activity_id
        } else {
            match operation {
                OperationView::Send { request: prepared } => prepared.manifest.manifest_id,
                OperationView::Receive { .. } => activity_id_text(next_activity),
            }
        },
        ..request
    }
}

/// Why a request and a Manifest operation do not go together, if they do not.
pub open spec fn operation_problem(request: RequestView, operation: OperationView) -> Option<Seq<char>> {
    let expected = direction_of(Some(operation_direction(operation)));
    match operation {
        OperationView::Send { request: prepared } if prepared.manifest.manifest_id
            != request.activity_id => Some("prepared Manifest id must match activity_id"@),
        _ => if request.direction != expected {
            Some(
                "Manifest operation requires "@ + direction_name_of(expected) + ", got "@
                    + direction_name_of(request.direction),
            )
        } else {
            None
        },
    }
}

/// Everything that a durable Manifest transfer starts with.
#[derive(Debug, PartialEq, Eq)]
pub struct ManifestStart {
    pub request: FfiTransferRequest,
    pub records_dir: String,
    pub context: ManifestSessionContext,
    pub extras: PlatformExtras,
}

/// What a [`ManifestStart`] holds.
#[verifier::ext_equal]
pub struct ManifestStartView {
    pub request: RequestView,
    pub records_dir: Seq<char>,
    pub context: ManifestContextView,
    pub extras: ExtrasView,
}

impl View for ManifestStart {
    type V = ManifestStartView;

    open spec fn view(&self) -> ManifestStartView {
        ManifestStartView {
            request: self.request@,
            records_dir: self.records_dir@,
            context: self.context@,
            extras: self.extras@,
        }
    }
}

impl Clone for ManifestStart {
    fn clone(&self) -> (r: Self)
        ensures
            r@ == self@,
    {
        let r = ManifestStart {
            request: self.request.clone(),
            records_dir: self.records_dir.clone(),
            context: self.context.clone(),
            extras: self.extras.clone(),
        };
        r
    }
}

/// What a durable Manifest transfer starts with, or why it does not start.
pub open spec fn manifest_start_of(
    settings: SettingsView,
    request: RequestView,
    operation: OperationView,
    records_dir: Seq<char>,
    client: Result<ClientContextView, Seq<char>>,
    client_error: Option<Seq<char>>,
    lookups: LookupsView,
    context_refused: Option<Seq<char>>,
) -> Result<ManifestStartView, Seq<char>> {
    let limited = RequestView {
        limits: crate::bridge::models::FfiTransferLimits {
            max_parallel_transfers: parallel_limit(settings.concurrent_transfers, request.limits),
            ..request.limits
        },
        ..request
    };
    if operation_problem(request, operation) is Some {
        Err(operation_problem(request, operation)->0)
    } else if manifest_problem(settings, limited, client_error, lookups) is Some {
        Err(manifest_problem(settings, limited, client_error, lookups)->0)
    } else {
        match required_of(records_dir, "records_dir"@) {
            Err(reason) => Err(reason),
            Ok(records_dir) => match checked_manifest_context(
                settings,
                limited,
                operation,
                client,
                lookups,
                context_refused,
            ) {
                Err(reason) => Err(reason),
                Ok(context) => Ok(
                    ManifestStartView {
                        request: limited,
                        records_dir,
                        context,
                        extras: ExtrasView::of_activity(limited.activity_id),
                    },
                ),
            },
        }
    }
}

/// Prepares a durable Manifest transfer. `context_refused` is why the engine
/// refuses what [`proposed_manifest_context`] gives for the request, if it does.
pub fn start_durable_manifest(
    settings: &EnvoixRuntimeSettings,
    request: FfiTransferRequest,
    operation: ManifestOperation,
    records_dir: &str,
    client: Result<ClientContext, String>,
    client_error: &Option<String>,
    lookups: &SourceLookups,
    context_refused: &Option<String>,
    next_activity: &mut u64,
) -> (r: Result<ManifestStart, EnvoixError>)
    ensures
        (match r {
            Ok(start) => Ok(start@),
            Err(error) => Err(error.reason_view()),
        }) == manifest_start_of(
            settings@,
            named_manifest_request(request@, operation@, *old(next_activity)),
            operation@,
            records_dir@,
            client_view(client),
            text_option(*client_error),
            lookups@,
            text_option(*context_refused),
        ),
        *final(next_activity) == (if is_blank(request@.activity_id) && operation@ is Receive {
            old(next_activity).wrapping_add(1)
        } else {
            *old(next_activity)
        }),
{
    let mut request = request;
    if request.activity_id.as_str().trim().is_empty() {
        request.activity_id =
        match &operation {
            ManifestOperation::Send { request: prepared } => prepared.manifest.manifest_id.clone(),
            ManifestOperation::Receive { .. } => next_activity_id(next_activity),
        };
    }
    if let ManifestOperation::Send { request: prepared } = &operation {
        if !same_text(prepared.manifest.manifest_id.as_str(), request.activity_id.as_str()) {
            return Err(op_error("prepared Manifest id must match activity_id"));
        }
    }
    let expected = ffi_direction(Some(operation.direction()));
    if request.direction != expected {
        let head = joined3("Manifest operation requires ", direction_name(expected), ", got ");
        return Err(op_err(joined(head.as_str(), direction_name(request.direction))));
    }
    let mut limits = request.limits;
    normalize_transfer_limits(settings, &mut limits);
    request.limits = limits;
    if let Err(error) = validate_manifest_transport(settings, &request, client_error, lookups) {
        return Err(error);
    }
    let records_dir = match required_value(records_dir, "records_dir") {
        Ok(dir) => dir,
        Err(error) => return Err(error),
    };
    let context = match canonical_manifest_context(
        settings,
        &request,
        operation,
        client,
        lookups,
        context_refused,
    ) {
        Ok(context) => context,
        Err(error) => return Err(error),
    };
    let extras = PlatformExtras::of_activity(request.activity_id.as_str());
    Ok(ManifestStart { request, records_dir, context, extras })
}

/// Checks that a Manifest record found under the id of a request is its own.
pub fn check_manifest_collision(existing: &Option<ManifestTransferRecord>, activity_id: &str) -> (r:
    Result<(), EnvoixError>)
    ensures
        match r {
            Ok(_) => existing matches Some(record) ==> record@.external_id() == activity_id@,
            Err(error) => {
                &&& existing matches Some(record) && record@.external_id() != activity_id@
                &&& error.reason_view()
                    == "activity id collided with an existing durable Manifest record"@
            },
        },
{
    if let Some(record) = existing {
        if !same_text(external_manifest_activity_id(record).as_str(), activity_id) {
            return Err(
                op_error("activity id collided with an existing durable Manifest record"),
            );
        }
    }
    Ok(())
}

/// Finds the Manifest record that native code knows under an activity id: the
/// first one of that id among the records of a directory.
pub fn find_manifest_record(
    records: &Vec<ManifestTransferRecord>,
    activity_id: &str,
    records_dir: &str,
) -> (r: Result<usize, EnvoixError>)
    ensures
        match r {
            Ok(i) => {
                &&& i < records@.len()
                &&& !is_blank(activity_id@)
                &&& !is_blank(records_dir@)
                &&& records@[i as int]@.external_id() == trimmed(activity_id@)
                &&& forall|k: int|
                    0 <= k < i ==> (#[trigger] records@[k])@.external_id() != trimmed(activity_id@)
            },
            Err(error) => if is_blank(activity_id@) {
                error.reason_view() == "activity_id"@ + " must not be empty"@
            } else if is_blank(records_dir@) {
                error.reason_view() == "records_dir"@ + " must not be empty"@
            } else {
                &&& error.reason_view() == "Manifest transfer record not found: "@ + trimmed(
                    activity_id@,
                )
                &&& forall|k: int|
                    0 <= k < records@.len() ==> (#[trigger] records@[k])@.external_id() != trimmed(
                        activity_id@,
                    )
            },
        },
{
    let id = match required_value(activity_id, "activity_id") {
        Ok(id) => id,
        Err(error) => return Err(error),
    };
    if let Err(error) = required_value(records_dir, "records_dir") {
        return Err(error);
    }
    let mut i: usize = 0;
    while i < records.len()
        invariant
            i <= records@.len(),
            id@ == trimmed(activity_id@),
            !is_blank(activity_id@),
            !is_blank(records_dir@),
            forall|k: int| 0 <= k < i ==> (#[trigger] records@[k])@.external_id() != id@,
        decreases records@.len() - i,
    {
        if same_text(external_manifest_activity_id(&records[i]).as_str(), id.as_str()) {
            return Ok(i);
        }
        i += 1;
    }
    Err(op_err(joined("Manifest transfer record not found: ", id.as_str())))
}

/// One durable Manifest card and what the bindings keep beside it.
#[derive(Debug, PartialEq, Eq)]
pub struct DurableEnvoixManifestSession {
    /// Whether the engine session behind the card still exists.
    pub has_driver: bool,
    pub record: FfiManifestActivityRecord,
    pub platform_extras: PlatformExtras,
}

/// What a [`DurableEnvoixManifestSession`] holds.
#[verifier::ext_equal]
pub struct DurableManifestView {
    pub has_driver: bool,
    pub record: ManifestCardView,
    pub platform_extras: ExtrasView,
}

impl View for DurableEnvoixManifestSession {
    type V = DurableManifestView;

    open spec fn view(&self) -> DurableManifestView {
        DurableManifestView {
            has_driver: self.has_driver,
            record: self.record@,
            platform_extras: self.platform_extras@,
        }
    }
}

impl Clone for DurableEnvoixManifestSession {
    fn clone(&self) -> (r: Self)
        ensures
            r@ == self@,
    {
        let r = DurableEnvoixManifestSession {
            has_driver: self.has_driver,
            record: self.record.clone(),
            platform_extras: self.platform_extras.clone(),
        };
        r
    }
}

impl ManifestRecordView {
    /// The record with the identity file that its session is restored with.
    pub open spec fn listening(
        self,
        needs_stable_address: bool,
        record_path: Seq<char>,
    ) -> ManifestRecordView {
        ManifestRecordView {
            context: ManifestContextView {
                client: ClientContextView {
                    identity_file: listener_identity_of(
                        self.context.client.identity_file,
                        needs_stable_address,
                        record_path,
                    ),
                    ..self.context.client
                },
                ..self.context
            },
            ..self
        }
    }

    /// The request behind the record.
    pub open spec fn request(self) -> RequestView {
        request_of(self.external_id(), projected_context(self.context))
    }
}

/// A stored Manifest transfer that is about to run again.
#[derive(Debug, PartialEq, Eq)]
pub struct RestoredManifestTransfer {
    /// The record that the engine continues from.
    pub record: ManifestTransferRecord,
    /// The card that native code sees until the first notice.
    pub session: DurableEnvoixManifestSession,
}

/// Brings a stored Manifest transfer back: its card, its extras, and the
/// identity file that a listening session keeps its address with.
pub fn restore_durable_manifest_transfer(
    record: ManifestTransferRecord,
    needs_stable_address: bool,
    record_path: &str,
) -> (r: RestoredManifestTransfer)
    ensures
        r.record@ == record@.listening(needs_stable_address, record_path@),
        r.session@ == (DurableManifestView {
            has_driver: true,
            record: card_of_manifest_record(
                r.record@.request(),
                r.record@,
                r.session@.record.activity.completed_file_path,
            ),
            platform_extras: match record@.platform_extras {
                Some(extras) => extras,
                None => ExtrasView::of_activity(record@.external_id()),
            },
        }),
        is_stored_state(record.activity.session.state) ==> is_completed_path(
            projected_context(r.record@.context),
            record.activity.session@,
            r.session@.record.activity.completed_file_path,
        ),
{
    let mut record = record;
    let ghost stored = record@;
    let activity_id = external_manifest_activity_id(&record);
    let platform_extras = match &record.platform_extras {
        Some(extras) => extras.clone(),
        None => PlatformExtras::of_activity(activity_id.as_str()),
    };
    record.context.client.identity_file =
    restored_listener_identity(
        &record.context.client.identity_file,
        needs_stable_address,
        record_path,
    );
    assert(record@ == stored.listening(needs_stable_address, record_path@));
    let request = request_from_manifest_context(activity_id.as_str(), &record.context);
    let card = manifest_record_from_canonical_record(&request, &record);
    let session = DurableEnvoixManifestSession { has_driver: true, record: card, platform_extras };
    RestoredManifestTransfer { record, session }
}

impl DurableEnvoixManifestSession {
    /// Whether the engine is to be asked to pause.
    pub fn pause(&self) -> (r: bool)
        ensures
            r == (self@.has_driver && is_running_state(self@.record.activity.state)),
    {
        self.has_driver && manifest_can_pause(&self.record.activity)
    }

    /// Whether the engine is to be asked to resume.
    pub fn resume(&self) -> (r: bool)
        ensures
            r == (self@.has_driver && (self@.record.activity.state
                == FfiTransferActivityState::Paused || self@.record.activity.state
                == FfiTransferActivityState::Failed || self@.record.activity.state
                == FfiTransferActivityState::Canceled)),
    {
        self.has_driver && manifest_can_resume(&self.record.activity)
    }

    /// Whether the engine is to be asked to cancel.
    pub fn cancel(&self) -> (r: bool)
        ensures
            r == (self@.has_driver && (is_running_state(self@.record.activity.state)
                || self@.record.activity.state == FfiTransferActivityState::Paused
                || self@.record.activity.state == FfiTransferActivityState::Publishing)),
    {
        self.has_driver && manifest_can_cancel(&self.record.activity)
    }

    /// The actions that the card offers.
    pub fn actions(&self) -> (r: FfiTransferActivityActions)
        ensures
            r == self@.record.activity.actions(),
    {
        FfiTransferActivityActions::for_record(&self.record.activity)
    }

    /// The extras to hand to the engine for a new publication target, where
    /// the card takes one.
    pub fn target_candidate(&self, target: &FfiNativePublicationTarget) -> (r: Option<PlatformExtras>)
        ensures
            r is Some == (takes_target(self@.record.activity, target@.destination_path)
                && self@.platform_extras.is_object && self@.has_driver),
            r matches Some(extras) ==> extras@ == self@.platform_extras.with_publication(
                fresh_publication(target@),
            ),
    {
        if !accepts_target(&self.record.activity, target) || !self.platform_extras.is_object
            || !self.has_driver {
            return None;
        }
        Some(extras_with_target(&self.platform_extras, target))
    }

    /// Keeps new extras, once the engine has stored them; an earlier failure
    /// is taken off the card.
    pub fn update_publication_metadata(&mut self, extras: PlatformExtras, now_ms: u64)
        ensures
            final(self)@ == (DurableManifestView {
                platform_extras: extras@,
                record: ManifestCardView {
                    activity: ActivityView {
                        updated_at_ms: now_ms,
                        ..old(self)@.record.activity.without_failure()
                    },
                    ..old(self)@.record
                },
                ..old(self)@
            }),
    {
        self.platform_extras = extras;
        let mut card = self.record.activity.clone();
        card.clear_failure_metadata(now_ms);
        self.record.activity = card;
    }

    /// Persists or replaces the publication target, once the engine has
    /// `stored` the candidate extras.
    pub fn set_publication_target(
        &mut self,
        target: &FfiNativePublicationTarget,
        stored: bool,
        now_ms: u64,
    ) -> (r: bool)
        ensures
            r == (stored && takes_target(old(self)@.record.activity, target@.destination_path)
                && old(self)@.platform_extras.is_object && old(self)@.has_driver),
            !r ==> final(self)@ == old(self)@,
            r ==> final(self)@ == (DurableManifestView {
                platform_extras: old(self)@.platform_extras.with_publication(
                    fresh_publication(target@),
                ),
                record: ManifestCardView {
                    activity: ActivityView {
                        updated_at_ms: now_ms,
                        ..old(self)@.record.activity.without_failure()
                    },
                    ..old(self)@.record
                },
                ..old(self)@
            }),
    {
        match self.target_candidate(target) {
            Some(extras) => if stored {
                self.update_publication_metadata(extras, now_ms);
                true
            } else {
                false
            },
            None => false,
        }
    }

    /// The publication target of the card.
    pub fn publication_target(&self) -> (r: Option<FfiNativePublicationTarget>)
        ensures
            (match r {
                Some(target) => Some(target@),
                None => None,
            }) == self@.platform_extras.target(),
    {
        match native_publication_metadata_from_extras(&self.platform_extras) {
            Some(publication) => publication.target,
            None => None,
        }
    }

    /// The extras to hand to the engine for a publication failure, where the
    /// card takes one.
    pub fn failure_candidate(&self, failure: &FfiTransferFailure) -> (r: Option<PlatformExtras>)
        ensures
            r is Some == (takes_publication_failure(self@.record.activity, failure@)
                && self@.platform_extras.is_object && self@.has_driver),
            r matches Some(extras) ==> extras@ == self@.platform_extras.with_publication(
                failed_publication(self@.platform_extras, failure@),
            ),
    {
        if !accepts_publication_failure(&self.record.activity, failure)
            || !self.platform_extras.is_object || !self.has_driver {
            return None;
        }
        Some(extras_with_failure(&self.platform_extras, failure))
    }

    /// Persists a publication failure, once the engine has `stored` the
    /// candidate extras.
    pub fn publication_failed(&mut self, failure: &FfiTransferFailure, stored: bool, now_ms: u64) -> (r:
        bool)
        ensures
            r == (stored && takes_publication_failure(old(self)@.record.activity, failure@) && old(
                self,
            )@.platform_extras.is_object && old(self)@.has_driver),
            !r ==> final(self)@ == old(self)@,
            r ==> final(self)@ == (DurableManifestView {
                platform_extras: old(self)@.platform_extras.with_publication(
                    failed_publication(old(self)@.platform_extras, failure@),
                ),
                record: ManifestCardView {
                    activity: ActivityView {
                        updated_at_ms: now_ms,
                        ..old(self)@.record.activity.without_failure()
                    }.publication_failed(failure@, now_ms),
                    ..old(self)@.record
                },
                ..old(self)@
            }),
    {
        match self.failure_candidate(failure) {
            Some(extras) => if stored {
                self.update_publication_metadata(extras, now_ms);
                let mut card = self.record.activity.clone();
                card.apply_publication_failure(failure, now_ms);
                self.record.activity = card;
                true
            } else {
                false
            },
            None => false,
        }
    }

    /// The path to report to the engine as published, where the card waits for
    /// its publication.
    pub fn publication_succeeded(&self, path: &str) -> (r: Option<String>)
        ensures
            text_option(r) == (if !is_blank(path@) && self@.record.activity.state
                == FfiTransferActivityState::Publishing && self@.has_driver {
                Some(trimmed(path@))
            } else {
                None
            }),
    {
        let path = path.trim();
        if path.is_empty() || self.record.activity.state != FfiTransferActivityState::Publishing
            || !self.has_driver {
            return None;
        }
        Some(path.to_owned())
    }

    /// Gives the engine session up for good; false where it is gone already.
    pub fn remove(&mut self) -> (r: bool)
        ensures
            r == old(self)@.has_driver,
            final(self)@ == (DurableManifestView { has_driver: false, ..old(self)@ }),
    {
        let r = self.has_driver;
        self.has_driver = false;
        r
    }

    /// The card.
    pub fn activity(&self) -> (r: FfiManifestActivityRecord)
        ensures
            r@ == self@.record,
    {
        self.record.clone()
    }
}

fn same_bytes(a: &Vec<u8>, b: &Vec<u8>) -> (r: bool)
    ensures
        r == (a@ == b@),
{
    if a.len() != b.len() {
        return false;
    }
    let mut i: usize = 0;
    while i < a.len()
        invariant
            i <= a@.len() == b@.len(),
            forall|k: int| 0 <= k < i ==> a@[k] == b@[k],
        decreases a@.len() - i,
    {
        if a[i] != b[i] {
            return false;
        }
        i += 1;
    }
    assert(a@ =~= b@);
    true
}

fn same_option(a: &Option<String>, b: &Option<String>) -> (r: bool)
    ensures
        r == (text_option(*a) == text_option(*b)),
{
    match (a, b) {
        (Some(s), Some(t)) => same_text(s.as_str(), t.as_str()),
        (None, None) => true,
        _ => false,
    }
}

fn same_entry(a: &ManifestEntryV1, b: &ManifestEntryV1) -> (r: bool)
    ensures
        r == (a@ == b@),
{
    let hashes = match (&a.hash, &b.hash) {
        (Some(x), Some(y)) => same_bytes(&x.bytes, &y.bytes),
        (None, None) => true,
        _ => false,
    };
    a.entry_id == b.entry_id && same_text(a.relative_path.as_str(), b.relative_path.as_str())
        && a.kind == b.kind && a.size == b.size && hashes && a.modified_at_unix_ms
        == b.modified_at_unix_ms
}

fn same_manifest(a: &ManifestV1, b: &ManifestV1) -> (r: bool)
    ensures
        r == (a@ == b@),
{
    if !same_text(a.manifest_id.as_str(), b.manifest_id.as_str()) || a.file_count != b.file_count
        || a.directory_count != b.directory_count || a.root_count != b.root_count || a.total_bytes
        != b.total_bytes || a.entries.len() != b.entries.len() {
        assert(a@.entries.len() == a.entries@.len() && b@.entries.len() == b.entries@.len());
        return false;
    }
    let mut i: usize = 0;
    while i < a.entries.len()
        invariant
            i <= a.entries@.len() == b.entries@.len(),
            forall|k: int| 0 <= k < i ==> a@.entries[k] == b@.entries[k],
        decreases a.entries@.len() - i,
    {
        assert(a@.entries[i as int] == a.entries@[i as int]@);
        assert(b@.entries[i as int] == b.entries@[i as int]@);
        if !same_entry(&a.entries[i], &b.entries[i]) {
            return false;
        }
        i += 1;
    }
    assert(a@.entries =~= b@.entries);
    true
}

fn same_result(a: &ManifestEntryResult, b: &ManifestEntryResult) -> (r: bool)
    ensures
        r == (a@ == b@),
{
    a.entry_id == b.entry_id && a.status == b.status && same_text(
        a.offered_relative_path.as_str(),
        b.offered_relative_path.as_str(),
    ) && same_option(&a.final_relative_path, &b.final_relative_path) && same_option(
        &a.failure_code,
        &b.failure_code,
    )
}

fn same_results(a: &Vec<ManifestEntryResult>, b: &Vec<ManifestEntryResult>) -> (r: bool)
    ensures
        r == (a@.map_values(|x: ManifestEntryResult| x@) == b@.map_values(
            |x: ManifestEntryResult| x@,
        )),
{
    let ghost left = a@.map_values(|x: ManifestEntryResult| x@);
    let ghost right = b@.map_values(|x: ManifestEntryResult| x@);
    if a.len() != b.len() {
        assert(left.len() != right.len());
        return false;
    }
    let mut i: usize = 0;
    while i < a.len()
        invariant
            i <= a@.len() == b@.len(),
            left == a@.map_values(|x: ManifestEntryResult| x@),
            right == b@.map_values(|x: ManifestEntryResult| x@),
            forall|k: int| 0 <= k < i ==> left[k] == right[k],
        decreases a@.len() - i,
    {
        assert(left[i as int] == a@[i as int]@);
        assert(right[i as int] == b@[i as int]@);
        if !same_result(&a[i], &b[i]) {
            return false;
        }
        i += 1;
    }
    assert(left =~= right);
    true
}

/// The bytes of an optional active entry.
pub open spec fn entry_bytes(entry: Option<CoreCurrentView>) -> Option<u64> {
    match entry {
        Some(entry) => Some(entry.bytes),
        None => None,
    }
}

/// A Manifest activity with the byte counts of `previous`, as far as both work
/// on the same entry.
pub open spec fn with_bytes_of(current: ManifestActivityView, previous: ManifestActivityView) -> ManifestActivityView {
    ManifestActivityView {
        session: SessionView { bytes: previous.session.bytes, ..current.session },
        current_entry: match (previous.current_entry, current.current_entry) {
            (Some(before), Some(now)) if before.entry_id == now.entry_id => Some(
                CoreCurrentView { bytes: before.bytes, ..now },
            ),
            _ => current.current_entry,
        },
        ..current
    }
}

/// Whether nothing but byte counts differs between two Manifest activities.
pub open spec fn is_manifest_progress(previous: ManifestActivityView, current: ManifestActivityView) -> bool {
    &&& !(previous.session.bytes == current.session.bytes && entry_bytes(previous.current_entry)
        == entry_bytes(current.current_entry))
    &&& with_bytes_of(current, previous) == previous
}

fn same_current_but_bytes(a: &ManifestCurrentEntry, b: &ManifestCurrentEntry) -> (r: bool)
    ensures
        r == (CoreCurrentView { bytes: b@.bytes, ..a@ } == b@),
{
    a.entry_id == b.entry_id && a.phase == b.phase && same_option(&a.transfer_id, &b.transfer_id)
        && same_text(a.relative_path.as_str(), b.relative_path.as_str()) && a.total == b.total
        && a.bytes_resumed == b.bytes_resumed
}

/// Whether a Manifest activity brings nothing but progress.
pub fn is_manifest_progress_only(previous: &ManifestActivity, current: &ManifestActivity) -> (r: bool)
    ensures
        r == is_manifest_progress(previous@, current@),
{
    let before: Option<u64> = match &previous.current_entry {
        Some(entry) => Some(entry.bytes),
        None => None,
    };
    let now: Option<u64> = match &current.current_entry {
        Some(entry) => Some(entry.bytes),
        None => None,
    };
    if previous.session.bytes == current.session.bytes && before == now {
        return false;
    }
    let entries = match (&current.current_entry, &previous.current_entry) {
        (Some(a), Some(b)) => same_current_but_bytes(a, b),
        (None, None) => true,
        _ => false,
    };
    let manifests = match (&current.manifest, &previous.manifest) {
        (Some(a), Some(b)) => same_manifest(a, b),
        (None, None) => true,
        _ => false,
    };
    same_but_bytes(&current.session, &previous.session) && manifests && entries
        && current.completed_files == previous.completed_files && same_results(
        &current.entry_results,
        &previous.entry_results,
    )
}

/// What the task behind a Manifest card remembers between notices.
pub struct ManifestNoticeState {
    pub previous: Option<ManifestActivity>,
    pub last_progress_activity_ms: u64,
}

/// Whether observers see a Manifest card after a snapshot.
pub open spec fn shows_manifest_card(
    progress_only: bool,
    state: CanonicalState,
    last_ms: u64,
    now_ms: u64,
) -> bool {
    ||| !progress_only
    ||| state == CanonicalState::AwaitingPublication
    ||| state == CanonicalState::Completed
    ||| state == CanonicalState::Failed
    ||| state == CanonicalState::Cancelled
    ||| last_ms == 0
    ||| now_ms - last_ms >= NATIVE_PROGRESS_INTERVAL_MS
}

impl ManifestNoticeState {
    /// The activity of the last snapshot.
    pub open spec fn previous_view(self) -> Option<ManifestActivityView> {
        match self.previous {
            Some(activity) => Some(activity@),
            None => None,
        }
    }

    /// Whether an activity brings nothing but progress.
    pub open spec fn brings_only_progress(self, activity: ManifestActivityView) -> bool {
        self.previous_view() matches Some(before) && is_manifest_progress(before, activity)
    }

    /// Before the first snapshot.
    pub fn new() -> (r: Self)
        ensures
            r.previous_view() is None,
            r.last_progress_activity_ms == 0,
    {
        ManifestNoticeState { previous: None, last_progress_activity_ms: 0 }
    }

    /// Renders a snapshot onto a Manifest card; whether observers see it.
    pub fn on_snapshot(
        &mut self,
        record: &mut FfiManifestActivityRecord,
        snapshot: ManifestSessionSnapshot,
        projection: &SessionContext,
        now_ms: u64,
    ) -> (r: bool)
        ensures
            final(record)@ == old(record)@.after_manifest_snapshot(
                snapshot@,
                final(record)@.activity.completed_file_path,
                now_ms,
            ),
            is_stored_state(snapshot.activity.session.state) ==> is_completed_path(
                projection@,
                snapshot.activity.session@,
                final(record)@.activity.completed_file_path,
            ),
            r == shows_manifest_card(
                old(self).brings_only_progress(snapshot@.activity),
                snapshot.activity.session.state,
                old(self).last_progress_activity_ms,
                now_ms,
            ),
            final(self).previous_view() == Some(snapshot@.activity),
            final(self).last_progress_activity_ms == (if r && old(self).brings_only_progress(
                snapshot@.activity,
            ) {
                now_ms
            } else {
                old(self).last_progress_activity_ms
            }),
    {
        let progress_only = match &self.previous {
            Some(previous) => is_manifest_progress_only(previous, &snapshot.activity),
            None => false,
        };
        let settled = matches!(
            snapshot.activity.session.state,
            CanonicalState::AwaitingPublication | CanonicalState::Completed
                | CanonicalState::Failed | CanonicalState::Cancelled
        );
        let emit = !progress_only || settled || self.last_progress_activity_ms == 0
            || now_ms.saturating_sub(self.last_progress_activity_ms)
            >= NATIVE_PROGRESS_INTERVAL_MS;
        apply_manifest_snapshot(record, &snapshot, projection, now_ms);
        if emit && progress_only {
            self.last_progress_activity_ms = now_ms;
        }
        self.previous = Some(snapshot.activity);
        emit
    }
}

/// What starting a prepared send leads to.
pub open spec fn manifest_send_start_of(
    settings: SettingsView,
    request: RequestView,
    prepared: PreparedSendView,
    records_dir: Seq<char>,
    client: Result<ClientContextView, Seq<char>>,
    client_error: Option<Seq<char>>,
    lookups: LookupsView,
    plan_refused: Option<Seq<char>>,
    context_refused: Option<Seq<char>>,
    next_activity: u64,
) -> Result<ManifestStartView, Seq<char>> {
    match checked_plan(prepared, plan_refused) {
        Err(reason) => Err(reason),
        Ok(plan) => {
            let operation = OperationView::Send { request: plan };
            manifest_start_of(
                settings,
                named_manifest_request(request, operation, next_activity),
                operation,
                records_dir,
                client,
                client_error,
                lookups,
                context_refused,
            )
        },
    }
}

/// Prepares a durable Manifest transfer that sends a checked plan.
/// `plan_refused` and `context_refused` are why the engine refuses the plan's
/// request and the context, if it does.
pub fn start_durable_manifest_send(
    settings: &EnvoixRuntimeSettings,
    request: FfiTransferRequest,
    prepared: &FfiPreparedManifestSend,
    records_dir: &str,
    client: Result<ClientContext, String>,
    client_error: &Option<String>,
    lookups: &SourceLookups,
    plan_refused: &Option<String>,
    context_refused: &Option<String>,
    next_activity: &mut u64,
) -> (r: Result<ManifestStart, EnvoixError>)
    ensures
        (match r {
            Ok(start) => Ok(start@),
            Err(error) => Err(error.reason_view()),
        }) == manifest_send_start_of(
            settings@,
            request@,
            prepared@,
            records_dir@,
            client_view(client),
            text_option(*client_error),
            lookups@,
            text_option(*plan_refused),
            text_option(*context_refused),
            *old(next_activity),
        ),
        *final(next_activity) == *old(next_activity),
{
    match prepared.to_core(plan_refused) {
        Err(error) => Err(error),
        Ok(plan) => start_durable_manifest(
            settings,
            request,
            ManifestOperation::Send { request: plan },
            records_dir,
            client,
            client_error,
            lookups,
            context_refused,
            next_activity,
        ),
    }
}

/// What starting a receive leads to.
pub open spec fn manifest_receive_start_of(
    settings: SettingsView,
    request: RequestView,
    records_dir: Seq<char>,
    client: Result<ClientContextView, Seq<char>>,
    client_error: Option<Seq<char>>,
    lookups: LookupsView,
    context_refused: Option<Seq<char>>,
    next_activity: u64,
) -> Result<ManifestStartView, Seq<char>> {
    match required_of(request.output_dir, "output_dir"@) {
        Err(reason) => Err(reason),
        Ok(output_dir) => {
            let operation = OperationView::Receive { output_dir };
            manifest_start_of(
                settings,
                named_manifest_request(request, operation, next_activity),
                operation,
                records_dir,
                client,
                client_error,
                lookups,
                context_refused,
            )
        },
    }
}

/// Prepares a durable Manifest transfer that receives into a directory.
/// `context_refused` is why the engine refuses the context, if it does.
pub fn start_durable_manifest_receive(
    settings: &EnvoixRuntimeSettings,
    request: FfiTransferRequest,
    records_dir: &str,
    client: Result<ClientContext, String>,
    client_error: &Option<String>,
    lookups: &SourceLookups,
    context_refused: &Option<String>,
    next_activity: &mut u64,
) -> (r: Result<ManifestStart, EnvoixError>)
    ensures
        (match r {
            Ok(start) => Ok(start@),
            Err(error) => Err(error.reason_view()),
        }) == manifest_receive_start_of(
            settings@,
            request@,
            records_dir@,
            client_view(client),
            text_option(*client_error),
            lookups@,
            text_option(*context_refused),
            *old(next_activity),
        ),
        *final(next_activity) == (if !is_blank(request@.output_dir) && is_blank(
            request@.activity_id,
        ) {
            old(next_activity).wrapping_add(1)
        } else {
            *old(next_activity)
        }),
{
    match required_path(request.output_dir.as_str(), "output_dir") {
        Err(error) => Err(error),
        Ok(output_dir) => start_durable_manifest(
            settings,
            request,
            ManifestOperation::Receive { output_dir },
            records_dir,
            client,
            client_error,
            lookups,
            context_refused,
            next_activity,
        ),
    }
}

/// Observer of one durable Manifest transfer.
pub trait ManifestTransferObserver {
    fn on_manifest_activity(&self, record: FfiManifestActivityRecord);
}

} // verus!
