//! Bounded native projection of transfer preparation: jobs, their selections
//! and their inventory.
use vstd::prelude::*;
use vstd::string::*;

use crate::api::invitations::{op_err, op_error};
use crate::api::session_types::{ManifestV2, ManifestView};
use crate::api::types::{EnvoixError, ErrorView};
use crate::hex::{hex_of, hex_round_trips, hex_text, is_hex_text, unhex, unhexed};
use crate::text::{is_blank, text_option, text_seq};

verus! {

broadcast use vstd::seq_lib::group_seq_properties;

/// When payload is compressed.
#[derive(Clone, Copy, Debug, PartialEq, Eq, Structural)]
pub enum FfiCompressionPolicyV2 {
    Never,
    Always,
    Smart,
}

/// State of a job.
#[derive(Clone, Copy, Debug, PartialEq, Eq, Structural)]
pub enum FfiTransferJobStateV2 {
    Preparing,
    NeedsSourceDecision,
    ReadyToSend,
    Sealed,
    Canceled,
}

/// State of a selection.
#[derive(Clone, Copy, Debug, PartialEq, Eq, Structural)]
pub enum FfiSourceSelectionStateV2 {
    Pending,
    Enumerating,
    NeedsDecision,
    Ready,
}

/// Where staged content comes from.
#[derive(Clone, Copy, Debug, PartialEq, Eq, Structural)]
pub enum FfiSourceOriginV2 {
    Photos,
    Share,
    ContentUri,
    FileProvider,
}

/// What a provider could not stage.
#[derive(Clone, Copy, Debug, PartialEq, Eq, Structural)]
pub enum FfiProviderSourceIssueKindV2 {
    PermissionDenied,
    Unavailable,
    InvalidName,
    SpecialFile,
}

/// A part of staged content that is missing.
#[derive(Debug, PartialEq, Eq)]
pub struct FfiProviderSourceIssueV2 {
    pub relative_components: Vec<String>,
    pub kind: FfiProviderSourceIssueKindV2,
}

/// What a [`FfiProviderSourceIssueV2`] holds.
#[verifier::ext_equal]
pub struct ProviderIssueView {
    pub relative_components: Seq<Seq<char>>,
    pub kind: FfiProviderSourceIssueKindV2,
}

impl View for FfiProviderSourceIssueV2 {
    type V = ProviderIssueView;

    open spec fn view(&self) -> ProviderIssueView {
        ProviderIssueView {
            relative_components: text_seq(self.relative_components@),
            kind: self.kind,
        }
    }
}

impl Clone for FfiProviderSourceIssueV2 {
    fn clone(&self) -> (r: Self)
        ensures
            r@ == self@,
    {
        let r = FfiProviderSourceIssueV2 {
            relative_components: self.relative_components.clone(),
            kind: self.kind,
        };
        assert(text_seq(r.relative_components@) =~= text_seq(self.relative_components@));
        r
    }
}

/// Content that the platform has staged.
#[derive(Debug, PartialEq, Eq)]
pub struct FfiStagedProviderRootV2 {
    pub path: String,
    pub requested_name: String,
    pub origin: FfiSourceOriginV2,
    pub issues: Vec<FfiProviderSourceIssueV2>,
}

/// What a [`FfiStagedProviderRootV2`] holds.
#[verifier::ext_equal]
pub struct StagedRootView {
    pub path: Seq<char>,
    pub requested_name: Seq<char>,
    pub origin: FfiSourceOriginV2,
    pub issues: Seq<ProviderIssueView>,
}

impl View for FfiStagedProviderRootV2 {
    type V = StagedRootView;

    open spec fn view(&self) -> StagedRootView {
        StagedRootView {
            path: self.path@,
            requested_name: self.requested_name@,
            origin: self.origin,
            issues: self.issues@.map_values(|x: FfiProviderSourceIssueV2| x@),
        }
    }
}

impl Clone for FfiStagedProviderRootV2 {
    fn clone(&self) -> (r: Self)
        ensures
            r@ == self@,
    {
        let r = FfiStagedProviderRootV2 {
            path: self.path.clone(),
            requested_name: self.requested_name.clone(),
            origin: self.origin,
            issues: self.issues.clone(),
        };
        assert(r@.issues =~= self@.issues);
        r
    }
}

/// What stands against a selection.
#[derive(Clone, Copy, Debug, PartialEq, Eq, Structural)]
pub enum FfiSourceIssueKindV2 {
    PermissionDenied,
    Unavailable,
    InvalidName,
    SymbolicLink,
    SpecialFile,
    SourceChanged,
    DepthLimit,
    EntryLimit,
}

/// How an issue is settled.
#[derive(Clone, Copy, Debug, PartialEq, Eq, Structural)]
pub enum FfiSourceDecisionV2 {
    Reauthorize,
    ApprovePartial,
    RemoveSelection,
    CancelJob,
}

/// Kind of an inventory item.
#[derive(Clone, Copy, Debug, PartialEq, Eq, Structural)]
pub enum FfiInventoryItemKindV2 {
    File,
    Directory,
}

/// An issue of a selection.
#[derive(Debug, PartialEq, Eq)]
pub struct FfiSourceIssueV2 {
    pub issue_id: u64,
    pub relative_components: Vec<String>,
    pub kind: FfiSourceIssueKindV2,
}

/// What a [`FfiSourceIssueV2`] holds.
#[verifier::ext_equal]
pub struct SourceIssueView {
    pub issue_id: u64,
    pub relative_components: Seq<Seq<char>>,
    pub kind: FfiSourceIssueKindV2,
}

impl View for FfiSourceIssueV2 {
    type V = SourceIssueView;

    open spec fn view(&self) -> SourceIssueView {
        SourceIssueView {
            issue_id: self.issue_id,
            relative_components: text_seq(self.relative_components@),
            kind: self.kind,
        }
    }
}

impl Clone for FfiSourceIssueV2 {
    fn clone(&self) -> (r: Self)
        ensures
            r@ == self@,
    {
        let r = FfiSourceIssueV2 {
            issue_id: self.issue_id,
            relative_components: self.relative_components.clone(),
            kind: self.kind,
        };
        assert(text_seq(r.relative_components@) =~= text_seq(self.relative_components@));
        r
    }
}

/// A selection of a job.
#[derive(Debug, PartialEq, Eq)]
pub struct FfiSourceSelectionV2 {
    pub root_item_id: u64,
    pub requested_name: String,
    pub state: FfiSourceSelectionStateV2,
    pub partial_approved: bool,
    pub issues: Vec<FfiSourceIssueV2>,
}

/// What a [`FfiSourceSelectionV2`] holds.
#[verifier::ext_equal]
pub struct SelectionView {
    pub root_item_id: u64,
    pub requested_name: Seq<char>,
    pub state: FfiSourceSelectionStateV2,
    pub partial_approved: bool,
    pub issues: Seq<SourceIssueView>,
}

impl View for FfiSourceSelectionV2 {
    type V = SelectionView;

    open spec fn view(&self) -> SelectionView {
        SelectionView {
            root_item_id: self.root_item_id,
            requested_name: self.requested_name@,
            state: self.state,
            partial_approved: self.partial_approved,
            issues: self.issues@.map_values(|x: FfiSourceIssueV2| x@),
        }
    }
}

impl Clone for FfiSourceSelectionV2 {
    fn clone(&self) -> (r: Self)
        ensures
            r@ == self@,
    {
        let r = FfiSourceSelectionV2 {
            root_item_id: self.root_item_id,
            requested_name: self.requested_name.clone(),
            state: self.state,
            partial_approved: self.partial_approved,
            issues: self.issues.clone(),
        };
        assert(r@.issues =~= self@.issues);
        r
    }
}

/// Totals of a job.
#[derive(Clone, Copy, Debug, PartialEq, Eq, Structural)]
pub struct FfiInventorySummaryV2 {
    pub root_count: u32,
    pub file_count: u32,
    pub directory_count: u32,
    pub total_plaintext_bytes: u64,
    pub warning_count: u32,
}

/// A job as clients see it.
#[derive(Debug, PartialEq, Eq)]
pub struct FfiTransferJobSnapshotV2 {
    pub job_id: String,
    pub selection_revision: u64,
    pub state: FfiTransferJobStateV2,
    pub compression_policy: FfiCompressionPolicyV2,
    pub created_unix_ms: u64,
    pub updated_unix_ms: u64,
    pub inventory: FfiInventorySummaryV2,
    pub selections: Vec<FfiSourceSelectionV2>,
}

/// What a [`FfiTransferJobSnapshotV2`] holds.
#[verifier::ext_equal]
pub struct JobSnapshotView {
    pub job_id: Seq<char>,
    pub selection_revision: u64,
    pub state: FfiTransferJobStateV2,
    pub compression_policy: FfiCompressionPolicyV2,
    pub created_unix_ms: u64,
    pub updated_unix_ms: u64,
    pub inventory: FfiInventorySummaryV2,
    pub selections: Seq<SelectionView>,
}

impl View for FfiTransferJobSnapshotV2 {
    type V = JobSnapshotView;

    open spec fn view(&self) -> JobSnapshotView {
        JobSnapshotView {
            job_id: self.job_id@,
            selection_revision: self.selection_revision,
            state: self.state,
            compression_policy: self.compression_policy,
            created_unix_ms: self.created_unix_ms,
            updated_unix_ms: self.updated_unix_ms,
            inventory: self.inventory,
            selections: self.selections@.map_values(|x: FfiSourceSelectionV2| x@),
        }
    }
}

impl Clone for FfiTransferJobSnapshotV2 {
    fn clone(&self) -> (r: Self)
        ensures
            r@ == self@,
    {
        let r = FfiTransferJobSnapshotV2 {
            job_id: self.job_id.clone(),
            selection_revision: self.selection_revision,
            state: self.state,
            compression_policy: self.compression_policy,
            created_unix_ms: self.created_unix_ms,
            updated_unix_ms: self.updated_unix_ms,
            inventory: self.inventory,
            selections: self.selections.clone(),
        };
        assert(r@.selections =~= self@.selections);
        r
    }
}

/// An item of a job's inventory.
#[derive(Debug, PartialEq, Eq)]
pub struct FfiInventoryItemV2 {
    pub item_id: u64,
    pub root_item_id: u64,
    pub parent_item_id: Option<u64>,
    pub name: String,
    pub kind: FfiInventoryItemKindV2,
    pub plaintext_size: u64,
    pub digest_known: bool,
    pub has_warning: bool,
}

/// What a [`FfiInventoryItemV2`] holds.
#[verifier::ext_equal]
pub struct ItemView {
    pub item_id: u64,
    pub root_item_id: u64,
    pub parent_item_id: Option<u64>,
    pub name: Seq<char>,
    pub kind: FfiInventoryItemKindV2,
    pub plaintext_size: u64,
    pub digest_known: bool,
    pub has_warning: bool,
}

impl View for FfiInventoryItemV2 {
    type V = ItemView;

    open spec fn view(&self) -> ItemView {
        ItemView {
            item_id: self.item_id,
            root_item_id: self.root_item_id,
            parent_item_id: self.parent_item_id,
            name: self.name@,
            kind: self.kind,
            plaintext_size: self.plaintext_size,
            digest_known: self.digest_known,
            has_warning: self.has_warning,
        }
    }
}

impl Clone for FfiInventoryItemV2 {
    fn clone(&self) -> (r: Self)
        ensures
            r == *self,
    {
        FfiInventoryItemV2 {
            item_id: self.item_id,
            root_item_id: self.root_item_id,
            parent_item_id: self.parent_item_id,
            name: self.name.clone(),
            kind: self.kind,
            plaintext_size: self.plaintext_size,
            digest_known: self.digest_known,
            has_warning: self.has_warning,
        }
    }
}

/// A page of a job's inventory.
#[derive(Debug, PartialEq, Eq)]
pub struct FfiInventoryPageV2 {
    pub revision: u64,
    pub items: Vec<FfiInventoryItemV2>,
    pub next_offset: Option<u32>,
}

/// What a [`FfiInventoryPageV2`] holds.
#[verifier::ext_equal]
pub struct ItemPageView {
    pub revision: u64,
    pub items: Seq<ItemView>,
    pub next_offset: Option<u32>,
}

impl View for FfiInventoryPageV2 {
    type V = ItemPageView;

    open spec fn view(&self) -> ItemPageView {
        ItemPageView {
            revision: self.revision,
            items: self.items@.map_values(|x: FfiInventoryItemV2| x@),
            next_offset: self.next_offset,
        }
    }
}

impl Clone for FfiInventoryPageV2 {
    fn clone(&self) -> (r: Self)
        ensures
            r@ == self@,
    {
        let r = FfiInventoryPageV2 {
            revision: self.revision,
            items: self.items.clone(),
            next_offset: self.next_offset,
        };
        assert(r@.items =~= self@.items);
        r
    }
}

/// A sealed job.
#[derive(Debug, PartialEq, Eq)]
pub struct FfiManifestSealV2 {
    pub job_id: String,
    pub selection_revision: u64,
    pub structural_digest: Vec<u8>,
    pub offer_bytes: Vec<u8>,
}

/// What a [`FfiManifestSealV2`] holds.
#[verifier::ext_equal]
pub struct SealView {
    pub job_id: Seq<char>,
    pub selection_revision: u64,
    pub structural_digest: Seq<u8>,
    pub offer_bytes: Seq<u8>,
}

impl View for FfiManifestSealV2 {
    type V = SealView;

    open spec fn view(&self) -> SealView {
        SealView {
            job_id: self.job_id@,
            selection_revision: self.selection_revision,
            structural_digest: self.structural_digest@,
            offer_bytes: self.offer_bytes@,
        }
    }
}

impl Clone for FfiManifestSealV2 {
    fn clone(&self) -> (r: Self)
        ensures
            r@ == self@,
    {
        let r = FfiManifestSealV2 {
            job_id: self.job_id.clone(),
            selection_revision: self.selection_revision,
            structural_digest: self.structural_digest.clone(),
            offer_bytes: self.offer_bytes.clone(),
        };
        assert(r.structural_digest@ =~= self.structural_digest@);
        assert(r.offer_bytes@ =~= self.offer_bytes@);
        r
    }
}

/// Identity of a job.
#[derive(Clone, Copy, Debug, PartialEq, Eq)]
pub struct JobIdV2 {
    pub bytes: [u8; 16],
}

impl View for JobIdV2 {
    type V = Seq<u8>;

    open spec fn view(&self) -> Seq<u8> {
        self.bytes@
    }
}

/// When payload is compressed.
#[derive(Clone, Copy, Debug, PartialEq, Eq, Structural)]
pub enum CompressionPolicyV2 {
    Never,
    Always,
    Smart,
}

/// Lifecycle of a job.
#[derive(Clone, Copy, Debug, PartialEq, Eq, Structural)]
pub enum JobLifecycle {
    Preparing,
    NeedsSourceDecision,
    ReadyToSend,
    Sealed,
    Canceled,
}

/// State of a selection.
#[derive(Clone, Copy, Debug, PartialEq, Eq, Structural)]
pub enum SourceSelectionState {
    Pending,
    Enumerating,
    NeedsDecision,
    Ready,
}

/// Where staged content comes from.
#[derive(Clone, Copy, Debug, PartialEq, Eq, Structural)]
pub enum LocalSourceOrigin {
    PhotosStaging,
    ShareStaging,
    ContentUriStaging,
    FileProviderStaging,
}

/// What stands against a selection.
#[derive(Clone, Copy, Debug, PartialEq, Eq, Structural)]
pub enum SourceIssueKind {
    PermissionDenied,
    Unavailable,
    InvalidName,
    SymbolicLink,
    SpecialFile,
    SourceChanged,
    DepthLimit,
    EntryLimit,
}

/// Kind of a manifest entry.
#[derive(Clone, Copy, Debug, PartialEq, Eq, Structural)]
pub enum ManifestEntryKindV2 {
    RegularFile,
    Directory,
}

/// A part of staged content that is missing.
#[derive(Debug, PartialEq, Eq)]
pub struct ProviderSourceIssue {
    pub relative_components: Vec<String>,
    pub kind: SourceIssueKind,
}

/// What a [`ProviderSourceIssue`] holds.
#[verifier::ext_equal]
pub struct EngineProviderIssueView {
    pub relative_components: Seq<Seq<char>>,
    pub kind: SourceIssueKind,
}

impl View for ProviderSourceIssue {
    type V = EngineProviderIssueView;

    open spec fn view(&self) -> EngineProviderIssueView {
        EngineProviderIssueView {
            relative_components: text_seq(self.relative_components@),
            kind: self.kind,
        }
    }
}

impl Clone for ProviderSourceIssue {
    fn clone(&self) -> (r: Self)
        ensures
            r@ == self@,
    {
        let r = ProviderSourceIssue {
            relative_components: self.relative_components.clone(),
            kind: self.kind,
        };
        assert(text_seq(r.relative_components@) =~= text_seq(self.relative_components@));
        r
    }
}

/// An issue of a selection.
#[derive(Debug, PartialEq, Eq)]
pub struct SourceIssue {
    pub issue_id: u64,
    pub relative_components: Vec<String>,
    pub kind: SourceIssueKind,
}

/// What a [`SourceIssue`] holds.
#[verifier::ext_equal]
pub struct EngineIssueView {
    pub issue_id: u64,
    pub relative_components: Seq<Seq<char>>,
    pub kind: SourceIssueKind,
}

impl View for SourceIssue {
    type V = EngineIssueView;

    open spec fn view(&self) -> EngineIssueView {
        EngineIssueView {
            issue_id: self.issue_id,
            relative_components: text_seq(self.relative_components@),
            kind: self.kind,
        }
    }
}

impl Clone for SourceIssue {
    fn clone(&self) -> (r: Self)
        ensures
            r@ == self@,
    {
        let r = SourceIssue {
            issue_id: self.issue_id,
            relative_components: self.relative_components.clone(),
            kind: self.kind,
        };
        assert(text_seq(r.relative_components@) =~= text_seq(self.relative_components@));
        r
    }
}

/// A selection of a job.
#[derive(Debug, PartialEq, Eq)]
pub struct SourceSelectionInfo {
    pub root_item_id: u64,
    pub requested_name: String,
    pub state: SourceSelectionState,
    pub partial_approved: bool,
    pub issues: Vec<SourceIssue>,
}

/// What a [`SourceSelectionInfo`] holds.
#[verifier::ext_equal]
pub struct EngineSelectionView {
    pub root_item_id: u64,
    pub requested_name: Seq<char>,
    pub state: SourceSelectionState,
    pub partial_approved: bool,
    pub issues: Seq<EngineIssueView>,
}

impl View for SourceSelectionInfo {
    type V = EngineSelectionView;

    open spec fn view(&self) -> EngineSelectionView {
        EngineSelectionView {
            root_item_id: self.root_item_id,
            requested_name: self.requested_name@,
            state: self.state,
            partial_approved: self.partial_approved,
            issues: self.issues@.map_values(|x: SourceIssue| x@),
        }
    }
}

impl Clone for SourceSelectionInfo {
    fn clone(&self) -> (r: Self)
        ensures
            r@ == self@,
    {
        let r = SourceSelectionInfo {
            root_item_id: self.root_item_id,
            requested_name: self.requested_name.clone(),
            state: self.state,
            partial_approved: self.partial_approved,
            issues: self.issues.clone(),
        };
        assert(r@.issues =~= self@.issues);
        r
    }
}

/// An item of a job's inventory.
#[derive(Debug, PartialEq, Eq)]
pub struct InventoryItem {
    pub item_id: u64,
    pub root_item_id: u64,
    pub parent_item_id: Option<u64>,
    pub name: String,
    pub kind: ManifestEntryKindV2,
    pub plaintext_size: u64,
    pub digest_known: bool,
    pub has_warning: bool,
}

/// What a [`InventoryItem`] holds.
#[verifier::ext_equal]
pub struct EngineItemView {
    pub item_id: u64,
    pub root_item_id: u64,
    pub parent_item_id: Option<u64>,
    pub name: Seq<char>,
    pub kind: ManifestEntryKindV2,
    pub plaintext_size: u64,
    pub digest_known: bool,
    pub has_warning: bool,
}

impl View for InventoryItem {
    type V = EngineItemView;

    open spec fn view(&self) -> EngineItemView {
        EngineItemView {
            item_id: self.item_id,
            root_item_id: self.root_item_id,
            parent_item_id: self.parent_item_id,
            name: self.name@,
            kind: self.kind,
            plaintext_size: self.plaintext_size,
            digest_known: self.digest_known,
            has_warning: self.has_warning,
        }
    }
}

impl Clone for InventoryItem {
    fn clone(&self) -> (r: Self)
        ensures
            r == *self,
    {
        InventoryItem {
            item_id: self.item_id,
            root_item_id: self.root_item_id,
            parent_item_id: self.parent_item_id,
            name: self.name.clone(),
            kind: self.kind,
            plaintext_size: self.plaintext_size,
            digest_known: self.digest_known,
            has_warning: self.has_warning,
        }
    }
}

/// Place in the children of an item.
#[derive(Clone, Copy, Debug, PartialEq, Eq, Structural)]
pub struct InventoryCursor {
    pub revision: u64,
    pub offset: u32,
}

/// A page of the children of an item.
#[derive(Debug, PartialEq, Eq)]
pub struct InventoryPage {
    pub revision: u64,
    pub items: Vec<InventoryItem>,
    pub next_cursor: Option<InventoryCursor>,
}

/// What a [`InventoryPage`] holds.
#[verifier::ext_equal]
pub struct EnginePageView {
    pub revision: u64,
    pub items: Seq<EngineItemView>,
    pub next_cursor: Option<InventoryCursor>,
}

impl View for InventoryPage {
    type V = EnginePageView;

    open spec fn view(&self) -> EnginePageView {
        EnginePageView {
            revision: self.revision,
            items: self.items@.map_values(|x: InventoryItem| x@),
            next_cursor: self.next_cursor,
        }
    }
}

impl Clone for InventoryPage {
    fn clone(&self) -> (r: Self)
        ensures
            r@ == self@,
    {
        let r = InventoryPage {
            revision: self.revision,
            items: self.items.clone(),
            next_cursor: self.next_cursor,
        };
        assert(r@.items =~= self@.items);
        r
    }
}

/// How an issue is settled.
#[derive(Debug, PartialEq, Eq)]
pub enum SourceDecision {
    Reauthorize { local_path: String },
    ApprovePartial,
    RemoveSelection,
    CancelJob,
}

/// What a [`SourceDecision`] holds.
#[verifier::ext_equal]
pub enum SourceDecisionView {
    Reauthorize { local_path: Seq<char> },
    ApprovePartial,
    RemoveSelection,
    CancelJob,
}

impl View for SourceDecision {
    type V = SourceDecisionView;

    open spec fn view(&self) -> SourceDecisionView {
        match *self {
            SourceDecision::Reauthorize { local_path } => SourceDecisionView::Reauthorize { local_path: local_path@ },
            SourceDecision::ApprovePartial => SourceDecisionView::ApprovePartial,
            SourceDecision::RemoveSelection => SourceDecisionView::RemoveSelection,
            SourceDecision::CancelJob => SourceDecisionView::CancelJob,
        }
    }
}

impl Clone for SourceDecision {
    fn clone(&self) -> (r: Self)
        ensures
            r == *self,
    {
        match self {
            SourceDecision::Reauthorize { local_path } => SourceDecision::Reauthorize { local_path: local_path.clone() },
            SourceDecision::ApprovePartial => SourceDecision::ApprovePartial,
            SourceDecision::RemoveSelection => SourceDecision::RemoveSelection,
            SourceDecision::CancelJob => SourceDecision::CancelJob,
        }
    }
}

/// A job as the engine holds it.
#[derive(Debug, PartialEq, Eq)]
pub struct CanonicalTransferJob {
    pub job_id: JobIdV2,
    pub selection_revision: u64,
    pub lifecycle: JobLifecycle,
    pub compression_policy: CompressionPolicyV2,
    pub created_unix_ms: u64,
    pub updated_unix_ms: u64,
    pub inventory: FfiInventorySummaryV2,
    pub selections: Vec<SourceSelectionInfo>,
    /// The manifest that a sealed job's entry forest is frozen in.
    pub manifest: Option<ManifestV2>,
}

/// What a [`CanonicalTransferJob`] holds.
#[verifier::ext_equal]
pub struct JobView {
    pub job_id: JobIdV2,
    pub selection_revision: u64,
    pub lifecycle: JobLifecycle,
    pub compression_policy: CompressionPolicyV2,
    pub created_unix_ms: u64,
    pub updated_unix_ms: u64,
    pub inventory: FfiInventorySummaryV2,
    pub selections: Seq<EngineSelectionView>,
    pub manifest: Option<ManifestView>,
}

impl View for CanonicalTransferJob {
    type V = JobView;

    open spec fn view(&self) -> JobView {
        JobView {
            job_id: self.job_id,
            selection_revision: self.selection_revision,
            lifecycle: self.lifecycle,
            compression_policy: self.compression_policy,
            created_unix_ms: self.created_unix_ms,
            updated_unix_ms: self.updated_unix_ms,
            inventory: self.inventory,
            selections: self.selections@.map_values(|x: SourceSelectionInfo| x@),
            manifest: match self.manifest { Some(manifest) => Some(manifest@), None => None },
        }
    }
}

impl Clone for CanonicalTransferJob {
    fn clone(&self) -> (r: Self)
        ensures
            r@ == self@,
    {
        let r = CanonicalTransferJob {
            job_id: self.job_id,
            selection_revision: self.selection_revision,
            lifecycle: self.lifecycle,
            compression_policy: self.compression_policy,
            created_unix_ms: self.created_unix_ms,
            updated_unix_ms: self.updated_unix_ms,
            inventory: self.inventory,
            selections: self.selections.clone(),
            manifest: match &self.manifest {
                Some(manifest) => Some(manifest.clone()),
                None => None,
            },
        };
        assert(r@.selections =~= self@.selections);
        r
    }
}

/// The [`CompressionPolicyV2`] that stands for a [`FfiCompressionPolicyV2`].
pub open spec fn core_policy_of(value: FfiCompressionPolicyV2) -> CompressionPolicyV2 {
    match value {
        FfiCompressionPolicyV2::Never => CompressionPolicyV2::Never,
        FfiCompressionPolicyV2::Always => CompressionPolicyV2::Always,
        FfiCompressionPolicyV2::Smart => CompressionPolicyV2::Smart,
    }
}

/// The engine form of a compression policy.
pub fn core_compression_policy(value: FfiCompressionPolicyV2) -> (r: CompressionPolicyV2)
    ensures
        r == core_policy_of(value),
{
    match value {
        FfiCompressionPolicyV2::Never => CompressionPolicyV2::Never,
        FfiCompressionPolicyV2::Always => CompressionPolicyV2::Always,
        FfiCompressionPolicyV2::Smart => CompressionPolicyV2::Smart,
    }
}

/// The [`FfiCompressionPolicyV2`] that stands for a [`CompressionPolicyV2`].
pub open spec fn ffi_policy_of(value: CompressionPolicyV2) -> FfiCompressionPolicyV2 {
    match value {
        CompressionPolicyV2::Never => FfiCompressionPolicyV2::Never,
        CompressionPolicyV2::Always => FfiCompressionPolicyV2::Always,
        CompressionPolicyV2::Smart => FfiCompressionPolicyV2::Smart,
    }
}

/// Projects a compression policy.
pub fn ffi_compression_policy(value: CompressionPolicyV2) -> (r: FfiCompressionPolicyV2)
    ensures
        r == ffi_policy_of(value),
{
    match value {
        CompressionPolicyV2::Never => FfiCompressionPolicyV2::Never,
        CompressionPolicyV2::Always => FfiCompressionPolicyV2::Always,
        CompressionPolicyV2::Smart => FfiCompressionPolicyV2::Smart,
    }
}

/// The [`FfiTransferJobStateV2`] that stands for a [`JobLifecycle`].
pub open spec fn ffi_job_state_of(value: JobLifecycle) -> FfiTransferJobStateV2 {
    match value {
        JobLifecycle::Preparing => FfiTransferJobStateV2::Preparing,
        JobLifecycle::NeedsSourceDecision => FfiTransferJobStateV2::NeedsSourceDecision,
        JobLifecycle::ReadyToSend => FfiTransferJobStateV2::ReadyToSend,
        JobLifecycle::Sealed => FfiTransferJobStateV2::Sealed,
        JobLifecycle::Canceled => FfiTransferJobStateV2::Canceled,
    }
}

/// Projects the lifecycle of a job.
pub fn ffi_job_state(value: JobLifecycle) -> (r: FfiTransferJobStateV2)
    ensures
        r == ffi_job_state_of(value),
{
    match value {
        JobLifecycle::Preparing => FfiTransferJobStateV2::Preparing,
        JobLifecycle::NeedsSourceDecision => FfiTransferJobStateV2::NeedsSourceDecision,
        JobLifecycle::ReadyToSend => FfiTransferJobStateV2::ReadyToSend,
        JobLifecycle::Sealed => FfiTransferJobStateV2::Sealed,
        JobLifecycle::Canceled => FfiTransferJobStateV2::Canceled,
    }
}

/// The [`FfiSourceSelectionStateV2`] that stands for a [`SourceSelectionState`].
pub open spec fn ffi_selection_state_of(value: SourceSelectionState) -> FfiSourceSelectionStateV2 {
    match value {
        SourceSelectionState::Pending => FfiSourceSelectionStateV2::Pending,
        SourceSelectionState::Enumerating => FfiSourceSelectionStateV2::Enumerating,
        SourceSelectionState::NeedsDecision => FfiSourceSelectionStateV2::NeedsDecision,
        SourceSelectionState::Ready => FfiSourceSelectionStateV2::Ready,
    }
}

/// Projects the state of a selection.
pub fn ffi_selection_state(value: SourceSelectionState) -> (r: FfiSourceSelectionStateV2)
    ensures
        r == ffi_selection_state_of(value),
{
    match value {
        SourceSelectionState::Pending => FfiSourceSelectionStateV2::Pending,
        SourceSelectionState::Enumerating => FfiSourceSelectionStateV2::Enumerating,
        SourceSelectionState::NeedsDecision => FfiSourceSelectionStateV2::NeedsDecision,
        SourceSelectionState::Ready => FfiSourceSelectionStateV2::Ready,
    }
}

/// The [`LocalSourceOrigin`] that stands for a [`FfiSourceOriginV2`].
pub open spec fn core_origin_of(value: FfiSourceOriginV2) -> LocalSourceOrigin {
    match value {
        FfiSourceOriginV2::Photos => LocalSourceOrigin::PhotosStaging,
        FfiSourceOriginV2::Share => LocalSourceOrigin::ShareStaging,
        FfiSourceOriginV2::ContentUri => LocalSourceOrigin::ContentUriStaging,
        FfiSourceOriginV2::FileProvider => LocalSourceOrigin::FileProviderStaging,
    }
}

/// The engine form of where staged content comes from.
pub fn core_source_origin(value: FfiSourceOriginV2) -> (r: LocalSourceOrigin)
    ensures
        r == core_origin_of(value),
{
    match value {
        FfiSourceOriginV2::Photos => LocalSourceOrigin::PhotosStaging,
        FfiSourceOriginV2::Share => LocalSourceOrigin::ShareStaging,
        FfiSourceOriginV2::ContentUri => LocalSourceOrigin::ContentUriStaging,
        FfiSourceOriginV2::FileProvider => LocalSourceOrigin::FileProviderStaging,
    }
}

/// The [`FfiSourceIssueKindV2`] that stands for a [`SourceIssueKind`].
pub open spec fn ffi_issue_kind_of(value: SourceIssueKind) -> FfiSourceIssueKindV2 {
    match value {
        SourceIssueKind::PermissionDenied => FfiSourceIssueKindV2::PermissionDenied,
        SourceIssueKind::Unavailable => FfiSourceIssueKindV2::Unavailable,
        SourceIssueKind::InvalidName => FfiSourceIssueKindV2::InvalidName,
        SourceIssueKind::SymbolicLink => FfiSourceIssueKindV2::SymbolicLink,
        SourceIssueKind::SpecialFile => FfiSourceIssueKindV2::SpecialFile,
        SourceIssueKind::SourceChanged => FfiSourceIssueKindV2::SourceChanged,
        SourceIssueKind::DepthLimit => FfiSourceIssueKindV2::DepthLimit,
        SourceIssueKind::EntryLimit => FfiSourceIssueKindV2::EntryLimit,
    }
}

/// Projects what stands against a selection.
pub fn ffi_issue_kind(value: SourceIssueKind) -> (r: FfiSourceIssueKindV2)
    ensures
        r == ffi_issue_kind_of(value),
{
    match value {
        SourceIssueKind::PermissionDenied => FfiSourceIssueKindV2::PermissionDenied,
        SourceIssueKind::Unavailable => FfiSourceIssueKindV2::Unavailable,
        SourceIssueKind::InvalidName => FfiSourceIssueKindV2::InvalidName,
        SourceIssueKind::SymbolicLink => FfiSourceIssueKindV2::SymbolicLink,
        SourceIssueKind::SpecialFile => FfiSourceIssueKindV2::SpecialFile,
        SourceIssueKind::SourceChanged => FfiSourceIssueKindV2::SourceChanged,
        SourceIssueKind::DepthLimit => FfiSourceIssueKindV2::DepthLimit,
        SourceIssueKind::EntryLimit => FfiSourceIssueKindV2::EntryLimit,
    }
}

/// The [`SourceIssueKind`] that stands for a [`FfiProviderSourceIssueKindV2`].
pub open spec fn core_issue_kind_of(value: FfiProviderSourceIssueKindV2) -> SourceIssueKind {
    match value {
        FfiProviderSourceIssueKindV2::PermissionDenied => SourceIssueKind::PermissionDenied,
        FfiProviderSourceIssueKindV2::Unavailable => SourceIssueKind::Unavailable,
        FfiProviderSourceIssueKindV2::InvalidName => SourceIssueKind::InvalidName,
        FfiProviderSourceIssueKindV2::SpecialFile => SourceIssueKind::SpecialFile,
    }
}

/// The engine form of what a provider could not stage.
pub fn core_issue_kind(value: FfiProviderSourceIssueKindV2) -> (r: SourceIssueKind)
    ensures
        r == core_issue_kind_of(value),
{
    match value {
        FfiProviderSourceIssueKindV2::PermissionDenied => SourceIssueKind::PermissionDenied,
        FfiProviderSourceIssueKindV2::Unavailable => SourceIssueKind::Unavailable,
        FfiProviderSourceIssueKindV2::InvalidName => SourceIssueKind::InvalidName,
        FfiProviderSourceIssueKindV2::SpecialFile => SourceIssueKind::SpecialFile,
    }
}

/// The [`FfiInventoryItemKindV2`] that stands for a [`ManifestEntryKindV2`].
pub open spec fn ffi_item_kind_of(value: ManifestEntryKindV2) -> FfiInventoryItemKindV2 {
    match value {
        ManifestEntryKindV2::RegularFile => FfiInventoryItemKindV2::File,
        ManifestEntryKindV2::Directory => FfiInventoryItemKindV2::Directory,
    }
}

/// Projects the kind of an entry.
pub fn ffi_item_kind(value: ManifestEntryKindV2) -> (r: FfiInventoryItemKindV2)
    ensures
        r == ffi_item_kind_of(value),
{
    match value {
        ManifestEntryKindV2::RegularFile => FfiInventoryItemKindV2::File,
        ManifestEntryKindV2::Directory => FfiInventoryItemKindV2::Directory,
    }
}

/// The native form of an issue.
pub open spec fn ffi_source_issue_of(issue: EngineIssueView) -> SourceIssueView {
    SourceIssueView {
        issue_id: issue.issue_id,
        relative_components: issue.relative_components,
        kind: ffi_issue_kind_of(issue.kind),
    }
}

/// Projects an issue.
pub fn ffi_source_issue(issue: &SourceIssue) -> (r: FfiSourceIssueV2)
    ensures
        r@ == ffi_source_issue_of(issue@),
{
    let relative_components = issue.relative_components.clone();
    assert(text_seq(relative_components@) =~= text_seq(issue.relative_components@));
    FfiSourceIssueV2 {
        issue_id: issue.issue_id,
        relative_components,
        kind: ffi_issue_kind(issue.kind),
    }
}

/// [`ffi_source_issue_of`] of every item, in their order.
pub open spec fn ffi_source_issues_of(items: Seq<EngineIssueView>) -> Seq<SourceIssueView> {
    items.map_values(|x: EngineIssueView| ffi_source_issue_of(x))
}

/// Projects issues, in their order.
pub fn ffi_source_issues(items: &Vec<SourceIssue>) -> (r: Vec<FfiSourceIssueV2>)
    ensures
        r@.map_values(|x: FfiSourceIssueV2| x@) == ffi_source_issues_of(items@.map_values(|x: SourceIssue| x@)),
{
    let mut list: Vec<FfiSourceIssueV2> = Vec::new();
    let mut i: usize = 0;
    while i < items.len()
        invariant
            i <= items@.len(),
            list@.len() == i,
            forall|k: int| 0 <= k < i ==> (#[trigger] list@[k])@ == ffi_source_issue_of(items@[k]@),
        decreases items@.len() - i,
    {
        list.push(ffi_source_issue(&items[i]));
        i += 1;
    }
    assert(list@.map_values(|x: FfiSourceIssueV2| x@) =~= ffi_source_issues_of(items@.map_values(|x: SourceIssue| x@)));
    list
}

/// The [`FfiSourceSelectionV2`] that stands for a [`SourceSelectionInfo`].
pub open spec fn ffi_selection_of(value: EngineSelectionView) -> SelectionView {
    SelectionView {
        root_item_id: value.root_item_id,
        requested_name: value.requested_name,
        state: ffi_selection_state_of(value.state),
        partial_approved: value.partial_approved,
        issues: ffi_source_issues_of(value.issues),
    }
}

/// Projects a selection.
pub fn ffi_source_selection(value: &SourceSelectionInfo) -> (r: FfiSourceSelectionV2)
    ensures
        r@ == ffi_selection_of(value@),
{
    FfiSourceSelectionV2 {
        root_item_id: value.root_item_id,
        requested_name: value.requested_name.clone(),
        state: ffi_selection_state(value.state),
        partial_approved: value.partial_approved,
        issues: ffi_source_issues(&value.issues),
    }
}

/// [`ffi_selection_of`] of every item, in their order.
pub open spec fn ffi_selections_of(items: Seq<EngineSelectionView>) -> Seq<SelectionView> {
    items.map_values(|x: EngineSelectionView| ffi_selection_of(x))
}

/// Projects selections, in their order.
pub fn ffi_source_selections(items: &Vec<SourceSelectionInfo>) -> (r: Vec<FfiSourceSelectionV2>)
    ensures
        r@.map_values(|x: FfiSourceSelectionV2| x@) == ffi_selections_of(items@.map_values(|x: SourceSelectionInfo| x@)),
{
    let mut list: Vec<FfiSourceSelectionV2> = Vec::new();
    let mut i: usize = 0;
    while i < items.len()
        invariant
            i <= items@.len(),
            list@.len() == i,
            forall|k: int| 0 <= k < i ==> (#[trigger] list@[k])@ == ffi_selection_of(items@[k]@),
        decreases items@.len() - i,
    {
        list.push(ffi_source_selection(&items[i]));
        i += 1;
    }
    assert(list@.map_values(|x: FfiSourceSelectionV2| x@) =~= ffi_selections_of(items@.map_values(|x: SourceSelectionInfo| x@)));
    list
}

/// The [`FfiInventoryItemV2`] that stands for a [`InventoryItem`].
pub open spec fn ffi_item_of(value: EngineItemView) -> ItemView {
    ItemView {
        item_id: value.item_id,
        root_item_id: value.root_item_id,
        parent_item_id: value.parent_item_id,
        name: value.name,
        kind: ffi_item_kind_of(value.kind),
        plaintext_size: value.plaintext_size,
        digest_known: value.digest_known,
        has_warning: value.has_warning,
    }
}

/// Projects an inventory item.
pub fn ffi_inventory_item(value: &InventoryItem) -> (r: FfiInventoryItemV2)
    ensures
        r@ == ffi_item_of(value@),
{
    FfiInventoryItemV2 {
        item_id: value.item_id,
        root_item_id: value.root_item_id,
        parent_item_id: value.parent_item_id,
        name: value.name.clone(),
        kind: ffi_item_kind(value.kind),
        plaintext_size: value.plaintext_size,
        digest_known: value.digest_known,
        has_warning: value.has_warning,
    }
}

/// [`ffi_item_of`] of every item, in their order.
pub open spec fn ffi_inventory_items_of(items: Seq<EngineItemView>) -> Seq<ItemView> {
    items.map_values(|x: EngineItemView| ffi_item_of(x))
}

/// Projects inventory items, in their order.
pub fn ffi_inventory_items(items: &Vec<InventoryItem>) -> (r: Vec<FfiInventoryItemV2>)
    ensures
        r@.map_values(|x: FfiInventoryItemV2| x@) == ffi_inventory_items_of(items@.map_values(|x: InventoryItem| x@)),
{
    let mut list: Vec<FfiInventoryItemV2> = Vec::new();
    let mut i: usize = 0;
    while i < items.len()
        invariant
            i <= items@.len(),
            list@.len() == i,
            forall|k: int| 0 <= k < i ==> (#[trigger] list@[k])@ == ffi_item_of(items@[k]@),
        decreases items@.len() - i,
    {
        list.push(ffi_inventory_item(&items[i]));
        i += 1;
    }
    assert(list@.map_values(|x: FfiInventoryItemV2| x@) =~= ffi_inventory_items_of(items@.map_values(|x: InventoryItem| x@)));
    list
}

/// [`ffi_item_of`], where there is a value.
pub open spec fn ffi_optional_inventory_item_of(value: Option<EngineItemView>) -> Option<ItemView> {
    match value {
        Some(x) => Some(ffi_item_of(x)),
        None => None,
    }
}

fn ffi_optional_inventory_item(value: &Option<InventoryItem>) -> (r: Option<FfiInventoryItemV2>)
    ensures
        (match r {
            Some(x) => Some(x@),
            None => None,
        }) == ffi_optional_inventory_item_of(
            match *value {
                Some(x) => Some(x@),
                None => None,
            },
        ),
{
    match value {
        Some(x) => Some(ffi_inventory_item(x)),
        None => None,
    }
}

/// The engine form of a missing part.
pub open spec fn core_provider_issue_of(issue: ProviderIssueView) -> EngineProviderIssueView {
    EngineProviderIssueView {
        relative_components: issue.relative_components,
        kind: core_issue_kind_of(issue.kind),
    }
}

/// The engine form of a missing part.
pub fn core_provider_issue(issue: &FfiProviderSourceIssueV2) -> (r: ProviderSourceIssue)
    ensures
        r@ == core_provider_issue_of(issue@),
{
    let relative_components = issue.relative_components.clone();
    assert(text_seq(relative_components@) =~= text_seq(issue.relative_components@));
    ProviderSourceIssue { relative_components, kind: core_issue_kind(issue.kind) }
}

/// [`core_provider_issue_of`] of every item, in their order.
pub open spec fn core_provider_issues_of(items: Seq<ProviderIssueView>) -> Seq<EngineProviderIssueView> {
    items.map_values(|x: ProviderIssueView| core_provider_issue_of(x))
}

/// The engine form of missing parts, in their order.
pub fn core_provider_issues(items: &Vec<FfiProviderSourceIssueV2>) -> (r: Vec<ProviderSourceIssue>)
    ensures
        r@.map_values(|x: ProviderSourceIssue| x@) == core_provider_issues_of(items@.map_values(|x: FfiProviderSourceIssueV2| x@)),
{
    let mut list: Vec<ProviderSourceIssue> = Vec::new();
    let mut i: usize = 0;
    while i < items.len()
        invariant
            i <= items@.len(),
            list@.len() == i,
            forall|k: int| 0 <= k < i ==> (#[trigger] list@[k])@ == core_provider_issue_of(items@[k]@),
        decreases items@.len() - i,
    {
        list.push(core_provider_issue(&items[i]));
        i += 1;
    }
    assert(list@.map_values(|x: ProviderSourceIssue| x@) =~= core_provider_issues_of(items@.map_values(|x: FfiProviderSourceIssueV2| x@)));
    list
}

/// The text of a job's identity: two digits for each byte.
pub fn encode_job_id(job_id: &JobIdV2) -> (r: String)
    ensures
        r@ == hex_of(job_id@),
{
    let bytes = vstd::array::array_as_slice(&job_id.bytes);
    hex_text(bytes)
}

/// Whether every byte is zero.
pub open spec fn all_zero(bytes: Seq<u8>) -> bool {
    forall|i: int| 0 <= i < bytes.len() ==> #[trigger] bytes[i] == 0
}

/// The identity that a text stands for, or why it stands for none.
pub open spec fn decoded_job_id(value: Seq<char>) -> Result<Seq<u8>, ErrorView> {
    if value.len() != 32 || !is_hex_text(value) {
        Err(
            ErrorView::Operation {
                reason: "job_id must contain exactly 32 hexadecimal characters"@,
            },
        )
    } else if all_zero(unhexed(value)) {
        Err(ErrorView::Operation { reason: "job_id must not be all zero"@ })
    } else {
        Ok(unhexed(value))
    }
}

fn is_all_zero(bytes: &Vec<u8>) -> (r: bool)
    ensures
        r == all_zero(bytes@),
{
    let mut i: usize = 0;
    while i < bytes.len()
        invariant
            i <= bytes@.len(),
            forall|k: int| 0 <= k < i ==> #[trigger] bytes@[k] == 0,
        decreases bytes@.len() - i,
    {
        if bytes[i] != 0 {
            assert(bytes@[i as int] != 0);
            return false;
        }
        i += 1;
    }
    true
}

/// The identity that a text stands for.
pub fn decode_job_id(value: &str) -> (r: Result<JobIdV2, EnvoixError>)
    ensures
        (match r {
            Ok(id) => Ok(id@),
            Err(error) => Err(error@),
        }) == decoded_job_id(value@),
{
    match unhex(value) {
        Some(decoded) => {
            if decoded.len() != 16 {
                return Err(op_error("job_id must contain exactly 32 hexadecimal characters"));
            }
            if is_all_zero(&decoded) {
                return Err(op_error("job_id must not be all zero"));
            }
            let mut bytes: [u8; 16] = [0u8; 16];
            let mut i: usize = 0;
            while i < 16
                invariant
                    i <= 16,
                    decoded@.len() == 16,
                    bytes@.len() == 16,
                    forall|k: int| 0 <= k < i ==> #[trigger] bytes@[k] == decoded@[k],
                decreases 16 - i,
            {
                bytes[i] = decoded[i];
                i += 1;
            }
            assert(bytes@ =~= decoded@);
            Ok(JobIdV2 { bytes })
        },
        None => Err(op_error("job_id must contain exactly 32 hexadecimal characters")),
    }
}

/// The text of a job's identity stands for that identity.
pub proof fn job_ids_round_trip(id: Seq<u8>)
    requires
        id.len() == 16,
        !all_zero(id),
    ensures
        decoded_job_id(hex_of(id)) == Ok::<Seq<u8>, ErrorView>(id),
{
    hex_round_trips(id);
}

/// The native form of a job.
pub open spec fn snapshot_of(job: JobView) -> JobSnapshotView {
    JobSnapshotView {
        job_id: hex_of(job.job_id@),
        selection_revision: job.selection_revision,
        state: ffi_job_state_of(job.lifecycle),
        compression_policy: ffi_policy_of(job.compression_policy),
        created_unix_ms: job.created_unix_ms,
        updated_unix_ms: job.updated_unix_ms,
        inventory: job.inventory,
        selections: ffi_selections_of(job.selections),
    }
}

/// Projects a job.
pub fn snapshot(job: &CanonicalTransferJob) -> (r: FfiTransferJobSnapshotV2)
    ensures
        r@ == snapshot_of(job@),
{
    FfiTransferJobSnapshotV2 {
        job_id: encode_job_id(&job.job_id),
        selection_revision: job.selection_revision,
        state: ffi_job_state(job.lifecycle),
        compression_policy: ffi_compression_policy(job.compression_policy),
        created_unix_ms: job.created_unix_ms,
        updated_unix_ms: job.updated_unix_ms,
        inventory: job.inventory,
        selections: ffi_source_selections(&job.selections),
    }
}

/// The view of a check.
pub open spec fn check_of(result: Result<(), EnvoixError>) -> Option<ErrorView> {
    match result {
        Ok(_) => None,
        Err(error) => Some(error@),
    }
}

/// A refusal with the given reason, where something is wrong.
pub open spec fn refused_if(wrong: bool, reason: Seq<char>) -> Option<ErrorView> {
    if wrong {
        Some(ErrorView::Operation { reason })
    } else {
        None
    }
}

/// Whether a text of a list is blank.
pub open spec fn some_blank(texts: Seq<Seq<char>>) -> bool {
    exists|i: int| 0 <= i < texts.len() && is_blank(#[trigger] texts[i])
}

/// Checks the paths that a job is to take in.
pub fn check_local_paths(paths: &Vec<String>) -> (r: Result<(), EnvoixError>)
    ensures
        check_of(r) == refused_if(
            paths@.len() == 0 || some_blank(text_seq(paths@)),
            "paths must contain at least one non-empty local path"@,
        ),
{
    let mut wrong = paths.len() == 0;
    let mut i: usize = 0;
    while i < paths.len() && !wrong
        invariant
            i <= paths@.len(),
            wrong ==> paths@.len() == 0 || some_blank(text_seq(paths@)),
            !wrong ==> paths@.len() > 0,
            !wrong ==> forall|k: int| 0 <= k < i ==> !is_blank(#[trigger] text_seq(paths@)[k]),
        decreases paths@.len() - i,
    {
        if paths[i].as_str().trim().is_empty() {
            assert(is_blank(text_seq(paths@)[i as int]));
            wrong = true;
        }
        i += 1;
    }
    if wrong {
        Err(op_error("paths must contain at least one non-empty local path"))
    } else {
        Ok(())
    }
}

/// Checks a staged file that a job is to take in.
pub fn check_transient_file(source_path: &str, requested_name: &str) -> (r: Result<(), EnvoixError>)
    ensures
        check_of(r) == refused_if(
            is_blank(source_path@) || is_blank(requested_name@),
            "source_path and requested_name must not be empty"@,
        ),
{
    if source_path.trim().is_empty() || requested_name.trim().is_empty() {
        Err(op_error("source_path and requested_name must not be empty"))
    } else {
        Ok(())
    }
}

/// Whether a staged root lacks its path or its name.
pub open spec fn some_root_blank(roots: Seq<StagedRootView>) -> bool {
    exists|i: int|
        0 <= i < roots.len() && (is_blank((#[trigger] roots[i]).path) || is_blank(
            roots[i].requested_name,
        ))
}

/// Checks the staged roots that a job is to take in.
pub fn check_staged_roots(roots: &Vec<FfiStagedProviderRootV2>) -> (r: Result<(), EnvoixError>)
    ensures
        check_of(r) == refused_if(
            roots@.len() == 0 || some_root_blank(
                roots@.map_values(|x: FfiStagedProviderRootV2| x@),
            ),
            "staged roots must contain a path and requested name"@,
        ),
{
    let ghost shown = roots@.map_values(|x: FfiStagedProviderRootV2| x@);
    let mut wrong = roots.len() == 0;
    let mut i: usize = 0;
    while i < roots.len() && !wrong
        invariant
            i <= roots@.len(),
            shown == roots@.map_values(|x: FfiStagedProviderRootV2| x@),
            wrong ==> roots@.len() == 0 || some_root_blank(shown),
            !wrong ==> roots@.len() > 0,
            !wrong ==> forall|k: int|
                0 <= k < i ==> !is_blank((#[trigger] shown[k]).path) && !is_blank(
                    shown[k].requested_name,
                ),
        decreases roots@.len() - i,
    {
        if roots[i].path.as_str().trim().is_empty()
            || roots[i].requested_name.as_str().trim().is_empty() {
            assert(is_blank(shown[i as int].path) || is_blank(shown[i as int].requested_name));
            wrong = true;
        }
        i += 1;
    }
    if wrong {
        Err(op_error("staged roots must contain a path and requested name"))
    } else {
        Ok(())
    }
}

/// Checks the path of a source that is staged anew.
pub fn check_reauthorized_path(source_path: &str) -> (r: Result<(), EnvoixError>)
    ensures
        check_of(r) == refused_if(
            is_blank(source_path@),
            "reauthorized provider path must not be empty"@,
        ),
{
    if source_path.trim().is_empty() {
        Err(op_error("reauthorized provider path must not be empty"))
    } else {
        Ok(())
    }
}

/// Checks the directory of the job store.
pub fn check_store_directory(store_directory: &str) -> (r: Result<(), EnvoixError>)
    ensures
        check_of(r) == refused_if(
            is_blank(store_directory@),
            "store_directory must not be empty"@,
        ),
{
    if store_directory.trim().is_empty() {
        Err(op_error("store_directory must not be empty"))
    } else {
        Ok(())
    }
}

/// The engine form of how an issue is settled, or why it has none.
pub open spec fn core_decision_of(decision: FfiSourceDecisionV2, path: Option<Seq<char>>) -> Result<
    SourceDecisionView,
    ErrorView,
> {
    match decision {
        FfiSourceDecisionV2::Reauthorize => match path {
            Some(local_path) => if is_blank(local_path) {
                Err(
                    ErrorView::Operation {
                        reason: "reauthorized_path is required for Reauthorize"@,
                    },
                )
            } else {
                Ok(SourceDecisionView::Reauthorize { local_path })
            },
            None => Err(
                ErrorView::Operation {
                    reason: "reauthorized_path is required for Reauthorize"@,
                },
            ),
        },
        FfiSourceDecisionV2::ApprovePartial => Ok(SourceDecisionView::ApprovePartial),
        FfiSourceDecisionV2::RemoveSelection => Ok(SourceDecisionView::RemoveSelection),
        FfiSourceDecisionV2::CancelJob => Ok(SourceDecisionView::CancelJob),
    }
}

/// The engine form of how an issue is settled. Only a new authorization takes
/// a path, and it has to have one.
pub fn core_source_decision(decision: FfiSourceDecisionV2, reauthorized_path: &Option<String>) -> (r:
    Result<SourceDecision, EnvoixError>)
    ensures
        (match r {
            Ok(decision) => Ok(decision@),
            Err(error) => Err(error@),
        }) == core_decision_of(decision, text_option(*reauthorized_path)),
{
    match decision {
        FfiSourceDecisionV2::Reauthorize => match reauthorized_path {
            Some(path) => if path.as_str().trim().is_empty() {
                Err(op_error("reauthorized_path is required for Reauthorize"))
            } else {
                Ok(SourceDecision::Reauthorize { local_path: path.clone() })
            },
            None => Err(op_error("reauthorized_path is required for Reauthorize")),
        },
        FfiSourceDecisionV2::ApprovePartial => Ok(SourceDecision::ApprovePartial),
        FfiSourceDecisionV2::RemoveSelection => Ok(SourceDecision::RemoveSelection),
        FfiSourceDecisionV2::CancelJob => Ok(SourceDecision::CancelJob),
    }
}

/// Whether a selection has to be prepared anew after a decision.
pub fn prepares_again(decision: FfiSourceDecisionV2) -> (r: bool)
    ensures
        r == (decision == FfiSourceDecisionV2::Reauthorize),
{
    decision == FfiSourceDecisionV2::Reauthorize
}

/// The place that a request for children names, or why it names none.
pub open spec fn cursor_of(revision: Option<u64>, offset: Option<u32>) -> Result<
    Option<InventoryCursor>,
    ErrorView,
> {
    match (revision, offset) {
        (None, None) => Ok(None),
        (Some(revision), Some(offset)) => Ok(Some(InventoryCursor { revision, offset })),
        _ => Err(
            ErrorView::Operation {
                reason: "cursor_revision and cursor_offset must be both present or absent"@,
            },
        ),
    }
}

/// The place that a request for children names.
pub fn inventory_cursor(revision: Option<u64>, offset: Option<u32>) -> (r: Result<
    Option<InventoryCursor>,
    EnvoixError,
>)
    ensures
        (match r {
            Ok(cursor) => Ok(cursor),
            Err(error) => Err(error@),
        }) == cursor_of(revision, offset),
{
    match (revision, offset) {
        (None, None) => Ok(None),
        (Some(revision), Some(offset)) => Ok(Some(InventoryCursor { revision, offset })),
        _ => Err(
            op_error("cursor_revision and cursor_offset must be both present or absent"),
        ),
    }
}

/// Whether a job is an unsent preparation that clients restore.
pub open spec fn is_preparation(job: JobView) -> bool {
    job.selections.len() > 0 && match job.lifecycle {
        JobLifecycle::Preparing
        | JobLifecycle::NeedsSourceDecision
        | JobLifecycle::ReadyToSend => true,
        JobLifecycle::Sealed | JobLifecycle::Canceled => false,
    }
}

/// The unsent preparations among jobs, as clients see them.
pub open spec fn preparations(jobs: Seq<JobView>) -> Seq<JobSnapshotView>
    decreases jobs.len(),
{
    if jobs.len() == 0 {
        Seq::empty()
    } else if is_preparation(jobs.last()) {
        preparations(jobs.drop_last()).push(snapshot_of(jobs.last()))
    } else {
        preparations(jobs.drop_last())
    }
}

/// The unsent preparations among jobs, in their order. Sealed and canceled
/// jobs, and jobs without a selection, are left out.
fn unsent_preparations(jobs: &Vec<CanonicalTransferJob>) -> (r: Vec<FfiTransferJobSnapshotV2>)
    ensures
        r@.map_values(|x: FfiTransferJobSnapshotV2| x@) == preparations(
            jobs@.map_values(|x: CanonicalTransferJob| x@),
        ),
{
    let ghost all = jobs@.map_values(|x: CanonicalTransferJob| x@);
    let mut list: Vec<FfiTransferJobSnapshotV2> = Vec::new();
    let mut i: usize = 0;
    assert(all.take(0) =~= Seq::empty());
    assert(list@.map_values(|x: FfiTransferJobSnapshotV2| x@) =~= Seq::empty());
    while i < jobs.len()
        invariant
            i <= jobs@.len(),
            all == jobs@.map_values(|x: CanonicalTransferJob| x@),
            list@.map_values(|x: FfiTransferJobSnapshotV2| x@) == preparations(all.take(i as int)),
        decreases jobs@.len() - i,
    {
        let ghost next = all.take(i + 1);
        assert(next.drop_last() =~= all.take(i as int));
        assert(next.last() == jobs@[i as int]@);
        let ghost before = list@.map_values(|x: FfiTransferJobSnapshotV2| x@);
        let job = &jobs[i];
        let unsent = match job.lifecycle {
            JobLifecycle::Preparing
            | JobLifecycle::NeedsSourceDecision
            | JobLifecycle::ReadyToSend => true,
            JobLifecycle::Sealed | JobLifecycle::Canceled => false,
        };
        assert(job@.selections.len() == job.selections@.len());
        if job.selections.len() > 0 && unsent {
            list.push(snapshot(job));
            assert(list@.map_values(|x: FfiTransferJobSnapshotV2| x@) =~= before.push(
                snapshot_of(job@),
            ));
        }
        i += 1;
    }
    assert(all.take(i as int) =~= all);
    list
}

/// Lists the unsent preparations of a store. `loaded` is what the store holds.
pub fn list_preparing_transfer_jobs_v2(
    store_directory: &str,
    loaded: &Result<Vec<CanonicalTransferJob>, String>,
) -> (r: Result<Vec<FfiTransferJobSnapshotV2>, EnvoixError>)
    ensures
        match r {
            Ok(list) => !is_blank(store_directory@) && (*loaded matches Ok(jobs) && list@.map_values(
                |x: FfiTransferJobSnapshotV2| x@,
            ) == preparations(jobs@.map_values(|x: CanonicalTransferJob| x@))),
            Err(error) => if is_blank(store_directory@) {
                error@ == (ErrorView::Operation { reason: "store_directory must not be empty"@ })
            } else {
                *loaded matches Err(reason) && error@ == (ErrorView::Operation { reason: reason@ })
            },
        },
{
    if let Err(error) = check_store_directory(store_directory) {
        return Err(error);
    }
    match loaded {
        Ok(jobs) => Ok(unsent_preparations(jobs)),
        Err(reason) => Err(op_err(reason.clone())),
    }
}

/// What the engine made of an operation on a job.
pub struct JobOutcome {
    /// The job as it is now, whether or not the operation ended well.
    pub job: CanonicalTransferJob,
    /// Why the operation failed, if it did.
    pub failure: Option<String>,
}

/// What a client is told after an operation on a job.
pub open spec fn settled(outcome: JobOutcome) -> Result<JobSnapshotView, ErrorView> {
    match outcome.failure {
        Some(reason) => Err(ErrorView::Operation { reason: reason@ }),
        None => Ok(snapshot_of(outcome.job@)),
    }
}

/// The view of what a client is told.
pub open spec fn snapshot_result(result: Result<FfiTransferJobSnapshotV2, EnvoixError>) -> Result<
    JobSnapshotView,
    ErrorView,
> {
    match result {
        Ok(snapshot) => Ok(snapshot@),
        Err(error) => Err(error@),
    }
}

/// A job that a client prepares.
pub struct FfiTransferJobV2 {
    job: CanonicalTransferJob,
}

impl View for FfiTransferJobV2 {
    type V = JobView;

    closed spec fn view(&self) -> JobView {
        self.job@
    }
}

/// A job that was created and saved. `created` is what came of it.
pub fn create_transfer_job_v2(
    store_directory: &str,
    created: Result<CanonicalTransferJob, String>,
) -> (r: Result<FfiTransferJobV2, EnvoixError>)
    ensures
        match r {
            Ok(job) => !is_blank(store_directory@) && (created matches Ok(engine) && job@ == engine@),
            Err(error) => if is_blank(store_directory@) {
                error@ == (ErrorView::Operation { reason: "store_directory must not be empty"@ })
            } else {
                created matches Err(reason) && error@ == (ErrorView::Operation { reason: reason@ })
            },
        },
{
    if let Err(error) = check_store_directory(store_directory) {
        return Err(error);
    }
    match created {
        Ok(job) => Ok(FfiTransferJobV2 { job }),
        Err(reason) => Err(op_err(reason)),
    }
}

/// What a restored job has to be looked up by: the store's directory is
/// checked before the identity.
pub fn restore_key(store_directory: &str, job_id: &str) -> (r: Result<JobIdV2, EnvoixError>)
    ensures
        match r {
            Ok(id) => !is_blank(store_directory@) && decoded_job_id(job_id@) == Ok::<
                Seq<u8>,
                ErrorView,
            >(id@),
            Err(error) => if is_blank(store_directory@) {
                error@ == (ErrorView::Operation { reason: "store_directory must not be empty"@ })
            } else {
                decoded_job_id(job_id@) == Err::<Seq<u8>, ErrorView>(error@)
            },
        },
{
    if let Err(error) = check_store_directory(store_directory) {
        return Err(error);
    }
    decode_job_id(job_id)
}

/// A job that was loaded and cleaned up. `loaded` is what came of it for the
/// identity that [`restore_key`] gives.
pub fn restore_transfer_job_v2(
    store_directory: &str,
    job_id: &str,
    loaded: Result<Option<CanonicalTransferJob>, String>,
) -> (r: Result<FfiTransferJobV2, EnvoixError>)
    ensures
        match r {
            Ok(job) => {
                &&& !is_blank(store_directory@)
                &&& decoded_job_id(job_id@) is Ok
                &&& loaded matches Ok(Some(engine)) && job@ == engine@
            },
            Err(error) => if is_blank(store_directory@) {
                error@ == (ErrorView::Operation { reason: "store_directory must not be empty"@ })
            } else {
                match decoded_job_id(job_id@) {
                    Err(refused) => error@ == refused,
                    Ok(_) => match loaded {
                        Ok(found) => found is None && error@ == (ErrorView::Operation {
                            reason: "transfer job was not found"@,
                        }),
                        Err(reason) => error@ == (ErrorView::Operation { reason: reason@ }),
                    },
                }
            },
        },
{
    if let Err(error) = restore_key(store_directory, job_id) {
        return Err(error);
    }
    match loaded {
        Ok(Some(job)) => Ok(FfiTransferJobV2 { job }),
        Ok(None) => Err(op_error("transfer job was not found")),
        Err(reason) => Err(op_err(reason)),
    }
}

/// The refusal of a job that was not sealed.
pub open spec fn unsealed_job() -> ErrorView {
    ErrorView::Operation { reason: "transfer job must be sealed by an explicit Send action"@ }
}

impl FfiTransferJobV2 {
    /// The job as the engine holds it, where it is sealed.
    pub fn clone_sealed_job(&self) -> (r: Result<CanonicalTransferJob, EnvoixError>)
        ensures
            match r {
                Ok(job) => self@.manifest is Some && job@ == self@,
                Err(error) => self@.manifest is None && error@ == unsealed_job(),
            },
    {
        if self.job.manifest.is_some() {
            Ok(self.job.clone())
        } else {
            Err(op_error("transfer job must be sealed by an explicit Send action"))
        }
    }

    /// The job as clients see it.
    pub fn snapshot(&self) -> (r: FfiTransferJobSnapshotV2)
        ensures
            r@ == snapshot_of(self@),
    {
        snapshot(&self.job)
    }

    /// Takes over what the engine made of an operation.
    pub fn settle(&mut self, outcome: JobOutcome) -> (r: Result<
        FfiTransferJobSnapshotV2,
        EnvoixError,
    >)
        ensures
            final(self)@ == outcome.job@,
            snapshot_result(r) == settled(outcome),
    {
        self.job = outcome.job;
        match outcome.failure {
            Some(reason) => Err(op_err(reason)),
            None => Ok(snapshot(&self.job)),
        }
    }

    /// Takes over local files and folders that were added and prepared.
    pub fn add_local_paths(&mut self, paths: &Vec<String>, outcome: JobOutcome) -> (r: Result<
        FfiTransferJobSnapshotV2,
        EnvoixError,
    >)
        ensures
            if paths@.len() == 0 || some_blank(text_seq(paths@)) {
                &&& final(self)@ == old(self)@
                &&& snapshot_result(r) == Err::<JobSnapshotView, ErrorView>(
                    ErrorView::Operation {
                        reason: "paths must contain at least one non-empty local path"@,
                    },
                )
            } else {
                &&& final(self)@ == outcome.job@
                &&& snapshot_result(r) == settled(outcome)
            },
    {
        match check_local_paths(paths) {
            Err(error) => Err(error),
            Ok(_) => self.settle(outcome),
        }
    }

    /// Takes over a staged file that was imported and prepared.
    pub fn import_transient_file(
        &mut self,
        source_path: &str,
        requested_name: &str,
        outcome: JobOutcome,
    ) -> (r: Result<FfiTransferJobSnapshotV2, EnvoixError>)
        ensures
            if is_blank(source_path@) || is_blank(requested_name@) {
                &&& final(self)@ == old(self)@
                &&& snapshot_result(r) == Err::<JobSnapshotView, ErrorView>(
                    ErrorView::Operation {
                        reason: "source_path and requested_name must not be empty"@,
                    },
                )
            } else {
                &&& final(self)@ == outcome.job@
                &&& snapshot_result(r) == settled(outcome)
            },
    {
        match check_transient_file(source_path, requested_name) {
            Err(error) => Err(error),
            Ok(_) => self.settle(outcome),
        }
    }

    /// Takes over staged roots that were attached.
    pub fn add_staged_provider_roots(
        &mut self,
        roots: &Vec<FfiStagedProviderRootV2>,
        outcome: JobOutcome,
    ) -> (r: Result<FfiTransferJobSnapshotV2, EnvoixError>)
        ensures
            if roots@.len() == 0 || some_root_blank(
                roots@.map_values(|x: FfiStagedProviderRootV2| x@),
            ) {
                &&& final(self)@ == old(self)@
                &&& snapshot_result(r) == Err::<JobSnapshotView, ErrorView>(
                    ErrorView::Operation {
                        reason: "staged roots must contain a path and requested name"@,
                    },
                )
            } else {
                &&& final(self)@ == outcome.job@
                &&& snapshot_result(r) == settled(outcome)
            },
    {
        match check_staged_roots(roots) {
            Err(error) => Err(error),
            Ok(_) => self.settle(outcome),
        }
    }

    /// Takes over a source that was staged anew.
    pub fn reauthorize_staged_provider_source(&mut self, source_path: &str, outcome: JobOutcome) -> (r:
        Result<FfiTransferJobSnapshotV2, EnvoixError>)
        ensures
            if is_blank(source_path@) {
                &&& final(self)@ == old(self)@
                &&& snapshot_result(r) == Err::<JobSnapshotView, ErrorView>(
                    ErrorView::Operation {
                        reason: "reauthorized provider path must not be empty"@,
                    },
                )
            } else {
                &&& final(self)@ == outcome.job@
                &&& snapshot_result(r) == settled(outcome)
            },
    {
        match check_reauthorized_path(source_path) {
            Err(error) => Err(error),
            Ok(_) => self.settle(outcome),
        }
    }

    /// Takes over a settled issue.
    pub fn resolve_source_issue(
        &mut self,
        decision: FfiSourceDecisionV2,
        reauthorized_path: &Option<String>,
        outcome: JobOutcome,
    ) -> (r: Result<FfiTransferJobSnapshotV2, EnvoixError>)
        ensures
            match core_decision_of(decision, text_option(*reauthorized_path)) {
                Err(error) => {
                    &&& final(self)@ == old(self)@
                    &&& snapshot_result(r) == Err::<JobSnapshotView, ErrorView>(error)
                },
                Ok(_) => {
                    &&& final(self)@ == outcome.job@
                    &&& snapshot_result(r) == settled(outcome)
                },
            },
    {
        match core_source_decision(decision, reauthorized_path) {
            Err(error) => Err(error),
            Ok(_) => self.settle(outcome),
        }
    }

    /// Takes over a changed compression policy.
    pub fn set_compression_policy(&mut self, outcome: JobOutcome) -> (r: Result<
        FfiTransferJobSnapshotV2,
        EnvoixError,
    >)
        ensures
            final(self)@ == outcome.job@,
            snapshot_result(r) == settled(outcome),
    {
        self.settle(outcome)
    }

    /// Takes over a canceled job.
    pub fn cancel_job(&mut self, outcome: JobOutcome) -> (r: Result<
        FfiTransferJobSnapshotV2,
        EnvoixError,
    >)
        ensures
            final(self)@ == outcome.job@,
            snapshot_result(r) == settled(outcome),
    {
        self.settle(outcome)
    }

    /// Whether the engine has to seal the job: a sealed job stays as it is.
    pub fn needs_seal(&self) -> (r: bool)
        ensures
            r == (self@.lifecycle != JobLifecycle::Sealed),
    {
        self.job.lifecycle != JobLifecycle::Sealed
    }

    /// Reports a sealed job. `digest` and `offer` are what the engine holds of
    /// it.
    pub fn seal_for_send(
        &mut self,
        outcome: JobOutcome,
        digest: &Option<Vec<u8>>,
        offer: &Option<Vec<u8>>,
    ) -> (r: Result<FfiManifestSealV2, EnvoixError>)
        ensures
            final(self)@ == outcome.job@,
            match r {
                Ok(seal) => outcome.failure is None && (*digest matches Some(d) && *offer matches Some(
                    o,
                ) && seal@ == (SealView {
                    job_id: hex_of(outcome.job@.job_id@),
                    selection_revision: outcome.job@.selection_revision,
                    structural_digest: d@,
                    offer_bytes: o@,
                })),
                Err(error) => match outcome.failure {
                    Some(reason) => error@ == (ErrorView::Operation { reason: reason@ }),
                    None => if *digest is None {
                        error@ == (ErrorView::Operation {
                            reason: "sealed transfer job is missing its structural digest"@,
                        })
                    } else {
                        *offer is None && error@ == (ErrorView::Operation {
                            reason: "sealed transfer job is missing its canonical offer"@,
                        })
                    },
                },
            },
    {
        self.job = outcome.job;
        if let Some(reason) = outcome.failure {
            return Err(op_err(reason));
        }
        match digest {
            None => Err(op_error("sealed transfer job is missing its structural digest")),
            Some(digest) => match offer {
                None => Err(op_error("sealed transfer job is missing its canonical offer")),
                Some(offer) => {
                    let structural_digest = digest.clone();
                    let offer_bytes = offer.clone();
                    assert(structural_digest@ =~= digest@);
                    assert(offer_bytes@ =~= offer@);
                    Ok(
                        FfiManifestSealV2 {
                            job_id: encode_job_id(&self.job.job_id),
                            selection_revision: self.job.selection_revision,
                            structural_digest,
                            offer_bytes,
                        },
                    )
                },
            },
        }
    }

    /// The roots of the inventory.
    pub fn list_roots(&self, roots: &Vec<InventoryItem>) -> (r: Vec<FfiInventoryItemV2>)
        ensures
            r@.map_values(|x: FfiInventoryItemV2| x@) == ffi_inventory_items_of(
                roots@.map_values(|x: InventoryItem| x@),
            ),
    {
        ffi_inventory_items(roots)
    }

    /// A page of children. `page` is what the engine gives for the checked
    /// place and limit.
    pub fn list_children(
        &self,
        cursor_revision: Option<u64>,
        cursor_offset: Option<u32>,
        page: &Result<InventoryPage, String>,
    ) -> (r: Result<FfiInventoryPageV2, EnvoixError>)
        ensures
            match cursor_of(cursor_revision, cursor_offset) {
                Err(error) => r matches Err(e) && e@ == error,
                Ok(_) => match *page {
                    Err(reason) => r matches Err(e) && e@ == (ErrorView::Operation {
                        reason: reason@,
                    }),
                    Ok(page) => r matches Ok(shown) && shown@ == (ItemPageView {
                        revision: page@.revision,
                        items: ffi_inventory_items_of(page@.items),
                        next_offset: match page@.next_cursor {
                            Some(cursor) => Some(cursor.offset),
                            None => None,
                        },
                    }),
                },
            },
    {
        if let Err(error) = inventory_cursor(cursor_revision, cursor_offset) {
            return Err(error);
        }
        match page {
            Err(reason) => Err(op_err(reason.clone())),
            Ok(page) => Ok(
                FfiInventoryPageV2 {
                    revision: page.revision,
                    items: ffi_inventory_items(&page.items),
                    next_offset: match page.next_cursor {
                        Some(cursor) => Some(cursor.offset),
                        None => None,
                    },
                },
            ),
        }
    }

    /// One item of the inventory.
    pub fn get_item(&self, item: &Option<InventoryItem>) -> (r: Option<FfiInventoryItemV2>)
        ensures
            (match r {
                Some(x) => Some(x@),
                None => None,
            }) == ffi_optional_inventory_item_of(
                match *item {
                    Some(x) => Some(x@),
                    None => None,
                },
            ),
    {
        ffi_optional_inventory_item(item)
    }
}

/// Nothing that a provider could not stage is lost on the way to the engine,
/// and clients see the same kind again.
pub proof fn provider_issues_keep_their_kind(kind: FfiProviderSourceIssueKindV2)
    ensures
        ffi_issue_kind_of(core_issue_kind_of(kind)) == (match kind {
            FfiProviderSourceIssueKindV2::PermissionDenied => FfiSourceIssueKindV2::PermissionDenied,
            FfiProviderSourceIssueKindV2::Unavailable => FfiSourceIssueKindV2::Unavailable,
            FfiProviderSourceIssueKindV2::InvalidName => FfiSourceIssueKindV2::InvalidName,
            FfiProviderSourceIssueKindV2::SpecialFile => FfiSourceIssueKindV2::SpecialFile,
        }),
{
}

/// Compression policies survive the trip through the engine.
pub proof fn compression_policies_round_trip(policy: FfiCompressionPolicyV2)
    ensures
        ffi_policy_of(core_policy_of(policy)) == policy,
{
}

/// Policies, states, origins and kinds of a job keep their names on the way to
/// clients and back.
pub proof fn job_values_keep_their_names(
    client_policy: FfiCompressionPolicyV2,
    policy: CompressionPolicyV2,
    lifecycle: JobLifecycle,
    state: SourceSelectionState,
    origin: FfiSourceOriginV2,
    issue: SourceIssueKind,
    provider_issue: FfiProviderSourceIssueKindV2,
    kind: ManifestEntryKindV2,
)
    ensures
        core_policy_of(client_policy) is Never <==> client_policy is Never,
        core_policy_of(client_policy) is Always <==> client_policy is Always,
        core_policy_of(client_policy) is Smart <==> client_policy is Smart,
        ffi_policy_of(policy) is Never <==> policy is Never,
        ffi_policy_of(policy) is Always <==> policy is Always,
        ffi_policy_of(policy) is Smart <==> policy is Smart,
        ffi_job_state_of(lifecycle) is Preparing <==> lifecycle is Preparing,
        ffi_job_state_of(lifecycle) is NeedsSourceDecision <==> lifecycle is NeedsSourceDecision,
        ffi_job_state_of(lifecycle) is ReadyToSend <==> lifecycle is ReadyToSend,
        ffi_job_state_of(lifecycle) is Sealed <==> lifecycle is Sealed,
        ffi_job_state_of(lifecycle) is Canceled <==> lifecycle is Canceled,
        ffi_selection_state_of(state) is Pending <==> state is Pending,
        ffi_selection_state_of(state) is Enumerating <==> state is Enumerating,
        ffi_selection_state_of(state) is NeedsDecision <==> state is NeedsDecision,
        ffi_selection_state_of(state) is Ready <==> state is Ready,
        core_origin_of(origin) is PhotosStaging <==> origin is Photos,
        core_origin_of(origin) is ShareStaging <==> origin is Share,
        core_origin_of(origin) is ContentUriStaging <==> origin is ContentUri,
        core_origin_of(origin) is FileProviderStaging <==> origin is FileProvider,
        ffi_issue_kind_of(issue) is PermissionDenied <==> issue is PermissionDenied,
        ffi_issue_kind_of(issue) is Unavailable <==> issue is Unavailable,
        ffi_issue_kind_of(issue) is InvalidName <==> issue is InvalidName,
        ffi_issue_kind_of(issue) is SymbolicLink <==> issue is SymbolicLink,
        ffi_issue_kind_of(issue) is SpecialFile <==> issue is SpecialFile,
        ffi_issue_kind_of(issue) is SourceChanged <==> issue is SourceChanged,
        ffi_issue_kind_of(issue) is DepthLimit <==> issue is DepthLimit,
        ffi_issue_kind_of(issue) is EntryLimit <==> issue is EntryLimit,
        core_issue_kind_of(provider_issue) is PermissionDenied <==> provider_issue is PermissionDenied,
        core_issue_kind_of(provider_issue) is Unavailable <==> provider_issue is Unavailable,
        core_issue_kind_of(provider_issue) is InvalidName <==> provider_issue is InvalidName,
        core_issue_kind_of(provider_issue) is SpecialFile <==> provider_issue is SpecialFile,
        ffi_item_kind_of(kind) is File <==> kind is RegularFile,
        ffi_item_kind_of(kind) is Directory <==> kind is Directory,
{
}

/// The engine form of a decision is the decision of the same name, whatever the
/// path is. Only a reauthorization reads the path, and it hands it on as it is;
/// without one it is refused.
pub proof fn decisions_keep_their_names(decision: FfiSourceDecisionV2, path: Option<Seq<char>>)
    ensures
        core_decision_of(decision, path) == Ok::<SourceDecisionView, ErrorView>(
            SourceDecisionView::CancelJob,
        ) <==> decision is CancelJob,
        core_decision_of(decision, path) == Ok::<SourceDecisionView, ErrorView>(
            SourceDecisionView::RemoveSelection,
        ) <==> decision is RemoveSelection,
        core_decision_of(decision, path) == Ok::<SourceDecisionView, ErrorView>(
            SourceDecisionView::ApprovePartial,
        ) <==> decision is ApprovePartial,
        core_decision_of(decision, path) is Err <==> decision is Reauthorize && (path is None
            || is_blank(path->0)),
        decision is Reauthorize && path is Some && !is_blank(path->0) ==> core_decision_of(
            decision,
            path,
        ) == Ok::<SourceDecisionView, ErrorView>(
            SourceDecisionView::Reauthorize { local_path: path->0 },
        ),
        core_decision_of(decision, path) matches Err(error) ==> error == (ErrorView::Operation {
            reason: "reauthorized_path is required for Reauthorize"@,
        }),
{
}

/// Distinct decisions have distinct engine forms.
pub proof fn decisions_are_told_apart(
    a: FfiSourceDecisionV2,
    b: FfiSourceDecisionV2,
    path: Option<Seq<char>>,
    other_path: Option<Seq<char>>,
)
    requires
        a != b,
    ensures
        core_decision_of(a, path) is Ok ==> core_decision_of(a, path) != core_decision_of(
            b,
            other_path,
        ),
{
}

/// A snapshot of a job shows what the job holds, selection by selection and in
/// their order.
pub proof fn snapshots_show_the_job(job: JobView, i: int)
    requires
        0 <= i < job.selections.len(),
    ensures
        snapshot_of(job).job_id == hex_of(job.job_id@),
        snapshot_of(job).selection_revision == job.selection_revision,
        snapshot_of(job).created_unix_ms == job.created_unix_ms,
        snapshot_of(job).updated_unix_ms == job.updated_unix_ms,
        snapshot_of(job).inventory == job.inventory,
        snapshot_of(job).selections.len() == job.selections.len(),
        snapshot_of(job).selections[i].root_item_id == job.selections[i].root_item_id,
        snapshot_of(job).selections[i].requested_name == job.selections[i].requested_name,
        snapshot_of(job).selections[i].partial_approved == job.selections[i].partial_approved,
        snapshot_of(job).selections[i].issues.len() == job.selections[i].issues.len(),
        forall|k: int|
            #![trigger job.selections[i].issues[k]]
            0 <= k < job.selections[i].issues.len() ==> snapshot_of(
                job,
            ).selections[i].issues[k].issue_id == job.selections[i].issues[k].issue_id
                && snapshot_of(job).selections[i].issues[k].relative_components
                == job.selections[i].issues[k].relative_components,
{
}

/// Two jobs are told apart by their snapshots: by their id, their lifecycle and
/// their compression policy.
pub proof fn snapshots_tell_jobs_apart(a: JobView, b: JobView)
    requires
        snapshot_of(a) == snapshot_of(b),
    ensures
        a.job_id@.len() == 16 && b.job_id@.len() == 16 ==> a.job_id@ == b.job_id@,
        a.lifecycle == b.lifecycle,
        a.compression_policy == b.compression_policy,
{
    if a.job_id@.len() == 16 && b.job_id@.len() == 16 {
        hex_round_trips(a.job_id@);
        hex_round_trips(b.job_id@);
    }
}

/// An item of an inventory is shown with its own ids, name, size and marks.
pub proof fn items_show_their_entry(item: EngineItemView)
    ensures
        ffi_item_of(item).item_id == item.item_id,
        ffi_item_of(item).root_item_id == item.root_item_id,
        ffi_item_of(item).parent_item_id == item.parent_item_id,
        ffi_item_of(item).name == item.name,
        ffi_item_of(item).plaintext_size == item.plaintext_size,
        ffi_item_of(item).digest_known == item.digest_known,
        ffi_item_of(item).has_warning == item.has_warning,
        ffi_optional_inventory_item_of(Some(item)) == Some(ffi_item_of(item)),
        ffi_optional_inventory_item_of(None) is None,
{
}

/// Provider issues reach the engine one for one, each with its own place.
pub proof fn provider_issues_keep_their_place(issues: Seq<ProviderIssueView>, i: int)
    requires
        0 <= i < issues.len(),
    ensures
        core_provider_issues_of(issues).len() == issues.len(),
        core_provider_issues_of(issues)[i].relative_components == issues[i].relative_components,
        core_provider_issues_of(issues)[i].kind == core_issue_kind_of(issues[i].kind),
{
}

/// A page starts where its cursor says, with both halves of the cursor or with
/// none of them.
pub proof fn cursors_are_whole(revision: Option<u64>, offset: Option<u32>)
    ensures
        cursor_of(revision, offset) is Ok <==> (revision is Some <==> offset is Some),
        revision is None && offset is None ==> cursor_of(revision, offset) == Ok::<
            Option<InventoryCursor>,
            ErrorView,
        >(None),
        revision is Some && offset is Some ==> cursor_of(revision, offset) == Ok::<
            Option<InventoryCursor>,
            ErrorView,
        >(Some(InventoryCursor { revision: revision->0, offset: offset->0 })),
{
}

/// A job is listed as a preparation exactly while it has selections and is
/// neither sealed nor canceled.
pub proof fn preparations_are_open_jobs(job: JobView)
    ensures
        is_preparation(job) <==> job.selections.len() > 0 && !(job.lifecycle is Sealed) && !(
        job.lifecycle is Canceled),
{
}

/// Every open preparation is listed, and nothing else is.
pub proof fn preparations_list_the_open_jobs(jobs: Seq<JobView>, snapshot: JobSnapshotView)
    ensures
        preparations(jobs).contains(snapshot) <==> exists|i: int|
            0 <= i < jobs.len() && is_preparation(#[trigger] jobs[i]) && snapshot_of(jobs[i])
                == snapshot,
        preparations(jobs).len() <= jobs.len(),
    decreases jobs.len(),
{
    if jobs.len() > 0 {
        let before = jobs.drop_last();
        preparations_list_the_open_jobs(before, snapshot);
        let listed = preparations(before);
        let last = snapshot_of(jobs.last());
        assert(is_preparation(jobs.last()) ==> listed.push(last)[listed.len() as int] == last);
        if listed.contains(snapshot) {
            let k = choose|k: int| 0 <= k < listed.len() && listed[k] == snapshot;
            assert(is_preparation(jobs.last()) ==> listed.push(last)[k] == snapshot);
            let i = choose|i: int|
                0 <= i < before.len() && is_preparation(#[trigger] before[i]) && snapshot_of(
                    before[i],
                ) == snapshot;
            assert(jobs[i] == before[i]);
        }
        if preparations(jobs).contains(snapshot) {
            let k = choose|k: int|
                0 <= k < preparations(jobs).len() && preparations(jobs)[k] == snapshot;
            if is_preparation(jobs.last()) && k == listed.len() {
                assert(jobs[jobs.len() - 1] == jobs.last());
            } else {
                assert(listed[k] == snapshot);
            }
        }
        if exists|i: int|
            0 <= i < jobs.len() && is_preparation(#[trigger] jobs[i]) && snapshot_of(jobs[i])
                == snapshot {
            let i = choose|i: int|
                0 <= i < jobs.len() && is_preparation(#[trigger] jobs[i]) && snapshot_of(jobs[i])
                    == snapshot;
            if i < before.len() {
                assert(before[i] == jobs[i]);
            }
        }
    }
}

/// A step of the engine is answered with its own failure, else with the snapshot
/// of the job that it left.
pub proof fn steps_answer_with_the_job_they_left(outcome: JobOutcome)
    ensures
        settled(outcome) is Ok <==> outcome.failure is None,
        outcome.failure is None ==> settled(outcome) == Ok::<JobSnapshotView, ErrorView>(
            snapshot_of(outcome.job@),
        ),
        outcome.failure matches Some(reason) ==> settled(outcome) == Err::<
            JobSnapshotView,
            ErrorView,
        >(ErrorView::Operation { reason: reason@ }),
{
}

/// A job id is accepted exactly where it is the text of sixteen bytes that are
/// not all zero.
pub proof fn only_whole_job_ids_are_accepted(value: Seq<char>)
    ensures
        decoded_job_id(value) is Ok <==> value.len() == 32 && is_hex_text(value) && !all_zero(
            unhexed(value),
        ),
        decoded_job_id(value) matches Ok(id) ==> id == unhexed(value),
{
}

/// A check fails exactly where something is wrong, with its own reason.
pub proof fn checks_fail_with_their_reason(wrong: bool, reason: Seq<char>)
    ensures
        refused_if(wrong, reason) is Some <==> wrong,
        wrong ==> refused_if(wrong, reason) == Some(ErrorView::Operation { reason }),
        unsealed_job() == (ErrorView::Operation {
            reason: "transfer job must be sealed by an explicit Send action"@,
        }),
{
}

/// A list has a blank exactly where one of its texts is, and a list of roots where
/// one has a blank path or name.
pub proof fn blanks_are_found_anywhere(texts: Seq<Seq<char>>, roots: Seq<StagedRootView>, i: int)
    ensures
        0 <= i < texts.len() && is_blank(texts[i]) ==> some_blank(texts),
        0 <= i < roots.len() && is_blank(roots[i].path) ==> some_root_blank(roots),
        0 <= i < roots.len() && is_blank(roots[i].requested_name) ==> some_root_blank(roots),
        !some_blank(texts) && 0 <= i < texts.len() ==> !is_blank(texts[i]),
        !some_root_blank(roots) && 0 <= i < roots.len() ==> !is_blank(roots[i].path) && !is_blank(
            roots[i].requested_name,
        ),
        texts.len() == 0 ==> !some_blank(texts),
        roots.len() == 0 ==> !some_root_blank(roots),
{
}

/// What the engine answered is what clients get, or its error.
pub proof fn job_answers_are_passed_on(snapshot: FfiTransferJobSnapshotV2, error: EnvoixError)
    ensures
        snapshot_result(Ok(snapshot)) == Ok::<JobSnapshotView, ErrorView>(snapshot@),
        snapshot_result(Err(error)) == Err::<JobSnapshotView, ErrorView>(error@),
        check_of(Ok(())) is None,
        check_of(Err(error)) == Some(error@),
{
}

} // verus!
