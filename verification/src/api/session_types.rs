//! Records of Manifest v2 sessions: offers, destinations, completions, the
//! calls that an observer gets, and what the engine hands over.
use vstd::prelude::*;

use crate::api::failures::{FailureVerdict, SessionError};
use crate::api::job::{JobIdV2, ManifestEntryKindV2};
use crate::api::types::{
    FailureView, FfiConnectionPathEvent, FfiManifestV2Phase, FfiTransferFailure,
    FfiTransferStageTiming, StageTimingView,
};
use crate::text::{text_option, text_seq};

verus! {

broadcast use vstd::seq_lib::group_seq_properties;

/// Kind of an entry.
#[derive(Clone, Copy, Debug, PartialEq, Eq, Structural)]
pub enum FfiManifestEntryKindV2 {
    File,
    Directory,
}

/// How received content reaches its destination.
#[derive(Clone, Copy, Debug, PartialEq, Eq, Structural)]
pub enum FfiDestinationDecisionV2 {
    SaveDirectly,
    CopyAfterVerify,
}

/// An offer that waits for a destination.
#[derive(Debug, PartialEq, Eq)]
pub struct FfiManifestOfferSummaryV2 {
    pub job_id: String,
    pub generation: u32,
    pub selection_revision: u64,
    pub root_count: u32,
    pub file_count: u32,
    pub directory_count: u32,
    pub total_plaintext_bytes: u64,
    pub exceptional_offer: bool,
}

/// What a [`FfiManifestOfferSummaryV2`] holds.
#[verifier::ext_equal]
pub struct OfferSummaryView {
    pub job_id: Seq<char>,
    pub generation: u32,
    pub selection_revision: u64,
    pub root_count: u32,
    pub file_count: u32,
    pub directory_count: u32,
    pub total_plaintext_bytes: u64,
    pub exceptional_offer: bool,
}

impl View for FfiManifestOfferSummaryV2 {
    type V = OfferSummaryView;

    open spec fn view(&self) -> OfferSummaryView {
        OfferSummaryView {
            job_id: self.job_id@,
            generation: self.generation,
            selection_revision: self.selection_revision,
            root_count: self.root_count,
            file_count: self.file_count,
            directory_count: self.directory_count,
            total_plaintext_bytes: self.total_plaintext_bytes,
            exceptional_offer: self.exceptional_offer,
        }
    }
}

impl Clone for FfiManifestOfferSummaryV2 {
    fn clone(&self) -> (r: Self)
        ensures
            r == *self,
    {
        FfiManifestOfferSummaryV2 {
            job_id: self.job_id.clone(),
            generation: self.generation,
            selection_revision: self.selection_revision,
            root_count: self.root_count,
            file_count: self.file_count,
            directory_count: self.directory_count,
            total_plaintext_bytes: self.total_plaintext_bytes,
            exceptional_offer: self.exceptional_offer,
        }
    }
}

/// An entry of an offer.
#[derive(Debug, PartialEq, Eq)]
pub struct FfiManifestOfferEntryV2 {
    pub entry_id: u32,
    pub root_id: u32,
    pub parent_entry_id: Option<u32>,
    pub name: String,
    pub kind: FfiManifestEntryKindV2,
    pub plaintext_size: u64,
    pub digest_known: bool,
}

/// What a [`FfiManifestOfferEntryV2`] holds.
#[verifier::ext_equal]
pub struct OfferEntryView {
    pub entry_id: u32,
    pub root_id: u32,
    pub parent_entry_id: Option<u32>,
    pub name: Seq<char>,
    pub kind: FfiManifestEntryKindV2,
    pub plaintext_size: u64,
    pub digest_known: bool,
}

impl View for FfiManifestOfferEntryV2 {
    type V = OfferEntryView;

    open spec fn view(&self) -> OfferEntryView {
        OfferEntryView {
            entry_id: self.entry_id,
            root_id: self.root_id,
            parent_entry_id: self.parent_entry_id,
            name: self.name@,
            kind: self.kind,
            plaintext_size: self.plaintext_size,
            digest_known: self.digest_known,
        }
    }
}

impl Clone for FfiManifestOfferEntryV2 {
    fn clone(&self) -> (r: Self)
        ensures
            r == *self,
    {
        FfiManifestOfferEntryV2 {
            entry_id: self.entry_id,
            root_id: self.root_id,
            parent_entry_id: self.parent_entry_id,
            name: self.name.clone(),
            kind: self.kind,
            plaintext_size: self.plaintext_size,
            digest_known: self.digest_known,
        }
    }
}

/// A page of the entries of an offer.
#[derive(Debug, PartialEq, Eq)]
pub struct FfiManifestOfferPageV2 {
    pub entries: Vec<FfiManifestOfferEntryV2>,
    pub next_offset: Option<u32>,
}

/// What a [`FfiManifestOfferPageV2`] holds.
#[verifier::ext_equal]
pub struct OfferPageView {
    pub entries: Seq<OfferEntryView>,
    pub next_offset: Option<u32>,
}

impl View for FfiManifestOfferPageV2 {
    type V = OfferPageView;

    open spec fn view(&self) -> OfferPageView {
        OfferPageView {
            entries: self.entries@.map_values(|x: FfiManifestOfferEntryV2| x@),
            next_offset: self.next_offset,
        }
    }
}

impl Clone for FfiManifestOfferPageV2 {
    fn clone(&self) -> (r: Self)
        ensures
            r@ == self@,
    {
        let r = FfiManifestOfferPageV2 {
            entries: self.entries.clone(),
            next_offset: self.next_offset,
        };
        assert(r@.entries =~= self@.entries);
        r
    }
}

/// A finished transfer.
#[derive(Debug, PartialEq, Eq)]
pub struct FfiManifestV2Completion {
    pub job_id: String,
    pub entry_count: u32,
    pub total_plaintext_bytes: u64,
    pub delivery_proof_digest: Vec<u8>,
    /// Final paths of the roots on the receiver; empty on the sender.
    pub saved_paths: Vec<String>,
}

/// What a [`FfiManifestV2Completion`] holds.
#[verifier::ext_equal]
pub struct CompletionView {
    pub job_id: Seq<char>,
    pub entry_count: u32,
    pub total_plaintext_bytes: u64,
    pub delivery_proof_digest: Seq<u8>,
    pub saved_paths: Seq<Seq<char>>,
}

impl View for FfiManifestV2Completion {
    type V = CompletionView;

    open spec fn view(&self) -> CompletionView {
        CompletionView {
            job_id: self.job_id@,
            entry_count: self.entry_count,
            total_plaintext_bytes: self.total_plaintext_bytes,
            delivery_proof_digest: self.delivery_proof_digest@,
            saved_paths: text_seq(self.saved_paths@),
        }
    }
}

impl Clone for FfiManifestV2Completion {
    fn clone(&self) -> (r: Self)
        ensures
            r@ == self@,
    {
        let r = FfiManifestV2Completion {
            job_id: self.job_id.clone(),
            entry_count: self.entry_count,
            total_plaintext_bytes: self.total_plaintext_bytes,
            delivery_proof_digest: self.delivery_proof_digest.clone(),
            saved_paths: self.saved_paths.clone(),
        };
        assert(r.delivery_proof_digest@ =~= self.delivery_proof_digest@);
        assert(text_seq(r.saved_paths@) =~= text_seq(self.saved_paths@));
        r
    }
}

/// Where an offer is to be saved.
#[derive(Debug, PartialEq, Eq)]
pub struct FfiDestinationRequestV2 {
    pub target_directory: String,
    pub copy_staging_directory: Option<String>,
    pub decision: FfiDestinationDecisionV2,
    pub target_allocatable_bytes: Option<u64>,
    pub staging_allocatable_bytes: Option<u64>,
    pub stable_object_identity: bool,
    pub exceptional_transfer_approved: bool,
}

/// What a [`FfiDestinationRequestV2`] holds.
#[verifier::ext_equal]
pub struct DestinationChoiceView {
    pub target_directory: Seq<char>,
    pub copy_staging_directory: Option<Seq<char>>,
    pub decision: FfiDestinationDecisionV2,
    pub target_allocatable_bytes: Option<u64>,
    pub staging_allocatable_bytes: Option<u64>,
    pub stable_object_identity: bool,
    pub exceptional_transfer_approved: bool,
}

impl View for FfiDestinationRequestV2 {
    type V = DestinationChoiceView;

    open spec fn view(&self) -> DestinationChoiceView {
        DestinationChoiceView {
            target_directory: self.target_directory@,
            copy_staging_directory: text_option(self.copy_staging_directory),
            decision: self.decision,
            target_allocatable_bytes: self.target_allocatable_bytes,
            staging_allocatable_bytes: self.staging_allocatable_bytes,
            stable_object_identity: self.stable_object_identity,
            exceptional_transfer_approved: self.exceptional_transfer_approved,
        }
    }
}

impl Clone for FfiDestinationRequestV2 {
    fn clone(&self) -> (r: Self)
        ensures
            r == *self,
    {
        FfiDestinationRequestV2 {
            target_directory: self.target_directory.clone(),
            copy_staging_directory: self.copy_staging_directory.clone(),
            decision: self.decision,
            target_allocatable_bytes: self.target_allocatable_bytes,
            staging_allocatable_bytes: self.staging_allocatable_bytes,
            stable_object_identity: self.stable_object_identity,
            exceptional_transfer_approved: self.exceptional_transfer_approved,
        }
    }
}

/// A call that the observer of a transfer gets.
#[derive(Debug, PartialEq, Eq)]
pub enum ObserverCall {
    InviteReady { invite: String },
    Started { item_count: u32, total_bytes: u64 },
    Phase { phase: FfiManifestV2Phase },
    Progress { transferred: u64, total: u64 },
    Completed { bytes: u64 },
    Failed { failure: FfiTransferFailure },
    ConnectionPath { path: FfiConnectionPathEvent },
    StageTiming { timing: FfiTransferStageTiming },
    Diagnostic { message: String },
}

/// What a [`ObserverCall`] holds.
#[verifier::ext_equal]
pub enum ObserverCallView {
    InviteReady { invite: Seq<char> },
    Started { item_count: u32, total_bytes: u64 },
    Phase { phase: FfiManifestV2Phase },
    Progress { transferred: u64, total: u64 },
    Completed { bytes: u64 },
    Failed { failure: FailureView },
    ConnectionPath { path: FfiConnectionPathEvent },
    StageTiming { timing: StageTimingView },
    Diagnostic { message: Seq<char> },
}

impl View for ObserverCall {
    type V = ObserverCallView;

    open spec fn view(&self) -> ObserverCallView {
        match *self {
            ObserverCall::InviteReady { invite } => ObserverCallView::InviteReady { invite: invite@ },
            ObserverCall::Started { item_count, total_bytes } => ObserverCallView::Started { item_count, total_bytes },
            ObserverCall::Phase { phase } => ObserverCallView::Phase { phase },
            ObserverCall::Progress { transferred, total } => ObserverCallView::Progress { transferred, total },
            ObserverCall::Completed { bytes } => ObserverCallView::Completed { bytes },
            ObserverCall::Failed { failure } => ObserverCallView::Failed { failure: failure@ },
            ObserverCall::ConnectionPath { path } => ObserverCallView::ConnectionPath { path },
            ObserverCall::StageTiming { timing } => ObserverCallView::StageTiming { timing: timing@ },
            ObserverCall::Diagnostic { message } => ObserverCallView::Diagnostic { message: message@ },
        }
    }
}

impl Clone for ObserverCall {
    fn clone(&self) -> (r: Self)
        ensures
            r == *self,
    {
        match self {
            ObserverCall::InviteReady { invite } => ObserverCall::InviteReady { invite: invite.clone() },
            ObserverCall::Started { item_count, total_bytes } => ObserverCall::Started { item_count: *item_count, total_bytes: *total_bytes },
            ObserverCall::Phase { phase } => ObserverCall::Phase { phase: *phase },
            ObserverCall::Progress { transferred, total } => ObserverCall::Progress { transferred: *transferred, total: *total },
            ObserverCall::Completed { bytes } => ObserverCall::Completed { bytes: *bytes },
            ObserverCall::Failed { failure } => ObserverCall::Failed { failure: failure.clone() },
            ObserverCall::ConnectionPath { path } => ObserverCall::ConnectionPath { path: *path },
            ObserverCall::StageTiming { timing } => ObserverCall::StageTiming { timing: timing.clone() },
            ObserverCall::Diagnostic { message } => ObserverCall::Diagnostic { message: message.clone() },
        }
    }
}

/// Observer of one transfer.
pub trait TransferObserver {
    fn on_invite_ready(&self, invite: String);

    fn on_started(&self, item_count: u32, total_bytes: u64);

    fn on_phase(&self, phase: FfiManifestV2Phase);

    fn on_progress(&self, transferred: u64, total: u64);

    fn on_completed(&self, bytes: u64);

    fn on_transfer_failed(&self, failure: FfiTransferFailure);

    fn on_connection_path(&self, event: FfiConnectionPathEvent);

    fn on_stage_timing(&self, event: FfiTransferStageTiming);

    fn on_diagnostic(&self, message: String);

    /// Called only at the authenticated persistence boundary. Implementations
    /// store the bytes at once and never project or log them.
    fn on_remembered_credential(&self, opaque_credential: Vec<u8>, generation: u64) -> bool;
}

/// How received content reaches its destination.
#[derive(Clone, Copy, Debug, PartialEq, Eq, Structural)]
pub enum DestinationDecisionV2 {
    UseDirectSave,
    ContinueWithCopyAfterVerify,
}

/// The name that a root will have.
#[derive(Debug, PartialEq, Eq)]
pub struct RootPlanV2 {
    pub root_id: u32,
    pub planned_name: String,
}

/// What a [`RootPlanV2`] holds.
#[verifier::ext_equal]
pub struct RootPlanView {
    pub root_id: u32,
    pub planned_name: Seq<char>,
}

impl View for RootPlanV2 {
    type V = RootPlanView;

    open spec fn view(&self) -> RootPlanView {
        RootPlanView {
            root_id: self.root_id,
            planned_name: self.planned_name@,
        }
    }
}

impl Clone for RootPlanV2 {
    fn clone(&self) -> (r: Self)
        ensures
            r == *self,
    {
        RootPlanV2 {
            root_id: self.root_id,
            planned_name: self.planned_name.clone(),
        }
    }
}

/// The names that the roots will have.
#[derive(Debug, PartialEq, Eq)]
pub struct RootPlans {
    pub plans: Vec<RootPlanV2>,
}

/// What a [`RootPlans`] holds.
#[verifier::ext_equal]
pub struct RootPlansView {
    pub plans: Seq<RootPlanView>,
}

impl View for RootPlans {
    type V = RootPlansView;

    open spec fn view(&self) -> RootPlansView {
        RootPlansView {
            plans: self.plans@.map_values(|x: RootPlanV2| x@),
        }
    }
}

impl Clone for RootPlans {
    fn clone(&self) -> (r: Self)
        ensures
            r@ == self@,
    {
        let r = RootPlans {
            plans: self.plans.clone(),
        };
        assert(r@.plans =~= self@.plans);
        r
    }
}

/// Where the engine is to save an offer.
#[derive(Debug, PartialEq, Eq)]
pub struct DestinationRequestV2 {
    pub target_directory: String,
    pub copy_staging_directory: Option<String>,
    pub decision: DestinationDecisionV2,
    pub target_allocatable_bytes: Option<u64>,
    pub staging_allocatable_bytes: Option<u64>,
    pub stable_object_identity: bool,
    pub exceptional_transfer_approved: bool,
    pub preplanned_root_names: Option<RootPlans>,
}

/// What a [`DestinationRequestV2`] holds.
#[verifier::ext_equal]
pub struct DestinationView {
    pub target_directory: Seq<char>,
    pub copy_staging_directory: Option<Seq<char>>,
    pub decision: DestinationDecisionV2,
    pub target_allocatable_bytes: Option<u64>,
    pub staging_allocatable_bytes: Option<u64>,
    pub stable_object_identity: bool,
    pub exceptional_transfer_approved: bool,
    pub preplanned_root_names: Option<RootPlansView>,
}

impl View for DestinationRequestV2 {
    type V = DestinationView;

    open spec fn view(&self) -> DestinationView {
        DestinationView {
            target_directory: self.target_directory@,
            copy_staging_directory: text_option(self.copy_staging_directory),
            decision: self.decision,
            target_allocatable_bytes: self.target_allocatable_bytes,
            staging_allocatable_bytes: self.staging_allocatable_bytes,
            stable_object_identity: self.stable_object_identity,
            exceptional_transfer_approved: self.exceptional_transfer_approved,
            preplanned_root_names: match self.preplanned_root_names { Some(x) => Some(x@), None => None },
        }
    }
}

impl Clone for DestinationRequestV2 {
    fn clone(&self) -> (r: Self)
        ensures
            r@ == self@,
    {
        let r = DestinationRequestV2 {
            target_directory: self.target_directory.clone(),
            copy_staging_directory: self.copy_staging_directory.clone(),
            decision: self.decision,
            target_allocatable_bytes: self.target_allocatable_bytes,
            staging_allocatable_bytes: self.staging_allocatable_bytes,
            stable_object_identity: self.stable_object_identity,
            exceptional_transfer_approved: self.exceptional_transfer_approved,
            preplanned_root_names: self.preplanned_root_names.clone(),
        };
        r
    }
}

/// Totals of a manifest.
#[derive(Clone, Copy, Debug, PartialEq, Eq, Structural)]
pub struct ManifestTotalsV2 {
    pub file_count: u32,
    pub directory_count: u32,
    pub total_plaintext_bytes: u64,
}

/// A root of a manifest.
#[derive(Debug, PartialEq, Eq)]
pub struct ManifestRootV2 {
    pub root_id: u32,
    pub root_entry_id: u32,
    pub requested_name: String,
}

/// What a [`ManifestRootV2`] holds.
#[verifier::ext_equal]
pub struct ManifestRootView {
    pub root_id: u32,
    pub root_entry_id: u32,
    pub requested_name: Seq<char>,
}

impl View for ManifestRootV2 {
    type V = ManifestRootView;

    open spec fn view(&self) -> ManifestRootView {
        ManifestRootView {
            root_id: self.root_id,
            root_entry_id: self.root_entry_id,
            requested_name: self.requested_name@,
        }
    }
}

impl Clone for ManifestRootV2 {
    fn clone(&self) -> (r: Self)
        ensures
            r == *self,
    {
        ManifestRootV2 {
            root_id: self.root_id,
            root_entry_id: self.root_entry_id,
            requested_name: self.requested_name.clone(),
        }
    }
}

/// An entry of a manifest.
#[derive(Debug, PartialEq, Eq)]
pub struct ManifestEntryV2 {
    pub entry_id: u32,
    pub root_id: u32,
    pub parent_entry_id: Option<u32>,
    pub component: String,
    pub kind: ManifestEntryKindV2,
    pub plaintext_size: u64,
    pub digest_known: bool,
}

/// What a [`ManifestEntryV2`] holds.
#[verifier::ext_equal]
pub struct ManifestEntryView {
    pub entry_id: u32,
    pub root_id: u32,
    pub parent_entry_id: Option<u32>,
    pub component: Seq<char>,
    pub kind: ManifestEntryKindV2,
    pub plaintext_size: u64,
    pub digest_known: bool,
}

impl View for ManifestEntryV2 {
    type V = ManifestEntryView;

    open spec fn view(&self) -> ManifestEntryView {
        ManifestEntryView {
            entry_id: self.entry_id,
            root_id: self.root_id,
            parent_entry_id: self.parent_entry_id,
            component: self.component@,
            kind: self.kind,
            plaintext_size: self.plaintext_size,
            digest_known: self.digest_known,
        }
    }
}

impl Clone for ManifestEntryV2 {
    fn clone(&self) -> (r: Self)
        ensures
            r == *self,
    {
        ManifestEntryV2 {
            entry_id: self.entry_id,
            root_id: self.root_id,
            parent_entry_id: self.parent_entry_id,
            component: self.component.clone(),
            kind: self.kind,
            plaintext_size: self.plaintext_size,
            digest_known: self.digest_known,
        }
    }
}

/// What a transfer consists of.
#[derive(Debug, PartialEq, Eq)]
pub struct ManifestV2 {
    pub job_id: JobIdV2,
    pub generation: u32,
    pub selection_revision: u64,
    pub roots: Vec<ManifestRootV2>,
    pub entries: Vec<ManifestEntryV2>,
    pub totals: ManifestTotalsV2,
}

/// What a [`ManifestV2`] holds.
#[verifier::ext_equal]
pub struct ManifestView {
    pub job_id: JobIdV2,
    pub generation: u32,
    pub selection_revision: u64,
    pub roots: Seq<ManifestRootView>,
    pub entries: Seq<ManifestEntryView>,
    pub totals: ManifestTotalsV2,
}

impl View for ManifestV2 {
    type V = ManifestView;

    open spec fn view(&self) -> ManifestView {
        ManifestView {
            job_id: self.job_id,
            generation: self.generation,
            selection_revision: self.selection_revision,
            roots: self.roots@.map_values(|x: ManifestRootV2| x@),
            entries: self.entries@.map_values(|x: ManifestEntryV2| x@),
            totals: self.totals,
        }
    }
}

impl Clone for ManifestV2 {
    fn clone(&self) -> (r: Self)
        ensures
            r@ == self@,
    {
        let r = ManifestV2 {
            job_id: self.job_id,
            generation: self.generation,
            selection_revision: self.selection_revision,
            roots: self.roots.clone(),
            entries: self.entries.clone(),
            totals: self.totals,
        };
        assert(r@.roots =~= self@.roots);
        assert(r@.entries =~= self@.entries);
        r
    }
}

/// Step of a pairing.
#[derive(Clone, Copy, Debug, PartialEq, Eq, Structural)]
pub enum PairingStep {
    Joining,
    Matched,
    Exchanged,
}

/// A data path with its endpoint.
#[derive(Debug, PartialEq, Eq)]
pub enum DataPath {
    Direct { addr: String },
    Relay { url: String },
    Other { description: String },
}

/// What a [`DataPath`] holds.
#[verifier::ext_equal]
pub enum DataPathView {
    Direct { addr: Seq<char> },
    Relay { url: Seq<char> },
    Other { description: Seq<char> },
}

impl View for DataPath {
    type V = DataPathView;

    open spec fn view(&self) -> DataPathView {
        match *self {
            DataPath::Direct { addr } => DataPathView::Direct { addr: addr@ },
            DataPath::Relay { url } => DataPathView::Relay { url: url@ },
            DataPath::Other { description } => DataPathView::Other { description: description@ },
        }
    }
}

impl Clone for DataPath {
    fn clone(&self) -> (r: Self)
        ensures
            r == *self,
    {
        match self {
            DataPath::Direct { addr } => DataPath::Direct { addr: addr.clone() },
            DataPath::Relay { url } => DataPath::Relay { url: url.clone() },
            DataPath::Other { description } => DataPath::Other { description: description.clone() },
        }
    }
}

/// Phase of a running transfer.
#[derive(Clone, Copy, Debug, PartialEq, Eq, Structural)]
pub enum ManifestV2ProgressPhase {
    Transferring,
    Verifying,
    Saving,
    WaitingForReceiverSave,
    FinalizingDelivery,
}

/// An event of a running session.
#[derive(Debug, PartialEq, Eq)]
pub enum TransferEvent {
    Diagnostic { message: String },
    Pairing { step: PairingStep },
    Connecting,
    Connected { path: DataPath },
    PathChanged { path: DataPath },
    Progress { bytes_transferred: u64, total_bytes: u64 },
    ManifestV2Phase { phase: ManifestV2ProgressPhase },
}

/// What a [`TransferEvent`] holds.
#[verifier::ext_equal]
pub enum SessionEventView {
    Diagnostic { message: Seq<char> },
    Pairing { step: PairingStep },
    Connecting,
    Connected { path: DataPathView },
    PathChanged { path: DataPathView },
    Progress { bytes_transferred: u64, total_bytes: u64 },
    ManifestV2Phase { phase: ManifestV2ProgressPhase },
}

impl View for TransferEvent {
    type V = SessionEventView;

    open spec fn view(&self) -> SessionEventView {
        match *self {
            TransferEvent::Diagnostic { message } => SessionEventView::Diagnostic { message: message@ },
            TransferEvent::Pairing { step } => SessionEventView::Pairing { step },
            TransferEvent::Connecting => SessionEventView::Connecting,
            TransferEvent::Connected { path } => SessionEventView::Connected { path: path@ },
            TransferEvent::PathChanged { path } => SessionEventView::PathChanged { path: path@ },
            TransferEvent::Progress { bytes_transferred, total_bytes } => SessionEventView::Progress { bytes_transferred, total_bytes },
            TransferEvent::ManifestV2Phase { phase } => SessionEventView::ManifestV2Phase { phase },
        }
    }
}

impl Clone for TransferEvent {
    fn clone(&self) -> (r: Self)
        ensures
            r == *self,
    {
        match self {
            TransferEvent::Diagnostic { message } => TransferEvent::Diagnostic { message: message.clone() },
            TransferEvent::Pairing { step } => TransferEvent::Pairing { step: *step },
            TransferEvent::Connecting => TransferEvent::Connecting,
            TransferEvent::Connected { path } => TransferEvent::Connected { path: path.clone() },
            TransferEvent::PathChanged { path } => TransferEvent::PathChanged { path: path.clone() },
            TransferEvent::Progress { bytes_transferred, total_bytes } => TransferEvent::Progress { bytes_transferred: *bytes_transferred, total_bytes: *total_bytes },
            TransferEvent::ManifestV2Phase { phase } => TransferEvent::ManifestV2Phase { phase: *phase },
        }
    }
}

/// What the engine says of a finished session.
#[derive(Debug, PartialEq, Eq)]
pub struct SessionSummary {
    pub entry_result_count: usize,
    pub delivery_proof_digest: Vec<u8>,
}

/// What a [`SessionSummary`] holds.
#[verifier::ext_equal]
pub struct SummaryView {
    pub entry_result_count: usize,
    pub delivery_proof_digest: Seq<u8>,
}

impl View for SessionSummary {
    type V = SummaryView;

    open spec fn view(&self) -> SummaryView {
        SummaryView {
            entry_result_count: self.entry_result_count,
            delivery_proof_digest: self.delivery_proof_digest@,
        }
    }
}

impl Clone for SessionSummary {
    fn clone(&self) -> (r: Self)
        ensures
            r@ == self@,
    {
        let r = SessionSummary {
            entry_result_count: self.entry_result_count,
            delivery_proof_digest: self.delivery_proof_digest.clone(),
        };
        assert(r.delivery_proof_digest@ =~= self.delivery_proof_digest@);
        r
    }
}

/// A failed session with the engine's text of its error.
pub struct RenderedError {
    pub error: SessionError,
    pub rendered: String,
}

/// A failed session with what the engine says becomes of it.
pub struct JudgedError {
    pub failure: RenderedError,
    pub verdict: FailureVerdict,
}

} // verus!
