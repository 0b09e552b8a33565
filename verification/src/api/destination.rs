//! Destinations that the platform owns. The verified private staging tree and
//! the authority to deliver stay with this library: the platform freezes
//! public root names before payload flows, and saves under those names before
//! results or the delivery proof are sent.
use vstd::prelude::*;
use vstd::string::*;
use vstd::utf8::encode_utf8;

use crate::api::failures::{SessionCause, SessionCauseView, SessionError, SessionErrorView};
use crate::api::job::encode_job_id;
use crate::api::session::{ffi_entry_kind, ffi_entry_kind_of};
use crate::api::session_types::{
    DestinationDecisionV2, DestinationRequestV2, DestinationView, FfiManifestEntryKindV2,
    ManifestRootV2, ManifestRootView, ManifestV2, ManifestView, RootPlanV2, RootPlanView,
    RootPlans, RootPlansView,
};
use crate::hex::hex_of;
use crate::paths::{is_joined_path, path_join};
use crate::text::{
    byte_len, char_list, is_blank, is_control, joined, same_text, text_option, text_seq,
};

verus! {

broadcast use vstd::seq_lib::group_seq_properties;

/// Where verified content waits for the platform.
#[derive(Debug, PartialEq, Eq)]
pub struct FfiPlatformReceiveDestinationV2 {
    pub verified_staging_directory: String,
    pub verified_staging_allocatable_bytes: Option<u64>,
    pub exceptional_transfer_approved: bool,
}

/// What a [`FfiPlatformReceiveDestinationV2`] holds.
#[verifier::ext_equal]
pub struct PlatformReceiveView {
    pub verified_staging_directory: Seq<char>,
    pub verified_staging_allocatable_bytes: Option<u64>,
    pub exceptional_transfer_approved: bool,
}

impl View for FfiPlatformReceiveDestinationV2 {
    type V = PlatformReceiveView;

    open spec fn view(&self) -> PlatformReceiveView {
        PlatformReceiveView {
            verified_staging_directory: self.verified_staging_directory@,
            verified_staging_allocatable_bytes: self.verified_staging_allocatable_bytes,
            exceptional_transfer_approved: self.exceptional_transfer_approved,
        }
    }
}

impl Clone for FfiPlatformReceiveDestinationV2 {
    fn clone(&self) -> (r: Self)
        ensures
            r == *self,
    {
        FfiPlatformReceiveDestinationV2 {
            verified_staging_directory: self.verified_staging_directory.clone(),
            verified_staging_allocatable_bytes: self.verified_staging_allocatable_bytes,
            exceptional_transfer_approved: self.exceptional_transfer_approved,
        }
    }
}

/// A root that needs a public name.
#[derive(Debug, PartialEq, Eq)]
pub struct FfiDestinationRootRequestV2 {
    pub root_id: u32,
    pub requested_name: String,
    pub kind: FfiManifestEntryKindV2,
}

/// What a [`FfiDestinationRootRequestV2`] holds.
#[verifier::ext_equal]
pub struct RootRequestView {
    pub root_id: u32,
    pub requested_name: Seq<char>,
    pub kind: FfiManifestEntryKindV2,
}

impl View for FfiDestinationRootRequestV2 {
    type V = RootRequestView;

    open spec fn view(&self) -> RootRequestView {
        RootRequestView {
            root_id: self.root_id,
            requested_name: self.requested_name@,
            kind: self.kind,
        }
    }
}

impl Clone for FfiDestinationRootRequestV2 {
    fn clone(&self) -> (r: Self)
        ensures
            r == *self,
    {
        FfiDestinationRootRequestV2 {
            root_id: self.root_id,
            requested_name: self.requested_name.clone(),
            kind: self.kind,
        }
    }
}

/// The roots that need public names.
#[derive(Debug, PartialEq, Eq)]
pub struct FfiDestinationPlanRequestV2 {
    pub job_id: String,
    pub generation: u32,
    pub reserved_names: Vec<String>,
    pub roots: Vec<FfiDestinationRootRequestV2>,
}

/// What a [`FfiDestinationPlanRequestV2`] holds.
#[verifier::ext_equal]
pub struct PlanRequestView {
    pub job_id: Seq<char>,
    pub generation: u32,
    pub reserved_names: Seq<Seq<char>>,
    pub roots: Seq<RootRequestView>,
}

impl View for FfiDestinationPlanRequestV2 {
    type V = PlanRequestView;

    open spec fn view(&self) -> PlanRequestView {
        PlanRequestView {
            job_id: self.job_id@,
            generation: self.generation,
            reserved_names: text_seq(self.reserved_names@),
            roots: self.roots@.map_values(|x: FfiDestinationRootRequestV2| x@),
        }
    }
}

impl Clone for FfiDestinationPlanRequestV2 {
    fn clone(&self) -> (r: Self)
        ensures
            r@ == self@,
    {
        let r = FfiDestinationPlanRequestV2 {
            job_id: self.job_id.clone(),
            generation: self.generation,
            reserved_names: self.reserved_names.clone(),
            roots: self.roots.clone(),
        };
        assert(text_seq(r.reserved_names@) =~= text_seq(self.reserved_names@));
        assert(r@.roots =~= self@.roots);
        r
    }
}

/// The public name of a root.
#[derive(Debug, PartialEq, Eq)]
pub struct FfiDestinationPlannedRootV2 {
    pub root_id: u32,
    pub planned_name: String,
}

/// What a [`FfiDestinationPlannedRootV2`] holds.
#[verifier::ext_equal]
pub struct PlannedRootView {
    pub root_id: u32,
    pub planned_name: Seq<char>,
}

impl View for FfiDestinationPlannedRootV2 {
    type V = PlannedRootView;

    open spec fn view(&self) -> PlannedRootView {
        PlannedRootView {
            root_id: self.root_id,
            planned_name: self.planned_name@,
        }
    }
}

impl Clone for FfiDestinationPlannedRootV2 {
    fn clone(&self) -> (r: Self)
        ensures
            r == *self,
    {
        FfiDestinationPlannedRootV2 {
            root_id: self.root_id,
            planned_name: self.planned_name.clone(),
        }
    }
}

/// The public names of the roots.
#[derive(Debug, PartialEq, Eq)]
pub struct FfiDestinationPlanReplyV2 {
    pub roots: Vec<FfiDestinationPlannedRootV2>,
}

/// What a [`FfiDestinationPlanReplyV2`] holds.
#[verifier::ext_equal]
pub struct PlanReplyView {
    pub roots: Seq<PlannedRootView>,
}

impl View for FfiDestinationPlanReplyV2 {
    type V = PlanReplyView;

    open spec fn view(&self) -> PlanReplyView {
        PlanReplyView {
            roots: self.roots@.map_values(|x: FfiDestinationPlannedRootV2| x@),
        }
    }
}

impl Clone for FfiDestinationPlanReplyV2 {
    fn clone(&self) -> (r: Self)
        ensures
            r@ == self@,
    {
        let r = FfiDestinationPlanReplyV2 {
            roots: self.roots.clone(),
        };
        assert(r@.roots =~= self@.roots);
        r
    }
}

/// A root to save.
#[derive(Debug, PartialEq, Eq)]
pub struct FfiDestinationCommitRootV2 {
    pub root_id: u32,
    pub local_path: String,
    pub planned_name: String,
    pub kind: FfiManifestEntryKindV2,
}

/// What a [`FfiDestinationCommitRootV2`] holds.
#[verifier::ext_equal]
pub struct CommitRootView {
    pub root_id: u32,
    pub local_path: Seq<char>,
    pub planned_name: Seq<char>,
    pub kind: FfiManifestEntryKindV2,
}

impl View for FfiDestinationCommitRootV2 {
    type V = CommitRootView;

    open spec fn view(&self) -> CommitRootView {
        CommitRootView {
            root_id: self.root_id,
            local_path: self.local_path@,
            planned_name: self.planned_name@,
            kind: self.kind,
        }
    }
}

impl Clone for FfiDestinationCommitRootV2 {
    fn clone(&self) -> (r: Self)
        ensures
            r == *self,
    {
        FfiDestinationCommitRootV2 {
            root_id: self.root_id,
            local_path: self.local_path.clone(),
            planned_name: self.planned_name.clone(),
            kind: self.kind,
        }
    }
}

/// The roots to save.
#[derive(Debug, PartialEq, Eq)]
pub struct FfiDestinationCommitRequestV2 {
    pub job_id: String,
    pub generation: u32,
    pub roots: Vec<FfiDestinationCommitRootV2>,
}

/// What a [`FfiDestinationCommitRequestV2`] holds.
#[verifier::ext_equal]
pub struct CommitRequestView {
    pub job_id: Seq<char>,
    pub generation: u32,
    pub roots: Seq<CommitRootView>,
}

impl View for FfiDestinationCommitRequestV2 {
    type V = CommitRequestView;

    open spec fn view(&self) -> CommitRequestView {
        CommitRequestView {
            job_id: self.job_id@,
            generation: self.generation,
            roots: self.roots@.map_values(|x: FfiDestinationCommitRootV2| x@),
        }
    }
}

impl Clone for FfiDestinationCommitRequestV2 {
    fn clone(&self) -> (r: Self)
        ensures
            r@ == self@,
    {
        let r = FfiDestinationCommitRequestV2 {
            job_id: self.job_id.clone(),
            generation: self.generation,
            roots: self.roots.clone(),
        };
        assert(r@.roots =~= self@.roots);
        r
    }
}

/// A saved root.
#[derive(Debug, PartialEq, Eq)]
pub struct FfiDestinationSavedRootV2 {
    pub root_id: u32,
    pub final_name: String,
    pub uri: String,
}

/// What a [`FfiDestinationSavedRootV2`] holds.
#[verifier::ext_equal]
pub struct SavedRootView {
    pub root_id: u32,
    pub final_name: Seq<char>,
    pub uri: Seq<char>,
}

impl View for FfiDestinationSavedRootV2 {
    type V = SavedRootView;

    open spec fn view(&self) -> SavedRootView {
        SavedRootView {
            root_id: self.root_id,
            final_name: self.final_name@,
            uri: self.uri@,
        }
    }
}

impl Clone for FfiDestinationSavedRootV2 {
    fn clone(&self) -> (r: Self)
        ensures
            r == *self,
    {
        FfiDestinationSavedRootV2 {
            root_id: self.root_id,
            final_name: self.final_name.clone(),
            uri: self.uri.clone(),
        }
    }
}

/// The saved roots.
#[derive(Debug, PartialEq, Eq)]
pub struct FfiDestinationCommitReplyV2 {
    pub roots: Vec<FfiDestinationSavedRootV2>,
}

/// What a [`FfiDestinationCommitReplyV2`] holds.
#[verifier::ext_equal]
pub struct CommitReplyView {
    pub roots: Seq<SavedRootView>,
}

impl View for FfiDestinationCommitReplyV2 {
    type V = CommitReplyView;

    open spec fn view(&self) -> CommitReplyView {
        CommitReplyView {
            roots: self.roots@.map_values(|x: FfiDestinationSavedRootV2| x@),
        }
    }
}

impl Clone for FfiDestinationCommitReplyV2 {
    fn clone(&self) -> (r: Self)
        ensures
            r@ == self@,
    {
        let r = FfiDestinationCommitReplyV2 {
            roots: self.roots.clone(),
        };
        assert(r@.roots =~= self@.roots);
        r
    }
}

/// A failed operation of the platform.
#[derive(Debug, PartialEq, Eq)]
pub enum FfiManifestV2DestinationError {
    Operation { reason: String },
}

/// What a [`FfiManifestV2DestinationError`] holds.
#[verifier::ext_equal]
pub enum DestinationErrorView {
    Operation { reason: Seq<char> },
}

impl View for FfiManifestV2DestinationError {
    type V = DestinationErrorView;

    open spec fn view(&self) -> DestinationErrorView {
        match *self {
            FfiManifestV2DestinationError::Operation { reason } => DestinationErrorView::Operation { reason: reason@ },
        }
    }
}

impl Clone for FfiManifestV2DestinationError {
    fn clone(&self) -> (r: Self)
        ensures
            r == *self,
    {
        match self {
            FfiManifestV2DestinationError::Operation { reason } => FfiManifestV2DestinationError::Operation { reason: reason.clone() },
        }
    }
}

/// The result of one entry.
#[derive(Debug, PartialEq, Eq)]
pub struct SavedEntryV2 {
    pub entry_id: u32,
    pub final_component_override: Option<String>,
}

/// What a [`SavedEntryV2`] holds.
#[verifier::ext_equal]
pub struct SavedEntryView {
    pub entry_id: u32,
    pub final_component_override: Option<Seq<char>>,
}

impl View for SavedEntryV2 {
    type V = SavedEntryView;

    open spec fn view(&self) -> SavedEntryView {
        SavedEntryView {
            entry_id: self.entry_id,
            final_component_override: text_option(self.final_component_override),
        }
    }
}

impl Clone for SavedEntryV2 {
    fn clone(&self) -> (r: Self)
        ensures
            r == *self,
    {
        SavedEntryV2 {
            entry_id: self.entry_id,
            final_component_override: self.final_component_override.clone(),
        }
    }
}

/// A breach of the contract with the platform.
#[derive(Debug, PartialEq, Eq)]
pub struct DestinationContractError {
    pub message: String,
}

/// What a [`DestinationContractError`] holds.
#[verifier::ext_equal]
pub struct ContractErrorView {
    pub message: Seq<char>,
}

impl View for DestinationContractError {
    type V = ContractErrorView;

    open spec fn view(&self) -> ContractErrorView {
        ContractErrorView {
            message: self.message@,
        }
    }
}

impl Clone for DestinationContractError {
    fn clone(&self) -> (r: Self)
        ensures
            r == *self,
    {
        DestinationContractError {
            message: self.message.clone(),
        }
    }
}

/// Names that no root may have.
pub open spec fn reserved_names() -> Seq<Seq<char>> {
    seq![".envoix-staging-v2"@, ".envoix-reservations-v2"@]
}

fn reserved_name_list() -> (r: Vec<String>)
    ensures
        text_seq(r@) == reserved_names(),
{
    let mut names: Vec<String> = Vec::new();
    names.push(".envoix-staging-v2".to_owned());
    names.push(".envoix-reservations-v2".to_owned());
    assert(text_seq(names@) =~= reserved_names());
    names
}

/// Whether a manifest names an entry for each of its roots.
pub open spec fn roots_have_entries(manifest: ManifestView) -> bool {
    forall|i: int|
        0 <= i < manifest.roots.len() ==> (#[trigger] manifest.roots[i]).root_entry_id
            < manifest.entries.len()
}

/// What the platform is asked of one root.
pub open spec fn root_request_of(manifest: ManifestView, root: ManifestRootView) -> RootRequestView {
    RootRequestView {
        root_id: root.root_id,
        requested_name: root.requested_name,
        kind: ffi_entry_kind_of(manifest.entries[root.root_entry_id as int].kind),
    }
}

/// What the platform is asked for before payload flows.
pub open spec fn plan_request_of(manifest: ManifestView) -> PlanRequestView {
    PlanRequestView {
        job_id: hex_of(manifest.job_id@),
        generation: manifest.generation,
        reserved_names: reserved_names(),
        roots: manifest.roots.map_values(|root: ManifestRootView| root_request_of(manifest, root)),
    }
}

/// What the platform is asked for before payload flows: a public name for
/// every root.
pub fn destination_plan_request(manifest: &ManifestV2) -> (r: FfiDestinationPlanRequestV2)
    requires
        roots_have_entries(manifest@),
    ensures
        r@ == plan_request_of(manifest@),
{
    let mut roots: Vec<FfiDestinationRootRequestV2> = Vec::new();
    let mut i: usize = 0;
    while i < manifest.roots.len()
        invariant
            roots_have_entries(manifest@),
            i <= manifest.roots@.len(),
            roots@.len() == i,
            forall|k: int|
                0 <= k < i ==> (#[trigger] roots@[k])@ == root_request_of(
                    manifest@,
                    manifest.roots@[k]@,
                ),
        decreases manifest.roots@.len() - i,
    {
        let root = &manifest.roots[i];
        assert(manifest@.roots[i as int] == root@);
        let entry = &manifest.entries[root.root_entry_id as usize];
        assert(manifest@.entries[root.root_entry_id as int] == entry@);
        roots.push(
            FfiDestinationRootRequestV2 {
                root_id: root.root_id,
                requested_name: root.requested_name.clone(),
                kind: ffi_entry_kind(entry.kind),
            },
        );
        i += 1;
    }
    assert(roots@.map_values(|x: FfiDestinationRootRequestV2| x@) =~= plan_request_of(
        manifest@,
    ).roots);
    FfiDestinationPlanRequestV2 {
        job_id: encode_job_id(&manifest.job_id),
        generation: manifest.generation,
        reserved_names: reserved_name_list(),
        roots,
    }
}

/// Whether a character cannot stand in a name.
pub open spec fn breaks_name(c: char) -> bool {
    is_control(c) || c == '/' || c == '\\'
}

/// Whether a text is a name of at most so many bytes.
pub open spec fn is_component(value: Seq<char>, max_bytes: usize) -> bool {
    &&& value.len() > 0
    &&& value != "."@
    &&& value != ".."@
    &&& encode_utf8(value).len() <= max_bytes
    &&& forall|i: int| 0 <= i < value.len() ==> !breaks_name(#[trigger] value[i])
}

/// Whether a text is a name of at most so many bytes.
pub fn valid_component(value: &str, max_bytes: usize) -> (r: bool)
    ensures
        r == is_component(value@, max_bytes),
{
    if value.is_empty() || same_text(value, ".") || same_text(value, "..") || byte_len(value)
        > max_bytes {
        return false;
    }
    let chars = char_list(value);
    let mut i: usize = 0;
    while i < chars.len()
        invariant
            chars@ == value@,
            i <= chars@.len(),
            forall|k: int| 0 <= k < i ==> !breaks_name(#[trigger] value@[k]),
        decreases chars@.len() - i,
    {
        let c = chars[i];
        if c <= '\u{1f}' || ('\u{7f}' <= c && c <= '\u{9f}') || c == '/' || c == '\\' {
            assert(breaks_name(value@[i as int]));
            return false;
        }
        i += 1;
    }
    true
}

/// The text with every character in lower case.
pub uninterp spec fn lowercase(s: Seq<char>) -> Seq<char>;

/// `str::to_lowercase`: the text in lower case, by the derived core properties
/// of Unicode. Its result is given a name and nothing more is stated of it.
#[verifier::external_body]
pub(crate) fn lowercase_text(s: &str) -> (r: String)
    ensures
        r@ == lowercase(s@),
{
    s.to_lowercase()
}

/// Whether planned roots are a plan for so many roots: in order, under proper
/// names, no two of which differ in case alone.
pub open spec fn is_plan(roots: Seq<PlannedRootView>, count: nat, max_bytes: usize) -> bool {
    &&& roots.len() == count
    &&& forall|i: int|
        0 <= i < roots.len() ==> (#[trigger] roots[i]).root_id == i % 0x1_0000_0000 && is_component(
            roots[i].planned_name,
            max_bytes,
        )
    &&& forall|i: int, j: int|
        #![trigger roots[i], roots[j]]
        0 <= i < j < roots.len() ==> lowercase(roots[i].planned_name) != lowercase(
            roots[j].planned_name,
        )
}

/// The view of planned roots.
pub open spec fn planned_view(roots: Seq<FfiDestinationPlannedRootV2>) -> Seq<PlannedRootView> {
    roots.map_values(|x: FfiDestinationPlannedRootV2| x@)
}

/// The view of saved roots.
pub open spec fn saved_view(roots: Seq<FfiDestinationSavedRootV2>) -> Seq<SavedRootView> {
    roots.map_values(|x: FfiDestinationSavedRootV2| x@)
}

fn name_is_new(names: &Vec<String>, name: &str) -> (r: bool)
    ensures
        r == (forall|k: int| 0 <= k < names@.len() ==> (#[trigger] names@[k])@ != name@),
{
    let mut i: usize = 0;
    while i < names.len()
        invariant
            i <= names@.len(),
            forall|k: int| 0 <= k < i ==> (#[trigger] names@[k])@ != name@,
        decreases names@.len() - i,
    {
        if same_text(names[i].as_str(), name) {
            assert(names@[i as int]@ == name@);
            return false;
        }
        i += 1;
    }
    true
}

fn is_valid_plan(
    root_count: usize,
    roots: &Vec<FfiDestinationPlannedRootV2>,
    max_component_bytes: usize,
) -> (r: bool)
    ensures
        r == is_plan(planned_view(roots@), root_count as nat, max_component_bytes),
{
    let ghost shown = planned_view(roots@);
    assert(shown.len() == roots@.len());
    if roots.len() != root_count {
        return false;
    }
    let mut names: Vec<String> = Vec::new();
    let mut i: usize = 0;
    while i < roots.len()
        invariant
            i <= roots@.len(),
            shown == planned_view(roots@),
            shown.len() == roots@.len(),
            names@.len() == i,
            forall|k: int|
                0 <= k < i ==> (#[trigger] names@[k])@ == lowercase(shown[k].planned_name),
            forall|k: int|
                0 <= k < i ==> (#[trigger] shown[k]).root_id == k % 0x1_0000_0000 && is_component(
                    shown[k].planned_name,
                    max_component_bytes,
                ),
            forall|a: int, b: int|
                #![trigger shown[a], shown[b]]
                0 <= a < b < i ==> lowercase(shown[a].planned_name) != lowercase(
                    shown[b].planned_name,
                ),
        decreases roots@.len() - i,
    {
        let root = &roots[i];
        assert(shown[i as int] == root@);
        if root.root_id as u64 != (i as u64) % 0x1_0000_0000 || !valid_component(
            root.planned_name.as_str(),
            max_component_bytes,
        ) {
            return false;
        }
        let name = lowercase_text(root.planned_name.as_str());
        if !name_is_new(&names, name.as_str()) {
            proof {
                let k = choose|k: int| 0 <= k < names@.len() && (#[trigger] names@[k])@ == name@;
                assert(lowercase(shown[k].planned_name) == lowercase(
                    shown[i as int].planned_name,
                ));
            }
            return false;
        }
        assert forall|a: int, b: int|
            #![trigger shown[a], shown[b]]
            0 <= a < b < i + 1 implies lowercase(shown[a].planned_name) != lowercase(
            shown[b].planned_name,
        ) by {
            if b == i {
                assert(names@[a]@ != name@);
            }
        }
        names.push(name);
        i += 1;
    }
    true
}

/// A breach of the contract with the platform.
pub fn destination_contract(message: &str) -> (r: DestinationContractError)
    ensures
        r@ == (ContractErrorView { message: message@ }),
{
    DestinationContractError { message: message.to_owned() }
}

/// The view of a check.
pub open spec fn contract_check(result: Result<(), DestinationContractError>) -> Option<Seq<char>> {
    match result {
        Ok(_) => None,
        Err(error) => Some(error@.message),
    }
}

/// Checks the public names that the platform plans for the roots of a
/// manifest.
pub fn validate_planned_roots(
    manifest: &ManifestV2,
    roots: &Vec<FfiDestinationPlannedRootV2>,
    max_component_bytes: usize,
) -> (r: Result<(), DestinationContractError>)
    ensures
        contract_check(r) == (if is_plan(
            planned_view(roots@),
            manifest@.roots.len(),
            max_component_bytes,
        ) {
            None
        } else {
            Some("platform destination returned an invalid root name plan"@)
        }),
{
    assert(manifest@.roots.len() == manifest.roots@.len());
    if is_valid_plan(manifest.roots.len(), roots, max_component_bytes) {
        Ok(())
    } else {
        Err(destination_contract("platform destination returned an invalid root name plan"))
    }
}

/// The saved root of an identity, the last one where there are several.
pub open spec fn saved_of(saved: Seq<SavedRootView>, root_id: u32) -> Option<SavedRootView>
    decreases saved.len(),
{
    if saved.len() == 0 {
        None
    } else if saved.last().root_id == root_id {
        Some(saved.last())
    } else {
        saved_of(saved.drop_last(), root_id)
    }
}

/// The planned root of an identity, the last one where there are several.
pub open spec fn planned_of(planned: Seq<PlannedRootView>, root_id: u32) -> Option<PlannedRootView>
    decreases planned.len(),
{
    if planned.len() == 0 {
        None
    } else if planned.last().root_id == root_id {
        Some(planned.last())
    } else {
        planned_of(planned.drop_last(), root_id)
    }
}

fn find_saved(saved: &Vec<FfiDestinationSavedRootV2>, root_id: u32) -> (r: Option<usize>)
    ensures
        match r {
            Some(i) => i < saved@.len() && saved_of(saved_view(saved@), root_id) == Some(
                saved@[i as int]@,
            ),
            None => saved_of(saved_view(saved@), root_id) is None,
        },
{
    let ghost all = saved_view(saved@);
    let mut i: usize = saved.len();
    assert(all.take(i as int) =~= all);
    while i > 0
        invariant
            i <= saved@.len(),
            all == saved_view(saved@),
            saved_of(all, root_id) == saved_of(all.take(i as int), root_id),
        decreases i,
    {
        assert(all.take(i as int).last() == saved@[i - 1]@);
        assert(all.take(i as int).drop_last() =~= all.take(i - 1));
        if saved[i - 1].root_id == root_id {
            return Some(i - 1);
        }
        i -= 1;
    }
    None
}

fn find_planned(planned: &Vec<FfiDestinationPlannedRootV2>, root_id: u32) -> (r: Option<usize>)
    ensures
        match r {
            Some(i) => i < planned@.len() && planned_of(planned_view(planned@), root_id) == Some(
                planned@[i as int]@,
            ),
            None => planned_of(planned_view(planned@), root_id) is None,
        },
{
    let ghost all = planned_view(planned@);
    let mut i: usize = planned.len();
    assert(all.take(i as int) =~= all);
    while i > 0
        invariant
            i <= planned@.len(),
            all == planned_view(planned@),
            planned_of(all, root_id) == planned_of(all.take(i as int), root_id),
        decreases i,
    {
        assert(all.take(i as int).last() == planned@[i - 1]@);
        assert(all.take(i as int).drop_last() =~= all.take(i - 1));
        if planned[i - 1].root_id == root_id {
            return Some(i - 1);
        }
        i -= 1;
    }
    None
}

/// Whether no identity occurs twice.
pub open spec fn saved_ids_differ(saved: Seq<SavedRootView>) -> bool {
    forall|i: int, j: int|
        #![trigger saved[i], saved[j]]
        0 <= i < j < saved.len() ==> saved[i].root_id != saved[j].root_id
}

fn has_distinct_ids(saved: &Vec<FfiDestinationSavedRootV2>) -> (r: bool)
    ensures
        r == saved_ids_differ(saved_view(saved@)),
{
    let ghost shown = saved_view(saved@);
    let mut j: usize = 0;
    while j < saved.len()
        invariant
            j <= saved@.len(),
            shown == saved_view(saved@),
            forall|a: int, b: int|
                #![trigger shown[a], shown[b]]
                0 <= a < b < j ==> shown[a].root_id != shown[b].root_id,
        decreases saved@.len() - j,
    {
        let mut i: usize = 0;
        while i < j
            invariant
                i <= j < saved@.len(),
                shown == saved_view(saved@),
                forall|a: int| 0 <= a < i ==> (#[trigger] shown[a]).root_id != shown[j as int].root_id,
            decreases j - i,
        {
            if saved[i].root_id == saved[j].root_id {
                assert(shown[i as int].root_id == shown[j as int].root_id);
                return false;
            }
            i += 1;
        }
        j += 1;
    }
    true
}

/// Why the saved root of one manifest root is refused, if it is.
pub open spec fn root_refusal(
    root_id: u32,
    planned: Seq<PlannedRootView>,
    saved: Seq<SavedRootView>,
    max_bytes: usize,
) -> Option<Seq<char>> {
    match saved_of(saved, root_id) {
        None => Some("platform destination omitted a manifest root"@),
        Some(root) => if root_id >= planned.len() || planned[root_id as int].root_id != root_id {
            Some("platform destination plan omitted a root"@)
        } else if !is_component(root.final_name, max_bytes) || is_blank(root.uri) {
            Some("platform destination returned an invalid final name or URI"@)
        } else if root.final_name != planned[root_id as int].planned_name {
            Some("platform destination changed a frozen public name"@)
        } else {
            None
        },
    }
}

/// The first refusal among manifest roots, in their order.
pub open spec fn first_refusal(
    roots: Seq<ManifestRootView>,
    planned: Seq<PlannedRootView>,
    saved: Seq<SavedRootView>,
    max_bytes: usize,
) -> Option<Seq<char>>
    decreases roots.len(),
{
    if roots.len() == 0 {
        None
    } else {
        match first_refusal(roots.drop_last(), planned, saved, max_bytes) {
            Some(message) => Some(message),
            None => root_refusal(roots.last().root_id, planned, saved, max_bytes),
        }
    }
}

/// Why saved roots are refused, if they are.
pub open spec fn save_refusal(
    manifest: ManifestView,
    planned: Seq<PlannedRootView>,
    saved: Seq<SavedRootView>,
    max_bytes: usize,
) -> Option<Seq<char>> {
    if saved.len() != manifest.roots.len() {
        Some("platform destination did not save every root"@)
    } else if !saved_ids_differ(saved) {
        Some("platform destination returned duplicate roots"@)
    } else {
        first_refusal(manifest.roots, planned, saved, max_bytes)
    }
}

fn check_saved_root(
    root_id: u32,
    planned_roots: &Vec<FfiDestinationPlannedRootV2>,
    saved_roots: &Vec<FfiDestinationSavedRootV2>,
    max_component_bytes: usize,
) -> (r: Result<(), DestinationContractError>)
    ensures
        contract_check(r) == root_refusal(
            root_id,
            planned_view(planned_roots@),
            saved_view(saved_roots@),
            max_component_bytes,
        ),
{
    let ghost planned_shown = planned_view(planned_roots@);
    match find_saved(saved_roots, root_id) {
        None => Err(destination_contract("platform destination omitted a manifest root")),
        Some(i) => {
            let saved = &saved_roots[i];
            let k: usize = root_id as usize;
            if k >= planned_roots.len() {
                return Err(destination_contract("platform destination plan omitted a root"));
            }
            assert(planned_shown[k as int] == planned_roots@[k as int]@);
            if planned_roots[k].root_id != root_id {
                return Err(destination_contract("platform destination plan omitted a root"));
            }
            if !valid_component(saved.final_name.as_str(), max_component_bytes)
                || saved.uri.as_str().trim().is_empty() {
                return Err(
                    destination_contract(
                        "platform destination returned an invalid final name or URI",
                    ),
                );
            }
            if !same_text(saved.final_name.as_str(), planned_roots[k].planned_name.as_str()) {
                return Err(
                    destination_contract("platform destination changed a frozen public name"),
                );
            }
            Ok(())
        },
    }
}

/// Checks the roots that the platform saved: every root of the manifest, each
/// once, and each under its frozen name.
pub fn validate_committed_roots(
    manifest: &ManifestV2,
    planned_roots: &Vec<FfiDestinationPlannedRootV2>,
    saved_roots: &Vec<FfiDestinationSavedRootV2>,
    max_component_bytes: usize,
) -> (r: Result<(), DestinationContractError>)
    ensures
        contract_check(r) == save_refusal(
            manifest@,
            planned_view(planned_roots@),
            saved_view(saved_roots@),
            max_component_bytes,
        ),
{
    let ghost planned = planned_view(planned_roots@);
    let ghost saved = saved_view(saved_roots@);
    let ghost roots = manifest@.roots;
    assert(roots.len() == manifest.roots@.len());
    assert(saved.len() == saved_roots@.len());
    if saved_roots.len() != manifest.roots.len() {
        return Err(destination_contract("platform destination did not save every root"));
    }
    if !has_distinct_ids(saved_roots) {
        return Err(destination_contract("platform destination returned duplicate roots"));
    }
    let mut i: usize = 0;
    assert(roots.take(0) =~= Seq::empty());
    while i < manifest.roots.len()
        invariant
            i <= manifest.roots@.len(),
            roots == manifest@.roots,
            roots.len() == manifest.roots@.len(),
            planned == planned_view(planned_roots@),
            saved == saved_view(saved_roots@),
            saved.len() == roots.len(),
            saved_ids_differ(saved),
            first_refusal(roots.take(i as int), planned, saved, max_component_bytes) is None,
        decreases manifest.roots@.len() - i,
    {
        let root_id = manifest.roots[i].root_id;
        proof {
            let next = roots.take(i + 1);
            assert(next.drop_last() =~= roots.take(i as int));
            assert(next.last() == manifest.roots@[i as int]@);
            refusals_persist(roots, i + 1, planned, saved, max_component_bytes);
        }
        if let Err(error) = check_saved_root(
            root_id,
            planned_roots,
            saved_roots,
            max_component_bytes,
        ) {
            return Err(error);
        }
        i += 1;
    }
    assert(roots.take(i as int) =~= roots);
    Ok(())
}

/// A refusal among the first roots is the first refusal among all of them.
proof fn refusals_persist(
    roots: Seq<ManifestRootView>,
    n: int,
    planned: Seq<PlannedRootView>,
    saved: Seq<SavedRootView>,
    max_bytes: usize,
)
    requires
        0 <= n <= roots.len(),
    ensures
        first_refusal(roots.take(n), planned, saved, max_bytes) is Some ==> first_refusal(
            roots,
            planned,
            saved,
            max_bytes,
        ) == first_refusal(roots.take(n), planned, saved, max_bytes),
    decreases roots.len(),
{
    if n < roots.len() {
        refusals_persist(roots.drop_last(), n, planned, saved, max_bytes);
        assert(roots.drop_last().take(n) =~= roots.take(n));
    } else {
        assert(roots.take(n) =~= roots);
    }
}

/// The name that a root has in the private staging tree.
pub open spec fn private_name(root: ManifestRootView, entry: SavedEntryView) -> Seq<char> {
    match entry.final_component_override {
        Some(name) => name,
        None => root.requested_name,
    }
}

/// Why a root cannot be handed to the platform, if it cannot.
pub open spec fn request_refusal(
    manifest: ManifestView,
    planned: Seq<PlannedRootView>,
    entries: Seq<SavedEntryView>,
    root: ManifestRootView,
) -> Option<Seq<char>> {
    if planned_of(planned, root.root_id) is None {
        Some("platform destination plan omitted a root"@)
    } else if root.root_entry_id >= entries.len() {
        Some("root result is missing before save"@)
    } else if root.root_entry_id >= manifest.entries.len() {
        Some("manifest root entry is missing"@)
    } else {
        None
    }
}

/// The first root that cannot be handed to the platform.
pub open spec fn first_request_refusal(
    manifest: ManifestView,
    planned: Seq<PlannedRootView>,
    entries: Seq<SavedEntryView>,
    roots: Seq<ManifestRootView>,
) -> Option<Seq<char>>
    decreases roots.len(),
{
    if roots.len() == 0 {
        None
    } else {
        match first_request_refusal(manifest, planned, entries, roots.drop_last()) {
            Some(message) => Some(message),
            None => request_refusal(manifest, planned, entries, roots.last()),
        }
    }
}

proof fn request_refusals_persist(
    manifest: ManifestView,
    planned: Seq<PlannedRootView>,
    entries: Seq<SavedEntryView>,
    roots: Seq<ManifestRootView>,
    n: int,
)
    requires
        0 <= n <= roots.len(),
    ensures
        first_request_refusal(manifest, planned, entries, roots.take(n)) is Some
            ==> first_request_refusal(manifest, planned, entries, roots) == first_request_refusal(
            manifest,
            planned,
            entries,
            roots.take(n),
        ),
    decreases roots.len(),
{
    if n < roots.len() {
        request_refusals_persist(manifest, planned, entries, roots.drop_last(), n);
        assert(roots.drop_last().take(n) =~= roots.take(n));
    } else {
        assert(roots.take(n) =~= roots);
    }
}

/// Where no root is refused, none of them is by itself.
proof fn accepted_roots_have_results(
    manifest: ManifestView,
    planned: Seq<PlannedRootView>,
    entries: Seq<SavedEntryView>,
    roots: Seq<ManifestRootView>,
    i: int,
)
    requires
        first_request_refusal(manifest, planned, entries, roots) is None,
        0 <= i < roots.len(),
    ensures
        request_refusal(manifest, planned, entries, roots[i]) is None,
    decreases roots.len(),
{
    if i < roots.len() - 1 {
        accepted_roots_have_results(manifest, planned, entries, roots.drop_last(), i);
        assert(roots.drop_last()[i] == roots[i]);
    }
}

/// Whether a root is handed to the platform as it should be: its file in the
/// staging tree and its frozen name.
pub open spec fn is_commit_root(
    manifest: ManifestView,
    staging: Seq<char>,
    planned: Seq<PlannedRootView>,
    entries: Seq<SavedEntryView>,
    root: ManifestRootView,
    handed: CommitRootView,
) -> bool {
    &&& handed.root_id == root.root_id
    &&& is_joined_path(
        staging,
        private_name(root, entries[root.root_entry_id as int]),
        handed.local_path,
    )
    &&& planned_of(planned, root.root_id) == Some(
        PlannedRootView { root_id: root.root_id, planned_name: handed.planned_name },
    )
    &&& handed.kind == ffi_entry_kind_of(manifest.entries[root.root_entry_id as int].kind)
}

/// State of a destination that the platform owns.
#[verifier::ext_equal]
pub struct GateView {
    pub staging_directory: Seq<char>,
    pub planned: Seq<PlannedRootView>,
    pub committed: Option<Seq<SavedRootView>>,
    pub max_component_bytes: usize,
}

/// A destination that the platform owns: no result leaves before the platform
/// has saved every root under its frozen name.
pub struct PlatformDestinationGate {
    staging_directory: String,
    planned_roots: Vec<FfiDestinationPlannedRootV2>,
    committed_roots: Option<Vec<FfiDestinationSavedRootV2>>,
    max_component_bytes: usize,
}

impl View for PlatformDestinationGate {
    type V = GateView;

    closed spec fn view(&self) -> GateView {
        GateView {
            staging_directory: self.staging_directory@,
            planned: planned_view(self.planned_roots@),
            committed: match self.committed_roots {
                Some(roots) => Some(saved_view(roots@)),
                None => None,
            },
            max_component_bytes: self.max_component_bytes,
        }
    }
}

/// The view of entries.
pub open spec fn entries_view(entries: Seq<SavedEntryV2>) -> Seq<SavedEntryView> {
    entries.map_values(|x: SavedEntryV2| x@)
}

/// Entries after the roots of a manifest took their saved names.
pub open spec fn renamed_entries(
    entries: Seq<SavedEntryView>,
    roots: Seq<ManifestRootView>,
    saved: Seq<SavedRootView>,
) -> Seq<SavedEntryView>
    decreases roots.len(),
{
    if roots.len() == 0 {
        entries
    } else {
        let before = renamed_entries(entries, roots.drop_last(), saved);
        let at = roots.last().root_entry_id as int;
        match saved_of(saved, roots.last().root_id) {
            Some(root) => before.update(
                at,
                SavedEntryView { final_component_override: Some(root.final_name), ..before[at] },
            ),
            None => before,
        }
    }
}

/// Whether an entry is the entry of some root.
pub open spec fn is_root_entry(roots: Seq<ManifestRootView>, entry: int) -> bool {
    exists|k: int| 0 <= k < roots.len() && (#[trigger] roots[k]).root_entry_id == entry
}

/// Whether no later root has the entry of root `i`.
pub open spec fn is_last_of_its_entry(roots: Seq<ManifestRootView>, i: int) -> bool {
    forall|k: int|
        i < k < roots.len() ==> (#[trigger] roots[k]).root_entry_id != roots[i].root_entry_id
}

/// What the platform's answer to a save leads to, if anything is wrong with
/// it.
pub open spec fn reply_refusal(
    gate: GateView,
    manifest: ManifestView,
    reply: Result<FfiDestinationCommitReplyV2, FfiManifestV2DestinationError>,
) -> Option<Seq<char>> {
    match reply {
        Err(error) => Some("platform destination save failed: "@ + error@->reason),
        Ok(reply) => save_refusal(manifest, gate.planned, reply@.roots, gate.max_component_bytes),
    }
}

fn destination_error_text(error: &FfiManifestV2DestinationError) -> (r: &str)
    ensures
        r@ == error@->reason,
{
    match error {
        FfiManifestV2DestinationError::Operation { reason } => reason.as_str(),
    }
}

impl PlatformDestinationGate {
    /// The roots that the platform has saved.
    pub fn committed_roots(&self) -> (r: Result<Vec<FfiDestinationSavedRootV2>, SessionError>)
        ensures
            match r {
                Ok(roots) => self@.committed == Some(saved_view(roots@)),
                Err(error) => self@.committed is None && error@ == (SessionErrorView {
                    cause: SessionCauseView::Storage {
                        detail: "platform destination did not commit final roots"@,
                    },
                    invitation_consumed: false,
                }),
            },
    {
        match &self.committed_roots {
            Some(roots) => {
                let copied = roots.clone();
                assert(saved_view(copied@) =~= saved_view(roots@));
                Ok(copied)
            },
            None => Err(
                SessionError {
                    cause: SessionCause::Storage {
                        detail: "platform destination did not commit final roots".to_owned(),
                    },
                    invitation_consumed: false,
                },
            ),
        }
    }

    fn commit_root(
        &self,
        manifest: &ManifestV2,
        saved_entries: &Vec<SavedEntryV2>,
        root: &ManifestRootV2,
    ) -> (r: Result<FfiDestinationCommitRootV2, DestinationContractError>)
        ensures
            match r {
                Ok(handed) => request_refusal(
                    manifest@,
                    self@.planned,
                    entries_view(saved_entries@),
                    root@,
                ) is None && is_commit_root(
                    manifest@,
                    self@.staging_directory,
                    self@.planned,
                    entries_view(saved_entries@),
                    root@,
                    handed@,
                ),
                Err(error) => request_refusal(
                    manifest@,
                    self@.planned,
                    entries_view(saved_entries@),
                    root@,
                ) == Some(error@.message),
            },
    {
        let ghost entries = entries_view(saved_entries@);
        assert(entries.len() == saved_entries@.len());
        assert(manifest@.entries.len() == manifest.entries@.len());
        let k: usize = match find_planned(&self.planned_roots, root.root_id) {
            Some(k) => k,
            None => return Err(destination_contract("platform destination plan omitted a root")),
        };
        proof {
            planned_of_has_its_id(self@.planned, root.root_id);
        }
        let at: usize = root.root_entry_id as usize;
        if at >= saved_entries.len() {
            return Err(destination_contract("root result is missing before save"));
        }
        assert(entries[at as int] == saved_entries@[at as int]@);
        let name = match &saved_entries[at].final_component_override {
            Some(name) => name.as_str(),
            None => root.requested_name.as_str(),
        };
        if at >= manifest.entries.len() {
            return Err(destination_contract("manifest root entry is missing"));
        }
        assert(manifest@.entries[at as int] == manifest.entries@[at as int]@);
        Ok(
            FfiDestinationCommitRootV2 {
                root_id: root.root_id,
                local_path: path_join(self.staging_directory.as_str(), name),
                planned_name: self.planned_roots[k].planned_name.clone(),
                kind: ffi_entry_kind(manifest.entries[at].kind),
            },
        )
    }

    /// What the platform is asked to save: every root of the manifest, from
    /// the staging tree, under its frozen name.
    pub fn commit_request(&self, manifest: &ManifestV2, saved_entries: &Vec<SavedEntryV2>) -> (r:
        Result<FfiDestinationCommitRequestV2, DestinationContractError>)
        ensures
            match r {
                Ok(request) => {
                    &&& first_request_refusal(
                        manifest@,
                        self@.planned,
                        entries_view(saved_entries@),
                        manifest@.roots,
                    ) is None
                    &&& request@.job_id == hex_of(manifest@.job_id@)
                    &&& request@.generation == manifest@.generation
                    &&& request@.roots.len() == manifest@.roots.len()
                    &&& forall|i: int|
                        0 <= i < manifest@.roots.len() ==> is_commit_root(
                            manifest@,
                            self@.staging_directory,
                            self@.planned,
                            entries_view(saved_entries@),
                            #[trigger] manifest@.roots[i],
                            request@.roots[i],
                        )
                },
                Err(error) => first_request_refusal(
                    manifest@,
                    self@.planned,
                    entries_view(saved_entries@),
                    manifest@.roots,
                ) == Some(error@.message),
            },
    {
        let ghost entries = entries_view(saved_entries@);
        let ghost roots = manifest@.roots;
        assert(roots.len() == manifest.roots@.len());
        let mut handed: Vec<FfiDestinationCommitRootV2> = Vec::new();
        let mut i: usize = 0;
        assert(roots.take(0) =~= Seq::empty());
        while i < manifest.roots.len()
            invariant
                i <= manifest.roots@.len(),
                roots == manifest@.roots,
                roots.len() == manifest.roots@.len(),
                entries == entries_view(saved_entries@),
                handed@.len() == i,
                first_request_refusal(manifest@, self@.planned, entries, roots.take(i as int))
                    is None,
                forall|k: int|
                    0 <= k < i ==> is_commit_root(
                        manifest@,
                        self@.staging_directory,
                        self@.planned,
                        entries,
                        #[trigger] roots[k],
                        handed@[k]@,
                    ),
            decreases manifest.roots@.len() - i,
        {
            proof {
                let next = roots.take(i + 1);
                assert(next.drop_last() =~= roots.take(i as int));
                assert(next.last() == manifest.roots@[i as int]@);
                assert(roots[i as int] == manifest.roots@[i as int]@);
                request_refusals_persist(manifest@, self@.planned, entries, roots, i + 1);
            }
            match self.commit_root(manifest, saved_entries, &manifest.roots[i]) {
                Ok(root) => {
                    handed.push(root);
                },
                Err(error) => return Err(error),
            }
            i += 1;
        }
        assert(roots.take(i as int) =~= roots);
        let request = FfiDestinationCommitRequestV2 {
            job_id: encode_job_id(&manifest.job_id),
            generation: manifest.generation,
            roots: handed,
        };
        assert forall|k: int| 0 <= k < roots.len() implies is_commit_root(
            manifest@,
            self@.staging_directory,
            self@.planned,
            entries,
            #[trigger] roots[k],
            request@.roots[k],
        ) by {
            assert(request@.roots[k] == handed@[k]@);
        }
        Ok(request)
    }

    fn rename_entries(
        &self,
        manifest: &ManifestV2,
        saved_entries: &mut Vec<SavedEntryV2>,
        saved_roots: &Vec<FfiDestinationSavedRootV2>,
    )
        requires
            first_request_refusal(
                manifest@,
                self@.planned,
                entries_view(old(saved_entries)@),
                manifest@.roots,
            ) is None,
        ensures
            final(saved_entries)@.len() == old(saved_entries)@.len(),
            entries_view(final(saved_entries)@) == renamed_entries(
                entries_view(old(saved_entries)@),
                manifest@.roots,
                saved_view(saved_roots@),
            ),
    {
        let ghost before = entries_view(saved_entries@);
        let ghost saved = saved_view(saved_roots@);
        let ghost roots = manifest@.roots;
        let ghost planned = self@.planned;
        assert(roots.len() == manifest.roots@.len());
        let mut i: usize = 0;
        assert(roots.take(0) =~= Seq::empty());
        while i < manifest.roots.len()
            invariant
                i <= manifest.roots@.len(),
                roots == manifest@.roots,
                roots.len() == manifest.roots@.len(),
                saved == saved_view(saved_roots@),
                first_request_refusal(manifest@, planned, before, roots) is None,
                saved_entries@.len() == before.len(),
                entries_view(saved_entries@) == renamed_entries(before, roots.take(i as int), saved),
            decreases manifest.roots@.len() - i,
        {
            let ghost now = entries_view(saved_entries@);
            let root = &manifest.roots[i];
            proof {
                let next = roots.take(i + 1);
                assert(next.drop_last() =~= roots.take(i as int));
                assert(next.last() == root@);
                assert(roots[i as int] == root@);
                accepted_roots_have_results(manifest@, planned, before, roots, i as int);
            }
            let at: usize = root.root_entry_id as usize;
            if let Some(k) = find_saved(saved_roots, root.root_id) {
                let entry = SavedEntryV2 {
                    entry_id: saved_entries[at].entry_id,
                    final_component_override: Some(saved_roots[k].final_name.clone()),
                };
                let ghost renamed = entry@;
                assert(now[at as int] == saved_entries@[at as int]@);
                saved_entries.set(at, entry);
                assert(entries_view(saved_entries@) =~= now.update(at as int, renamed));
            }
            i += 1;
        }
        assert(roots.take(i as int) =~= roots);
    }

    /// Takes in the platform's answer to a save. The results of the roots take
    /// the saved names, and the saved roots are kept; where anything is wrong,
    /// nothing changes.
    pub fn commit_results(
        &mut self,
        manifest: &ManifestV2,
        saved_entries: &mut Vec<SavedEntryV2>,
        reply: Result<FfiDestinationCommitReplyV2, FfiManifestV2DestinationError>,
    ) -> (r: Result<(), DestinationContractError>)
        ensures
            match first_request_refusal(
                manifest@,
                old(self)@.planned,
                entries_view(old(saved_entries)@),
                manifest@.roots,
            ) {
                Some(message) => {
                    &&& contract_check(r) == Some(message)
                    &&& final(self)@ == old(self)@
                    &&& final(saved_entries)@ == old(saved_entries)@
                },
                None => {
                    &&& contract_check(r) == reply_refusal(old(self)@, manifest@, reply)
                    &&& r is Err ==> final(self)@ == old(self)@ && final(saved_entries)@ == old(
                        saved_entries,
                    )@
                    &&& r is Ok ==> {
                        let saved = reply->Ok_0@.roots;
                        &&& final(self)@ == (GateView { committed: Some(saved), ..old(self)@ })
                        &&& entries_view(final(saved_entries)@) == renamed_entries(
                            entries_view(old(saved_entries)@),
                            manifest@.roots,
                            saved,
                        )
                        &&& final(saved_entries)@.len() == old(saved_entries)@.len()
                        &&& forall|i: int|
                            #![trigger manifest@.roots[i]]
                            0 <= i < manifest@.roots.len() && is_last_of_its_entry(
                                manifest@.roots,
                                i,
                            ) ==> entries_view(
                                final(saved_entries)@,
                            )[manifest@.roots[i].root_entry_id as int].final_component_override
                                == Some(
                                old(
                                    self,
                                )@.planned[manifest@.roots[i].root_id as int].planned_name,
                            )
                        &&& forall|entry: int|
                            #![trigger entries_view(final(saved_entries)@)[entry]]
                            0 <= entry < final(saved_entries)@.len() && !is_root_entry(
                                manifest@.roots,
                                entry,
                            ) ==> entries_view(final(saved_entries)@)[entry] == entries_view(
                                old(saved_entries)@,
                            )[entry]
                    }
                },
            },
    {
        if let Err(error) = self.commit_request(manifest, saved_entries) {
            return Err(error);
        }
        match reply {
            Err(error) => Err(
                destination_contract(
                    joined(
                        "platform destination save failed: ",
                        destination_error_text(&error),
                    ).as_str(),
                ),
            ),
            Ok(reply) => {
                if let Err(error) = validate_committed_roots(
                    manifest,
                    &self.planned_roots,
                    &reply.roots,
                    self.max_component_bytes,
                ) {
                    return Err(error);
                }
                let ghost before = entries_view(saved_entries@);
                let ghost saved = saved_view(reply.roots@);
                self.rename_entries(manifest, saved_entries, &reply.roots);
                proof {
                    let roots = manifest@.roots;
                    let after = entries_view(saved_entries@);
                    assert forall|i: int|
                        #![trigger roots[i]]
                        0 <= i < roots.len() && is_last_of_its_entry(
                            roots,
                            i,
                        ) implies after[roots[i].root_entry_id as int].final_component_override
                        == Some(self@.planned[roots[i].root_id as int].planned_name) by {
                        accepted_saves_name_their_entries(
                            manifest@,
                            self@.planned,
                            before,
                            saved,
                            self@.max_component_bytes,
                            i,
                        );
                    }
                    assert forall|entry: int|
                        #![trigger after[entry]]
                        0 <= entry < after.len() && !is_root_entry(
                            roots,
                            entry,
                        ) implies after[entry] == before[entry] by {
                        accepted_saves_touch_root_entries_alone(
                            manifest@,
                            self@.planned,
                            before,
                            saved,
                            entry,
                        );
                    }
                }
                self.committed_roots = Some(reply.roots);
                Ok(())
            },
        }
    }
}

proof fn planned_of_has_its_id(planned: Seq<PlannedRootView>, root_id: u32)
    ensures
        planned_of(planned, root_id) matches Some(root) ==> root.root_id == root_id,
    decreases planned.len(),
{
    if planned.len() > 0 && planned.last().root_id != root_id {
        planned_of_has_its_id(planned.drop_last(), root_id);
    }
}

/// The failure of a destination that cannot be used.
pub open spec fn unavailable(detail: Seq<char>) -> SessionErrorView {
    SessionErrorView {
        cause: SessionCauseView::Cause { code: "receiver_destination_unavailable"@, detail },
        invitation_consumed: false,
    }
}

/// The failure of a destination that cannot be used.
pub fn destination_unavailable(detail: &str) -> (r: SessionError)
    ensures
        r@ == unavailable(detail@),
{
    SessionError {
        cause: SessionCause::Cause {
            code: "receiver_destination_unavailable".to_owned(),
            detail: detail.to_owned(),
        },
        invitation_consumed: false,
    }
}

/// The room for content: what is there, and no more than the platform says.
pub open spec fn capacity_of(reported: Option<u64>, actual: u64) -> u64 {
    match reported {
        Some(reported) => if reported <= actual {
            reported
        } else {
            actual
        },
        None => actual,
    }
}

/// The plans of roots as the engine takes them.
pub open spec fn root_plans_of(planned: Seq<PlannedRootView>) -> RootPlansView {
    RootPlansView {
        plans: planned.map_values(
            |root: PlannedRootView|
                (RootPlanView { root_id: root.root_id, planned_name: root.planned_name }),
        ),
    }
}

fn root_plans(planned: &Vec<FfiDestinationPlannedRootV2>) -> (r: RootPlans)
    ensures
        r@ == root_plans_of(planned_view(planned@)),
{
    let mut plans: Vec<RootPlanV2> = Vec::new();
    let mut i: usize = 0;
    while i < planned.len()
        invariant
            i <= planned@.len(),
            plans@.len() == i,
            forall|k: int|
                0 <= k < i ==> (#[trigger] plans@[k])@ == (RootPlanView {
                    root_id: planned@[k]@.root_id,
                    planned_name: planned@[k]@.planned_name,
                }),
        decreases planned@.len() - i,
    {
        plans.push(
            RootPlanV2 {
                root_id: planned[i].root_id,
                planned_name: planned[i].planned_name.clone(),
            },
        );
        i += 1;
    }
    let r = RootPlans { plans };
    assert(r@.plans =~= root_plans_of(planned_view(planned@)).plans);
    r
}

/// What a destination that the platform owns is prepared from, beside the
/// manifest.
pub struct PreparationInputs {
    /// The room in the staging directory, or why it is not known.
    pub actual_capacity: Result<u64, String>,
    /// The platform's answer to the request for names.
    pub plan: Result<FfiDestinationPlanReplyV2, FfiManifestV2DestinationError>,
    /// The engine's text of the refusal of a plan.
    pub invalid_plan_text: String,
    /// Longest name of an entry, in bytes.
    pub max_component_bytes: usize,
}

/// Why a destination cannot be prepared, if it cannot.
pub open spec fn preparation_refusal(
    manifest: ManifestView,
    request: PlatformReceiveView,
    inputs: PreparationInputs,
) -> Option<SessionErrorView> {
    if is_blank(request.verified_staging_directory) {
        Some(unavailable("verified staging directory must not be empty"@))
    } else {
        match inputs.actual_capacity {
            Err(reason) => Some(unavailable(reason@)),
            Ok(_) => match inputs.plan {
                Err(error) => Some(
                    unavailable("platform destination plan failed: "@ + error@->reason),
                ),
                Ok(plan) => if is_plan(
                    plan@.roots,
                    manifest.roots.len(),
                    inputs.max_component_bytes,
                ) {
                    None
                } else {
                    Some(unavailable(inputs.invalid_plan_text@))
                },
            },
        }
    }
}

/// Checks the staging directory before anything is asked of the platform.
pub fn check_staging_directory(request: &FfiPlatformReceiveDestinationV2) -> (r: Result<
    (),
    SessionError,
>)
    ensures
        match r {
            Ok(_) => !is_blank(request@.verified_staging_directory),
            Err(error) => is_blank(request@.verified_staging_directory) && error@ == unavailable(
                "verified staging directory must not be empty"@,
            ),
        },
{
    if request.verified_staging_directory.as_str().trim().is_empty() {
        Err(destination_unavailable("verified staging directory must not be empty"))
    } else {
        Ok(())
    }
}

/// Prepares a destination that the platform owns: content is saved into the
/// staging tree under the frozen names, and results wait for the platform.
pub fn prepare_platform_destination(
    manifest: &ManifestV2,
    request: &FfiPlatformReceiveDestinationV2,
    inputs: PreparationInputs,
) -> (r: Result<(DestinationRequestV2, PlatformDestinationGate), SessionError>)
    ensures
        match r {
            Err(error) => preparation_refusal(manifest@, request@, inputs) == Some(error@),
            Ok((engine, gate)) => {
                let planned = inputs.plan->Ok_0@.roots;
                let capacity = inputs.actual_capacity->Ok_0;
                &&& preparation_refusal(manifest@, request@, inputs) is None
                &&& engine@ == (DestinationView {
                    target_directory: request@.verified_staging_directory,
                    copy_staging_directory: None,
                    decision: DestinationDecisionV2::UseDirectSave,
                    target_allocatable_bytes: Some(
                        capacity_of(request@.verified_staging_allocatable_bytes, capacity),
                    ),
                    staging_allocatable_bytes: None,
                    stable_object_identity: false,
                    exceptional_transfer_approved: request@.exceptional_transfer_approved,
                    preplanned_root_names: Some(root_plans_of(planned)),
                })
                &&& gate@ == (GateView {
                    staging_directory: request@.verified_staging_directory,
                    planned,
                    committed: None,
                    max_component_bytes: inputs.max_component_bytes,
                })
            },
        },
{
    if let Err(error) = check_staging_directory(request) {
        return Err(error);
    }
    let actual: u64 = match inputs.actual_capacity {
        Ok(actual) => actual,
        Err(reason) => return Err(destination_unavailable(reason.as_str())),
    };
    let capacity: u64 = match request.verified_staging_allocatable_bytes {
        Some(reported) => if reported <= actual {
            reported
        } else {
            actual
        },
        None => actual,
    };
    let plan = match inputs.plan {
        Ok(plan) => plan,
        Err(error) => return Err(
            destination_unavailable(
                joined(
                    "platform destination plan failed: ",
                    destination_error_text(&error),
                ).as_str(),
            ),
        ),
    };
    if let Err(_) = validate_planned_roots(manifest, &plan.roots, inputs.max_component_bytes) {
        return Err(destination_unavailable(inputs.invalid_plan_text.as_str()));
    }
    let engine = DestinationRequestV2 {
        target_directory: request.verified_staging_directory.clone(),
        copy_staging_directory: None,
        decision: DestinationDecisionV2::UseDirectSave,
        target_allocatable_bytes: Some(capacity),
        staging_allocatable_bytes: None,
        stable_object_identity: false,
        exceptional_transfer_approved: request.exceptional_transfer_approved,
        preplanned_root_names: Some(root_plans(&plan.roots)),
    };
    let gate = PlatformDestinationGate {
        staging_directory: request.verified_staging_directory.clone(),
        planned_roots: plan.roots,
        committed_roots: None,
        max_component_bytes: inputs.max_component_bytes,
    };
    Ok((engine, gate))
}

proof fn accepted_roots_are_saved(
    roots: Seq<ManifestRootView>,
    planned: Seq<PlannedRootView>,
    saved: Seq<SavedRootView>,
    max_bytes: usize,
    i: int,
)
    requires
        first_refusal(roots, planned, saved, max_bytes) is None,
        0 <= i < roots.len(),
    ensures
        root_refusal(roots[i].root_id, planned, saved, max_bytes) is None,
    decreases roots.len(),
{
    if i < roots.len() - 1 {
        accepted_roots_are_saved(roots.drop_last(), planned, saved, max_bytes, i);
        assert(roots.drop_last()[i] == roots[i]);
    }
}

/// Frozen names stay frozen: where a save is accepted, every root of the
/// manifest was saved under exactly the name that was planned for it.
pub proof fn accepted_saves_keep_frozen_names(
    manifest: ManifestView,
    planned: Seq<PlannedRootView>,
    saved: Seq<SavedRootView>,
    max_bytes: usize,
    i: int,
)
    requires
        save_refusal(manifest, planned, saved, max_bytes) is None,
        0 <= i < manifest.roots.len(),
    ensures
        ({
            let id = manifest.roots[i].root_id;
            &&& id < planned.len()
            &&& planned[id as int].root_id == id
            &&& saved_of(saved, id) matches Some(root) && root.final_name
                == planned[id as int].planned_name && !is_blank(root.uri)
        }),
{
    accepted_roots_are_saved(manifest.roots, planned, saved, max_bytes, i);
}

/// A plan that is accepted gives no two roots names that read alike.
pub proof fn accepted_plans_have_distinct_names(
    planned: Seq<PlannedRootView>,
    count: nat,
    max_bytes: usize,
    i: int,
    j: int,
)
    requires
        is_plan(planned, count, max_bytes),
        0 <= i < count,
        0 <= j < count,
        i != j,
    ensures
        lowercase(planned[i].planned_name) != lowercase(planned[j].planned_name),
        planned[i].planned_name != planned[j].planned_name,
{
    if i < j {
        assert(lowercase(planned[i].planned_name) != lowercase(planned[j].planned_name));
    } else {
        assert(lowercase(planned[j].planned_name) != lowercase(planned[i].planned_name));
    }
}

/// A saved root is found by its own id: the found one has it, and was among the
/// saved ones; none is found exactly where none has it.
pub proof fn saved_roots_are_found_by_their_id(saved: Seq<SavedRootView>, root_id: u32)
    ensures
        saved_of(saved, root_id) matches Some(root) ==> root.root_id == root_id && saved.contains(
            root,
        ),
        saved_of(saved, root_id) is None <==> forall|j: int|
            0 <= j < saved.len() ==> (#[trigger] saved[j]).root_id != root_id,
    decreases saved.len(),
{
    if saved.len() > 0 {
        let before = saved.drop_last();
        saved_roots_are_found_by_their_id(before, root_id);
        assert(saved.last() == saved[saved.len() - 1]);
        if saved.last().root_id != root_id {
            if let Some(root) = saved_of(before, root_id) {
                let j = choose|j: int| 0 <= j < before.len() && before[j] == root;
                assert(saved[j] == root);
            } else {
                assert forall|j: int| 0 <= j < saved.len() implies (
                #[trigger] saved[j]).root_id != root_id by {
                    if j < before.len() {
                        assert(before[j] == saved[j]);
                    }
                }
            }
        }
    }
}

/// A planned root is found by its own id: the found one has it, and was among the
/// planned ones; none is found exactly where none has it.
pub proof fn planned_roots_are_found_by_their_id(planned: Seq<PlannedRootView>, root_id: u32)
    ensures
        planned_of(planned, root_id) matches Some(root) ==> root.root_id == root_id
            && planned.contains(root),
        planned_of(planned, root_id) is None <==> forall|j: int|
            0 <= j < planned.len() ==> (#[trigger] planned[j]).root_id != root_id,
    decreases planned.len(),
{
    if planned.len() > 0 {
        let before = planned.drop_last();
        planned_roots_are_found_by_their_id(before, root_id);
        assert(planned.last() == planned[planned.len() - 1]);
        if planned.last().root_id != root_id {
            if let Some(root) = planned_of(before, root_id) {
                let j = choose|j: int| 0 <= j < before.len() && before[j] == root;
                assert(planned[j] == root);
            } else {
                assert forall|j: int| 0 <= j < planned.len() implies (
                #[trigger] planned[j]).root_id != root_id by {
                    if j < before.len() {
                        assert(before[j] == planned[j]);
                    }
                }
            }
        }
    }
}

proof fn last_roots_name_entries(
    entries: Seq<SavedEntryView>,
    roots: Seq<ManifestRootView>,
    saved: Seq<SavedRootView>,
    entry: int,
)
    requires
        0 <= entry < entries.len(),
        forall|k: int|
            0 <= k < roots.len() ==> (#[trigger] roots[k]).root_entry_id < entries.len(),
    ensures
        renamed_entries(entries, roots, saved).len() == entries.len(),
        renamed_entries(entries, roots, saved)[entry].entry_id == entries[entry].entry_id,
        !is_root_entry(roots, entry) ==> renamed_entries(entries, roots, saved)[entry]
            == entries[entry],
        forall|i: int|
            #![trigger roots[i]]
            0 <= i < roots.len() && roots[i].root_entry_id == entry && is_last_of_its_entry(
                roots,
                i,
            ) && saved_of(saved, roots[i].root_id) is Some ==> renamed_entries(
                entries,
                roots,
                saved,
            )[entry].final_component_override == Some(
                saved_of(saved, roots[i].root_id)->0.final_name,
            ),
    decreases roots.len(),
{
    if roots.len() > 0 {
        let before = roots.drop_last();
        let last = roots.len() - 1;
        assert forall|k: int| 0 <= k < before.len() implies (
        #[trigger] before[k]).root_entry_id < entries.len() by {
            assert(before[k] == roots[k]);
        }
        last_roots_name_entries(entries, before, saved, entry);
        assert(roots[last] == roots.last());
        if !is_root_entry(roots, entry) {
            if is_root_entry(before, entry) {
                let k = choose|k: int|
                    0 <= k < before.len() && (#[trigger] before[k]).root_entry_id == entry;
                assert(roots[k].root_entry_id == entry);
            }
        }
        assert forall|i: int|
            #![trigger roots[i]]
            0 <= i < roots.len() && roots[i].root_entry_id == entry && is_last_of_its_entry(
                roots,
                i,
            ) && saved_of(saved, roots[i].root_id) is Some implies renamed_entries(
            entries,
            roots,
            saved,
        )[entry].final_component_override == Some(
            saved_of(saved, roots[i].root_id)->0.final_name,
        ) by {
            if i < last {
                assert(before[i] == roots[i]);
                assert(is_last_of_its_entry(before, i)) by {
                    assert forall|k: int| i < k < before.len() implies (
                    #[trigger] before[k]).root_entry_id != before[i].root_entry_id by {
                        assert(before[k] == roots[k]);
                    }
                }
                assert(roots[last].root_entry_id != entry);
            }
        }
    }
}

/// After an accepted save, the entry of every root has the name that was planned
/// for that root, which is the name that the platform saved the root of the same
/// id under. Where roots share an entry, the last of them counts.
pub proof fn accepted_saves_name_their_entries(
    manifest: ManifestView,
    planned: Seq<PlannedRootView>,
    entries: Seq<SavedEntryView>,
    saved: Seq<SavedRootView>,
    max_bytes: usize,
    i: int,
)
    requires
        first_request_refusal(manifest, planned, entries, manifest.roots) is None,
        save_refusal(manifest, planned, saved, max_bytes) is None,
        0 <= i < manifest.roots.len(),
        is_last_of_its_entry(manifest.roots, i),
    ensures
        ({
            let root = manifest.roots[i];
            let after = renamed_entries(entries, manifest.roots, saved);
            let name = planned[root.root_id as int].planned_name;
            &&& after.len() == entries.len()
            &&& root.root_entry_id < after.len()
            &&& after[root.root_entry_id as int].final_component_override == Some(name)
            &&& after[root.root_entry_id as int].entry_id
                == entries[root.root_entry_id as int].entry_id
            &&& planned[root.root_id as int].root_id == root.root_id
            &&& exists|j: int|
                0 <= j < saved.len() && (#[trigger] saved[j]).root_id == root.root_id
                    && saved[j].final_name == name
        }),
{
    let roots = manifest.roots;
    let root = roots[i];
    assert forall|k: int| 0 <= k < roots.len() implies (
    #[trigger] roots[k]).root_entry_id < entries.len() by {
        accepted_roots_have_results(manifest, planned, entries, roots, k);
    }
    last_roots_name_entries(entries, roots, saved, root.root_entry_id as int);
    accepted_saves_keep_frozen_names(manifest, planned, saved, max_bytes, i);
    saved_roots_are_found_by_their_id(saved, root.root_id);
    let found = saved_of(saved, root.root_id)->0;
    let j = choose|j: int| 0 <= j < saved.len() && saved[j] == found;
    assert(saved[j].root_id == root.root_id);
}

/// A save leaves the results of entries that are no root's as they were.
pub proof fn accepted_saves_touch_root_entries_alone(
    manifest: ManifestView,
    planned: Seq<PlannedRootView>,
    entries: Seq<SavedEntryView>,
    saved: Seq<SavedRootView>,
    entry: int,
)
    requires
        first_request_refusal(manifest, planned, entries, manifest.roots) is None,
        0 <= entry < entries.len(),
    ensures
        renamed_entries(entries, manifest.roots, saved).len() == entries.len(),
        renamed_entries(entries, manifest.roots, saved)[entry].entry_id == entries[entry].entry_id,
        !is_root_entry(manifest.roots, entry) ==> renamed_entries(
            entries,
            manifest.roots,
            saved,
        )[entry] == entries[entry],
{
    let roots = manifest.roots;
    assert forall|k: int| 0 <= k < roots.len() implies (
    #[trigger] roots[k]).root_entry_id < entries.len() by {
        accepted_roots_have_results(manifest, planned, entries, roots, k);
    }
    last_roots_name_entries(entries, roots, saved, entry);
}

/// A save is accepted exactly where the platform saved as many roots as there are,
/// no id twice, and each under its planned name, as one component, with a place.
pub proof fn saves_are_accepted_when_every_root_is_saved(
    manifest: ManifestView,
    planned: Seq<PlannedRootView>,
    saved: Seq<SavedRootView>,
    max_bytes: usize,
)
    ensures
        save_refusal(manifest, planned, saved, max_bytes) is None <==> saved.len()
            == manifest.roots.len() && saved_ids_differ(saved) && forall|i: int|
            0 <= i < manifest.roots.len() ==> is_saved_as_planned(
                (#[trigger] manifest.roots[i]).root_id,
                planned,
                saved,
                max_bytes,
            ),
{
    roots_are_refused_one_by_one(manifest.roots, planned, saved, max_bytes);
}

/// Whether a root was saved under its planned name.
pub open spec fn is_saved_as_planned(
    root_id: u32,
    planned: Seq<PlannedRootView>,
    saved: Seq<SavedRootView>,
    max_bytes: usize,
) -> bool {
    &&& root_id < planned.len()
    &&& planned[root_id as int].root_id == root_id
    &&& saved_of(saved, root_id) matches Some(root) && root.final_name
        == planned[root_id as int].planned_name && is_component(root.final_name, max_bytes)
        && !is_blank(root.uri)
}

proof fn roots_are_refused_one_by_one(
    roots: Seq<ManifestRootView>,
    planned: Seq<PlannedRootView>,
    saved: Seq<SavedRootView>,
    max_bytes: usize,
)
    ensures
        first_refusal(roots, planned, saved, max_bytes) is None <==> forall|i: int|
            0 <= i < roots.len() ==> is_saved_as_planned(
                (#[trigger] roots[i]).root_id,
                planned,
                saved,
                max_bytes,
            ),
    decreases roots.len(),
{
    if roots.len() > 0 {
        let before = roots.drop_last();
        roots_are_refused_one_by_one(before, planned, saved, max_bytes);
        assert(roots.last() == roots[roots.len() - 1]);
        assert(forall|i: int| 0 <= i < before.len() ==> #[trigger] before[i] == roots[i]);
        if first_refusal(roots, planned, saved, max_bytes) is None {
            assert forall|i: int| 0 <= i < roots.len() implies is_saved_as_planned(
                (#[trigger] roots[i]).root_id,
                planned,
                saved,
                max_bytes,
            ) by {
                if i < before.len() {
                    assert(before[i] == roots[i]);
                }
            }
        }
        if forall|i: int|
            0 <= i < roots.len() ==> is_saved_as_planned(
                (#[trigger] roots[i]).root_id,
                planned,
                saved,
                max_bytes,
            ) {
            assert forall|i: int| 0 <= i < before.len() implies is_saved_as_planned(
                (#[trigger] before[i]).root_id,
                planned,
                saved,
                max_bytes,
            ) by {
                assert(before[i] == roots[i]);
            }
        }
    }
}

/// The platform is asked for the names of the manifest's own roots, in their order,
/// and told which names it may not give.
pub proof fn plans_ask_for_the_manifest_roots(manifest: ManifestView, i: int)
    requires
        0 <= i < manifest.roots.len(),
    ensures
        plan_request_of(manifest).job_id == hex_of(manifest.job_id@),
        plan_request_of(manifest).generation == manifest.generation,
        plan_request_of(manifest).roots.len() == manifest.roots.len(),
        plan_request_of(manifest).roots[i].root_id == manifest.roots[i].root_id,
        plan_request_of(manifest).roots[i].requested_name == manifest.roots[i].requested_name,
        plan_request_of(manifest).reserved_names.contains(".envoix-staging-v2"@),
        plan_request_of(manifest).reserved_names.contains(".envoix-reservations-v2"@),
{
    let reserved = plan_request_of(manifest).reserved_names;
    assert(reserved[0] == ".envoix-staging-v2"@);
    assert(reserved[1] == ".envoix-reservations-v2"@);
}

/// A component is a name of its own: neither a path nor one of the two directory
/// names, and within its bytes.
pub proof fn components_cannot_leave_their_directory(name: Seq<char>, max_bytes: usize, i: int)
    requires
        is_component(name, max_bytes),
        0 <= i < name.len(),
    ensures
        name != "."@,
        name != ".."@,
        name[i] != '/',
        name[i] != '\\',
        !is_control(name[i]),
        encode_utf8(name).len() <= max_bytes,
{
    assert(!breaks_name(name[i]));
}

/// A destination is offered no more room than the platform reports, and no more
/// than there is.
pub proof fn capacity_is_never_overstated(reported: Option<u64>, actual: u64)
    ensures
        capacity_of(reported, actual) <= actual,
        reported matches Some(bytes) ==> capacity_of(reported, actual) <= bytes,
        capacity_of(reported, actual) == actual || reported == Some(capacity_of(reported, actual)),
        reported is None ==> capacity_of(reported, actual) == actual,
{
}

/// The engine gets the planned names one for one, each under its own root.
pub proof fn planned_names_reach_the_engine(planned: Seq<PlannedRootView>, i: int)
    requires
        0 <= i < planned.len(),
    ensures
        root_plans_of(planned).plans.len() == planned.len(),
        root_plans_of(planned).plans[i].root_id == planned[i].root_id,
        root_plans_of(planned).plans[i].planned_name == planned[i].planned_name,
{
}

/// A root that already has a name in the staging tree keeps it there; else it has
/// the requested one.
pub proof fn staged_names_win(root: ManifestRootView, entry: SavedEntryView)
    ensures
        entry.final_component_override matches Some(name) ==> private_name(root, entry) == name,
        entry.final_component_override is None ==> private_name(root, entry)
            == root.requested_name,
{
}

/// A destination is prepared exactly where its staging directory is named, the
/// room in it is known, and the platform planned a name for every root.
pub proof fn destinations_need_room_and_names(
    manifest: ManifestView,
    request: PlatformReceiveView,
    inputs: PreparationInputs,
)
    ensures
        preparation_refusal(manifest, request, inputs) is None <==> !is_blank(
            request.verified_staging_directory,
        ) && inputs.actual_capacity is Ok && inputs.plan is Ok && is_plan(
            inputs.plan->Ok_0@.roots,
            manifest.roots.len(),
            inputs.max_component_bytes,
        ),
        preparation_refusal(manifest, request, inputs) matches Some(error) ==> error.cause is Cause
            && !error.invitation_consumed,
{
}

/// A root is handed to the platform where it was planned and has its result and its
/// entry; the request is refused for the first root that is not.
pub proof fn roots_are_handed_over_when_they_are_whole(
    manifest: ManifestView,
    planned: Seq<PlannedRootView>,
    entries: Seq<SavedEntryView>,
    roots: Seq<ManifestRootView>,
)
    ensures
        first_request_refusal(manifest, planned, entries, roots) is None <==> forall|i: int|
            0 <= i < roots.len() ==> planned_of(planned, (#[trigger] roots[i]).root_id) is Some
                && roots[i].root_entry_id < entries.len() && roots[i].root_entry_id
                < manifest.entries.len(),
    decreases roots.len(),
{
    if roots.len() > 0 {
        let before = roots.drop_last();
        roots_are_handed_over_when_they_are_whole(manifest, planned, entries, before);
        assert(roots.last() == roots[roots.len() - 1]);
        assert(forall|i: int| 0 <= i < before.len() ==> #[trigger] before[i] == roots[i]);
        if first_request_refusal(manifest, planned, entries, roots) is None {
            assert forall|i: int| 0 <= i < roots.len() implies planned_of(
                planned,
                (#[trigger] roots[i]).root_id,
            ) is Some && roots[i].root_entry_id < entries.len() && roots[i].root_entry_id
                < manifest.entries.len() by {
                if i < before.len() {
                    assert(before[i] == roots[i]);
                }
            }
        }
        if forall|i: int|
            0 <= i < roots.len() ==> planned_of(planned, (#[trigger] roots[i]).root_id) is Some
                && roots[i].root_entry_id < entries.len() && roots[i].root_entry_id
                < manifest.entries.len() {
            assert forall|i: int| 0 <= i < before.len() implies planned_of(
                planned,
                (#[trigger] before[i]).root_id,
            ) is Some && before[i].root_entry_id < entries.len() && before[i].root_entry_id
                < manifest.entries.len() by {
                assert(before[i] == roots[i]);
            }
        }
    }
}

/// A handed root is its own: its id, a name that was planned for that id, its place
/// in the staging tree, and its kind.
pub proof fn handed_roots_are_their_own(
    manifest: ManifestView,
    staging: Seq<char>,
    planned: Seq<PlannedRootView>,
    entries: Seq<SavedEntryView>,
    root: ManifestRootView,
    handed: CommitRootView,
)
    requires
        is_commit_root(manifest, staging, planned, entries, root, handed),
    ensures
        handed.root_id == root.root_id,
        exists|j: int|
            0 <= j < planned.len() && (#[trigger] planned[j]).root_id == root.root_id
                && planned[j].planned_name == handed.planned_name,
        entries[root.root_entry_id as int].final_component_override matches Some(name)
            ==> is_joined_path(staging, name, handed.local_path),
        entries[root.root_entry_id as int].final_component_override is None ==> is_joined_path(
            staging,
            root.requested_name,
            handed.local_path,
        ),
        handed.kind is Directory <==> manifest.entries[root.root_entry_id as int].kind
            is Directory,
{
    planned_roots_are_found_by_their_id(planned, root.root_id);
    let found = planned_of(planned, root.root_id)->0;
    let j = choose|j: int| 0 <= j < planned.len() && planned[j] == found;
    assert(planned[j].root_id == root.root_id);
}

/// A save that the platform could not make is refused with the platform's reason,
/// and any other is refused or accepted by what was saved.
pub proof fn failed_saves_say_why(
    gate: GateView,
    manifest: ManifestView,
    error: FfiManifestV2DestinationError,
    reply: FfiDestinationCommitReplyV2,
)
    ensures
        reply_refusal(gate, manifest, Err(error)) == Some(
            "platform destination save failed: "@ + error@->reason,
        ),
        reply_refusal(gate, manifest, Ok(reply)) is None <==> save_refusal(
            manifest,
            gate.planned,
            reply@.roots,
            gate.max_component_bytes,
        ) is None,
        reply@.roots.len() != manifest.roots.len() ==> reply_refusal(gate, manifest, Ok(reply))
            == Some("platform destination did not save every root"@),
{
}

/// A plan names every root once, by its number, under a name of its own that is one
/// component.
pub proof fn plans_name_every_root(
    roots: Seq<PlannedRootView>,
    count: nat,
    max_bytes: usize,
    i: int,
)
    requires
        is_plan(roots, count, max_bytes),
        0 <= i < count,
    ensures
        roots.len() == count,
        i <= u32::MAX ==> roots[i].root_id == i,
        is_component(roots[i].planned_name, max_bytes),
{
}

} // verus!
