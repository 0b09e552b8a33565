use envoix_ffi::api::destination::{
    destination_plan_request, prepare_platform_destination, valid_component,
    validate_committed_roots, validate_planned_roots, FfiDestinationCommitReplyV2,
    FfiDestinationPlanReplyV2, FfiDestinationPlannedRootV2, FfiDestinationSavedRootV2,
    FfiManifestV2DestinationError, FfiPlatformReceiveDestinationV2, PlatformDestinationGate,
    PreparationInputs, SavedEntryV2,
};
use envoix_ffi::api::failures::{SessionCause, SessionError};
use envoix_ffi::api::job::{JobIdV2, ManifestEntryKindV2};
use envoix_ffi::api::session_types::{
    DestinationRequestV2, FfiManifestEntryKindV2, ManifestEntryV2, ManifestRootV2,
    ManifestTotalsV2, ManifestV2,
};

const MAX_NAME: usize = 255;

fn planned(root_id: u32, name: &str) -> FfiDestinationPlannedRootV2 {
    FfiDestinationPlannedRootV2 { root_id, planned_name: name.into() }
}

fn saved(root_id: u32, name: &str) -> FfiDestinationSavedRootV2 {
    FfiDestinationSavedRootV2 {
        root_id,
        final_name: name.into(),
        uri: "content://downloads/report".into(),
    }
}

fn manifest() -> ManifestV2 {
    ManifestV2 {
        job_id: JobIdV2 { bytes: [0x21; 16] },
        generation: 1,
        selection_revision: 1,
        roots: vec![ManifestRootV2 {
            root_id: 0,
            root_entry_id: 0,
            requested_name: "report.txt".into(),
        }],
        entries: vec![ManifestEntryV2 {
            entry_id: 0,
            root_id: 0,
            parent_entry_id: None,
            component: "report.txt".into(),
            kind: ManifestEntryKindV2::RegularFile,
            plaintext_size: 1,
            digest_known: true,
        }],
        totals: ManifestTotalsV2 { file_count: 1, directory_count: 0, total_plaintext_bytes: 1 },
    }
}

fn two_roots() -> ManifestV2 {
    let mut manifest = manifest();
    manifest.roots.push(ManifestRootV2 {
        root_id: 1,
        root_entry_id: 1,
        requested_name: "second.txt".into(),
    });
    manifest.entries.push(ManifestEntryV2 {
        entry_id: 1,
        root_id: 1,
        parent_entry_id: None,
        component: "second.txt".into(),
        kind: ManifestEntryKindV2::RegularFile,
        plaintext_size: 1,
        digest_known: true,
    });
    manifest.totals.file_count = 2;
    manifest.totals.total_plaintext_bytes = 2;
    manifest
}

fn platform_request(directory: &str) -> FfiPlatformReceiveDestinationV2 {
    FfiPlatformReceiveDestinationV2 {
        verified_staging_directory: directory.into(),
        verified_staging_allocatable_bytes: Some(u64::MAX),
        exceptional_transfer_approved: true,
    }
}

fn inputs(roots: Vec<FfiDestinationPlannedRootV2>) -> PreparationInputs {
    PreparationInputs {
        actual_capacity: Ok(1000),
        plan: Ok(FfiDestinationPlanReplyV2 { roots }),
        invalid_plan_text: "platform destination returned an invalid root name plan".into(),
        max_component_bytes: MAX_NAME,
    }
}

fn prepared(
    manifest: &ManifestV2,
    roots: Vec<FfiDestinationPlannedRootV2>,
) -> (DestinationRequestV2, PlatformDestinationGate) {
    prepare_platform_destination(manifest, &platform_request("/staging"), inputs(roots))
        .ok()
        .unwrap()
}

fn entry(entry_id: u32, name: Option<&str>) -> SavedEntryV2 {
    SavedEntryV2 { entry_id, final_component_override: name.map(|name| name.into()) }
}

fn detail(error: SessionError) -> String {
    match error.cause {
        SessionCause::Cause { code, detail } => {
            assert_eq!(code, "receiver_destination_unavailable");
            detail
        }
        _ => panic!("expected an unavailable destination"),
    }
}

#[test]
fn typed_platform_destination_freezes_and_commits_public_names() {
    let manifest = manifest();
    let plan_request = destination_plan_request(&manifest);
    assert_eq!(plan_request.job_id, "21212121212121212121212121212121");
    assert_eq!(plan_request.roots[0].requested_name, "report.txt");
    assert_eq!(plan_request.roots[0].kind, FfiManifestEntryKindV2::File);
    assert_eq!(
        plan_request.reserved_names,
        vec![".envoix-staging-v2".to_string(), ".envoix-reservations-v2".to_string()]
    );

    let (request, mut gate) = prepared(&manifest, vec![planned(0, "report (1).txt")]);
    assert_eq!(request.target_directory, "/staging");
    assert!(!request.stable_object_identity);
    assert_eq!(request.target_allocatable_bytes, Some(1000));
    assert_eq!(
        request.preplanned_root_names.as_ref().unwrap().plans[0].planned_name,
        "report (1).txt"
    );

    let mut entries = vec![entry(0, Some("report (1).txt"))];
    let commit = gate.commit_request(&manifest, &entries).ok().unwrap();
    assert_eq!(commit.roots[0].planned_name, "report (1).txt");
    assert_eq!(commit.roots[0].local_path, "/staging/report (1).txt");
    assert!(gate.committed_roots().is_err());
    let reply = FfiDestinationCommitReplyV2 { roots: vec![saved(0, "report (1).txt")] };
    assert!(gate.commit_results(&manifest, &mut entries, Ok(reply)).is_ok());
    assert_eq!(gate.committed_roots().ok().unwrap(), vec![saved(0, "report (1).txt")]);
    assert_eq!(entries[0].final_component_override.as_deref(), Some("report (1).txt"));
}

#[test]
fn duplicate_public_names_fail_before_accept() {
    let result = prepare_platform_destination(
        &two_roots(),
        &platform_request("/staging"),
        inputs(vec![planned(0, "report.txt"), planned(1, "REPORT.TXT")]),
    );
    let Err(error) = result else {
        panic!("duplicate public roots must fail");
    };
    assert_eq!(detail(error), "platform destination returned an invalid root name plan");
}

#[test]
fn final_save_cannot_change_the_frozen_name() {
    let manifest = manifest();
    let (_, mut gate) = prepared(&manifest, vec![planned(0, "report.txt")]);
    let mut entries = vec![entry(0, None)];
    let commit = gate.commit_request(&manifest, &entries).ok().unwrap();
    assert_eq!(commit.roots[0].local_path, "/staging/report.txt");
    let reply = FfiDestinationCommitReplyV2 { roots: vec![saved(0, "renamed.txt")] };
    let error = gate.commit_results(&manifest, &mut entries, Ok(reply)).err().unwrap();

    assert_eq!(error.message, "platform destination changed a frozen public name");
    assert!(gate.committed_roots().is_err());
    assert_eq!(entries[0].final_component_override, None);
}

#[test]
fn preparations_fail_in_their_order() {
    let manifest = manifest();
    let good = || vec![planned(0, "report.txt")];
    let failed = |directory: &str, inputs: PreparationInputs| {
        detail(
            prepare_platform_destination(&manifest, &platform_request(directory), inputs)
                .err()
                .unwrap(),
        )
    };
    assert_eq!(failed(" ", inputs(good())), "verified staging directory must not be empty");
    let mut unknown = inputs(good());
    unknown.actual_capacity = Err("no disk".into());
    assert_eq!(failed("/s", unknown), "no disk");
    let mut refused = inputs(good());
    refused.plan = Err(FfiManifestV2DestinationError::Operation { reason: "denied".into() });
    assert_eq!(failed("/s", refused), "platform destination plan failed: denied");
    let mut smaller = platform_request("/s");
    smaller.verified_staging_allocatable_bytes = Some(10);
    let (request, _) =
        prepare_platform_destination(&manifest, &smaller, inputs(good())).ok().unwrap();
    assert_eq!(request.target_allocatable_bytes, Some(10));
    smaller.verified_staging_allocatable_bytes = None;
    let (request, _) =
        prepare_platform_destination(&manifest, &smaller, inputs(good())).ok().unwrap();
    assert_eq!(request.target_allocatable_bytes, Some(1000));
}

#[test]
fn plans_are_checked_root_by_root() {
    let manifest = two_roots();
    let valid = |roots: Vec<FfiDestinationPlannedRootV2>| {
        validate_planned_roots(&manifest, &roots, MAX_NAME).is_ok()
    };
    assert!(valid(vec![planned(0, "a"), planned(1, "b")]));
    assert!(!valid(vec![planned(0, "a")]));
    assert!(!valid(vec![planned(1, "a"), planned(0, "b")]));
    assert!(!valid(vec![planned(0, "a"), planned(1, "b/c")]));
    assert!(!valid(vec![planned(0, "a"), planned(1, "A")]));
    assert!(!valid(vec![planned(0, "ÄÖ"), planned(1, "äö")]));
}

#[test]
fn names_are_components() {
    assert!(valid_component("report.txt", MAX_NAME));
    assert!(valid_component("..a", MAX_NAME));
    for bad in ["", ".", "..", "a/b", "a\\b", "a\u{1}", "a\u{7f}", "a\u{9f}"] {
        assert!(!valid_component(bad, MAX_NAME));
    }
    assert!(valid_component("éé", 4));
    assert!(!valid_component("éé", 3));
}

#[test]
fn saved_roots_are_checked_in_order() {
    let manifest = two_roots();
    let plan = vec![planned(0, "a"), planned(1, "b")];
    let refused = |roots: Vec<FfiDestinationSavedRootV2>| {
        validate_committed_roots(&manifest, &plan, &roots, MAX_NAME)
            .err()
            .map(|error| error.message)
    };
    assert_eq!(refused(vec![saved(1, "b"), saved(0, "a")]), None);
    assert_eq!(
        refused(vec![saved(0, "a")]).as_deref(),
        Some("platform destination did not save every root")
    );
    assert_eq!(
        refused(vec![saved(0, "a"), saved(0, "a")]).as_deref(),
        Some("platform destination returned duplicate roots")
    );
    assert_eq!(
        refused(vec![saved(0, "a"), saved(2, "b")]).as_deref(),
        Some("platform destination omitted a manifest root")
    );
    assert_eq!(
        refused(vec![saved(0, "a"), saved(1, "..")]).as_deref(),
        Some("platform destination returned an invalid final name or URI")
    );
    let mut blank = saved(1, "b");
    blank.uri = " ".into();
    assert_eq!(
        refused(vec![saved(0, "a"), blank]).as_deref(),
        Some("platform destination returned an invalid final name or URI")
    );
    assert_eq!(
        validate_committed_roots(
            &manifest,
            &vec![planned(0, "a")],
            &vec![saved(0, "a"), saved(1, "b")],
            MAX_NAME,
        )
        .err()
        .map(|error| error.message)
        .as_deref(),
        Some("platform destination plan omitted a root")
    );
}

#[test]
fn commits_fail_without_results_or_entries() {
    let manifest = two_roots();
    let plan = || vec![planned(0, "a"), planned(1, "b")];
    let (_, mut gate) = prepared(&manifest, plan());
    let error = gate.commit_request(&manifest, &vec![entry(0, None)]).err().unwrap();
    assert_eq!(error.message, "root result is missing before save");
    let mut short = two_roots();
    short.entries.truncate(1);
    let entries = vec![entry(0, None), entry(1, None)];
    let error = gate.commit_request(&short, &entries).err().unwrap();
    assert_eq!(error.message, "manifest root entry is missing");
    let mut other = two_roots();
    other.roots[1].root_id = 7;
    let error = gate.commit_request(&other, &entries).err().unwrap();
    assert_eq!(error.message, "platform destination plan omitted a root");
    let mut entries = vec![entry(0, None), entry(1, None)];
    let error = gate
        .commit_results(
            &manifest,
            &mut entries,
            Err(FfiManifestV2DestinationError::Operation { reason: "full".into() }),
        )
        .err()
        .unwrap();
    assert_eq!(error.message, "platform destination save failed: full");
}

#[test]
fn private_names_may_hold_a_colon() {
    let manifest = manifest();
    let (_, gate) = prepared(&manifest, vec![planned(0, "report.txt")]);
    let entries = vec![entry(0, Some("10:30.txt"))];
    let commit = gate.commit_request(&manifest, &entries).ok().unwrap();
    assert_eq!(commit.roots[0].local_path, "/staging/10:30.txt");
}
