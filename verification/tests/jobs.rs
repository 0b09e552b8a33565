use envoix_ffi::api::job::{
    check_local_paths, check_reauthorized_path, check_staged_roots, check_transient_file,
    core_compression_policy, core_provider_issue, core_provider_issues, core_source_decision,
    core_source_origin, create_transfer_job_v2, decode_job_id, encode_job_id,
    ffi_compression_policy, inventory_cursor,
    list_preparing_transfer_jobs_v2, prepares_again, restore_key, restore_transfer_job_v2,
    CanonicalTransferJob, CompressionPolicyV2, FfiCompressionPolicyV2, FfiInventoryItemKindV2,
    FfiInventorySummaryV2, FfiProviderSourceIssueKindV2, FfiProviderSourceIssueV2,
    FfiSourceDecisionV2, FfiSourceIssueKindV2, FfiSourceOriginV2, FfiSourceSelectionStateV2,
    FfiStagedProviderRootV2, FfiTransferJobStateV2, FfiTransferJobV2, InventoryCursor,
    InventoryItem, InventoryPage, JobIdV2, JobLifecycle, JobOutcome, LocalSourceOrigin,
    ManifestEntryKindV2, SourceDecision, SourceIssue, SourceIssueKind, SourceSelectionInfo,
    SourceSelectionState,
};
use envoix_ffi::api::session_types::{ManifestTotalsV2, ManifestV2};
use envoix_ffi::api::types::EnvoixError;

fn reason(error: EnvoixError) -> String {
    match error {
        EnvoixError::Operation { reason } => reason,
        EnvoixError::Invitation { reason, .. } => reason,
    }
}

fn selection(issues: Vec<SourceIssue>) -> SourceSelectionInfo {
    SourceSelectionInfo {
        root_item_id: 5,
        requested_name: "Shared folder".into(),
        state: if issues.is_empty() {
            SourceSelectionState::Ready
        } else {
            SourceSelectionState::NeedsDecision
        },
        partial_approved: false,
        issues,
    }
}

fn manifest() -> ManifestV2 {
    ManifestV2 {
        job_id: JobIdV2 { bytes: [7; 16] },
        generation: 0,
        selection_revision: 3,
        roots: Vec::new(),
        entries: Vec::new(),
        totals: ManifestTotalsV2 {
            file_count: 0,
            directory_count: 0,
            total_plaintext_bytes: 0,
        },
    }
}

fn job(lifecycle: JobLifecycle) -> CanonicalTransferJob {
    CanonicalTransferJob {
        job_id: JobIdV2 { bytes: [0xab; 16] },
        selection_revision: 3,
        lifecycle,
        compression_policy: CompressionPolicyV2::Smart,
        created_unix_ms: 10,
        updated_unix_ms: 20,
        inventory: FfiInventorySummaryV2 {
            root_count: 1,
            file_count: 2,
            directory_count: 3,
            total_plaintext_bytes: 4,
            warning_count: 5,
        },
        selections: vec![selection(Vec::new())],
        manifest: if lifecycle == JobLifecycle::Sealed { Some(manifest()) } else { None },
    }
}

fn done(job: CanonicalTransferJob) -> JobOutcome {
    JobOutcome { job, failure: None }
}

fn handle() -> FfiTransferJobV2 {
    create_transfer_job_v2("/store", Ok(job(JobLifecycle::Preparing))).ok().unwrap()
}

#[test]
fn job_ids_are_hexadecimal() {
    let mut bytes = [0u8; 16];
    bytes[0] = 0x01;
    bytes[15] = 0xfe;
    let text = encode_job_id(&JobIdV2 { bytes });
    assert_eq!(text, "010000000000000000000000000000fe");
    assert_eq!(decode_job_id(&text).ok().unwrap().bytes, bytes);
    assert_eq!(decode_job_id("010000000000000000000000000000FE").ok().unwrap().bytes, bytes);
    let wrong = "job_id must contain exactly 32 hexadecimal characters";
    assert_eq!(reason(decode_job_id("01").err().unwrap()), wrong);
    assert_eq!(reason(decode_job_id(&"g".repeat(32)).err().unwrap()), wrong);
    assert_eq!(reason(decode_job_id(&"é".repeat(16)).err().unwrap()), wrong);
    assert_eq!(reason(decode_job_id(&"0".repeat(33)).err().unwrap()), wrong);
    assert_eq!(
        reason(decode_job_id(&"0".repeat(32)).err().unwrap()),
        "job_id must not be all zero"
    );
}

#[test]
fn snapshots_show_the_job() {
    let shown = handle().snapshot();
    assert_eq!(shown.job_id, "ab".repeat(16));
    assert_eq!(shown.state, FfiTransferJobStateV2::Preparing);
    assert_eq!(shown.compression_policy, FfiCompressionPolicyV2::Smart);
    assert_eq!(shown.inventory.warning_count, 5);
    assert_eq!(shown.selections[0].state, FfiSourceSelectionStateV2::Ready);
}

#[test]
fn staged_issues_are_kept_until_they_are_settled() {
    let staged = vec![FfiStagedProviderRootV2 {
        path: "/staged/original".into(),
        requested_name: "Shared folder".into(),
        origin: FfiSourceOriginV2::ContentUri,
        issues: vec![FfiProviderSourceIssueV2 {
            relative_components: vec!["hidden.txt".into()],
            kind: FfiProviderSourceIssueKindV2::PermissionDenied,
        }],
    }];
    let issue = core_provider_issue(&staged[0].issues[0]);
    assert_eq!(issue.kind, SourceIssueKind::PermissionDenied);
    assert_eq!(issue.relative_components, vec!["hidden.txt".to_string()]);
    let mut held = job(JobLifecycle::NeedsSourceDecision);
    held.selections = vec![selection(vec![SourceIssue {
        issue_id: 1,
        relative_components: issue.relative_components,
        kind: issue.kind,
    }])];
    let mut handle = handle();
    let shown = handle.add_staged_provider_roots(&staged, done(held)).ok().unwrap();
    assert_eq!(shown.state, FfiTransferJobStateV2::NeedsSourceDecision);
    assert_eq!(shown.selections.len(), 1);
    assert_eq!(shown.selections[0].issues.len(), 1);
    assert_eq!(shown.selections[0].issues[0].kind, FfiSourceIssueKindV2::PermissionDenied);
    let repaired = handle
        .reauthorize_staged_provider_source("/new", done(job(JobLifecycle::ReadyToSend)))
        .ok()
        .unwrap();
    assert_eq!(repaired.state, FfiTransferJobStateV2::ReadyToSend);
    assert_eq!(repaired.selections[0].root_item_id, shown.selections[0].root_item_id);
    assert!(repaired.selections[0].issues.is_empty());
}

#[test]
fn inputs_are_checked_before_the_engine_works() {
    let mut handle = handle();
    let other = || done(job(JobLifecycle::Canceled));
    let error = handle.add_local_paths(&vec!["/a".into(), " ".into()], other()).err().unwrap();
    assert_eq!(reason(error), "paths must contain at least one non-empty local path");
    assert!(check_local_paths(&Vec::new()).is_err());
    assert!(check_local_paths(&vec!["/a".into()]).is_ok());
    let error = handle.import_transient_file("/a", "", other()).err().unwrap();
    assert_eq!(reason(error), "source_path and requested_name must not be empty");
    let error = handle.add_staged_provider_roots(&Vec::new(), other()).err().unwrap();
    assert_eq!(reason(error), "staged roots must contain a path and requested name");
    assert!(check_staged_roots(&Vec::new()).is_err());
    let error = handle.reauthorize_staged_provider_source(" ", other()).err().unwrap();
    assert_eq!(reason(error), "reauthorized provider path must not be empty");
    let error = handle
        .resolve_source_issue(FfiSourceDecisionV2::Reauthorize, &None, other())
        .err()
        .unwrap();
    assert_eq!(reason(error), "reauthorized_path is required for Reauthorize");
    // none of the refused operations touched the job
    assert_eq!(handle.snapshot().state, FfiTransferJobStateV2::Preparing);
    let shown = handle.cancel_job(other()).ok().unwrap();
    assert_eq!(shown.state, FfiTransferJobStateV2::Canceled);
}

#[test]
fn engine_failures_are_reported_after_the_job_is_taken_over() {
    let mut handle = handle();
    let outcome = JobOutcome {
        job: job(JobLifecycle::NeedsSourceDecision),
        failure: Some("disk full".into()),
    };
    assert_eq!(reason(handle.set_compression_policy(outcome).err().unwrap()), "disk full");
    assert_eq!(handle.snapshot().state, FfiTransferJobStateV2::NeedsSourceDecision);
}

#[test]
fn decisions_take_a_path_only_where_they_need_one() {
    assert_eq!(
        core_source_decision(FfiSourceDecisionV2::Reauthorize, &Some(" /p".into())).ok().unwrap(),
        SourceDecision::Reauthorize { local_path: " /p".into() }
    );
    assert_eq!(
        core_source_decision(FfiSourceDecisionV2::ApprovePartial, &Some("/p".into())).ok().unwrap(),
        SourceDecision::ApprovePartial
    );
    assert!(core_source_decision(FfiSourceDecisionV2::Reauthorize, &Some(" ".into())).is_err());
    assert!(prepares_again(FfiSourceDecisionV2::Reauthorize));
    assert!(!prepares_again(FfiSourceDecisionV2::CancelJob));
}

#[test]
fn seals_are_idempotent() {
    let mut handle = handle();
    assert!(handle.needs_seal());
    let seal = |handle: &mut FfiTransferJobV2| {
        handle
            .seal_for_send(done(job(JobLifecycle::Sealed)), &Some(vec![1, 2]), &Some(vec![3]))
            .ok()
            .unwrap()
    };
    assert!(handle.clone_sealed_job().is_err());
    let first = seal(&mut handle);
    assert!(!handle.needs_seal());
    assert!(handle.clone_sealed_job().is_ok());
    let repeated = seal(&mut handle);
    assert_eq!(repeated, first);
    assert_eq!(first.structural_digest, vec![1, 2]);
    assert_eq!(first.offer_bytes, vec![3]);
    let error = handle
        .seal_for_send(done(job(JobLifecycle::Sealed)), &None, &Some(vec![3]))
        .err()
        .unwrap();
    assert_eq!(reason(error), "sealed transfer job is missing its structural digest");
    let error = handle
        .seal_for_send(done(job(JobLifecycle::Sealed)), &Some(vec![1]), &None)
        .err()
        .unwrap();
    assert_eq!(reason(error), "sealed transfer job is missing its canonical offer");
}

#[test]
fn inventories_are_paged() {
    let item = InventoryItem {
        item_id: 1,
        root_item_id: 1,
        parent_item_id: None,
        name: "a".into(),
        kind: ManifestEntryKindV2::Directory,
        plaintext_size: 0,
        digest_known: false,
        has_warning: true,
    };
    let handle = handle();
    let page = handle
        .list_children(
            Some(1),
            Some(0),
            &Ok(InventoryPage {
                revision: 9,
                items: vec![item.clone()],
                next_cursor: Some(InventoryCursor { revision: 9, offset: 4 }),
            }),
        )
        .ok()
        .unwrap();
    assert_eq!(page.revision, 9);
    assert_eq!(page.next_offset, Some(4));
    assert_eq!(page.items[0].kind, FfiInventoryItemKindV2::Directory);
    let error = handle.list_children(Some(1), None, &Err("x".into())).err().unwrap();
    assert_eq!(
        reason(error),
        "cursor_revision and cursor_offset must be both present or absent"
    );
    assert_eq!(inventory_cursor(None, None).ok().unwrap(), None);
    assert_eq!(handle.list_roots(&vec![item.clone()]).len(), 1);
    assert_eq!(handle.get_item(&Some(item)).unwrap().name, "a");
    assert!(handle.get_item(&None).is_none());
}

#[test]
fn only_unsent_preparations_are_restored() {
    let mut empty = job(JobLifecycle::Preparing);
    empty.selections = Vec::new();
    let jobs = vec![
        job(JobLifecycle::Preparing),
        job(JobLifecycle::Sealed),
        job(JobLifecycle::NeedsSourceDecision),
        empty,
        job(JobLifecycle::Canceled),
        job(JobLifecycle::ReadyToSend),
    ];
    let listed = list_preparing_transfer_jobs_v2("/s", &Ok(jobs)).ok().unwrap();
    let states: Vec<FfiTransferJobStateV2> = listed.iter().map(|job| job.state).collect();
    assert_eq!(
        states,
        vec![
            FfiTransferJobStateV2::Preparing,
            FfiTransferJobStateV2::NeedsSourceDecision,
            FfiTransferJobStateV2::ReadyToSend,
        ]
    );
    assert_eq!(
        reason(list_preparing_transfer_jobs_v2("\t", &Ok(Vec::new())).err().unwrap()),
        "store_directory must not be empty"
    );
    assert_eq!(
        reason(list_preparing_transfer_jobs_v2("/s", &Err("unreadable".to_string())).err().unwrap()),
        "unreadable"
    );
}

#[test]
fn jobs_are_created_and_restored_in_a_store() {
    assert_eq!(
        reason(create_transfer_job_v2(" ", Ok(job(JobLifecycle::Preparing))).err().unwrap()),
        "store_directory must not be empty"
    );
    assert_eq!(
        reason(create_transfer_job_v2("/s", Err("no entropy".into())).err().unwrap()),
        "no entropy"
    );
    assert!(restore_key("/s", &"ab".repeat(16)).is_ok());
    assert_eq!(
        reason(restore_key("", "bad").err().unwrap()),
        "store_directory must not be empty"
    );
    assert_eq!(
        reason(restore_transfer_job_v2("/s", &"ab".repeat(16), Ok(None)).err().unwrap()),
        "transfer job was not found"
    );
    assert_eq!(
        reason(restore_transfer_job_v2("/s", &"0".repeat(32), Ok(None)).err().unwrap()),
        "job_id must not be all zero"
    );
    assert_eq!(
        reason(
            restore_transfer_job_v2("/s", &"ab".repeat(16), Err("unreadable".to_string()))
                .err()
                .unwrap()
        ),
        "unreadable"
    );
    let found = Ok(Some(job(JobLifecycle::Sealed)));
    let restored = restore_transfer_job_v2("/s", &"ab".repeat(16), found).ok().unwrap();
    assert_eq!(restored.snapshot().state, FfiTransferJobStateV2::Sealed);
}

#[test]
fn compression_policies_come_back() {
    for policy in [
        FfiCompressionPolicyV2::Never,
        FfiCompressionPolicyV2::Always,
        FfiCompressionPolicyV2::Smart,
    ] {
        assert_eq!(ffi_compression_policy(core_compression_policy(policy)), policy);
    }
    assert_eq!(
        core_compression_policy(FfiCompressionPolicyV2::Always),
        CompressionPolicyV2::Always
    );
}

#[test]
fn staged_sources_keep_their_origin_and_issues() {
    assert_eq!(core_source_origin(FfiSourceOriginV2::Photos), LocalSourceOrigin::PhotosStaging);
    assert_eq!(core_source_origin(FfiSourceOriginV2::Share), LocalSourceOrigin::ShareStaging);
    assert_eq!(
        core_source_origin(FfiSourceOriginV2::ContentUri),
        LocalSourceOrigin::ContentUriStaging
    );
    assert_eq!(
        core_source_origin(FfiSourceOriginV2::FileProvider),
        LocalSourceOrigin::FileProviderStaging
    );
    let issues = core_provider_issues(&vec![
        FfiProviderSourceIssueV2 {
            relative_components: vec!["Album".into(), "a.jpg".into()],
            kind: FfiProviderSourceIssueKindV2::InvalidName,
        },
        FfiProviderSourceIssueV2 {
            relative_components: Vec::new(),
            kind: FfiProviderSourceIssueKindV2::SpecialFile,
        },
    ]);
    assert_eq!(issues.len(), 2);
    assert_eq!(issues[0].relative_components, ["Album", "a.jpg"]);
    assert_eq!(issues[0].kind, SourceIssueKind::InvalidName);
    assert_eq!(issues[1].kind, SourceIssueKind::SpecialFile);
}

#[test]
fn staged_files_have_a_path_and_a_name() {
    assert!(check_transient_file("/tmp/a", "a.jpg").is_ok());
    for (path, name) in [(" ", "a"), ("/tmp/a", "")] {
        assert_eq!(
            reason(check_transient_file(path, name).err().unwrap()),
            "source_path and requested_name must not be empty"
        );
    }
    assert!(check_reauthorized_path("/tmp/a").is_ok());
    assert_eq!(
        reason(check_reauthorized_path(" ").err().unwrap()),
        "reauthorized provider path must not be empty"
    );
}
