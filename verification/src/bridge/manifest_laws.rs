//! What users can count on in transfers of many files: which plans are taken,
//! what a card shows of its entries, and what a transfer starts with.
use vstd::prelude::*;

use crate::bridge::engine::{CanonicalState, ClientContextView, OptionsView};
use crate::bridge::events::{EntryResultView, ManifestEntryResultStatus};
use crate::bridge::manifest::{
    card_of_manifest_record, checked_manifest_context, checked_plan, contexts_ignore_ids_and_limits, current_entry_of, display_name,
    entry_kind_of, entry_phase_of, entry_problem, entry_result_of, file_sources, first_file_source,
    first_problem, is_manifest_progress, manifest_problem, manifest_receive_start_of,
    manifest_send_start_of, manifest_start_of, named_manifest_request, operation_problem, plan_of,
    prepared_entry, projected_context, result_status_of, shows_manifest_card, source_of,
    with_bytes_of, CoreCurrentView, CoreEntryView, EntrySourceView, ManifestActivityView,
    ManifestCardView, ManifestContextView, ManifestEntryKind, ManifestEntryPhase,
    ManifestRecordView, ManifestSnapshotView, ManifestStartView, ManifestView, OperationView,
    PreparedEntryView, PreparedSendView, SendRequestView,
};
use crate::bridge::models::{FfiTransferLimits, RequestView, SettingsView};
use crate::bridge::records::distinct_sources_are_complete;
use crate::bridge::routes::{
    activity_id_text, attempts_of, direction_mode_problem, options_of, parallel_limit, LookupsView,
};
use crate::bridge::snapshot::{card_state_of, is_driven_state};
use crate::text::{decimal, is_blank, trimmed};

verus! {

/// Kinds, phases and results of manifest entries keep their meaning on the way to
/// clients.
pub proof fn manifest_values_keep_their_names(
    kind: ManifestEntryKind,
    phase: ManifestEntryPhase,
    status: ManifestEntryResultStatus,
)
    ensures
        entry_kind_of(kind) is File <==> kind is RegularFile,
        entry_kind_of(kind) is Directory <==> kind is Directory,
        entry_phase_of(phase) is Preparing <==> phase is Preparing,
        entry_phase_of(phase) is Transferring <==> phase is Transferring,
        result_status_of(status) is Completed <==> status is Completed,
        result_status_of(status) is SkippedIdentical <==> status is SkippedIdentical,
        result_status_of(status) is Renamed <==> status is Renamed,
        result_status_of(status) is Failed <==> status is Failed,
        result_status_of(status) is Canceled <==> status is Cancelled,
{
}

/// The source of an entry is found by its id: the found path is one that the id
/// was given, and none is found exactly where the id has none.
pub proof fn sources_are_found_by_their_entry(sources: Seq<EntrySourceView>, entry_id: u32)
    ensures
        source_of(sources, entry_id) is None <==> forall|i: int|
            0 <= i < sources.len() ==> (#[trigger] sources[i]).entry_id != entry_id,
        source_of(sources, entry_id) matches Some(path) ==> exists|i: int|
            0 <= i < sources.len() && (#[trigger] sources[i]).entry_id == entry_id
                && sources[i].path == path,
    decreases sources.len(),
{
    if sources.len() > 0 {
        let rest = sources.skip(1);
        sources_are_found_by_their_entry(rest, entry_id);
        if sources[0].entry_id != entry_id {
            if let Some(path) = source_of(rest, entry_id) {
                let i = choose|i: int|
                    0 <= i < rest.len() && (#[trigger] rest[i]).entry_id == entry_id
                        && rest[i].path == path;
                assert(sources[i + 1].entry_id == entry_id);
            } else {
                assert forall|i: int| 0 <= i < sources.len() implies (
                #[trigger] sources[i]).entry_id != entry_id by {
                    if i > 0 {
                        assert(rest[i - 1] == sources[i]);
                    }
                }
            }
        }
    }
}

/// A file needs its hash and a source, and a directory has neither; nothing else
/// is wrong with an entry.
pub proof fn entries_are_whole(entry: PreparedEntryView)
    ensures
        entry_problem(entry) is None <==> (entry.kind is File && entry.hash.len() == 32
            && entry.source_path.len() > 0) || (entry.kind is Directory && entry.hash.len() == 0
            && entry.source_path.len() == 0),
        entry.kind is File && entry.hash.len() != 32 ==> entry_problem(entry) == Some(
            "Manifest file entry "@ + decimal(entry.entry_id as nat)
                + " must have a 32-byte hash"@,
        ),
        entry.kind is File && entry.hash.len() == 32 && entry.source_path.len() == 0
            ==> entry_problem(entry) == Some("source_path must not be empty"@),
{
}

/// A plan is taken exactly where it has an id and each of its entries is whole,
/// and the engine does not refuse it. It reaches the engine entry by entry.
pub proof fn plans_are_taken_entry_by_entry(plan: PreparedSendView, refused: Option<Seq<char>>)
    ensures
        checked_plan(plan, refused) is Ok <==> !is_blank(plan.manifest_id) && refused is None
            && forall|i: int|
            0 <= i < plan.entries.len() ==> entry_problem(#[trigger] plan.entries[i]) is None,
        checked_plan(plan, refused) matches Ok(request) ==> {
            &&& request.manifest.manifest_id == trimmed(plan.manifest_id)
            &&& request.manifest.file_count == plan.file_count
            &&& request.manifest.directory_count == plan.directory_count
            &&& request.manifest.root_count == plan.root_count
            &&& request.manifest.total_bytes == plan.total_bytes
            &&& request.manifest.entries.len() == plan.entries.len()
            &&& forall|i: int|
                #![trigger plan.entries[i]]
                0 <= i < plan.entries.len() ==> {
                    let entry = plan.entries[i];
                    let core = request.manifest.entries[i];
                    &&& core.entry_id == entry.entry_id
                    &&& core.relative_path == entry.relative_path
                    &&& core.size == entry.size
                    &&& core.modified_at_unix_ms == entry.modified_at_unix_ms
                    &&& core.kind is RegularFile <==> entry.kind is File
                    &&& core.kind is Directory <==> entry.kind is Directory
                    &&& entry.kind is File ==> core.hash is Some && core.hash->0.bytes
                        == entry.hash
                    &&& entry.kind is Directory ==> core.hash is None
                }
        },
        !is_blank(plan.manifest_id) && first_problem(plan.entries) is None ==> (
        refused matches Some(reason) ==> checked_plan(plan, refused) == Err::<
            SendRequestView,
            Seq<char>,
        >(reason)),
{
    problems_are_found_entry_by_entry(plan.entries);
}

proof fn problems_are_found_entry_by_entry(entries: Seq<PreparedEntryView>)
    ensures
        first_problem(entries) is None <==> forall|i: int|
            0 <= i < entries.len() ==> entry_problem(#[trigger] entries[i]) is None,
    decreases entries.len(),
{
    if entries.len() > 0 {
        let before = entries.drop_last();
        problems_are_found_entry_by_entry(before);
        assert(entries.last() == entries[entries.len() - 1]);
        assert(forall|i: int| 0 <= i < before.len() ==> #[trigger] before[i] == entries[i]);
        if first_problem(entries) is None {
            assert forall|i: int| 0 <= i < entries.len() implies entry_problem(
                #[trigger] entries[i],
            ) is None by {
                if i < before.len() {
                    assert(before[i] == entries[i]);
                }
            }
        }
        if forall|i: int|
            0 <= i < entries.len() ==> entry_problem(#[trigger] entries[i]) is None {
            assert forall|i: int| 0 <= i < before.len() implies entry_problem(
                #[trigger] before[i],
            ) is None by {
                assert(before[i] == entries[i]);
            }
        }
    }
}

/// Every file of a plan has its own source, and nothing else has one.
pub proof fn files_keep_their_source(entries: Seq<PreparedEntryView>, source: EntrySourceView)
    ensures
        file_sources(entries).contains(source) <==> exists|i: int|
            0 <= i < entries.len() && (#[trigger] entries[i]).kind is File && entries[i].entry_id
                == source.entry_id && entries[i].source_path == source.path,
        file_sources(entries).len() <= entries.len(),
    decreases entries.len(),
{
    if entries.len() > 0 {
        let before = entries.drop_last();
        let listed = file_sources(before);
        files_keep_their_source(before, source);
        let last = entries.last();
        assert(last == entries[entries.len() - 1]);
        let own = EntrySourceView { entry_id: last.entry_id, path: last.source_path };
        assert(last.kind is File ==> listed.push(own)[listed.len() as int] == own);
        if listed.contains(source) {
            let k = choose|k: int| 0 <= k < listed.len() && listed[k] == source;
            assert(listed.push(own)[k] == source);
            let i = choose|i: int|
                0 <= i < before.len() && (#[trigger] before[i]).kind is File && before[i].entry_id
                    == source.entry_id && before[i].source_path == source.path;
            assert(entries[i] == before[i]);
        }
        if file_sources(entries).contains(source) && !listed.contains(source) {
            let k = choose|k: int|
                0 <= k < file_sources(entries).len() && file_sources(entries)[k] == source;
            assert(k < listed.len() ==> listed[k] == source);
        }
        if exists|i: int|
            0 <= i < entries.len() && (#[trigger] entries[i]).kind is File && entries[i].entry_id
                == source.entry_id && entries[i].source_path == source.path {
            let i = choose|i: int|
                0 <= i < entries.len() && (#[trigger] entries[i]).kind is File
                    && entries[i].entry_id == source.entry_id && entries[i].source_path
                    == source.path;
            if i < before.len() {
                assert(before[i] == entries[i]);
            } else {
                assert(own == source);
            }
        }
    }
}

/// An entry is shown with its own id, path, size and hash; only a file shows a
/// source.
pub proof fn entries_are_shown_as_they_are(
    entry: CoreEntryView,
    source: Seq<char>,
    request: SendRequestView,
    i: int,
)
    ensures
        prepared_entry(entry, source).entry_id == entry.entry_id,
        prepared_entry(entry, source).relative_path == entry.relative_path,
        prepared_entry(entry, source).size == entry.size,
        prepared_entry(entry, source).modified_at_unix_ms == entry.modified_at_unix_ms,
        prepared_entry(entry, source).source_path == source,
        entry.hash is Some ==> prepared_entry(entry, source).hash == entry.hash->0.bytes,
        entry.hash is None ==> prepared_entry(entry, source).hash.len() == 0,
        plan_of(request).manifest_id == request.manifest.manifest_id,
        plan_of(request).total_bytes == request.manifest.total_bytes,
        plan_of(request).file_count == request.manifest.file_count,
        plan_of(request).directory_count == request.manifest.directory_count,
        plan_of(request).root_count == request.manifest.root_count,
        plan_of(request).entries.len() == request.manifest.entries.len(),
        0 <= i < request.manifest.entries.len() ==> plan_of(request).entries[i].entry_id
            == request.manifest.entries[i].entry_id && (request.manifest.entries[i].kind
            is Directory ==> plan_of(request).entries[i].source_path.len() == 0) && (
        request.manifest.entries[i].kind is RegularFile ==> (source_of(
            request.source_paths,
            request.manifest.entries[i].entry_id,
        ) matches Some(path) ==> plan_of(request).entries[i].source_path == path)),
{
}

/// A result is shown under its own entry, and the entry that is under way with its
/// own bytes.
pub proof fn results_are_shown_as_they_are(result: EntryResultView, current: CoreCurrentView)
    ensures
        entry_result_of(result).entry_id == result.entry_id,
        entry_result_of(result).offered_relative_path == result.offered_relative_path,
        result.final_relative_path matches Some(path) ==> entry_result_of(
            result,
        ).final_relative_path == path,
        result.failure_code matches Some(code) ==> entry_result_of(result).failure_code == code,
        result.final_relative_path is None ==> entry_result_of(result).final_relative_path.len()
            == 0,
        result.failure_code is None ==> entry_result_of(result).failure_code.len() == 0,
        entry_result_of(result).status == result_status_of(result.status),
        current_entry_of(current).entry_id == current.entry_id,
        current_entry_of(current).relative_path == current.relative_path,
        current_entry_of(current).bytes_transferred == current.bytes,
        current_entry_of(current).total_bytes == current.total,
        current_entry_of(current).bytes_resumed == current.bytes_resumed,
        current.transfer_id matches Some(id) ==> current_entry_of(current).transfer_id == id,
        current_entry_of(current).phase == entry_phase_of(current.phase),
{
}

/// A transfer of many roots is named by their number, and one of a single root by
/// that root.
pub proof fn manifests_are_named_by_their_roots(manifest: ManifestView)
    ensures
        manifest.root_count != 1 ==> display_name(manifest) == decimal(manifest.root_count as nat)
            + " items"@,
        manifest.root_count == 1 && manifest.entries.len() > 0 ==> display_name(manifest)
            == manifest.entries[0].relative_path,
        manifest.root_count == 1 && manifest.entries.len() == 0 ==> display_name(manifest)
            == manifest.manifest_id,
{
}

/// A card shows the manifest of its latest snapshot: its state, its counts, its
/// entries without their sources, and every result.
pub proof fn manifest_snapshots_show_the_manifest(
    card: ManifestCardView,
    snapshot: ManifestSnapshotView,
    path: Seq<char>,
    ts_ms: u64,
    i: int,
)
    ensures
        ({
            let after = card.after_manifest_snapshot(snapshot, path, ts_ms);
            let seen = snapshot.activity;
            &&& after.activity.activity_id == card.activity.activity_id
            &&& after.activity.state == card_state_of(seen.session.state)
            &&& after.activity.sequence == snapshot.seq
            &&& after.activity.updated_at_ms == ts_ms
            &&& after.activity.bytes_transferred == seen.session.bytes
            &&& after.completed_files == seen.completed_files
            &&& after.entry_results.len() == seen.entry_results.len()
            &&& 0 <= i < seen.entry_results.len() ==> after.entry_results[i] == entry_result_of(
                seen.entry_results[i],
            )
            &&& seen.current_entry is None <==> after.current_entry is None
            &&& seen.current_entry matches Some(entry) ==> after.current_entry == Some(
                current_entry_of(entry),
            )
            &&& seen.manifest is None ==> after.manifest_id.len() == 0 && after.entries.len() == 0
                && after.file_count == 0
            &&& seen.manifest matches Some(manifest) ==> {
                &&& after.manifest_id == manifest.manifest_id
                &&& after.root_count == manifest.root_count
                &&& after.file_count == manifest.file_count
                &&& after.directory_count == manifest.directory_count
                &&& after.activity.file_name == display_name(manifest)
                &&& after.entries.len() == manifest.entries.len()
                &&& 0 <= i < manifest.entries.len() ==> after.entries[i].entry_id
                    == manifest.entries[i].entry_id && after.entries[i].relative_path
                    == manifest.entries[i].relative_path && after.entries[i].size
                    == manifest.entries[i].size && after.entries[i].source_path.len() == 0
            }
        }),
{
}

/// A stored transfer of many files goes the way of its operation, with its own
/// sources and options.
pub proof fn manifest_contexts_keep_their_operation(context: ManifestContextView)
    ensures
        ({
            let plain = projected_context(context);
            &&& plain.client == context.client
            &&& plain.params.sources == context.params.sources
            &&& plain.params.options == context.params.options
            &&& plain.params.publication_required == context.params.publication_required
            &&& plain.params.direction is Send <==> context.params.operation is Send
            &&& plain.params.direction is Receive <==> context.params.operation is Receive
            &&& context.params.operation matches OperationView::Receive { output_dir }
                ==> plain.params.path == output_dir
            &&& context.params.operation matches OperationView::Send { request } ==> (
            request.manifest.entries.len() > 0 && request.manifest.entries[0].kind is RegularFile
                ==> (source_of(request.source_paths, request.manifest.entries[0].entry_id)
                matches Some(path) ==> plain.params.path == path))
        }),
{
    if let OperationView::Send { request } = context.params.operation {
        reveal_with_fuel(first_file_source, 2);
    }
}

/// A restored transfer of many files goes by the id of its request, and one that was
/// driven when the app ended comes back paused.
pub proof fn restored_manifests_can_be_resumed(
    request: RequestView,
    record: ManifestRecordView,
    path: Seq<char>,
)
    ensures
        card_of_manifest_record(request, record, path).activity.activity_id
            == request.activity_id,
        card_of_manifest_record(request, record, path).completed_files
            == record.activity.completed_files,
        is_driven_state(record.activity.session.state) ==> card_of_manifest_record(
            request,
            record,
            path,
        ).activity.state is Paused && card_of_manifest_record(
            request,
            record,
            path,
        ).activity.actions().can_resume,
        record.activity.session.state is Completed ==> card_of_manifest_record(
            request,
            record,
            path,
        ).activity.state is Completed,
{
}

/// A transfer of many files is taken exactly where its mode fits its direction, a
/// receiver names its directory, and its client, options and attempts are in order.
pub proof fn manifest_requests_are_taken_when_they_can_be_served(
    settings: SettingsView,
    request: RequestView,
    client_error: Option<Seq<char>>,
    lookups: LookupsView,
)
    ensures
        manifest_problem(settings, request, client_error, lookups) is None
            <==> direction_mode_problem(request.direction, request.mode) is None && (
        request.direction is Receive ==> !is_blank(request.output_dir)) && client_error is None
            && options_of(settings, request, request.path_policy) is Ok && attempts_of(
            settings,
            request,
            lookups,
        ) is Ok,
{
}

/// A context of many files holds the operation as it is, and every planned source
/// once; the engine may still refuse it.
pub proof fn manifest_contexts_hold_their_request(
    settings: SettingsView,
    request: RequestView,
    operation: OperationView,
    client: Result<ClientContextView, Seq<char>>,
    lookups: LookupsView,
    refused: Option<Seq<char>>,
)
    ensures
        checked_manifest_context(settings, request, operation, client, lookups, refused) is Ok
            <==> refused is None && client is Ok && attempts_of(settings, request, lookups) is Ok
            && options_of(settings, request, request.path_policy) is Ok,
        checked_manifest_context(
            settings,
            request,
            operation,
            client,
            lookups,
            refused,
        ) matches Ok(context) ==> {
            let attempts = attempts_of(settings, request, lookups)->Ok_0;
            &&& client == Ok::<ClientContextView, Seq<char>>(context.client)
            &&& context.params.operation == operation
            &&& context.params.publication_required == request.publication_required
            &&& options_of(settings, request, request.path_policy) == Ok::<OptionsView, Seq<char>>(
                context.params.options,
            )
            &&& context.params.sources.no_duplicates()
            &&& forall|i: int|
                0 <= i < attempts.len() ==> context.params.sources.contains(
                    (#[trigger] attempts[i]).source,
                )
        },
{
    if let Ok(attempts) = attempts_of(settings, request, lookups) {
        distinct_sources_are_complete(attempts);
    }
}

/// A transfer of many files goes by its own id, else by its plan's, else by a new
/// one; nothing else of the request changes.
pub proof fn manifest_transfers_go_by_their_id(
    request: RequestView,
    operation: OperationView,
    next_activity: u64,
)
    ensures
        ({
            let named = named_manifest_request(request, operation, next_activity);
            &&& !is_blank(request.activity_id) ==> named == request
            &&& is_blank(request.activity_id) ==> (operation matches OperationView::Send {
                request: plan,
            } ==> named.activity_id == plan.manifest.manifest_id)
            &&& is_blank(request.activity_id) && operation is Receive ==> named.activity_id
                == activity_id_text(next_activity)
            &&& named == (RequestView { activity_id: named.activity_id, ..request })
        }),
{
}

/// An operation fits its request exactly where both go the same way and a plan
/// has the request's id.
pub proof fn operations_fit_their_request(request: RequestView, operation: OperationView)
    ensures
        operation_problem(request, operation) is None <==> (operation is Send
            ==> request.direction is Send) && (operation is Receive ==> request.direction
            is Receive) && (operation matches OperationView::Send { request: plan }
            ==> plan.manifest.manifest_id == request.activity_id),
        operation matches OperationView::Send { request: plan } ==> (plan.manifest.manifest_id
            != request.activity_id ==> operation_problem(request, operation) == Some(
            "prepared Manifest id must match activity_id"@,
        )),
{
}

/// A transfer of many files starts exactly where its operation fits, it can be
/// served, and it has a directory for its records and a context. It starts with
/// them.
pub proof fn manifest_transfers_start_from_their_operation(
    settings: SettingsView,
    request: RequestView,
    operation: OperationView,
    records_dir: Seq<char>,
    client: Result<ClientContextView, Seq<char>>,
    client_error: Option<Seq<char>>,
    lookups: LookupsView,
    refused: Option<Seq<char>>,
)
    ensures
        manifest_start_of(
            settings,
            request,
            operation,
            records_dir,
            client,
            client_error,
            lookups,
            refused,
        ) matches Ok(start) ==> {
            &&& operation_problem(request, operation) is None
            &&& !is_blank(records_dir)
            &&& start.records_dir == trimmed(records_dir)
            &&& start.context.params.operation == operation
            &&& start.request.activity_id == request.activity_id
            &&& start.request.direction == request.direction
            &&& start.request.mode == request.mode
            &&& start.request.token == request.token
            &&& start.request.code == request.code
            &&& !settings.concurrent_transfers ==> start.request.limits.max_parallel_transfers == 1
            &&& start.extras.external_record_id == Some(request.activity_id)
            &&& start.extras.publication is None
        },
        operation_problem(request, operation) matches Some(reason) ==> manifest_start_of(
            settings,
            request,
            operation,
            records_dir,
            client,
            client_error,
            lookups,
            refused,
        ) == Err::<ManifestStartView, Seq<char>>(reason),
{
}

/// A send of many files starts with its checked plan, and a receive with its
/// directory; without either nothing starts.
pub proof fn manifest_starts_need_a_plan_or_a_directory(
    settings: SettingsView,
    request: RequestView,
    prepared: PreparedSendView,
    records_dir: Seq<char>,
    client: Result<ClientContextView, Seq<char>>,
    client_error: Option<Seq<char>>,
    lookups: LookupsView,
    plan_refused: Option<Seq<char>>,
    context_refused: Option<Seq<char>>,
    next_activity: u64,
)
    ensures
        manifest_send_start_of(
            settings,
            request,
            prepared,
            records_dir,
            client,
            client_error,
            lookups,
            plan_refused,
            context_refused,
            next_activity,
        ) matches Ok(start) ==> checked_plan(prepared, plan_refused) is Ok
            && start.context.params.operation == (OperationView::Send {
            request: checked_plan(prepared, plan_refused)->Ok_0,
        }) && start.request.direction is Send && start.request.activity_id == trimmed(
            prepared.manifest_id,
        ),
        manifest_receive_start_of(
            settings,
            request,
            records_dir,
            client,
            client_error,
            lookups,
            context_refused,
            next_activity,
        ) matches Ok(start) ==> !is_blank(request.output_dir) && start.context.params.operation
            == (OperationView::Receive { output_dir: trimmed(request.output_dir) })
            && start.request.direction is Receive,
{
}

/// A snapshot of many files brings only progress exactly where bytes moved and
/// nothing else did.
pub proof fn manifest_progress_is_recognised(
    previous: ManifestActivityView,
    current: ManifestActivityView,
)
    ensures
        is_manifest_progress(previous, current) ==> previous.session.state == current.session.state
            && previous.completed_files == current.completed_files && previous.entry_results
            == current.entry_results && previous.manifest == current.manifest && previous
            != current,
        previous == current ==> !is_manifest_progress(previous, current),
        with_bytes_of(current, previous).session.bytes == previous.session.bytes,
        with_bytes_of(current, previous).completed_files == current.completed_files,
{
}

/// A card of many files is shown at once for anything but progress, in the end, and
/// the first time; progress in between is shown twice a second at most.
pub proof fn manifest_cards_are_shown_when_they_matter(
    progress_only: bool,
    state: CanonicalState,
    last_ms: u64,
    now_ms: u64,
)
    ensures
        !progress_only ==> shows_manifest_card(progress_only, state, last_ms, now_ms),
        state is Completed || state is Failed || state is Cancelled || state is AwaitingPublication
            ==> shows_manifest_card(progress_only, state, last_ms, now_ms),
        last_ms == 0 || now_ms - last_ms >= 500 ==> shows_manifest_card(
            progress_only,
            state,
            last_ms,
            now_ms,
        ),
        progress_only && state is Transferring && last_ms != 0 && now_ms - last_ms < 500
            ==> !shows_manifest_card(progress_only, state, last_ms, now_ms),
{
}

/// A transfer of many files starts exactly where nothing is in its way, which is
/// told in one order: its operation, its request, the directory of its records, its
/// context.
pub proof fn refused_manifest_starts_say_why(
    settings: SettingsView,
    request: RequestView,
    operation: OperationView,
    records_dir: Seq<char>,
    client: Result<ClientContextView, Seq<char>>,
    client_error: Option<Seq<char>>,
    lookups: LookupsView,
    refused: Option<Seq<char>>,
)
    ensures
        ({
            let start = manifest_start_of(
                settings,
                request,
                operation,
                records_dir,
                client,
                client_error,
                lookups,
                refused,
            );
            let fits = operation_problem(request, operation) is None;
            let problem = manifest_problem(settings, request, client_error, lookups);
            let context = checked_manifest_context(
                settings,
                request,
                operation,
                client,
                lookups,
                refused,
            );
            &&& start is Ok <==> fits && problem is None && !is_blank(records_dir) && context is Ok
            &&& fits ==> (problem matches Some(reason) ==> start == Err::<
                ManifestStartView,
                Seq<char>,
            >(reason))
            &&& fits && problem is None && is_blank(records_dir) ==> start == Err::<
                ManifestStartView,
                Seq<char>,
            >("records_dir"@ + " must not be empty"@)
            &&& fits && problem is None && !is_blank(records_dir) ==> (context matches Err(reason)
                ==> start == Err::<ManifestStartView, Seq<char>>(reason))
        }),
{
    let limited = RequestView {
        limits: FfiTransferLimits {
            max_parallel_transfers: parallel_limit(settings.concurrent_transfers, request.limits),
            ..request.limits
        },
        ..request
    };
    contexts_ignore_ids_and_limits(settings, request, limited, operation, client, lookups);
    limits_do_not_matter_for_attempts(settings, request, limited, lookups);
}

proof fn limits_do_not_matter_for_attempts(
    settings: SettingsView,
    request: RequestView,
    limited: RequestView,
    lookups: LookupsView,
)
    requires
        limited == (RequestView { limits: limited.limits, ..request }),
    ensures
        attempts_of(settings, limited, lookups) == attempts_of(settings, request, lookups),
        options_of(settings, limited, limited.path_policy) == options_of(
            settings,
            request,
            request.path_policy,
        ),
        direction_mode_problem(limited.direction, limited.mode) == direction_mode_problem(
            request.direction,
            request.mode,
        ),
{
}

} // verus!
