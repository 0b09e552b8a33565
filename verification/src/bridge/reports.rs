//! What observers are told when a transfer ends, fails to start or changes
//! state.
use vstd::prelude::*;
use vstd::string::*;

use crate::bridge::activity::failure_from_activity;
use crate::bridge::engine::{
    EngineFailureView, SummaryView, TransferError, TransferFailure, TransferSummary,
};
use crate::bridge::events::{callback_views, CallbackView, TransferCallback};
use crate::bridge::models::{
    ActivityView, EnvoixError, FailureView, FfiFailureCategory, FfiFailureCode, FfiFailurePhase,
    FfiRecoveryAction, FfiTransferActivityRecord, FfiTransferActivityState, FfiTransferDirection,
    FfiTransferFailure, FfiTransferRequest, RequestView,
};
use crate::bridge::projection::{
    direction_of, failure_category_of, failure_code_of, failure_origin_of, failure_phase_of,
    ffi_direction, ffi_failure_category, ffi_failure_code, ffi_failure_origin, ffi_failure_phase,
    ffi_recovery_action, recovery_action_of,
};
use crate::common::FfiFailureOrigin;
use crate::paths::{is_joined_path, path_join};
use crate::text::is_blank;

verus! {

broadcast use vstd::seq_lib::group_seq_properties;

/// The failure of a transfer that could not be set up.
pub open spec fn setup_failure_of(
    reason: Seq<char>,
    direction: FfiTransferDirection,
    attempt_id: Seq<char>,
) -> FailureView {
    FailureView {
        code: FfiFailureCode::InternalError,
        category: FfiFailureCategory::Internal,
        phase: FfiFailurePhase::Setup,
        origin: FfiFailureOrigin::Local,
        direction,
        transfer_id: Seq::empty(),
        attempt_id,
        retryable: true,
        recovery_action: FfiRecoveryAction::Retry,
        user_message_key: "transfer.setup_failed"@,
        diagnostic_message: reason,
    }
}

/// The failure of a transfer that could not be set up.
pub fn setup_failure(
    reason: String,
    direction: FfiTransferDirection,
    activity: &FfiTransferActivityRecord,
) -> (r: FfiTransferFailure)
    ensures
        r@ == setup_failure_of(reason@, direction, activity@.attempt_id),
{
    FfiTransferFailure {
        code: FfiFailureCode::InternalError,
        category: FfiFailureCategory::Internal,
        phase: FfiFailurePhase::Setup,
        origin: FfiFailureOrigin::Local,
        direction,
        transfer_id: String::new(),
        attempt_id: activity.attempt_id.clone(),
        retryable: true,
        recovery_action: FfiRecoveryAction::Retry,
        user_message_key: "transfer.setup_failed".to_owned(),
        diagnostic_message: reason,
    }
}

/// Ends a card that could not be set up and lists the observer calls.
pub fn report_activity_setup_failure(
    activity: &mut FfiTransferActivityRecord,
    error: &EnvoixError,
    now_ms: u64,
) -> (r: Vec<TransferCallback>)
    ensures
        ({
            let failure = setup_failure_of(
                error.reason_view(),
                old(activity)@.direction,
                old(activity)@.attempt_id,
            );
            &&& final(activity)@ == old(activity)@.failed(failure, now_ms)
            &&& callback_views(r@) == seq![
                CallbackView::Activity { record: final(activity)@ },
                CallbackView::TransferFailed { failure },
                CallbackView::Failed { reason: error.reason_view() },
            ]
        }),
{
    let message = error.message();
    let failure = setup_failure(message.clone(), activity.direction, activity);
    activity.apply_failure(&failure, now_ms);
    let mut calls: Vec<TransferCallback> = Vec::new();
    calls.push(TransferCallback::Activity { record: activity.clone() });
    calls.push(TransferCallback::TransferFailed { failure });
    calls.push(TransferCallback::Failed { reason: message });
    assert(callback_views(calls@) =~= seq![calls@[0]@, calls@[1]@, calls@[2]@]);
    calls
}

/// The native form of an engine failure; ids that the engine leaves open are
/// those of the card.
pub open spec fn failure_of(failure: EngineFailureView, card: ActivityView) -> FailureView {
    FailureView {
        code: failure_code_of(failure.code),
        category: failure_category_of(failure.category),
        phase: failure_phase_of(failure.phase),
        origin: failure_origin_of(failure.origin),
        direction: direction_of(failure.direction),
        transfer_id: match failure.transfer_id {
            Some(id) => id,
            None => card.transfer_id,
        },
        attempt_id: match failure.attempt_id {
            Some(id) => id,
            None => card.attempt_id,
        },
        retryable: failure.retryable,
        recovery_action: recovery_action_of(failure.recovery_action),
        user_message_key: failure.user_message_key,
        diagnostic_message: failure.diagnostic_message,
    }
}

/// Projects an engine failure onto the card that it ends.
pub fn to_ffi_failure(failure: &TransferFailure, activity: &FfiTransferActivityRecord) -> (r:
    FfiTransferFailure)
    ensures
        r@ == failure_of(failure@, activity@),
{
    FfiTransferFailure {
        code: ffi_failure_code(failure.code),
        category: ffi_failure_category(failure.category),
        phase: ffi_failure_phase(failure.phase),
        origin: ffi_failure_origin(failure.origin),
        direction: ffi_direction(failure.direction),
        transfer_id: match &failure.transfer_id {
            Some(id) => id.clone(),
            None => activity.transfer_id.clone(),
        },
        attempt_id: match &failure.attempt_id {
            Some(id) => id.clone(),
            None => activity.attempt_id.clone(),
        },
        retryable: failure.retryable,
        recovery_action: ffi_recovery_action(failure.recovery_action),
        user_message_key: failure.user_message_key.clone(),
        diagnostic_message: failure.diagnostic_message.clone(),
    }
}

/// Where a received file can be found: in the output directory of a receive,
/// under the name the peer gave it; nowhere otherwise.
pub open spec fn is_received_path(request: RequestView, summary: SummaryView, path: Seq<char>) -> bool {
    if request.direction != FfiTransferDirection::Receive || is_blank(request.output_dir)
        || summary.file_name.len() == 0 {
        path.len() == 0
    } else {
        is_joined_path(request.output_dir, summary.file_name, path)
    }
}

/// Finds the file that a finished request received.
pub fn completed_file_path_for_request(request: &FfiTransferRequest, summary: &TransferSummary) -> (r:
    String)
    ensures
        is_received_path(request@, summary@, r@),
{
    if request.direction != FfiTransferDirection::Receive
        || request.output_dir.as_str().trim().is_empty()
        || summary.file_name.as_str().is_empty() {
        return String::new();
    }
    path_join(request.output_dir.as_str(), summary.file_name.as_str())
}

/// A failure as it reads after the local user canceled.
pub open spec fn as_canceled(failure: FailureView) -> FailureView {
    FailureView {
        code: FfiFailureCode::UserCanceled,
        category: FfiFailureCategory::User,
        origin: FfiFailureOrigin::Local,
        retryable: false,
        recovery_action: FfiRecoveryAction::NoAction,
        user_message_key: "transfer.user_canceled"@,
        diagnostic_message: "canceled"@,
        ..failure
    }
}

/// Ends a card in success and lists the observer calls.
pub fn report_success(
    activity: &mut FfiTransferActivityRecord,
    summary: &TransferSummary,
    completed_file_path: String,
    now_ms: u64,
) -> (r: Vec<TransferCallback>)
    ensures
        final(activity)@ == old(activity)@.completed(summary@, now_ms, completed_file_path@),
        callback_views(r@) == seq![
            CallbackView::Activity { record: final(activity)@ },
            CallbackView::Completed { bytes: summary@.bytes_transferred },
        ],
{
    activity.apply_completed(summary, now_ms, completed_file_path);
    let mut calls: Vec<TransferCallback> = Vec::new();
    calls.push(TransferCallback::Activity { record: activity.clone() });
    calls.push(TransferCallback::Completed { bytes: summary.bytes_transferred });
    assert(callback_views(calls@) =~= seq![calls@[0]@, calls@[1]@]);
    calls
}

/// Ends a card in an error, or as canceled where that was asked for, and lists
/// the observer calls.
pub fn report_error(
    activity: &mut FfiTransferActivityRecord,
    error: &TransferError,
    cancel_requested: bool,
    now_ms: u64,
) -> (r: Vec<TransferCallback>)
    ensures
        ({
            let failure = failure_of(error@.failure, old(activity)@);
            let shown = if cancel_requested {
                as_canceled(failure)
            } else {
                failure
            };
            &&& final(activity)@ == (if cancel_requested {
                old(activity)@.canceled(now_ms)
            } else {
                old(activity)@.failed(failure, now_ms)
            })
            &&& callback_views(r@) == seq![
                CallbackView::Activity { record: final(activity)@ },
                CallbackView::TransferFailed { failure: shown },
                CallbackView::Failed { reason: error@.message },
            ]
        }),
{
    let mut failure = to_ffi_failure(&error.failure, activity);
    if cancel_requested {
        activity.apply_canceled(now_ms);
        failure.code = FfiFailureCode::UserCanceled;
        failure.category = FfiFailureCategory::User;
        failure.origin = FfiFailureOrigin::Local;
        failure.retryable = false;
        failure.recovery_action = FfiRecoveryAction::NoAction;
        failure.user_message_key = "transfer.user_canceled".to_owned();
        failure.diagnostic_message = "canceled".to_owned();
    } else {
        activity.apply_failure(&failure, now_ms);
    }
    let mut calls: Vec<TransferCallback> = Vec::new();
    calls.push(TransferCallback::Activity { record: activity.clone() });
    calls.push(TransferCallback::TransferFailed { failure });
    calls.push(TransferCallback::Failed { reason: error.message.clone() });
    assert(callback_views(calls@) =~= seq![calls@[0]@, calls@[1]@, calls@[2]@]);
    calls
}

/// The reports of a card that ended: success, or a failure and its text.
pub open spec fn is_terminal_report(calls: Seq<CallbackView>) -> bool {
    ||| calls.len() == 2 && calls[0] is Activity && calls[1] is Completed
    ||| calls.len() == 3 && calls[0] is Activity && calls[1] is TransferFailed && calls[2] is Failed
}

/// Reports the single terminal outcome of a transfer.
pub fn report_terminal(
    activity: &mut FfiTransferActivityRecord,
    request: &FfiTransferRequest,
    result: &Result<TransferSummary, TransferError>,
    cancel_requested: bool,
    now_ms: u64,
) -> (r: Vec<TransferCallback>)
    ensures
        is_terminal_report(callback_views(r@)),
        match *result {
            Ok(summary) => {
                &&& is_received_path(request@, summary@, final(activity)@.completed_file_path)
                &&& final(activity)@ == old(activity)@.completed(
                    summary@,
                    now_ms,
                    final(activity)@.completed_file_path,
                )
                &&& callback_views(r@) == seq![
                    CallbackView::Activity { record: final(activity)@ },
                    CallbackView::Completed { bytes: summary@.bytes_transferred },
                ]
            },
            Err(error) => {
                let failure = failure_of(error@.failure, old(activity)@);
                &&& final(activity)@ == (if cancel_requested {
                    old(activity)@.canceled(now_ms)
                } else {
                    old(activity)@.failed(failure, now_ms)
                })
                &&& callback_views(r@) == seq![
                    CallbackView::Activity { record: final(activity)@ },
                    CallbackView::TransferFailed {
                        failure: if cancel_requested {
                            as_canceled(failure)
                        } else {
                            failure
                        },
                    },
                    CallbackView::Failed { reason: error@.message },
                ]
            },
        },
{
    match result {
        Ok(summary) => {
            let path = completed_file_path_for_request(request, summary);
            report_success(activity, summary, path, now_ms)
        },
        Err(error) => report_error(activity, error, cancel_requested, now_ms),
    }
}

/// The status shown for a queued card that the user canceled.
pub open spec fn queued_cancel_status(state: FfiTransferActivityState) -> Seq<char> {
    if state == FfiTransferActivityState::Paused {
        "canceled paused transfer"@
    } else {
        "canceled before start"@
    }
}

/// Ends a queued or paused card as canceled and lists the observer calls.
pub fn report_queued_cancel(activity: &mut FfiTransferActivityRecord, now_ms: u64) -> (r: Vec<
    TransferCallback,
>)
    ensures
        final(activity)@ == old(activity)@.canceled(now_ms),
        callback_views(r@) == seq![
            CallbackView::Activity { record: final(activity)@ },
            CallbackView::Status { message: queued_cancel_status(old(activity)@.state) },
        ],
{
    let message = if activity.state == FfiTransferActivityState::Paused {
        "canceled paused transfer"
    } else {
        "canceled before start"
    };
    activity.apply_canceled(now_ms);
    let mut calls: Vec<TransferCallback> = Vec::new();
    calls.push(TransferCallback::Activity { record: activity.clone() });
    calls.push(TransferCallback::Status { message: message.to_owned() });
    assert(callback_views(calls@) =~= seq![calls@[0]@, calls@[1]@]);
    calls
}

/// What observers are told when a durable card enters a new state.
pub open spec fn transition_callbacks(card: ActivityView) -> Seq<CallbackView> {
    match card.state {
        FfiTransferActivityState::Completed => seq![
            CallbackView::Status { message: "completed"@ },
            CallbackView::Completed { bytes: card.bytes_transferred },
        ],
        FfiTransferActivityState::Failed | FfiTransferActivityState::Canceled => seq![
            CallbackView::Status { message: card.diagnostic_message },
            CallbackView::TransferFailed { failure: card.described_failure() },
            CallbackView::Failed { reason: card.diagnostic_message },
        ],
        FfiTransferActivityState::Paused => seq![
            CallbackView::Status { message: card.diagnostic_message },
        ],
        FfiTransferActivityState::Unconfirmed => seq![
            CallbackView::Status { message: "delivery unconfirmed; checking receipt"@ },
        ],
        FfiTransferActivityState::Publishing => seq![
            CallbackView::Status { message: "publishing received file"@ },
        ],
        _ => Seq::empty(),
    }
}

/// Lists what observers are told when a durable card enters a new state.
pub fn report_durable_state_transition(activity: &FfiTransferActivityRecord) -> (r: Vec<
    TransferCallback,
>)
    ensures
        callback_views(r@) == transition_callbacks(activity@),
{
    let mut calls: Vec<TransferCallback> = Vec::new();
    match activity.state {
        FfiTransferActivityState::Completed => {
            calls.push(TransferCallback::Status { message: "completed".to_owned() });
            calls.push(TransferCallback::Completed { bytes: activity.bytes_transferred });
        },
        FfiTransferActivityState::Failed | FfiTransferActivityState::Canceled => {
            calls.push(TransferCallback::Status { message: activity.diagnostic_message.clone() });
            calls.push(
                TransferCallback::TransferFailed { failure: failure_from_activity(activity) },
            );
            calls.push(TransferCallback::Failed { reason: activity.diagnostic_message.clone() });
        },
        FfiTransferActivityState::Paused => {
            calls.push(TransferCallback::Status { message: activity.diagnostic_message.clone() });
        },
        FfiTransferActivityState::Unconfirmed => {
            calls.push(
                TransferCallback::Status {
                    message: "delivery unconfirmed; checking receipt".to_owned(),
                },
            );
        },
        FfiTransferActivityState::Publishing => {
            calls.push(
                TransferCallback::Status { message: "publishing received file".to_owned() },
            );
        },
        _ => {},
    }
    assert(callback_views(calls@) =~= transition_callbacks(activity@));
    calls
}

/// A transfer that could not be set up is told as a failure of this side that can
/// be retried, with the reason as it is.
pub proof fn setup_failures_can_be_retried(
    reason: Seq<char>,
    direction: FfiTransferDirection,
    attempt_id: Seq<char>,
)
    ensures
        ({
            let failure = setup_failure_of(reason, direction, attempt_id);
            &&& failure.diagnostic_message == reason
            &&& failure.direction == direction
            &&& failure.attempt_id == attempt_id
            &&& failure.code is InternalError
            &&& failure.category is Internal
            &&& failure.phase is Setup
            &&& failure.origin is Local
            &&& failure.recovery_action is Retry
            &&& failure.retryable
            &&& failure.user_message_key == "transfer.setup_failed"@
        }),
{
}

/// A failure of the engine is told as it is; what it does not name is the card's.
pub proof fn engine_failures_are_told_as_they_are(failure: EngineFailureView, card: ActivityView)
    ensures
        ({
            let told = failure_of(failure, card);
            &&& told.retryable == failure.retryable
            &&& told.user_message_key == failure.user_message_key
            &&& told.diagnostic_message == failure.diagnostic_message
            &&& failure.transfer_id matches Some(id) ==> told.transfer_id == id
            &&& failure.transfer_id is None ==> told.transfer_id == card.transfer_id
            &&& failure.attempt_id matches Some(id) ==> told.attempt_id == id
            &&& failure.attempt_id is None ==> told.attempt_id == card.attempt_id
            &&& told.code == failure_code_of(failure.code)
            &&& told.category == failure_category_of(failure.category)
            &&& told.phase == failure_phase_of(failure.phase)
            &&& told.origin == failure_origin_of(failure.origin)
            &&& told.direction == direction_of(failure.direction)
            &&& told.recovery_action == recovery_action_of(failure.recovery_action)
        }),
{
}

/// A failure that the user's cancellation led to is told as one: not to be
/// retried, but still of its transfer.
pub proof fn canceled_failures_are_the_users(failure: FailureView)
    ensures
        ({
            let told = as_canceled(failure);
            &&& told.code is UserCanceled
            &&& told.category is User
            &&& told.origin is Local
            &&& told.recovery_action is NoAction
            &&& !told.retryable
            &&& told.user_message_key == "transfer.user_canceled"@
            &&& told.diagnostic_message == "canceled"@
            &&& told.phase == failure.phase
            &&& told.direction == failure.direction
            &&& told.transfer_id == failure.transfer_id
            &&& told.attempt_id == failure.attempt_id
            &&& as_canceled(told) == told
        }),
{
}

/// A card that ended is followed by the news of its end: the bytes of a completed
/// one, the failure of a failed or canceled one. No other state tells an end.
pub proof fn transitions_tell_their_end(card: ActivityView, i: int)
    ensures
        card.state is Completed ==> transition_callbacks(card).len() == 2 && transition_callbacks(
            card,
        )[1] == (CallbackView::Completed { bytes: card.bytes_transferred }),
        card.state is Failed || card.state is Canceled ==> transition_callbacks(card).len() == 3
            && transition_callbacks(card)[0] == (CallbackView::Status {
            message: card.diagnostic_message,
        }) && transition_callbacks(card)[1] == (CallbackView::TransferFailed {
            failure: card.described_failure(),
        }) && transition_callbacks(card)[2] == (CallbackView::Failed {
            reason: card.diagnostic_message,
        }),
        card.state is Paused ==> transition_callbacks(card) == seq![
            CallbackView::Status { message: card.diagnostic_message },
        ],
        card.state is Unconfirmed ==> transition_callbacks(card) == seq![
            CallbackView::Status { message: "delivery unconfirmed; checking receipt"@ },
        ],
        card.state is Publishing ==> transition_callbacks(card) == seq![
            CallbackView::Status { message: "publishing received file"@ },
        ],
        !(card.state is Completed) && !(card.state is Failed) && !(card.state is Canceled)
            && 0 <= i < transition_callbacks(card).len() ==> transition_callbacks(card)[i]
            is Status,
{
}

/// A received file is found under its name in the receiver's directory; a sent one,
/// or one without a name or a directory, nowhere.
pub proof fn received_files_are_found_in_their_directory(
    request: RequestView,
    summary: SummaryView,
    path: Seq<char>,
)
    requires
        is_received_path(request, summary, path),
    ensures
        request.direction is Receive && !is_blank(request.output_dir) && summary.file_name.len() > 0
            ==> is_joined_path(request.output_dir, summary.file_name, path),
        !(request.direction is Receive) || is_blank(request.output_dir)
            || summary.file_name.len() == 0 ==> path.len() == 0,
{
}

/// A terminal report tells the card first, then its end: a completion, or a failure
/// and its reason.
pub proof fn terminal_reports_end_with_their_news(calls: Seq<CallbackView>)
    requires
        is_terminal_report(calls),
    ensures
        calls[0] is Activity,
        calls.last() is Completed || calls.last() is Failed,
        calls.last() is Failed ==> calls.len() == 3 && calls[1] is TransferFailed,
{
}

} // verus!
