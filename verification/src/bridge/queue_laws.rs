//! What users can count on in the transfer queue: where a card goes when it is
//! canceled, paused, resumed or discarded, when its task starts, and what is left
//! behind when it ends.
use vstd::prelude::*;

use crate::bridge::driver::AttemptVerdict;
use crate::bridge::events::CallbackView;
use crate::bridge::models::{ActivityView, FfiTransferActivityState, RequestView};
use crate::bridge::queue::{
    all_cancel_calls, cleanups_of, find_card, find_card_finds, has_card, has_job, job_position,
    job_position_is_first, jobs_differ, other_job_stays, queued_cancel_calls, take_pending,
    without_card, without_card_removes, CleanupView, JobView, ObserverCallView, PendingPauseAction, QueueView,
    TransferStop,
};
use crate::bridge::routes::{attempt_id_text, parallel_limit};
use crate::text::is_blank;

verus! {

/// An ended card leads the history, in which it stands once. At most fifty ended
/// cards are remembered, and nothing else changes but which requests are kept.
pub proof fn ended_cards_lead_the_history(q: QueueView, card: ActivityView)
    requires
        !q.discarded.contains(card.activity_id),
    ensures
        ({
            let after = q.remembering(card);
            &&& after.history.len() > 0
            &&& after.history[0] == card
            &&& after.history.len() <= 50
            &&& find_card(after.history, card.activity_id) == Some(card)
            &&& after.shown_card(card.activity_id) == Some(card)
            &&& forall|i: int|
                0 < i < after.history.len() ==> (#[trigger] after.history[i]).activity_id
                    != card.activity_id && q.history.contains(after.history[i])
            &&& after.pending == q.pending
            &&& after.active == q.active
            &&& after.paused == q.paused
            &&& after.actions == q.actions
            &&& after.discarded == q.discarded
        }),
{
    let rest = without_card(q.history, card.activity_id);
    without_card_removes(q.history, card.activity_id);
    let all = seq![card] + rest;
    let after = q.remembering(card);
    assert(all[0] == card);
    assert(after.history[0] == card);
    assert(has_card(after.history, card.activity_id));
    assert forall|i: int| 0 < i < after.history.len() implies (
    #[trigger] after.history[i]).activity_id != card.activity_id && q.history.contains(
        after.history[i],
    ) by {
        assert(after.history[i] == rest[i - 1]);
        assert(rest[i - 1].activity_id != card.activity_id);
    }
}

/// The oldest ended card is forgotten first: every other one moves back by one
/// place.
pub proof fn the_oldest_card_is_forgotten_first(q: QueueView, card: ActivityView, i: int)
    requires
        !q.discarded.contains(card.activity_id),
        !has_card(q.history, card.activity_id),
        0 <= i < q.history.len(),
        i < 49,
    ensures
        q.remembering(card).history.len() > i + 1,
        q.remembering(card).history[i + 1] == q.history[i],
{
    without_card_removes(q.history, card.activity_id);
    let all = seq![card] + q.history;
    assert(all[i + 1] == q.history[i]);
}

/// A request is forgotten exactly when nothing refers to it any more.
pub proof fn requests_live_as_long_as_their_card(q: QueueView, card: ActivityView, id: Seq<char>)
    requires
        !q.discarded.contains(card.activity_id),
    ensures
        q.remembering(card).requests.contains_key(id) <==> q.requests.contains_key(id) && (
        has_card(q.remembering(card).history, id) || q.knows(id)),
        q.remembering(card).requests.contains_key(id) ==> q.remembering(card).requests[id]
            == q.requests[id],
{
    let after = q.remembering(card);
    let kept = QueueView { history: after.history, ..q };
    assert(kept.retains(id) == (has_card(after.history, id) || q.knows(id)));
}

/// Canceling a card that rests is accepted and ends it: it neither waits, runs nor
/// rests, it is shown as canceled, and its observer gets the card and a line.
pub proof fn canceling_ends_a_resting_card(q: QueueView, id: Seq<char>, now_ms: u64)
    requires
        q.wf(),
        id.len() > 0,
        q.paused.contains_key(id),
        !q.discarded.contains(id),
    ensures
        ({
            let (after, outcome) = q.canceling(id, now_ms);
            &&& outcome.accepted
            &&& outcome.signal is None
            &&& outcome.cleanup.len() == 0
            &&& !after.knows(id)
            &&& is_ended_by_the_user(after.shown_card(id), q.paused[id].activity, now_ms)
            &&& after.history[0] == after.shown_card(id)->0
            &&& outcome.calls.len() == 2
            &&& outcome.calls[0] == (ObserverCallView {
                observer: q.paused[id].observer,
                call: CallbackView::Activity { record: after.shown_card(id)->0 },
            })
            &&& outcome.calls[1].observer == q.paused[id].observer
            &&& outcome.calls[1].call is Status
        }),
{
    let card = q.paused[id].activity.canceled(now_ms);
    let rest = q.not_paused(id);
    if has_job(q.pending, id) {
        let i = choose|i: int| 0 <= i < q.pending.len() && q.pending[i].activity.activity_id == id;
        assert(!q.paused.contains_key(q.pending[i].activity.activity_id));
    }
    ended_cards_lead_the_history(rest, card);
}

/// Canceling a card that waits is accepted and ends it before it started.
pub proof fn canceling_ends_a_waiting_card(q: QueueView, id: Seq<char>, now_ms: u64)
    requires
        q.wf(),
        id.len() > 0,
        has_job(q.pending, id),
        !q.discarded.contains(id),
    ensures
        ({
            let (after, outcome) = q.canceling(id, now_ms);
            let job = q.pending_job(id);
            &&& outcome.accepted
            &&& outcome.signal is None
            &&& outcome.cleanup.len() == 0
            &&& !after.knows(id)
            &&& is_ended_by_the_user(after.shown_card(id), job.activity, now_ms)
            &&& after.history[0] == after.shown_card(id)->0
            &&& outcome.calls.len() == 2
            &&& outcome.calls[0] == (ObserverCallView {
                observer: job.observer,
                call: CallbackView::Activity { record: after.shown_card(id)->0 },
            })
            &&& outcome.calls[1].observer == job.observer
            &&& outcome.calls[1].call is Status
        }),
{
    job_position_is_first(q.pending, id);
    let at = job_position(q.pending, id) as int;
    assert(q.pending[at].activity.activity_id == id);
    assert(!q.active.contains_key(q.pending[at].activity.activity_id));
    take_pending(q, id);
    let card = q.pending[at].activity.canceled(now_ms);
    ended_cards_lead_the_history(q.not_pending(id), card);
}

/// Whether a card is shown that the user ended at `now_ms`: it is the card that
/// was there before, canceled by the user on this side, and not to be retried.
pub open spec fn is_ended_by_the_user(
    shown: Option<ActivityView>,
    before: ActivityView,
    now_ms: u64,
) -> bool {
    shown matches Some(card) && {
        &&& card.activity_id == before.activity_id
        &&& card.state == FfiTransferActivityState::Canceled
        &&& card.completed_at_ms == now_ms
        &&& card.updated_at_ms == now_ms
        &&& !card.retryable
        &&& card.direction == before.direction
        &&& card.file_name == before.file_name
        &&& card.bytes_transferred == before.bytes_transferred
        &&& card.created_at_ms == before.created_at_ms
    }
}

/// Canceling is accepted for every known card, but where its task confirms the
/// transfer or was disarmed without anyone having asked it to stop.
pub proof fn known_cards_can_be_canceled(q: QueueView, id: Seq<char>, now_ms: u64)
    requires
        q.wf(),
        id.len() > 0,
    ensures
        q.canceling(id, now_ms).1.accepted <==> has_job(q.pending, id) || q.paused.contains_key(id)
            || (q.active.contains_key(id) && (q.actions.contains_key(id) || (q.active[id].control
            && !q.active[id].activity.is_finalizing()))),
        q.knows(id) && (q.active.contains_key(id) ==> q.active[id].control
            && !q.active[id].activity.is_finalizing()) ==> q.canceling(id, now_ms).1.accepted,
        !q.knows(id) ==> !q.canceling(id, now_ms).1.accepted,
{
}

/// Canceling a running card asks its task to stop, once, and notes that the card
/// is to end then. Until then the card stays as it is.
pub proof fn canceling_stops_a_running_card(q: QueueView, id: Seq<char>, now_ms: u64)
    requires
        q.wf(),
        id.len() > 0,
        q.active.contains_key(id),
        q.active[id].control,
        !q.active[id].activity.is_finalizing(),
    ensures
        ({
            let (after, outcome) = q.canceling(id, now_ms);
            &&& outcome.accepted
            &&& outcome.signal == Some(TransferStop::Cancel)
            &&& after.actions.contains_key(id)
            &&& after.actions[id] == PendingPauseAction::Cancel
            &&& after.active.contains_key(id)
            &&& !after.active[id].control
            &&& after.active[id].activity == q.active[id].activity
            &&& after.canceling(id, now_ms).1.signal is None
            &&& after.pending == q.pending
            &&& after.paused == q.paused
            &&& after.history == q.history
        }),
{
    if has_job(q.pending, id) {
        let i = choose|i: int| 0 <= i < q.pending.len() && q.pending[i].activity.activity_id == id;
        assert(!q.active.contains_key(q.pending[i].activity.activity_id));
    }
}

/// A task that is asked to pause ends canceled where the user cancels before it
/// has stopped.
pub proof fn a_cancellation_overrides_a_pause(q: QueueView, id: Seq<char>, a_ms: u64, b_ms: u64)
    requires
        q.wf(),
        id.len() > 0,
        q.can_stop(id),
    ensures
        ({
            let stopping = q.pausing(id, a_ms).0;
            let (after, outcome) = stopping.canceling(id, b_ms);
            &&& outcome.accepted
            &&& after.actions[id] == PendingPauseAction::Cancel
            &&& !after.resuming(id, b_ms).1.accepted
        }),
{
    if has_job(q.pending, id) {
        let i = choose|i: int| 0 <= i < q.pending.len() && q.pending[i].activity.activity_id == id;
        assert(!q.active.contains_key(q.pending[i].activity.activity_id));
    }
}

/// Canceling touches one card alone: every other one waits, runs or rests as
/// before.
pub proof fn canceling_touches_one_card(
    q: QueueView,
    id: Seq<char>,
    other: Seq<char>,
    now_ms: u64,
)
    requires
        q.wf(),
        other != id,
    ensures
        q.canceling(id, now_ms).0.knows(other) <==> q.knows(other),
        q.canceling(id, now_ms).0.paused.contains_key(other) <==> q.paused.contains_key(other),
        q.canceling(id, now_ms).0.active.contains_key(other) <==> q.active.contains_key(other),
        has_job(q.canceling(id, now_ms).0.pending, other) <==> has_job(q.pending, other),
{
    job_position_is_first(q.pending, id);
    other_job_stays(q.pending, id, other);
}

/// Pausing a card that waits is accepted: from then on it rests, with its own
/// request, and is shown as paused and resumable.
pub proof fn pausing_rests_a_waiting_card(q: QueueView, id: Seq<char>, now_ms: u64)
    requires
        q.wf(),
        id.len() > 0,
        has_job(q.pending, id),
    ensures
        ({
            let (after, outcome) = q.pausing(id, now_ms);
            let job = q.pending_job(id);
            &&& outcome.accepted
            &&& outcome.signal is None
            &&& !has_job(after.pending, id)
            &&& after.paused.contains_key(id)
            &&& after.paused[id].request == job.request
            &&& after.paused[id].observer == job.observer
            &&& after.paused[id].activity.activity_id == id
            &&& after.paused[id].activity.state == FfiTransferActivityState::Paused
            &&& after.paused[id].activity.retryable
            &&& after.paused[id].activity.updated_at_ms == now_ms
            &&& after.paused[id].activity.bytes_transferred == job.activity.bytes_transferred
            &&& outcome.calls.len() == 2
            &&& outcome.calls[0] == (ObserverCallView {
                observer: job.observer,
                call: CallbackView::Activity { record: after.paused[id].activity },
            })
            &&& outcome.calls[1] == (ObserverCallView {
                observer: job.observer,
                call: CallbackView::Status { message: "paused"@ },
            })
        }),
{
    job_position_is_first(q.pending, id);
    let at = job_position(q.pending, id) as int;
    assert(!q.paused.contains_key(q.pending[at].activity.activity_id));
    take_pending(q, id);
}

/// Pausing is accepted for every card that waits, rests or runs under control and
/// does not confirm its transfer; a running one is asked to pause.
pub proof fn known_cards_can_be_paused(q: QueueView, id: Seq<char>, now_ms: u64)
    requires
        q.wf(),
        id.len() > 0,
    ensures
        q.pausing(id, now_ms).1.accepted <==> has_job(q.pending, id) || q.paused.contains_key(id)
            || (q.active.contains_key(id) && q.active[id].control
            && !q.active[id].activity.is_finalizing()),
        q.paused.contains_key(id) ==> q.pausing(id, now_ms).0 == q,
        q.pausing(id, now_ms).1.signal == Some(TransferStop::Pause) <==> q.can_stop(id),
        q.can_stop(id) ==> q.pausing(id, now_ms).0.actions[id] == PendingPauseAction::Pause
            && !q.pausing(id, now_ms).0.active[id].control,
{
    if has_job(q.pending, id) {
        let i = choose|i: int| 0 <= i < q.pending.len() && q.pending[i].activity.activity_id == id;
        assert(!q.active.contains_key(q.pending[i].activity.activity_id));
    }
}

/// Resuming a card that rests is accepted: it waits again, behind all others, as a
/// queued card without a failure.
pub proof fn resuming_queues_a_resting_card(q: QueueView, id: Seq<char>, now_ms: u64)
    requires
        q.wf(),
        id.len() > 0,
        q.paused.contains_key(id),
    ensures
        ({
            let (after, outcome) = q.resuming(id, now_ms);
            let job = q.paused[id];
            &&& outcome.accepted
            &&& !after.paused.contains_key(id)
            &&& after.pending.len() == q.pending.len() + 1
            &&& forall|i: int|
                0 <= i < q.pending.len() ==> after.pending[i] == #[trigger] q.pending[i]
            &&& after.pending.last().request == job.request
            &&& after.pending.last().observer == job.observer
            &&& after.pending.last().activity.activity_id == id
            &&& after.pending.last().activity.state == FfiTransferActivityState::Queued
            &&& after.pending.last().activity.attempt_id.len() == 0
            &&& !after.pending.last().activity.retryable
            &&& after.pending.last().activity.bytes_transferred == job.activity.bytes_transferred
            &&& outcome.calls.len() == 2
            &&& outcome.calls[0] == (ObserverCallView {
                observer: job.observer,
                call: CallbackView::Activity { record: after.pending.last().activity },
            })
            &&& outcome.calls[1] == (ObserverCallView {
                observer: job.observer,
                call: CallbackView::Status { message: "resuming"@ },
            })
        }),
{
}

/// Resuming is accepted exactly for a card that rests and for one whose task stops
/// for another reason than a cancellation; the latter waits again once it stopped.
pub proof fn only_paused_cards_can_be_resumed(q: QueueView, id: Seq<char>, now_ms: u64)
    requires
        q.wf(),
        id.len() > 0,
    ensures
        q.resuming(id, now_ms).1.accepted <==> q.paused.contains_key(id) || (q.active.contains_key(
            id,
        ) && q.actions.contains_key(id) && q.actions[id] != PendingPauseAction::Cancel),
        q.resuming(id, now_ms).1.signal is None,
        q.active.contains_key(id) && q.resuming(id, now_ms).1.accepted ==> q.resuming(
            id,
            now_ms,
        ).0.actions[id] == PendingPauseAction::Resume,
        !q.resuming(id, now_ms).1.accepted ==> q.resuming(id, now_ms).0 == q,
{
}

/// A discarded card is gone at once: it neither waits nor rests, is in no history,
/// and its request is forgotten. A task that runs under control is asked to stop.
pub proof fn discarding_removes_a_card(q: QueueView, id: Seq<char>, now_ms: u64)
    requires
        q.wf(),
        id.len() > 0,
    ensures
        ({
            let (after, outcome) = q.discarding(id, now_ms);
            let runs = q.active.contains_key(id);
            &&& !has_job(after.pending, id)
            &&& !after.paused.contains_key(id)
            &&& !has_card(after.history, id)
            &&& !after.requests.contains_key(id)
            &&& after.discarded.contains(id)
            &&& outcome.signal == Some(TransferStop::Cancel) <==> runs && q.active[id].control
            &&& outcome.signal is Some ==> !after.active[id].control && after.actions[id]
                == PendingPauseAction::Cancel
            &&& has_job(q.pending, id) || q.paused.contains_key(id) || has_card(q.history, id) || (
            runs && (q.active[id].control || q.actions.contains_key(id))) <==> outcome.accepted
        }),
{
    take_pending(q, id);
    without_card_removes(q.history, id);
    job_position_is_first(q.pending, id);
    if has_job(q.pending, id) {
        let i = choose|i: int| 0 <= i < q.pending.len() && q.pending[i].activity.activity_id == id;
        assert(!q.active.contains_key(q.pending[i].activity.activity_id));
    }
}

/// What is left of a discarded card is cleaned up by its own request, with the card
/// as it was shown, exactly where no task runs that will do so itself.
pub proof fn discarding_cleans_up_by_its_request(q: QueueView, id: Seq<char>, now_ms: u64)
    requires
        q.wf(),
        id.len() > 0,
    ensures
        ({
            let cleanup = q.discarding(id, now_ms).1.cleanup;
            let owed = !q.active.contains_key(id) && q.requests.contains_key(id) && q.shown_card(id)
                is Some;
            &&& cleanup.len() == if owed {
                1nat
            } else {
                0
            }
            &&& owed ==> cleanup[0] == (CleanupView {
                request: q.requests[id],
                activity: q.shown_card(id)->0,
            })
        }),
{
}

/// The observer of a discarded card that waits or rests is told that it was
/// canceled; no other discarded card is spoken of.
pub proof fn discarding_tells_the_observer(q: QueueView, id: Seq<char>, now_ms: u64)
    requires
        q.wf(),
        id.len() > 0,
    ensures
        ({
            let calls = q.discarding(id, now_ms).1.calls;
            let stored = has_job(q.pending, id) || q.paused.contains_key(id);
            &&& calls.len() == if stored {
                2nat
            } else {
                0
            }
            &&& q.paused.contains_key(id) ==> calls[0].observer == q.paused[id].observer && (
            calls[0].call matches CallbackView::Activity { record } && record.activity_id == id
                && record.state == FfiTransferActivityState::Canceled)
            &&& has_job(q.pending, id) ==> calls[0].observer == q.pending_job(id).observer && (
            calls[0].call matches CallbackView::Activity { record } && record.activity_id == id
                && record.state == FfiTransferActivityState::Canceled)
        }),
{
    job_position_is_first(q.pending, id);
    let at = job_position(q.pending, id) as int;
    if has_job(q.pending, id) {
        assert(!q.paused.contains_key(q.pending[at].activity.activity_id));
    }
}

/// A task that has ended runs no more, and nothing is left to happen with it.
pub proof fn ended_tasks_leave_the_queue(
    q: QueueView,
    id: Seq<char>,
    job: Option<JobView>,
    now_ms: u64,
)
    requires
        job matches Some(left) ==> left.activity.activity_id == id,
    ensures
        !q.finishing(id, job, now_ms).0.active.contains_key(id),
        !q.finishing(id, job, now_ms).0.actions.contains_key(id),
        job is None ==> q.finishing(id, job, now_ms).1 is None,
        job is Some ==> q.finishing(id, job, now_ms).1 is Some,
{
}

/// A transfer that is to go on later rests where its task was paused, waits again
/// where it was resumed meanwhile, and ends where it was canceled; the notice tells
/// the same, with the transfer's own card, and only an end is cleaned up.
pub proof fn stopped_tasks_do_what_was_asked(q: QueueView, job: JobView, now_ms: u64)
    requires
        !q.discarded.contains(job.activity.activity_id),
    ensures
        ({
            let id = job.activity.activity_id;
            let (after, notice) = q.finishing(id, Some(job), now_ms);
            let canceled = q.actions.contains_key(id) && q.actions[id]
                == PendingPauseAction::Cancel;
            let resumed = q.actions.contains_key(id) && q.actions[id]
                == PendingPauseAction::Resume;
            let told = notice->0;
            &&& notice is Some
            &&& told.observer == job.observer
            &&& canceled ==> {
                &&& is_ended_by_the_user(after.shown_card(id), job.activity, now_ms)
                &&& after.paused == q.paused
                &&& after.pending == q.pending
                &&& told.activity == after.shown_card(id)->0
                &&& told.status == "canceled"@
                &&& told.cleanup_request == Some(job.request)
            }
            &&& resumed ==> {
                &&& after.pending.len() == q.pending.len() + 1
                &&& after.pending.last().request == job.request
                &&& after.pending.last().observer == job.observer
                &&& after.pending.last().activity.activity_id == id
                &&& after.pending.last().activity.state == FfiTransferActivityState::Queued
                &&& after.paused == q.paused
                &&& told.activity == after.pending.last().activity
                &&& told.status == "resuming"@
                &&& told.cleanup_request is None
            }
            &&& !canceled && !resumed ==> {
                &&& after.paused.contains_key(id)
                &&& after.paused[id] == job
                &&& after.pending == q.pending
                &&& told.activity == job.activity
                &&& told.status == "paused"@
                &&& told.cleanup_request is None
            }
        }),
{
    let id = job.activity.activity_id;
    let rest = QueueView {
        active: q.active.remove(id),
        actions: q.actions.remove(id),
        ..q
    };
    ended_cards_lead_the_history(rest, job.activity.canceled(now_ms));
}

/// A running card is kept in its latest form, and every other one as it was.
pub proof fn running_cards_are_kept_up_to_date(q: QueueView, card: ActivityView, other: Seq<char>)
    requires
        other != card.activity_id,
    ensures
        q.active.contains_key(card.activity_id) ==> q.storing(
            card,
        ).active[card.activity_id].activity == card && q.storing(
            card,
        ).active[card.activity_id].control == q.active[card.activity_id].control,
        q.storing(card).active.contains_key(other) <==> q.active.contains_key(other),
        q.active.contains_key(other) ==> q.storing(card).active[other] == q.active[other],
        q.storing(card).active.contains_key(card.activity_id) <==> q.active.contains_key(
            card.activity_id,
        ),
{
}

/// What a task's verdict leaves in the queue: an ended card is shown as it ended,
/// a paused one is kept, one that the peer paused waits for the peer unless the
/// user asked for something, and a card that tries its next route stays.
pub proof fn verdicts_settle_their_card(
    q: QueueView,
    card: ActivityView,
    canceled: bool,
)
    requires
        !q.discarded.contains(card.activity_id),
    ensures
        q.settling(card, AttemptVerdict::Finished).shown_card(card.activity_id) == Some(card),
        q.settling(card, AttemptVerdict::Finished).history[0] == card,
        q.settling(card, AttemptVerdict::Ended { canceled }).shown_card(card.activity_id) == Some(
            card,
        ),
        q.settling(card, AttemptVerdict::TryNext) == q,
        q.settling(card, AttemptVerdict::PausedLocally).history == q.history,
        q.settling(card, AttemptVerdict::PausedByPeer).history == q.history,
        q.active.contains_key(card.activity_id) ==> q.settling(
            card,
            AttemptVerdict::PausedLocally,
        ).active[card.activity_id].activity == card && q.settling(
            card,
            AttemptVerdict::PausedByPeer,
        ).active[card.activity_id].activity == card && !q.settling(
            card,
            AttemptVerdict::PausedByPeer,
        ).active[card.activity_id].control,
        q.settling(card, AttemptVerdict::PausedByPeer).actions[card.activity_id]
            == if q.actions.contains_key(card.activity_id) {
            q.actions[card.activity_id]
        } else {
            PendingPauseAction::Resume
        },
{
    ended_cards_lead_the_history(q.storing(card), card);
}

/// A submitted transfer waits behind all others, and its request is kept under its
/// id.
pub proof fn submitted_transfers_wait_last(q: QueueView, job: JobView, i: int)
    ensures
        q.submitting(job).pending.len() == q.pending.len() + 1,
        q.submitting(job).pending.last() == job,
        0 <= i < q.pending.len() ==> q.submitting(job).pending[i] == q.pending[i],
        q.submitting(job).requests.contains_key(job.request.activity_id),
        q.submitting(job).requests[job.request.activity_id] == job.request,
        q.submitting(job).active == q.active,
        q.submitting(job).history == q.history,
{
}

/// Nothing beside a running transfer starts against that transfer's limit, nor
/// against its own; with nothing running, anything may start.
pub proof fn starts_respect_every_limit(q: QueueView, limit: usize, id: Seq<char>)
    ensures
        q.active.dom().len() == 0 ==> q.may_start(limit),
        q.may_start(limit) && q.active.dom().len() > 0 ==> q.active.dom().len() < limit,
        q.may_start(limit) && q.active.dom().len() > 0 && q.active.contains_key(id)
            ==> q.active.dom().len() < q.active[id].limit,
{
}

/// The transfer that has waited longest starts, exactly where the limits let it.
/// It runs under control and keeps its request; a new attempt gets a new number,
/// and one that is resumed keeps its own.
pub proof fn the_first_waiting_transfer_starts(
    q: QueueView,
    concurrent: bool,
    next_attempt: u64,
    now_ms: u64,
)
    ensures
        q.starting(concurrent, next_attempt, now_ms) is Some <==> q.pending.len() > 0
            && q.may_start(parallel_limit(concurrent, q.pending[0].request.limits) as usize),
        q.starting(concurrent, next_attempt, now_ms) matches Some((after, job, number)) ==> {
            let id = q.pending[0].activity.activity_id;
            let fresh = is_blank(q.pending[0].activity.attempt_id);
            &&& after.pending.len() + 1 == q.pending.len()
            &&& forall|i: int|
                0 < i < q.pending.len() ==> after.pending[i - 1] == #[trigger] q.pending[i]
            &&& job.request == q.pending[0].request
            &&& job.observer == q.pending[0].observer
            &&& job.activity.activity_id == id
            &&& job.activity.state == q.pending[0].activity.state
            &&& job.activity.bytes_transferred == q.pending[0].activity.bytes_transferred
            &&& after.active.contains_key(id)
            &&& after.active[id].control
            &&& after.active[id].activity == job.activity
            &&& after.active[id].limit == parallel_limit(concurrent, job.request.limits)
            &&& fresh ==> job.activity.attempt_id == attempt_id_text(next_attempt) && number
                == next_attempt.wrapping_add(1) && job.activity.updated_at_ms == now_ms
            &&& !fresh ==> job.activity == q.pending[0].activity && number == next_attempt
            &&& after.paused == q.paused
            &&& after.history == q.history
        },
{
}

/// Transfers start in the order in which they wait, and as many as the limits let:
/// the ones that still wait are the rest of the line, and the first of them may not
/// start.
pub proof fn lines_are_served_in_order(
    q: QueueView,
    concurrent: bool,
    next_attempt: u64,
    now_ms: u64,
)
    ensures
        ({
            let (after, started, number) = q.draining(concurrent, next_attempt, now_ms);
            &&& started.len() + after.pending.len() == q.pending.len()
            &&& after.pending == q.pending.skip(started.len() as int)
            &&& forall|i: int|
                0 <= i < started.len() ==> (#[trigger] started[i]).activity.activity_id
                    == q.pending[i].activity.activity_id && started[i].request
                    == q.pending[i].request && started[i].observer == q.pending[i].observer
            &&& after.starting(concurrent, number, now_ms) is None
            &&& after.paused == q.paused
            &&& after.history == q.history
        }),
    decreases q.pending.len(),
{
    match q.starting(concurrent, next_attempt, now_ms) {
        None => {
            assert(q.pending.skip(0) =~= q.pending);
        },
        Some((next, job, number)) => {
            the_first_waiting_transfer_starts(q, concurrent, next_attempt, now_ms);
            lines_are_served_in_order(next, concurrent, number, now_ms);
            let rest = next.draining(concurrent, number, now_ms);
            let (after, started, last) = q.draining(concurrent, next_attempt, now_ms);
            assert(next.pending == q.pending.skip(1));
            assert(started =~= seq![job] + rest.1);
            assert(after.pending =~= q.pending.skip(started.len() as int));
            assert forall|i: int| 0 <= i < started.len() implies (
            #[trigger] started[i]).activity.activity_id == q.pending[i].activity.activity_id
                && started[i].request == q.pending[i].request && started[i].observer
                == q.pending[i].observer by {
                if i > 0 {
                    assert(started[i] == rest.1[i - 1]);
                    assert(next.pending[i - 1] == q.pending[i]);
                }
            }
        },
    }
}

/// A halted queue holds nothing that waits or rests, and every task that can be
/// asked to stop was; tasks that confirm a transfer are left to it.
pub proof fn halting_stops_everything(q: QueueView, id: Seq<char>)
    ensures
        q.halted().pending.len() == 0,
        !q.halted().paused.contains_key(id),
        q.halted().active.contains_key(id) <==> q.active.contains_key(id),
        !q.halted().can_stop(id),
        q.can_stop(id) ==> q.halted().actions.contains_key(id) && q.halted().actions[id]
            == PendingPauseAction::Cancel && !q.halted().active[id].control,
        q.active.contains_key(id) ==> q.halted().active[id].activity == q.active[id].activity,
        q.active.contains_key(id) && !q.can_stop(id) ==> q.halted().active[id] == q.active[id],
        q.halted().history == q.history,
{
}

/// Each transfer that never ran is told to its own observer as canceled, in turn.
pub proof fn everyone_hears_of_a_cancellation(jobs: Seq<JobView>, now_ms: u64, i: int)
    requires
        0 <= i < jobs.len(),
    ensures
        all_cancel_calls(jobs, now_ms).len() == 2 * jobs.len(),
        all_cancel_calls(jobs, now_ms)[2 * i] == (ObserverCallView {
            observer: jobs[i].observer,
            call: CallbackView::Activity { record: jobs[i].activity.canceled(now_ms) },
        }),
        all_cancel_calls(jobs, now_ms)[2 * i + 1].observer == jobs[i].observer,
        all_cancel_calls(jobs, now_ms)[2 * i + 1].call is Status,
    decreases jobs.len(),
{
    let before = jobs.drop_last();
    if i < before.len() {
        everyone_hears_of_a_cancellation(before, now_ms, i);
        assert(before[i] == jobs[i]);
    } else {
        if before.len() > 0 {
            everyone_hears_of_a_cancellation(before, now_ms, 0);
        } else {
            assert(all_cancel_calls(before, now_ms).len() == 0);
        }
    }
}

/// The line about a canceled transfer tells whether it rested or never started.
pub proof fn cancellations_tell_what_was_canceled(job: JobView, now_ms: u64)
    ensures
        job.activity.state == FfiTransferActivityState::Paused ==> queued_cancel_calls(
            job,
            now_ms,
        )[1].call == (CallbackView::Status { message: "canceled paused transfer"@ }),
        job.activity.state != FfiTransferActivityState::Paused ==> queued_cancel_calls(
            job,
            now_ms,
        )[1].call == (CallbackView::Status { message: "canceled before start"@ }),
{
}

/// The queue shows one card for an id: an ended one before a running one, that
/// before a waiting one, and that before a resting one; a discarded one never.
pub proof fn cards_are_shown_by_their_latest_state(q: QueueView, id: Seq<char>)
    requires
        !q.discarded.contains(id),
    ensures
        q.wf() ==> (q.shown_card(id) matches Some(card) ==> card.activity_id == id),
        q.shown_card(id) is Some <==> has_card(q.history, id) || q.knows(id),
        !has_card(q.history, id) && q.active.contains_key(id) ==> q.shown_card(id) == Some(
            q.active[id].activity,
        ),
        q.wf() && !has_card(q.history, id) && q.paused.contains_key(id) ==> q.shown_card(id)
            == Some(q.paused[id].activity),
        q.wf() && !has_card(q.history, id) && has_job(q.pending, id) ==> q.shown_card(id) == Some(
            q.pending_job(id).activity,
        ),
{
    find_card_finds(q.history, id);
    job_position_is_first(q.pending, id);
    if has_job(q.pending, id) {
        let at = job_position(q.pending, id) as int;
        if q.wf() {
            assert(!q.paused.contains_key(q.pending[at].activity.activity_id));
            assert(!q.active.contains_key(q.pending[at].activity.activity_id));
        }
    }
}

/// A queue at rest shows nothing and knows nothing.
pub proof fn idle_queues_are_empty(id: Seq<char>)
    ensures
        QueueView::idle().wf(),
        !QueueView::idle().knows(id),
        QueueView::idle().shown_card(id) is None,
        !QueueView::idle().requests.contains_key(id),
{
}

/// A cleared card is cleaned up by its own request, exactly where that is known.
pub proof fn cleared_cards_are_cleaned_up(
    cards: Seq<ActivityView>,
    requests: Map<Seq<char>, RequestView>,
    cleanup: CleanupView,
)
    ensures
        cleanups_of(cards, requests).contains(cleanup) <==> cards.contains(cleanup.activity)
            && requests.contains_key(cleanup.activity.activity_id) && cleanup.request
            == requests[cleanup.activity.activity_id],
        cleanups_of(cards, requests).len() <= cards.len(),
    decreases cards.len(),
{
    if cards.len() > 0 {
        let before = cards.drop_last();
        let listed = cleanups_of(before, requests);
        cleared_cards_are_cleaned_up(before, requests, cleanup);
        let last = cards.last();
        assert(cards[cards.len() - 1] == last);
        let own = CleanupView { request: requests[last.activity_id], activity: last };
        let grown = listed.push(own);
        assert(grown[listed.len() as int] == own);
        if listed.contains(cleanup) {
            let k = choose|k: int| 0 <= k < listed.len() && listed[k] == cleanup;
            assert(grown[k] == cleanup);
        }
        if before.contains(cleanup.activity) {
            let k = choose|k: int| 0 <= k < before.len() && before[k] == cleanup.activity;
            assert(cards[k] == cleanup.activity);
        }
        if cards.contains(cleanup.activity) && !before.contains(cleanup.activity) {
            let k = choose|k: int| 0 <= k < cards.len() && cards[k] == cleanup.activity;
            if k < before.len() {
                assert(before[k] == cleanup.activity);
            }
        }
        if grown.contains(cleanup) && !listed.contains(cleanup) {
            let k = choose|k: int| 0 <= k < grown.len() && grown[k] == cleanup;
            if k < listed.len() {
                assert(listed[k] == cleanup);
            }
        }
    }
}

proof fn cards_before_stay(cards: Seq<ActivityView>, id: Seq<char>, k: int)
    requires
        0 <= k < cards.len(),
        forall|j: int| 0 <= j <= k ==> (#[trigger] cards[j]).activity_id != id,
    ensures
        k < without_card(cards, id).len(),
        without_card(cards, id)[k] == cards[k],
    decreases cards.len(),
{
    let before = cards.drop_last();
    if k < before.len() {
        assert forall|j: int| 0 <= j <= k implies (#[trigger] before[j]).activity_id != id by {
            assert(before[j] == cards[j]);
        }
        cards_before_stay(before, id, k);
        assert(before[k] == cards[k]);
    } else {
        assert(cards[k] == cards.last());
        assert(before.len() == k);
        without_card_removes(before, id);
        if has_card(before, id) {
            let j = choose|j: int| 0 <= j < before.len() && before[j].activity_id == id;
            assert(cards[j].activity_id == id);
        }
        assert(without_card(before, id) == before);
    }
}

/// Canceling everything ends every transfer that waited or rested: the latest fifty
/// of them lead the history, the last one first.
pub proof fn canceled_transfers_lead_the_history(
    q: QueueView,
    jobs: Seq<JobView>,
    now_ms: u64,
    i: int,
)
    requires
        jobs_differ(jobs),
        forall|k: int|
            0 <= k < jobs.len() ==> !q.discarded.contains(
                (#[trigger] jobs[k]).activity.activity_id,
            ),
        0 <= i < jobs.len(),
        jobs.len() - i <= 50,
    ensures
        ({
            let after = q.remembering_canceled(jobs, now_ms);
            &&& jobs.len() - 1 - i < after.history.len()
            &&& after.history[jobs.len() - 1 - i] == jobs[i].activity.canceled(now_ms)
            &&& after.discarded == q.discarded
            &&& after.pending == q.pending
            &&& after.active == q.active
            &&& after.paused == q.paused
        }),
    decreases jobs.len(),
{
    let before = jobs.drop_last();
    let last = jobs.last();
    let card = last.activity.canceled(now_ms);
    assert(last == jobs[jobs.len() - 1]);
    assert forall|k: int| 0 <= k < before.len() implies !q.discarded.contains(
        (#[trigger] before[k]).activity.activity_id,
    ) by {
        assert(before[k] == jobs[k]);
    }
    assert(jobs_differ(before)) by {
        assert forall|a: int, b: int|
            #![trigger before[a], before[b]]
            0 <= a < b < before.len() implies before[a].activity.activity_id
            != before[b].activity.activity_id by {
            assert(before[a] == jobs[a] && before[b] == jobs[b]);
        }
    }
    let rest = q.remembering_canceled(before, now_ms);
    if before.len() == 0 {
        assert(rest == q);
        ended_cards_lead_the_history(q, card);
    } else {
        canceled_transfers_lead_the_history(q, before, now_ms, before.len() - 1);
        ended_cards_lead_the_history(rest, card);
        if i < before.len() {
            let k = before.len() - 1 - i;
            canceled_transfers_lead_the_history(q, before, now_ms, i);
            assert forall|j: int| 0 <= j <= k implies (
            #[trigger] rest.history[j]).activity_id != card.activity_id by {
                let m = before.len() - 1 - j;
                canceled_transfers_lead_the_history(q, before, now_ms, m);
                assert(before[m] == jobs[m]);
                assert(jobs[m].activity.activity_id != jobs[jobs.len() - 1].activity.activity_id);
            }
            cards_before_stay(rest.history, card.activity_id, k);
            let all = seq![card] + without_card(rest.history, card.activity_id);
            assert(all[k + 1] == rest.history[k]);
            assert(before[i] == jobs[i]);
        }
    }
}

/// A list of the queue holds each shown card once, as it is shown, the latest first.
pub proof fn lists_show_every_card_once(q: QueueView, cards: Seq<ActivityView>, id: Seq<char>)
    requires
        q.is_listed_as(cards),
    ensures
        q.shown_card(id) is Some <==> has_card(cards, id),
        forall|i: int|
            0 <= i < cards.len() ==> q.shown_card((#[trigger] cards[i]).activity_id) == Some(
                cards[i],
            ),
        forall|i: int, j: int|
            #![trigger cards[i], cards[j]]
            0 <= i < j < cards.len() ==> cards[i].updated_at_ms >= cards[j].updated_at_ms
                && cards[i].activity_id != cards[j].activity_id,
{
}

/// Pausing touches one card alone, and no card that has ended.
pub proof fn pausing_touches_one_card(q: QueueView, id: Seq<char>, other: Seq<char>, now_ms: u64)
    requires
        q.wf(),
        other != id,
    ensures
        ({
            let after = q.pausing(id, now_ms).0;
            &&& after.paused.contains_key(other) <==> q.paused.contains_key(other)
            &&& q.paused.contains_key(other) ==> after.paused[other] == q.paused[other]
            &&& after.active.contains_key(other) <==> q.active.contains_key(other)
            &&& q.active.contains_key(other) ==> after.active[other] == q.active[other]
            &&& has_job(after.pending, other) <==> has_job(q.pending, other)
            &&& after.history == q.history
            &&& after.requests == q.requests
            &&& after.discarded == q.discarded
            &&& after.shown_card(other) == q.shown_card(other)
        }),
{
    job_position_is_first(q.pending, id);
    other_job_stays(q.pending, id, other);
}

/// Resuming touches one card alone, and no card that has ended.
pub proof fn resuming_touches_one_card(q: QueueView, id: Seq<char>, other: Seq<char>, now_ms: u64)
    requires
        q.wf(),
        other != id,
    ensures
        ({
            let after = q.resuming(id, now_ms).0;
            &&& after.paused.contains_key(other) <==> q.paused.contains_key(other)
            &&& q.paused.contains_key(other) ==> after.paused[other] == q.paused[other]
            &&& after.active == q.active
            &&& has_job(after.pending, other) <==> has_job(q.pending, other)
            &&& after.history == q.history
            &&& after.requests == q.requests
            &&& after.discarded == q.discarded
        }),
{
    let after = q.resuming(id, now_ms).0;
    if has_job(q.pending, other) {
        let i = choose|i: int|
            0 <= i < q.pending.len() && q.pending[i].activity.activity_id == other;
        assert(after.pending[i].activity.activity_id == other);
    }
    if has_job(after.pending, other) {
        let i = choose|i: int|
            0 <= i < after.pending.len() && after.pending[i].activity.activity_id == other;
        assert(i < q.pending.len());
        assert(q.pending[i].activity.activity_id == other);
    }
}

/// The end of one task leaves every other one running as it was, and what is to
/// happen with it.
pub proof fn ended_tasks_leave_the_others(
    q: QueueView,
    id: Seq<char>,
    job: Option<JobView>,
    other: Seq<char>,
    now_ms: u64,
)
    requires
        other != id,
        job matches Some(left) ==> left.activity.activity_id == id,
    ensures
        ({
            let after = q.finishing(id, job, now_ms).0;
            &&& after.active.contains_key(other) <==> q.active.contains_key(other)
            &&& q.active.contains_key(other) ==> after.active[other] == q.active[other]
            &&& after.actions.contains_key(other) <==> q.actions.contains_key(other)
            &&& q.actions.contains_key(other) ==> after.actions[other] == q.actions[other]
            &&& after.paused.contains_key(other) <==> q.paused.contains_key(other)
            &&& after.discarded == q.discarded
        }),
{
}

} // verus!
