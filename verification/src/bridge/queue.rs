//! The in-memory transfer queue: which cards wait, run or rest, which are
//! shown, and what pausing, resuming, canceling and discarding do to them.
use vstd::prelude::*;
use vstd::string::*;

use crate::bridge::activity::is_finalizing_activity;
use crate::bridge::driver::AttemptVerdict;
use crate::bridge::events::{callback_views, CallbackView, TransferCallback};
use crate::bridge::models::{
    ActivityView, EnvoixError, EnvoixRuntimeSettings, FfiTransferActivityRecord,
    FfiTransferRequest, RequestView,
};
use crate::bridge::reports::{queued_cancel_status, report_queued_cancel};
use crate::bridge::routes::{
    attempt_id_text, effective_parallel_limit, next_attempt_id, op_err, parallel_limit,
};
use crate::text::{is_blank, joined, same_text, text_seq, trimmed};
use crate::text_map::TextMap;

verus! {

broadcast use {vstd::seq_lib::group_seq_properties, vstd::map_lib::group_map_properties};

/// How many ended cards the queue remembers.
pub const TRANSFER_ACTIVITY_HISTORY_CAP: usize = 50;

/// A request to a running transfer task.
#[derive(Clone, Copy, Debug, PartialEq, Eq, Structural)]
pub enum TransferStop {
    Cancel,
    Pause,
}

/// What is to happen with a running transfer once its task has stopped.
#[derive(Clone, Copy, Debug, PartialEq, Eq, Structural)]
pub enum PendingPauseAction {
    Pause,
    Resume,
    Cancel,
}

/// A card that waits for its turn or rests.
#[derive(Debug, PartialEq, Eq)]
pub struct QueuedTransfer {
    pub request: FfiTransferRequest,
    /// Handle of the observer that native code registered.
    pub observer: u64,
    pub activity: FfiTransferActivityRecord,
}

/// What a [`QueuedTransfer`] holds.
#[verifier::ext_equal]
pub struct JobView {
    pub request: RequestView,
    pub observer: u64,
    pub activity: ActivityView,
}

impl View for QueuedTransfer {
    type V = JobView;

    open spec fn view(&self) -> JobView {
        JobView {
            request: self.request@,
            observer: self.observer,
            activity: self.activity@,
        }
    }
}

impl Clone for QueuedTransfer {
    fn clone(&self) -> (r: Self)
        ensures
            r == *self,
    {
        QueuedTransfer {
            request: self.request.clone(),
            observer: self.observer,
            activity: self.activity.clone(),
        }
    }
}

/// A card whose task is running.
#[derive(Debug, PartialEq, Eq)]
pub struct ActiveTransfer {
    /// Whether the task can still be asked to stop.
    pub control: bool,
    pub limit: usize,
    pub activity: FfiTransferActivityRecord,
}

/// What a [`ActiveTransfer`] holds.
#[verifier::ext_equal]
pub struct ActiveView {
    pub control: bool,
    pub limit: usize,
    pub activity: ActivityView,
}

impl View for ActiveTransfer {
    type V = ActiveView;

    open spec fn view(&self) -> ActiveView {
        ActiveView {
            control: self.control,
            limit: self.limit,
            activity: self.activity@,
        }
    }
}

impl Clone for ActiveTransfer {
    fn clone(&self) -> (r: Self)
        ensures
            r == *self,
    {
        ActiveTransfer {
            control: self.control,
            limit: self.limit,
            activity: self.activity.clone(),
        }
    }
}

/// One call to a registered observer.
#[derive(Debug, PartialEq, Eq)]
pub struct ObserverCall {
    pub observer: u64,
    pub call: TransferCallback,
}

/// What a [`ObserverCall`] holds.
#[verifier::ext_equal]
pub struct ObserverCallView {
    pub observer: u64,
    pub call: CallbackView,
}

impl View for ObserverCall {
    type V = ObserverCallView;

    open spec fn view(&self) -> ObserverCallView {
        ObserverCallView {
            observer: self.observer,
            call: self.call@,
        }
    }
}

impl Clone for ObserverCall {
    fn clone(&self) -> (r: Self)
        ensures
            r == *self,
    {
        ObserverCall {
            observer: self.observer,
            call: self.call.clone(),
        }
    }
}

/// Partial files of a receive that nobody wants any more.
#[derive(Debug, PartialEq, Eq)]
pub struct CleanupJob {
    pub request: FfiTransferRequest,
    pub activity: FfiTransferActivityRecord,
}

/// What a [`CleanupJob`] holds.
#[verifier::ext_equal]
pub struct CleanupView {
    pub request: RequestView,
    pub activity: ActivityView,
}

impl View for CleanupJob {
    type V = CleanupView;

    open spec fn view(&self) -> CleanupView {
        CleanupView {
            request: self.request@,
            activity: self.activity@,
        }
    }
}

impl Clone for CleanupJob {
    fn clone(&self) -> (r: Self)
        ensures
            r == *self,
    {
        CleanupJob {
            request: self.request.clone(),
            activity: self.activity.clone(),
        }
    }
}

/// What became of an operation on the queue.
#[derive(Debug, PartialEq, Eq)]
pub struct QueueOutcome {
    /// Whether the operation had any effect, or had it before.
    pub accepted: bool,
    /// The observer calls to make, in order.
    pub calls: Vec<ObserverCall>,
    /// What the running task of the card is to be told.
    pub signal: Option<TransferStop>,
    /// The partial files to delete.
    pub cleanup: Vec<CleanupJob>,
}

/// What a [`QueueOutcome`] holds.
#[verifier::ext_equal]
pub struct OutcomeView {
    pub accepted: bool,
    pub calls: Seq<ObserverCallView>,
    pub signal: Option<TransferStop>,
    pub cleanup: Seq<CleanupView>,
}

impl View for QueueOutcome {
    type V = OutcomeView;

    open spec fn view(&self) -> OutcomeView {
        OutcomeView {
            accepted: self.accepted,
            calls: self.calls@.map_values(|x: ObserverCall| x@),
            signal: self.signal,
            cleanup: self.cleanup@.map_values(|x: CleanupJob| x@),
        }
    }
}

impl Clone for QueueOutcome {
    fn clone(&self) -> (r: Self)
        ensures
            r@ == self@,
    {
        let r = QueueOutcome {
            accepted: self.accepted,
            calls: self.calls.clone(),
            signal: self.signal,
            cleanup: self.cleanup.clone(),
        };
        assert(r@.calls =~= self@.calls);
        assert(r@.cleanup =~= self@.cleanup);
        r
    }
}

/// What a card leaves behind when its task has stopped.
#[derive(Debug, PartialEq, Eq)]
pub struct FinishedActivityNotice {
    pub observer: u64,
    pub activity: FfiTransferActivityRecord,
    pub status: String,
    pub cleanup_request: Option<FfiTransferRequest>,
}

/// What a [`FinishedActivityNotice`] holds.
#[verifier::ext_equal]
pub struct NoticeView {
    pub observer: u64,
    pub activity: ActivityView,
    pub status: Seq<char>,
    pub cleanup_request: Option<RequestView>,
}

impl View for FinishedActivityNotice {
    type V = NoticeView;

    open spec fn view(&self) -> NoticeView {
        NoticeView {
            observer: self.observer,
            activity: self.activity@,
            status: self.status@,
            cleanup_request: match self.cleanup_request { Some(x) => Some(x@), None => None },
        }
    }
}

impl Clone for FinishedActivityNotice {
    fn clone(&self) -> (r: Self)
        ensures
            r == *self,
    {
        FinishedActivityNotice {
            observer: self.observer,
            activity: self.activity.clone(),
            status: self.status.clone(),
            cleanup_request: self.cleanup_request.clone(),
        }
    }
}

/// The transfer queue.
pub struct TransferQueueState {
    pending: Vec<QueuedTransfer>,
    active: TextMap<ActiveTransfer>,
    paused: TextMap<QueuedTransfer>,
    pending_pause_actions: TextMap<PendingPauseAction>,
    history: Vec<FfiTransferActivityRecord>,
    requests: TextMap<FfiTransferRequest>,
    discarded: TextMap<()>,
}

/// What a [`TransferQueueState`] holds.
#[verifier::ext_equal]
pub struct QueueView {
    /// Cards that wait, in the order of their turn.
    pub pending: Seq<JobView>,
    pub active: Map<Seq<char>, ActiveView>,
    pub paused: Map<Seq<char>, JobView>,
    pub actions: Map<Seq<char>, PendingPauseAction>,
    /// Ended cards, the latest first.
    pub history: Seq<ActivityView>,
    pub requests: Map<Seq<char>, RequestView>,
    pub discarded: Set<Seq<char>>,
}

/// The views of a list of jobs.
pub open spec fn job_views(jobs: Seq<QueuedTransfer>) -> Seq<JobView> {
    jobs.map_values(|j: QueuedTransfer| j@)
}

/// The views of a list of cards.
pub open spec fn card_views(cards: Seq<FfiTransferActivityRecord>) -> Seq<ActivityView> {
    cards.map_values(|c: FfiTransferActivityRecord| c@)
}

/// The views of a list of observer calls.
pub open spec fn call_views(calls: Seq<ObserverCall>) -> Seq<ObserverCallView> {
    calls.map_values(|c: ObserverCall| c@)
}

/// The views of a list of cleanups.
pub open spec fn cleanup_views(jobs: Seq<CleanupJob>) -> Seq<CleanupView> {
    jobs.map_values(|j: CleanupJob| j@)
}

impl View for TransferQueueState {
    type V = QueueView;

    closed spec fn view(&self) -> QueueView {
        QueueView {
            pending: job_views(self.pending@),
            active: self.active@.map_values(|a: ActiveTransfer| a@),
            paused: self.paused@.map_values(|j: QueuedTransfer| j@),
            actions: self.pending_pause_actions@,
            history: card_views(self.history@),
            requests: self.requests@.map_values(|r: FfiTransferRequest| r@),
            discarded: self.discarded@.dom(),
        }
    }
}

/// Where the job of a card stands among `jobs`; their number if nowhere.
pub open spec fn job_position(jobs: Seq<JobView>, id: Seq<char>) -> nat
    decreases jobs.len(),
{
    if jobs.len() == 0 || jobs[0].activity.activity_id == id {
        0
    } else {
        1 + job_position(jobs.skip(1), id)
    }
}

/// Whether a card is among `jobs`.
pub open spec fn has_job(jobs: Seq<JobView>, id: Seq<char>) -> bool {
    exists|i: int| 0 <= i < jobs.len() && (#[trigger] jobs[i]).activity.activity_id == id
}

/// Whether a card is among `cards`.
pub open spec fn has_card(cards: Seq<ActivityView>, id: Seq<char>) -> bool {
    exists|i: int| 0 <= i < cards.len() && (#[trigger] cards[i]).activity_id == id
}

/// `cards` without those of `id`.
pub open spec fn without_card(cards: Seq<ActivityView>, id: Seq<char>) -> Seq<ActivityView>
    decreases cards.len(),
{
    if cards.len() == 0 {
        Seq::empty()
    } else {
        let before = without_card(cards.drop_last(), id);
        if cards.last().activity_id == id {
            before
        } else {
            before.push(cards.last())
        }
    }
}

/// The first card of `id`.
pub open spec fn find_card(cards: Seq<ActivityView>, id: Seq<char>) -> Option<ActivityView>
    decreases cards.len(),
{
    if cards.len() == 0 {
        None
    } else if cards[0].activity_id == id {
        Some(cards[0])
    } else {
        find_card(cards.skip(1), id)
    }
}

pub(crate) proof fn job_position_is_first(jobs: Seq<JobView>, id: Seq<char>)
    ensures
        job_position(jobs, id) <= jobs.len(),
        job_position(jobs, id) < jobs.len() ==> jobs[job_position(
            jobs,
            id,
        ) as int].activity.activity_id == id,
        forall|i: int|
            0 <= i < job_position(jobs, id) ==> (#[trigger] jobs[i]).activity.activity_id != id,
        has_job(jobs, id) == (job_position(jobs, id) < jobs.len()),
    decreases jobs.len(),
{
    if jobs.len() > 0 && jobs[0].activity.activity_id != id {
        job_position_is_first(jobs.skip(1), id);
        let p = job_position(jobs.skip(1), id);
        assert forall|i: int| 0 <= i < job_position(jobs, id) implies (
        #[trigger] jobs[i]).activity.activity_id != id by {
            if i > 0 {
                assert(jobs.skip(1)[i - 1] == jobs[i]);
            }
        }
        if p < jobs.skip(1).len() {
            assert(jobs[p as int + 1].activity.activity_id == id);
        }
    }
}

pub(crate) proof fn without_card_removes(cards: Seq<ActivityView>, id: Seq<char>)
    ensures
        !has_card(without_card(cards, id), id),
        without_card(cards, id).len() <= cards.len(),
        has_card(cards, id) ==> without_card(cards, id).len() < cards.len(),
        !has_card(cards, id) ==> without_card(cards, id) == cards,
        forall|i: int|
            0 <= i < without_card(cards, id).len() ==> cards.contains(
                #[trigger] without_card(cards, id)[i],
            ),
        cards_differ(cards) ==> cards_differ(without_card(cards, id)),
    decreases cards.len(),
{
    if cards.len() > 0 {
        let init = cards.drop_last();
        without_card_removes(init, id);
        let before = without_card(init, id);
        let after = without_card(cards, id);
        assert forall|i: int| 0 <= i < after.len() implies cards.contains(#[trigger] after[i]) by {
            if i < before.len() {
                assert(init.contains(before[i]));
                let k = choose|k: int| 0 <= k < init.len() && init[k] == before[i];
                assert(cards[k] == after[i]);
            } else {
                assert(cards[cards.len() - 1] == after[i]);
            }
        }
        if has_card(after, id) {
            let i = choose|i: int| 0 <= i < after.len() && after[i].activity_id == id;
            if i < before.len() {
                assert(before[i].activity_id == id);
            }
        }
        if has_card(cards, id) && cards.last().activity_id != id {
            let i = choose|i: int| 0 <= i < cards.len() && cards[i].activity_id == id;
            assert(init[i].activity_id == id);
        }
        if !has_card(cards, id) {
            assert(cards[cards.len() - 1].activity_id != id);
            if has_card(init, id) {
                let i = choose|i: int| 0 <= i < init.len() && init[i].activity_id == id;
                assert(cards[i].activity_id == id);
            }
            assert(after =~= cards);
        }
        if cards_differ(cards) {
            assert(cards_differ(init)) by {
                assert forall|i: int, j: int|
                    #![trigger init[i], init[j]]
                    0 <= i < j < init.len() implies init[i].activity_id != init[j].activity_id by {
                    assert(cards[i].activity_id != cards[j].activity_id);
                }
            }
            assert forall|i: int, j: int|
                #![trigger after[i], after[j]]
                0 <= i < j < after.len() implies after[i].activity_id != after[j].activity_id by {
                if j == before.len() {
                    assert(init.contains(before[i]));
                    let k = choose|k: int| 0 <= k < init.len() && init[k] == before[i];
                    assert(cards[k].activity_id != cards[cards.len() - 1].activity_id);
                } else {
                    assert(before[i].activity_id != before[j].activity_id);
                }
            }
        }
    }
}

pub(crate) proof fn find_card_finds(cards: Seq<ActivityView>, id: Seq<char>)
    ensures
        find_card(cards, id) is Some == has_card(cards, id),
        find_card(cards, id) matches Some(card) ==> cards.contains(card) && card.activity_id == id,
    decreases cards.len(),
{
    if cards.len() > 0 && cards[0].activity_id != id {
        find_card_finds(cards.skip(1), id);
        if has_card(cards, id) {
            let i = choose|i: int| 0 <= i < cards.len() && cards[i].activity_id == id;
            assert(cards.skip(1)[i - 1].activity_id == id);
        }
        if has_card(cards.skip(1), id) {
            let i = choose|i: int|
                0 <= i < cards.skip(1).len() && cards.skip(1)[i].activity_id == id;
            assert(cards[i + 1].activity_id == id);
        }
        if let Some(card) = find_card(cards, id) {
            let k = choose|k: int| 0 <= k < cards.skip(1).len() && cards.skip(1)[k] == card;
            assert(cards[k + 1] == card);
        }
    } else if cards.len() > 0 {
        assert(cards[0].activity_id == id);
    }
}

/// Whether no two cards share an id.
pub open spec fn cards_differ(cards: Seq<ActivityView>) -> bool {
    forall|i: int, j: int|
        #![trigger cards[i], cards[j]]
        0 <= i < j < cards.len() ==> cards[i].activity_id != cards[j].activity_id
}

/// Whether no two jobs share an id.
pub open spec fn jobs_differ(jobs: Seq<JobView>) -> bool {
    forall|i: int, j: int|
        #![trigger jobs[i], jobs[j]]
        0 <= i < j < jobs.len() ==> jobs[i].activity.activity_id != jobs[j].activity.activity_id
}

impl QueueView {
    /// A queue without any card.
    pub open spec fn idle() -> QueueView {
        QueueView {
            pending: Seq::empty(),
            active: Map::empty(),
            paused: Map::empty(),
            actions: Map::empty(),
            history: Seq::empty(),
            requests: Map::empty(),
            discarded: Set::empty(),
        }
    }

    /// What every operation keeps: a card is in one place at most, is kept
    /// under its own id, runs only within every limit, and an ended card that
    /// was discarded is not remembered.
    pub open spec fn wf(self) -> bool {
        &&& jobs_differ(self.pending)
        &&& forall|i: int|
            #![trigger self.pending[i]]
            0 <= i < self.pending.len() ==> !self.active.contains_key(
                self.pending[i].activity.activity_id,
            ) && !self.paused.contains_key(self.pending[i].activity.activity_id)
        &&& forall|id: Seq<char>| #[trigger]
            self.active.contains_key(id) ==> self.active[id].activity.activity_id == id
                && !self.paused.contains_key(id)
        &&& forall|id: Seq<char>| #[trigger]
            self.paused.contains_key(id) ==> self.paused[id].activity.activity_id == id
        &&& self.active.dom().finite()
        &&& forall|id: Seq<char>| #[trigger]
            self.active.contains_key(id) ==> self.active.dom().len() <= self.active[id].limit
        &&& cards_differ(self.history)
        &&& self.history.len() <= TRANSFER_ACTIVITY_HISTORY_CAP
        &&& forall|i: int|
            0 <= i < self.history.len() ==> !self.discarded.contains(
                (#[trigger] self.history[i]).activity_id,
            )
    }

    /// Whether a card waits, runs or rests.
    pub open spec fn knows(self, id: Seq<char>) -> bool {
        self.active.contains_key(id) || has_job(self.pending, id) || self.paused.contains_key(id)
    }

    /// The card that the queue shows for `id`.
    pub open spec fn shown_card(self, id: Seq<char>) -> Option<ActivityView> {
        if self.discarded.contains(id) {
            None
        } else if has_card(self.history, id) {
            find_card(self.history, id)
        } else if self.active.contains_key(id) {
            Some(self.active[id].activity)
        } else if has_job(self.pending, id) {
            Some(self.pending[job_position(self.pending, id) as int].activity)
        } else if self.paused.contains_key(id) {
            Some(self.paused[id].activity)
        } else {
            None
        }
    }

    /// Whether anything still refers to `id`.
    pub open spec fn retains(self, id: Seq<char>) -> bool {
        has_card(self.history, id) || self.knows(id)
    }

    /// The queue that remembers an ended card, its latest one first. Requests
    /// that nothing refers to any more are forgotten.
    pub open spec fn remembering(self, card: ActivityView) -> QueueView {
        if self.discarded.contains(card.activity_id) {
            self
        } else {
            let all = seq![card] + without_card(self.history, card.activity_id);
            let kept = QueueView {
                history: if all.len() > TRANSFER_ACTIVITY_HISTORY_CAP {
                    all.take(TRANSFER_ACTIVITY_HISTORY_CAP as int)
                } else {
                    all
                },
                ..self
            };
            QueueView {
                requests: self.requests.restrict(Set::new(|id: Seq<char>| kept.retains(id))),
                ..kept
            }
        }
    }

    /// The queue in which `id` does not wait.
    pub open spec fn not_pending(self, id: Seq<char>) -> QueueView {
        let at = job_position(self.pending, id);
        QueueView {
            pending: if at < self.pending.len() {
                self.pending.remove(at as int)
            } else {
                self.pending
            },
            ..self
        }
    }

    /// The queue in which the task of `id` can no longer be asked to stop.
    pub open spec fn disarmed(self, id: Seq<char>) -> QueueView {
        QueueView {
            active: if self.active.contains_key(id) {
                self.active.insert(id, ActiveView { control: false, ..self.active[id] })
            } else {
                self.active
            },
            ..self
        }
    }

    /// The queue in which `action` is to happen with `id` once its task has
    /// stopped.
    pub open spec fn with_action(self, id: Seq<char>, action: PendingPauseAction) -> QueueView {
        QueueView { actions: self.actions.insert(id, action), ..self }
    }

    /// Whether the task of `id` can be asked to stop by the user.
    pub open spec fn can_stop(self, id: Seq<char>) -> bool {
        self.active.contains_key(id) && self.active[id].control
            && !self.active[id].activity.is_finalizing()
    }

    /// Whether the task of `id` is stopping already.
    pub open spec fn is_stopping(self, id: Seq<char>) -> bool {
        self.active.contains_key(id) && self.actions.contains_key(id)
    }
}

pub(crate) proof fn take_pending(q: QueueView, id: Seq<char>)
    requires
        q.wf(),
    ensures
        q.not_pending(id).wf(),
        !has_job(q.not_pending(id).pending, id),
{
    job_position_is_first(q.pending, id);
    let at = job_position(q.pending, id);
    let after = q.not_pending(id).pending;
    if at < q.pending.len() {
        assert forall|i: int|
            #![trigger after[i]]
            0 <= i < after.len() implies exists|k: int|
            0 <= k < q.pending.len() && k != at && after[i] == q.pending[k] by {
            let k = if i < at {
                i
            } else {
                i + 1
            };
            assert(after[i] == q.pending[k]);
        }
        assert(jobs_differ(after)) by {
            assert forall|i: int, j: int|
                #![trigger after[i], after[j]]
                0 <= i < j < after.len() implies after[i].activity.activity_id
                != after[j].activity.activity_id by {
                let k = if i < at {
                    i
                } else {
                    i + 1
                };
                let m = if j < at {
                    j
                } else {
                    j + 1
                };
                assert(q.pending[k].activity.activity_id != q.pending[m].activity.activity_id);
            }
        }
        if has_job(after, id) {
            let i = choose|i: int| 0 <= i < after.len() && after[i].activity.activity_id == id;
            let k = if i < at {
                i
            } else {
                i + 1
            };
            assert(after[i] == q.pending[k]);
            if k < at {
                assert(q.pending[k].activity.activity_id != q.pending[at as int].activity.activity_id);
            } else {
                assert(q.pending[at as int].activity.activity_id != q.pending[k].activity.activity_id);
            }
        }
    }
}

proof fn remembering_keeps_wf(q: QueueView, card: ActivityView)
    requires
        q.wf(),
    ensures
        q.remembering(card).wf(),
{
    if !q.discarded.contains(card.activity_id) {
        without_card_removes(q.history, card.activity_id);
        let rest = without_card(q.history, card.activity_id);
        let all = seq![card] + rest;
        assert forall|i: int, j: int|
            #![trigger all[i], all[j]]
            0 <= i < j < all.len() implies all[i].activity_id != all[j].activity_id by {
            assert(all[j] == rest[j - 1]);
            if i == 0 {
                assert(rest[j - 1].activity_id != card.activity_id);
            } else {
                assert(all[i] == rest[i - 1]);
            }
        }
        assert forall|i: int| 0 <= i < all.len() implies !q.discarded.contains(
            (#[trigger] all[i]).activity_id,
        ) by {
            if i > 0 {
                assert(q.history.contains(rest[i - 1]));
                let k = choose|k: int| 0 <= k < q.history.len() && q.history[k] == rest[i - 1];
                assert(q.history[k] == all[i]);
            }
        }
        let h = q.remembering(card).history;
        assert forall|i: int| 0 <= i < h.len() implies h[i] == all[i] by {}
    }
}

impl TransferQueueState {
    /// The empty queue.
    pub fn new() -> (r: Self)
        ensures
            r@.wf(),
            r@ == QueueView::idle(),
    {
        let r = TransferQueueState {
            pending: Vec::new(),
            active: TextMap::new(),
            paused: TextMap::new(),
            pending_pause_actions: TextMap::new(),
            history: Vec::new(),
            requests: TextMap::new(),
            discarded: TextMap::new(),
        };
        assert(r@.pending =~= Seq::empty());
        assert(r@.history =~= Seq::empty());
        assert(r@.active =~= Map::empty());
        assert(r@.paused =~= Map::empty());
        assert(r@.requests =~= Map::empty());
        assert(r@.discarded =~= Set::empty());
        r
    }

    fn pending_position(&self, id: &str) -> (r: usize)
        ensures
            r == job_position(self@.pending, id@),
            r <= self.pending@.len(),
    {
        proof {
            job_position_is_first(self@.pending, id@);
        }
        let mut i: usize = 0;
        while i < self.pending.len() && !same_text(self.pending[i].activity.activity_id.as_str(), id)
            invariant
                i <= job_position(self@.pending, id@) <= self.pending@.len(),
                job_position(self@.pending, id@) < self.pending@.len() ==> self@.pending[job_position(
                    self@.pending,
                    id@,
                ) as int].activity.activity_id == id@,
                forall|k: int|
                    0 <= k < job_position(self@.pending, id@) ==> (
                    #[trigger] self@.pending[k]).activity.activity_id != id@,
            decreases self.pending@.len() - i,
        {
            assert(self@.pending[i as int] == self.pending@[i as int]@);
            i += 1;
        }
        if i < self.pending.len() {
            assert(self@.pending[i as int] == self.pending@[i as int]@);
        }
        i
    }

    /// Whether a card waits, runs or rests.
    pub fn contains_activity(&self, activity_id: &str) -> (r: bool)
        ensures
            r == self@.knows(activity_id@),
    {
        proof {
            job_position_is_first(self@.pending, activity_id@);
        }
        self.active.contains_key(activity_id) || self.pending_position(activity_id)
            < self.pending.len() || self.paused.contains_key(activity_id)
    }

    fn history_position(&self, id: &str) -> (r: Option<usize>)
        ensures
            match r {
                Some(i) => i < self.history@.len() && find_card(self@.history, id@) == Some(
                    self@.history[i as int],
                ),
                None => !has_card(self@.history, id@),
            },
    {
        let ghost cards = self@.history;
        let mut i: usize = 0;
        assert(cards.skip(0) =~= cards);
        while i < self.history.len()
            invariant
                i <= self.history@.len(),
                cards == self@.history,
                find_card(cards.skip(i as int), id@) == find_card(cards, id@),
            decreases self.history@.len() - i,
        {
            assert(cards[i as int] == self.history@[i as int]@);
            assert(cards.skip(i as int)[0] == cards[i as int]);
            if same_text(self.history[i].activity_id.as_str(), id) {
                return Some(i);
            }
            assert(cards.skip(i as int).skip(1) =~= cards.skip(i + 1));
            i += 1;
        }
        proof {
            find_card_finds(cards, id@);
        }
        None
    }

    /// The card that the queue shows for an id.
    pub fn activity(&self, activity_id: &str) -> (r: Option<FfiTransferActivityRecord>)
        ensures
            (match r {
                Some(card) => Some(card@),
                None => None,
            }) == self@.shown_card(activity_id@),
    {
        proof {
            job_position_is_first(self@.pending, activity_id@);
            find_card_finds(self@.history, activity_id@);
        }
        if self.discarded.contains_key(activity_id) {
            return None;
        }
        if let Some(i) = self.history_position(activity_id) {
            assert(self@.history[i as int] == self.history@[i as int]@);
            return Some(self.history[i].clone());
        }
        if let Some(active) = self.active.get(activity_id) {
            return Some(active.activity.clone());
        }
        let at: usize = self.pending_position(activity_id);
        if at < self.pending.len() {
            assert(self@.pending[at as int] == self.pending@[at as int]@);
            return Some(self.pending[at].activity.clone());
        }
        match self.paused.get(activity_id) {
            Some(job) => Some(job.activity.clone()),
            None => None,
        }
    }

    /// Whether one more transfer may start beside the running ones: no running
    /// transfer's limit and not its own may be exceeded.
    pub fn can_start(&self, next_limit: usize) -> (r: bool)
        ensures
            r == self@.may_start(next_limit),
    {
        let count: usize = self.active.len();
        if count == 0 {
            assert(self@.active.dom() =~= self.active@.dom());
            return true;
        }
        if count >= next_limit {
            assert(self@.active.dom() =~= self.active@.dom());
            return false;
        }
        let mut i: usize = 0;
        while i < count
            invariant
                i <= count == self.active.keys().len(),
                self.active@.dom().len() == count,
                self.active@.dom().finite(),
                forall|k: int|
                    0 <= k < i ==> count < self.active@[#[trigger] self.active.keys()[k]].limit,
            decreases count - i,
        {
            if count >= self.active.value(i).limit {
                let ghost key = self.active.keys()[i as int];
                assert(self@.active.contains_key(key));
                assert(self@.active.dom() =~= self.active@.dom());
                assert(self@.active[key].limit == self.active@[key].limit);
                return false;
            }
            i += 1;
        }
        proof {
            assert(self@.active.dom() =~= self.active@.dom());
            assert forall|id: Seq<char>| #[trigger] self@.active.contains_key(id) implies count
                < self@.active[id].limit by {
                assert(self.active@.contains_key(id));
                assert(self.active.keys().contains(id));
                let k = choose|k: int|
                    0 <= k < self.active.keys().len() && self.active.keys()[k] == id;
                assert(count < self.active@[self.active.keys()[k]].limit);
            }
        }
        true
    }
}

impl QueueView {
    /// Whether one more transfer may start beside the running ones. With
    /// nothing running, one always may.
    pub open spec fn may_start(self, next_limit: usize) -> bool {
        self.active.dom().len() == 0 || (self.active.dom().len() < next_limit && forall|id: Seq<char>|
         #[trigger]
            self.active.contains_key(id) ==> self.active.dom().len() < self.active[id].limit)
    }
}

/// The outcome of an operation that had no effect.
pub open spec fn refused() -> OutcomeView {
    OutcomeView { accepted: false, calls: Seq::empty(), signal: None, cleanup: Seq::empty() }
}

/// The outcome of an operation that native code learns nothing else of.
pub open spec fn accepted() -> OutcomeView {
    OutcomeView { accepted: true, ..refused() }
}

/// Two calls to an observer: the card as it is now, and a status line.
pub open spec fn card_calls(observer: u64, card: ActivityView, message: Seq<char>) -> Seq<
    ObserverCallView,
> {
    seq![
        ObserverCallView { observer, call: CallbackView::Activity { record: card } },
        ObserverCallView { observer, call: CallbackView::Status { message } },
    ]
}

/// The calls for a job that the user canceled before its task ran.
pub open spec fn queued_cancel_calls(job: JobView, now_ms: u64) -> Seq<ObserverCallView> {
    card_calls(
        job.observer,
        job.activity.canceled(now_ms),
        queued_cancel_status(job.activity.state),
    )
}

fn card_call_list(observer: u64, card: &FfiTransferActivityRecord, message: &str) -> (r: Vec<ObserverCall>)
    ensures
        call_views(r@) == card_calls(observer, card@, message@),
{
    let mut calls: Vec<ObserverCall> = Vec::new();
    calls.push(
        ObserverCall { observer, call: TransferCallback::Activity { record: card.clone() } },
    );
    calls.push(
        ObserverCall { observer, call: TransferCallback::Status { message: message.to_owned() } },
    );
    assert(call_views(calls@) =~= card_calls(observer, card@, message@));
    calls
}

fn refusal() -> (r: QueueOutcome)
    ensures
        r@ == refused(),
{
    let r = QueueOutcome {
        accepted: false,
        calls: Vec::new(),
        signal: None,
        cleanup: Vec::new(),
    };
    assert(r@.calls =~= Seq::empty());
    assert(r@.cleanup =~= Seq::empty());
    r
}

fn acceptance(calls: Vec<ObserverCall>, signal: Option<TransferStop>) -> (r: QueueOutcome)
    ensures
        r@ == (OutcomeView { calls: call_views(calls@), signal, ..accepted() }),
{
    let r = QueueOutcome { accepted: true, calls, signal, cleanup: Vec::new() };
    assert(r@.calls =~= call_views(calls@));
    assert(r@.cleanup =~= Seq::empty());
    r
}

/// Ends a job that never ran; the card and the calls it leaves behind.
fn cancel_job(job: QueuedTransfer, now_ms: u64) -> (r: (FfiTransferActivityRecord, Vec<ObserverCall>))
    ensures
        r.0@ == job@.activity.canceled(now_ms),
        call_views(r.1@) == queued_cancel_calls(job@, now_ms),
{
    let mut card = job.activity;
    let reported = report_queued_cancel(&mut card, now_ms);
    let mut calls: Vec<ObserverCall> = Vec::new();
    assert(callback_views(reported@).len() == 2);
    calls.push(ObserverCall { observer: job.observer, call: reported[0].clone() });
    calls.push(ObserverCall { observer: job.observer, call: reported[1].clone() });
    assert(reported@[0]@ == callback_views(reported@)[0]);
    assert(reported@[1]@ == callback_views(reported@)[1]);
    assert(call_views(calls@) =~= queued_cancel_calls(job@, now_ms));
    (card, calls)
}

/// The view of an optional job.
pub open spec fn job_option(job: Option<QueuedTransfer>) -> Option<JobView> {
    match job {
        Some(job) => Some(job@),
        None => None,
    }
}

fn discard_outcome(
    stored: Option<QueuedTransfer>,
    armed: bool,
    known: bool,
    request: Option<FfiTransferRequest>,
    record: Option<FfiTransferActivityRecord>,
    now_ms: u64,
) -> (r: QueueOutcome)
    ensures
        r@ == (OutcomeView {
            accepted: stored is Some || armed || known,
            calls: match stored {
                Some(job) => queued_cancel_calls(job@, now_ms),
                None => Seq::empty(),
            },
            signal: if armed {
                Some(TransferStop::Cancel)
            } else {
                None
            },
            cleanup: if request is Some && record is Some {
                seq![CleanupView { request: request->0@, activity: record->0@ }]
            } else {
                Seq::empty()
            },
        }),
{
    let mut cleanup: Vec<CleanupJob> = Vec::new();
    let ghost wanted = if request is Some && record is Some {
        seq![CleanupView { request: request->0@, activity: record->0@ }]
    } else {
        Seq::empty()
    };
    if let Some(request) = request {
        if let Some(record) = record {
            cleanup.push(CleanupJob { request, activity: record });
        }
    }
    assert(cleanup_views(cleanup@) =~= wanted);
    let accepted = stored.is_some() || armed || known;
    let calls = match stored {
        Some(job) => cancel_job(job, now_ms).1,
        None => {
            let none: Vec<ObserverCall> = Vec::new();
            assert(call_views(none@) =~= Seq::empty());
            none
        },
    };
    let signal = if armed {
        Some(TransferStop::Cancel)
    } else {
        None
    };
    let r = QueueOutcome { accepted, calls, signal, cleanup };
    assert(r@.calls =~= call_views(calls@));
    assert(r@.cleanup =~= cleanup_views(cleanup@));
    r
}

impl QueueView {
    /// The queue in which `id` does not rest.
    pub open spec fn not_paused(self, id: Seq<char>) -> QueueView {
        QueueView { paused: self.paused.remove(id), ..self }
    }

    /// The job of a card that waits.
    pub open spec fn pending_job(self, id: Seq<char>) -> JobView {
        self.pending[job_position(self.pending, id) as int]
    }

    /// What canceling a card does.
    pub open spec fn canceling(self, id: Seq<char>, now_ms: u64) -> (QueueView, OutcomeView) {
        if id.len() == 0 {
            (self, refused())
        } else if has_job(self.pending, id) {
            let job = self.pending_job(id);
            (
                self.not_pending(id).remembering(job.activity.canceled(now_ms)),
                OutcomeView { calls: queued_cancel_calls(job, now_ms), ..accepted() },
            )
        } else if self.paused.contains_key(id) {
            let job = self.paused[id];
            (
                self.not_paused(id).remembering(job.activity.canceled(now_ms)),
                OutcomeView { calls: queued_cancel_calls(job, now_ms), ..accepted() },
            )
        } else if self.can_stop(id) {
            (
                self.disarmed(id).with_action(id, PendingPauseAction::Cancel),
                OutcomeView { signal: Some(TransferStop::Cancel), ..accepted() },
            )
        } else if self.is_stopping(id) {
            (self.with_action(id, PendingPauseAction::Cancel), accepted())
        } else {
            (self, refused())
        }
    }

    /// What pausing a card does.
    pub open spec fn pausing(self, id: Seq<char>, now_ms: u64) -> (QueueView, OutcomeView) {
        if id.len() == 0 {
            (self, refused())
        } else if self.paused.contains_key(id) {
            (self, accepted())
        } else if has_job(self.pending, id) {
            let job = self.pending_job(id);
            let held = JobView { activity: job.activity.paused(now_ms), ..job };
            let rest = self.not_pending(id);
            (
                QueueView { paused: rest.paused.insert(id, held), ..rest },
                OutcomeView { calls: card_calls(job.observer, held.activity, "paused"@), ..accepted() },
            )
        } else if self.can_stop(id) {
            (
                self.disarmed(id).with_action(id, PendingPauseAction::Pause),
                OutcomeView { signal: Some(TransferStop::Pause), ..accepted() },
            )
        } else {
            (self, refused())
        }
    }

    /// What resuming a card does.
    pub open spec fn resuming(self, id: Seq<char>, now_ms: u64) -> (QueueView, OutcomeView) {
        if id.len() == 0 {
            (self, refused())
        } else if self.paused.contains_key(id) {
            let job = self.paused[id];
            let again = JobView { activity: job.activity.requeued(now_ms), ..job };
            let rest = self.not_paused(id);
            (
                QueueView { pending: rest.pending.push(again), ..rest },
                OutcomeView {
                    calls: card_calls(job.observer, again.activity, "resuming"@),
                    ..accepted()
                },
            )
        } else if self.is_stopping(id) && self.actions[id] != PendingPauseAction::Cancel {
            (self.with_action(id, PendingPauseAction::Resume), accepted())
        } else {
            (self, refused())
        }
    }

    /// What discarding a card does: it is gone from every list at once, and
    /// hidden from then on even where its task still runs.
    pub open spec fn discarding(self, id: Seq<char>, now_ms: u64) -> (QueueView, OutcomeView) {
        if id.len() == 0 {
            (self, refused())
        } else {
            let runs = self.active.contains_key(id);
            let armed = runs && self.active[id].control;
            let stopping = !armed && self.is_stopping(id);
            let hidden = QueueView {
                discarded: self.discarded.insert(id),
                history: without_card(self.history, id),
                requests: self.requests.remove(id),
                ..self.not_pending(id).not_paused(id)
            };
            let stopped = if armed || stopping {
                hidden.disarmed(id).with_action(id, PendingPauseAction::Cancel)
            } else {
                hidden
            };
            let stored = if has_job(self.pending, id) {
                Some(self.pending_job(id))
            } else if self.paused.contains_key(id) {
                Some(self.paused[id])
            } else {
                None
            };
            (
                stopped,
                OutcomeView {
                    accepted: stored is Some || armed || stopping || has_card(self.history, id),
                    calls: match stored {
                        Some(job) => queued_cancel_calls(job, now_ms),
                        None => Seq::empty(),
                    },
                    signal: if armed {
                        Some(TransferStop::Cancel)
                    } else {
                        None
                    },
                    cleanup: if !runs && self.requests.contains_key(id) && self.shown_card(
                        id,
                    ) is Some {
                        seq![
                            CleanupView {
                                request: self.requests[id],
                                activity: self.shown_card(id)->0,
                            },
                        ]
                    } else {
                        Seq::empty()
                    },
                },
            )
        }
    }

    /// The queue after the task of `id` has ended, leaving `job` behind where
    /// the transfer is to go on later.
    pub open spec fn finishing(self, id: Seq<char>, job: Option<JobView>, now_ms: u64) -> (
        QueueView,
        Option<NoticeView>,
    ) {
        let action = if self.actions.contains_key(id) {
            Some(self.actions[id])
        } else {
            None
        };
        let rest = QueueView {
            active: self.active.remove(id),
            actions: self.actions.remove(id),
            ..self
        };
        match job {
            None => (rest, None),
            Some(job) => match action {
                Some(PendingPauseAction::Cancel) => {
                    let card = job.activity.canceled(now_ms);
                    (
                        rest.remembering(card),
                        Some(
                            NoticeView {
                                observer: job.observer,
                                activity: card,
                                status: "canceled"@,
                                cleanup_request: Some(job.request),
                            },
                        ),
                    )
                },
                Some(PendingPauseAction::Resume) => {
                    let card = job.activity.requeued(now_ms);
                    (
                        QueueView {
                            pending: rest.pending.push(JobView { activity: card, ..job }),
                            ..rest
                        },
                        Some(
                            NoticeView {
                                observer: job.observer,
                                activity: card,
                                status: "resuming"@,
                                cleanup_request: None,
                            },
                        ),
                    )
                },
                _ => (
                    QueueView { paused: rest.paused.insert(id, job), ..rest },
                    Some(
                        NoticeView {
                            observer: job.observer,
                            activity: job.activity,
                            status: "paused"@,
                            cleanup_request: None,
                        },
                    ),
                ),
            },
        }
    }

    /// The queue that keeps `card` as the latest form of a running card.
    pub open spec fn storing(self, card: ActivityView) -> QueueView {
        if self.active.contains_key(card.activity_id) {
            QueueView {
                active: self.active.insert(
                    card.activity_id,
                    ActiveView { activity: card, ..self.active[card.activity_id] },
                ),
                ..self
            }
        } else {
            self
        }
    }

    /// The queue in which the card `id`, which the peer paused, goes on by
    /// itself, unless the local user asked for something else meanwhile.
    pub open spec fn awaiting_peer(self, id: Seq<char>) -> QueueView {
        if self.actions.contains_key(id) {
            self.disarmed(id)
        } else {
            self.disarmed(id).with_action(id, PendingPauseAction::Resume)
        }
    }

    /// The queue after an attempt on `card` was settled. A card that ended is
    /// remembered; one that the peer paused goes on by itself.
    pub open spec fn settling(self, card: ActivityView, verdict: AttemptVerdict) -> QueueView {
        match verdict {
            AttemptVerdict::Finished | AttemptVerdict::Ended { .. } => self.storing(
                card,
            ).remembering(card),
            AttemptVerdict::PausedLocally => self.storing(card),
            AttemptVerdict::PausedByPeer => self.storing(card).awaiting_peer(card.activity_id),
            AttemptVerdict::TryNext => self,
        }
    }
}

impl TransferQueueState {
    fn prune_requests(&mut self)
        ensures
            final(self)@ == (QueueView {
                requests: old(self)@.requests.restrict(
                    Set::new(|id: Seq<char>| old(self)@.retains(id)),
                ),
                ..old(self)@
            }),
    {
        let count: usize = self.requests.len();
        let mut kept: TextMap<FfiTransferRequest> = TextMap::new();
        let mut i: usize = 0;
        while i < count
            invariant
                i <= count == self.requests.keys().len(),
                forall|id: Seq<char>| #[trigger]
                    kept@.contains_key(id) <==> self@.retains(id) && exists|k: int|
                        0 <= k < i && self.requests.keys()[k] == id,
                forall|id: Seq<char>| #[trigger]
                    kept@.contains_key(id) ==> self.requests@.contains_key(id) && kept@[id]
                        == self.requests@[id],
            decreases count - i,
        {
            let key = self.requests.key(i).clone();
            let ghost before = kept@;
            if self.history_position(key.as_str()).is_some() || self.contains_activity(
                key.as_str(),
            ) {
                proof {
                    find_card_finds(self@.history, key@);
                }
                kept.insert(key.clone(), self.requests.value(i).clone());
                assert(self@.retains(key@));
            } else {
                assert(!self@.retains(key@));
            }
            proof {
                assert forall|id: Seq<char>| #[trigger]
                    kept@.contains_key(id) <==> self@.retains(id) && exists|k: int|
                        0 <= k < i + 1 && self.requests.keys()[k] == id by {
                    if self@.retains(id) && exists|k: int|
                        0 <= k < i + 1 && self.requests.keys()[k] == id {
                        let k = choose|k: int| 0 <= k < i + 1 && self.requests.keys()[k] == id;
                        if k < i {
                            assert(before.contains_key(id));
                        }
                    }
                    if kept@.contains_key(id) {
                        if id == key@ {
                            assert(self.requests.keys()[i as int] == id);
                        } else {
                            assert(before.contains_key(id));
                            let k = choose|k: int| 0 <= k < i && self.requests.keys()[k] == id;
                            assert(0 <= k < i + 1);
                        }
                    }
                }
            }
            i += 1;
        }
        proof {
            let all = self@.requests;
            let pruned = all.restrict(Set::new(|id: Seq<char>| self@.retains(id)));
            let new = kept@.map_values(|r: FfiTransferRequest| r@);
            assert forall|id: Seq<char>| #[trigger] new.contains_key(id) == pruned.contains_key(
                id,
            ) by {
                if pruned.contains_key(id) {
                    assert(self.requests@.contains_key(id));
                    assert(self.requests.keys().contains(id));
                }
                if new.contains_key(id) {
                    assert(kept@.contains_key(id));
                }
            }
            assert(new =~= pruned);
        }
        self.requests = kept;
    }

    /// Remembers an ended card.
    pub fn push_history(&mut self, activity: FfiTransferActivityRecord)
        requires
            old(self)@.wf(),
        ensures
            final(self)@ == old(self)@.remembering(activity@),
            final(self)@.wf(),
    {
        proof {
            remembering_keeps_wf(self@, activity@);
        }
        if self.discarded.contains_key(activity.activity_id.as_str()) {
            return;
        }
        let ghost cards = self@.history;
        let ghost card = activity@;
        let id = activity.activity_id.clone();
        let mut kept: Vec<FfiTransferActivityRecord> = Vec::new();
        kept.push(activity);
        let mut i: usize = 0;
        assert(cards.take(0) =~= Seq::empty());
        assert(card_views(kept@) =~= seq![card] + without_card(cards.take(0), id@));
        while i < self.history.len()
            invariant
                i <= self.history@.len(),
                cards == card_views(self.history@),
                card_views(kept@) == seq![card] + without_card(cards.take(i as int), id@),
            decreases self.history@.len() - i,
        {
            let ghost next = cards.take(i + 1);
            assert(next.drop_last() =~= cards.take(i as int));
            assert(next.last() == self.history@[i as int]@);
            let ghost before = card_views(kept@);
            if !same_text(self.history[i].activity_id.as_str(), id.as_str()) {
                kept.push(self.history[i].clone());
                assert(card_views(kept@) =~= before.push(self.history@[i as int]@));
            }
            assert(card_views(kept@) =~= seq![card] + without_card(next, id@));
            i += 1;
        }
        assert(cards.take(i as int) =~= cards);
        let ghost all = card_views(kept@);
        if kept.len() > TRANSFER_ACTIVITY_HISTORY_CAP {
            kept.truncate(TRANSFER_ACTIVITY_HISTORY_CAP);
            assert(card_views(kept@) =~= all.take(TRANSFER_ACTIVITY_HISTORY_CAP as int));
        }
        self.history = kept;
        self.prune_requests();
    }

    fn take_pending(&mut self, id: &str) -> (r: Option<QueuedTransfer>)
        requires
            old(self)@.wf(),
        ensures
            final(self)@ == old(self)@.not_pending(id@),
            final(self)@.wf(),
            !has_job(final(self)@.pending, id@),
            match r {
                Some(job) => has_job(old(self)@.pending, id@) && job@ == old(self)@.pending_job(id@),
                None => !has_job(old(self)@.pending, id@),
            },
    {
        proof {
            take_pending(self@, id@);
            job_position_is_first(self@.pending, id@);
        }
        let at: usize = self.pending_position(id);
        if at < self.pending.len() {
            let ghost before = self@;
            assert(self@.pending[at as int] == self.pending@[at as int]@);
            let job = self.pending.remove(at);
            assert(self@.pending =~= before.pending.remove(at as int));
            Some(job)
        } else {
            None
        }
    }

    fn take_paused(&mut self, id: &str) -> (r: Option<QueuedTransfer>)
        requires
            old(self)@.wf(),
        ensures
            final(self)@ == old(self)@.not_paused(id@),
            final(self)@.wf(),
            match r {
                Some(job) => old(self)@.paused.contains_key(id@) && job@ == old(self)@.paused[id@],
                None => !old(self)@.paused.contains_key(id@),
            },
    {
        let ghost before = self@;
        let r = self.paused.remove(id);
        assert(self@.paused =~= before.paused.remove(id@));
        r
    }

    fn disarm(&mut self, id: &str)
        requires
            old(self)@.wf(),
        ensures
            final(self)@ == old(self)@.disarmed(id@),
            final(self)@.wf(),
    {
        let ghost before = self@;
        if let Some(active) = self.active.remove(id) {
            let calm = ActiveTransfer {
                control: false,
                limit: active.limit,
                activity: active.activity,
            };
            self.active.insert(id.to_owned(), calm);
            assert(self@.active =~= before.disarmed(id@).active);
            assert(before.active.dom() =~= self@.active.dom());
        } else {
            assert(self@.active =~= before.active);
        }
    }

    fn set_action(&mut self, id: &str, action: PendingPauseAction)
        requires
            old(self)@.wf(),
        ensures
            final(self)@ == old(self)@.with_action(id@, action),
            final(self)@.wf(),
    {
        self.pending_pause_actions.insert(id.to_owned(), action);
    }

    fn can_stop(&self, id: &str) -> (r: bool)
        ensures
            r == self@.can_stop(id@),
    {
        match self.active.get(id) {
            Some(active) => active.control && !is_finalizing_activity(&active.activity),
            None => false,
        }
    }

    fn is_stopping(&self, id: &str) -> (r: bool)
        ensures
            r == self@.is_stopping(id@),
    {
        self.active.contains_key(id) && self.pending_pause_actions.contains_key(id)
    }

    /// Cancels one card, whether it waits, rests or runs.
    pub fn cancel_activity(&mut self, activity_id: &str, now_ms: u64) -> (r: QueueOutcome)
        requires
            old(self)@.wf(),
        ensures
            (final(self)@, r@) == old(self)@.canceling(trimmed(activity_id@), now_ms),
            final(self)@.wf(),
    {
        let id = activity_id.trim();
        if id.is_empty() {
            return refusal();
        }
        proof {
            job_position_is_first(self@.pending, id@);
        }
        let ghost before = self@;
        if let Some(job) = self.take_pending(id) {
            let (card, calls) = cancel_job(job, now_ms);
            self.push_history(card);
            return acceptance(calls, None);
        }
        assert(self@ =~= before);
        if let Some(job) = self.take_paused(id) {
            let (card, calls) = cancel_job(job, now_ms);
            self.push_history(card);
            return acceptance(calls, None);
        }
        assert(self@ =~= before);
        let calls: Vec<ObserverCall> = Vec::new();
        assert(call_views(calls@) =~= Seq::empty());
        if self.can_stop(id) {
            self.disarm(id);
            self.set_action(id, PendingPauseAction::Cancel);
            acceptance(calls, Some(TransferStop::Cancel))
        } else if self.is_stopping(id) {
            self.set_action(id, PendingPauseAction::Cancel);
            acceptance(calls, None)
        } else {
            refusal()
        }
    }

    /// Pauses one card, keeping its request for a later resume.
    pub fn pause_activity(&mut self, activity_id: &str, now_ms: u64) -> (r: QueueOutcome)
        requires
            old(self)@.wf(),
        ensures
            (final(self)@, r@) == old(self)@.pausing(trimmed(activity_id@), now_ms),
            final(self)@.wf(),
    {
        let id = activity_id.trim();
        if id.is_empty() {
            return refusal();
        }
        let calls: Vec<ObserverCall> = Vec::new();
        assert(call_views(calls@) =~= Seq::empty());
        if self.paused.contains_key(id) {
            return acceptance(calls, None);
        }
        proof {
            job_position_is_first(self@.pending, id@);
        }
        let ghost before = self@;
        if let Some(job) = self.take_pending(id) {
            let mut card = job.activity;
            card.apply_paused(now_ms);
            let calls = card_call_list(job.observer, &card, "paused");
            let held = QueuedTransfer {
                request: job.request,
                observer: job.observer,
                activity: card,
            };
            let ghost rest = self@;
            assert(!has_job(rest.pending, id@));
            assert(before.pending_job(id@).activity.activity_id == id@);
            assert(!rest.active.contains_key(id@)) by {
                assert(before.pending[job_position(before.pending, id@) as int].activity.activity_id
                    == id@);
            }
            self.paused.insert(id.to_owned(), held);
            assert(self@.paused =~= rest.paused.insert(id@, held@));
            assert(self@.pending == rest.pending);
            assert forall|i: int| #![trigger self@.pending[i]] 0 <= i < self@.pending.len() implies
                self@.pending[i].activity.activity_id != id@ by {
                assert(rest.pending[i].activity.activity_id != id@);
            }
            return acceptance(calls, None);
        }
        assert(self@ =~= before);
        if self.can_stop(id) {
            self.disarm(id);
            self.set_action(id, PendingPauseAction::Pause);
            acceptance(calls, Some(TransferStop::Pause))
        } else {
            refusal()
        }
    }

    /// Puts a resting card back in line, or lets a stopping one go on.
    pub fn resume_activity(&mut self, activity_id: &str, now_ms: u64) -> (r: QueueOutcome)
        requires
            old(self)@.wf(),
        ensures
            (final(self)@, r@) == old(self)@.resuming(trimmed(activity_id@), now_ms),
            final(self)@.wf(),
    {
        let id = activity_id.trim();
        if id.is_empty() {
            return refusal();
        }
        let ghost before = self@;
        if let Some(job) = self.take_paused(id) {
            let mut card = job.activity;
            card.apply_requeued(now_ms);
            let calls = card_call_list(job.observer, &card, "resuming");
            let again = QueuedTransfer {
                request: job.request,
                observer: job.observer,
                activity: card,
            };
            self.enqueue(again);
            return acceptance(calls, None);
        }
        assert(self@ =~= before);
        if self.active.contains_key(id) {
            if let Some(action) = self.pending_pause_actions.get(id) {
                if *action != PendingPauseAction::Cancel {
                    let calls: Vec<ObserverCall> = Vec::new();
                    assert(call_views(calls@) =~= Seq::empty());
                    self.set_action(id, PendingPauseAction::Resume);
                    return acceptance(calls, None);
                }
            }
        }
        refusal()
    }

    fn enqueue(&mut self, job: QueuedTransfer)
        requires
            old(self)@.wf(),
            !old(self)@.knows(job@.activity.activity_id),
        ensures
            final(self)@ == (QueueView { pending: old(self)@.pending.push(job@), ..old(self)@ }),
            final(self)@.wf(),
    {
        let ghost before = self@;
        let ghost added = job@;
        self.pending.push(job);
        assert(self@.pending =~= before.pending.push(added));
        assert forall|i: int, j: int|
            #![trigger self@.pending[i], self@.pending[j]]
            0 <= i < j < self@.pending.len() implies self@.pending[i].activity.activity_id
            != self@.pending[j].activity.activity_id by {
            assert(self@.pending[i] == before.pending[i]);
        }
    }

    /// Removes a card from every list and hides it for good.
    pub fn discard_transfer_activity(&mut self, activity_id: &str, now_ms: u64) -> (r: QueueOutcome)
        requires
            old(self)@.wf(),
        ensures
            (final(self)@, r@) == old(self)@.discarding(trimmed(activity_id@), now_ms),
            final(self)@.wf(),
    {
        let id = activity_id.trim();
        if id.is_empty() {
            return refusal();
        }
        let ghost before = self@;
        proof {
            job_position_is_first(before.pending, id@);
            without_card_removes(before.history, id@);
        }
        let record = self.activity(id);
        let runs = self.active.contains_key(id);
        let armed = match self.active.get(id) {
            Some(active) => active.control,
            None => false,
        };
        let stopping = !armed && self.is_stopping(id);
        let known = self.history_position(id).is_some();
        proof {
            find_card_finds(before.history, id@);
        }
        let stored = self.take_stored(id);
        let request = self.forget(id);
        if armed || stopping {
            self.disarm(id);
            self.set_action(id, PendingPauseAction::Cancel);
        }
        let ghost expected = before.discarding(id@, now_ms);
        assert(self@ == expected.0);
        let unwanted = if runs {
            None
        } else {
            request
        };
        discard_outcome(stored, armed, stopping || known, unwanted, record, now_ms)
    }

    fn take_stored(&mut self, id: &str) -> (r: Option<QueuedTransfer>)
        requires
            old(self)@.wf(),
        ensures
            final(self)@ == old(self)@.not_pending(id@).not_paused(id@),
            final(self)@.wf(),
            job_option(r) == (if has_job(old(self)@.pending, id@) {
                Some(old(self)@.pending_job(id@))
            } else if old(self)@.paused.contains_key(id@) {
                Some(old(self)@.paused[id@])
            } else {
                None
            }),
    {
        let pending = self.take_pending(id);
        let paused = self.take_paused(id);
        match pending {
            Some(job) => Some(job),
            None => paused,
        }
    }

    fn forget(&mut self, id: &str) -> (r: Option<FfiTransferRequest>)
        requires
            old(self)@.wf(),
        ensures
            final(self)@ == (QueueView {
                discarded: old(self)@.discarded.insert(id@),
                history: without_card(old(self)@.history, id@),
                requests: old(self)@.requests.remove(id@),
                ..old(self)@
            }),
            final(self)@.wf(),
            (match r {
                Some(request) => Some(request@),
                None => None,
            }) == (if old(self)@.requests.contains_key(id@) {
                Some(old(self)@.requests[id@])
            } else {
                None
            }),
    {
        self.conceal(id);
        let ghost before = self@;
        let r = self.requests.remove(id);
        assert(self@.requests =~= before.requests.remove(id@));
        r
    }

    fn conceal(&mut self, id: &str)
        requires
            old(self)@.wf(),
        ensures
            final(self)@ == (QueueView {
                discarded: old(self)@.discarded.insert(id@),
                history: without_card(old(self)@.history, id@),
                ..old(self)@
            }),
            final(self)@.wf(),
    {
        let ghost before = self@;
        let ghost cards = self@.history;
        proof {
            without_card_removes(cards, id@);
        }
        let mut kept: Vec<FfiTransferActivityRecord> = Vec::new();
        let mut i: usize = 0;
        assert(cards.take(0) =~= Seq::empty());
        assert(card_views(kept@) =~= without_card(cards.take(0), id@));
        while i < self.history.len()
            invariant
                i <= self.history@.len(),
                cards == card_views(self.history@),
                card_views(kept@) == without_card(cards.take(i as int), id@),
            decreases self.history@.len() - i,
        {
            let ghost next = cards.take(i + 1);
            assert(next.drop_last() =~= cards.take(i as int));
            assert(next.last() == self.history@[i as int]@);
            let ghost so_far = card_views(kept@);
            if !same_text(self.history[i].activity_id.as_str(), id) {
                kept.push(self.history[i].clone());
                assert(card_views(kept@) =~= so_far.push(self.history@[i as int]@));
            }
            i += 1;
        }
        assert(cards.take(i as int) =~= cards);
        self.history = kept;
        self.discarded.insert(id.to_owned(), ());
        assert(self@.discarded =~= before.discarded.insert(id@));
        assert forall|i: int| 0 <= i < self@.history.len() implies !self@.discarded.contains(
            (#[trigger] self@.history[i]).activity_id,
        ) by {
            assert(cards.contains(without_card(cards, id@)[i]));
            let k = choose|k: int| 0 <= k < cards.len() && cards[k] == without_card(cards, id@)[i];
            assert(!before.discarded.contains(before.history[k].activity_id));
            if self@.history[i].activity_id == id@ {
                assert(has_card(self@.history, id@));
            }
        }
    }

    /// Settles the card of a task that has ended. `paused_job` is what the task
    /// leaves behind where the transfer is to go on later.
    pub fn finish_transfer_activity(
        &mut self,
        activity_id: &str,
        paused_job: Option<QueuedTransfer>,
        now_ms: u64,
    ) -> (r: Option<FinishedActivityNotice>)
        requires
            old(self)@.wf(),
            paused_job matches Some(job) ==> {
                &&& job@.activity.activity_id == activity_id@
                &&& !has_job(old(self)@.pending, activity_id@)
                &&& !old(self)@.paused.contains_key(activity_id@)
            },
        ensures
            ({
                let expected = old(self)@.finishing(
                    activity_id@,
                    match paused_job {
                        Some(job) => Some(job@),
                        None => None,
                    },
                    now_ms,
                );
                &&& final(self)@ == expected.0
                &&& (match r {
                    Some(notice) => Some(notice@),
                    None => None,
                }) == expected.1
            }),
            final(self)@.wf(),
    {
        let ghost before = self@;
        let ended = self.active.remove(activity_id);
        assert(self@.active =~= before.active.remove(activity_id@));
        let action = self.pending_pause_actions.remove(activity_id);
        assert(self@.actions =~= before.actions.remove(activity_id@));
        assert(self@.active.dom() =~= before.active.dom().remove(activity_id@));
        assert(self@.wf());
        let job = match paused_job {
            Some(job) => job,
            None => return None,
        };
        let request = job.request;
        let observer = job.observer;
        let mut card = job.activity;
        match action {
            Some(PendingPauseAction::Cancel) => {
                card.apply_canceled(now_ms);
                self.push_history(card.clone());
                Some(
                    FinishedActivityNotice {
                        observer,
                        activity: card,
                        status: "canceled".to_owned(),
                        cleanup_request: Some(request),
                    },
                )
            },
            Some(PendingPauseAction::Resume) => {
                card.apply_requeued(now_ms);
                self.enqueue(QueuedTransfer { request, observer, activity: card.clone() });
                Some(
                    FinishedActivityNotice {
                        observer,
                        activity: card,
                        status: "resuming".to_owned(),
                        cleanup_request: None,
                    },
                )
            },
            Some(PendingPauseAction::Pause) | None => {
                let ghost rest = self@;
                let held = QueuedTransfer { request, observer, activity: card.clone() };
                self.paused.insert(activity_id.to_owned(), held);
                assert(self@.paused =~= rest.paused.insert(activity_id@, held@));
                assert forall|i: int|
                    #![trigger self@.pending[i]]
                    0 <= i < self@.pending.len() implies self@.pending[i].activity.activity_id
                    != activity_id@ by {
                    assert(before.pending[i].activity.activity_id != activity_id@);
                }
                Some(
                    FinishedActivityNotice {
                        observer,
                        activity: card,
                        status: "paused".to_owned(),
                        cleanup_request: None,
                    },
                )
            },
        }
    }
}

impl QueueView {
    /// The queue in which a new card waits.
    pub open spec fn submitting(self, job: JobView) -> QueueView {
        QueueView {
            requests: self.requests.insert(job.request.activity_id, job.request),
            pending: self.pending.push(job),
            ..self
        }
    }

    /// What starting the next card does, where it may start: the queue, the
    /// started job and the number of the next attempt.
    pub open spec fn starting(self, concurrent: bool, next_attempt: u64, now_ms: u64) -> Option<
        (QueueView, JobView, u64),
    > {
        if self.pending.len() == 0 || !self.may_start(
            parallel_limit(concurrent, self.pending[0].request.limits) as usize,
        ) {
            None
        } else {
            let job = self.pending[0];
            let fresh = is_blank(job.activity.attempt_id);
            let card = if fresh {
                ActivityView {
                    attempt_id: attempt_id_text(next_attempt),
                    updated_at_ms: now_ms,
                    ..job.activity
                }
            } else {
                job.activity
            };
            Some(
                (
                    QueueView {
                        pending: self.pending.skip(1),
                        active: self.active.insert(
                            card.activity_id,
                            ActiveView {
                                control: true,
                                limit: parallel_limit(concurrent, job.request.limits) as usize,
                                activity: card,
                            },
                        ),
                        ..self
                    },
                    JobView { activity: card, ..job },
                    if fresh {
                        next_attempt.wrapping_add(1)
                    } else {
                        next_attempt
                    },
                ),
            )
        }
    }

    /// What starting every card that may start does.
    pub open spec fn draining(self, concurrent: bool, next_attempt: u64, now_ms: u64) -> (
        QueueView,
        Seq<JobView>,
        u64,
    )
        decreases self.pending.len(),
    {
        match self.starting(concurrent, next_attempt, now_ms) {
            None => (self, Seq::empty(), next_attempt),
            Some((next, job, number)) => if next.pending.len() < self.pending.len() {
                let rest = next.draining(concurrent, number, now_ms);
                (rest.0, seq![job] + rest.1, rest.2)
            } else {
                (next, seq![job], number)
            },
        }
    }

    /// The queue with every running task that can stop told to cancel, and
    /// nothing waiting or resting.
    pub open spec fn halted(self) -> QueueView {
        QueueView {
            pending: Seq::empty(),
            paused: Map::empty(),
            active: self.active.map_values(
                |a: ActiveView|
                    if a.control && !a.activity.is_finalizing() {
                        ActiveView { control: false, ..a }
                    } else {
                        a
                    },
            ),
            actions: self.actions.union_prefer_right(
                Map::new(
                    |id: Seq<char>| self.can_stop(id),
                    |id: Seq<char>| PendingPauseAction::Cancel,
                ),
            ),
            ..self
        }
    }

    /// The queue that remembers the canceled cards of `jobs`, one after the
    /// other.
    pub open spec fn remembering_canceled(self, jobs: Seq<JobView>, now_ms: u64) -> QueueView
        decreases jobs.len(),
    {
        if jobs.len() == 0 {
            self
        } else {
            self.remembering_canceled(jobs.drop_last(), now_ms).remembering(
                jobs.last().activity.canceled(now_ms),
            )
        }
    }

    /// Where the queue keeps a card: ended ones come first, then running,
    /// waiting and resting ones.
    pub open spec fn section(self, id: Seq<char>) -> nat {
        if has_card(self.history, id) {
            0
        } else if self.active.contains_key(id) {
            1
        } else if has_job(self.pending, id) {
            2
        } else {
            3
        }
    }

    /// Whether card `a` may stand before card `b` where both changed at the same
    /// time: by where the queue keeps them, and among ended or waiting ones by
    /// their order there. Running and resting cards have no order of their own.
    pub open spec fn may_precede(self, a: Seq<char>, b: Seq<char>) -> bool {
        ||| self.section(a) < self.section(b)
        ||| self.section(a) == self.section(b) && (self.section(a) == 0 ==> cards_in_order(
            self.history,
            a,
            b,
        )) && (self.section(a) == 2 ==> jobs_in_order(self.pending, a, b))
    }

    /// Whether a list shows exactly the cards of the queue, the latest first.
    pub open spec fn is_listed_as(self, cards: Seq<ActivityView>) -> bool {
        &&& shows_some(self, cards)
        &&& forall|id: Seq<char>| #[trigger]
            self.shown_card(id) is Some ==> has_card(cards, id)
    }
}

/// Whether cards stand in the order of their last change, the latest first.
pub open spec fn newest_first(cards: Seq<ActivityView>) -> bool {
    forall|i: int, j: int|
        #![trigger cards[i], cards[j]]
        0 <= i < j < cards.len() ==> cards[i].updated_at_ms >= cards[j].updated_at_ms
}

/// Whether card `a` stands before card `b` among `cards`.
pub open spec fn cards_in_order(cards: Seq<ActivityView>, a: Seq<char>, b: Seq<char>) -> bool {
    forall|i: int, j: int|
        #![trigger cards[i], cards[j]]
        0 <= i < cards.len() && 0 <= j < cards.len() && cards[i].activity_id == a
            && cards[j].activity_id == b ==> i < j
}

/// Whether the job of card `a` stands before that of card `b` among `jobs`.
pub open spec fn jobs_in_order(jobs: Seq<JobView>, a: Seq<char>, b: Seq<char>) -> bool {
    forall|i: int, j: int|
        #![trigger jobs[i], jobs[j]]
        0 <= i < jobs.len() && 0 <= j < jobs.len() && jobs[i].activity.activity_id == a
            && jobs[j].activity.activity_id == b ==> i < j
}

/// Whether cards that changed at the same time stand in the order of the queue.
pub open spec fn ties_keep_order(q: QueueView, cards: Seq<ActivityView>) -> bool {
    forall|i: int, j: int|
        #![trigger cards[i], cards[j]]
        0 <= i < j < cards.len() && cards[i].updated_at_ms == cards[j].updated_at_ms
            ==> q.may_precede(cards[i].activity_id, cards[j].activity_id)
}

/// Whether every listed card is shown by the queue, each one once and the
/// latest first.
pub open spec fn shows_some(q: QueueView, cards: Seq<ActivityView>) -> bool {
    &&& newest_first(cards)
    &&& ties_keep_order(q, cards)
    &&& cards_differ(cards)
    &&& forall|i: int|
        0 <= i < cards.len() ==> q.shown_card((#[trigger] cards[i]).activity_id) == Some(cards[i])
}

/// The calls for a list of jobs that the user canceled.
pub open spec fn all_cancel_calls(jobs: Seq<JobView>, now_ms: u64) -> Seq<ObserverCallView>
    decreases jobs.len(),
{
    if jobs.len() == 0 {
        Seq::empty()
    } else {
        all_cancel_calls(jobs.drop_last(), now_ms) + queued_cancel_calls(jobs.last(), now_ms)
    }
}

proof fn listing_grows(q: QueueView, cards: Seq<ActivityView>, at: int, card: ActivityView)
    requires
        shows_some(q, cards),
        0 <= at <= cards.len(),
        forall|i: int| 0 <= i < at ==> (#[trigger] cards[i]).updated_at_ms >= card.updated_at_ms,
        forall|i: int|
            at <= i < cards.len() ==> (#[trigger] cards[i]).updated_at_ms < card.updated_at_ms,
        forall|i: int|
            0 <= i < cards.len() ==> q.may_precede(
                (#[trigger] cards[i]).activity_id,
                card.activity_id,
            ),
        !has_card(cards, card.activity_id),
        q.shown_card(card.activity_id) == Some(card),
    ensures
        shows_some(q, cards.insert(at, card)),
        forall|id: Seq<char>| #[trigger]
            has_card(cards.insert(at, card), id) <==> has_card(cards, id) || id == card.activity_id,
{
    let after = cards.insert(at, card);
    assert forall|i: int| 0 <= i < after.len() implies #[trigger] after[i] == (if i < at {
        cards[i]
    } else if i == at {
        card
    } else {
        cards[i - 1]
    }) by {}
    assert forall|i: int, j: int|
        #![trigger after[i], after[j]]
        0 <= i < j < after.len() implies after[i].updated_at_ms >= after[j].updated_at_ms
        && after[i].activity_id != after[j].activity_id && (after[i].updated_at_ms
        == after[j].updated_at_ms ==> q.may_precede(after[i].activity_id, after[j].activity_id)) by {
        let a = if i < at {
            i
        } else {
            i - 1
        };
        let b = if j < at {
            j
        } else {
            j - 1
        };
        if i != at && j != at {
            assert(cards[a].activity_id != cards[b].activity_id);
        } else if i == at {
            assert(cards[b].activity_id != card.activity_id);
        } else {
            assert(cards[a].activity_id != card.activity_id);
        }
    }
    assert forall|id: Seq<char>| #[trigger]
        has_card(after, id) <==> has_card(cards, id) || id == card.activity_id by {
        if has_card(cards, id) {
            let i = choose|i: int| 0 <= i < cards.len() && cards[i].activity_id == id;
            if i < at {
                assert(after[i].activity_id == id);
            } else {
                assert(after[i + 1].activity_id == id);
            }
        }
        if id == card.activity_id {
            assert(after[at].activity_id == id);
        }
        if has_card(after, id) {
            let i = choose|i: int| 0 <= i < after.len() && after[i].activity_id == id;
            if i < at {
                assert(cards[i].activity_id == id);
            } else if i > at {
                assert(cards[i - 1].activity_id == id);
            }
        }
    }
}

/// Adds a shown card to a listing, behind every card that changed no earlier.
fn list_card(
    cards: &mut Vec<FfiTransferActivityRecord>,
    card: FfiTransferActivityRecord,
    q: Ghost<QueueView>,
)
    requires
        shows_some(q@, card_views(old(cards)@)),
        !has_card(card_views(old(cards)@), card@.activity_id),
        q@.shown_card(card@.activity_id) == Some(card@),
        forall|id: Seq<char>| #[trigger]
            has_card(card_views(old(cards)@), id) ==> q@.may_precede(id, card@.activity_id),
    ensures
        shows_some(q@, card_views(final(cards)@)),
        forall|id: Seq<char>| #[trigger]
            has_card(card_views(final(cards)@), id) <==> has_card(card_views(old(cards)@), id) || id
                == card@.activity_id,
{
    let ghost before = card_views(cards@);
    let mut at: usize = 0;
    while at < cards.len() && cards[at].updated_at_ms >= card.updated_at_ms
        invariant
            at <= cards@.len(),
            before == card_views(cards@),
            forall|i: int| 0 <= i < at ==> (#[trigger] before[i]).updated_at_ms
                >= card.updated_at_ms,
        decreases cards@.len() - at,
    {
        assert(before[at as int] == cards@[at as int]@);
        at += 1;
    }
    proof {
        if at < cards@.len() {
            assert(before[at as int] == cards@[at as int]@);
        }
        assert forall|i: int| at <= i < before.len() implies (#[trigger] before[i]).updated_at_ms
            < card.updated_at_ms by {
            if i > at {
                assert(before[at as int].updated_at_ms >= before[i].updated_at_ms);
            }
        }
        assert forall|i: int| 0 <= i < before.len() implies q@.may_precede(
            (#[trigger] before[i]).activity_id,
            card@.activity_id,
        ) by {
            assert(has_card(before, before[i].activity_id));
        }
        listing_grows(q@, before, at as int, card@);
    }
    let ghost added = card@;
    cards.insert(at, card);
    assert(card_views(cards@) =~= before.insert(at as int, added));
}

impl QueueView {
    /// The queue whose first waiting card runs now, as `card`.
    spec fn running_next(self, limit: usize, card: ActivityView) -> QueueView {
        QueueView {
            pending: self.pending.skip(1),
            active: self.active.insert(
                card.activity_id,
                ActiveView { control: true, limit, activity: card },
            ),
            ..self
        }
    }
}

#[verifier::spinoff_prover]
proof fn started_queue_is_wf(before: QueueView, limit: usize, card: ActivityView)
    requires
        before.wf(),
        before.pending.len() > 0,
        card.activity_id == before.pending[0].activity.activity_id,
        before.may_start(limit),
        limit >= 1,
    ensures
        before.running_next(limit, card).wf(),
{
    let first = card.activity_id;
    let now = before.running_next(limit, card);
    assert(!before.active.contains_key(first) && !before.paused.contains_key(first));
    assert(now.active.dom() =~= before.active.dom().insert(first));
    assert forall|i: int|
        #![trigger now.pending[i]]
        0 <= i < now.pending.len() implies now.pending[i] == before.pending[i + 1]
        && now.pending[i].activity.activity_id != first by {
        assert(before.pending[0].activity.activity_id
            != before.pending[i + 1].activity.activity_id);
    }
    assert forall|i: int, j: int|
        #![trigger now.pending[i], now.pending[j]]
        0 <= i < j < now.pending.len() implies now.pending[i].activity.activity_id
        != now.pending[j].activity.activity_id by {
        assert(before.pending[i + 1].activity.activity_id
            != before.pending[j + 1].activity.activity_id);
    }
}

/// Whether `jobs` are the resting ones, each of them once.
pub open spec fn lists_resting(paused: Map<Seq<char>, JobView>, jobs: Seq<JobView>) -> bool {
    &&& jobs_differ(jobs)
    &&& forall|i: int|
        #![trigger jobs[i]]
        0 <= i < jobs.len() ==> paused.contains_key(jobs[i].activity.activity_id)
            && paused[jobs[i].activity.activity_id] == jobs[i]
    &&& forall|id: Seq<char>| #[trigger] paused.contains_key(id) ==> jobs.contains(paused[id])
}

impl TransferQueueState {
    /// The jobs that rest, in the order in which they are kept.
    pub closed spec fn resting_jobs(&self) -> Seq<JobView> {
        self.paused.keys().map_values(|id: Seq<char>| self.paused@[id]@)
    }

    /// Every card that the queue shows, the latest changed first.
    #[verifier::rlimit(40)]
    pub fn activities(&self) -> (r: Vec<FfiTransferActivityRecord>)
        requires
            self@.wf(),
        ensures
            self@.is_listed_as(card_views(r@)),
    {
        let ghost q = self@;
        let mut cards: Vec<FfiTransferActivityRecord> = Vec::new();
        let mut i: usize = 0;
        while i < self.history.len()
            invariant
                q == self@,
                q.wf(),
                i <= self.history@.len(),
                shows_some(q, card_views(cards@)),
                forall|id: Seq<char>| #[trigger]
                    has_card(card_views(cards@), id) <==> has_card(q.history.take(i as int), id),
            decreases self.history@.len() - i,
        {
            let ghost card = q.history[i as int];
            let ghost seen = q.history.take(i as int);
            let ghost next = q.history.take(i + 1);
            proof {
                assert(card == self.history@[i as int]@);
                find_card_finds(q.history, card.activity_id);
                let found = find_card(q.history, card.activity_id)->0;
                let k = choose|k: int| 0 <= k < q.history.len() && q.history[k] == found;
                if k < i {
                    assert(q.history[k].activity_id != q.history[i as int].activity_id);
                } else if i < k {
                    assert(q.history[i as int].activity_id != q.history[k].activity_id);
                }
                assert(found == card);
                if has_card(seen, card.activity_id) {
                    let m = choose|m: int|
                        0 <= m < seen.len() && seen[m].activity_id == card.activity_id;
                    assert(q.history[m].activity_id != q.history[i as int].activity_id);
                }
                assert forall|id: Seq<char>| #[trigger]
                    has_card(next, id) <==> has_card(seen, id) || id == card.activity_id by {
                    if has_card(seen, id) {
                        let m = choose|m: int| 0 <= m < seen.len() && seen[m].activity_id == id;
                        assert(next[m].activity_id == id);
                    }
                    if id == card.activity_id {
                        assert(next[i as int].activity_id == id);
                    }
                    if has_card(next, id) {
                        let m = choose|m: int| 0 <= m < next.len() && next[m].activity_id == id;
                        if m < i {
                            assert(seen[m].activity_id == id);
                        }
                    }
                }
                assert(q.history[i as int].activity_id == card.activity_id);
                assert forall|id: Seq<char>| #[trigger]
                    has_card(card_views(cards@), id) implies q.may_precede(
                    id,
                    card.activity_id,
                ) by {
                    assert(has_card(seen, id));
                    let m = choose|m: int| 0 <= m < seen.len() && seen[m].activity_id == id;
                    assert(q.history[m].activity_id == id);
                    assert forall|a: int, b: int|
                        #![trigger q.history[a], q.history[b]]
                        0 <= a < q.history.len() && 0 <= b < q.history.len()
                            && q.history[a].activity_id == id && q.history[b].activity_id
                            == card.activity_id implies a < b by {
                        assert(a == m) by {
                            if a < m {
                                assert(q.history[a].activity_id != q.history[m].activity_id);
                            } else if m < a {
                                assert(q.history[m].activity_id != q.history[a].activity_id);
                            }
                        }
                        if b < i {
                            assert(q.history[b].activity_id != q.history[i as int].activity_id);
                        }
                    }
                }
            }
            list_card(&mut cards, self.history[i].clone(), Ghost(q));
            i += 1;
        }
        assert(q.history.take(i as int) =~= q.history);
        self.list_active(&mut cards);
        self.list_pending(&mut cards);
        self.list_paused(&mut cards);
        proof {
            assert forall|id: Seq<char>| #[trigger] q.shown_card(id) is Some implies has_card(
                card_views(cards@),
                id,
            ) by {
                job_position_is_first(q.pending, id);
            }
        }
        cards
    }

    #[verifier::rlimit(40)]
    fn list_active(&self, cards: &mut Vec<FfiTransferActivityRecord>)
        requires
            self@.wf(),
            shows_some(self@, card_views(old(cards)@)),
            forall|id: Seq<char>| #[trigger]
                has_card(card_views(old(cards)@), id) <==> has_card(self@.history, id),
        ensures
            shows_some(self@, card_views(final(cards)@)),
            forall|id: Seq<char>| #[trigger]
                has_card(card_views(final(cards)@), id) <==> has_card(self@.history, id) || (
                !self@.discarded.contains(id) && self@.active.contains_key(id)),
    {
        let ghost q = self@;
        let count: usize = self.active.len();
        let ghost keys = self.active.keys();
        let mut i: usize = 0;
        assert forall|x: Seq<char>| #[trigger] keys.contains(x) implies q.active.contains_key(x) by {
            assert(self.active@.contains_key(x) == q.active.contains_key(x));
        }
        while i < count
            invariant
                q == self@,
                q.wf(),
                i <= count == keys.len(),
                keys == self.active.keys(),
                keys.no_duplicates(),
                forall|x: Seq<char>| #[trigger] keys.contains(x) ==> q.active.contains_key(x),
                shows_some(q, card_views(cards@)),
                forall|id: Seq<char>| #[trigger]
                    has_card(card_views(cards@), id) <==> has_card(q.history, id) || (
                    !q.discarded.contains(id) && keys.take(i as int).contains(id)),
            decreases count - i,
        {
            let ghost id = keys[i as int];
            let active = self.active.value(i);
            proof {
                assert(q.active.contains_key(id));
                assert(q.active[id] == active@);
                find_card_finds(q.history, id);
                grow_keys(keys, i as int);
                assert forall|x: Seq<char>| #[trigger]
                    has_card(card_views(cards@), x) && !has_card(q.history, id) implies q.may_precede(
                    x,
                    id,
                ) by {
                    if !has_card(q.history, x) {
                        assert(keys.take(i as int).contains(x));
                        let m = choose|m: int| 0 <= m < i && keys.take(i as int)[m] == x;
                        assert(keys[m] == x);
                        assert(keys.contains(x));
                        assert(q.active.contains_key(x));
                    }
                }
            }
            if !self.discarded.contains_key(active.activity.activity_id.as_str())
                && self.history_position(active.activity.activity_id.as_str()).is_none() {
                list_card(cards, active.activity.clone(), Ghost(q));
            }
            i += 1;
        }
        proof {
            assert(keys.take(i as int) =~= keys);
            assert forall|id: Seq<char>| keys.contains(id) <==> #[trigger] q.active.contains_key(
                id,
            ) by {
                assert(self.active@.contains_key(id) == q.active.contains_key(id));
            }
        }
    }

    #[verifier::rlimit(40)]
    fn list_pending(&self, cards: &mut Vec<FfiTransferActivityRecord>)
        requires
            self@.wf(),
            shows_some(self@, card_views(old(cards)@)),
            forall|id: Seq<char>| #[trigger]
                has_card(card_views(old(cards)@), id) <==> has_card(self@.history, id) || (
                !self@.discarded.contains(id) && self@.active.contains_key(id)),
        ensures
            shows_some(self@, card_views(final(cards)@)),
            forall|id: Seq<char>| #[trigger]
                has_card(card_views(final(cards)@), id) <==> has_card(self@.history, id) || (
                !self@.discarded.contains(id) && (self@.active.contains_key(id) || has_job(
                    self@.pending,
                    id,
                ))),
    {
        let ghost q = self@;
        let mut i: usize = 0;
        while i < self.pending.len()
            invariant
                q == self@,
                q.wf(),
                i <= self.pending@.len(),
                shows_some(q, card_views(cards@)),
                forall|id: Seq<char>| #[trigger]
                    has_card(card_views(cards@), id) <==> has_card(q.history, id) || (
                    !q.discarded.contains(id) && (q.active.contains_key(id) || has_job(
                        q.pending.take(i as int),
                        id,
                    ))),
            decreases self.pending@.len() - i,
        {
            let ghost job = q.pending[i as int];
            let ghost id = job.activity.activity_id;
            let ghost seen = q.pending.take(i as int);
            let ghost next = q.pending.take(i + 1);
            proof {
                assert(job == self.pending@[i as int]@);
                job_position_is_first(q.pending, id);
                let at = job_position(q.pending, id) as int;
                if at < i {
                    assert(q.pending[at].activity.activity_id != q.pending[i as int].activity.activity_id);
                } else if i < at {
                    assert(q.pending[i as int].activity.activity_id != id);
                }
                find_card_finds(q.history, id);
                if has_job(seen, id) {
                    let m = choose|m: int| 0 <= m < seen.len() && seen[m].activity.activity_id == id;
                    assert(q.pending[m].activity.activity_id != q.pending[i as int].activity.activity_id);
                }
                assert forall|x: Seq<char>| #[trigger]
                    has_job(next, x) <==> has_job(seen, x) || x == id by {
                    if has_job(seen, x) {
                        let m = choose|m: int|
                            0 <= m < seen.len() && seen[m].activity.activity_id == x;
                        assert(next[m].activity.activity_id == x);
                    }
                    if x == id {
                        assert(next[i as int].activity.activity_id == x);
                    }
                    if has_job(next, x) {
                        let m = choose|m: int|
                            0 <= m < next.len() && next[m].activity.activity_id == x;
                        if m < i {
                            assert(seen[m].activity.activity_id == x);
                        }
                    }
                }
                assert(has_job(q.pending, id));
                assert forall|x: Seq<char>| #[trigger]
                    has_card(card_views(cards@), x) && !has_card(q.history, id) implies q.may_precede(
                    x,
                    id,
                ) by {
                    if !has_card(q.history, x) && !q.active.contains_key(x) {
                        assert(has_job(seen, x));
                        let m = choose|m: int|
                            0 <= m < seen.len() && seen[m].activity.activity_id == x;
                        assert(q.pending[m].activity.activity_id == x);
                        assert forall|a: int, b: int|
                            #![trigger q.pending[a], q.pending[b]]
                            0 <= a < q.pending.len() && 0 <= b < q.pending.len()
                                && q.pending[a].activity.activity_id == x
                                && q.pending[b].activity.activity_id == id implies a < b by {
                            assert(a == m) by {
                                if a < m {
                                    assert(q.pending[a].activity.activity_id
                                        != q.pending[m].activity.activity_id);
                                } else if m < a {
                                    assert(q.pending[m].activity.activity_id
                                        != q.pending[a].activity.activity_id);
                                }
                            }
                            if b < i {
                                assert(q.pending[b].activity.activity_id
                                    != q.pending[i as int].activity.activity_id);
                            }
                        }
                    }
                }
            }
            if !self.discarded.contains_key(self.pending[i].activity.activity_id.as_str())
                && self.history_position(self.pending[i].activity.activity_id.as_str()).is_none() {
                list_card(cards, self.pending[i].activity.clone(), Ghost(q));
            }
            i += 1;
        }
        assert(q.pending.take(i as int) =~= q.pending);
    }

    #[verifier::rlimit(40)]
    fn list_paused(&self, cards: &mut Vec<FfiTransferActivityRecord>)
        requires
            self@.wf(),
            shows_some(self@, card_views(old(cards)@)),
            forall|id: Seq<char>| #[trigger]
                has_card(card_views(old(cards)@), id) <==> has_card(self@.history, id) || (
                !self@.discarded.contains(id) && (self@.active.contains_key(id) || has_job(
                    self@.pending,
                    id,
                ))),
        ensures
            shows_some(self@, card_views(final(cards)@)),
            forall|id: Seq<char>| #[trigger]
                has_card(card_views(final(cards)@), id) <==> has_card(self@.history, id) || (
                !self@.discarded.contains(id) && self@.knows(id)),
    {
        let ghost q = self@;
        let count: usize = self.paused.len();
        let ghost keys = self.paused.keys();
        let mut i: usize = 0;
        while i < count
            invariant
                q == self@,
                q.wf(),
                i <= count == keys.len(),
                keys == self.paused.keys(),
                keys.no_duplicates(),
                shows_some(q, card_views(cards@)),
                forall|id: Seq<char>| #[trigger]
                    has_card(card_views(cards@), id) <==> has_card(q.history, id) || (
                    !q.discarded.contains(id) && (q.active.contains_key(id) || has_job(
                        q.pending,
                        id,
                    ) || keys.take(i as int).contains(id))),
            decreases count - i,
        {
            let ghost id = keys[i as int];
            let job = self.paused.value(i);
            proof {
                assert(q.paused.contains_key(id));
                assert(q.paused[id] == job@);
                find_card_finds(q.history, id);
                job_position_is_first(q.pending, id);
                grow_keys(keys, i as int);
                if has_job(q.pending, id) {
                    let m = choose|m: int|
                        0 <= m < q.pending.len() && q.pending[m].activity.activity_id == id;
                    assert(!q.paused.contains_key(q.pending[m].activity.activity_id));
                }
            }
            if !self.discarded.contains_key(job.activity.activity_id.as_str())
                && self.history_position(job.activity.activity_id.as_str()).is_none() {
                list_card(cards, job.activity.clone(), Ghost(q));
            }
            i += 1;
        }
        proof {
            assert(keys.take(i as int) =~= keys);
            assert forall|id: Seq<char>| keys.contains(id) <==> #[trigger] q.paused.contains_key(
                id,
            ) by {
                assert(self.paused@.contains_key(id) == q.paused.contains_key(id));
            }
        }
    }

    /// Lets a new card wait for its turn; refused where the card is known.
    pub fn submit(
        &mut self,
        request: FfiTransferRequest,
        observer: u64,
        activity: FfiTransferActivityRecord,
    ) -> (r: Result<(), EnvoixError>)
        requires
            old(self)@.wf(),
            activity@.activity_id == request@.activity_id,
        ensures
            final(self)@.wf(),
            match r {
                Ok(_) => {
                    &&& !old(self)@.knows(request@.activity_id)
                    &&& final(self)@ == old(self)@.submitting(
                        JobView { request: request@, observer, activity: activity@ },
                    )
                },
                Err(error) => {
                    &&& old(self)@.knows(request@.activity_id)
                    &&& final(self)@ == old(self)@
                    &&& error.reason_view() == "activity_id already exists: "@
                        + request@.activity_id
                },
            },
    {
        if self.contains_activity(request.activity_id.as_str()) {
            return Err(
                op_err(joined("activity_id already exists: ", request.activity_id.as_str())),
            );
        }
        let ghost before = self@;
        self.requests.insert(request.activity_id.clone(), request.clone());
        assert(self@.requests =~= before.requests.insert(request@.activity_id, request@));
        self.enqueue(QueuedTransfer { request, observer, activity });
        Ok(())
    }

    /// Starts the next card, where it may start.
    #[verifier::spinoff_prover]
    pub fn start_next(
        &mut self,
        settings: &EnvoixRuntimeSettings,
        next_attempt: &mut u64,
        now_ms: u64,
    ) -> (r: Option<QueuedTransfer>)
        requires
            old(self)@.wf(),
        ensures
            final(self)@.wf(),
            match old(self)@.starting(settings@.concurrent_transfers, *old(next_attempt), now_ms) {
                None => r is None && final(self)@ == old(self)@ && *final(next_attempt) == *old(
                    next_attempt,
                ),
                Some((queue, job, number)) => {
                    &&& r matches Some(started) && started@ == job
                    &&& final(self)@ == queue
                    &&& *final(next_attempt) == number
                },
            },
    {
        if self.pending.len() == 0 {
            return None;
        }
        let ghost before = self@;
        assert(before.pending[0] == self.pending@[0]@);
        let limit: usize = effective_parallel_limit(settings, &self.pending[0].request.limits);
        if !self.can_start(limit) {
            return None;
        }
        let job = self.pending.remove(0);
        assert(self@.pending =~= before.pending.skip(1));
        let mut card = job.activity;
        if card.attempt_id.as_str().trim().is_empty() {
            card.attempt_id = next_attempt_id(next_attempt);
            card.updated_at_ms = now_ms;
        }
        let id = card.activity_id.clone();
        self.active.insert(
            id,
            ActiveTransfer { control: true, limit, activity: card.clone() },
        );
        let started = QueuedTransfer {
            request: job.request,
            observer: job.observer,
            activity: card,
        };
        proof {
            assert(self@.active =~= before.active.insert(
                card@.activity_id,
                ActiveView { control: true, limit, activity: card@ },
            ));
            assert(self@ == before.running_next(limit, card@));
            started_queue_is_wf(before, limit, card@);
        }
        Some(started)
    }

    /// Starts every card that may start, in the order of their turn.
    pub fn drain_transfer_queue(
        &mut self,
        settings: &EnvoixRuntimeSettings,
        next_attempt: &mut u64,
        now_ms: u64,
    ) -> (r: Vec<QueuedTransfer>)
        requires
            old(self)@.wf(),
        ensures
            final(self)@.wf(),
            (final(self)@, job_views(r@), *final(next_attempt)) == old(self)@.draining(
                settings@.concurrent_transfers,
                *old(next_attempt),
                now_ms,
            ),
    {
        let ghost all = self@.draining(settings@.concurrent_transfers, *next_attempt, now_ms);
        let mut started: Vec<QueuedTransfer> = Vec::new();
        assert(job_views(started@) + all.1 =~= all.1);
        loop
            invariant
                self@.wf(),
                ({
                    let rest = self@.draining(
                        settings@.concurrent_transfers,
                        *next_attempt,
                        now_ms,
                    );
                    all == (rest.0, job_views(started@) + rest.1, rest.2)
                }),
            ensures
                self@.wf(),
                all == (self@, job_views(started@), *next_attempt),
            decreases self@.pending.len(),
        {
            let ghost before = job_views(started@);
            let ghost queue = self@;
            match self.start_next(settings, next_attempt, now_ms) {
                Some(job) => {
                    let ghost rest = self@.draining(
                        settings@.concurrent_transfers,
                        *next_attempt,
                        now_ms,
                    );
                    let ghost added = job@;
                    started.push(job);
                    assert(job_views(started@) =~= before.push(added));
                    assert(before + (seq![added] + rest.1) =~= job_views(started@) + rest.1);
                },
                None => {
                    assert(job_views(started@) + Seq::<JobView>::empty() =~= job_views(started@));
                    break ;
                },
            }
        }
        started
    }

    /// Forgets every ended card. Returns how many there were, and the partial
    /// files that nobody wants any more.
    pub fn clear_transfer_history(&mut self) -> (r: (u32, Vec<CleanupJob>))
        requires
            old(self)@.wf(),
        ensures
            final(self)@.wf(),
            r.0 == old(self)@.history.len(),
            final(self)@ == (QueueView {
                history: Seq::empty(),
                requests: old(self)@.requests.remove_keys(
                    Set::new(|id: Seq<char>| has_card(old(self)@.history, id)),
                ),
                ..old(self)@
            }),
            cleanup_views(r.1@) == cleanups_of(old(self)@.history, old(self)@.requests),
    {
        let ghost before = self@;
        let ghost cards = self@.history;
        let removed = self.history.len() as u32;
        let mut cleanup: Vec<CleanupJob> = Vec::new();
        let mut i: usize = 0;
        assert(cards.take(0) =~= Seq::empty());
        assert(cleanup_views(cleanup@) =~= cleanups_of(cards.take(0), before.requests));
        assert(self@.requests =~= before.requests.remove_keys(
            Set::new(|id: Seq<char>| has_card(cards.take(0), id)),
        ));
        while i < self.history.len()
            invariant
                i <= self.history@.len(),
                before.wf(),
                cards == card_views(self.history@),
                cards == before.history,
                cleanup_views(cleanup@) == cleanups_of(cards.take(i as int), before.requests),
                self@ == (QueueView {
                    requests: before.requests.remove_keys(
                        Set::new(|id: Seq<char>| has_card(cards.take(i as int), id)),
                    ),
                    ..before
                }),
            decreases self.history@.len() - i,
        {
            let card = self.history[i].clone();
            let ghost id = card@.activity_id;
            let ghost seen = cards.take(i as int);
            let ghost next = cards.take(i + 1);
            let ghost so_far = cleanup_views(cleanup@);
            let ghost old_requests = self@.requests;
            proof {
                assert(next.drop_last() =~= seen);
                assert(next.last() == card@);
                if has_card(seen, id) {
                    let m = choose|m: int| 0 <= m < seen.len() && seen[m].activity_id == id;
                    assert(cards[m].activity_id != cards[i as int].activity_id);
                }
                assert forall|x: Seq<char>| #[trigger]
                    has_card(next, x) <==> has_card(seen, x) || x == id by {
                    if has_card(seen, x) {
                        let m = choose|m: int| 0 <= m < seen.len() && seen[m].activity_id == x;
                        assert(next[m].activity_id == x);
                    }
                    if x == id {
                        assert(next[i as int].activity_id == x);
                    }
                    if has_card(next, x) {
                        let m = choose|m: int| 0 <= m < next.len() && next[m].activity_id == x;
                        if m < i {
                            assert(seen[m].activity_id == x);
                        }
                    }
                }
            }
            assert(!has_card(seen, id));
            let ghost kept = self.requests@;
            assert(old_requests.contains_key(id) == before.requests.contains_key(id));
            assert(kept.contains_key(id) ==> old_requests[id] == kept[id]@);
            assert(kept.contains_key(id) ==> old_requests[id] == before.requests[id]);
            let request = self.requests.remove(card.activity_id.as_str());
            assert(request is Some == before.requests.contains_key(id));
            assert(self@.requests =~= old_requests.remove(id));
            assert(self@.requests =~= before.requests.remove_keys(
                Set::new(|x: Seq<char>| has_card(next, x)),
            ));
            if let Some(request) = request {
                let ghost job = CleanupView { request: request@, activity: card@ };
                cleanup.push(CleanupJob { request, activity: card });
                assert(cleanup_views(cleanup@) =~= so_far.push(job));
                assert(job.request == kept[id]@);
                assert(job == (CleanupView { request: before.requests[id], activity: next.last() }));
            }
            assert(cleanups_of(next.drop_last(), before.requests) == so_far);
            assert(cleanup_views(cleanup@) =~= cleanups_of(next, before.requests));
            i += 1;
        }
        assert(cards.take(i as int) =~= cards);
        self.history = Vec::new();
        assert(self@.history =~= Seq::empty());
        (removed, cleanup)
    }

    /// Keeps the latest form of a running card.
    pub fn store_active_activity(&mut self, activity: &FfiTransferActivityRecord)
        requires
            old(self)@.wf(),
        ensures
            final(self)@.wf(),
            final(self)@ == old(self)@.storing(activity@),
    {
        let ghost before = self@;
        if let Some(active) = self.active.remove(activity.activity_id.as_str()) {
            let current = ActiveTransfer {
                control: active.control,
                limit: active.limit,
                activity: activity.clone(),
            };
            self.active.insert(activity.activity_id.clone(), current);
            assert(self@.active =~= before.active.insert(activity@.activity_id, current@));
            assert(self@.active.dom() =~= before.active.dom());
        } else {
            assert(self@.active =~= before.active);
        }
    }

    /// Parks a card that the peer paused for an automatic resume. What the
    /// local user asked for meanwhile wins.
    pub fn schedule_peer_pause_resume(&mut self, activity_id: &str)
        requires
            old(self)@.wf(),
        ensures
            final(self)@.wf(),
            final(self)@ == old(self)@.awaiting_peer(activity_id@),
    {
        self.disarm(activity_id);
        if !self.pending_pause_actions.contains_key(activity_id) {
            self.set_action(activity_id, PendingPauseAction::Resume);
        }
    }

    /// Takes in how an attempt on a card was settled.
    pub fn settle_activity(&mut self, activity: &FfiTransferActivityRecord, verdict: AttemptVerdict)
        requires
            old(self)@.wf(),
        ensures
            final(self)@.wf(),
            final(self)@ == old(self)@.settling(activity@, verdict),
    {
        match verdict {
            AttemptVerdict::TryNext => {},
            AttemptVerdict::PausedLocally => {
                self.store_active_activity(activity);
            },
            AttemptVerdict::PausedByPeer => {
                self.store_active_activity(activity);
                self.schedule_peer_pause_resume(activity.activity_id.as_str());
            },
            AttemptVerdict::Finished | AttemptVerdict::Ended { .. } => {
                self.store_active_activity(activity);
                self.push_history(activity.clone());
            },
        }
    }
}

/// The cleanups of ended cards whose requests are still known.
pub open spec fn cleanups_of(cards: Seq<ActivityView>, requests: Map<Seq<char>, RequestView>) -> Seq<
    CleanupView,
>
    decreases cards.len(),
{
    if cards.len() == 0 {
        Seq::empty()
    } else {
        let before = cleanups_of(cards.drop_last(), requests);
        let card = cards.last();
        if requests.contains_key(card.activity_id) {
            before.push(CleanupView { request: requests[card.activity_id], activity: card })
        } else {
            before
        }
    }
}

proof fn grow_keys(keys: Seq<Seq<char>>, i: int)
    requires
        0 <= i < keys.len(),
        keys.no_duplicates(),
    ensures
        !keys.take(i).contains(keys[i]),
        forall|id: Seq<char>| #[trigger]
            keys.take(i + 1).contains(id) <==> keys.take(i).contains(id) || id == keys[i],
{
    assert forall|id: Seq<char>| #[trigger]
        keys.take(i + 1).contains(id) <==> keys.take(i).contains(id) || id == keys[i] by {
        if keys.take(i).contains(id) {
            let k = choose|k: int| 0 <= k < i && keys.take(i)[k] == id;
            assert(keys.take(i + 1)[k] == id);
        }
        if id == keys[i] {
            assert(keys.take(i + 1)[i] == id);
        }
        if keys.take(i + 1).contains(id) {
            let next = keys.take(i + 1);
            let k = choose|k: int| 0 <= k < next.len() && next[k] == id;
            if k < i {
                assert(keys.take(i)[k] == id);
            }
        }
    }
}

/// What canceling everything leaves to do.
#[derive(Debug, PartialEq, Eq)]
pub struct CancelAllOutcome {
    /// The observer calls to make, in order.
    pub calls: Vec<ObserverCall>,
    /// The cards whose running tasks are to be told to cancel.
    pub signals: Vec<String>,
}

/// What a [`CancelAllOutcome`] holds.
#[verifier::ext_equal]
pub struct CancelAllView {
    pub calls: Seq<ObserverCallView>,
    pub signals: Seq<Seq<char>>,
}

impl View for CancelAllOutcome {
    type V = CancelAllView;

    open spec fn view(&self) -> CancelAllView {
        CancelAllView {
            calls: self.calls@.map_values(|x: ObserverCall| x@),
            signals: text_seq(self.signals@),
        }
    }
}

impl Clone for CancelAllOutcome {
    fn clone(&self) -> (r: Self)
        ensures
            r@ == self@,
    {
        let r = CancelAllOutcome {
            calls: self.calls.clone(),
            signals: self.signals.clone(),
        };
        assert(r@.calls =~= self@.calls);
        assert(text_seq(r.signals@) =~= text_seq(self.signals@));
        r
    }
}

impl TransferQueueState {
    fn halt_active(&mut self) -> (r: Vec<String>)
        requires
            old(self)@.wf(),
            old(self)@.pending.len() == 0,
            old(self)@.paused == Map::<Seq<char>, JobView>::empty(),
        ensures
            final(self)@ == old(self)@.halted(),
            final(self)@.wf(),
            text_seq(r@).no_duplicates(),
            forall|id: Seq<char>| #[trigger]
                text_seq(r@).contains(id) <==> old(self)@.can_stop(id),
    {
        let ghost before = self@;
        let count: usize = self.active.len();
        let ghost keys = self.active.keys();
        let mut signals: Vec<String> = Vec::new();
        let mut i: usize = 0;
        while i < count
            invariant
                before == self@,
                i <= count == keys.len(),
                keys == self.active.keys(),
                keys.no_duplicates(),
                text_seq(signals@).no_duplicates(),
                forall|id: Seq<char>| #[trigger]
                    text_seq(signals@).contains(id) <==> before.can_stop(id) && keys.take(
                        i as int,
                    ).contains(id),
            decreases count - i,
        {
            let key = self.active.key(i).clone();
            let ghost so_far = text_seq(signals@);
            proof {
                grow_keys(keys, i as int);
            }
            if self.can_stop(key.as_str()) {
                signals.push(key.clone());
                assert(text_seq(signals@) =~= so_far.push(key@));
                assert(!so_far.contains(key@));
                assert forall|a: int, b: int|
                    0 <= a < b < text_seq(signals@).len() implies text_seq(signals@)[a] != text_seq(
                    signals@,
                )[b] by {
                    assert(text_seq(signals@)[a] == so_far[a]);
                    assert(so_far.contains(so_far[a]));
                }
                assert forall|id: Seq<char>| #[trigger]
                    text_seq(signals@).contains(id) <==> so_far.contains(id) || id == key@ by {
                    if so_far.contains(id) {
                        let k = choose|k: int| 0 <= k < so_far.len() && so_far[k] == id;
                        assert(text_seq(signals@)[k] == id);
                    }
                    if id == key@ {
                        assert(text_seq(signals@)[so_far.len() as int] == id);
                    }
                }
            }
            i += 1;
        }
        assert(keys.take(i as int) =~= keys);
        assert forall|id: Seq<char>| #[trigger]
            text_seq(signals@).contains(id) <==> before.can_stop(id) by {
            if before.can_stop(id) {
                assert(self.active@.contains_key(id));
                assert(keys.contains(id));
            }
        }
        let mut k: usize = 0;
        let ghost all = text_seq(signals@);
        assert(self@.active =~= before.halted_for(all.take(0)).active);
        assert(self@.actions =~= before.halted_for(all.take(0)).actions);
        while k < signals.len()
            invariant
                k <= signals@.len(),
                all == text_seq(signals@),
                self@.wf(),
                self@ == before.halted_for(all.take(k as int)),
                forall|id: Seq<char>| #[trigger] all.contains(id) <==> before.can_stop(id),
            decreases signals@.len() - k,
        {
            let ghost seen = all.take(k as int);
            let ghost next = all.take(k + 1);
            let ghost now = self@;
            let ghost id = signals@[k as int]@;
            proof {
                assert(all[k as int] == id);
                assert(all.contains(id));
                assert forall|x: Seq<char>| #[trigger]
                    next.contains(x) <==> seen.contains(x) || x == id by {
                    if seen.contains(x) {
                        let m = choose|m: int| 0 <= m < seen.len() && seen[m] == x;
                        assert(next[m] == x);
                    }
                    if x == id {
                        assert(next[k as int] == x);
                    }
                    if next.contains(x) {
                        let m = choose|m: int| 0 <= m < next.len() && next[m] == x;
                        if m < k {
                            assert(seen[m] == x);
                        }
                    }
                }
            }
            self.disarm(signals[k].as_str());
            self.set_action(signals[k].as_str(), PendingPauseAction::Cancel);
            assert(self@.active =~= before.halted_for(next).active);
            assert(self@.actions =~= before.halted_for(next).actions);
            k += 1;
        }
        assert(all.take(k as int) =~= all);
        assert(self@.active =~= before.halted().active);
        assert(self@.actions =~= before.halted().actions);
        signals
    }

    #[verifier::spinoff_prover]
    #[verifier::rlimit(40)]
    fn cancel_jobs(&mut self, jobs: &Vec<QueuedTransfer>, now_ms: u64) -> (r: Vec<ObserverCall>)
        requires
            old(self)@.wf(),
        ensures
            final(self)@ == old(self)@.remembering_canceled(job_views(jobs@), now_ms),
            final(self)@.wf(),
            call_views(r@) == all_cancel_calls(job_views(jobs@), now_ms),
    {
        let ghost before = self@;
        let ghost all = job_views(jobs@);
        let mut calls: Vec<ObserverCall> = Vec::new();
        let mut i: usize = 0;
        assert(all.take(0) =~= Seq::empty());
        assert(call_views(calls@) =~= Seq::empty());
        while i < jobs.len()
            invariant
                i <= jobs@.len(),
                all == job_views(jobs@),
                self@.wf(),
                self@ == before.remembering_canceled(all.take(i as int), now_ms),
                call_views(calls@) == all_cancel_calls(all.take(i as int), now_ms),
            decreases jobs@.len() - i,
        {
            let ghost next = all.take(i + 1);
            let ghost so_far = calls@;
            assert(next.drop_last() =~= all.take(i as int));
            assert(next.last() == jobs@[i as int]@);
            let (card, mut more) = cancel_job(jobs[i].clone(), now_ms);
            self.push_history(card);
            let ghost added = more@;
            calls.append(&mut more);
            assert(call_views(calls@) =~= call_views(so_far) + call_views(added));
            i += 1;
        }
        assert(all.take(i as int) =~= all);
        calls
    }

    /// Cancels everything that waits, rests or runs.
    pub fn cancel(&mut self, now_ms: u64) -> (r: CancelAllOutcome)
        requires
            old(self)@.wf(),
        ensures
            final(self)@.wf(),
            ({
                let jobs = old(self)@.pending + old(self).resting_jobs();
                &&& final(self)@ == old(self)@.halted().remembering_canceled(jobs, now_ms)
                &&& r@.calls == all_cancel_calls(jobs, now_ms)
            }),
            lists_resting(old(self)@.paused, old(self).resting_jobs()),
            r@.signals.no_duplicates(),
            forall|id: Seq<char>| #[trigger]
                r@.signals.contains(id) <==> old(self)@.can_stop(id),
    {
        let ghost before = self@;
        let ghost resting = self.resting_jobs();
        let mut jobs: Vec<QueuedTransfer> = Vec::new();
        let count: usize = self.paused.len();
        let ghost keys = self.paused.keys();
        let mut i: usize = 0;
        while i < count
            invariant
                i <= count == keys.len(),
                before == self@,
                keys == self.paused.keys(),
                resting == self.resting_jobs(),
                job_views(jobs@) == resting.take(i as int),
            decreases count - i,
        {
            let ghost so_far = job_views(jobs@);
            let job = self.paused.value(i).clone();
            let ghost added = job@;
            jobs.push(job);
            assert(job_views(jobs@) =~= so_far.push(added));
            assert(resting[i as int] == added);
            assert(resting.take(i + 1) =~= so_far.push(added));
            i += 1;
        }
        assert(resting.take(i as int) =~= resting);
        proof {
            assert forall|k: int| 0 <= k < resting.len() implies #[trigger] resting[k]
                == before.paused[keys[k]] && before.paused.contains_key(keys[k]) by {
                assert(keys.contains(keys[k]));
                assert(self.paused@.contains_key(keys[k]));
            }
            assert forall|a: int, b: int|
                #![trigger resting[a], resting[b]]
                0 <= a < b < resting.len() implies resting[a].activity.activity_id
                != resting[b].activity.activity_id by {
                assert(before.paused.contains_key(keys[a]));
                assert(before.paused.contains_key(keys[b]));
                assert(keys[a] != keys[b]);
            }
            assert forall|id: Seq<char>| #[trigger] before.paused.contains_key(id) implies resting.contains(
                before.paused[id],
            ) by {
                assert(self.paused@.contains_key(id));
                let k = choose|k: int| 0 <= k < keys.len() && keys[k] == id;
                assert(resting[k] == before.paused[id]);
            }
        }
        let mut waiting: Vec<QueuedTransfer> = Vec::new();
        std::mem::swap(&mut waiting, &mut self.pending);
        self.paused = TextMap::new();
        let ghost idle = self@;
        assert(idle.pending =~= Seq::empty());
        assert(idle.paused =~= Map::empty());
        assert(idle == (QueueView { pending: Seq::empty(), paused: Map::empty(), ..before }));
        let signals = self.halt_active();
        assert(self@ =~= before.halted());
        let ghost rest = jobs@;
        let ghost first = waiting@;
        waiting.append(&mut jobs);
        assert(job_views(waiting@) =~= job_views(first) + job_views(rest));
        assert(job_views(first) =~= before.pending);
        let calls = self.cancel_jobs(&waiting, now_ms);
        let r = CancelAllOutcome { calls, signals };
        assert(r@.calls =~= call_views(calls@));
        r
    }
}

impl QueueView {
    /// The queue with the running tasks of `ids` told to cancel.
    spec fn halted_for(self, ids: Seq<Seq<char>>) -> QueueView {
        QueueView {
            active: Map::new(
                |id: Seq<char>| self.active.contains_key(id),
                |id: Seq<char>|
                    if ids.contains(id) {
                        ActiveView { control: false, ..self.active[id] }
                    } else {
                        self.active[id]
                    },
            ),
            actions: self.actions.union_prefer_right(
                Map::new(
                    |id: Seq<char>| ids.contains(id),
                    |id: Seq<char>| PendingPauseAction::Cancel,
                ),
            ),
            ..self
        }
    }
}

/// A discarded card is not shown, whatever else refers to it.
pub proof fn discarded_cards_are_not_shown(q: QueueView, id: Seq<char>, now_ms: u64)
    requires
        q.wf(),
        id.len() > 0,
    ensures
        q.discarding(id, now_ms).0.shown_card(id) is None,
{
}

/// A discarded card stays hidden when its task ends later on.
pub proof fn discarded_cards_stay_hidden(q: QueueView, card: ActivityView)
    requires
        q.discarded.contains(card.activity_id),
    ensures
        q.remembering(card) == q,
        q.remembering(card).shown_card(card.activity_id) is None,
{
}

/// Discarding leaves every other card as it was shown before.
pub proof fn discarding_touches_one_card(q: QueueView, id: Seq<char>, other: Seq<char>, now_ms: u64)
    requires
        q.wf(),
        id.len() > 0,
        other != id,
    ensures
        q.discarding(id, now_ms).0.shown_card(other) == q.shown_card(other),
{
    let after = q.discarding(id, now_ms).0;
    other_job_stays(q.pending, id, other);
    other_card_stays(q.history, id, other);
}

pub(crate) proof fn other_card_stays(cards: Seq<ActivityView>, id: Seq<char>, other: Seq<char>)
    requires
        other != id,
    ensures
        has_card(without_card(cards, id), other) == has_card(cards, other),
        cards_differ(cards) ==> find_card(without_card(cards, id), other) == find_card(cards, other),
    decreases cards.len(),
{
    if cards.len() > 0 {
        let init = cards.drop_last();
        other_card_stays(init, id, other);
        let before = without_card(init, id);
        let after = without_card(cards, id);
        if has_card(cards, other) {
            let i = choose|i: int| 0 <= i < cards.len() && cards[i].activity_id == other;
            if i < init.len() {
                assert(init[i].activity_id == other);
                let k = choose|k: int| 0 <= k < before.len() && before[k].activity_id == other;
                assert(after[k].activity_id == other);
            } else {
                assert(after[after.len() - 1].activity_id == other);
            }
        }
        if has_card(after, other) {
            let i = choose|i: int| 0 <= i < after.len() && after[i].activity_id == other;
            if i < before.len() {
                assert(before[i].activity_id == other);
                let k = choose|k: int| 0 <= k < init.len() && init[k].activity_id == other;
                assert(cards[k].activity_id == other);
            } else {
                assert(cards[cards.len() - 1].activity_id == other);
            }
        }
        if cards_differ(cards) {
            without_card_removes(cards, id);
            find_card_finds(cards, other);
            find_card_finds(after, other);
            if has_card(cards, other) {
                let a = find_card(cards, other)->0;
                let b = find_card(after, other)->0;
                let i = choose|i: int| 0 <= i < cards.len() && cards[i] == a;
                let m = choose|m: int| 0 <= m < after.len() && after[m] == b;
                assert(cards.contains(after[m]));
                let j = choose|j: int| 0 <= j < cards.len() && cards[j] == b;
                if i < j {
                    assert(cards[i].activity_id != cards[j].activity_id);
                } else if j < i {
                    assert(cards[j].activity_id != cards[i].activity_id);
                }
            }
        }
    }
}

#[verifier::spinoff_prover]
#[verifier::rlimit(40)]
pub(crate) proof fn other_job_stays(jobs: Seq<JobView>, id: Seq<char>, other: Seq<char>)
    requires
        other != id,
        jobs_differ(jobs),
    ensures
        ({
            let at = job_position(jobs, id) as int;
            let after = if at < jobs.len() {
                jobs.remove(at)
            } else {
                jobs
            };
            &&& has_job(after, other) == has_job(jobs, other)
            &&& has_job(jobs, other) ==> after[job_position(after, other) as int]
                == jobs[job_position(jobs, other) as int]
        }),
{
    job_position_is_first(jobs, id);
    let at = job_position(jobs, id) as int;
    if at < jobs.len() {
        let after = jobs.remove(at);
        job_position_is_first(jobs, other);
        job_position_is_first(after, other);
        if has_job(jobs, other) {
            let p = job_position(jobs, other) as int;
            let k = if p < at {
                p
            } else {
                p - 1
            };
            assert(after[k] == jobs[p]);
            assert(after[k].activity.activity_id == other);
            let m = job_position(after, other) as int;
            let n = if m < at {
                m
            } else {
                m + 1
            };
            assert(after[m] == jobs[n]);
            if n < p {
                assert(jobs[n].activity.activity_id != jobs[p].activity.activity_id);
            } else if p < n {
                assert(jobs[p].activity.activity_id != jobs[n].activity.activity_id);
            }
        }
        if has_job(after, other) {
            let m = job_position(after, other) as int;
            let n = if m < at {
                m
            } else {
                m + 1
            };
            assert(after[m] == jobs[n]);
            assert(jobs[n].activity.activity_id == other);
        }
    }
}

/// Pausing a waiting card and resuming it puts it back in line, at the end.
pub proof fn resuming_undoes_a_pause(q: QueueView, id: Seq<char>, paused_ms: u64, now_ms: u64)
    requires
        q.wf(),
        id.len() > 0,
        has_job(q.pending, id),
    ensures
        ({
            let held = q.pausing(id, paused_ms).0;
            let again = held.resuming(id, now_ms).0;
            &&& held.paused.contains_key(id)
            &&& !has_job(held.pending, id)
            &&& again.pending.last().activity.activity_id == id
            &&& again.pending.last().request == q.pending_job(id).request
            &&& again.paused == q.paused
        }),
{
    job_position_is_first(q.pending, id);
    take_pending(q, id);
    let held = q.pausing(id, paused_ms).0;
    let again = held.resuming(id, now_ms).0;
    assert(q.pending_job(id).activity.activity_id == id);
    assert(!q.paused.contains_key(id)) by {
        let at = job_position(q.pending, id) as int;
        assert(!q.paused.contains_key(q.pending[at].activity.activity_id));
    }
    assert(again.paused =~= q.paused);
}

/// Clearing the history leaves waiting, running and resting cards alone: the
/// queue shows exactly those afterwards.
pub proof fn clearing_history_keeps_live_cards(q: QueueView, id: Seq<char>)
    requires
        q.wf(),
        !has_card(q.history, id),
    ensures
        (QueueView { history: Seq::empty(), ..q }).shown_card(id) == q.shown_card(id),
{
}

} // verus!
