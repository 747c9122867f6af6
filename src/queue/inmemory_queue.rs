//! The reference in-process queue: a FIFO of pending payloads, a table of claimed
//! jobs keyed by job id, and a table of delivery counts keyed by job id. Each
//! operation is one atomic step on this state; callers that share a queue between
//! threads put it behind one lock, which makes the operations linearizable.

use std::collections::VecDeque;
use vstd::prelude::*;
use crate::clock::{current_time, Timestamp};
use crate::queue::keyed::KeyedTable;
use crate::queue::{JobPayload, QueuedJob};

verus! {

/// A claimed job and the consumer that holds it.
pub struct Claim {
    pub consumer_id: String,
    pub job: QueuedJob,
}

/// The abstract state of a queue: pending payloads in delivery order, claimed jobs by
/// job id with the claiming consumer, and delivery counts by job id.
pub struct QueueView {
    pub pending: Seq<JobPayload>,
    pub claimed: Map<Seq<char>, (Seq<char>, QueuedJob)>,
    pub attempts: Map<Seq<char>, u32>,
}

/// The state of a new queue.
pub open spec fn empty_queue() -> QueueView {
    QueueView { pending: Seq::empty(), claimed: Map::empty(), attempts: Map::empty() }
}

impl QueueView {
    /// The delivery count that the next delivery of `id` gets (saturating).
    pub open spec fn next_attempt(self, id: Seq<char>) -> u32 {
        if self.attempts.contains_key(id) {
            if self.attempts[id] < u32::MAX { (self.attempts[id] + 1) as u32 } else { u32::MAX }
        } else {
            1
        }
    }

    /// After enqueueing `p`: it joins the back of the pending sequence, and its delivery
    /// count starts at 0 unless it has one.
    pub open spec fn enqueued(self, p: JobPayload) -> QueueView {
        QueueView {
            pending: self.pending.push(p),
            claimed: self.claimed,
            attempts: if self.attempts.contains_key(p.job_id@) {
                self.attempts
            } else {
                self.attempts.insert(p.job_id@, 0)
            },
        }
    }

    /// After a dequeue by `consumer` at `now`, and the job handed out: the head of the
    /// pending sequence, with its delivery count raised by one, claimed by `consumer`.
    pub open spec fn dequeued(self, consumer: Seq<char>, now: Timestamp) -> (QueueView, Option<QueuedJob>) {
        if self.pending.len() == 0 {
            (self, None)
        } else {
            let p = self.pending[0];
            let id = p.job_id@;
            let n = self.next_attempt(id);
            let job = QueuedJob { job_id: p.job_id, payload: p, attempts: n, claimed_at: now };
            (
                QueueView {
                    pending: self.pending.drop_first(),
                    claimed: self.claimed.insert(id, (consumer, job)),
                    attempts: self.attempts.insert(id, n),
                },
                Some(job),
            )
        }
    }

    /// After acknowledging `id`: a claimed job is done and forgotten; otherwise nothing
    /// changes.
    pub open spec fn acked(self, id: Seq<char>) -> QueueView {
        if self.claimed.contains_key(id) {
            QueueView {
                pending: self.pending,
                claimed: self.claimed.remove(id),
                attempts: self.attempts.remove(id),
            }
        } else {
            self
        }
    }

    /// After a negative acknowledgement of `id`: a claimed job goes back to the front
    /// of the pending sequence, keeping its delivery count; otherwise nothing changes.
    pub open spec fn nacked(self, id: Seq<char>) -> QueueView {
        if self.claimed.contains_key(id) {
            QueueView {
                pending: seq![self.claimed[id].1.payload] + self.pending,
                claimed: self.claimed.remove(id),
                attempts: self.attempts,
            }
        } else {
            self
        }
    }
}

/// The in-process queue.
pub struct InMemoryQueue {
    pending: VecDeque<JobPayload>,
    processing: KeyedTable<Claim>,
    attempts: KeyedTable<u32>,
}

/// A claim as it appears in the abstract state.
pub open spec fn claim_view(c: Claim) -> (Seq<char>, QueuedJob) {
    (c.consumer_id@, c.job)
}

impl View for InMemoryQueue {
    type V = QueueView;

    closed spec fn view(&self) -> QueueView {
        QueueView {
            pending: self.pending@,
            claimed: self.processing@.map_values(|c: Claim| claim_view(c)),
            attempts: self.attempts@,
        }
    }
}

impl InMemoryQueue {
    /// The internal tables are well formed.
    pub closed spec fn wf(&self) -> bool {
        self.processing.wf() && self.attempts.wf()
    }

    /// A new, empty queue.
    pub fn new() -> (r: Self)
        ensures
            r.wf(),
            r@ == empty_queue(),
    {
        let r = InMemoryQueue {
            pending: VecDeque::new(),
            processing: KeyedTable::new(),
            attempts: KeyedTable::new(),
        };
        assert(r@.claimed =~= Map::empty());
        r
    }

    /// Adds `payload` to the back of the queue and returns its job id.
    pub fn enqueue(&mut self, payload: JobPayload) -> (r: String)
        requires
            old(self).wf(),
        ensures
            final(self).wf(),
            final(self)@ == old(self)@.enqueued(payload),
            r == payload.job_id,
    {
        let job_id = payload.job_id.clone();
        if !self.attempts.contains_key(job_id.as_str()) {
            self.attempts.insert(job_id.clone(), 0);
        }
        self.pending.push_back(payload);
        job_id
    }

    /// Hands the job at the front of the queue to `consumer_id`, stamped with `now`.
    pub fn dequeue_at(&mut self, consumer_id: &str, now: Timestamp) -> (r: Option<QueuedJob>)
        requires
            old(self).wf(),
        ensures
            final(self).wf(),
            (final(self)@, r) == old(self)@.dequeued(consumer_id@, now),
    {
        let ghost v = self@;
        match self.pending.pop_front() {
            None => None,
            Some(payload) => {
                let job_id = payload.job_id.clone();
                let n: u32 = match self.attempts.get(job_id.as_str()) {
                    Some(a) => if *a < u32::MAX { *a + 1 } else { u32::MAX },
                    None => 1,
                };
                assert(n == v.next_attempt(job_id@));
                self.attempts.insert(job_id.clone(), n);
                let job = QueuedJob { job_id: job_id.clone(), payload, attempts: n, claimed_at: now };
                let claim = Claim { consumer_id: consumer_id.to_owned(), job: job.clone() };
                self.processing.insert(job_id, claim);
                proof {
                    assert(self.pending@ =~= v.pending.drop_first());
                    assert(self@.claimed =~= v.claimed.insert(job.job_id@, (consumer_id@, job)));
                }
                Some(job)
            },
        }
    }

    /// Hands the job at the front of the queue to `consumer_id`, stamped with the
    /// current time; `None` when nothing is pending.
    pub fn dequeue(&mut self, consumer_id: &str) -> (r: Option<QueuedJob>)
        requires
            old(self).wf(),
        ensures
            final(self).wf(),
            exists|now: Timestamp| (final(self)@, r) == old(self)@.dequeued(consumer_id@, now),
    {
        let now = current_time();
        self.dequeue_at(consumer_id, now)
    }

    /// Marks the job `job_id` complete. Acknowledging a job that is not claimed, or was
    /// already acknowledged, changes nothing.
    pub fn ack(&mut self, job_id: &str, _consumer_id: &str)
        requires
            old(self).wf(),
        ensures
            final(self).wf(),
            final(self)@ == old(self)@.acked(job_id@),
    {
        let ghost v = self@;
        match self.processing.remove(job_id) {
            Some(_) => {
                let ghost counts = self.attempts@;
                self.attempts.remove(job_id);
                assert(self@.attempts =~= counts.remove(job_id@));
                assert(self@.claimed =~= v.claimed.remove(job_id@));
            },
            None => {
                assert(!v.claimed.contains_key(job_id@));
            },
        }
    }

    /// Records a failed processing of `job_id`: a claimed job goes back to the front of
    /// the queue. The consumer and the reason are for the caller's diagnostics.
    pub fn nack(&mut self, job_id: &str, _consumer_id: &str, _reason: Option<String>)
        requires
            old(self).wf(),
        ensures
            final(self).wf(),
            final(self)@ == old(self)@.nacked(job_id@),
    {
        let ghost v = self@;
        match self.processing.remove(job_id) {
            Some(claim) => {
                self.pending.push_front(claim.job.payload);
                assert(self@.claimed =~= v.claimed.remove(job_id@));
            },
            None => {},
        }
    }

    /// The number of pending jobs; claimed jobs are not counted.
    pub fn get_queue_length(&self) -> (r: usize)
        ensures
            r == self@.pending.len(),
    {
        self.pending.len()
    }
}

impl Default for InMemoryQueue {
    fn default() -> (r: Self)
        ensures
            r.wf(),
            r@ == empty_queue(),
    {
        Self::new()
    }
}

/// The state after enqueueing `ps`, in order, starting from `v`.
pub open spec fn enqueued_all(v: QueueView, ps: Seq<JobPayload>) -> QueueView
    decreases ps.len(),
{
    if ps.len() == 0 {
        v
    } else {
        enqueued_all(v, ps.drop_last()).enqueued(ps.last())
    }
}

/// A queue call other than a negative acknowledgement: a dequeue by a consumer at a
/// time, or an acknowledgement of a job id.
pub enum Call {
    Dequeue(Seq<char>, Timestamp),
    Ack(Seq<char>),
}

/// The state after `calls`, in order, starting from `v`, and the results of the
/// dequeues among them, in order.
pub open spec fn run_calls(v: QueueView, calls: Seq<Call>) -> (QueueView, Seq<Option<QueuedJob>>)
    decreases calls.len(),
{
    if calls.len() == 0 {
        (v, Seq::empty())
    } else {
        let (w, out) = run_calls(v, calls.drop_last());
        match calls.last() {
            Call::Dequeue(c, t) => {
                let (x, j) = w.dequeued(c, t);
                (x, out.push(j))
            },
            Call::Ack(id) => (w.acked(id), out),
        }
    }
}

/// Enqueues without dequeues in between append the payloads to the pending sequence,
/// so the queue length grows by exactly the number of payloads enqueued.
pub proof fn lemma_enqueue_all_appends(v: QueueView, ps: Seq<JobPayload>)
    ensures
        enqueued_all(v, ps).pending == v.pending + ps,
        enqueued_all(v, ps).pending.len() == v.pending.len() + ps.len(),
        enqueued_all(v, ps).claimed == v.claimed,
    decreases ps.len(),
{
    if ps.len() > 0 {
        lemma_enqueue_all_appends(v, ps.drop_last());
        assert((v.pending + ps.drop_last()).push(ps.last()) =~= v.pending + ps);
    }
}

/// Dequeues, with any acknowledgements but no negative acknowledgement in between,
/// hand out the pending payloads in order, each under its own job id, one per dequeue;
/// once the pending payloads are used up, dequeues get none, and the queue is empty.
/// So when the pending job ids are distinct, no job is handed out twice.
pub proof fn lemma_dequeues_in_order(v: QueueView, calls: Seq<Call>)
    ensures
        ({
            let (w, out) = run_calls(v, calls);
            &&& out.len() <= v.pending.len() ==> w.pending == v.pending.subrange(out.len() as int, v.pending.len() as int)
            &&& out.len() >= v.pending.len() ==> w.pending.len() == 0
        }),
        forall|i: int| #![trigger run_calls(v, calls).1[i]] 0 <= i < run_calls(v, calls).1.len() ==> {
            &&& i < v.pending.len() ==> run_calls(v, calls).1[i] is Some
                && run_calls(v, calls).1[i]->Some_0.payload == v.pending[i]
                && run_calls(v, calls).1[i]->Some_0.job_id == v.pending[i].job_id
            &&& i >= v.pending.len() ==> run_calls(v, calls).1[i] is None
        },
        (forall|i: int, j: int| 0 <= i < v.pending.len() && 0 <= j < v.pending.len() && i != j
            ==> v.pending[i].job_id@ != v.pending[j].job_id@) ==> forall|i: int, j: int|
            #![trigger run_calls(v, calls).1[i], run_calls(v, calls).1[j]]
            0 <= i < run_calls(v, calls).1.len() && 0 <= j < run_calls(v, calls).1.len() && i != j
                && run_calls(v, calls).1[i] is Some && run_calls(v, calls).1[j] is Some
                ==> run_calls(v, calls).1[i]->Some_0.job_id@ != run_calls(v, calls).1[j]->Some_0.job_id@,
    decreases calls.len(),
{
    if calls.len() > 0 {
        let prev = calls.drop_last();
        lemma_dequeues_in_order(v, prev);
        let (w, out) = run_calls(v, prev);
        let n = out.len() as int;
        let len = v.pending.len() as int;
        match calls.last() {
            Call::Dequeue(c, t) => {
                if n < len {
                    assert(w.pending[0] == v.pending[n]);
                    assert(w.pending.drop_first() =~= v.pending.subrange(n + 1, len));
                }
                let res = run_calls(v, calls).1;
                assert forall|i: int| 0 <= i < n implies res[i] == out[i] by {}
            },
            Call::Ack(id) => {},
        }
    }
}

/// Payloads enqueued in order into a new queue come out of later dequeues in the same
/// order, whatever acknowledgements come in between.
pub proof fn lemma_fifo(ps: Seq<JobPayload>, calls: Seq<Call>)
    ensures
        forall|i: int| #![trigger run_calls(enqueued_all(empty_queue(), ps), calls).1[i]]
            0 <= i < run_calls(enqueued_all(empty_queue(), ps), calls).1.len() && i < ps.len() ==> {
            &&& run_calls(enqueued_all(empty_queue(), ps), calls).1[i] is Some
            &&& run_calls(enqueued_all(empty_queue(), ps), calls).1[i]->Some_0.payload == ps[i]
        },
{
    lemma_enqueue_all_appends(empty_queue(), ps);
    assert(enqueued_all(empty_queue(), ps).pending =~= ps);
    lemma_dequeues_in_order(enqueued_all(empty_queue(), ps), calls);
}

/// With exactly one pending job, of two dequeues (in whichever order the lock admits
/// them) exactly one gets the job and the other gets none.
pub proof fn lemma_single_job_claimed_once(
    v: QueueView,
    c1: Seq<char>,
    t1: Timestamp,
    c2: Seq<char>,
    t2: Timestamp,
)
    requires
        v.pending.len() == 1,
    ensures
        v.dequeued(c1, t1).1 is Some,
        v.dequeued(c1, t1).0.dequeued(c2, t2).1 is None,
{
    assert(v.pending.drop_first().len() == 0);
}

/// Acknowledging the same job id twice has the effect of acknowledging it once, and an
/// acknowledgement never changes the number of pending jobs.
pub proof fn lemma_ack_idempotent(v: QueueView, id: Seq<char>)
    ensures
        v.acked(id).acked(id) == v.acked(id),
        v.acked(id).pending == v.pending,
{
}

/// A job that is dequeued and then negatively acknowledged is pending again: the
/// queue length is back to what it was, and the next dequeue hands out the same job id
/// and payload with a delivery count one higher.
pub proof fn lemma_nack_requeues(v: QueueView, c1: Seq<char>, t1: Timestamp, c2: Seq<char>, t2: Timestamp)
    requires
        v.pending.len() > 0,
    ensures
        ({
            let (v1, j) = v.dequeued(c1, t1);
            let v2 = v1.nacked(j->Some_0.job_id@);
            let j2 = v2.dequeued(c2, t2).1;
            &&& j is Some
            &&& v2.pending.len() == v.pending.len()
            &&& v2.pending.len() >= 1
            &&& j2 is Some
            &&& j2->Some_0.job_id == j->Some_0.job_id
            &&& j2->Some_0.payload == j->Some_0.payload
            &&& j->Some_0.attempts < u32::MAX ==> j2->Some_0.attempts == j->Some_0.attempts + 1
        }),
{
    let (v1, j) = v.dequeued(c1, t1);
    let v2 = v1.nacked(j->Some_0.job_id@);
    assert(v2.pending[0] == v.pending[0]);
}

/// Each job id is pending at most once, a pending job id is not claimed, and a claimed
/// job is filed under its own id: a job is in one state at a time.
pub open spec fn one_state_per_job(v: QueueView) -> bool {
    &&& forall|k: Seq<char>| #[trigger] v.claimed.contains_key(k) ==> v.claimed[k].1.payload.job_id@ == k
    &&& forall|i: int, j: int|
        0 <= i < v.pending.len() && 0 <= j < v.pending.len() && i != j
            ==> v.pending[i].job_id@ != v.pending[j].job_id@
    &&& forall|i: int| 0 <= i < v.pending.len() ==> !v.claimed.contains_key(#[trigger] v.pending[i].job_id@)
}

/// A new queue has each job in one state at a time, and every operation keeps it so,
/// provided that an enqueued job id is neither pending nor claimed already; and a
/// delivery never lowers a job's delivery count.
pub proof fn lemma_one_state_per_job(
    v: QueueView,
    p: JobPayload,
    consumer: Seq<char>,
    now: Timestamp,
    id: Seq<char>,
)
    requires
        one_state_per_job(v),
    ensures
        one_state_per_job(empty_queue()),
        (forall|i: int| 0 <= i < v.pending.len() ==> v.pending[i].job_id@ != p.job_id@)
            && !v.claimed.contains_key(p.job_id@) ==> one_state_per_job(v.enqueued(p)),
        one_state_per_job(v.dequeued(consumer, now).0),
        one_state_per_job(v.acked(id)),
        one_state_per_job(v.nacked(id)),
        v.pending.len() > 0 && v.attempts.contains_key(v.pending[0].job_id@)
            ==> v.dequeued(consumer, now).1->Some_0.attempts >= v.attempts[v.pending[0].job_id@],
{
    let e = v.enqueued(p);
    if (forall|i: int| 0 <= i < v.pending.len() ==> v.pending[i].job_id@ != p.job_id@)
        && !v.claimed.contains_key(p.job_id@) {
        assert forall|i: int, j: int|
            0 <= i < e.pending.len() && 0 <= j < e.pending.len() && i != j
            implies e.pending[i].job_id@ != e.pending[j].job_id@ by {
            if i < v.pending.len() && j < v.pending.len() {
                assert(e.pending[i] == v.pending[i]);
                assert(e.pending[j] == v.pending[j]);
            } else if i < v.pending.len() {
                assert(e.pending[i] == v.pending[i]);
            } else {
                assert(e.pending[j] == v.pending[j]);
            }
        }
        assert forall|i: int| 0 <= i < e.pending.len() implies !e.claimed.contains_key(#[trigger] e.pending[i].job_id@) by {
            if i < v.pending.len() {
                assert(e.pending[i] == v.pending[i]);
            }
        }
    }
    if v.pending.len() > 0 {
        let d = v.dequeued(consumer, now).0;
        let head = v.pending[0].job_id@;
        assert forall|i: int| 0 <= i < d.pending.len() implies !d.claimed.contains_key(#[trigger] d.pending[i].job_id@) by {
            assert(d.pending[i] == v.pending[i + 1]);
            assert(v.pending[i + 1].job_id@ != head);
        }
        assert forall|i: int, j: int|
            0 <= i < d.pending.len() && 0 <= j < d.pending.len() && i != j
            implies d.pending[i].job_id@ != d.pending[j].job_id@ by {
            assert(d.pending[i] == v.pending[i + 1]);
            assert(d.pending[j] == v.pending[j + 1]);
        }
    }
    let a = v.acked(id);
    assert forall|i: int| 0 <= i < a.pending.len() implies !a.claimed.contains_key(#[trigger] a.pending[i].job_id@) by {
        assert(a.pending[i] == v.pending[i]);
    }
    if v.claimed.contains_key(id) {
        let n = v.nacked(id);
        let back = v.claimed[id].1.payload;
        assert(back.job_id@ == id);
        assert forall|i: int, j: int|
            0 <= i < n.pending.len() && 0 <= j < n.pending.len() && i != j
            implies n.pending[i].job_id@ != n.pending[j].job_id@ by {
            if i > 0 {
                assert(n.pending[i] == v.pending[i - 1]);
            }
            if j > 0 {
                assert(n.pending[j] == v.pending[j - 1]);
            }
        }
        assert forall|i: int| 0 <= i < n.pending.len() implies !n.claimed.contains_key(#[trigger] n.pending[i].job_id@) by {
            if i == 0 {
                assert(n.pending[0] == back);
            } else {
                assert(n.pending[i] == v.pending[i - 1]);
            }
        }
    }
}

} // verus!
