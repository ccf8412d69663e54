//! Per-request-id reply queues: replies that share a request id are sent one
//! at a time, in the order in which they were queued, each after the
//! previous one was acknowledged.

use vstd::prelude::*;
use vstd::string::*;

use crate::error::AiBotError;
use crate::text::{decimal_nat, str_equal, usize_to_decimal};

verus! {

/// The queues, in the order in which their request ids first appeared:
/// each a request id and the replies that wait under it.
pub type QueuesView<T> = Seq<(Seq<char>, Seq<T>)>;

/// No request id has two queues.
pub open spec fn keys_distinct<T>(v: QueuesView<T>) -> bool {
    forall|i: int, j: int| 0 <= i < v.len() && 0 <= j < v.len() && i != j ==> #[trigger] v[i].0 != #[trigger] v[j].0
}

/// A queue exists for the request id (a sender works on it).
pub open spec fn has_key<T>(v: QueuesView<T>, k: Seq<char>) -> bool {
    exists|i: int| 0 <= i < v.len() && #[trigger] v[i].0 == k
}

/// The position of the request id's queue.
pub open spec fn key_index<T>(v: QueuesView<T>, k: Seq<char>) -> int {
    choose|i: int| 0 <= i < v.len() && #[trigger] v[i].0 == k
}

/// The replies waiting under a request id (none when it has no queue).
pub open spec fn queue_of<T>(v: QueuesView<T>, k: Seq<char>) -> Seq<T> {
    if has_key(v, k) { v[key_index(v, k)].1 } else { Seq::empty() }
}

/// Queueing `item` under `k` with at most `max` waiting replies: `None` when
/// the queue is full, else whether a new sender must start for `k`.
pub open spec fn enqueue_step<T>(v: QueuesView<T>, k: Seq<char>, item: T, max: nat) -> (QueuesView<T>, Option<bool>) {
    if has_key(v, k) {
        let i = key_index(v, k);
        if v[i].1.len() >= max {
            (v, None)
        } else {
            (v.update(i, (k, v[i].1.push(item))), Some(false))
        }
    } else {
        (v.push((k, seq![item])), Some(true))
    }
}

/// Taking the next reply to send under `k`: the oldest one; when none
/// waits, the queue is removed and its sender stops.
pub open spec fn take_step<T>(v: QueuesView<T>, k: Seq<char>) -> (QueuesView<T>, Option<T>) {
    if has_key(v, k) {
        let i = key_index(v, k);
        if v[i].1.len() > 0 {
            (v.update(i, (k, v[i].1.drop_first())), Some(v[i].1[0]))
        } else {
            (v.remove(i), None)
        }
    } else {
        (v, None)
    }
}

/// All waiting replies, queue after queue.
pub open spec fn flatten_queues<T>(v: QueuesView<T>) -> Seq<T>
    decreases v.len(),
{
    if v.len() == 0 { Seq::empty() } else { v[0].1 + flatten_queues(v.drop_first()) }
}

/// Queueing `items` under `k` one after another: the queues afterwards and,
/// for each reply, whether a new sender had to start; `None` when a queue
/// was full.
pub open spec fn enqueue_all<T>(v: QueuesView<T>, k: Seq<char>, items: Seq<T>, max: nat) -> Option<(QueuesView<T>, Seq<bool>)>
    decreases items.len(),
{
    if items.len() == 0 {
        Some((v, Seq::empty()))
    } else {
        match enqueue_all(v, k, items.drop_last(), max) {
            Some((w, started)) => match enqueue_step(w, k, items.last(), max) {
                (w2, Some(b)) => Some((w2, started.push(b))),
                (_, None) => None,
            },
            None => None,
        }
    }
}

/// Taking from `k`'s queue `n` times: the queues afterwards and what each
/// take gave.
pub open spec fn take_times<T>(v: QueuesView<T>, k: Seq<char>, n: nat) -> (QueuesView<T>, Seq<Option<T>>)
    decreases n,
{
    if n == 0 {
        (v, Seq::empty())
    } else {
        let (w, r) = take_step(v, k);
        let (w2, rs) = take_times(w, k, (n - 1) as nat);
        (w2, seq![r] + rs)
    }
}

/// The message of the error for a full queue.
pub open spec fn queue_full_message(k: Seq<char>, max: nat) -> Seq<char> {
    "Reply queue for reqId "@ + k + " exceeds max size ("@ + decimal_nat(max) + ")"@
}

struct QueueEntry<T> {
    req_id: String,
    items: Vec<T>,
}

/// The reply queues of a connection, keyed by request id.
pub struct ReplyQueues<T> {
    entries: Vec<QueueEntry<T>>,
    max_size: usize,
}

impl<T> View for ReplyQueues<T> {
    type V = QueuesView<T>;

    closed spec fn view(&self) -> QueuesView<T> {
        Seq::new(self.entries@.len(), |i: int| (self.entries@[i].req_id@, self.entries@[i].items@))
    }
}

impl<T> ReplyQueues<T> {
    /// Most replies that may wait under one request id.
    pub closed spec fn capacity(&self) -> nat {
        self.max_size as nat
    }

    /// The queues' invariant: distinct request ids, no queue over capacity,
    /// and a positive capacity.
    pub open spec fn wf(&self) -> bool {
        &&& keys_distinct(self@)
        &&& forall|i: int| 0 <= i < self@.len() ==> (#[trigger] self@[i]).1.len() <= self.capacity()
        &&& self.capacity() > 0
    }

    /// No queues, with room for `max_size` replies per request id.
    pub fn new(max_size: usize) -> (q: Self)
        requires
            max_size > 0,
        ensures
            q.wf(),
            q@ == Seq::<(Seq<char>, Seq<T>)>::empty(),
            q.capacity() == max_size,
    {
        let q = ReplyQueues { entries: Vec::new(), max_size };
        assert(q@ =~= Seq::<(Seq<char>, Seq<T>)>::empty());
        q
    }

    /// Most replies that may wait under one request id.
    pub fn max_size(&self) -> (m: usize)
        ensures
            m == self.capacity(),
    {
        self.max_size
    }

    fn position(&self, req_id: &str) -> (r: Option<usize>)
        ensures
            match r {
                Some(i) => i < self@.len() && self@[i as int].0 == req_id@,
                None => !has_key(self@, req_id@),
            },
    {
        let mut i: usize = 0;
        while i < self.entries.len()
            invariant
                i <= self@.len(),
                self@.len() == self.entries@.len(),
                forall|j: int| 0 <= j < i ==> self@[j].0 != req_id@,
            decreases self.entries.len() - i,
        {
            if str_equal(self.entries[i].req_id.as_str(), req_id) {
                return Some(i);
            }
            i = i + 1;
        }
        None
    }

    /// Whether a queue (and so a sender) exists for the request id.
    pub fn is_active(&self, req_id: &str) -> (b: bool)
        ensures
            b == has_key(self@, req_id@),
    {
        self.position(req_id).is_some()
    }

    /// Queues a reply under its request id. `Ok(true)` when no sender worked
    /// on that request id, so one must be started; `Ok(false)` when one is
    /// at work; an error when the queue already holds `capacity()` replies.
    pub fn enqueue(&mut self, req_id: &str, item: T) -> (res: Result<bool, AiBotError>)
        requires
            old(self).wf(),
        ensures
            final(self).wf(),
            final(self).capacity() == old(self).capacity(),
            (final(self)@, match res {
                Ok(b) => Some(b),
                Err(_) => None,
            }) == enqueue_step(old(self)@, req_id@, item, old(self).capacity()),
            res is Err ==> (res matches Err(AiBotError::Internal(m)) && m@ == queue_full_message(
                req_id@,
                old(self).capacity(),
            )),
    {
        let ghost v = self@;
        match self.position(req_id) {
            Some(i) => {
                assert(has_key(v, req_id@));
                assert(key_index(v, req_id@) == i) by {
                    let j = key_index(v, req_id@);
                    assert(v[j].0 == req_id@);
                }
                if self.entries[i].items.len() >= self.max_size {
                    let mut msg = String::from_str("Reply queue for reqId ");
                    msg.append(req_id);
                    msg.append(" exceeds max size (");
                    let d = usize_to_decimal(self.max_size);
                    msg.append(d.as_str());
                    msg.append(")");
                    return Err(AiBotError::Internal(msg));
                }
                let mut e = self.entries.remove(i);
                e.items.push(item);
                self.entries.insert(i, e);
                assert(self@ =~= v.update(i as int, (req_id@, v[i as int].1.push(item))));
                Ok(false)
            },
            None => {
                let mut items = Vec::new();
                items.push(item);
                self.entries.push(QueueEntry { req_id: String::from_str(req_id), items });
                assert(self@ =~= v.push((req_id@, seq![item])));
                Ok(true)
            },
        }
    }

    /// Takes the oldest reply waiting under the request id; when none
    /// waits, removes the request id's queue and returns `None`.
    pub fn take_next(&mut self, req_id: &str) -> (r: Option<T>)
        requires
            old(self).wf(),
        ensures
            final(self).wf(),
            final(self).capacity() == old(self).capacity(),
            (final(self)@, r) == take_step(old(self)@, req_id@),
    {
        let ghost v = self@;
        match self.position(req_id) {
            Some(i) => {
                assert(key_index(v, req_id@) == i) by {
                    let j = key_index(v, req_id@);
                    assert(v[j].0 == req_id@);
                }
                let mut e = self.entries.remove(i);
                if e.items.len() > 0 {
                    let first = e.items.remove(0);
                    self.entries.insert(i, e);
                    assert(self@ =~= v.update(i as int, (req_id@, v[i as int].1.drop_first())));
                    Some(first)
                } else {
                    assert(self@ =~= v.remove(i as int));
                    None
                }
            },
            None => None,
        }
    }

    /// Empties every queue and hands back all waiting replies, queue after
    /// queue, each queue oldest first.
    pub fn clear(&mut self) -> (all: Vec<T>)
        requires
            old(self).wf(),
        ensures
            final(self).wf(),
            final(self).capacity() == old(self).capacity(),
            final(self)@ == Seq::<(Seq<char>, Seq<T>)>::empty(),
            all@ == flatten_queues(old(self)@),
    {
        let ghost v = self@;
        let mut entries: Vec<QueueEntry<T>> = Vec::new();
        std::mem::swap(&mut entries, &mut self.entries);
        let mut all: Vec<T> = Vec::new();
        let ghost mut rest = v;
        while entries.len() > 0
            invariant
                rest == Seq::new(entries@.len(), |i: int| (entries@[i].req_id@, entries@[i].items@)),
                all@ + flatten_queues(rest) == flatten_queues(v),
            decreases entries.len(),
        {
            let e = entries.remove(0);
            let mut items = e.items;
            let ghost head = rest[0].1;
            let ghost tail = rest.drop_first();
            assert(flatten_queues(rest) == head + flatten_queues(tail));
            assert(items@ == head);
            while items.len() > 0
                invariant
                    all@ + items@ + flatten_queues(tail) == flatten_queues(v),
                decreases items.len(),
            {
                let ghost before = items@;
                let x = items.remove(0);
                all.push(x);
                assert(all@ + items@ =~= (all@.drop_last() + before));
            }
            proof {
                rest = tail;
                assert(rest =~= Seq::new(entries@.len(), |i: int| (entries@[i].req_id@, entries@[i].items@)));
                assert(all@ + flatten_queues(rest) =~= flatten_queues(v));
            }
        }
        assert(flatten_queues(rest) =~= Seq::<T>::empty());
        assert(all@ =~= flatten_queues(v));
        assert(self@ =~= Seq::<(Seq<char>, Seq<T>)>::empty());
        all
    }
}

// ---------------------------------------------------------------------
// Laws

proof fn lemma_key_index_at<T>(v: QueuesView<T>, k: Seq<char>, i: int)
    requires
        keys_distinct(v),
        0 <= i < v.len(),
        v[i].0 == k,
    ensures
        has_key(v, k),
        key_index(v, k) == i,
{
    assert(has_key(v, k));
    let j = key_index(v, k);
    assert(v[j].0 == k);
}

/// A queued reply joins the end of its request id's queue; every other
/// request id's queue stays as it was, and request ids stay distinct.
pub proof fn lemma_enqueue_appends<T>(v: QueuesView<T>, k: Seq<char>, x: T, max: nat, other: Seq<char>)
    requires
        keys_distinct(v),
        enqueue_step(v, k, x, max).1 is Some,
    ensures
        keys_distinct(enqueue_step(v, k, x, max).0),
        queue_of(enqueue_step(v, k, x, max).0, k) == queue_of(v, k).push(x),
        other != k ==> queue_of(enqueue_step(v, k, x, max).0, other) == queue_of(v, other),
{
    let w = enqueue_step(v, k, x, max).0;
    if has_key(v, k) {
        let i = key_index(v, k);
        assert(w == v.update(i, (k, v[i].1.push(x))));
        assert(keys_distinct(w)) by {
            assert forall|a: int, b: int| 0 <= a < w.len() && 0 <= b < w.len() && a != b implies #[trigger] w[a].0 != #[trigger] w[b].0 by {
                assert(w[a].0 == v[a].0);
                assert(w[b].0 == v[b].0);
            }
        }
        lemma_key_index_at(w, k, i);
        if other != k {
            if has_key(v, other) {
                let j = key_index(v, other);
                assert(w[j].0 == other);
                lemma_key_index_at(w, other, j);
            } else {
                assert(!has_key(w, other)) by {
                    if has_key(w, other) {
                        let j = key_index(w, other);
                        assert(v[j].0 == other);
                    }
                }
            }
        }
    } else {
        assert(w == v.push((k, seq![x])));
        assert(keys_distinct(w)) by {
            assert forall|a: int, b: int| 0 <= a < w.len() && 0 <= b < w.len() && a != b implies #[trigger] w[a].0 != #[trigger] w[b].0 by {
                if a == v.len() {
                    assert(!(v[b].0 == k));
                } else if b == v.len() {
                    assert(!(v[a].0 == k));
                }
            }
        }
        lemma_key_index_at(w, k, v.len() as int);
        assert(queue_of(v, k) == Seq::<T>::empty());
        assert(seq![x] =~= Seq::<T>::empty().push(x));
        if other != k {
            if has_key(v, other) {
                let j = key_index(v, other);
                assert(w[j].0 == other);
                lemma_key_index_at(w, other, j);
            } else {
                assert(!has_key(w, other)) by {
                    if has_key(w, other) {
                        let j = key_index(w, other);
                        if j < v.len() {
                            assert(v[j].0 == other);
                        }
                    }
                }
            }
        }
    }
}

/// Taking from a request id's queue gives its oldest reply and leaves the
/// rest in order (or, when it was empty, gives nothing and leaves no queue);
/// every other request id's queue stays as it was.
pub proof fn lemma_take_pops_oldest<T>(v: QueuesView<T>, k: Seq<char>, other: Seq<char>)
    requires
        keys_distinct(v),
    ensures
        keys_distinct(take_step(v, k).0),
        take_step(v, k).1 == if queue_of(v, k).len() > 0 {
            Some(queue_of(v, k)[0])
        } else {
            None::<T>
        },
        queue_of(take_step(v, k).0, k) == if queue_of(v, k).len() > 0 {
            queue_of(v, k).drop_first()
        } else {
            Seq::<T>::empty()
        },
        take_step(v, k).1 is None ==> !has_key(take_step(v, k).0, k),
        other != k ==> queue_of(take_step(v, k).0, other) == queue_of(v, other),
{
    let w = take_step(v, k).0;
    if has_key(v, k) {
        let i = key_index(v, k);
        if v[i].1.len() > 0 {
            assert(keys_distinct(w)) by {
                assert forall|a: int, b: int| 0 <= a < w.len() && 0 <= b < w.len() && a != b implies #[trigger] w[a].0 != #[trigger] w[b].0 by {
                    assert(w[a].0 == v[a].0);
                    assert(w[b].0 == v[b].0);
                }
            }
            lemma_key_index_at(w, k, i);
            if other != k && has_key(v, other) {
                let j = key_index(v, other);
                assert(w[j].0 == other);
                lemma_key_index_at(w, other, j);
            } else if other != k {
                assert(!has_key(w, other)) by {
                    if has_key(w, other) {
                        let j = key_index(w, other);
                        assert(v[j].0 == other);
                    }
                }
            }
        } else {
            assert(w == v.remove(i));
            assert(keys_distinct(w)) by {
                assert forall|a: int, b: int| 0 <= a < w.len() && 0 <= b < w.len() && a != b implies #[trigger] w[a].0 != #[trigger] w[b].0 by {
                    let a2 = if a < i { a } else { a + 1 };
                    let b2 = if b < i { b } else { b + 1 };
                    assert(w[a].0 == v[a2].0);
                    assert(w[b].0 == v[b2].0);
                }
            }
            assert(!has_key(w, k)) by {
                if has_key(w, k) {
                    let j = key_index(w, k);
                    let j2 = if j < i { j } else { j + 1 };
                    assert(w[j] == v[j2]);
                }
            }
            if other != k && has_key(v, other) {
                let j = key_index(v, other);
                let j1 = if j < i { j } else { j - 1 };
                assert(w[j1] == v[j]);
                lemma_key_index_at(w, other, j1);
            } else if other != k {
                assert(!has_key(w, other)) by {
                    if has_key(w, other) {
                        let j = key_index(w, other);
                        let j2 = if j < i { j } else { j + 1 };
                        assert(w[j] == v[j2]);
                    }
                }
            }
        }
    }
}

/// A sender is started for a request id exactly when none works on it.
pub proof fn lemma_sender_started_once<T>(v: QueuesView<T>, k: Seq<char>, x: T, max: nat)
    ensures
        (enqueue_step(v, k, x, max).1 == Some(true)) == !has_key(v, k),
        has_key(v, k) && queue_of(v, k).len() < max ==> enqueue_step(v, k, x, max).1 == Some(false),
        has_key(v, k) && queue_of(v, k).len() >= max ==> enqueue_step(v, k, x, max).1 is None,
{
}

proof fn lemma_queue_of_nonempty<T>(v: QueuesView<T>, k: Seq<char>)
    requires
        queue_of(v, k).len() > 0,
    ensures
        has_key(v, k),
{
}

/// Queueing replies one after another, with room for all of them, puts them
/// at the end of the request id's queue in order; only the first may start
/// a sender, and it does when no queue existed.
pub proof fn lemma_enqueue_all_appends<T>(v: QueuesView<T>, k: Seq<char>, items: Seq<T>, max: nat)
    requires
        keys_distinct(v),
        queue_of(v, k).len() + items.len() <= max,
    ensures
        enqueue_all(v, k, items, max) is Some,
        ({
            let (w, started) = enqueue_all(v, k, items, max)->0;
            &&& keys_distinct(w)
            &&& queue_of(w, k) == queue_of(v, k) + items
            &&& started.len() == items.len()
            &&& items.len() > 0 ==> started[0] == !has_key(v, k)
            &&& forall|i: int| 0 < i < started.len() ==> !#[trigger] started[i]
        }),
    decreases items.len(),
{
    if items.len() == 0 {
        assert(queue_of(v, k) + items =~= queue_of(v, k));
    } else {
        let init = items.drop_last();
        let x = items.last();
        lemma_enqueue_all_appends(v, k, init, max);
        let (w0, started0) = enqueue_all(v, k, init, max)->0;
        lemma_enqueue_appends(w0, k, x, max, k);
        lemma_sender_started_once(w0, k, x, max);
        if init.len() > 0 {
            lemma_queue_of_nonempty(w0, k);
        } else {
            assert(w0 == v);
        }
        let (w, started) = enqueue_all(v, k, items, max)->0;
        assert(started == started0.push(!has_key(w0, k)));
        assert(queue_of(w, k) =~= queue_of(v, k) + items);
    }
}

/// Taking from a request id's queue one more time than it holds replies
/// gives them oldest first and then nothing, after which the request id has
/// no queue; every other request id's queue stays as it was.
pub proof fn lemma_take_times_drains<T>(v: QueuesView<T>, k: Seq<char>, other: Seq<char>)
    requires
        keys_distinct(v),
    ensures
        ({
            let q = queue_of(v, k);
            let (w, got) = take_times(v, k, q.len() + 1);
            &&& got == Seq::new(q.len(), |i: int| Some(q[i])).push(None)
            &&& !has_key(w, k)
            &&& other != k ==> queue_of(w, other) == queue_of(v, other)
        }),
    decreases queue_of(v, k).len(),
{
    let q = queue_of(v, k);
    lemma_take_pops_oldest(v, k, other);
    let (v1, r) = take_step(v, k);
    if q.len() == 0 {
        assert(take_times(v1, k, 0nat) == (v1, Seq::<Option<T>>::empty()));
        assert(take_times(v, k, 1nat).1 =~= seq![None::<T>]);
        assert(Seq::new(0nat, |i: int| Some(q[i])).push(None) =~= seq![None::<T>]);
    } else {
        lemma_take_pops_oldest(v, k, k);
        lemma_take_times_drains(v1, k, other);
        let q1 = queue_of(v1, k);
        assert(q1 == q.drop_first());
        let (w, got1) = take_times(v1, k, q1.len() + 1);
        assert((q.len() + 1 - 1) as nat == q1.len() + 1);
        assert(take_times(v, k, q.len() + 1) == (w, seq![r] + got1));
        assert(seq![r] + got1 =~= Seq::new(q.len(), |i: int| Some(q[i])).push(None));
    }
}

/// Replies queued under a request id that had no queue, as many as the
/// capacity allows, are all accepted; the first starts the one sender and
/// the others join its queue; the sender then takes them in the order in
/// which they were queued, after which the queue is gone.
pub proof fn lemma_replies_in_queue_order<T>(v: QueuesView<T>, k: Seq<char>, items: Seq<T>, max: nat)
    requires
        keys_distinct(v),
        !has_key(v, k),
        items.len() <= max,
    ensures
        enqueue_all(v, k, items, max) is Some,
        ({
            let (w, started) = enqueue_all(v, k, items, max)->0;
            let (u, got) = take_times(w, k, items.len() + 1);
            &&& started == Seq::new(items.len(), |i: int| i == 0)
            &&& got == Seq::new(items.len(), |i: int| Some(items[i])).push(None)
            &&& !has_key(u, k)
        }),
{
    assert(queue_of(v, k) == Seq::<T>::empty());
    lemma_enqueue_all_appends(v, k, items, max);
    let (w, started) = enqueue_all(v, k, items, max)->0;
    assert(queue_of(w, k) =~= items);
    assert(started =~= Seq::new(items.len(), |i: int| i == 0));
    lemma_take_times_drains(w, k, k);
}

/// No queue ever holds more replies than the capacity.
pub proof fn lemma_capacity_respected<T>(q: ReplyQueues<T>, k: Seq<char>)
    requires
        q.wf(),
    ensures
        queue_of(q@, k).len() <= q.capacity(),
{
    if has_key(q@, k) {
        let i = key_index(q@, k);
        assert(q@[i].1.len() <= q.capacity());
    }
}

} // verus!
