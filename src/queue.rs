use vstd::prelude::*;

use std::collections::VecDeque;

verus! {

/// The unbounded first-in first-out queue that carries work from the
/// submitters to the workers. Its view is the sequence of waiting items,
/// oldest first.
pub struct WorkQueue<T> {
    items: VecDeque<T>,
}

impl<T> View for WorkQueue<T> {
    type V = Seq<T>;

    closed spec fn view(&self) -> Seq<T> {
        self.items@
    }
}

/// The queue `q` after each item of `s` has been submitted, in order.
pub open spec fn submit_all<T>(q: Seq<T>, s: Seq<T>) -> Seq<T>
    decreases s.len(),
{
    if s.len() == 0 {
        q
    } else {
        submit_all(q.push(s[0]), s.drop_first())
    }
}

/// What `k` successive takes from `q` hand out, in the order they happen.
pub open spec fn taken<T>(q: Seq<T>, k: nat) -> Seq<T>
    decreases k,
{
    if k == 0 || q.len() == 0 {
        Seq::empty()
    } else {
        seq![q[0]] + taken(q.drop_first(), (k - 1) as nat)
    }
}

/// The queue `q` after `k` successive takes.
pub open spec fn after_takes<T>(q: Seq<T>, k: nat) -> Seq<T>
    decreases k,
{
    if k == 0 || q.len() == 0 {
        q
    } else {
        after_takes(q.drop_first(), (k - 1) as nat)
    }
}

/// What one take from `q` hands out: its oldest item, if there is one.
pub open spec fn take_result<T>(q: Seq<T>) -> Option<T> {
    if q.len() == 0 {
        None
    } else {
        Some(q[0])
    }
}

impl<T> WorkQueue<T> {
    /// An empty queue.
    pub fn new() -> (r: WorkQueue<T>)
        ensures
            r@ == Seq::<T>::empty(),
    {
        WorkQueue { items: VecDeque::new() }
    }

    /// Adds `item` behind everything already waiting. Never refuses.
    pub fn submit(&mut self, item: T)
        ensures
            final(self)@ == old(self)@.push(item),
    {
        self.items.push_back(item);
    }

    /// Removes and returns the oldest waiting item; `None` exactly when
    /// nothing is waiting, in which case the queue is unchanged.
    pub fn take(&mut self) -> (r: Option<T>)
        ensures
            r == take_result(old(self)@),
            final(self)@ == after_takes(old(self)@, 1),
    {
        let r = self.items.pop_front();
        proof {
            if old(self)@.len() > 0 {
                assert(after_takes(old(self)@.drop_first(), 0) == old(self)@.drop_first());
                assert(self@ =~= old(self)@.drop_first());
            }
        }
        r
    }

    /// The number of waiting items.
    pub fn len(&self) -> (r: usize)
        ensures
            r == self@.len(),
    {
        self.items.len()
    }

    /// Whether nothing is waiting.
    pub fn is_empty(&self) -> (r: bool)
        ensures
            r <==> self@.len() == 0,
    {
        self.items.len() == 0
    }
}

/// Submitting a sequence appends it, in order, behind what was waiting.
pub proof fn lemma_submit_all_appends<T>(q: Seq<T>, s: Seq<T>)
    ensures
        submit_all(q, s) == q + s,
    decreases s.len(),
{
    if s.len() == 0 {
        assert(q + s =~= q);
    } else {
        lemma_submit_all_appends(q.push(s[0]), s.drop_first());
        assert(q.push(s[0]) + s.drop_first() =~= q + s);
    }
}

/// Taking `k` items from a queue that holds at least `k` hands out its first
/// `k` items, oldest first, and leaves the rest.
pub proof fn lemma_takes_prefix<T>(q: Seq<T>, k: nat)
    requires
        k <= q.len(),
    ensures
        taken(q, k) == q.take(k as int),
        after_takes(q, k) == q.skip(k as int),
    decreases k,
{
    if k == 0 {
        assert(q.take(0) =~= Seq::<T>::empty());
        assert(q.skip(0) =~= q);
    } else {
        lemma_takes_prefix(q.drop_first(), (k - 1) as nat);
        assert(seq![q[0]] + q.drop_first().take(k - 1) =~= q.take(k as int));
        assert(q.drop_first().skip(k - 1) =~= q.skip(k as int));
    }
}

/// Every submitted job is handed out exactly once, and in the order of
/// submission: after jobs `s` are submitted to an empty queue, `s.len()`
/// takes, by whichever workers, hand out exactly `s`, and nothing is left.
pub proof fn lemma_each_job_taken_once_in_order<T>(s: Seq<T>)
    ensures
        taken(submit_all(Seq::empty(), s), s.len()) == s,
        after_takes(submit_all(Seq::empty(), s), s.len()) == Seq::<T>::empty(),
{
    lemma_submit_all_appends(Seq::empty(), s);
    assert(Seq::<T>::empty() + s =~= s);
    lemma_takes_prefix(s, s.len());
    assert(s.take(s.len() as int) =~= s);
    assert(s.skip(s.len() as int) =~= Seq::<T>::empty());
}

/// A job submitted before another is handed out before it: if `a` is
/// submitted before `b`, the take that hands out `a` comes first.
pub proof fn lemma_dequeue_order<T>(s: Seq<T>, i: int, j: int)
    requires
        0 <= i < j < s.len(),
    ensures
        take_result(after_takes(submit_all(Seq::empty(), s), i as nat)) == Some(s[i]),
        take_result(after_takes(submit_all(Seq::empty(), s), j as nat)) == Some(s[j]),
{
    lemma_submit_all_appends(Seq::empty(), s);
    assert(Seq::<T>::empty() + s =~= s);
    lemma_takes_prefix(s, i as nat);
    lemma_takes_prefix(s, j as nat);
}

/// No job waits while a worker is idle: when `n` jobs are submitted and `n`
/// idle workers each take once, every take finds a job (none of them would
/// have to wait), and afterwards no job is left waiting.
pub proof fn lemma_no_lost_wakeup<T>(s: Seq<T>)
    ensures
        forall|i: int|
            0 <= i < s.len() ==> #[trigger] take_result(
                after_takes(submit_all(Seq::empty(), s), i as nat),
            ) is Some,
        after_takes(submit_all(Seq::empty(), s), s.len()).len() == 0,
{
    lemma_each_job_taken_once_in_order(s);
    assert forall|i: int| 0 <= i < s.len() implies #[trigger] take_result(
        after_takes(submit_all(Seq::empty(), s), i as nat),
    ) is Some by {
        lemma_submit_all_appends(Seq::empty(), s);
        assert(Seq::<T>::empty() + s =~= s);
        lemma_takes_prefix(s, i as nat);
    }
}

} // verus!
