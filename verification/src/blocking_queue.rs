use vstd::prelude::*;
use std::collections::VecDeque;

verus! {

/// A FIFO queue of pending work items: the storage core of the task channel.
///
/// This is the sequential heart of the channel described in the pool design:
/// items leave in exactly the order they entered, no item is duplicated and
/// none is dropped. The blocking shell that shares one queue among many
/// producer and consumer threads (a mutex plus a condition variable) is glue
/// around this type and adds no queueing logic of its own.
pub struct BlockingQueue<T> {
    deque: VecDeque<T>,
}

impl<T> View for BlockingQueue<T> {
    type V = Seq<T>;

    closed spec fn view(&self) -> Seq<T> {
        self.deque@
    }
}

impl<T> BlockingQueue<T> {
    /// Create an empty queue.
    pub fn new() -> (queue: Self)
        ensures
            queue@ == Seq::<T>::empty(),
    {
        BlockingQueue { deque: VecDeque::new() }
    }

    /// Number of items currently queued.
    pub fn len(&self) -> (n: usize)
        ensures
            n == self@.len(),
    {
        self.deque.len()
    }

    /// True exactly when no item is queued.
    pub fn is_empty(&self) -> (empty: bool)
        ensures
            empty <==> self@.len() == 0,
    {
        self.deque.len() == 0
    }

    /// Insert `data` at the tail.
    pub fn push(&mut self, data: T)
        ensures
            final(self)@ == old(self)@.push(data),
    {
        self.deque.push_back(data);
    }

    /// Remove and return the head item: the oldest one still queued.
    pub fn pop(&mut self) -> (data: T)
        requires
            old(self)@.len() > 0,
        ensures
            data == old(self)@[0],
            final(self)@ == old(self)@.subrange(1, old(self)@.len() as int),
    {
        self.deque.pop_front().unwrap()
    }

    /// Remove every queued item and hand all of them back, oldest first.
    ///
    /// This is the teardown obligation in miniature: whoever stops the queue
    /// receives every item that was accepted before the stop, in submission
    /// order, and the queue is empty afterwards.
    pub fn drain(&mut self) -> (items: Vec<T>)
        ensures
            items@ == old(self)@,
            final(self)@ == Seq::<T>::empty(),
    {
        let mut items: Vec<T> = Vec::new();
        while !self.is_empty()
            invariant
                old(self)@ == items@ + self@,
            decreases self@.len(),
        {
            let head = self.pop();
            items.push(head);
        }
        items
    }
}

impl<T> Default for BlockingQueue<T> {
    fn default() -> (queue: Self)
        ensures
            queue@ == Seq::<T>::empty(),
    {
        BlockingQueue::new()
    }
}

/// Submitting a task queues exactly one new pending execution of that task and
/// leaves the pending count of every other task unchanged. Together with
/// `drain` and `pop`, which deliver the queued items exactly, this is the
/// exactly-once guarantee: a task submitted once is executed once.
pub proof fn lemma_submit_exactly_once<T>(pending: Seq<T>, task: T)
    ensures
        pending.push(task).to_multiset().count(task) == pending.to_multiset().count(task) + 1,
        forall|other: T|
            other != task ==> pending.push(task).to_multiset().count(other)
                == pending.to_multiset().count(other),
{
    pending.to_multiset_ensures();
    assert(pending.push(task).to_multiset() =~= pending.to_multiset().insert(task));
    vstd::multiset::lemma_insert_increases_count_by_1(pending.to_multiset(), task);
    assert forall|other: T| other != task
        implies pending.push(task).to_multiset().count(other)
            == pending.to_multiset().count(other) by {
        vstd::multiset::lemma_insert_other_elements_unchanged(
            pending.to_multiset(),
            task,
            other,
        );
    }
}

} // verus!
