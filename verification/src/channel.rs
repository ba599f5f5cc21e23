//! The queue that carries snapshots from the sampling loop to its consumer.

use std::collections::VecDeque;
use vstd::prelude::*;

verus! {

/// What a queue holding `queue` holds after `items` were sent one by one.
pub open spec fn send_all<T>(queue: Seq<T>, items: Seq<T>) -> Seq<T>
    decreases items.len(),
{
    if items.len() == 0 {
        queue
    } else {
        send_all(queue.push(items[0]), items.drop_first())
    }
}

/// An unbounded first-in, first-out queue with one producer and one consumer.
/// Its view is what is waiting, oldest first. Sending never waits and
/// receiving never waits; a consumer that falls behind finds more waiting.
pub struct SnapshotQueue<T> {
    waiting: VecDeque<T>,
}

impl<T> View for SnapshotQueue<T> {
    type V = Seq<T>;

    closed spec fn view(&self) -> Seq<T> {
        self.waiting@
    }
}

impl<T> SnapshotQueue<T> {
    /// An empty queue.
    pub fn new() -> (q: Self)
        ensures
            q@ == Seq::<T>::empty(),
    {
        SnapshotQueue { waiting: VecDeque::new() }
    }

    /// How many items are waiting.
    pub fn len(&self) -> (n: usize)
        ensures
            n == self@.len(),
    {
        self.waiting.len()
    }

    /// Whether nothing is waiting.
    pub fn is_empty(&self) -> (b: bool)
        ensures
            b == (self@.len() == 0),
    {
        self.waiting.len() == 0
    }

    /// Puts `item` behind everything that is waiting.
    pub fn send(&mut self, item: T)
        ensures
            final(self)@ == old(self)@.push(item),
    {
        self.waiting.push_back(item);
    }

    /// Takes the oldest waiting item, if there is one.
    pub fn try_recv(&mut self) -> (item: Option<T>)
        ensures
            old(self)@.len() == 0 ==> item is None && final(self)@ == old(self)@,
            old(self)@.len() > 0 ==> item == Some(old(self)@[0]) && final(self)@ == old(
                self,
            )@.drop_first(),
    {
        let item = self.waiting.pop_front();
        proof {
            if old(self)@.len() > 0 {
                assert(self.waiting@ =~= old(self)@.drop_first());
            }
        }
        item
    }

    /// Takes everything that is waiting, oldest first, and leaves the queue
    /// empty.
    pub fn drain(&mut self) -> (items: Vec<T>)
        ensures
            items@ == old(self)@,
            final(self)@ == Seq::<T>::empty(),
    {
        let mut items: Vec<T> = Vec::new();
        loop
            invariant
                items@ + self@ == old(self)@,
            ensures
                self@.len() == 0,
            decreases self@.len(),
        {
            let ghost taken = items@;
            let ghost left = self@;
            match self.try_recv() {
                Some(item) => {
                    items.push(item);
                    assert(items@ + self@ =~= taken + left);
                },
                None => {
                    break ;
                },
            }
        }
        assert(items@ =~= items@ + self@);
        assert(self@ =~= Seq::<T>::empty());
        items
    }
}

/// Sending `items` one by one appends them, in that order, to what was
/// waiting.
pub proof fn lemma_send_all_appends<T>(queue: Seq<T>, items: Seq<T>)
    ensures
        send_all(queue, items) == queue + items,
    decreases items.len(),
{
    if items.len() == 0 {
        assert(queue + items =~= queue);
    } else {
        lemma_send_all_appends(queue.push(items[0]), items.drop_first());
        assert(queue.push(items[0]) + items.drop_first() =~= queue + items);
    }
}

/// Delivery is in order: a consumer that drains an empty queue after `items`
/// were sent receives exactly `items`, so whatever was sent earlier is seen
/// earlier, and nothing is lost, repeated or reordered.
pub proof fn lemma_delivery_in_order<T>(items: Seq<T>)
    ensures
        send_all(Seq::<T>::empty(), items) == items,
{
    lemma_send_all_appends(Seq::<T>::empty(), items);
    assert(Seq::<T>::empty() + items =~= items);
}

} // verus!
