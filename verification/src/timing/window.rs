//! A bounded first-in first-out record.

use std::collections::VecDeque;
use vstd::prelude::*;

verus! {

/// What a record that holds at most `capacity` items holds once `value` has
/// arrived at `items`: the new item goes to the back, and the items that no
/// longer fit leave from the front.
pub open spec fn push_bounded<T>(items: Seq<T>, value: T, capacity: nat) -> Seq<T> {
    keep_last(items.push(value), capacity)
}

/// The last `count` items of `items` in their order, or all of them where
/// there are fewer.
pub open spec fn keep_last<T>(items: Seq<T>, count: nat) -> Seq<T> {
    if items.len() <= count {
        items
    } else {
        items.subrange(items.len() - count, items.len() as int)
    }
}

/// What a record holds once the items of `values` have arrived one after the
/// other, the first of them first.
pub open spec fn push_all<T>(items: Seq<T>, values: Seq<T>, capacity: nat) -> Seq<T>
    decreases values.len(),
{
    if values.len() == 0 {
        items
    } else {
        push_bounded(push_all(items, values.drop_last(), capacity), values.last(), capacity)
    }
}

/// Dropping old items early changes nothing: what is kept of a record after
/// an arrival is the same whether or not items that no longer fit had
/// already left it.
proof fn lemma_keep_last_absorbs<T>(items: Seq<T>, value: T, capacity: nat)
    ensures
        push_bounded(keep_last(items, capacity), value, capacity) == keep_last(
            items.push(value),
            capacity,
        ),
{
}

/// First in, first out: after any run of arrivals the record holds the most
/// recent `capacity` items of everything it was given, in the order in which
/// they came, and all of them where they are fewer. So `capacity + 1` arrivals
/// at an empty record leave all but the first.
pub proof fn lemma_fifo_keeps_most_recent<T>(items: Seq<T>, values: Seq<T>, capacity: nat)
    requires
        items.len() <= capacity,
    ensures
        push_all(items, values, capacity) == keep_last(items + values, capacity),
        push_all(items, values, capacity).len() <= capacity,
    decreases values.len(),
{
    if values.len() == 0 {
    } else {
        let earlier = values.drop_last();
        lemma_fifo_keeps_most_recent(items, earlier, capacity);
        lemma_keep_last_absorbs(items + earlier, values.last(), capacity);
    }
}

/// A record of the most recent items in the order of their arrival. It never
/// holds more than `CAPACITY` items: an item that arrives at a full record
/// displaces the oldest one.
#[derive(Debug)]
pub struct BoundedFifo<T, const CAPACITY: usize> {
    items: VecDeque<T>,
}

impl<T: Clone, const CAPACITY: usize> Clone for BoundedFifo<T, CAPACITY> {
    /// A record of as many items, each the clone of the one in its place.
    fn clone(&self) -> (copy: Self)
        ensures
            copy@.len() == self@.len(),
            forall|i: int| 0 <= i < self@.len() ==> cloned::<T>(#[trigger] self@[i], copy@[i]),
    {
        proof {
            use_type_invariant(self);
        }
        BoundedFifo { items: self.items.clone() }
    }
}

impl<T, const CAPACITY: usize> View for BoundedFifo<T, CAPACITY> {
    type V = Seq<T>;

    closed spec fn view(&self) -> Seq<T> {
        self.items@
    }
}

impl<T, const CAPACITY: usize> BoundedFifo<T, CAPACITY> {
    /// What holds of every record: it is not over its capacity.
    #[verifier::type_invariant]
    pub open spec fn fits(self) -> bool {
        self@.len() <= CAPACITY
    }

    /// An empty record.
    pub fn new() -> (fifo: Self)
        ensures
            fifo@ == Seq::<T>::empty(),
    {
        BoundedFifo { items: VecDeque::new() }
    }

    /// The largest number of items that the record holds at a time.
    pub fn capacity(&self) -> (capacity: usize)
        ensures
            capacity == CAPACITY,
    {
        CAPACITY
    }

    /// The number of items held, never more than the capacity.
    pub fn len(&self) -> (len: usize)
        ensures
            len == self@.len(),
            len <= CAPACITY,
    {
        proof {
            use_type_invariant(self);
        }
        self.items.len()
    }

    /// Whether the record holds nothing.
    pub fn is_empty(&self) -> (empty: bool)
        ensures
            empty == (self@.len() == 0),
    {
        self.items.len() == 0
    }

    /// The item at `index`, counted from the oldest, which is at 0.
    pub fn get(&self, index: usize) -> (item: Option<&T>)
        ensures
            index < self@.len() ==> item == Some(&self@[index as int]),
            index >= self@.len() ==> item.is_none(),
    {
        if index < self.items.len() {
            Some(&self.items[index])
        } else {
            None
        }
    }

    /// Records `value` as the most recent item. Where the record is full the
    /// oldest item leaves first, so the order of arrival is kept.
    pub fn push(&mut self, value: T)
        ensures
            final(self)@ == push_bounded(old(self)@, value, CAPACITY as nat),
            final(self)@.len() <= CAPACITY,
    {
        proof {
            use_type_invariant(&*self);
        }
        if CAPACITY > 0 {
            // The queue is filled outside the record and then put back, so
            // that the record is never seen holding more than it may.
            let mut items = VecDeque::new();
            core::mem::swap(&mut self.items, &mut items);
            if items.len() == CAPACITY {
                let _ = items.pop_front();
            }
            items.push_back(value);
            core::mem::swap(&mut self.items, &mut items);
        }
    }
}

} // verus!
