//! Fixed-capacity FIFO that evicts its oldest element on overflow.

use std::collections::vec_deque::Iter;
use std::collections::VecDeque;
use vstd::std_specs::iter::IteratorSpec;
use vstd::prelude::*;

verus! {

/// The most elements a buffer made with `capacity` ever holds: a push always
/// stores its element, so a buffer made with capacity zero still holds one.
pub open spec fn ring_limit(capacity: nat) -> nat {
    if capacity == 0 {
        1
    } else {
        capacity
    }
}

/// Contents after pushing `item` onto `contents` in a buffer made with `capacity`.
pub open spec fn ring_push<T>(contents: Seq<T>, capacity: nat, item: T) -> Seq<T> {
    if contents.len() >= capacity && contents.len() > 0 {
        contents.drop_first().push(item)
    } else {
        contents.push(item)
    }
}

/// Contents after pushing every element of `items`, in order, starting from `contents`.
pub open spec fn ring_push_all<T>(contents: Seq<T>, capacity: nat, items: Seq<T>) -> Seq<T>
    decreases items.len(),
{
    if items.len() == 0 {
        contents
    } else {
        ring_push(ring_push_all(contents, capacity, items.drop_last()), capacity, items.last())
    }
}

/// The last `count` elements of `items`, or all of them if there are fewer.
pub open spec fn last_n<T>(items: Seq<T>, count: nat) -> Seq<T> {
    if items.len() <= count {
        items
    } else {
        items.subrange(items.len() - count, items.len() as int)
    }
}

/// A fixed-capacity FIFO buffer: once full, each push drops the oldest element.
#[derive(Debug)]
pub struct RingBuffer<T> {
    items: VecDeque<T>,
    capacity: usize,
}

impl<T> View for RingBuffer<T> {
    type V = Seq<T>;

    /// The buffered elements, oldest first.
    closed spec fn view(&self) -> Seq<T> {
        self.items@
    }
}

impl<T> RingBuffer<T> {
    #[verifier::type_invariant]
    spec fn bounded(self) -> bool {
        self.items@.len() <= ring_limit(self.capacity as nat)
    }

    /// The capacity the buffer was made with.
    pub closed spec fn capacity(&self) -> nat {
        self.capacity as nat
    }

    /// An empty buffer that keeps the `capacity` most recent elements.
    pub fn new(capacity: usize) -> (buffer: Self)
        ensures
            buffer@ == Seq::<T>::empty(),
            buffer.capacity() == capacity,
    {
        RingBuffer { items: VecDeque::new(), capacity }
    }

    /// Appends `item`, dropping the oldest element first if the buffer is full.
    pub fn push(&mut self, item: T)
        ensures
            final(self)@ == ring_push(old(self)@, old(self).capacity(), item),
            final(self).capacity() == old(self).capacity(),
    {
        proof {
            use_type_invariant(&*self);
        }
        let mut items = VecDeque::new();
        std::mem::swap(&mut items, &mut self.items);
        if items.len() >= self.capacity {
            let _ = items.pop_front();
        }
        items.push_back(item);
        self.items = items;
    }

    /// Walks the buffer front to back, oldest element first.
    pub fn iter(&self) -> (items: Iter<'_, T>)
        ensures
            items.remaining() == self@.as_ref(),
            IteratorSpec::decrease(&items) is Some,
            IteratorSpec::initial_value_relation(&items, &items),
    {
        self.items.iter()
    }

    /// The element at `index`, counted from the oldest.
    pub fn get(&self, index: usize) -> (item: Option<&T>)
        ensures
            item == if index < self@.len() {
                Some(&self@[index as int])
            } else {
                None
            },
    {
        if index < self.items.len() {
            Some(&self.items[index])
        } else {
            None
        }
    }

    /// How many elements are buffered.
    pub fn len(&self) -> (len: usize)
        ensures
            len == self@.len(),
            len <= ring_limit(self.capacity()),
    {
        proof {
            use_type_invariant(self);
        }
        self.items.len()
    }

    /// Whether nothing is buffered.
    pub fn is_empty(&self) -> (empty: bool)
        ensures
            empty == (self@.len() == 0),
    {
        self.items.len() == 0
    }

    /// Drops every element; the capacity stays.
    pub fn clear(&mut self)
        ensures
            final(self)@ == Seq::<T>::empty(),
            final(self).capacity() == old(self).capacity(),
    {
        let mut items = VecDeque::new();
        std::mem::swap(&mut items, &mut self.items);
        items.clear();
        self.items = items;
    }
}

impl<T: Clone> Clone for RingBuffer<T> {
    /// A buffer of the same capacity that holds a copy of every element, in
    /// the same order.
    fn clone(&self) -> (copy: Self)
        ensures
            copy.capacity() == self.capacity(),
            copy@.len() == self@.len(),
            forall|i: int| 0 <= i < self@.len() ==> cloned::<T>(#[trigger] self@[i], copy@[i]),
    {
        proof {
            use_type_invariant(self);
        }
        RingBuffer { items: self.items.clone(), capacity: self.capacity }
    }
}

/// After any number of pushes into an empty buffer of capacity at least one,
/// the buffer holds the most recent pushes, as many as fit, in the order they
/// were made.
pub proof fn lemma_ring_keeps_latest<T>(capacity: nat, items: Seq<T>)
    requires
        capacity >= 1,
    ensures
        ring_push_all(Seq::<T>::empty(), capacity, items) == last_n(items, capacity),
    decreases items.len(),
{
    if items.len() > 0 {
        let earlier = items.drop_last();
        lemma_ring_keeps_latest(capacity, earlier);
        assert(ring_push(last_n(earlier, capacity), capacity, items.last()) =~= last_n(
            items,
            capacity,
        ));
    } else {
        assert(last_n(items, capacity) =~= Seq::<T>::empty());
    }
}

/// A push never leaves more in the buffer than its limit, if there was no
/// more before.
pub proof fn lemma_ring_push_bounded<T>(contents: Seq<T>, capacity: nat, item: T)
    requires
        contents.len() <= ring_limit(capacity),
    ensures
        ring_push(contents, capacity, item).len() <= ring_limit(capacity),
{
}

} // verus!
