use crate::error::CodecError;
use std::collections::VecDeque;
use vstd::prelude::*;

verus! {

/// Outputs that an engine has produced and its caller has not yet taken,
/// oldest first.
#[derive(Debug)]
pub struct PendingQueue<T> {
    items: VecDeque<T>,
}

impl<T> View for PendingQueue<T> {
    type V = Seq<T>;

    closed spec fn view(&self) -> Seq<T> {
        self.items@
    }
}

/// What taking the oldest entry of `queue` gives, and what it leaves.
pub open spec fn spec_pop<T>(queue: Seq<T>) -> (Seq<T>, Result<T, CodecError>) {
    if queue.len() > 0 {
        (queue.subrange(1, queue.len() as int), Ok(queue[0]))
    } else {
        (queue, Err(CodecError::Again))
    }
}

/// What is left of `queue` after `count` takes.
pub open spec fn spec_drained<T>(queue: Seq<T>, count: nat) -> Seq<T>
    decreases count,
{
    if count == 0 {
        queue
    } else {
        spec_drained(spec_pop(queue).0, (count - 1) as nat)
    }
}

impl<T> PendingQueue<T> {
    /// An empty queue with room for `capacity` entries.
    pub fn with_capacity(capacity: usize) -> (queue: Self)
        ensures
            queue@ == Seq::<T>::empty(),
    {
        PendingQueue { items: VecDeque::with_capacity(capacity) }
    }

    pub fn len(&self) -> (n: usize)
        ensures
            n == self@.len(),
    {
        self.items.len()
    }

    pub fn is_empty(&self) -> (b: bool)
        ensures
            b == (self@.len() == 0),
    {
        self.items.len() == 0
    }

    /// Appends `item` behind everything already queued.
    pub fn push(&mut self, item: T)
        ensures
            final(self)@ == old(self)@.push(item),
    {
        self.items.push_back(item);
    }

    /// Takes the oldest entry, or reports `Again` and leaves the queue as it
    /// is when there is none.
    pub fn pop(&mut self) -> (r: Result<T, CodecError>)
        ensures
            (final(self)@, r) == spec_pop(old(self)@),
    {
        match self.items.pop_front() {
            Some(item) => Ok(item),
            None => Err(CodecError::Again),
        }
    }
}

/// Taking from an empty queue reports `Again` and changes nothing, however
/// often it is tried.
pub proof fn law_empty_queue_says_again<T>(count: nat)
    ensures
        spec_drained(Seq::<T>::empty(), count) == Seq::<T>::empty(),
        spec_pop(spec_drained(Seq::<T>::empty(), count)).1 == Err::<T, CodecError>(
            CodecError::Again,
        ),
    decreases count,
{
    if count > 0 {
        law_empty_queue_says_again::<T>((count - 1) as nat);
    }
}

/// A queue hands its entries out in the order they were pushed, each one
/// once: after `count` takes the next take gives entry `count`, and once
/// every entry is gone each further take reports `Again`.
pub proof fn law_each_entry_once<T>(queue: Seq<T>, count: nat)
    ensures
        count <= queue.len() ==> spec_drained(queue, count) == queue.subrange(
            count as int,
            queue.len() as int,
        ),
        count < queue.len() ==> spec_pop(spec_drained(queue, count)).1 == Ok::<T, CodecError>(
            queue[count as int],
        ),
        count >= queue.len() ==> spec_drained(queue, count) == Seq::<T>::empty(),
        count >= queue.len() ==> spec_pop(spec_drained(queue, count)).1 == Err::<T, CodecError>(
            CodecError::Again,
        ),
    decreases count,
{
    if queue.len() == 0 {
        assert(queue == Seq::<T>::empty());
        law_empty_queue_says_again::<T>(count);
    } else if count == 0 {
        assert(queue.subrange(0, queue.len() as int) == queue);
    } else {
        let rest = queue.subrange(1, queue.len() as int);
        law_each_entry_once(rest, (count - 1) as nat);
        if count <= queue.len() {
            assert(rest.subrange(count - 1, rest.len() as int) == queue.subrange(
                count as int,
                queue.len() as int,
            ));
        }
    }
}

/// What was pushed last comes out last: pushing onto a queue and draining
/// what was there before leaves exactly the new entry.
pub proof fn law_push_then_drain<T>(queue: Seq<T>, item: T)
    ensures
        spec_drained(queue.push(item), queue.len()) == seq![item],
        spec_pop(spec_drained(queue.push(item), queue.len())) == (
            Seq::<T>::empty(),
            Ok::<T, CodecError>(item),
        ),
{
    let pushed = queue.push(item);
    law_each_entry_once(pushed, queue.len());
    assert(pushed.subrange(queue.len() as int, pushed.len() as int) == seq![item]);
    assert(seq![item].subrange(1, 1) == Seq::<T>::empty());
}

} // verus!
