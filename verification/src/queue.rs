//! A first-in, first-out message queue.

use vstd::prelude::*;
use std::collections::VecDeque;

verus! {

/// The message that leaves next: the one at the front, or none where
/// nothing waits.
pub open spec fn front<T>(waiting: Seq<T>) -> Option<T> {
    if waiting.len() == 0 {
        None
    } else {
        Some(waiting[0])
    }
}

/// What waits after the front message has left. Nothing waits after nothing.
pub open spec fn rest<T>(waiting: Seq<T>) -> Seq<T> {
    if waiting.len() == 0 {
        waiting
    } else {
        waiting.drop_first()
    }
}

/// A simple FIFO message queue: messages leave in the order they came.
pub struct MessageQueue<T> {
    queue: VecDeque<T>,
}

impl<T> View for MessageQueue<T> {
    type V = Seq<T>;

    /// The waiting messages, the next to leave first.
    closed spec fn view(&self) -> Seq<T> {
        self.queue@
    }
}

impl<T> MessageQueue<T> {
    /// Creates an empty queue.
    pub fn new() -> (r: Self)
        ensures
            r@ == Seq::<T>::empty(),
    {
        MessageQueue { queue: VecDeque::new() }
    }

    /// Adds a message at the back of the queue.
    pub fn enqueue(&mut self, msg: T)
        ensures
            final(self)@ == old(self)@.push(msg),
    {
        self.queue.push_back(msg);
    }

    /// Removes and returns the message at the front. An empty queue gives
    /// `None` and stays empty.
    pub fn dequeue(&mut self) -> (r: Option<T>)
        ensures
            r == front(old(self)@),
            final(self)@ == rest(old(self)@),
            r.is_none() <==> old(self)@.len() == 0,
    {
        self.queue.pop_front()
    }

    /// The number of waiting messages.
    pub fn len(&self) -> (n: usize)
        ensures
            n == self@.len(),
    {
        self.queue.len()
    }
}

/// Messages leave in the order in which they came: a message that joins an
/// empty queue is the next to leave, and one that joins a queue in which
/// others wait leaves after them, the front staying what it was.
pub proof fn lemma_dequeue_order_is_enqueue_order<T>(waiting: Seq<T>, msg: T)
    ensures
        waiting.len() == 0 ==> front(waiting.push(msg)) == Some(msg) && rest(waiting.push(msg))
            == Seq::<T>::empty(),
        waiting.len() > 0 ==> front(waiting.push(msg)) == front(waiting) && rest(
            waiting.push(msg),
        ) == rest(waiting).push(msg),
        rest(waiting.push(msg)).len() == waiting.len(),
{
}

} // verus!
