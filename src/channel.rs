//! The capacity-one slot between the producer and the copy step.
//!
//! A send into an occupied slot is refused and hands its item back: the caller
//! waits and sends again, which is the backpressure of the pipeline. Nothing is
//! dropped and nothing queues behind the slot.
use vstd::prelude::*;

verus! {

/// What became of a send.
pub enum SendOutcome<T> {
    /// The slot took the item.
    Delivered,
    /// The slot holds an undelivered item; this one is handed back.
    Full(T),
    /// The stream has ended; this one is handed back.
    Closed(T),
}

/// What a non-blocking receive found.
pub enum Receive<T> {
    Frame(T),
    /// Nothing is waiting, and the stream goes on.
    Empty,
    /// Nothing is waiting, and nothing more will come.
    EndOfStream,
}

/// A single-producer, single-consumer slot that holds at most one item.
pub struct FrameSlot<T> {
    item: Option<T>,
    closed: bool,
}

/// A send is taken exactly when the stream goes on and the slot is free.
pub open spec fn accepts<T>(held: Option<T>, closed: bool) -> bool {
    !closed && held is None
}

/// What the slot holds after the sends of `items`, with no receive between them.
pub open spec fn held_after_sends<T>(held: Option<T>, closed: bool, items: Seq<T>) -> Option<T>
    decreases items.len(),
{
    if items.len() == 0 {
        held
    } else {
        let next = if accepts(held, closed) { Some(items[0]) } else { held };
        held_after_sends(next, closed, items.drop_first())
    }
}

/// How many of the sends of `items` are taken, with no receive between them.
pub open spec fn deliveries<T>(held: Option<T>, closed: bool, items: Seq<T>) -> nat
    decreases items.len(),
{
    if items.len() == 0 {
        0
    } else {
        let next = if accepts(held, closed) { Some(items[0]) } else { held };
        (if accepts(held, closed) { 1nat } else { 0nat }) + deliveries(next, closed, items.drop_first())
    }
}

impl<T> FrameSlot<T> {
    /// The undelivered item, if any.
    pub closed spec fn held(&self) -> Option<T> {
        self.item
    }

    /// The producer has signalled the end of the stream.
    pub closed spec fn is_closed(&self) -> bool {
        self.closed
    }

    pub fn new() -> (r: FrameSlot<T>)
        ensures
            r.held() is None,
            !r.is_closed(),
    {
        FrameSlot { item: None, closed: false }
    }

    /// Offers an item without waiting.
    pub fn try_send(&mut self, item: T) -> (r: SendOutcome<T>)
        ensures
            final(self).is_closed() == old(self).is_closed(),
            accepts(old(self).held(), old(self).is_closed()) ==> {
                &&& r is Delivered
                &&& final(self).held() == Some(item)
            },
            !accepts(old(self).held(), old(self).is_closed()) ==> {
                &&& final(self).held() == old(self).held()
                &&& old(self).is_closed() ==> r == SendOutcome::Closed(item)
                &&& !old(self).is_closed() ==> r == SendOutcome::Full(item)
            },
    {
        if self.closed {
            SendOutcome::Closed(item)
        } else if self.item.is_some() {
            SendOutcome::Full(item)
        } else {
            self.item = Some(item);
            SendOutcome::Delivered
        }
    }

    /// Takes the waiting item, if any, without waiting. An item sent before the
    /// end of the stream is still delivered.
    pub fn try_receive(&mut self) -> (r: Receive<T>)
        ensures
            final(self).held() is None,
            final(self).is_closed() == old(self).is_closed(),
            old(self).held() matches Some(x) ==> r == Receive::Frame(x),
            old(self).held() is None && old(self).is_closed() ==> r is EndOfStream,
            old(self).held() is None && !old(self).is_closed() ==> r is Empty,
    {
        match self.item.take() {
            Some(x) => Receive::Frame(x),
            None => if self.closed {
                Receive::EndOfStream
            } else {
                Receive::Empty
            },
        }
    }

    /// Signals the end of the stream. A waiting item stays.
    pub fn close(&mut self)
        ensures
            final(self).is_closed(),
            final(self).held() == old(self).held(),
    {
        self.closed = true;
    }

    pub fn has_item(&self) -> (r: bool)
        ensures
            r == self.held() is Some,
    {
        self.item.is_some()
    }

    pub fn closed(&self) -> (r: bool)
        ensures
            r == self.is_closed(),
    {
        self.closed
    }
}

/// With no receive in between, a run of sends is taken at most once: when the
/// slot already holds an item every send is refused and the item stays; when
/// it is free and open, the first send is taken and every later one refused.
pub proof fn lemma_sends_without_receive<T>(held: Option<T>, closed: bool, items: Seq<T>)
    ensures
        deliveries(held, closed, items) <= 1,
        held is Some ==> deliveries(held, closed, items) == 0 && held_after_sends(held, closed, items) == held,
        closed ==> deliveries(held, closed, items) == 0 && held_after_sends(held, closed, items) == held,
        (held is None && !closed && items.len() > 0) ==> {
            &&& deliveries(held, closed, items) == 1
            &&& held_after_sends(held, closed, items) == Some(items[0])
        },
    decreases items.len(),
{
    if items.len() > 0 {
        let next = if accepts(held, closed) { Some(items[0]) } else { held };
        lemma_sends_without_receive(next, closed, items.drop_first());
    }
}

} // verus!
