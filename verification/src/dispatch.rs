//! The hand-off path for reset signals in the queued design: a bounded
//! first-in-first-out queue of capacity [`MAX_QUEUE_SIZE`]. Producers send
//! without blocking — a signal offered to a full queue is dropped, never
//! waited on, so an interrupt-context producer always runs to completion —
//! and the renderer drains it one signal per tick.

use crate::state::AppResetMessage;
use vstd::prelude::*;

verus! {

/// Capacity of the reset-signal queue.
pub const MAX_QUEUE_SIZE: usize = 5;

/// A bounded queue of reset signals, drained by a single consumer.
pub struct ResetQueue {
    items: Vec<AppResetMessage>,
}

impl View for ResetQueue {
    type V = Seq<AppResetMessage>;

    closed spec fn view(&self) -> Seq<AppResetMessage> {
        self.items@
    }
}

impl ResetQueue {
    /// The queue never holds more than its capacity.
    #[verifier::type_invariant]
    spec fn bounded(self) -> bool {
        self.items@.len() <= MAX_QUEUE_SIZE
    }

    /// An empty queue.
    pub fn new() -> (q: ResetQueue)
        ensures
            q@ == Seq::<AppResetMessage>::empty(),
    {
        ResetQueue { items: Vec::new() }
    }

    /// How many signals are waiting.
    pub fn len(&self) -> (n: usize)
        ensures
            n == self@.len(),
    {
        self.items.len()
    }

    /// Offers one signal without blocking: appended when there is room,
    /// dropped (and reported so) when the queue is full. A dropped reset is
    /// recoverable on the next button or motion event; blocking the producer
    /// would not be.
    pub fn try_send(&mut self, message: AppResetMessage) -> (accepted: bool)
        ensures
            old(self)@.len() < MAX_QUEUE_SIZE ==> {
                &&& accepted
                &&& final(self)@ == old(self)@.push(message)
            },
            old(self)@.len() >= MAX_QUEUE_SIZE ==> {
                &&& !accepted
                &&& final(self)@ == old(self)@
            },
    {
        proof {
            use_type_invariant(&*self);
        }
        if self.items.len() < MAX_QUEUE_SIZE {
            let mut items: Vec<AppResetMessage> = Vec::new();
            core::mem::swap(&mut items, &mut self.items);
            items.push(message);
            core::mem::swap(&mut items, &mut self.items);
            true
        } else {
            false
        }
    }

    /// Takes the oldest waiting signal, if any: signals apply in arrival
    /// order.
    pub fn try_receive(&mut self) -> (received: Option<AppResetMessage>)
        ensures
            old(self)@.len() == 0 ==> {
                &&& received is None
                &&& final(self)@ == old(self)@
            },
            old(self)@.len() > 0 ==> {
                &&& received == Some(old(self)@[0])
                &&& final(self)@ == old(self)@.remove(0)
            },
    {
        proof {
            use_type_invariant(&*self);
        }
        if self.items.len() == 0 {
            None
        } else {
            let mut items: Vec<AppResetMessage> = Vec::new();
            core::mem::swap(&mut items, &mut self.items);
            let first = items.remove(0);
            core::mem::swap(&mut items, &mut self.items);
            Some(first)
        }
    }
}

} // verus!
