//! The bounded event queue between the producer loop and the outbound
//! stream.
//!
//! The queue holds at most `QUEUE_CAPACITY` unconsumed events, in first-in
//! first-out order.  An enqueue against a full queue is refused without
//! dropping or reordering anything — the caller suspends and retries, which
//! is what throttles the producer to the consumer's drain rate.  Once the
//! consuming side is gone the queue is closed and every further enqueue is
//! refused as disconnected, which is the producer's sole termination
//! signal.

use std::collections::VecDeque;

use vstd::prelude::*;

use crate::event::TimestampedEvent;

verus! {

/// How many unconsumed events the queue may hold at once.
pub const QUEUE_CAPACITY: usize = 1024;

/// Why an enqueue attempt was refused.
#[derive(Clone, Copy, Debug, PartialEq, Eq, Structural)]
pub enum EnqueueError {
    /// The queue already holds `QUEUE_CAPACITY` events; nothing was added
    /// and nothing was lost.  The producer suspends until events drain.
    Full,
    /// The consuming side is gone; no event will ever drain again.  The
    /// producer terminates.
    Disconnected,
}

/// A fixed-capacity first-in first-out queue of events with a closed flag
/// raised when the consuming side goes away.
pub struct EventQueue {
    items: VecDeque<TimestampedEvent>,
    closed: bool,
}

impl EventQueue {
    /// The pending events, oldest first.
    pub closed spec fn contents(self) -> Seq<TimestampedEvent> {
        self.items@
    }

    /// Whether the consuming side is gone.
    pub closed spec fn is_closed(self) -> bool {
        self.closed
    }

    /// The queue's invariant: it never holds more than `QUEUE_CAPACITY`
    /// events.
    pub open spec fn wf(self) -> bool {
        self.contents().len() <= QUEUE_CAPACITY
    }

    /// A fresh queue: empty and open.
    pub fn new() -> (q: EventQueue)
        ensures
            q.wf(),
            q.contents() == Seq::<TimestampedEvent>::empty(),
            !q.is_closed(),
    {
        EventQueue { items: VecDeque::new(), closed: false }
    }

    /// How many events are pending.
    pub fn len(&self) -> (n: usize)
        ensures
            n == self.contents().len(),
    {
        self.items.len()
    }

    /// Attempts to enqueue one event.  On a closed queue the attempt is
    /// refused as disconnected; on a full queue it is refused as full; in
    /// both refusals the queue is left exactly as it was.  Otherwise the
    /// event is appended behind every pending one.
    pub fn try_enqueue(&mut self, e: TimestampedEvent) -> (r: Result<(), EnqueueError>)
        requires
            old(self).wf(),
        ensures
            final(self).wf(),
            final(self).is_closed() == old(self).is_closed(),
            old(self).is_closed() ==> r == Err::<(), EnqueueError>(EnqueueError::Disconnected)
                && final(self).contents() == old(self).contents(),
            !old(self).is_closed() && old(self).contents().len() == QUEUE_CAPACITY ==> r == Err::<
                (),
                EnqueueError,
            >(EnqueueError::Full) && final(self).contents() == old(self).contents(),
            !old(self).is_closed() && old(self).contents().len() < QUEUE_CAPACITY ==> r == Ok::<
                (),
                EnqueueError,
            >(()) && final(self).contents() == old(self).contents().push(e),
    {
        if self.closed {
            Err(EnqueueError::Disconnected)
        } else if self.items.len() == QUEUE_CAPACITY {
            Err(EnqueueError::Full)
        } else {
            self.items.push_back(e);
            Ok(())
        }
    }

    /// Removes and returns the oldest pending event, or nothing if the
    /// queue is empty.  Order is preserved: events leave exactly as they
    /// entered.
    pub fn dequeue(&mut self) -> (r: Option<TimestampedEvent>)
        requires
            old(self).wf(),
        ensures
            final(self).wf(),
            final(self).is_closed() == old(self).is_closed(),
            old(self).contents().len() == 0 ==> r is None && final(self).contents() == old(self).contents(),
            old(self).contents().len() > 0 ==> r == Some(old(self).contents()[0])
                && final(self).contents() == old(self).contents().skip(1),
    {
        let r = self.items.pop_front();
        proof {
            if old(self).contents().len() > 0 {
                assert(old(self).contents().subrange(1, old(self).contents().len() as int)
                    =~= old(self).contents().skip(1));
            }
        }
        r
    }

    /// Marks the consuming side as gone.  Pending events stay in place, but
    /// every later enqueue is refused as disconnected.
    pub fn close(&mut self)
        requires
            old(self).wf(),
        ensures
            final(self).wf(),
            final(self).is_closed(),
            final(self).contents() == old(self).contents(),
    {
        self.closed = true;
    }
}

/// The queue bound: a well-formed queue never holds more than 1024
/// unconsumed events.
pub proof fn lemma_queue_bounded(q: EventQueue)
    requires
        q.wf(),
    ensures
        q.contents().len() <= 1024,
{
}

} // verus!
