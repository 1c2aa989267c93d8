//! The stream producer loop's decision logic.
//!
//! One producer instance per subscription stamps the current clock reading
//! into an event, encodes it for the wire and pushes it into the bounded
//! event queue, forever.  The loop has exactly two states: it runs until
//! the first enqueue attempt is refused as disconnected, and then it is
//! terminated for good — a full queue only suspends it.  The suspension
//! itself and the transport live with the caller; everything decided here
//! is a pure function of the state and the enqueue outcome.

use vstd::prelude::*;

use crate::codec::TimeMessage;
use crate::codec::encode_event;
use crate::codec::message_encodes;
use crate::event::ClockReading;
use crate::event::TimestampedEvent;
use crate::event::build_event;
use crate::event::event_of_reading;
use crate::queue::EnqueueError;
use crate::queue::EventQueue;

verus! {

/// The producer loop's state: emitting events, or done for good.
#[derive(Clone, Copy, Debug, PartialEq, Eq, Structural)]
pub enum ProducerState {
    /// The loop keeps emitting events.
    Running,
    /// The consuming side is gone; the loop has ended and never resumes.
    Terminated,
}

/// The loop's sole transition: a running producer terminates exactly when
/// an enqueue attempt reports the consumer gone; a terminated producer
/// stays terminated.
pub open spec fn producer_next(s: ProducerState, disconnected: bool) -> ProducerState {
    match s {
        ProducerState::Running => if disconnected {
            ProducerState::Terminated
        } else {
            ProducerState::Running
        },
        ProducerState::Terminated => ProducerState::Terminated,
    }
}

/// Applies the producer's state transition for one enqueue outcome.
pub fn producer_step(s: ProducerState, disconnected: bool) -> (r: ProducerState)
    ensures
        r == producer_next(s, disconnected),
{
    match s {
        ProducerState::Running => if disconnected {
            ProducerState::Terminated
        } else {
            ProducerState::Running
        },
        ProducerState::Terminated => ProducerState::Terminated,
    }
}

/// What one producer iteration did with the queue.
#[derive(Clone, Copy, Debug, PartialEq, Eq, Structural)]
pub enum ProduceOutcome {
    /// The event was appended to the queue.
    Enqueued,
    /// The queue was full; nothing was added and the caller suspends
    /// before retrying.
    WouldBlock,
    /// The consuming side is gone; the loop terminated.
    Disconnected,
    /// The loop had already terminated; nothing happened.
    Idle,
}

/// The time-streaming producer service: one instance serves every
/// subscription, each with an isolated loop and queue.
#[derive(Default)]
pub struct MyTimeProducer {}

impl MyTimeProducer {
    /// Encodes the current clock reading as the wire message one loop
    /// iteration sends: the reading's second as decimal text, its
    /// (clamped) nanoseconds native.
    pub fn make_message(&self, reading: &ClockReading) -> (m: TimeMessage)
        requires
            reading.wf(),
        ensures
            message_encodes(m, event_of_reading(*reading)),
            crate::codec::canonical_decimal(m.seconds@, reading.seconds as int),
    {
        let e = build_event(reading);
        encode_event(&e)
    }

    /// One iteration of the producer loop against the bounded queue:
    /// stamps the reading into an event and attempts to enqueue it.  The
    /// loop terminates exactly when the queue reports the consumer gone;
    /// a full queue leaves it running with nothing enqueued (the caller
    /// suspends); otherwise the event joins the queue behind every
    /// pending one.
    pub fn produce_step(
        &self,
        state: ProducerState,
        q: &mut EventQueue,
        reading: &ClockReading,
    ) -> (r: (ProducerState, ProduceOutcome))
        requires
            old(q).wf(),
            reading.wf(),
        ensures
            final(q).wf(),
            final(q).is_closed() == old(q).is_closed(),
            state == ProducerState::Terminated ==> r == (
                ProducerState::Terminated,
                ProduceOutcome::Idle,
            ) && final(q).contents() == old(q).contents(),
            state == ProducerState::Running && old(q).is_closed() ==> r == (
                ProducerState::Terminated,
                ProduceOutcome::Disconnected,
            ) && final(q).contents() == old(q).contents(),
            state == ProducerState::Running && !old(q).is_closed() && old(q).contents().len()
                == 1024 ==> r == (ProducerState::Running, ProduceOutcome::WouldBlock)
                && final(q).contents() == old(q).contents(),
            state == ProducerState::Running && !old(q).is_closed() && old(q).contents().len()
                < 1024 ==> r == (ProducerState::Running, ProduceOutcome::Enqueued)
                && final(q).contents() == old(q).contents().push(event_of_reading(*reading)),
    {
        match state {
            ProducerState::Terminated => (ProducerState::Terminated, ProduceOutcome::Idle),
            ProducerState::Running => {
                let e = build_event(reading);
                match q.try_enqueue(e) {
                    Ok(()) => (ProducerState::Running, ProduceOutcome::Enqueued),
                    Err(EnqueueError::Full) => (
                        ProducerState::Running,
                        ProduceOutcome::WouldBlock,
                    ),
                    Err(EnqueueError::Disconnected) => (
                        ProducerState::Terminated,
                        ProduceOutcome::Disconnected,
                    ),
                }
            },
        }
    }
}

/// Disconnection ends the loop within one iteration: from any reachable
/// pair of states, one more transition on a disconnect signal is
/// terminated, and no later transition ever leaves that state.
pub proof fn lemma_disconnect_terminates(s: ProducerState, disconnected: bool)
    ensures
        producer_next(ProducerState::Running, true) == ProducerState::Terminated,
        producer_next(ProducerState::Terminated, disconnected) == ProducerState::Terminated,
{
}

} // verus!
