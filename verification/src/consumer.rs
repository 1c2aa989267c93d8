//! The stream consumer loop's decision logic.
//!
//! The consumer receives a stream of wire timestamps (or transport
//! errors), reports each event's latency against its own wall clock the
//! moment it arrives, and reports how many events the last one-second
//! window held.  Everything decided per item is a pure function of the
//! counter state, the clock reading at receipt and the item itself; the
//! awaiting and the printing stay with the caller.

use vstd::prelude::*;

use crate::codec::DecodeError;
use crate::codec::WireTimestamp;
use crate::codec::decode;
use crate::codec::decode_spec;
use crate::event::ClockReading;
use crate::event::reading_ms;
use crate::event::reading_ms_spec;
use crate::event::reconstruct_ms;
use crate::event::reconstruct_ms_spec;

verus! {

/// Milliseconds-since-epoch values that a clock reading or a valid event
/// can denote; every counter window start stays in this range.
pub open spec fn ms_in_range(m: int) -> bool {
    -9_223_372_036_854_775_808_000 <= m <= 9_223_372_036_854_775_808_999
}

/// A mid-stream transport fault, as reported by the transport layer.
#[derive(Clone, Debug)]
pub struct StreamError {
    pub message: String,
}

/// One event's latency: the consumer's wall clock at receipt minus the
/// event's reconstructed send time.  Negative when the producer's clock
/// runs ahead of the consumer's; reported as-is, since clock skew is a
/// measurement artifact and not an error.
#[derive(Clone, Copy, Debug, PartialEq, Eq, Structural)]
pub struct LatencySample {
    pub latency_ms: i128,
}

/// The consumer's rolling one-second throughput window: how many events
/// arrived since the window opened, and when it opened.
#[derive(Clone, Copy, Debug, PartialEq, Eq, Structural)]
pub struct ThroughputCounter {
    pub count: u64,
    pub window_start_ms: i128,
}

impl ThroughputCounter {
    /// The window start is a millisecond value some clock reading denoted.
    pub open spec fn wf(self) -> bool {
        ms_in_range(self.window_start_ms as int)
    }

    /// Opens the first window at consumer start: zero events counted, the
    /// window starting now.
    pub fn new(now: &ClockReading) -> (c: ThroughputCounter)
        requires
            now.wf(),
        ensures
            c.wf(),
            c.count == 0,
            c.window_start_ms == reading_ms_spec(*now),
    {
        proof {
            lemma_reading_ms_in_range(*now);
        }
        ThroughputCounter { count: 0, window_start_ms: reading_ms(now) }
    }
}

/// Why the consumer loop stopped.
#[derive(Clone, Debug)]
pub enum ConsumerError {
    /// The transport reported a mid-stream fault.
    Transport(StreamError),
    /// An item's timestamp could not be decoded; a malformed field fails
    /// the item loudly instead of being read as zero or skipped.
    Decode(DecodeError),
}

/// What the consumer does with one stream item.
#[derive(Clone, Debug)]
pub enum ConsumerAction {
    /// The item was an event: report its latency at once, and, when the
    /// one-second boundary has passed, also report the closed window's
    /// count.
    Report { sample: LatencySample, window: Option<u64> },
    /// The item failed; report the error and end the loop.
    Fail(ConsumerError),
}

/// The count the next window starts from once an event is processed:
/// exactly zero when the event closes a one-second window, the running
/// count plus this event otherwise.
pub open spec fn next_window_count(count: nat, window_start_ms: int, now_ms: int) -> nat {
    if now_ms - window_start_ms >= 1000 {
        0
    } else {
        count + 1
    }
}

/// What the event's arrival reports about throughput: the closed window's
/// count, the closing event included, once a full second has passed since
/// the window opened; nothing before that.
pub open spec fn window_report(count: nat, window_start_ms: int, now_ms: int) -> Option<nat> {
    if now_ms - window_start_ms >= 1000 {
        Some((count + 1) as nat)
    } else {
        None
    }
}

/// The throughput window law, with no bound on the count: immediately
/// after every one-second report the counter restarts at exactly zero,
/// and every reported count is the closed window's event count — at least
/// one, never negative.
pub proof fn lemma_window_reset(count: nat, window_start_ms: int, now_ms: int)
    ensures
        window_report(count, window_start_ms, now_ms) is Some ==> next_window_count(
            count,
            window_start_ms,
            now_ms,
        ) == 0,
        window_report(count, window_start_ms, now_ms) matches Some(n) ==> n == count + 1 && n
            >= 1,
{
}

/// A reading's millisecond value stays in the range the counter invariant
/// names.
pub proof fn lemma_reading_ms_in_range(r: ClockReading)
    requires
        r.wf(),
    ensures
        ms_in_range(reading_ms_spec(r)),
{
    vstd::arithmetic::div_mod::lemma_div_pos_is_pos(r.nanos as int, 1_000_000);
    vstd::arithmetic::div_mod::lemma_div_is_ordered(r.nanos as int, 1_999_999_999, 1_000_000);
    assert(1_999_999_999int / 1_000_000 == 1999);
}

/// Processes one stream item, in arrival order.
///
/// A transport error or an undecodable timestamp ends the loop with the
/// counter untouched.  An event is counted and its latency reported
/// immediately, one report per event; then, if a full second has passed
/// since the window opened, the window's count (this event included) is
/// reported and a fresh window opens at the current reading with the
/// count reset to zero.
pub fn consumer_step(
    counter: ThroughputCounter,
    now: &ClockReading,
    item: Result<WireTimestamp, StreamError>,
) -> (r: (ThroughputCounter, ConsumerAction))
    requires
        counter.wf(),
        now.wf(),
        counter.count < u64::MAX,
    ensures
        r.0.wf(),
        ({
            let now_ms = reading_ms_spec(*now);
            match item {
                Err(e) => r.0 == counter && r.1 == ConsumerAction::Fail(
                    ConsumerError::Transport(e),
                ),
                Ok(w) => match decode_spec(w) {
                    Err(d) => r.0 == counter && r.1 == ConsumerAction::Fail(
                        ConsumerError::Decode(d),
                    ),
                    Ok(ev) => {
                        let lat = now_ms - reconstruct_ms_spec(ev);
                        let cnt = counter.count as nat;
                        let ws = counter.window_start_ms as int;
                        &&& r.0.count == next_window_count(cnt, ws, now_ms)
                        &&& r.0.window_start_ms == if window_report(cnt, ws, now_ms) is Some {
                            now_ms
                        } else {
                            counter.window_start_ms as int
                        }
                        &&& r.1 == (ConsumerAction::Report {
                            sample: LatencySample { latency_ms: lat as i128 },
                            window: match window_report(cnt, ws, now_ms) {
                                Some(n) => Some(n as u64),
                                None => None,
                            },
                        })
                    },
                },
            }
        }),
{
    match item {
        Err(e) => (counter, ConsumerAction::Fail(ConsumerError::Transport(e))),
        Ok(w) => {
            match decode(&w) {
                Err(d) => (counter, ConsumerAction::Fail(ConsumerError::Decode(d))),
                Ok(ev) => {
                    proof {
                        lemma_reading_ms_in_range(*now);
                        vstd::arithmetic::div_mod::lemma_div_pos_is_pos(ev.nanos as int, 1_000_000);
                        vstd::arithmetic::div_mod::lemma_div_is_ordered(
                            ev.nanos as int,
                            999_999_999,
                            1_000_000,
                        );
                        assert(999_999_999int / 1_000_000 == 999);
                    }
                    let now_ms: i128 = reading_ms(now);
                    let event_ms: i128 = reconstruct_ms(&ev);
                    let latency_ms: i128 = now_ms - event_ms;
                    let sample = LatencySample { latency_ms };
                    let count = counter.count + 1;
                    if now_ms - counter.window_start_ms >= 1000 {
                        (
                            ThroughputCounter { count: 0, window_start_ms: now_ms },
                            ConsumerAction::Report { sample, window: Some(count) },
                        )
                    } else {
                        (
                            ThroughputCounter { count, window_start_ms: counter.window_start_ms },
                            ConsumerAction::Report { sample, window: None },
                        )
                    }
                },
            }
        },
    }
}

} // verus!
