//! Timestamped events and the wall clock they are stamped from.
//!
//! A `TimestampedEvent` is an absolute point in time as a `(seconds, nanos)`
//! pair with `0 <= nanos < 1_000_000_000`.  A `ClockReading` is what the wall
//! clock hands back; during a leap second its nanosecond part may reach up to
//! (but not including) two billion, so building an event from a reading clamps
//! the nanoseconds into the event's invariant range.

use vstd::prelude::*;

verus! {

/// Nanoseconds per second; an event's `nanos` field stays strictly below this.
pub const NANOS_PER_SEC: u32 = 1_000_000_000;

/// An absolute point in time: seconds since the Unix epoch plus a
/// sub-second nanosecond offset.
#[derive(Clone, Copy, Debug, PartialEq, Eq, Structural)]
pub struct TimestampedEvent {
    pub seconds: i64,
    pub nanos: i32,
}

impl TimestampedEvent {
    /// The invariant every event holds: the nanosecond part names a
    /// sub-second offset.
    pub open spec fn valid(self) -> bool {
        0 <= self.nanos < 1_000_000_000
    }
}

/// The event's time in milliseconds since the Unix epoch, truncated to
/// millisecond resolution.
pub open spec fn reconstruct_ms_spec(e: TimestampedEvent) -> int {
    e.seconds * 1000 + e.nanos / 1_000_000
}

/// Converts an event to milliseconds since the Unix epoch, truncating the
/// sub-millisecond remainder.
pub fn reconstruct_ms(e: &TimestampedEvent) -> (r: i128)
    requires
        e.valid(),
    ensures
        r == reconstruct_ms_spec(*e),
{
    (e.seconds as i128) * 1000 + (e.nanos as i128) / 1_000_000
}

/// A raw wall-clock reading: non-leap seconds since the Unix epoch and the
/// nanoseconds since the last second boundary.  In the event of a leap
/// second the nanosecond part may exceed 999 999 999 but stays below
/// 2 000 000 000.
#[derive(Clone, Copy, Debug, PartialEq, Eq, Structural)]
pub struct ClockReading {
    pub seconds: i64,
    pub nanos: u32,
}

impl ClockReading {
    /// What every reading handed out by the clock satisfies.
    pub open spec fn wf(self) -> bool {
        self.nanos < 2_000_000_000
    }
}

/// The reading's time in milliseconds since the Unix epoch, truncated.
pub open spec fn reading_ms_spec(r: ClockReading) -> int {
    r.seconds * 1000 + r.nanos / 1_000_000
}

/// Converts a clock reading to milliseconds since the Unix epoch.
pub fn reading_ms(r: &ClockReading) -> (m: i128)
    requires
        r.wf(),
    ensures
        m == reading_ms_spec(*r),
{
    (r.seconds as i128) * 1000 + (r.nanos as i128) / 1_000_000
}

/// The event a clock reading is stamped into: the same second, with the
/// nanosecond part clamped into the event invariant's range (a leap-second
/// reading is pinned to the last representable nanosecond of its second).
pub open spec fn event_of_reading(r: ClockReading) -> TimestampedEvent {
    TimestampedEvent {
        seconds: r.seconds,
        nanos: if r.nanos < 1_000_000_000 { r.nanos as i32 } else { 999_999_999i32 },
    }
}

/// Builds the event for one producer iteration from the current clock
/// reading.
pub fn build_event(r: &ClockReading) -> (e: TimestampedEvent)
    requires
        r.wf(),
    ensures
        e == event_of_reading(*r),
        e.valid(),
{
    let nanos: i32 = if r.nanos < NANOS_PER_SEC {
        r.nanos as i32
    } else {
        999_999_999
    };
    TimestampedEvent { seconds: r.seconds, nanos }
}

#[verifier::external_type_specification]
#[verifier::external_body]
pub struct ExSystemTime(std::time::SystemTime);

#[verifier::external_type_specification]
#[verifier::external_body]
pub struct ExSystemTimeError(std::time::SystemTimeError);

/// Relies on `std::time::SystemTime::now`: the current wall clock, which
/// may lie before the Unix epoch if the host clock is set so.  Nothing
/// relates two readings: the wall clock may step in either direction.
#[verifier::external_body]
fn system_time_now() -> (t: std::time::SystemTime) {
    std::time::SystemTime::now()
}

/// Relies on `std::time::SystemTime::duration_since`: measured against the
/// Unix epoch it returns the time since the epoch, or, for a clock set
/// before the epoch, an error carrying how far before.  It never panics:
/// both directions are ordinary returns.
#[verifier::external_body]
fn duration_since_epoch(t: &std::time::SystemTime) -> (r: Result<
    core::time::Duration,
    std::time::SystemTimeError,
>) {
    t.duration_since(std::time::UNIX_EPOCH)
}

/// Relies on `std::time::SystemTimeError::duration`: how far the measured
/// time lies before its reference point.
#[verifier::external_body]
fn clock_error_duration(e: &std::time::SystemTimeError) -> (d: core::time::Duration) {
    e.duration()
}

/// Relies on `core::time::Duration::as_secs`: the duration's whole
/// seconds, the fractional part truncated away.
#[verifier::external_body]
fn duration_whole_seconds(d: &core::time::Duration) -> (s: u64) {
    d.as_secs()
}

/// Relies on `core::time::Duration::subsec_nanos`: the fractional part of
/// the duration in nanoseconds, documented to lie strictly below one
/// billion.
#[verifier::external_body]
fn duration_subsec_nanos(d: &core::time::Duration) -> (n: u32)
    ensures
        n < 1_000_000_000,
{
    d.subsec_nanos()
}

/// The reading for a clock at or after the epoch: `secs` whole seconds
/// plus `sub` nanoseconds past it.  An instant beyond what sixty-four
/// signed bits of seconds can hold — hundreds of billions of years out —
/// is pinned to the largest representable reading.
pub fn reading_after_epoch(secs: u64, sub: u32) -> (r: ClockReading)
    requires
        sub < 1_000_000_000,
    ensures
        r.wf(),
        r.nanos < 1_000_000_000,
        secs <= i64::MAX as u64 ==> r.seconds == secs as i64 && r.nanos == sub,
        secs > i64::MAX as u64 ==> r.seconds == i64::MAX && r.nanos == 999_999_999,
{
    if secs > i64::MAX as u64 {
        ClockReading { seconds: i64::MAX, nanos: 999_999_999 }
    } else {
        ClockReading { seconds: secs as i64, nanos: sub }
    }
}

/// The reading for a clock before the epoch: the instant `secs` whole
/// seconds plus `sub` nanoseconds before it.  A whole-second distance
/// negates exactly; with a fractional part the instant falls inside the
/// second below `-secs`, so a second is borrowed and the nanoseconds
/// count up from its start.  An instant below what the seconds field can
/// hold is pinned to the smallest representable reading.
pub fn reading_before_epoch(secs: u64, sub: u32) -> (r: ClockReading)
    requires
        sub < 1_000_000_000,
    ensures
        r.wf(),
        r.nanos < 1_000_000_000,
        sub == 0 && secs <= 9_223_372_036_854_775_808u64 ==> r.seconds as int == -(secs as int)
            && r.nanos == 0,
        sub == 0 && secs > 9_223_372_036_854_775_808u64 ==> r.seconds == i64::MIN && r.nanos == 0,
        sub > 0 && secs <= i64::MAX as u64 ==> r.seconds as int == -(secs as int) - 1
            && r.nanos as int == 1_000_000_000 - sub,
        sub > 0 && secs > i64::MAX as u64 ==> r.seconds == i64::MIN && r.nanos == 0,
{
    if sub == 0 {
        if secs >= 9_223_372_036_854_775_808 {
            ClockReading { seconds: i64::MIN, nanos: 0 }
        } else {
            ClockReading { seconds: -(secs as i64), nanos: 0 }
        }
    } else {
        if secs > i64::MAX as u64 {
            ClockReading { seconds: i64::MIN, nanos: 0 }
        } else {
            ClockReading { seconds: -(secs as i64) - 1, nanos: 1_000_000_000 - sub }
        }
    }
}

/// Reads the wall clock as seconds since the Unix epoch plus nanoseconds
/// since the last second boundary.  Total for every host clock state: a
/// clock before the epoch gives negative seconds, and an unrepresentable
/// instant is pinned to the nearest representable reading — the exact
/// conversions are the contracts of `reading_after_epoch` and
/// `reading_before_epoch`.  Nothing relates the reading to a clock value,
/// which Verus cannot see.
pub fn clock_now() -> (r: ClockReading)
    ensures
        r.wf(),
        r.nanos < 1_000_000_000,
{
    let t = system_time_now();
    match duration_since_epoch(&t) {
        Ok(d) => reading_after_epoch(duration_whole_seconds(&d), duration_subsec_nanos(&d)),
        Err(e) => {
            let d = clock_error_duration(&e);
            reading_before_epoch(duration_whole_seconds(&d), duration_subsec_nanos(&d))
        },
    }
}

/// Lexicographic order on `(seconds, nanos)` pairs.
pub open spec fn event_le(a: TimestampedEvent, b: TimestampedEvent) -> bool {
    a.seconds < b.seconds || (a.seconds == b.seconds && a.nanos <= b.nanos)
}

/// Reconstructed milliseconds never decrease as events grow in the
/// lexicographic order on `(seconds, nanos)`.
pub proof fn lemma_reconstruct_ms_monotone(a: TimestampedEvent, b: TimestampedEvent)
    requires
        a.valid(),
        b.valid(),
        event_le(a, b),
    ensures
        reconstruct_ms_spec(a) <= reconstruct_ms_spec(b),
{
    vstd::arithmetic::div_mod::lemma_div_pos_is_pos(a.nanos as int, 1_000_000);
    vstd::arithmetic::div_mod::lemma_div_pos_is_pos(b.nanos as int, 1_000_000);
    if a.seconds == b.seconds {
        vstd::arithmetic::div_mod::lemma_div_is_ordered(a.nanos as int, b.nanos as int, 1_000_000);
    } else {
        vstd::arithmetic::div_mod::lemma_div_is_ordered(
            a.nanos as int,
            999_999_999,
            1_000_000,
        );
        assert(a.nanos / 1_000_000 <= 999) by {
            assert(999_999_999int / 1_000_000 == 999);
        }
    }
}

/// Stamping a clock reading into an event and reconstructing milliseconds
/// from the event gives back the reading's own millisecond value.  This
/// holds for every reading outside a leap second; a leap-second reading
/// (nanoseconds of a billion or more) is clamped and may lose up to a
/// second.
pub proof fn lemma_clock_round_trip(r: ClockReading)
    requires
        r.wf(),
        r.nanos < 1_000_000_000,
    ensures
        reconstruct_ms_spec(event_of_reading(r)) == reading_ms_spec(r),
{
}

} // verus!
