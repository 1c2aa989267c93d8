//! Wire encoding of event timestamps.
//!
//! The producer/consumer stream carries the seconds field as a decimal text
//! string; the third-party feed carries it as a native integer.  This module
//! holds the decimal parser and printer, the tagged wire form covering both
//! encodings, and the decoder that turns a wire record into a valid
//! `TimestampedEvent` or an explicit error.

use vstd::prelude::*;

use crate::event::TimestampedEvent;

verus! {

/// `c` is one of the decimal digit characters `'0'` through `'9'`.
pub open spec fn is_digit_char(c: char) -> bool {
    48 <= c as int <= 57
}

/// The numeric value of a digit character.
pub open spec fn digit_val(c: char) -> int {
    c as int - 48
}

/// Every character of `s` is a decimal digit.
pub open spec fn all_digits(s: Seq<char>) -> bool {
    forall|i: int| 0 <= i < s.len() ==> is_digit_char(s[i])
}

/// The value of a most-significant-first digit string.
pub open spec fn digits_value(s: Seq<char>) -> int
    decreases s.len(),
{
    if s.len() == 0 {
        0
    } else {
        digits_value(s.drop_last()) * 10 + digit_val(s.last())
    }
}

/// `s` is a decimal integer literal: an optional single leading `'-'` or
/// `'+'` followed by at least one digit, and nothing else.
pub open spec fn is_decimal_literal(s: Seq<char>) -> bool {
    if s.len() == 0 {
        false
    } else if s[0] == '-' || s[0] == '+' {
        s.len() >= 2 && all_digits(s.skip(1))
    } else {
        all_digits(s)
    }
}

/// The signed value of a decimal integer literal.
pub open spec fn decimal_value(s: Seq<char>) -> int {
    if s.len() > 0 && s[0] == '-' {
        -digits_value(s.skip(1))
    } else if s.len() > 0 && s[0] == '+' {
        digits_value(s.skip(1))
    } else {
        digits_value(s)
    }
}

/// A digit string's value is never negative.
pub proof fn lemma_digits_value_nonneg(s: Seq<char>)
    requires
        all_digits(s),
    ensures
        digits_value(s) >= 0,
    decreases s.len(),
{
    if s.len() > 0 {
        assert(all_digits(s.drop_last()));
        lemma_digits_value_nonneg(s.drop_last());
    }
}

/// Appending a digit multiplies the value by ten and adds the digit.
pub proof fn lemma_digits_value_push(s: Seq<char>, c: char)
    ensures
        digits_value(s.push(c)) == digits_value(s) * 10 + digit_val(c),
{
    assert(s.push(c).drop_last() =~= s);
    assert(s.push(c).last() == c);
}

/// Extending a digit string never shrinks its value: the value of
/// `s.subrange(a, i)` is at most the value of `s.subrange(a, j)` for
/// `i <= j`, as long as the extension consists of digits.
pub proof fn lemma_digits_value_extend(s: Seq<char>, a: int, i: int, j: int)
    requires
        0 <= a <= i <= j <= s.len(),
        forall|k: int| a <= k < j ==> is_digit_char(s[k]),
    ensures
        digits_value(s.subrange(a, i)) <= digits_value(s.subrange(a, j)),
    decreases j - i,
{
    if i < j {
        lemma_digits_value_extend(s, a, i, j - 1);
        assert(s.subrange(a, j) =~= s.subrange(a, j - 1).push(s[j - 1]));
        lemma_digits_value_push(s.subrange(a, j - 1), s[j - 1]);
        assert(all_digits(s.subrange(a, j - 1)));
        lemma_digits_value_nonneg(s.subrange(a, j - 1));
    }
}

/// Why decoding a wire timestamp can fail.
#[derive(Clone, Copy, Debug, PartialEq, Eq, Structural)]
pub enum DecodeError {
    /// The text-encoded seconds field is not a decimal integer literal.
    MalformedSeconds,
    /// The seconds value does not fit a signed 64-bit integer.
    SecondsOutOfRange,
    /// The nanosecond field is outside `0..1_000_000_000`.
    NanosOutOfRange,
}

/// Parses a decimal text seconds field into a signed 64-bit value.
///
/// Returns `Ok` exactly on decimal integer literals whose value fits an
/// `i64`; a string that is not a literal is rejected as malformed, and a
/// literal whose value does not fit is rejected as out of range.
pub fn parse_seconds(s: &str) -> (r: Result<i64, DecodeError>)
    ensures
        is_decimal_literal(s@) && i64::MIN <= decimal_value(s@) <= i64::MAX ==> r == Ok::<
            i64,
            DecodeError,
        >(decimal_value(s@) as i64),
        !is_decimal_literal(s@) ==> r == Err::<i64, DecodeError>(DecodeError::MalformedSeconds),
        is_decimal_literal(s@) && !(i64::MIN <= decimal_value(s@) <= i64::MAX) ==> r == Err::<
            i64,
            DecodeError,
        >(DecodeError::SecondsOutOfRange),
{
    let n = s.unicode_len();
    if n == 0 {
        return Err(DecodeError::MalformedSeconds);
    }
    let c0 = s.get_char(0);
    let neg: bool = c0 == '-';
    let signed: bool = c0 == '-' || c0 == '+';
    let start: usize = if signed {
        1
    } else {
        0
    };
    if n == start {
        return Err(DecodeError::MalformedSeconds);
    }
    let mut i: usize = start;
    while i < n
        invariant
            start <= i <= n,
            n == s@.len(),
            start == if signed { 1int } else { 0int },
            signed == (s@[0] == '-' || s@[0] == '+'),
            n > start,
            forall|j: int| start <= j < i ==> is_digit_char(s@[j]),
        decreases n - i,
    {
        let c = s.get_char(i);
        let cv = c as u32;
        if !(48 <= cv && cv <= 57) {
            assert(!is_digit_char(s@[i as int]));
            assert(!is_decimal_literal(s@)) by {
                if signed {
                    assert(s@.skip(1)[i - 1] == s@[i as int]);
                }
            }
            return Err(DecodeError::MalformedSeconds);
        }
        i += 1;
    }
    assert(is_decimal_literal(s@)) by {
        if signed {
            assert(forall|j: int| 0 <= j < s@.skip(1).len() ==> s@.skip(1)[j] == s@[j + 1]);
        }
    }
    // The loop above established that the digit part is s@.subrange(start, n).
    // Accumulate its value, most significant digit first, refusing to pass the
    // magnitude limit of an i64 (one higher for negative numbers).
    let cap: u64 = 922_337_203_685_477_580;
    let last_digit_cap: u64 = if neg {
        8
    } else {
        7
    };
    let ghost limit: int = if neg {
        9_223_372_036_854_775_808int
    } else {
        9_223_372_036_854_775_807int
    };
    let mut acc: u64 = 0;
    let mut k: usize = start;
    while k < n
        invariant
            start <= k <= n,
            n == s@.len(),
            n > start,
            neg == (s@[0] == '-'),
            signed == (s@[0] == '-' || s@[0] == '+'),
            start == if signed { 1int } else { 0int },
            cap == 922_337_203_685_477_580u64,
            last_digit_cap == if neg { 8u64 } else { 7u64 },
            limit == if neg { 9_223_372_036_854_775_808int } else { 9_223_372_036_854_775_807int },
            forall|j: int| start <= j < n ==> is_digit_char(s@[j]),
            acc == digits_value(s@.subrange(start as int, k as int)),
            acc <= limit,
        decreases n - k,
    {
        let c = s.get_char(k);
        let cv = c as u32;
        let d: u64 = (cv - 48) as u64;
        proof {
            assert(s@.subrange(start as int, k + 1) =~= s@.subrange(start as int, k as int).push(
                s@[k as int],
            ));
            lemma_digits_value_push(s@.subrange(start as int, k as int), s@[k as int]);
        }
        if acc > cap || (acc == cap && d > last_digit_cap) {
            proof {
                lemma_digits_value_extend(s@, start as int, k + 1, n as int);
                assert(s@.subrange(start as int, n as int) =~= s@.skip(start as int));
                if neg {
                    assert(decimal_value(s@) == -digits_value(s@.skip(1)));
                } else if signed {
                    assert(decimal_value(s@) == digits_value(s@.skip(1)));
                } else {
                    assert(s@.subrange(0, n as int) =~= s@);
                }
            }
            return Err(DecodeError::SecondsOutOfRange);
        }
        acc = acc * 10 + d;
        k += 1;
    }
    proof {
        assert(s@.subrange(start as int, n as int) =~= s@.skip(start as int));
        if signed {
            assert(decimal_value(s@) == if neg {
                -digits_value(s@.skip(1))
            } else {
                digits_value(s@.skip(1))
            });
        } else {
            assert(s@.subrange(0, n as int) =~= s@);
        }
    }
    if neg {
        if acc == 9_223_372_036_854_775_808 {
            Ok(i64::MIN)
        } else {
            Ok(-(acc as i64))
        }
    } else {
        Ok(acc as i64)
    }
}

/// Ten to the power `n`.
pub open spec fn pow10(n: nat) -> int
    decreases n,
{
    if n == 0 {
        1
    } else {
        10 * pow10((n - 1) as nat)
    }
}

/// The value of a least-significant-first digit string.
pub open spec fn digits_value_lsb(s: Seq<char>) -> int
    decreases s.len(),
{
    if s.len() == 0 {
        0
    } else {
        digit_val(s[0]) + 10 * digits_value_lsb(s.skip(1))
    }
}

/// Appending a digit to a least-significant-first string adds the digit
/// scaled by ten to the string's old length.
pub proof fn lemma_digits_value_lsb_push(s: Seq<char>, c: char)
    ensures
        digits_value_lsb(s.push(c)) == digits_value_lsb(s) + digit_val(c) * pow10(s.len()),
    decreases s.len(),
{
    if s.len() == 0 {
        assert(s.push(c).skip(1) =~= Seq::<char>::empty());
        assert(s.push(c)[0] == c);
        assert(digits_value_lsb(Seq::<char>::empty()) == 0);
        assert(digits_value_lsb(s.push(c)) == digit_val(c) + 10 * digits_value_lsb(
            s.push(c).skip(1),
        ));
        assert(digits_value_lsb(s) == 0);
        assert(pow10(0) == 1);
    } else {
        assert(s.push(c).skip(1) =~= s.skip(1).push(c));
        lemma_digits_value_lsb_push(s.skip(1), c);
        assert(s.push(c)[0] == s[0]);
        let p1 = pow10((s.len() - 1) as nat);
        assert(pow10(s.len()) == 10 * p1);
        assert(digit_val(c) * (10 * p1) == 10 * (digit_val(c) * p1)) by (nonlinear_arith);
        assert(digits_value_lsb(s.push(c)) == digit_val(s[0]) + 10 * digits_value_lsb(
            s.skip(1).push(c),
        ));
        assert(digits_value_lsb(s) == digit_val(s[0]) + 10 * digits_value_lsb(s.skip(1)));
        assert(digits_value_lsb(s.skip(1).push(c)) == digits_value_lsb(s.skip(1)) + digit_val(c)
            * p1);
    }
}

/// Relies on `String::push`: appends exactly one character to the string.
#[verifier::external_body]
fn push_char(s: &mut String, c: char)
    ensures
        final(s)@ == old(s)@.push(c),
{
    s.push(c);
}

/// The digit character for a value below ten.
fn digit_to_char(d: u64) -> (c: char)
    requires
        d < 10,
    ensures
        is_digit_char(c),
        digit_val(c) == d,
{
    match d {
        0 => '0',
        1 => '1',
        2 => '2',
        3 => '3',
        4 => '4',
        5 => '5',
        6 => '6',
        7 => '7',
        8 => '8',
        _ => '9',
    }
}

/// `s` is the canonical decimal literal for `v`: a `'-'` exactly when `v`
/// is negative, then the digits of `v` with no leading zero.
pub open spec fn canonical_decimal(s: Seq<char>, v: int) -> bool {
    &&& is_decimal_literal(s)
    &&& decimal_value(s) == v
    &&& (v == 0 ==> s =~= seq!['0'])
    &&& (v > 0 ==> all_digits(s) && digit_val(s[0]) > 0)
    &&& (v < 0 ==> s[0] == '-' && digit_val(s[1]) > 0)
}

/// Prints a signed 64-bit value as the canonical decimal integer literal
/// for it.
pub fn encode_i64(v: i64) -> (r: String)
    ensures
        canonical_decimal(r@, v as int),
{
    let neg: bool = v < 0;
    let mag: u64 = if v >= 0 {
        v as u64
    } else if v == i64::MIN {
        9_223_372_036_854_775_808
    } else {
        (-v) as u64
    };
    // Collect the magnitude's digits, least significant first.
    let mut rev: Vec<char> = Vec::new();
    if mag == 0 {
        rev.push('0');
        proof {
            assert(rev@ =~= seq!['0']);
            assert(rev@.skip(1) =~= Seq::<char>::empty());
            assert(digits_value_lsb(Seq::<char>::empty()) == 0);
            assert(digits_value_lsb(rev@) == digit_val('0') + 10 * digits_value_lsb(rev@.skip(1)));
        }
    } else {
        let mut m: u64 = mag;
        while m > 0
            invariant
                all_digits(rev@),
                mag == digits_value_lsb(rev@) + m * pow10(rev@.len()),
                m == 0 ==> rev@.len() > 0 && digit_val(rev@.last()) > 0,
            decreases m,
        {
            let d: u64 = m % 10;
            let m2: u64 = m / 10;
            let c = digit_to_char(d);
            proof {
                vstd::arithmetic::div_mod::lemma_fundamental_div_mod(m as int, 10);
                lemma_digits_value_lsb_push(rev@, c);
                assert((10 * (m2 as int) + d) * pow10(rev@.len()) == d * pow10(rev@.len()) + (
                m2 as int) * (10 * pow10(rev@.len()))) by (nonlinear_arith);
            }
            rev.push(c);
            m = m2;
        }
    }
    // Emit the sign, then the digits most significant first.
    let mut out = String::new();
    if neg {
        push_char(&mut out, '-');
    }
    let mut k: usize = rev.len();
    while k > 0
        invariant
            k <= rev@.len(),
            rev@.len() > 0,
            all_digits(rev@),
            mag == digits_value_lsb(rev@),
            mag > 0 ==> digit_val(rev@[rev@.len() - 1]) > 0,
            k < rev@.len() ==> out@[if neg { 1int } else { 0int }] == rev@[rev@.len() - 1],
            neg ==> out@.len() == rev@.len() - k + 1 && out@[0] == '-' && all_digits(out@.skip(1))
                && digits_value(out@.skip(1)) == digits_value_lsb(rev@.skip(k as int)),
            !neg ==> out@.len() == rev@.len() - k && all_digits(out@) && digits_value(out@)
                == digits_value_lsb(rev@.skip(k as int)),
        decreases k,
    {
        k -= 1;
        let c = rev[k];
        proof {
            if neg {
                lemma_digits_value_push(out@.skip(1), c);
                assert(out@.push(c).skip(1) =~= out@.skip(1).push(c));
            } else {
                lemma_digits_value_push(out@, c);
            }
            assert(rev@.skip(k as int) =~= seq![rev@[k as int]] + rev@.skip(k + 1));
            assert(rev@.skip(k as int)[0] == rev@[k as int]);
            assert(rev@.skip(k as int).skip(1) =~= rev@.skip(k + 1));
        }
        push_char(&mut out, c);
    }
    proof {
        assert(rev@.skip(0) =~= rev@);
        if neg {
            assert(decimal_value(out@) == -digits_value(out@.skip(1)));
        }
        if v == 0 {
            assert(out@.len() == 1);
            assert(digits_value(out@) == digit_val(out@[0])) by {
                assert(out@.drop_last() =~= Seq::<char>::empty());
                assert(out@.last() == out@[0]);
            }
            assert(out@[0] as int == 48);
            assert(out@ =~= seq!['0']);
        }
    }
    out
}

/// A timestamp as it appears on the wire.  The producer/consumer stream
/// encodes the seconds field as decimal text; the third-party feed carries
/// it as a native 64-bit integer.  The variant makes the encoding explicit
/// instead of guessing from a fallible parse.
#[derive(Clone, Debug)]
#[allow(inconsistent_fields)]
pub enum WireTimestamp {
    /// Seconds as a decimal text string, nanoseconds native.
    Text { seconds: String, nanos: i32 },
    /// Both fields native integers.
    Native { seconds: i64, nanos: i32 },
}

/// What decoding a wire timestamp yields: the event it denotes, or the
/// first applicable error — a malformed or out-of-range text seconds field,
/// then an out-of-range nanosecond field.
pub open spec fn decode_spec(w: WireTimestamp) -> Result<TimestampedEvent, DecodeError> {
    match w {
        WireTimestamp::Text { seconds, nanos } => {
            if !is_decimal_literal(seconds@) {
                Err(DecodeError::MalformedSeconds)
            } else if !(i64::MIN <= decimal_value(seconds@) <= i64::MAX) {
                Err(DecodeError::SecondsOutOfRange)
            } else if !(0 <= nanos < 1_000_000_000) {
                Err(DecodeError::NanosOutOfRange)
            } else {
                Ok(TimestampedEvent { seconds: decimal_value(seconds@) as i64, nanos })
            }
        },
        WireTimestamp::Native { seconds, nanos } => {
            if !(0 <= nanos < 1_000_000_000) {
                Err(DecodeError::NanosOutOfRange)
            } else {
                Ok(TimestampedEvent { seconds, nanos })
            }
        },
    }
}

/// Decodes a wire timestamp into a valid event, or reports exactly why it
/// cannot be one.  A malformed text seconds field is an error, never a
/// default value.
pub fn decode(w: &WireTimestamp) -> (r: Result<TimestampedEvent, DecodeError>)
    ensures
        r == decode_spec(*w),
        r matches Ok(e) ==> e.valid(),
{
    match w {
        WireTimestamp::Text { seconds, nanos } => {
            match parse_seconds(seconds.as_str()) {
                Ok(secs) => {
                    if 0 <= *nanos && *nanos < 1_000_000_000 {
                        Ok(TimestampedEvent { seconds: secs, nanos: *nanos })
                    } else {
                        Err(DecodeError::NanosOutOfRange)
                    }
                },
                Err(e) => Err(e),
            }
        },
        WireTimestamp::Native { seconds, nanos } => {
            if 0 <= *nanos && *nanos < 1_000_000_000 {
                Ok(TimestampedEvent { seconds: *seconds, nanos: *nanos })
            } else {
                Err(DecodeError::NanosOutOfRange)
            }
        },
    }
}

/// The producer's outbound stream record: seconds as decimal text,
/// nanoseconds native.
#[derive(Clone, Debug)]
pub struct TimeMessage {
    pub seconds: String,
    pub nanos: i32,
}

/// `m` is a faithful text encoding of the event `e`.
pub open spec fn message_encodes(m: TimeMessage, e: TimestampedEvent) -> bool {
    &&& is_decimal_literal(m.seconds@)
    &&& decimal_value(m.seconds@) == e.seconds as int
    &&& m.nanos == e.nanos
}

/// Encodes an event into the text wire form the producer stream sends:
/// the canonical decimal literal of its seconds, its nanoseconds native.
pub fn encode_event(e: &TimestampedEvent) -> (m: TimeMessage)
    requires
        e.valid(),
    ensures
        message_encodes(m, *e),
        canonical_decimal(m.seconds@, e.seconds as int),
        m.nanos == e.nanos,
{
    TimeMessage { seconds: encode_i64(e.seconds), nanos: e.nanos }
}

/// Wire round trip: decoding any faithful text encoding of a valid event
/// gives back exactly that event.
pub proof fn lemma_message_round_trip(m: TimeMessage, e: TimestampedEvent)
    requires
        e.valid(),
        message_encodes(m, e),
    ensures
        decode_spec(WireTimestamp::Text { seconds: m.seconds, nanos: m.nanos })
            == Ok::<TimestampedEvent, DecodeError>(e),
{
}

} // verus!
