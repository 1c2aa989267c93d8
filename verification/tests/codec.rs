use stream_latency::codec::DecodeError;
use stream_latency::codec::WireTimestamp;
use stream_latency::codec::decode;
use stream_latency::codec::encode_event;
use stream_latency::codec::encode_i64;
use stream_latency::codec::parse_seconds;
use stream_latency::event::TimestampedEvent;
use stream_latency::event::reconstruct_ms;

#[test]
fn parse_accepts_plain_decimals() {
    assert_eq!(parse_seconds("0"), Ok(0));
    assert_eq!(parse_seconds("42"), Ok(42));
    assert_eq!(parse_seconds("0042"), Ok(42));
    assert_eq!(parse_seconds("1431648000"), Ok(1_431_648_000));
}

#[test]
fn parse_accepts_signed_decimals() {
    assert_eq!(parse_seconds("-1"), Ok(-1));
    assert_eq!(parse_seconds("+7"), Ok(7));
    assert_eq!(parse_seconds("-0"), Ok(0));
}

#[test]
fn parse_accepts_extreme_values() {
    assert_eq!(parse_seconds("9223372036854775807"), Ok(i64::MAX));
    assert_eq!(parse_seconds("-9223372036854775808"), Ok(i64::MIN));
}

#[test]
fn parse_rejects_malformed_text() {
    assert_eq!(parse_seconds("not-a-number"), Err(DecodeError::MalformedSeconds));
    assert_eq!(parse_seconds(""), Err(DecodeError::MalformedSeconds));
    assert_eq!(parse_seconds("-"), Err(DecodeError::MalformedSeconds));
    assert_eq!(parse_seconds("+"), Err(DecodeError::MalformedSeconds));
    assert_eq!(parse_seconds("12x"), Err(DecodeError::MalformedSeconds));
    assert_eq!(parse_seconds(" 12"), Err(DecodeError::MalformedSeconds));
    assert_eq!(parse_seconds("1.5"), Err(DecodeError::MalformedSeconds));
    assert_eq!(parse_seconds("--3"), Err(DecodeError::MalformedSeconds));
}

#[test]
fn parse_rejects_values_out_of_range() {
    assert_eq!(parse_seconds("9223372036854775808"), Err(DecodeError::SecondsOutOfRange));
    assert_eq!(parse_seconds("-9223372036854775809"), Err(DecodeError::SecondsOutOfRange));
    assert_eq!(parse_seconds("99999999999999999999999"), Err(DecodeError::SecondsOutOfRange));
}

#[test]
fn encode_prints_exact_decimals() {
    assert_eq!(encode_i64(0).as_str(), "0");
    assert_eq!(encode_i64(7).as_str(), "7");
    assert_eq!(encode_i64(-1).as_str(), "-1");
    assert_eq!(encode_i64(1000).as_str(), "1000");
    assert_eq!(encode_i64(i64::MAX).as_str(), "9223372036854775807");
    assert_eq!(encode_i64(i64::MIN).as_str(), "-9223372036854775808");
}

#[test]
fn encode_then_parse_round_trips() {
    for v in [0i64, 1, -1, 9, 10, -10, 123_456_789, -987_654_321, i64::MAX, i64::MIN] {
        assert_eq!(parse_seconds(encode_i64(v).as_str()), Ok(v));
    }
}

#[test]
fn decode_text_timestamp() {
    let w = WireTimestamp::Text { seconds: "1".to_string(), nanos: 2_000_000 };
    let e = decode(&w).unwrap();
    assert_eq!(e.seconds, 1);
    assert_eq!(e.nanos, 2_000_000);
    assert_eq!(reconstruct_ms(&e), 1002);
}

#[test]
fn decode_native_timestamp() {
    let w = WireTimestamp::Native { seconds: -1, nanos: 999_999_999 };
    let e = decode(&w).unwrap();
    assert_eq!(e.seconds, -1);
    assert_eq!(reconstruct_ms(&e), -1);
}

#[test]
fn decode_rejects_malformed_seconds() {
    let w = WireTimestamp::Text { seconds: "not-a-number".to_string(), nanos: 0 };
    assert_eq!(decode(&w), Err(DecodeError::MalformedSeconds));
}

#[test]
fn decode_rejects_nanos_out_of_range() {
    let high = WireTimestamp::Native { seconds: 0, nanos: 1_000_000_000 };
    assert_eq!(decode(&high), Err(DecodeError::NanosOutOfRange));
    let negative = WireTimestamp::Text { seconds: "0".to_string(), nanos: -1 };
    assert_eq!(decode(&negative), Err(DecodeError::NanosOutOfRange));
}

#[test]
fn decode_rejects_out_of_range_seconds_text() {
    let w = WireTimestamp::Text { seconds: "9223372036854775808".to_string(), nanos: 0 };
    assert_eq!(decode(&w), Err(DecodeError::SecondsOutOfRange));
}

#[test]
fn encode_event_round_trips_through_decode() {
    let e = TimestampedEvent { seconds: -62_135_596_800, nanos: 123_456_789 };
    let m = encode_event(&e);
    let back = decode(&WireTimestamp::Text { seconds: m.seconds, nanos: m.nanos }).unwrap();
    assert_eq!(back, e);
}
