use stream_latency::codec::DecodeError;
use stream_latency::codec::WireTimestamp;
use stream_latency::consumer::ConsumerAction;
use stream_latency::consumer::ConsumerError;
use stream_latency::consumer::StreamError;
use stream_latency::consumer::ThroughputCounter;
use stream_latency::consumer::consumer_step;
use stream_latency::event::ClockReading;

fn text_item(seconds: &str, nanos: i32) -> Result<WireTimestamp, StreamError> {
    Ok(WireTimestamp::Text { seconds: seconds.to_string(), nanos })
}

#[test]
fn burst_within_window_reports_latency_only() {
    // Five events arrive within 10 ms of the window opening: five latency
    // reports, no throughput report until the one-second boundary passes.
    let start = ClockReading { seconds: 100, nanos: 0 };
    let mut counter = ThroughputCounter::new(&start);
    assert_eq!(counter.count, 0);

    for k in 0..5u32 {
        let now = ClockReading { seconds: 100, nanos: k * 2_000_000 };
        let (next, action) = consumer_step(counter, &now, text_item("99", 0));
        counter = next;
        match action {
            ConsumerAction::Report { sample, window } => {
                // now_ms - event_ms: (100_000 + 2k) - 99_000.
                assert_eq!(sample.latency_ms, 1000 + 2 * k as i128);
                assert!(window.is_none());
            }
            ConsumerAction::Fail(_) => panic!("burst item failed"),
        }
    }
    assert_eq!(counter.count, 5);
}

#[test]
fn window_boundary_reports_count_and_resets_to_zero() {
    let start = ClockReading { seconds: 100, nanos: 0 };
    let mut counter = ThroughputCounter::new(&start);

    for _ in 0..3 {
        let now = ClockReading { seconds: 100, nanos: 500_000_000 };
        let (next, _) = consumer_step(counter, &now, text_item("100", 0));
        counter = next;
    }
    assert_eq!(counter.count, 3);

    // One second after the window opened: the fourth event closes it.
    let now = ClockReading { seconds: 101, nanos: 0 };
    let (next, action) = consumer_step(counter, &now, text_item("100", 0));
    counter = next;
    match action {
        ConsumerAction::Report { window, .. } => assert_eq!(window, Some(4)),
        ConsumerAction::Fail(_) => panic!("boundary item failed"),
    }
    // The counter resets to exactly zero and the window restarts now.
    assert_eq!(counter.count, 0);
    assert_eq!(counter.window_start_ms, 101_000);
}

#[test]
fn negative_latency_is_reported_as_is() {
    let start = ClockReading { seconds: 100, nanos: 0 };
    let counter = ThroughputCounter::new(&start);
    // The producer's clock runs ahead: the event claims a later time.
    let now = ClockReading { seconds: 100, nanos: 0 };
    let (_, action) = consumer_step(counter, &now, text_item("101", 0));
    match action {
        ConsumerAction::Report { sample, .. } => assert_eq!(sample.latency_ms, -1000),
        ConsumerAction::Fail(_) => panic!("skewed item failed"),
    }
}

#[test]
fn transport_error_ends_the_loop_with_counter_untouched() {
    let start = ClockReading { seconds: 100, nanos: 0 };
    let counter = ThroughputCounter::new(&start);
    let now = ClockReading { seconds: 100, nanos: 1_000_000 };
    let item = Err(StreamError { message: "remote reset".to_string() });
    let (next, action) = consumer_step(counter, &now, item);
    assert_eq!(next.count, 0);
    assert_eq!(next.window_start_ms, counter.window_start_ms);
    match action {
        ConsumerAction::Fail(ConsumerError::Transport(e)) => {
            assert_eq!(e.message.as_str(), "remote reset");
        }
        _ => panic!("expected a transport failure"),
    }
}

#[test]
fn malformed_seconds_fails_the_item_loudly() {
    let start = ClockReading { seconds: 100, nanos: 0 };
    let counter = ThroughputCounter::new(&start);
    let now = ClockReading { seconds: 100, nanos: 0 };
    let (next, action) = consumer_step(counter, &now, text_item("not-a-number", 0));
    // The malformed field is an explicit error, never read as zero.
    assert_eq!(next.count, 0);
    match action {
        ConsumerAction::Fail(ConsumerError::Decode(d)) => {
            assert_eq!(d, DecodeError::MalformedSeconds);
        }
        _ => panic!("expected a decode failure"),
    }
}

#[test]
fn native_feed_items_are_measured_the_same_way() {
    let start = ClockReading { seconds: 200, nanos: 0 };
    let counter = ThroughputCounter::new(&start);
    let now = ClockReading { seconds: 200, nanos: 250_000_000 };
    let item = Ok(WireTimestamp::Native { seconds: 200, nanos: 100_000_000 });
    let (next, action) = consumer_step(counter, &now, item);
    assert_eq!(next.count, 1);
    match action {
        ConsumerAction::Report { sample, window } => {
            assert_eq!(sample.latency_ms, 150);
            assert!(window.is_none());
        }
        ConsumerAction::Fail(_) => panic!("native item failed"),
    }
}
