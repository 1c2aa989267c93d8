use stream_latency::event::ClockReading;
use stream_latency::event::TimestampedEvent;
use stream_latency::producer::MyTimeProducer;
use stream_latency::producer::ProduceOutcome;
use stream_latency::producer::ProducerState;
use stream_latency::producer::producer_step;
use stream_latency::queue::EnqueueError;
use stream_latency::queue::EventQueue;
use stream_latency::queue::QUEUE_CAPACITY;

fn event(n: i64) -> TimestampedEvent {
    TimestampedEvent { seconds: n, nanos: 0 }
}

#[test]
fn queue_accepts_exactly_its_capacity() {
    let mut q = EventQueue::new();
    for n in 0..QUEUE_CAPACITY {
        assert_eq!(q.try_enqueue(event(n as i64)), Ok(()));
    }
    assert_eq!(q.len(), 1024);
    // The 1025th attempt is refused without dropping anything.
    assert_eq!(q.try_enqueue(event(9999)), Err(EnqueueError::Full));
    assert_eq!(q.len(), 1024);
}

#[test]
fn queue_is_first_in_first_out() {
    let mut q = EventQueue::new();
    for n in 0..10 {
        assert_eq!(q.try_enqueue(event(n)), Ok(()));
    }
    for n in 0..10 {
        assert_eq!(q.dequeue(), Some(event(n)));
    }
    assert_eq!(q.dequeue(), None);
}

#[test]
fn full_queue_throttles_to_drain_rate() {
    // Fill the queue, then alternate one drain with one enqueue: the
    // producer advances exactly as fast as the consumer drains, and the
    // queue plateaus at capacity instead of growing.
    let mut q = EventQueue::new();
    for n in 0..QUEUE_CAPACITY {
        assert_eq!(q.try_enqueue(event(n as i64)), Ok(()));
    }
    for round in 0..100 {
        assert_eq!(q.try_enqueue(event(-1)), Err(EnqueueError::Full));
        assert_eq!(q.dequeue(), Some(event(round)));
        assert_eq!(q.try_enqueue(event(1024 + round)), Ok(()));
        assert_eq!(q.len(), 1024);
    }
}

#[test]
fn closed_queue_refuses_enqueues() {
    let mut q = EventQueue::new();
    assert_eq!(q.try_enqueue(event(1)), Ok(()));
    q.close();
    assert_eq!(q.try_enqueue(event(2)), Err(EnqueueError::Disconnected));
    // What was pending stays readable.
    assert_eq!(q.dequeue(), Some(event(1)));
}

#[test]
fn producer_terminates_within_one_iteration_of_disconnect() {
    let service = MyTimeProducer::default();
    let mut q = EventQueue::new();
    let reading = ClockReading { seconds: 1, nanos: 0 };

    let (state, outcome) = service.produce_step(ProducerState::Running, &mut q, &reading);
    assert_eq!(state, ProducerState::Running);
    assert_eq!(outcome, ProduceOutcome::Enqueued);

    q.close();
    let (state, outcome) = service.produce_step(state, &mut q, &reading);
    assert_eq!(state, ProducerState::Terminated);
    assert_eq!(outcome, ProduceOutcome::Disconnected);

    // Once terminated the loop never emits again.
    let (state, outcome) = service.produce_step(state, &mut q, &reading);
    assert_eq!(state, ProducerState::Terminated);
    assert_eq!(outcome, ProduceOutcome::Idle);
}

#[test]
fn producer_state_machine_transitions() {
    assert_eq!(producer_step(ProducerState::Running, false), ProducerState::Running);
    assert_eq!(producer_step(ProducerState::Running, true), ProducerState::Terminated);
    assert_eq!(producer_step(ProducerState::Terminated, false), ProducerState::Terminated);
    assert_eq!(producer_step(ProducerState::Terminated, true), ProducerState::Terminated);
}

#[test]
fn make_message_encodes_the_reading() {
    let service = MyTimeProducer::default();
    let m = service.make_message(&ClockReading { seconds: 5, nanos: 123_456_789 });
    assert_eq!(m.seconds.as_str(), "5");
    assert_eq!(m.nanos, 123_456_789);

    let m = service.make_message(&ClockReading { seconds: -3, nanos: 1_999_999_999 });
    assert_eq!(m.seconds.as_str(), "-3");
    assert_eq!(m.nanos, 999_999_999);
}
