use cbos::task::timer::{tick, TickStream, TimerBridge};
use cbos::task::{Context, Poll, TaskIdCounter, TaskWaker};

fn context() -> Context {
    let mut ids = TaskIdCounter::new();
    Context::from_waker(TaskWaker::new(ids.next_id()))
}

#[test]
fn timer_stride() {
    let mut bridge = TimerBridge::new();
    let mut stream = TickStream::new(&mut bridge, 16);
    let cx = context();
    for _ in 0..15 {
        tick(&mut bridge);
        assert_eq!(stream.poll_next(&mut bridge, &cx), Poll::Pending);
    }
    assert_eq!(stream.last_tick(), 0);
    tick(&mut bridge);
    assert_eq!(stream.poll_next(&mut bridge, &cx), Poll::Ready(Some(())));
    // Exactly one item: the next poll is pending again.
    assert_eq!(stream.poll_next(&mut bridge, &cx), Poll::Pending);
    // The baseline moved up by sixteen and was not reset.
    assert_eq!(stream.last_tick(), 16);
    assert_eq!(bridge.ticks(), 16);
}

#[test]
fn timer_accounts_for_overshoot() {
    let mut bridge = TimerBridge::new();
    let mut stream = TickStream::new(&mut bridge, 16);
    let cx = context();
    for _ in 0..20 {
        tick(&mut bridge);
    }
    assert_eq!(stream.poll_next(&mut bridge, &cx), Poll::Ready(Some(())));
    // The baseline moved on by the stride; four ticks count already.
    assert_eq!(stream.last_tick(), 16);
    assert_eq!(stream.poll_next(&mut bridge, &cx), Poll::Pending);
    for _ in 0..11 {
        tick(&mut bridge);
        assert_eq!(stream.poll_next(&mut bridge, &cx), Poll::Pending);
    }
    tick(&mut bridge);
    assert_eq!(bridge.ticks(), 32);
    assert_eq!(stream.poll_next(&mut bridge, &cx), Poll::Ready(Some(())));
    assert_eq!(stream.last_tick(), 32);
    assert_eq!(stream.poll_next(&mut bridge, &cx), Poll::Pending);
}

#[test]
fn timer_catches_up_after_a_long_pause() {
    let mut bridge = TimerBridge::new();
    let mut stream = TickStream::new(&mut bridge, 16);
    let cx = context();
    for _ in 0..40 {
        tick(&mut bridge);
    }
    // Two strides have passed in full: two notifications are due.
    assert_eq!(stream.poll_next(&mut bridge, &cx), Poll::Ready(Some(())));
    assert_eq!(stream.last_tick(), 16);
    assert_eq!(stream.poll_next(&mut bridge, &cx), Poll::Ready(Some(())));
    assert_eq!(stream.last_tick(), 32);
    assert_eq!(stream.poll_next(&mut bridge, &cx), Poll::Pending);
    for _ in 0..8 {
        tick(&mut bridge);
    }
    assert_eq!(stream.poll_next(&mut bridge, &cx), Poll::Ready(Some(())));
    assert_eq!(stream.last_tick(), 48);
}

#[test]
fn timer_starts_counting_when_the_stream_is_made() {
    let mut bridge = TimerBridge::new();
    for _ in 0..100 {
        assert_eq!(tick(&mut bridge), None);
    }
    let mut stream = TickStream::new(&mut bridge, 2);
    let cx = context();
    assert_eq!(stream.last_tick(), 100);
    assert_eq!(stream.poll_next(&mut bridge, &cx), Poll::Pending);
    tick(&mut bridge);
    assert_eq!(stream.poll_next(&mut bridge, &cx), Poll::Pending);
    tick(&mut bridge);
    assert_eq!(stream.poll_next(&mut bridge, &cx), Poll::Ready(Some(())));
}

#[test]
fn tick_hands_out_the_registered_wake_handle_once() {
    let mut bridge = TimerBridge::new();
    let mut stream = TickStream::new(&mut bridge, 3);
    let cx = context();
    assert_eq!(tick(&mut bridge), None);
    assert_eq!(stream.poll_next(&mut bridge, &cx), Poll::Pending);
    assert_eq!(tick(&mut bridge), Some(cx.waker()));
    assert_eq!(tick(&mut bridge), None);
    assert_eq!(stream.poll_next(&mut bridge, &cx), Poll::Ready(Some(())));
    assert_eq!(tick(&mut bridge), None);
}

#[test]
fn a_second_tick_stream_is_refused() {
    let mut bridge = TimerBridge::new();
    assert!(!bridge.is_initialized());
    assert!(TickStream::try_new(&mut bridge, 16).is_ok());
    assert!(bridge.is_initialized());
    assert!(TickStream::try_new(&mut bridge, 16).is_err());
}

#[test]
fn stride_zero_is_always_due() {
    let mut bridge = TimerBridge::new();
    let mut stream = TickStream::new(&mut bridge, 0);
    let cx = context();
    assert_eq!(stream.poll_next(&mut bridge, &cx), Poll::Ready(Some(())));
    assert_eq!(stream.poll_next(&mut bridge, &cx), Poll::Ready(Some(())));
}
