use wakeword_listener::capture::{CaptureAdapter, OverflowPolicy, StreamSignal};
use wakeword_listener::channel::SampleChannel;

#[test]
fn a_buffer_that_fits_is_queued_whole() {
    let mut channel = SampleChannel::new(8).unwrap();
    let mut adapter = CaptureAdapter::new(OverflowPolicy::Abort);
    assert_eq!(adapter.capture(&mut channel, &[1, 2, 3]), StreamSignal::Continue);
    assert_eq!(adapter.capture(&mut channel, &[4, 5]), StreamSignal::Continue);
    assert_eq!(adapter.dropped(), 0);
    assert_eq!(channel.len(), 5);
    for expected in 1i16..=5 {
        assert_eq!(channel.pop(), Some(expected));
    }
}

#[test]
fn overflow_under_the_drop_policy_drops_and_goes_on() {
    let mut channel = SampleChannel::new(4).unwrap();
    let mut adapter = CaptureAdapter::new(OverflowPolicy::DropSample);
    assert_eq!(adapter.capture(&mut channel, &[1, 2, 3, 4, 5, 6, 7]), StreamSignal::Continue);
    assert_eq!(adapter.dropped(), 3);
    assert_eq!(channel.len(), 4);
    assert_eq!(adapter.capture(&mut channel, &[8]), StreamSignal::Continue);
    assert_eq!(adapter.dropped(), 4);
    for expected in 1i16..=4 {
        assert_eq!(channel.pop(), Some(expected));
    }
    assert_eq!(channel.pop(), None);
}

#[test]
fn overflow_under_the_abort_policy_ends_the_stream() {
    let mut channel = SampleChannel::new(4).unwrap();
    let mut adapter = CaptureAdapter::new(OverflowPolicy::Abort);
    assert_eq!(adapter.capture(&mut channel, &[1, 2, 3, 4, 5, 6, 7]), StreamSignal::Abort);
    assert_eq!(adapter.dropped(), 1);
    for expected in 1i16..=4 {
        assert_eq!(channel.pop(), Some(expected));
    }
    assert_eq!(channel.pop(), None);
}

#[test]
fn a_drained_channel_takes_samples_again() {
    let mut channel = SampleChannel::new(2).unwrap();
    let mut adapter = CaptureAdapter::new(OverflowPolicy::DropSample);
    assert_eq!(adapter.capture(&mut channel, &[1, 2, 3]), StreamSignal::Continue);
    assert_eq!(channel.pop(), Some(1));
    assert_eq!(adapter.capture(&mut channel, &[4, 5]), StreamSignal::Continue);
    assert_eq!(adapter.dropped(), 2);
    assert_eq!(channel.pop(), Some(2));
    assert_eq!(channel.pop(), Some(4));
    assert_eq!(channel.pop(), None);
}

#[test]
fn each_sample_is_accounted_for() {
    let mut adapter = CaptureAdapter::new(OverflowPolicy::DropSample);
    assert_eq!(adapter.policy(), OverflowPolicy::DropSample);
    assert_eq!(adapter.on_sample(true, true), StreamSignal::Continue);
    assert_eq!(adapter.on_sample(false, true), StreamSignal::Continue);
    assert_eq!(adapter.on_sample(true, false), StreamSignal::Continue);
    assert_eq!(adapter.on_sample(false, false), StreamSignal::Continue);
    assert_eq!(adapter.dropped(), 2);
    assert_eq!(adapter.sink_failures(), 2);
}

#[test]
fn a_failed_recording_never_ends_the_stream() {
    let mut adapter = CaptureAdapter::new(OverflowPolicy::Abort);
    assert_eq!(adapter.on_sample(true, false), StreamSignal::Continue);
    assert_eq!(adapter.sink_failures(), 1);
    assert_eq!(adapter.dropped(), 0);
    assert_eq!(adapter.on_sample(false, true), StreamSignal::Abort);
    assert_eq!(adapter.dropped(), 1);
}

#[test]
fn an_empty_buffer_changes_nothing() {
    let mut channel = SampleChannel::new(0).unwrap();
    let mut adapter = CaptureAdapter::new(OverflowPolicy::Abort);
    assert_eq!(adapter.capture(&mut channel, &[]), StreamSignal::Continue);
    assert_eq!(adapter.dropped(), 0);
    assert_eq!(adapter.capture(&mut channel, &[1]), StreamSignal::Abort);
    assert_eq!(adapter.dropped(), 1);
}
