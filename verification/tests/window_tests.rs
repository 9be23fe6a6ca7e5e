use live_captions::window::WindowAccumulator;

#[test]
fn nothing_is_flushed_before_the_interval_has_passed() {
    let mut accumulator = WindowAccumulator::new(100, 5000);
    assert_eq!(accumulator.push(&[1, 2], 100), None);
    assert_eq!(accumulator.push(&[3], 2600), None);
    assert_eq!(accumulator.push(&[4], 5099), None);
    assert_eq!(accumulator.buffered(), 4);
    assert_eq!(accumulator.last_flush(), 100);
    assert_eq!(accumulator.target_interval(), 5000);
    assert!(!accumulator.is_due(5099));
    assert!(accumulator.is_due(5100));
}

#[test]
fn a_flush_holds_everything_since_the_last_one() {
    let mut accumulator = WindowAccumulator::new(0, 5000);
    assert_eq!(accumulator.push(&[1, 2], 10), None);
    assert_eq!(accumulator.push(&[3, 4], 4999), None);
    assert_eq!(accumulator.push(&[5], 5000), Some(vec![1, 2, 3, 4, 5]));
    assert_eq!(accumulator.buffered(), 0);
    assert_eq!(accumulator.last_flush(), 5000);
    assert_eq!(accumulator.push(&[6], 9999), None);
    assert_eq!(accumulator.push(&[7, 8], 12000), Some(vec![6, 7, 8]));
    assert_eq!(accumulator.last_flush(), 12000);
}

#[test]
fn flushes_are_an_interval_apart() {
    let mut accumulator = WindowAccumulator::new(0, 300);
    let mut flushed_at = vec![0u64];
    let mut bytes = Vec::new();
    let mut fed = Vec::new();
    for tick in 0..200u64 {
        let now = tick * 7;
        let chunk = [tick as u8, 0xEE];
        fed.extend_from_slice(&chunk);
        if let Some(window) = accumulator.push(&chunk, now) {
            assert!(now - flushed_at[flushed_at.len() - 1] >= 300);
            flushed_at.push(now);
            bytes.extend(window);
        }
    }
    assert!(flushed_at.len() > 1);
    if let Some(window) = accumulator.finish() {
        bytes.extend(window);
    }
    assert_eq!(bytes, fed);
}

#[test]
fn an_interval_of_zero_flushes_every_arrival() {
    let mut accumulator = WindowAccumulator::new(50, 0);
    assert_eq!(accumulator.push(&[1], 50), Some(vec![1]));
    assert_eq!(accumulator.push(&[2, 3], 50), Some(vec![2, 3]));
    assert_eq!(accumulator.push(&[], 51), Some(vec![]));
}

#[test]
fn a_clock_that_steps_back_counts_as_no_time() {
    let mut accumulator = WindowAccumulator::new(1000, 10);
    assert!(!accumulator.is_due(0));
    assert_eq!(accumulator.push(&[1], 990), None);
    assert_eq!(accumulator.push(&[2], 1009), None);
    assert_eq!(accumulator.push(&[3], 1010), Some(vec![1, 2, 3]));
}

#[test]
fn the_end_flushes_what_is_left() {
    let mut accumulator = WindowAccumulator::new(0, 5000);
    assert_eq!(accumulator.push(&[1, 2, 3], 1), None);
    assert_eq!(accumulator.finish(), Some(vec![1, 2, 3]));
    assert_eq!(accumulator.buffered(), 0);
    assert_eq!(accumulator.last_flush(), 0);
    assert_eq!(accumulator.finish(), None);
}

#[test]
fn the_end_of_an_empty_stream_flushes_nothing() {
    let mut accumulator = WindowAccumulator::new(0, 0);
    assert_eq!(accumulator.finish(), None);
    let mut other = WindowAccumulator::new(0, 5000);
    assert_eq!(other.push(&[], 1), None);
    assert_eq!(other.finish(), None);
}

#[test]
fn the_largest_clock_readings_do_not_overflow() {
    let mut accumulator = WindowAccumulator::new(0, u64::MAX);
    assert_eq!(accumulator.push(&[1], u64::MAX - 1), None);
    assert_eq!(accumulator.push(&[2], u64::MAX), Some(vec![1, 2]));
    assert_eq!(accumulator.push(&[3], 0), None);
}
