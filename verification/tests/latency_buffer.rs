use audio_relay::buffer::LatencyBuffer;
use audio_relay::callbacks::capture_block;
use audio_relay::callbacks::playback_block;

#[test]
fn fifo_round_trip() {
    let mut buf: LatencyBuffer<f32> = LatencyBuffer::new(8, 0.0);
    assert!(buf.push(1.5));
    assert!(buf.push(-2.25));
    assert!(buf.push(0.75));
    assert_eq!(buf.pop(), Some(1.5));
    assert_eq!(buf.pop(), Some(-2.25));
    assert_eq!(buf.pop(), Some(0.75));
    assert_eq!(buf.pop(), None);
}

#[test]
fn fifo_round_trip_at_exact_capacity() {
    let mut buf: LatencyBuffer<i32> = LatencyBuffer::new(4, 0);
    for v in [10, 20, 30, 40] {
        assert!(buf.push(v));
    }
    for v in [10, 20, 30, 40] {
        assert_eq!(buf.pop(), Some(v));
    }
    assert_eq!(buf.pop(), None);
}

#[test]
fn fifo_order_across_wrap_around() {
    let mut buf: LatencyBuffer<i32> = LatencyBuffer::new(3, 0);
    assert!(buf.push(1));
    assert!(buf.push(2));
    assert_eq!(buf.pop(), Some(1));
    assert!(buf.push(3));
    assert!(buf.push(4));
    assert_eq!(buf.pop(), Some(2));
    assert_eq!(buf.pop(), Some(3));
    assert_eq!(buf.pop(), Some(4));
    assert_eq!(buf.pop(), None);
}

#[test]
fn priming_then_popping_yields_silence() {
    let mut buf: LatencyBuffer<f32> = LatencyBuffer::new(16, 0.0);
    buf.prime(8, 0.0);
    assert_eq!(buf.len(), 8);
    for _ in 0..8 {
        assert_eq!(buf.pop(), Some(0.0));
    }
    assert_eq!(buf.pop(), None);
}

#[test]
fn push_on_full_fails_and_preserves_queued_data() {
    let mut buf: LatencyBuffer<f32> = LatencyBuffer::new(2, 0.0);
    assert!(buf.push(1.0));
    assert!(buf.push(2.0));
    assert!(!buf.push(3.0));
    assert!(!buf.push(4.0));
    assert_eq!(buf.len(), 2);
    assert_eq!(buf.pop(), Some(1.0));
    assert_eq!(buf.pop(), Some(2.0));
    assert_eq!(buf.pop(), None);
}

#[test]
fn pop_on_empty_returns_none_and_moves_nothing() {
    let mut buf: LatencyBuffer<f32> = LatencyBuffer::new(4, 0.0);
    assert_eq!(buf.pop(), None);
    assert_eq!(buf.len(), 0);
    assert!(buf.push(7.5));
    assert_eq!(buf.pop(), Some(7.5));
    assert_eq!(buf.pop(), None);
    assert_eq!(buf.pop(), None);
    assert!(buf.push(8.5));
    assert_eq!(buf.pop(), Some(8.5));
}

#[test]
fn zero_capacity_buffer_accepts_nothing() {
    let mut buf: LatencyBuffer<f32> = LatencyBuffer::new(0, 0.0);
    assert_eq!(buf.capacity_count(), 0);
    assert!(!buf.push(1.0));
    assert_eq!(buf.pop(), None);
}

#[test]
fn capture_block_within_capacity_queues_all() {
    let mut buf: LatencyBuffer<f32> = LatencyBuffer::new(8, 0.0);
    let block: Vec<f32> = vec![0.0, 0.0, 0.0, 0.0];
    let overran = capture_block(&mut buf, &block);
    assert!(!overran);
    assert_eq!(buf.len(), 4);
}

#[test]
fn capture_block_overrun_drops_tail_and_reports() {
    let mut buf: LatencyBuffer<i32> = LatencyBuffer::new(3, 0);
    let block: Vec<i32> = vec![1, 2, 3, 4, 5];
    let overran = capture_block(&mut buf, &block);
    assert!(overran);
    assert_eq!(buf.len(), 3);
    assert_eq!(buf.pop(), Some(1));
    assert_eq!(buf.pop(), Some(2));
    assert_eq!(buf.pop(), Some(3));
    assert_eq!(buf.pop(), None);
}

#[test]
fn playback_block_underrun_writes_silence_and_reports() {
    let mut buf: LatencyBuffer<f32> = LatencyBuffer::new(8, 0.0);
    assert!(buf.push(1.0));
    assert!(buf.push(2.0));
    let mut out: Vec<f32> = vec![9.0, 9.0, 9.0, 9.0];
    let underran = playback_block(&mut buf, &mut out, 0.0);
    assert!(underran);
    assert_eq!(out, vec![1.0, 2.0, 0.0, 0.0]);
    assert_eq!(buf.len(), 0);
}

#[test]
fn playback_block_exact_fill_no_underrun() {
    let mut buf: LatencyBuffer<f32> = LatencyBuffer::new(8, 0.0);
    assert!(buf.push(0.5));
    assert!(buf.push(-0.5));
    let mut out: Vec<f32> = vec![0.0, 0.0];
    let underran = playback_block(&mut buf, &mut out, 0.0);
    assert!(!underran);
    assert_eq!(out, vec![0.5, -0.5]);
    assert_eq!(buf.len(), 0);
}

#[test]
fn end_to_end_capture_then_playback_silence() {
    let mut buf: LatencyBuffer<f32> = LatencyBuffer::new(64, 0.0);
    let block: Vec<f32> = vec![0.0; 16];
    let overran = capture_block(&mut buf, &block);
    assert!(!overran);
    let mut out: Vec<f32> = vec![5.0; 16];
    let underran = playback_block(&mut buf, &mut out, 0.0);
    assert!(!underran);
    assert_eq!(out, block);
    assert_eq!(buf.len(), 0);
}

#[test]
fn end_to_end_capture_then_playback_preserves_values() {
    let mut buf: LatencyBuffer<f32> = LatencyBuffer::new(32, 0.0);
    let block: Vec<f32> = vec![0.1, -0.2, 0.3, -0.4, 0.5];
    let overran = capture_block(&mut buf, &block);
    assert!(!overran);
    let mut out: Vec<f32> = vec![0.0; 5];
    let underran = playback_block(&mut buf, &mut out, 0.0);
    assert!(!underran);
    assert_eq!(out, block);
}
