use media_player::audio::{RingAction, SAMPLE_RING_CAPACITY};
use media_player::ring::sample_ring;

#[test]
fn empty_ring_gives_silence() {
    let (_sink, mut source) = sample_ring::<i16>();
    let mut out = [5i16; 8];
    assert_eq!(source.fill_output(&mut out, 0), 0);
    assert_eq!(out, [0; 8]);
}

#[test]
fn shortfall_is_zero_filled_after_ring_samples() {
    let (mut sink, mut source) = sample_ring::<u8>();
    assert_eq!(sink.try_push_all(&[1, 2, 3]), (RingAction::Push, 3));
    let mut out = [9u8; 6];
    assert_eq!(source.fill_output(&mut out, 128), 3);
    assert_eq!(out, [1, 2, 3, 128, 128, 128]);
}

#[test]
fn samples_come_out_in_order_across_calls() {
    let (mut sink, mut source) = sample_ring::<u8>();
    assert_eq!(sink.try_push_all(&[1, 2, 3, 4, 5]), (RingAction::Push, 5));
    let mut out = [0u8; 2];
    assert_eq!(source.fill_output(&mut out, 0), 2);
    assert_eq!(out, [1, 2]);
    let mut out = [0u8; 4];
    assert_eq!(source.fill_output(&mut out, 0), 3);
    assert_eq!(out, [3, 4, 5, 0]);
}

#[test]
fn full_ring_makes_producer_wait_without_dropping() {
    let (mut sink, mut source) = sample_ring::<u8>();
    let block = vec![7u8; SAMPLE_RING_CAPACITY - 2];
    assert_eq!(sink.try_push_all(&block), (RingAction::Push, SAMPLE_RING_CAPACITY - 2));
    // Three samples do not fit in the two free places: nothing goes in.
    assert_eq!(sink.try_push_all(&[1, 2, 3]), (RingAction::Wait, 0));
    let mut out = [0u8; 1];
    assert_eq!(source.fill_output(&mut out, 0), 1);
    assert_eq!(sink.try_push_all(&[1, 2, 3]), (RingAction::Push, 3));
    let mut rest = vec![0u8; SAMPLE_RING_CAPACITY];
    assert_eq!(source.fill_output(&mut rest, 0), SAMPLE_RING_CAPACITY);
    assert_eq!(&rest[SAMPLE_RING_CAPACITY - 6..], &[7, 7, 7, 1, 2, 3]);
}

#[test]
fn fresh_ring_takes_exactly_its_capacity() {
    let (mut sink, mut source) = sample_ring::<u8>();
    let block = vec![3u8; SAMPLE_RING_CAPACITY];
    assert_eq!(sink.try_push_all(&block), (RingAction::Push, SAMPLE_RING_CAPACITY));
    assert_eq!(sink.try_push_all(&[4]), (RingAction::Wait, 0));
    assert_eq!(sink.try_push_all(&[]), (RingAction::Push, 0));
    let mut out = vec![0u8; SAMPLE_RING_CAPACITY + 1];
    assert_eq!(source.fill_output(&mut out, 9), SAMPLE_RING_CAPACITY);
    assert_eq!(out[SAMPLE_RING_CAPACITY], 9);
}
