use parametric_eq::units::{ConsumerDump, VariableRingBuffer};
use ringbuf::RingBuffer;

#[test]
fn new_ring_is_blank() {
    let ring = VariableRingBuffer::new(4, 16, 0.0f32);
    assert_eq!(ring.size(), 4);
    assert_eq!(ring.oldest(), 0.0);
    for index in 0..4 {
        assert_eq!(ring.get(index), 0.0);
    }
}

#[test]
fn ring_keeps_the_newest_values() {
    let mut ring = VariableRingBuffer::new(3, 8, 0.0f32);
    ring.push(1.0);
    ring.push(2.0);
    assert_eq!(ring.oldest(), 0.0);
    assert_eq!(ring.get(0), 0.0);
    assert_eq!(ring.get(1), 1.0);
    assert_eq!(ring.get(2), 2.0);
    ring.push(3.0);
    assert_eq!(ring.oldest(), 1.0);
    ring.push(4.0);
    assert_eq!(ring.oldest(), 2.0);
    assert_eq!(ring.get(0), 2.0);
    assert_eq!(ring.get(1), 3.0);
    assert_eq!(ring.get(2), 4.0);
}

#[test]
fn ring_wraps_many_times() {
    let mut ring = VariableRingBuffer::new(5, 5, 0u32);
    for value in 1..=103u32 {
        ring.push(value);
    }
    assert_eq!(ring.oldest(), 99);
    for index in 0..5 {
        assert_eq!(ring.get(index), 99 + index as u32);
    }
}

#[test]
fn ring_of_one_slot_holds_the_last_value() {
    let mut ring = VariableRingBuffer::new(1, 4, 0i64);
    ring.push(7);
    assert_eq!(ring.oldest(), 7);
    ring.push(-9);
    assert_eq!(ring.oldest(), -9);
    assert_eq!(ring.get(0), -9);
}

#[test]
fn resize_clears_and_sets_the_length() {
    let mut ring = VariableRingBuffer::new(3, 8, 0.0f32);
    ring.push(1.0);
    ring.push(2.0);
    ring.resize(6);
    assert_eq!(ring.size(), 6);
    for index in 0..6 {
        assert_eq!(ring.get(index), 0.0);
    }
    ring.push(5.0);
    assert_eq!(ring.get(5), 5.0);
    assert_eq!(ring.oldest(), 0.0);
}

#[test]
fn resize_stops_at_the_storage() {
    let mut ring = VariableRingBuffer::new(3, 8, 0.0f32);
    ring.resize(100);
    assert_eq!(ring.size(), 8);
    ring.resize(8);
    assert_eq!(ring.size(), 8);
    ring.resize(0);
    assert_eq!(ring.size(), 0);
}

#[test]
fn resize_restores_the_blank_value() {
    let mut ring = VariableRingBuffer::new(2, 4, -1i32);
    ring.push(10);
    ring.push(20);
    ring.push(30);
    ring.resize(4);
    for index in 0..4 {
        assert_eq!(ring.get(index), -1);
    }
}

#[test]
fn dump_starts_empty() {
    let (_producer, consumer) = RingBuffer::<f32>::new(8).split();
    let dump = ConsumerDump::new(consumer, 4);
    assert!(dump.data.is_empty());
}

#[test]
fn consume_moves_the_queue_to_the_data() {
    let (mut producer, consumer) = RingBuffer::<u32>::new(8).split();
    let mut dump = ConsumerDump::new(consumer, 16);
    for value in [3u32, 1, 4] {
        assert!(producer.push(value).is_ok());
    }
    dump.consume();
    assert_eq!(dump.data, vec![3, 1, 4]);
    assert!(producer.is_empty());
    for value in [1u32, 5] {
        assert!(producer.push(value).is_ok());
    }
    dump.consume();
    assert_eq!(dump.data, vec![3, 1, 4, 1, 5]);
}

#[test]
fn consume_of_an_empty_queue_changes_nothing() {
    let (_producer, consumer) = RingBuffer::<u32>::new(8).split();
    let mut dump = ConsumerDump::new(consumer, 16);
    dump.data.push(9);
    dump.consume();
    assert_eq!(dump.data, vec![9]);
}

#[test]
fn consume_keeps_the_newest_values() {
    let (mut producer, consumer) = RingBuffer::<u32>::new(8).split();
    let mut dump = ConsumerDump::new(consumer, 4);
    for value in 1..=3u32 {
        assert!(producer.push(value).is_ok());
    }
    dump.consume();
    assert_eq!(dump.data, vec![1, 2, 3]);
    for value in 4..=6u32 {
        assert!(producer.push(value).is_ok());
    }
    dump.consume();
    assert_eq!(dump.data, vec![3, 4, 5, 6]);
}

#[test]
fn dump_with_no_room_keeps_nothing() {
    let (mut producer, consumer) = RingBuffer::<u32>::new(8).split();
    let mut dump = ConsumerDump::new(consumer, 0);
    assert!(producer.push(1).is_ok());
    dump.consume();
    assert!(dump.data.is_empty());
    assert!(producer.is_empty());
}

#[test]
fn set_max_size_trims_at_once() {
    let (_producer, consumer) = RingBuffer::<u32>::new(8).split();
    let mut dump = ConsumerDump::new(consumer, 10);
    dump.data.extend([1u32, 2, 3, 4, 5, 6]);
    dump.set_max_size(8);
    assert_eq!(dump.data, vec![1, 2, 3, 4, 5, 6]);
    dump.set_max_size(2);
    assert_eq!(dump.data, vec![5, 6]);
    dump.set_max_size(10);
    assert_eq!(dump.data, vec![5, 6]);
}

#[test]
fn trim_data_drops_the_oldest() {
    let (_producer, consumer) = RingBuffer::<char>::new(2).split();
    let mut dump = ConsumerDump::new(consumer, 3);
    dump.data.extend(['a', 'b', 'c']);
    dump.trim_data();
    assert_eq!(dump.data, vec!['a', 'b', 'c']);
    dump.data.extend(['d', 'e']);
    dump.trim_data();
    assert_eq!(dump.data, vec!['c', 'd', 'e']);
}

#[test]
fn absorb_appends_an_item_and_passes_over_none() {
    let (_producer, consumer) = RingBuffer::<u32>::new(2).split();
    let mut dump = ConsumerDump::new(consumer, 3);
    assert!(dump.absorb(Some(7)));
    assert!(dump.absorb(Some(8)));
    assert!(!dump.absorb(None));
    assert_eq!(dump.data, vec![7, 8]);
}
