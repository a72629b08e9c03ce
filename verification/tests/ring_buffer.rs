use androidoscopy::ring_buffer::RingBuffer;

#[test]
fn test_ring_buffer_push_within_capacity() {
    let mut buffer: RingBuffer<i32> = RingBuffer::new(5);
    buffer.push(1);
    buffer.push(2);
    buffer.push(3);

    assert_eq!(buffer.len(), 3);
    let items: Vec<_> = buffer.iter().copied().collect();
    assert_eq!(items, vec![1, 2, 3]);
}

#[test]
fn test_ring_buffer_overflow() {
    let mut buffer: RingBuffer<i32> = RingBuffer::new(3);
    buffer.push(1);
    buffer.push(2);
    buffer.push(3);
    buffer.push(4);
    buffer.push(5);

    assert_eq!(buffer.len(), 3);
    let items: Vec<_> = buffer.iter().copied().collect();
    assert_eq!(items, vec![3, 4, 5]);
}

#[test]
fn new_ring_buffer_is_empty() {
    let buffer: RingBuffer<i32> = RingBuffer::new(4);
    assert!(buffer.is_empty());
    assert_eq!(buffer.len(), 0);
    assert_eq!(buffer.iter().count(), 0);
    assert_eq!(buffer.get(0), None);
}

#[test]
fn ring_buffer_holds_the_last_pushes_in_order() {
    for capacity in 1..=6usize {
        for pushes in 0..=15usize {
            let mut buffer: RingBuffer<usize> = RingBuffer::new(capacity);
            for value in 0..pushes {
                buffer.push(value);
            }
            let kept = pushes.min(capacity);
            let expected: Vec<usize> = (pushes - kept..pushes).collect();
            let items: Vec<usize> = buffer.iter().copied().collect();
            assert_eq!(items, expected);
            assert_eq!(buffer.len(), kept);
            assert_eq!(buffer.is_empty(), pushes == 0);
        }
    }
}

#[test]
fn ring_buffer_of_capacity_one_keeps_the_latest() {
    let mut buffer: RingBuffer<i32> = RingBuffer::new(1);
    buffer.push(7);
    buffer.push(8);
    buffer.push(9);
    let items: Vec<_> = buffer.iter().copied().collect();
    assert_eq!(items, vec![9]);
}

#[test]
fn ring_buffer_of_capacity_zero_still_stores_the_latest() {
    let mut buffer: RingBuffer<i32> = RingBuffer::new(0);
    buffer.push(7);
    buffer.push(8);
    let items: Vec<_> = buffer.iter().copied().collect();
    assert_eq!(items, vec![8]);
    assert_eq!(buffer.len(), 1);
}

#[test]
fn ring_buffer_get_counts_from_the_oldest() {
    let mut buffer: RingBuffer<i32> = RingBuffer::new(3);
    for value in [10, 20, 30, 40] {
        buffer.push(value);
    }
    assert_eq!(buffer.get(0), Some(&20));
    assert_eq!(buffer.get(1), Some(&30));
    assert_eq!(buffer.get(2), Some(&40));
    assert_eq!(buffer.get(3), None);
}

#[test]
fn ring_buffer_clear_empties_and_keeps_capacity() {
    let mut buffer: RingBuffer<i32> = RingBuffer::new(2);
    buffer.push(1);
    buffer.push(2);
    buffer.clear();
    assert!(buffer.is_empty());
    assert_eq!(buffer.len(), 0);
    buffer.push(3);
    buffer.push(4);
    buffer.push(5);
    let items: Vec<_> = buffer.iter().copied().collect();
    assert_eq!(items, vec![4, 5]);
}

#[test]
fn ring_buffer_copy_holds_the_same_elements_and_capacity() {
    let mut buffer: RingBuffer<String> = RingBuffer::new(2);
    buffer.push("a".to_string());
    buffer.push("b".to_string());
    let mut copy = buffer.clone();
    let items: Vec<String> = copy.iter().cloned().collect();
    assert_eq!(items, vec!["a".to_string(), "b".to_string()]);
    copy.push("c".to_string());
    let items: Vec<String> = copy.iter().cloned().collect();
    assert_eq!(items, vec!["b".to_string(), "c".to_string()]);
    assert_eq!(buffer.len(), 2);
    assert_eq!(buffer.get(0), Some(&"a".to_string()));
}
