use audio_tester_rs::ring_buffer::RingBuffer;

#[test]
fn new_buffer_is_empty() {
    let rb: RingBuffer<f32> = RingBuffer::new(8);
    assert_eq!(rb.total_written(), 0);
    assert!(rb.read_range(0, 4).is_empty());
}

#[test]
fn push_then_read_back() {
    let mut rb: RingBuffer<f32> = RingBuffer::new(8);
    rb.push_samples(&[0.5, -0.25, 0.125]);
    assert_eq!(rb.total_written(), 3);
    assert_eq!(rb.read_range(0, 3), vec![0.5, -0.25, 0.125]);
    assert_eq!(rb.read_range(1, 10), vec![-0.25, 0.125]);
}

#[test]
fn read_back_what_was_just_written_after_eviction() {
    let mut rb: RingBuffer<i32> = RingBuffer::new(4);
    rb.push_samples(&[1, 2, 3]);
    let before = rb.total_written();
    rb.push_samples(&[4, 5, 6]);
    assert_eq!(rb.total_written(), 6);
    assert_eq!(rb.read_range(before, 3), vec![4, 5, 6]);
}

#[test]
fn oldest_samples_fall_off() {
    let mut rb: RingBuffer<i32> = RingBuffer::new(4);
    rb.push_samples(&[1, 2, 3, 4, 5, 6]);
    assert_eq!(rb.total_written(), 6);
    // positions 0 and 1 are gone; reading from them starts at position 2
    assert_eq!(rb.read_range(0, 10), vec![3, 4, 5, 6]);
    assert_eq!(rb.read_range(0, 2), vec![3, 4]);
    assert_eq!(rb.read_range(4, 10), vec![5, 6]);
}

#[test]
fn reading_at_or_past_end_is_empty() {
    let mut rb: RingBuffer<i32> = RingBuffer::new(4);
    rb.push_samples(&[7, 8]);
    assert!(rb.read_range(2, 5).is_empty());
    assert!(rb.read_range(100, 5).is_empty());
    assert!(rb.read_range(0, 0).is_empty());
}

#[test]
fn zero_capacity_keeps_nothing_but_counts() {
    let mut rb: RingBuffer<i32> = RingBuffer::new(0);
    rb.push_samples(&[1, 2, 3]);
    assert_eq!(rb.total_written(), 3);
    assert!(rb.read_range(0, 3).is_empty());
}

#[test]
fn many_small_pushes_keep_positions() {
    let mut rb: RingBuffer<u32> = RingBuffer::new(5);
    for i in 0..20u32 {
        rb.push_samples(&[i]);
    }
    assert_eq!(rb.total_written(), 20);
    assert_eq!(rb.read_range(15, 5), vec![15, 16, 17, 18, 19]);
    assert_eq!(rb.read_range(17, 1), vec![17]);
}
