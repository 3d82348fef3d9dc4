use nodo_tui::metrics::MetricRingBuffer;

#[test]
fn fresh_buffer_charts_zeros() {
    let buffer = MetricRingBuffer::new(4);
    assert_eq!(buffer.capacity(), 4);
    assert_eq!(buffer.samples(), &vec![0, 0, 0, 0]);
    assert_eq!(buffer.snapshot(), vec![0, 0, 0, 0]);
}

#[test]
fn fewer_pushes_than_capacity_are_padded_with_zeros_in_front() {
    let mut buffer = MetricRingBuffer::new(5);
    buffer.push(10);
    buffer.push(20);
    assert_eq!(buffer.snapshot(), vec![0, 0, 0, 10, 20]);
    assert_eq!(buffer.samples().len(), 5);
}

#[test]
fn exactly_capacity_pushes_fill_the_window() {
    let mut buffer = MetricRingBuffer::new(3);
    buffer.push(1);
    buffer.push(2);
    buffer.push(3);
    assert_eq!(buffer.snapshot(), vec![1, 2, 3]);
}

#[test]
fn more_pushes_than_capacity_keep_the_newest_in_order() {
    let mut buffer = MetricRingBuffer::new(3);
    for sample in [11, 22, 33, 44, 55] {
        buffer.push(sample);
    }
    assert_eq!(buffer.snapshot(), vec![33, 44, 55]);
    assert_eq!(buffer.samples(), &vec![33, 44, 55]);
}

#[test]
fn snapshot_always_has_capacity_samples() {
    for capacity in 0..6usize {
        let mut buffer = MetricRingBuffer::new(capacity);
        for pushed in 0..10u64 {
            assert_eq!(buffer.snapshot().len(), capacity);
            buffer.push(pushed);
            assert!(buffer.samples().len() <= capacity);
        }
        let expected: Vec<u64> = (0..10u64).skip(10 - capacity).collect();
        assert_eq!(buffer.snapshot(), expected);
    }
}

#[test]
fn buffer_without_capacity_holds_nothing() {
    let mut buffer = MetricRingBuffer::new(0);
    buffer.push(50);
    assert_eq!(buffer.samples().len(), 0);
    assert_eq!(buffer.snapshot(), Vec::<u64>::new());
}

#[test]
fn chart_of_five_hundred_samples() {
    let mut buffer = MetricRingBuffer::new(500);
    buffer.push(42);
    let window = buffer.snapshot();
    assert_eq!(window.len(), 500);
    assert_eq!(window[499], 42);
    assert!(window[..499].iter().all(|sample| *sample == 0));
}
