//! The single-producer/single-consumer byte queue.

use jw_stm32f1_hal::ringbuf::RingBuffer;

#[test]
fn occupied_plus_slots_is_capacity_at_every_point() {
    let n = 5;
    let mut q = RingBuffer::new(n);
    assert_eq!(q.occupied_len() + q.slots(), n);
    for round in 0..3 {
        for b in 0..4u8 {
            q.push(b.wrapping_add(round));
            assert_eq!(q.occupied_len() + q.slots(), n);
        }
        while q.pop().is_some() {
            assert_eq!(q.occupied_len() + q.slots(), n);
        }
    }
    // also across partial slice operations
    q.push_slice(&[1, 2, 3, 4, 5, 6, 7]);
    assert_eq!(q.occupied_len() + q.slots(), n);
    q.pop_slice(2);
    assert_eq!(q.occupied_len() + q.slots(), n);
}

#[test]
fn partial_push_reports_free_and_later_completes() {
    let mut q = RingBuffer::new(4);
    q.push(0xAA);
    // only 3 slots free: a 5-byte slice goes in partially
    let data = [1u8, 2, 3, 4, 5];
    let n = q.push_slice(&data);
    assert_eq!(n, 3);
    assert_eq!(q.slots(), 0);
    // room frees up; the remainder goes in whole
    assert_eq!(q.pop(), Some(0xAA));
    assert_eq!(q.pop(), Some(1));
    let n2 = q.push_slice(&data[n..]);
    assert_eq!(n2, 2);
    // nothing was lost and the order is kept
    assert_eq!(q.pop_slice(10), vec![2, 3, 4, 5]);
}

#[test]
fn fifo_order_across_wraparound() {
    let mut q = RingBuffer::new(3);
    for round in 0..5u8 {
        assert!(q.push(round));
        assert!(q.push(round.wrapping_add(100)));
        assert_eq!(q.pop(), Some(round));
        assert_eq!(q.pop(), Some(round.wrapping_add(100)));
    }
    assert!(q.is_empty());
}

#[test]
fn push_on_full_and_pop_on_empty() {
    let mut q = RingBuffer::new(2);
    assert_eq!(q.pop(), None);
    assert_eq!(q.peek(), None);
    assert!(q.push(7));
    assert!(q.push(8));
    assert!(q.is_full());
    assert!(!q.push(9));
    assert_eq!(q.peek(), Some(7));
    assert_eq!(q.pop_slice(5), vec![7, 8]);
    assert_eq!(q.pop_slice(5), vec![]);
}

#[test]
fn zero_capacity_queue_accepts_nothing() {
    let mut q = RingBuffer::new(0);
    assert_eq!(q.capacity(), 0);
    assert!(!q.push(1));
    assert_eq!(q.pop(), None);
    assert_eq!(q.push_slice(&[1, 2]), 0);
}
