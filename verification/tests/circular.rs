//! The DMA circular capture buffer, driven as the hardware would drive it.

use jw_stm32f1_hal::dma::{CircularBuffer, DmaCircularBufferRx, DmaChannel, SoftDmaChannel};

#[test]
fn circular_buffer() {
    let buf_size = 13;
    let mut buf = CircularBuffer::new(buf_size);
    assert_eq!(buf.len(), buf_size);

    for i in 0..buf_size {
        buf.set_slot(i, i as u8);
    }

    assert_eq!(buf.read(5, usize::MAX), Some(vec![0u8, 1, 2, 3, 4, 5, 6, 7]));
    assert_eq!(buf.read(5, usize::MAX), None);
    // Single wraparound
    assert_eq!(buf.read(0, usize::MAX), Some(vec![8u8, 9, 10, 11, 12]));
    assert_eq!(buf.read(0, usize::MAX), None);
    assert_eq!(buf.read(buf_size, usize::MAX), None);
    // small max
    assert_eq!(buf.read(5, 5), Some(vec![0u8, 1, 2, 3, 4]));
    assert_eq!(buf.read(5, 5), Some(vec![5u8, 6, 7]));
    assert_eq!(buf.read(5, 5), None);
    assert_eq!(buf.read(0, usize::MAX), Some(vec![8u8, 9, 10, 11, 12]));
    // Multiple wraparounds
    assert_eq!(buf.read(5, usize::MAX), Some(vec![0u8, 1, 2, 3, 4, 5, 6, 7]));
    assert_eq!(buf.read(10, usize::MAX), Some(vec![8u8, 9, 10, 11, 12]));
    assert_eq!(buf.read(10, usize::MAX), Some(vec![0u8, 1, 2]));
    assert_eq!(buf.read(10, usize::MAX), None);
}

#[test]
fn circular_buffer_three_wrap_cycles() {
    // Repeated full cycles recover exactly what was written, with no
    // duplication or loss, and the cursor never leaves the array.
    let m = 7;
    let mut buf = CircularBuffer::new(m);
    for i in 0..m {
        buf.set_slot(i, (10 + i) as u8);
    }
    for _cycle in 0..3 {
        // the hardware stands two short of the end: five bytes pending
        assert_eq!(buf.read(2, usize::MAX), Some(vec![10u8, 11, 12, 13, 14]));
        // the hardware wrapped to 0: the last two bytes complete the lap
        assert_eq!(buf.read(0, usize::MAX), Some(vec![15u8, 16]));
        assert_eq!(buf.read(0, usize::MAX), None);
    }
}

#[test]
fn circular_buffer_empty_and_zero_max() {
    let mut buf = CircularBuffer::new(4);
    // nothing written yet: cursor equals the derived hardware index
    assert_eq!(buf.read(4, usize::MAX), None);
    // asking for nothing returns nothing and moves nothing
    buf.set_slot(0, 9);
    assert_eq!(buf.read(2, 0), None);
    assert_eq!(buf.read(2, usize::MAX), Some(vec![9u8, 0]));
}

#[test]
fn dma_circular_buffer_rx_reads_through_channel() {
    // the channel reports 5 units left of 13: eight bytes are pending
    let mut ch = SoftDmaChannel::new();
    ch.set_left(5);
    let mut rx = DmaCircularBufferRx::new(ch, 0x4000_0004, 13);
    assert_eq!(rx.read(usize::MAX), Some(vec![0u8; 8]));
    assert_eq!(rx.read(usize::MAX), None);
    // a bounded read splits the run without losing its tail
    let mut ch2 = SoftDmaChannel::new();
    ch2.set_left(5);
    let mut rx2 = DmaCircularBufferRx::new(ch2, 0x4000_0004, 13);
    assert_eq!(rx2.read(5), Some(vec![0u8; 5]));
    assert_eq!(rx2.read(5), Some(vec![0u8; 3]));
    assert_eq!(rx2.read(5), None);
}

#[test]
fn dma_circular_buffer_rx_arms_the_channel() {
    let ch = SoftDmaChannel::new();
    let rx = DmaCircularBufferRx::new(ch, 0x4000_0004, 13);
    // armed circular, peripheral-to-memory, over the register address, and
    // running from the moment new returns
    assert!(rx.channel_ref().is_running());
    assert!(rx.channel_ref().is_circular());
    assert!(!rx.channel_ref().is_mem_to_periph());
    assert_eq!(rx.channel_ref().peripheral_address(), 0x4000_0004);
}

#[test]
fn soft_dma_channel_clamps_left_len() {
    let mut ch = SoftDmaChannel::new();
    ch.set_transfer_length(8);
    ch.set_left(100);
    assert_eq!(ch.get_left_len(), 8);
    ch.set_left(3);
    assert_eq!(ch.get_left_len(), 3);
    assert!(!ch.in_progress());
    ch.start();
    assert!(ch.in_progress());
    ch.stop();
    assert!(!ch.in_progress());
}
