//! The poll-mode pipelines and the DMA-mode receiver.

use jw_stm32f1_hal::dma::SoftDmaChannel;
use jw_stm32f1_hal::retry::RetryTimes;
use jw_stm32f1_hal::uart::{Error, SoftUart, UartPeriph};
use jw_stm32f1_hal::uart_dma::UartDmaRx;
use jw_stm32f1_hal::uart_poll::{UartPollRx, UartPollTx};

#[test]
fn poll_write_sends_whole_buffer_when_ready() {
    let mut u = SoftUart::new();
    u.set_tx_ready(true);
    let mut tx = UartPollTx::new(u, RetryTimes::new(2), 3);
    assert_eq!(tx.write(b"abc"), Ok(3));
    assert_eq!(tx.uart().sent_len(), 3);
    assert_eq!(tx.uart().sent_at(0), b'a' as u16);
    assert_eq!(tx.uart().sent_at(2), b'c' as u16);
}

#[test]
fn poll_write_zero_length_is_refused() {
    let mut tx = UartPollTx::new(SoftUart::new(), RetryTimes::new(2), 3);
    assert_eq!(tx.write(b""), Err(Error::Other));
}

#[test]
fn poll_write_busy_when_hardware_never_ready() {
    let mut tx = UartPollTx::new(SoftUart::new(), RetryTimes::new(4), 3);
    assert_eq!(tx.write(b"abc"), Err(Error::Busy));
    assert_eq!(tx.uart().sent_len(), 0);
}

#[test]
fn poll_flush_observes_both_flags() {
    let mut u = SoftUart::new();
    u.set_tx_ready(true);
    let mut tx = UartPollTx::new(u, RetryTimes::new(2), 3);
    // transmit-complete still clear: the flush times out
    assert_eq!(tx.flush(), Err(Error::Other));
    let mut u = SoftUart::new();
    u.set_tx_ready(true);
    u.set_tx_done(true);
    let mut tx = UartPollTx::new(u, RetryTimes::new(2), 3);
    assert_eq!(tx.flush(), Ok(()));
}

#[test]
fn poll_read_drains_a_burst_and_returns_partial_count() {
    let mut u = SoftUart::new();
    u.push_rx(b'h' as u16);
    u.push_rx(b'e' as u16);
    u.push_rx(b'y' as u16);
    let mut rx = UartPollRx::new(u, RetryTimes::new(2), 1);
    // a short bursty line is drained without waiting for a full buffer
    assert_eq!(rx.read(16), Ok(b"hey".to_vec()));
}

#[test]
fn poll_read_stops_at_max() {
    let mut u = SoftUart::new();
    u.push_rx(1);
    u.push_rx(2);
    u.push_rx(3);
    let mut rx = UartPollRx::new(u, RetryTimes::new(2), 1);
    assert_eq!(rx.read(2), Ok(vec![1, 2]));
    assert_eq!(rx.read(2), Ok(vec![3]));
}

#[test]
fn poll_read_busy_when_nothing_arrives() {
    let mut rx = UartPollRx::new(SoftUart::new(), RetryTimes::new(3), 1);
    assert_eq!(rx.read(4), Err(Error::Busy));
    assert_eq!(rx.read(0), Err(Error::Other));
}

#[test]
fn dma_rx_enables_the_request_line() {
    let ch = SoftDmaChannel::new();
    let rx = UartDmaRx::new(SoftUart::new(), ch, 8, RetryTimes::new(1));
    assert!(rx.uart().dma_rx_on());
    assert!(!rx.uart().dma_tx_on());
}

#[test]
fn dma_rx_returns_captured_run() {
    // the channel reports 5 of 13 still to transfer: eight bytes captured
    let mut ch = SoftDmaChannel::new();
    ch.set_left(5);
    let mut rx = UartDmaRx::new(SoftUart::new(), ch, 13, RetryTimes::new(2));
    assert_eq!(rx.read(usize::MAX), Ok(vec![0u8; 8]));
    // drained: nothing new arrives, so the retry budget runs out
    assert_eq!(rx.read(usize::MAX), Err(Error::Other));
    assert_eq!(rx.read(0), Err(Error::Other));
}
