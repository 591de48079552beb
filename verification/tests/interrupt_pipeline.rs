//! The interrupt-mode pipelines: foreground halves, background handlers and
//! the queue between them.

use jw_stm32f1_hal::retry::RetryTimes;
use jw_stm32f1_hal::uart::{Error, SoftUart, UartEvent, UartPeriph};
use jw_stm32f1_hal::uart_it::{UartInterruptRx, UartInterruptTx};

#[test]
fn write_enables_interrupt_and_reports_partial_count() {
    let (mut tx, _h, mut q) =
        UartInterruptTx::new((SoftUart::new(), SoftUart::new()), 4, RetryTimes::new(2), RetryTimes::new(2));
    assert_eq!(tx.write(&mut q, b"abcdef"), Ok(4));
    assert_eq!(q.occupied_len(), 4);
    assert!(tx.uart().is_interrupt_enable(UartEvent::TxEmpty));
}

#[test]
fn write_zero_length_is_refused() {
    let (mut tx, _h, mut q) =
        UartInterruptTx::new((SoftUart::new(), SoftUart::new()), 4, RetryTimes::new(2), RetryTimes::new(2));
    assert_eq!(tx.write(&mut q, b""), Err(Error::Other));
    assert_eq!(q.occupied_len(), 0);
}

#[test]
fn write_on_full_queue_is_busy_only_after_the_bound() {
    let bound = 3;
    let (mut tx, _h, mut q) = UartInterruptTx::new(
        (SoftUart::new(), SoftUart::new()),
        2,
        RetryTimes::new(bound),
        RetryTimes::new(2),
    );
    assert_eq!(tx.write(&mut q, b"xy"), Ok(2));
    let writes_before = tx.uart().it_writes();
    // queue full and no handler runs: the retry budget is consumed whole,
    // then Busy; the transmit interrupt stays enabled throughout
    assert_eq!(tx.write(&mut q, b"z"), Err(Error::Busy));
    assert_eq!(q.occupied_len(), 2);
    assert!(tx.uart().is_interrupt_enable(UartEvent::TxEmpty));
    // already enabled by the first write: the busy wait did not toggle it
    assert_eq!(tx.uart().it_writes(), writes_before);
}

#[test]
fn handler_drains_queue_and_releases_backpressure() {
    // the handler's projection of the peripheral is ready to send; its
    // enable bit mirrors what the foreground sets on the shared unit
    let mut u2 = SoftUart::new();
    u2.set_tx_ready(true);
    u2.set_interrupt(UartEvent::TxEmpty, true);
    let (mut tx, mut h, mut q) =
        UartInterruptTx::new((SoftUart::new(), u2), 8, RetryTimes::new(2), RetryTimes::new(2));
    assert_eq!(tx.write(&mut q, b"hi"), Ok(2));

    h.handler(&mut q);
    h.handler(&mut q);
    assert_eq!(q.occupied_len(), 0);
    assert_eq!(h.uart().sent_len(), 2);
    assert_eq!(h.uart().sent_at(0), b'h' as u16);
    assert_eq!(h.uart().sent_at(1), b'i' as u16);

    // one more run on the empty queue: the handler releases backpressure by
    // disabling the transmit-empty interrupt
    assert!(h.uart().is_interrupt_enable(UartEvent::TxEmpty));
    h.handler(&mut q);
    assert!(!h.uart().is_interrupt_enable(UartEvent::TxEmpty));
}

#[test]
fn handler_keeps_byte_queued_while_hardware_declines() {
    let (mut tx, mut h, mut q) =
        UartInterruptTx::new((SoftUart::new(), SoftUart::new()), 8, RetryTimes::new(2), RetryTimes::new(2));
    assert_eq!(tx.write(&mut q, b"a"), Ok(1));
    // the transmit register is not ready: the byte must stay queued
    h.handler(&mut q);
    assert_eq!(q.occupied_len(), 1);
    assert_eq!(h.uart().sent_len(), 0);
}

#[test]
fn flush_ok_when_hardware_idle_and_queue_empty() {
    let mut u = SoftUart::new();
    u.set_tx_ready(true);
    u.set_tx_done(true);
    let (mut tx, _h, q) =
        UartInterruptTx::new((u, SoftUart::new()), 4, RetryTimes::new(2), RetryTimes::new(2));
    assert_eq!(tx.flush(&q), Ok(()));
}

#[test]
fn flush_stalls_out_after_exactly_the_budget_of_unchanged_polls() {
    let bound = 2;
    let (mut tx, _h, mut q) = UartInterruptTx::new(
        (SoftUart::new(), SoftUart::new()),
        4,
        RetryTimes::new(2),
        RetryTimes::new(bound),
    );
    assert_eq!(tx.write(&mut q, b"ab"), Ok(2));
    // the handler never runs: occupancy never changes, and the flush gives
    // up only after `bound` polls with unchanged occupancy
    let mut p = tx.flush_begin(&q);
    assert_eq!(tx.flush_poll(&q, &mut p), None);
    assert_eq!(tx.flush_poll(&q, &mut p), None);
    assert_eq!(tx.flush_poll(&q, &mut p), Some(Err(Error::Other)));
    // the closed loop behaves the same
    assert_eq!(tx.flush(&q), Err(Error::Other));
}

#[test]
fn flush_resets_its_budget_while_data_drains() {
    let (mut tx, _h, mut q) = UartInterruptTx::new(
        (SoftUart::new(), SoftUart::new()),
        4,
        RetryTimes::new(2),
        RetryTimes::new(1),
    );
    assert_eq!(tx.write(&mut q, b"ab"), Ok(2));
    let mut p = tx.flush_begin(&q);
    // one poll with unchanged occupancy consumes the single attempt
    assert_eq!(tx.flush_poll(&q, &mut p), None);
    // data drains between polls: the stall detector restarts the budget
    q.pop();
    assert_eq!(tx.flush_poll(&q, &mut p), None);
    // unchanged again: one attempt left, then the timeout
    assert_eq!(tx.flush_poll(&q, &mut p), None);
    assert_eq!(tx.flush_poll(&q, &mut p), Some(Err(Error::Other)));
}

#[test]
fn rx_handler_queues_received_words() {
    let mut u2 = SoftUart::new();
    u2.push_rx(b'o' as u16);
    u2.push_rx(b'k' as u16);
    let (mut rx, mut h, mut q) =
        UartInterruptRx::new((SoftUart::new(), u2), 8, RetryTimes::new(2));
    // the handler half starts listening for received data
    assert!(h.uart().is_interrupt_enable(UartEvent::RxNotEmpty));
    h.handler(&mut q);
    h.handler(&mut q);
    assert_eq!(rx.read(&mut q, 10), Ok(b"ok".to_vec()));
}

#[test]
fn rx_read_empty_queue_is_busy_and_keeps_listening() {
    let (mut rx, _h, mut q) =
        UartInterruptRx::new((SoftUart::new(), SoftUart::new()), 8, RetryTimes::new(2));
    assert_eq!(rx.read(&mut q, 4), Err(Error::Busy));
    assert!(rx.uart().is_interrupt_enable(UartEvent::RxNotEmpty));
    assert_eq!(rx.read(&mut q, 0), Err(Error::Other));
}

#[test]
fn rx_handler_counts_dropped_words() {
    let mut u2 = SoftUart::new();
    u2.push_rx(1);
    u2.push_rx(2);
    u2.push_rx(3);
    let (_rx, mut h, mut q) = UartInterruptRx::new((SoftUart::new(), u2), 1, RetryTimes::new(2));
    h.handler(&mut q);
    assert_eq!(h.overrun_count(), 0);
    // the queue is full: the next two words are dropped and counted
    h.handler(&mut q);
    h.handler(&mut q);
    assert_eq!(h.overrun_count(), 2);
    assert_eq!(q.occupied_len(), 1);
}
