//! Configuration builders, timer arithmetic, events and the callback
//! registry.

use jw_stm32f1_hal::interrupt::{Callback, InterruptController, SoftInterruptController};
use jw_stm32f1_hal::retry::RetryTimes;
use jw_stm32f1_hal::timer::{compute_prescaler_arr, Channel, Event, Ocm, PwmMode};
use jw_stm32f1_hal::uart::{
    classify_read, rx_status_error, Config, Error, NbError, Parity, SoftUart, StopBits, Uart,
    UartEvent, UartPeriph, WordLength,
};

#[test]
fn config_default_and_builders() {
    let c = Config::default();
    assert_eq!(c.baudrate, 115200);
    assert!(matches!(c.word_length, WordLength::Bits8));
    assert!(matches!(c.parity, Parity::ParityNone));
    assert!(matches!(c.stop_bits, StopBits::STOP1));

    let c = Config::default()
        .baudrate(9600)
        .word_length_9bits()
        .parity_even()
        .stop_bits(StopBits::STOP2);
    assert_eq!(c.baudrate, 9600);
    assert!(matches!(c.word_length, WordLength::Bits9));
    assert!(matches!(c.parity, Parity::ParityEven));
    assert!(matches!(c.stop_bits, StopBits::STOP2));

    let c = c.word_length_8bits().parity_odd();
    assert!(matches!(c.word_length, WordLength::Bits8));
    assert!(matches!(c.parity, Parity::ParityOdd));
    let c = c.parity_none().word_length(WordLength::Bits9).parity(Parity::ParityEven);
    assert!(matches!(c.word_length, WordLength::Bits9));
    assert!(matches!(c.parity, Parity::ParityEven));
}

#[test]
fn prescaler_arr_splits_the_period() {
    // 72 MHz clock, 1 kHz update: 72000 ticks = (1+1) * (35999+1)
    let (psc, arr) = compute_prescaler_arr(72_000_000, 1_000);
    assert_eq!((psc, arr), (1, 35_999));
    // fits in one pass: prescaler 0
    let (psc, arr) = compute_prescaler_arr(1_000_000, 20_000);
    assert_eq!((psc, arr), (0, 49));
    // the degenerate 1:1 case
    assert_eq!(compute_prescaler_arr(8, 8), (0, 0));
}

#[test]
fn timer_event_bits() {
    let e = Event::update().union(Event::c2());
    assert!(e.contains(Event::update()));
    assert!(e.contains(Event::c2()));
    assert!(!e.contains(Event::c1()));
    assert!(!Event::empty().contains(Event::update()));
    assert!(e.contains(Event::empty()));
}

#[test]
fn ocm_encoding_and_pwm_mode() {
    assert_eq!(Ocm::from(PwmMode::Mode1).bits(), 6);
    assert_eq!(Ocm::from(PwmMode::Mode2).bits(), 7);
    assert_eq!(Ocm::Frozen.bits(), 0);
    assert_eq!(Ocm::Toggle.bits(), 3);
    assert!(matches!(Channel::C3, Channel::C3));
}

#[test]
fn rx_status_classification() {
    // a waiting word wins over everything
    assert_eq!(classify_read(true, 0x41, true, true, true, true), Ok(0x41));
    // the latch is read in priority order
    assert_eq!(rx_status_error(true, true, true, true), Some(Error::Parity));
    assert_eq!(rx_status_error(false, true, true, true), Some(Error::FrameFormat));
    assert_eq!(rx_status_error(false, false, true, true), Some(Error::Noise));
    assert_eq!(rx_status_error(false, false, false, true), Some(Error::Overrun));
    assert_eq!(rx_status_error(false, false, false, false), None);
    assert_eq!(
        classify_read(false, 0, false, false, false, true),
        Err(NbError::Other(Error::Overrun))
    );
    assert_eq!(classify_read(false, 0, false, false, false, false), Err(NbError::WouldBlock));
}

#[test]
fn callback_slot_is_write_once_and_enables_the_line() {
    let mut ctl = SoftInterruptController::new();
    let mut cb = Callback::new(37);
    assert_eq!(cb.line(), 37);
    assert!(!cb.is_set());
    assert_eq!(cb.get(), None);
    assert!(!ctl.enabled(37));
    cb.set(7, &mut ctl);
    assert!(cb.is_set());
    assert_eq!(cb.get(), Some(7));
    assert_eq!(cb.line(), 37);
    // registration enabled exactly this line at the controller
    assert!(ctl.enabled(37));
    assert!(!ctl.enabled(38));
}

#[test]
fn soft_interrupt_controller_toggles_single_lines() {
    let mut ctl = SoftInterruptController::new();
    ctl.enable(5, true);
    ctl.enable(9, true);
    assert!(ctl.enabled(5));
    assert!(ctl.enabled(9));
    assert!(!ctl.enabled(6));
    ctl.enable(5, false);
    assert!(!ctl.enabled(5));
    assert!(ctl.enabled(9));
    ctl.set_priority(9, 3);
    assert!(ctl.enabled(9));
}

#[test]
fn uart_split_and_idle_interrupt() {
    let unit = Uart::new(SoftUart::new());
    let mut idle = unit.get_idle_interrupt_handler();
    idle.listen(UartEvent::Idle);
    let (tx, rx) = unit.into_tx_rx();
    let mut poll_tx = tx.into_poll(RetryTimes::new(1), 2);
    let mut poll_rx = rx.into_poll(RetryTimes::new(1), 2);
    // nothing is wired to the soft unit: both sides report their no-data
    // outcomes rather than panicking
    assert!(poll_tx.write(b"x").is_err());
    assert!(poll_rx.read(1).is_err());
    assert!(!idle.is_interrupted(UartEvent::Idle));
    idle.unlisten(UartEvent::Idle);
}
