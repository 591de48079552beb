//! UART types and the peripheral register capability.
//!
//! One physical UART is split by field, not by time: the transmit-side
//! registers belong to the transmit pipeline's handles, the receive-side
//! registers to the receive pipeline's.  A pipeline gets two handles to the
//! same unit — one for the foreground half, one for the background handler —
//! created exactly once by the factory methods on [`Tx`] and [`Rx`] and never
//! re-aliased again; each handle only ever touches its own register subset.
//! The interrupt-enable bits are the sole state both contexts toggle, one
//! whole-register write at a time.

use crate::dma::DmaChannel;
use crate::retry::Timeout;
use crate::ringbuf::RingBuffer;
use crate::uart_dma::UartDmaRx;
use crate::uart_it::{
    UartInterruptRx, UartInterruptRxHandler, UartInterruptTx, UartInterruptTxHandler,
};
use crate::uart_poll::{UartPollRx, UartPollTx};
use vstd::prelude::*;

verus! {

/// UART error conditions.
#[derive(Clone, Copy, Debug, PartialEq, Eq)]
#[non_exhaustive]
pub enum Error {
    /// The peripheral receive buffer was overrun.
    Overrun,
    /// Received data does not conform to the peripheral configuration.
    /// Can be caused by a misconfigured device on either end of the line.
    FrameFormat,
    /// Parity check failed.
    Parity,
    /// The line is too noisy to read valid data.
    Noise,
    /// The peripheral or its queue is busy and cannot accept new data.
    Busy,
    /// A different error occurred: a zero-length request, or a flush or DMA
    /// read that timed out.
    Other,
}

/// Outcome of one non-blocking register operation: not ready yet, or a
/// hardware error latched in the status register.
#[derive(Clone, Copy, Debug, PartialEq, Eq)]
pub enum NbError {
    /// The operation would have to wait; try again.
    WouldBlock,
    /// A hardware error was latched.
    Other(Error),
}

/// UART interrupt sources.
#[derive(Clone, Copy, Debug, PartialEq, Eq)]
pub enum UartEvent {
    /// New data can be sent.
    TxEmpty,
    /// New data has been received.
    RxNotEmpty,
    /// Idle line state detected.
    Idle,
}

/// Data bits per word.
#[derive(Clone, Copy, Debug, PartialEq, Eq)]
pub enum WordLength {
    /// With parity enabled, 7 data bits + 1 parity bit; otherwise 8 data
    /// bits.
    Bits8,
    /// With parity enabled, 8 data bits + 1 parity bit; otherwise 9 data
    /// bits.
    Bits9,
}

/// Parity mode.
#[derive(Clone, Copy, Debug, PartialEq, Eq)]
pub enum Parity {
    ParityNone,
    ParityEven,
    ParityOdd,
}

/// Stop bits after each word.
#[derive(Clone, Copy, Debug, PartialEq, Eq)]
pub enum StopBits {
    /// 1 stop bit
    STOP1,
    /// 0.5 stop bits
    STOP0P5,
    /// 2 stop bits
    STOP2,
    /// 1.5 stop bits
    STOP1P5,
}

/// Line configuration of a UART.
pub struct Config {
    pub baudrate: u32,
    pub word_length: WordLength,
    pub parity: Parity,
    pub stop_bits: StopBits,
}

impl Default for Config {
    /// 115200 baud, 8 data bits, no parity, 1 stop bit.
    fn default() -> (r: Config)
        ensures
            r.baudrate == 115200,
            r.word_length == WordLength::Bits8,
            r.parity == Parity::ParityNone,
            r.stop_bits == StopBits::STOP1,
    {
        Config {
            baudrate: 115200,
            word_length: WordLength::Bits8,
            parity: Parity::ParityNone,
            stop_bits: StopBits::STOP1,
        }
    }
}

impl Config {
    pub fn baudrate(self, baudrate: u32) -> (r: Config)
        ensures
            r.baudrate == baudrate,
            r.word_length == self.word_length,
            r.parity == self.parity,
            r.stop_bits == self.stop_bits,
    {
        Config {
            baudrate,
            word_length: self.word_length,
            parity: self.parity,
            stop_bits: self.stop_bits,
        }
    }

    pub fn word_length(self, word_length: WordLength) -> (r: Config)
        ensures
            r.baudrate == self.baudrate,
            r.word_length == word_length,
            r.parity == self.parity,
            r.stop_bits == self.stop_bits,
    {
        Config {
            baudrate: self.baudrate,
            word_length,
            parity: self.parity,
            stop_bits: self.stop_bits,
        }
    }

    pub fn word_length_8bits(self) -> (r: Config)
        ensures
            r.baudrate == self.baudrate,
            r.word_length == WordLength::Bits8,
            r.parity == self.parity,
            r.stop_bits == self.stop_bits,
    {
        self.word_length(WordLength::Bits8)
    }

    pub fn word_length_9bits(self) -> (r: Config)
        ensures
            r.baudrate == self.baudrate,
            r.word_length == WordLength::Bits9,
            r.parity == self.parity,
            r.stop_bits == self.stop_bits,
    {
        self.word_length(WordLength::Bits9)
    }

    pub fn parity(self, parity: Parity) -> (r: Config)
        ensures
            r.baudrate == self.baudrate,
            r.word_length == self.word_length,
            r.parity == parity,
            r.stop_bits == self.stop_bits,
    {
        Config {
            baudrate: self.baudrate,
            word_length: self.word_length,
            parity,
            stop_bits: self.stop_bits,
        }
    }

    pub fn parity_none(self) -> (r: Config)
        ensures
            r.baudrate == self.baudrate,
            r.word_length == self.word_length,
            r.parity == Parity::ParityNone,
            r.stop_bits == self.stop_bits,
    {
        self.parity(Parity::ParityNone)
    }

    pub fn parity_even(self) -> (r: Config)
        ensures
            r.baudrate == self.baudrate,
            r.word_length == self.word_length,
            r.parity == Parity::ParityEven,
            r.stop_bits == self.stop_bits,
    {
        self.parity(Parity::ParityEven)
    }

    pub fn parity_odd(self) -> (r: Config)
        ensures
            r.baudrate == self.baudrate,
            r.word_length == self.word_length,
            r.parity == Parity::ParityOdd,
            r.stop_bits == self.stop_bits,
    {
        self.parity(Parity::ParityOdd)
    }

    pub fn stop_bits(self, stop_bits: StopBits) -> (r: Config)
        ensures
            r.baudrate == self.baudrate,
            r.word_length == self.word_length,
            r.parity == self.parity,
            r.stop_bits == stop_bits,
    {
        Config {
            baudrate: self.baudrate,
            word_length: self.word_length,
            parity: self.parity,
            stop_bits,
        }
    }
}

/// The register contract a UART peripheral presents to the pipelines.
///
/// The model is sequential: the peripheral's visible state changes only
/// through these calls.  `sent_spec` is the transcript of words the
/// peripheral accepted, `pending_spec` the received words not yet read out,
/// `tx_ready_spec`/`tx_done_spec` the transmit status flags, `it_enabled`
/// the software-owned interrupt-enable bits and `dma_tx_spec`/`dma_rx_spec`
/// the DMA request lines.  A handle over real hardware realises the
/// asynchronous flag behaviour inside `write`, which alone may leave the
/// transmit flags in any state; every other operation touches exactly what
/// its clauses say.
pub trait UartPeriph: Sized {
    /// Whether the interrupt source `event` is currently enabled.
    spec fn it_enabled(&self, event: UartEvent) -> bool;

    /// The words the peripheral accepted for transmission, in order.
    spec fn sent_spec(&self) -> Seq<u16>;

    /// The received words not yet read out, in arrival order.
    spec fn pending_spec(&self) -> Seq<u16>;

    /// The "transmit register empty" flag.
    spec fn tx_ready_spec(&self) -> bool;

    /// The "transmit complete" flag.
    spec fn tx_done_spec(&self) -> bool;

    /// Whether the DMA transmit request line is enabled.
    spec fn dma_tx_spec(&self) -> bool;

    /// Whether the DMA receive request line is enabled.
    spec fn dma_rx_spec(&self) -> bool;

    /// The address of the transmit data register, a fixed property of the
    /// unit.
    spec fn tx_addr_spec(&self) -> u32;

    /// The address of the receive data register, a fixed property of the
    /// unit.
    spec fn rx_addr_spec(&self) -> u32;

    /// Enables or disables the DMA transmit request line.
    fn set_dma_tx(&mut self, enable: bool)
        ensures
            final(self).dma_tx_spec() == enable,
            final(self).dma_rx_spec() == old(self).dma_rx_spec(),
            final(self).it_enabled(UartEvent::TxEmpty) == old(self).it_enabled(
                UartEvent::TxEmpty,
            ),
            final(self).it_enabled(UartEvent::RxNotEmpty) == old(self).it_enabled(
                UartEvent::RxNotEmpty,
            ),
            final(self).it_enabled(UartEvent::Idle) == old(self).it_enabled(UartEvent::Idle),
            final(self).sent_spec() == old(self).sent_spec(),
            final(self).pending_spec() == old(self).pending_spec(),
            final(self).tx_ready_spec() == old(self).tx_ready_spec(),
            final(self).tx_done_spec() == old(self).tx_done_spec(),
    ;

    /// Enables or disables the DMA receive request line.
    fn set_dma_rx(&mut self, enable: bool)
        ensures
            final(self).dma_rx_spec() == enable,
            final(self).dma_tx_spec() == old(self).dma_tx_spec(),
            final(self).it_enabled(UartEvent::TxEmpty) == old(self).it_enabled(
                UartEvent::TxEmpty,
            ),
            final(self).it_enabled(UartEvent::RxNotEmpty) == old(self).it_enabled(
                UartEvent::RxNotEmpty,
            ),
            final(self).it_enabled(UartEvent::Idle) == old(self).it_enabled(UartEvent::Idle),
            final(self).sent_spec() == old(self).sent_spec(),
            final(self).pending_spec() == old(self).pending_spec(),
            final(self).tx_ready_spec() == old(self).tx_ready_spec(),
            final(self).tx_done_spec() == old(self).tx_done_spec(),
    ;

    /// The address of the transmit data register, for DMA.
    fn get_tx_data_reg_addr(&self) -> (r: u32)
        ensures
            r == self.tx_addr_spec(),
    ;

    /// The address of the receive data register, for DMA.
    fn get_rx_data_reg_addr(&self) -> (r: u32)
        ensures
            r == self.rx_addr_spec(),
    ;

    /// Offers one word to the transmit register: taken exactly when the
    /// register is empty, and then appended to the transcript, else
    /// would-block — hardware errors are latched on the receive side only.
    /// The status flags may settle to anything afterwards.
    fn write(&mut self, word: u16) -> (r: Result<(), NbError>)
        ensures
            r is Ok <==> old(self).tx_ready_spec(),
            !old(self).tx_ready_spec() ==> r == Err::<(), NbError>(NbError::WouldBlock),
            old(self).tx_ready_spec() ==> final(self).sent_spec() == old(self).sent_spec().push(
                word,
            ),
            !old(self).tx_ready_spec() ==> final(self).sent_spec() == old(self).sent_spec(),
            final(self).it_enabled(UartEvent::TxEmpty) == old(self).it_enabled(
                UartEvent::TxEmpty,
            ),
            final(self).it_enabled(UartEvent::RxNotEmpty) == old(self).it_enabled(
                UartEvent::RxNotEmpty,
            ),
            final(self).it_enabled(UartEvent::Idle) == old(self).it_enabled(UartEvent::Idle),
            final(self).pending_spec() == old(self).pending_spec(),
            final(self).dma_tx_spec() == old(self).dma_tx_spec(),
            final(self).dma_rx_spec() == old(self).dma_rx_spec(),
    ;

    /// Takes the next received word when one waits; with nothing waiting it
    /// answers would-block or the latched hardware error.
    fn read(&mut self) -> (r: Result<u16, NbError>)
        ensures
            old(self).pending_spec().len() > 0 ==> r == Ok::<u16, NbError>(
                old(self).pending_spec()[0],
            ) && final(self).pending_spec() == old(self).pending_spec().skip(1),
            old(self).pending_spec().len() == 0 ==> (r is Err) && final(self).pending_spec()
                == old(self).pending_spec(),
            final(self).it_enabled(UartEvent::TxEmpty) == old(self).it_enabled(
                UartEvent::TxEmpty,
            ),
            final(self).it_enabled(UartEvent::RxNotEmpty) == old(self).it_enabled(
                UartEvent::RxNotEmpty,
            ),
            final(self).it_enabled(UartEvent::Idle) == old(self).it_enabled(UartEvent::Idle),
            final(self).sent_spec() == old(self).sent_spec(),
            final(self).tx_ready_spec() == old(self).tx_ready_spec(),
            final(self).tx_done_spec() == old(self).tx_done_spec(),
            final(self).dma_tx_spec() == old(self).dma_tx_spec(),
            final(self).dma_rx_spec() == old(self).dma_rx_spec(),
    ;

    /// Whether the transmit data register is empty.
    fn is_tx_empty(&self) -> (r: bool)
        ensures
            r == self.tx_ready_spec(),
    ;

    /// Whether the last transmission has fully left the shift register.
    fn is_tx_complete(&self) -> (r: bool)
        ensures
            r == self.tx_done_spec(),
    ;

    /// Whether a received word is waiting.
    fn is_rx_not_empty(&self) -> (r: bool)
        ensures
            r == (self.pending_spec().len() > 0),
    ;

    /// Enables or disables one interrupt source, leaving everything else as
    /// it is.
    fn set_interrupt(&mut self, event: UartEvent, enable: bool)
        ensures
            final(self).it_enabled(event) == enable,
            event != UartEvent::TxEmpty ==> final(self).it_enabled(UartEvent::TxEmpty) == old(
                self,
            ).it_enabled(UartEvent::TxEmpty),
            event != UartEvent::RxNotEmpty ==> final(self).it_enabled(UartEvent::RxNotEmpty)
                == old(self).it_enabled(UartEvent::RxNotEmpty),
            event != UartEvent::Idle ==> final(self).it_enabled(UartEvent::Idle) == old(
                self,
            ).it_enabled(UartEvent::Idle),
            final(self).sent_spec() == old(self).sent_spec(),
            final(self).pending_spec() == old(self).pending_spec(),
            final(self).tx_ready_spec() == old(self).tx_ready_spec(),
            final(self).tx_done_spec() == old(self).tx_done_spec(),
            final(self).dma_tx_spec() == old(self).dma_tx_spec(),
            final(self).dma_rx_spec() == old(self).dma_rx_spec(),
    ;

    /// Whether one interrupt source is enabled.
    fn is_interrupt_enable(&self, event: UartEvent) -> (r: bool)
        ensures
            r == self.it_enabled(event),
    ;

    /// Whether `event` is both raised and enabled; clears what must be
    /// cleared for the idle line.
    fn is_interrupted(&mut self, event: UartEvent) -> (r: bool)
        ensures
            final(self).it_enabled(UartEvent::TxEmpty) == old(self).it_enabled(
                UartEvent::TxEmpty,
            ),
            final(self).it_enabled(UartEvent::RxNotEmpty) == old(self).it_enabled(
                UartEvent::RxNotEmpty,
            ),
            final(self).it_enabled(UartEvent::Idle) == old(self).it_enabled(UartEvent::Idle),
            final(self).sent_spec() == old(self).sent_spec(),
            final(self).pending_spec() == old(self).pending_spec(),
            final(self).tx_ready_spec() == old(self).tx_ready_spec(),
            final(self).tx_done_spec() == old(self).tx_done_spec(),
            final(self).dma_tx_spec() == old(self).dma_tx_spec(),
            final(self).dma_rx_spec() == old(self).dma_rx_spec(),
    ;

    /// Clears the framing/parity/noise/overrun error latch.
    fn clear_err_flag(&mut self)
        ensures
            final(self).it_enabled(UartEvent::TxEmpty) == old(self).it_enabled(
                UartEvent::TxEmpty,
            ),
            final(self).it_enabled(UartEvent::RxNotEmpty) == old(self).it_enabled(
                UartEvent::RxNotEmpty,
            ),
            final(self).it_enabled(UartEvent::Idle) == old(self).it_enabled(UartEvent::Idle),
            final(self).sent_spec() == old(self).sent_spec(),
            final(self).pending_spec() == old(self).pending_spec(),
            final(self).tx_ready_spec() == old(self).tx_ready_spec(),
            final(self).tx_done_spec() == old(self).tx_done_spec(),
            final(self).dma_tx_spec() == old(self).dma_tx_spec(),
            final(self).dma_rx_spec() == old(self).dma_rx_spec(),
    ;
}

/// The interrupt-enable bits of `a` and `b` agree on every source.
pub open spec fn same_it_enabled<U: UartPeriph>(a: U, b: U) -> bool {
    &&& a.it_enabled(UartEvent::TxEmpty) == b.it_enabled(UartEvent::TxEmpty)
    &&& a.it_enabled(UartEvent::RxNotEmpty) == b.it_enabled(UartEvent::RxNotEmpty)
    &&& a.it_enabled(UartEvent::Idle) == b.it_enabled(UartEvent::Idle)
}

/// The interrupt-enable bits of `a` and `b` agree on every source but
/// possibly `event`.
pub open spec fn same_it_except<U: UartPeriph>(a: U, b: U, event: UartEvent) -> bool {
    &&& event != UartEvent::TxEmpty ==> a.it_enabled(UartEvent::TxEmpty) == b.it_enabled(
        UartEvent::TxEmpty,
    )
    &&& event != UartEvent::RxNotEmpty ==> a.it_enabled(UartEvent::RxNotEmpty) == b.it_enabled(
        UartEvent::RxNotEmpty,
    )
    &&& event != UartEvent::Idle ==> a.it_enabled(UartEvent::Idle) == b.it_enabled(
        UartEvent::Idle,
    )
}

/// The error a receive status latch reports, in the hardware's priority
/// order: parity, then framing, then noise, then overrun.
pub open spec fn rx_status_error_spec(pe: bool, fe: bool, ne: bool, ore: bool) -> Option<Error> {
    if pe {
        Some(Error::Parity)
    } else if fe {
        Some(Error::FrameFormat)
    } else if ne {
        Some(Error::Noise)
    } else if ore {
        Some(Error::Overrun)
    } else {
        None
    }
}

/// Reads the error out of a receive status latch, in the hardware's
/// priority order.  The caller clears the latch when one is reported.
pub fn rx_status_error(pe: bool, fe: bool, ne: bool, ore: bool) -> (r: Option<Error>)
    ensures
        r == rx_status_error_spec(pe, fe, ne, ore),
{
    if pe {
        Some(Error::Parity)
    } else if fe {
        Some(Error::FrameFormat)
    } else if ne {
        Some(Error::Noise)
    } else if ore {
        Some(Error::Overrun)
    } else {
        None
    }
}

/// One non-blocking read decision over the receive status flags: the data
/// word when one waits, else the latched error, else would-block.
pub fn classify_read(
    rx_not_empty: bool,
    data: u16,
    pe: bool,
    fe: bool,
    ne: bool,
    ore: bool,
) -> (r: Result<u16, NbError>)
    ensures
        rx_not_empty ==> r == Ok::<u16, NbError>(data),
        !rx_not_empty ==> r == (match rx_status_error_spec(pe, fe, ne, ore) {
            Some(e) => Err::<u16, NbError>(NbError::Other(e)),
            None => Err::<u16, NbError>(NbError::WouldBlock),
        }),
{
    if rx_not_empty {
        return Ok(data);
    }
    match rx_status_error(pe, fe, ne, ore) {
        Some(e) => Err(NbError::Other(e)),
        None => Err(NbError::WouldBlock),
    }
}

// Software UART -------------------------------------------------------------

/// An in-memory UART for targets without the hardware one: accepted words go
/// to a transcript, reads drain a preloaded queue, and the status flags are
/// plain fields.  It also serves as the checked model of [`UartPeriph`]: its
/// implementation is verified against the trait's contract.
#[derive(Clone, Debug)]
pub struct SoftUart {
    /// Models the "transmit register empty" flag: a write is taken only
    /// while it is set.
    tx_ready: bool,
    /// Models the "transmit complete" flag.
    tx_done: bool,
    /// Every word the peripheral accepted, in order.
    sent: Vec<u16>,
    /// Words waiting to be received, front first.
    rx_queue: Vec<u16>,
    it_txe: bool,
    it_rxne: bool,
    it_idle: bool,
    dma_tx_on: bool,
    dma_rx_on: bool,
    /// How often an interrupt-enable bit was written.
    it_writes: u32,
}

impl SoftUart {
    /// Creates a silent, empty unit: not ready to send, nothing to receive,
    /// every interrupt disabled, both DMA request lines off.
    pub fn new() -> (r: SoftUart)
        ensures
            r.sent_spec() == Seq::<u16>::empty(),
            r.pending_spec() == Seq::<u16>::empty(),
            !r.tx_ready_spec(),
            !r.tx_done_spec(),
            !r.dma_tx_spec(),
            !r.dma_rx_spec(),
            forall|e: UartEvent| !#[trigger] r.it_enabled(e),
            r.it_write_count() == 0,
    {
        let r = SoftUart {
            tx_ready: false,
            tx_done: false,
            sent: Vec::new(),
            rx_queue: Vec::new(),
            it_txe: false,
            it_rxne: false,
            it_idle: false,
            dma_tx_on: false,
            dma_rx_on: false,
            it_writes: 0,
        };
        proof {
            assert(r.pending_spec() =~= Seq::<u16>::empty());
        }
        r
    }

    /// How often an interrupt-enable bit was written so far.
    pub closed spec fn it_write_count(&self) -> nat {
        self.it_writes as nat
    }

    /// Sets the "transmit register empty" flag.
    pub fn set_tx_ready(&mut self, ready: bool)
        ensures
            final(self).tx_ready_spec() == ready,
            final(self).tx_done_spec() == old(self).tx_done_spec(),
            final(self).sent_spec() == old(self).sent_spec(),
            final(self).pending_spec() == old(self).pending_spec(),
            final(self).dma_tx_spec() == old(self).dma_tx_spec(),
            final(self).dma_rx_spec() == old(self).dma_rx_spec(),
            final(self).it_enabled(UartEvent::TxEmpty) == old(self).it_enabled(
                UartEvent::TxEmpty,
            ),
            final(self).it_enabled(UartEvent::RxNotEmpty) == old(self).it_enabled(
                UartEvent::RxNotEmpty,
            ),
            final(self).it_enabled(UartEvent::Idle) == old(self).it_enabled(UartEvent::Idle),
            final(self).it_write_count() == old(self).it_write_count(),
    {
        self.tx_ready = ready;
    }

    /// Sets the "transmit complete" flag.
    pub fn set_tx_done(&mut self, done: bool)
        ensures
            final(self).tx_done_spec() == done,
            final(self).tx_ready_spec() == old(self).tx_ready_spec(),
            final(self).sent_spec() == old(self).sent_spec(),
            final(self).pending_spec() == old(self).pending_spec(),
            final(self).dma_tx_spec() == old(self).dma_tx_spec(),
            final(self).dma_rx_spec() == old(self).dma_rx_spec(),
            final(self).it_enabled(UartEvent::TxEmpty) == old(self).it_enabled(
                UartEvent::TxEmpty,
            ),
            final(self).it_enabled(UartEvent::RxNotEmpty) == old(self).it_enabled(
                UartEvent::RxNotEmpty,
            ),
            final(self).it_enabled(UartEvent::Idle) == old(self).it_enabled(UartEvent::Idle),
            final(self).it_write_count() == old(self).it_write_count(),
    {
        self.tx_done = done;
    }

    /// Queues one word for a later `read`.
    pub fn push_rx(&mut self, word: u16)
        ensures
            final(self).pending_spec() == old(self).pending_spec().push(word),
            final(self).sent_spec() == old(self).sent_spec(),
            final(self).tx_ready_spec() == old(self).tx_ready_spec(),
            final(self).tx_done_spec() == old(self).tx_done_spec(),
            final(self).dma_tx_spec() == old(self).dma_tx_spec(),
            final(self).dma_rx_spec() == old(self).dma_rx_spec(),
            final(self).it_enabled(UartEvent::TxEmpty) == old(self).it_enabled(
                UartEvent::TxEmpty,
            ),
            final(self).it_enabled(UartEvent::RxNotEmpty) == old(self).it_enabled(
                UartEvent::RxNotEmpty,
            ),
            final(self).it_enabled(UartEvent::Idle) == old(self).it_enabled(UartEvent::Idle),
            final(self).it_write_count() == old(self).it_write_count(),
    {
        self.rx_queue.push(word);
    }

    /// How many words were accepted so far.
    pub fn sent_len(&self) -> (r: usize)
        ensures
            r == self.sent_spec().len(),
    {
        self.sent.len()
    }

    /// One accepted word from the transcript.
    pub fn sent_at(&self, i: usize) -> (r: u16)
        requires
            i < self.sent_spec().len(),
        ensures
            r == self.sent_spec()[i as int],
    {
        self.sent[i]
    }

    /// How often an interrupt-enable bit was written.
    pub fn it_writes(&self) -> (r: u32)
        ensures
            r == self.it_write_count(),
    {
        self.it_writes
    }

    /// Whether the DMA transmit request line is on.
    pub fn dma_tx_on(&self) -> (r: bool)
        ensures
            r == self.dma_tx_spec(),
    {
        self.dma_tx_on
    }

    /// Whether the DMA receive request line is on.
    pub fn dma_rx_on(&self) -> (r: bool)
        ensures
            r == self.dma_rx_spec(),
    {
        self.dma_rx_on
    }
}

impl UartPeriph for SoftUart {
    closed spec fn it_enabled(&self, event: UartEvent) -> bool {
        match event {
            UartEvent::TxEmpty => self.it_txe,
            UartEvent::RxNotEmpty => self.it_rxne,
            UartEvent::Idle => self.it_idle,
        }
    }

    closed spec fn sent_spec(&self) -> Seq<u16> {
        self.sent@
    }

    closed spec fn pending_spec(&self) -> Seq<u16> {
        self.rx_queue@
    }

    closed spec fn tx_ready_spec(&self) -> bool {
        self.tx_ready
    }

    closed spec fn tx_done_spec(&self) -> bool {
        self.tx_done
    }

    closed spec fn dma_tx_spec(&self) -> bool {
        self.dma_tx_on
    }

    closed spec fn dma_rx_spec(&self) -> bool {
        self.dma_rx_on
    }

    closed spec fn tx_addr_spec(&self) -> u32 {
        0
    }

    closed spec fn rx_addr_spec(&self) -> u32 {
        0
    }

    fn set_dma_tx(&mut self, enable: bool) {
        self.dma_tx_on = enable;
    }

    fn set_dma_rx(&mut self, enable: bool) {
        self.dma_rx_on = enable;
    }

    fn get_tx_data_reg_addr(&self) -> u32 {
        0
    }

    fn get_rx_data_reg_addr(&self) -> u32 {
        0
    }

    /// Appends the word to the transcript while `tx_ready` is set, else
    /// would-block; the flags stay as they were set.
    fn write(&mut self, word: u16) -> (r: Result<(), NbError>)
        ensures
            !old(self).tx_ready_spec() ==> *final(self) == *old(self)
                && r == Err::<(), NbError>(NbError::WouldBlock),
            final(self).tx_ready_spec() == old(self).tx_ready_spec(),
            final(self).tx_done_spec() == old(self).tx_done_spec(),
    {
        if self.tx_ready {
            self.sent.push(word);
            Ok(())
        } else {
            Err(NbError::WouldBlock)
        }
    }

    /// Delivers the next queued word, or would-block when none is waiting.
    fn read(&mut self) -> (r: Result<u16, NbError>)
        ensures
            old(self).pending_spec().len() == 0 ==> *final(self) == *old(self)
                && r == Err::<u16, NbError>(NbError::WouldBlock),
    {
        if self.rx_queue.len() > 0 {
            let word = self.rx_queue.remove(0);
            proof {
                assert(self.pending_spec() =~= old(self).pending_spec().skip(1));
            }
            Ok(word)
        } else {
            Err(NbError::WouldBlock)
        }
    }

    fn is_tx_empty(&self) -> (r: bool) {
        self.tx_ready
    }

    fn is_tx_complete(&self) -> (r: bool) {
        self.tx_done
    }

    fn is_rx_not_empty(&self) -> (r: bool) {
        self.rx_queue.len() > 0
    }

    fn set_interrupt(&mut self, event: UartEvent, enable: bool)
        ensures
            final(self).it_write_count() == old(self).it_write_count() + 1
                || final(self).it_write_count() == old(self).it_write_count(),
    {
        match event {
            UartEvent::TxEmpty => {
                self.it_txe = enable;
            },
            UartEvent::RxNotEmpty => {
                self.it_rxne = enable;
            },
            UartEvent::Idle => {
                self.it_idle = enable;
            },
        }
        if self.it_writes < u32::MAX {
            self.it_writes = self.it_writes + 1;
        }
    }

    fn is_interrupt_enable(&self, event: UartEvent) -> (r: bool) {
        match event {
            UartEvent::TxEmpty => self.it_txe,
            UartEvent::RxNotEmpty => self.it_rxne,
            UartEvent::Idle => self.it_idle,
        }
    }

    fn is_interrupted(&mut self, event: UartEvent) -> (r: bool) {
        match event {
            UartEvent::TxEmpty => self.tx_ready && self.it_txe,
            UartEvent::RxNotEmpty => self.rx_queue.len() > 0 && self.it_rxne,
            UartEvent::Idle => false,
        }
    }

    fn clear_err_flag(&mut self) {
    }
}

// Pipeline factories --------------------------------------------------------

/// One UART peripheral, not yet committed to a transfer mode.
///
/// The handle must be cloneable in the narrow sense that every clone is a
/// projection of the same physical unit: `into_tx_rx` splits it once into
/// the transmit-side and receive-side handles, which touch disjoint register
/// subsets, and no third handle is ever exposed.
pub struct Uart<U> {
    uart: U,
}

impl<U: UartPeriph + Clone> Uart<U> {
    /// The wrapped peripheral handle.
    pub closed spec fn uart_spec(&self) -> U {
        self.uart
    }

    pub fn new(uart: U) -> (r: Uart<U>)
        ensures
            r.uart_spec() == uart,
    {
        Uart { uart }
    }

    /// Splits the peripheral into its transmitter and receiver, each holding
    /// two projections of the unit: one for the foreground half of a
    /// pipeline, one for the background half.
    pub fn into_tx_rx(self) -> (Tx<U>, Rx<U>) {
        let t1 = self.uart.clone();
        let t2 = self.uart.clone();
        let r1 = self.uart.clone();
        (Tx::new((t1, t2)), Rx::new((r1, self.uart)))
    }

    /// A handle for the idle-line interrupt, as one more projection of the
    /// unit: it reads the status register and toggles only the idle-line
    /// enable bit.
    pub fn get_idle_interrupt_handler(&self) -> UartIdleInterrupt<U> {
        UartIdleInterrupt::new(self.uart.clone())
    }
}

/// UART transmitter: the transmit-side handles of one peripheral, ready to
/// become a poll-mode or interrupt-mode pipeline.
pub struct Tx<U> {
    uart: (U, U),
}

impl<U: UartPeriph> Tx<U> {
    /// The two transmit-side projections of the peripheral.
    pub closed spec fn uart_spec(&self) -> (U, U) {
        self.uart
    }

    pub fn new(uart: (U, U)) -> (r: Tx<U>)
        ensures
            r.uart_spec() == uart,
    {
        Tx { uart }
    }

    /// Becomes a poll-mode transmitter; the spare background handle is
    /// dropped, poll mode has no background half.
    pub fn into_poll<T: Timeout>(self, timeout: T, flush_retry_times: u32) -> (r: UartPollTx<
        U,
        T,
    >)
        ensures
            r.uart_spec() == self.uart_spec().0,
            r.timeout_spec() == timeout,
            r.flush_retry_times_spec() == flush_retry_times,
    {
        let (uart, _) = self.uart;
        UartPollTx::new(uart, timeout, flush_retry_times)
    }

    /// Becomes an interrupt-mode transmitter: the foreground half, the
    /// background handler, and the queue of `buf_size` bytes between them.
    pub fn into_interrupt<T: Timeout>(self, buf_size: usize, timeout: T, flush_timeout: T) -> (r: (
        UartInterruptTx<U, T>,
        UartInterruptTxHandler<U>,
        RingBuffer,
    ))
        requires
            buf_size < usize::MAX,
        ensures
            r.2.wf(),
            r.2@ == Seq::<u8>::empty(),
            r.2.capacity_spec() == buf_size,
            r.0.uart_spec() == self.uart_spec().0,
            r.0.timeout_spec() == timeout,
            r.0.flush_timeout_spec() == flush_timeout,
            r.1.uart_spec() == self.uart_spec().1,
    {
        UartInterruptTx::new(self.uart, buf_size, timeout, flush_timeout)
    }
}

/// UART receiver: the receive-side handles of one peripheral, ready to
/// become a poll-mode, interrupt-mode or DMA-mode pipeline.
pub struct Rx<U> {
    uart: (U, U),
}

impl<U: UartPeriph> Rx<U> {
    /// The two receive-side projections of the peripheral.
    pub closed spec fn uart_spec(&self) -> (U, U) {
        self.uart
    }

    pub fn new(uart: (U, U)) -> (r: Rx<U>)
        ensures
            r.uart_spec() == uart,
    {
        Rx { uart }
    }

    /// Becomes a poll-mode receiver; the spare background handle is dropped.
    pub fn into_poll<T: Timeout>(self, timeout: T, continue_retry_times: u32) -> (r: UartPollRx<
        U,
        T,
    >)
        ensures
            r.uart_spec() == self.uart_spec().0,
            r.timeout_spec() == timeout,
            r.continue_retry_times_spec() == continue_retry_times,
    {
        let (uart, _) = self.uart;
        UartPollRx::new(uart, timeout, continue_retry_times)
    }

    /// Becomes an interrupt-mode receiver: the foreground half, the
    /// background handler — which starts listening for received data — and
    /// the queue of `buf_size` bytes between them.
    pub fn into_interrupt<T: Timeout>(self, buf_size: usize, timeout: T) -> (r: (
        UartInterruptRx<U, T>,
        UartInterruptRxHandler<U>,
        RingBuffer,
    ))
        requires
            buf_size < usize::MAX,
        ensures
            r.2.wf(),
            r.2@ == Seq::<u8>::empty(),
            r.2.capacity_spec() == buf_size,
            r.0.uart_spec() == self.uart_spec().0,
            r.0.timeout_spec() == timeout,
            r.1.uart_spec().it_enabled(UartEvent::RxNotEmpty),
            r.1.overruns_spec() == 0,
    {
        UartInterruptRx::new(self.uart, buf_size, timeout)
    }

    /// Becomes a DMA-mode receiver over a circular capture buffer of
    /// `buf_size` bytes; the spare background handle is dropped, the DMA
    /// hardware is the background half.
    pub fn into_dma_circle<CH: DmaChannel, T: Timeout>(
        self,
        dma_ch: CH,
        buf_size: usize,
        timeout: T,
    ) -> (r: UartDmaRx<U, CH, T>)
        ensures
            r.wf(),
            r.capture()@.len() == buf_size,
            r.capture().read_index() == 0,
            r.timeout_spec() == timeout,
    {
        let (uart, _) = self.uart;
        UartDmaRx::new(uart, dma_ch, buf_size, timeout)
    }
}

/// Handle for the idle-line interrupt of a UART, one more projection of the
/// split peripheral: it reads the status register and toggles only the
/// idle-line enable bit.
pub struct UartIdleInterrupt<U> {
    uart: U,
}

impl<U: UartPeriph> UartIdleInterrupt<U> {
    /// The wrapped peripheral handle.
    pub closed spec fn uart_spec(&self) -> U {
        self.uart
    }

    pub fn new(uart: U) -> (r: UartIdleInterrupt<U>)
        ensures
            r.uart_spec() == uart,
    {
        UartIdleInterrupt { uart }
    }

    /// Whether `event` is raised and enabled; clears what the idle line
    /// requires cleared.
    pub fn is_interrupted(&mut self, event: UartEvent) -> (r: bool)
        ensures
            same_it_enabled(old(self).uart_spec(), final(self).uart_spec()),
    {
        self.uart.is_interrupted(event)
    }

    /// Starts listening for `event`.
    pub fn listen(&mut self, event: UartEvent)
        ensures
            final(self).uart_spec().it_enabled(event),
            same_it_except(old(self).uart_spec(), final(self).uart_spec(), event),
    {
        self.uart.set_interrupt(event, true);
    }

    /// Stops listening for `event`.
    pub fn unlisten(&mut self, event: UartEvent)
        ensures
            !final(self).uart_spec().it_enabled(event),
            same_it_except(old(self).uart_spec(), final(self).uart_spec(), event),
    {
        self.uart.set_interrupt(event, false);
    }
}

} // verus!
