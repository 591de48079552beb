//! DMA-mode receive pipeline: the hardware writes the line into a circular
//! capture buffer on its own; the foreground read drains the buffer under a
//! retry policy.

use crate::dma::{CircularBuffer, DmaChannel, DmaCircularBufferRx};
use crate::retry::{failing_steps, timed_out_run, Timeout, TimeoutInstance};
use crate::uart::{Error, UartPeriph};
use vstd::prelude::*;

verus! {

/// Receiver over a circular DMA capture buffer.
pub struct UartDmaRx<U, CH, T> {
    uart: U,
    ch: DmaCircularBufferRx<CH>,
    timeout: T,
}

impl<U: UartPeriph, CH: DmaChannel, T: Timeout> UartDmaRx<U, CH, T> {
    /// The peripheral handle.
    pub closed spec fn uart_spec(&self) -> U {
        self.uart
    }

    /// The retry policy for an empty buffer.
    pub closed spec fn timeout_spec(&self) -> T {
        self.timeout
    }

    /// The capture buffer, with its cursor.
    pub closed spec fn capture(&self) -> CircularBuffer {
        self.ch.capture()
    }

    /// The DMA channel handle.
    pub closed spec fn channel(&self) -> CH {
        self.ch.channel()
    }

    /// The armed pair is consistent.
    pub closed spec fn wf(&self) -> bool {
        self.ch.wf()
    }

    /// Arms `dma_ch` over a fresh capture buffer of `buf_size` bytes fed
    /// from the UART's receive data register — circular,
    /// peripheral-to-memory, started — and enables the UART's DMA receive
    /// request line; the capture runs from then on.
    pub fn new(uart: U, dma_ch: CH, buf_size: usize, timeout: T) -> (r: UartDmaRx<U, CH, T>)
        ensures
            r.wf(),
            r.capture()@.len() == buf_size,
            r.capture().read_index() == 0,
            r.timeout_spec() == timeout,
            r.channel().running_spec(),
            r.channel().circular_spec(),
            !r.channel().mem_to_periph_spec(),
            r.channel().periph_addr_spec() == uart.rx_addr_spec(),
            r.uart_spec().dma_rx_spec(),
            r.uart_spec().dma_tx_spec() == uart.dma_tx_spec(),
            r.uart_spec().sent_spec() == uart.sent_spec(),
            r.uart_spec().pending_spec() == uart.pending_spec(),
    {
        let addr = uart.get_rx_data_reg_addr();
        let ch = DmaCircularBufferRx::new(dma_ch, addr, buf_size);
        let mut uart = uart;
        uart.set_dma_rx(true);
        UartDmaRx { uart, ch, timeout }
    }


    /// The peripheral handle, for inspection.
    pub fn uart(&self) -> (r: &U)
        ensures
            *r == self.uart_spec(),
    {
        &self.uart
    }

    /// Returns the next unread contiguous run of captured bytes, at most
    /// `max`, retrying under the policy while the hardware has written
    /// nothing new; `Other` once the policy runs out, or when `max == 0`
    /// asks for nothing.
    #[verifier::loop_isolation(false)]
    pub fn read(&mut self, max: usize) -> (r: Result<Vec<u8>, Error>)
        requires
            old(self).wf(),
        ensures
            final(self).wf(),
            final(self).timeout_spec() == old(self).timeout_spec(),
            final(self).uart_spec() == old(self).uart_spec(),
            max == 0 ==> r == Err::<Vec<u8>, Error>(Error::Other) && *final(self) == *old(self),
            (match r {
                Ok(v) => {
                    let ri = old(self).capture().read_index();
                    let m = old(self).capture()@.len();
                    &&& 1 <= v@.len() <= max
                    &&& final(self).capture()@ == old(self).capture()@
                    &&& ri + v@.len() <= m
                    &&& v@ == old(self).capture()@.subrange(ri as int, ri + v@.len() as int)
                    &&& final(self).capture().read_index() == (if ri + v@.len() == m {
                        0
                    } else {
                        (ri + v@.len()) as nat
                    })
                },
                Err(e) => e == Error::Other && final(self).capture() == old(self).capture(),
            }),
            max > 0 && r is Err ==> exists|tr: Seq<T::Instance>|
                #[trigger] timed_out_run(old(self).timeout_spec(), tr),
    {
        if max == 0 {
            return Err(Error::Other);
        }
        let mut t = self.timeout.start();
        let ghost mut trace: Seq<T::Instance> = seq![t];
        loop
            invariant
                self.ch.wf(),
                self.ch.capture() == old(self).ch.capture(),
                self.uart == old(self).uart,
                self.timeout == old(self).timeout,
                max >= 1,
                trace.len() >= 1,
                old(self).timeout_spec().fresh_ok(trace[0]),
                failing_steps(trace),
                trace.last() == t,
            decreases t.fuel(),
        {
            let got = self.ch.read(max);
            if got.is_some() {
                let v = got.unwrap();
                return Ok(v);
            }
            if t.timeout() {
                proof {
                    assert(timed_out_run(old(self).timeout_spec(), trace));
                }
                return Err(Error::Other);
            }
            proof {
                crate::retry::lemma_failing_push(trace, t);
                trace = trace.push(t);
            }
            t.interval();
        }
    }
}

} // verus!
