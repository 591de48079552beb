//! Interrupt-mode transmit and receive pipelines.
//!
//! The foreground half exchanges bytes with the background handler through a
//! [`RingBuffer`]; the peripheral's interrupt-enable bit is the sole
//! flow-control signal.  The foreground enables "transmit register empty"
//! whenever it has queued data; the handler disables it on finding the queue
//! empty — the one backpressure-release, undone only by the next foreground
//! `write`.
//!
//! The queue that joins the two halves is created once by the factory `new`
//! and then passed to every call by `&mut`: the caller decides which context
//! runs, and no aliased second handle to the queue ever exists.

use crate::retry::{failing_steps, timed_out_run, Timeout, TimeoutInstance};
use crate::ringbuf::RingBuffer;
use crate::uart::{Error, UartEvent, UartPeriph};
use vstd::prelude::*;

verus! {

// Transmit ------------------------------------------------------------------

/// Foreground half of the interrupt-mode transmitter.
pub struct UartInterruptTx<U, T> {
    uart: U,
    timeout: T,
    flush_timeout: T,
}

/// Background half of the interrupt-mode transmitter, run from the interrupt
/// service routine.
pub struct UartInterruptTxHandler<U> {
    uart: U,
}

/// Progress of one flush: the live retry instance and the queue occupancy
/// seen at the previous poll, for stall detection.
pub struct FlushProgress<I> {
    pub inst: I,
    pub last_occ: usize,
}

impl<U: UartPeriph, T: Timeout> UartInterruptTx<U, T> {
    /// The peripheral handle of the foreground half.
    pub closed spec fn uart_spec(&self) -> U {
        self.uart
    }

    /// The enqueue/send retry policy.
    pub closed spec fn timeout_spec(&self) -> T {
        self.timeout
    }

    /// The flush retry policy.
    pub closed spec fn flush_timeout_spec(&self) -> T {
        self.flush_timeout
    }

    /// Builds the transmit pair over one peripheral split into two handles,
    /// together with the queue of `buf_size` bytes that joins them.  This is
    /// the only place the pair is formed; the two handles must be projections
    /// of one unit that touch disjoint register subsets.
    pub fn new(uart: (U, U), buf_size: usize, timeout: T, flush_timeout: T) -> (r: (
        UartInterruptTx<U, T>,
        UartInterruptTxHandler<U>,
        RingBuffer,
    ))
        requires
            buf_size < usize::MAX,
        ensures
            r.2.wf(),
            r.2@ == Seq::<u8>::empty(),
            r.2.capacity_spec() == buf_size,
            r.0.uart_spec() == uart.0,
            r.0.timeout_spec() == timeout,
            r.0.flush_timeout_spec() == flush_timeout,
            r.1.uart_spec() == uart.1,
    {
        let (u1, u2) = uart;
        let q = RingBuffer::new(buf_size);
        (
            UartInterruptTx { uart: u1, timeout, flush_timeout },
            UartInterruptTxHandler { uart: u2 },
            q,
        )
    }

    /// Queues as much of `data` as fits and makes sure the "transmit register
    /// empty" interrupt is enabled, so the handler will drain the queue.  A
    /// partial count is backpressure, not an error.  With the queue full the
    /// call retries under its policy — the interrupt may have been disabled
    /// by the handler on an empty queue, so it is re-enabled while waiting —
    /// and gives up with `Busy` only once the policy has timed out.
    #[verifier::loop_isolation(false)]
    pub fn write(&mut self, q: &mut RingBuffer, data: &[u8]) -> (r: Result<usize, Error>)
        requires
            old(q).wf(),
        ensures
            final(q).wf(),
            final(q).capacity_spec() == old(q).capacity_spec(),
            final(self).timeout_spec() == old(self).timeout_spec(),
            final(self).flush_timeout_spec() == old(self).flush_timeout_spec(),
            forall|e: UartEvent|
                e != UartEvent::TxEmpty ==> #[trigger] final(self).uart_spec().it_enabled(e)
                    == old(self).uart_spec().it_enabled(e),
            final(self).uart_spec().sent_spec() == old(self).uart_spec().sent_spec(),
            final(self).uart_spec().pending_spec() == old(self).uart_spec().pending_spec(),
            final(self).uart_spec().tx_ready_spec() == old(self).uart_spec().tx_ready_spec(),
            final(self).uart_spec().tx_done_spec() == old(self).uart_spec().tx_done_spec(),
            data@.len() == 0 ==> r == Err::<usize, Error>(Error::Other) && final(q)@ == old(q)@
                && *final(self) == *old(self),
            data@.len() > 0 && old(q).free_spec() > 0 ==> {
                &&& r == Ok::<usize, Error>(
                    vstd::math::min(data@.len() as int, old(q).free_spec() as int) as usize,
                )
                &&& final(q)@ == old(q)@ + data@.take(
                    vstd::math::min(data@.len() as int, old(q).free_spec() as int),
                )
                &&& final(self).uart_spec().it_enabled(UartEvent::TxEmpty)
            },
            data@.len() > 0 && old(q).free_spec() == 0 ==> {
                &&& r == Err::<usize, Error>(Error::Busy)
                &&& final(q)@ == old(q)@
                &&& final(self).uart_spec().it_enabled(UartEvent::TxEmpty)
                &&& exists|tr: Seq<T::Instance>|
                    #[trigger] timed_out_run(old(self).timeout_spec(), tr)
            },
    {
        if data.len() == 0 {
            return Err(Error::Other);
        }
        let n = q.push_slice(data);
        if n > 0 {
            self.uart.set_interrupt(UartEvent::TxEmpty, true);
            return Ok(n);
        }
        if !self.uart.is_interrupt_enable(UartEvent::TxEmpty) {
            self.uart.set_interrupt(UartEvent::TxEmpty, true);
        }
        let mut t = self.timeout.start();
        let ghost mut trace: Seq<T::Instance> = seq![t];
        loop
            invariant
                q.wf(),
                q@ == old(q)@,
                q.capacity_spec() == old(q).capacity_spec(),
                q.free_spec() == 0,
                self.uart_spec().it_enabled(UartEvent::TxEmpty),
                forall|e: UartEvent|
                    e != UartEvent::TxEmpty ==> #[trigger] self.uart_spec().it_enabled(e)
                        == old(self).uart_spec().it_enabled(e),
                self.uart_spec().sent_spec() == old(self).uart_spec().sent_spec(),
                self.uart_spec().pending_spec() == old(self).uart_spec().pending_spec(),
                self.uart_spec().tx_ready_spec() == old(self).uart_spec().tx_ready_spec(),
                self.uart_spec().tx_done_spec() == old(self).uart_spec().tx_done_spec(),
                self.timeout_spec() == old(self).timeout_spec(),
                self.flush_timeout_spec() == old(self).flush_timeout_spec(),
                trace.len() >= 1,
                old(self).timeout_spec().fresh_ok(trace[0]),
                failing_steps(trace),
                trace.last() == t,
            decreases t.fuel(),
        {
            if t.timeout() {
                proof {
                    assert(timed_out_run(old(self).timeout_spec(), trace));
                }
                return Err(Error::Busy);
            }
            proof {
                crate::retry::lemma_failing_push(trace, t);
                trace = trace.push(t);
            }
            t.interval();
            let n = q.push_slice(data);
            if n > 0 {
                self.uart.set_interrupt(UartEvent::TxEmpty, true);
                return Ok(n);
            }
        }
    }


    /// The peripheral handle, for inspection.
    pub fn uart(&self) -> (r: &U)
        ensures
            *r == self.uart_spec(),
    {
        &self.uart
    }

    /// Begins a flush: a fresh instance of the flush policy, and the present
    /// queue occupancy as the stall baseline.
    pub fn flush_begin(&self, q: &RingBuffer) -> (p: FlushProgress<T::Instance>)
        requires
            q.wf(),
        ensures
            self.flush_timeout_spec().fresh_ok(p.inst),
            p.last_occ == q@.len(),
    {
        FlushProgress { inst: self.flush_timeout.start(), last_occ: q.occupied_len() }
    }

    /// One flush poll.  Done — hardware empty and complete, queue drained —
    /// answers `Some(Ok)`.  A change in occupancy since the previous poll
    /// means data is still draining: the retry instance is restarted, not
    /// advanced.  Unchanged occupancy consumes one attempt, and `Some(Err)`
    /// comes only once the policy has timed out.  While polling, the
    /// "transmit register empty" interrupt is kept enabled.
    pub fn flush_poll(
        &mut self,
        q: &RingBuffer,
        p: &mut FlushProgress<T::Instance>,
    ) -> (r: Option<Result<(), Error>>)
        requires
            q.wf(),
        ensures
            final(self).timeout_spec() == old(self).timeout_spec(),
            final(self).flush_timeout_spec() == old(self).flush_timeout_spec(),
            forall|e: UartEvent|
                e != UartEvent::TxEmpty ==> #[trigger] final(self).uart_spec().it_enabled(e)
                    == old(self).uart_spec().it_enabled(e),
            final(self).uart_spec().sent_spec() == old(self).uart_spec().sent_spec(),
            final(self).uart_spec().pending_spec() == old(self).uart_spec().pending_spec(),
            final(self).uart_spec().tx_ready_spec() == old(self).uart_spec().tx_ready_spec(),
            final(self).uart_spec().tx_done_spec() == old(self).uart_spec().tx_done_spec(),
            match r {
                Some(res) => res == Ok::<(), Error>(()) || res == Err::<(), Error>(Error::Other),
                None => true,
            },
            r == Some(Ok::<(), Error>(())) ==> q@.len() == 0 && *final(p) == *old(p)
                && *final(self) == *old(self) && old(self).uart_spec().tx_ready_spec() && old(
                self,
            ).uart_spec().tx_done_spec(),
            r == Some(Err::<(), Error>(Error::Other)) ==> q@.len() == old(p).last_occ
                && old(p).inst.step_ok(final(p).inst, true)
                && final(p).last_occ == old(p).last_occ,
            r is None && q@.len() != old(p).last_occ ==> old(p).inst.restart_ok(final(p).inst)
                && final(p).last_occ == q@.len()
                && final(self).uart_spec().it_enabled(UartEvent::TxEmpty),
            r is None && q@.len() == old(p).last_occ ==> old(p).inst.step_ok(
                final(p).inst,
                false,
            ) && final(p).inst.fuel() < old(p).inst.fuel()
                && final(p).last_occ == old(p).last_occ
                && final(self).uart_spec().it_enabled(UartEvent::TxEmpty),
    {
        if self.uart.is_tx_empty() && self.uart.is_tx_complete() && q.occupied_len() == 0 {
            return Some(Ok(()));
        }
        let occ = q.occupied_len();
        if occ != p.last_occ {
            p.inst.restart();
            p.last_occ = occ;
            if !self.uart.is_interrupt_enable(UartEvent::TxEmpty) {
                self.uart.set_interrupt(UartEvent::TxEmpty, true);
            }
            return None;
        }
        if p.inst.timeout() {
            return Some(Err(Error::Other));
        }
        if !self.uart.is_interrupt_enable(UartEvent::TxEmpty) {
            self.uart.set_interrupt(UartEvent::TxEmpty, true);
        }
        None
    }

    /// Polls until the hardware reports empty-and-complete and the queue is
    /// drained, under the flush policy with stall detection.  Run the
    /// background handler between polls by using `flush_begin`/`flush_poll`
    /// directly; this closed loop is for callers with nothing to interleave,
    /// so within one call the occupancy cannot change, and `Err(Other)`
    /// comes exactly when the policy runs out.
    #[verifier::loop_isolation(false)]
    pub fn flush(&mut self, q: &RingBuffer) -> (r: Result<(), Error>)
        requires
            q.wf(),
        ensures
            final(self).timeout_spec() == old(self).timeout_spec(),
            final(self).flush_timeout_spec() == old(self).flush_timeout_spec(),
            forall|e: UartEvent|
                e != UartEvent::TxEmpty ==> #[trigger] final(self).uart_spec().it_enabled(e)
                    == old(self).uart_spec().it_enabled(e),
            final(self).uart_spec().sent_spec() == old(self).uart_spec().sent_spec(),
            final(self).uart_spec().pending_spec() == old(self).uart_spec().pending_spec(),
            final(self).uart_spec().tx_ready_spec() == old(self).uart_spec().tx_ready_spec(),
            final(self).uart_spec().tx_done_spec() == old(self).uart_spec().tx_done_spec(),
            r == Ok::<(), Error>(()) ==> q@.len() == 0 && final(self).uart_spec().tx_ready_spec()
                && final(self).uart_spec().tx_done_spec(),
            r is Err ==> r == Err::<(), Error>(Error::Other) && exists|tr: Seq<T::Instance>|
                #[trigger] timed_out_run(old(self).flush_timeout_spec(), tr),
    {
        let mut p = self.flush_begin(q);
        let ghost mut trace: Seq<T::Instance> = seq![p.inst];
        loop
            invariant
                p.last_occ == q@.len(),
                self.timeout_spec() == old(self).timeout_spec(),
                self.flush_timeout_spec() == old(self).flush_timeout_spec(),
                forall|e: UartEvent|
                    e != UartEvent::TxEmpty ==> #[trigger] self.uart_spec().it_enabled(e)
                        == old(self).uart_spec().it_enabled(e),
                self.uart_spec().sent_spec() == old(self).uart_spec().sent_spec(),
                self.uart_spec().pending_spec() == old(self).uart_spec().pending_spec(),
                self.uart_spec().tx_ready_spec() == old(self).uart_spec().tx_ready_spec(),
                self.uart_spec().tx_done_spec() == old(self).uart_spec().tx_done_spec(),
                trace.len() >= 1,
                old(self).flush_timeout_spec().fresh_ok(trace[0]),
                failing_steps(trace),
                trace.last() == p.inst,
            decreases p.inst.fuel(),
        {
            let ghost pre = p.inst;
            let r = self.flush_poll(q, &mut p);
            match r {
                Some(res) => {
                    match res {
                        Ok(()) => {
                            return Ok(());
                        },
                        Err(_) => {
                            proof {
                                assert(timed_out_run(old(self).flush_timeout_spec(), trace));
                            }
                            return Err(Error::Other);
                        },
                    }
                },
                None => {
                    proof {
                        assert(pre.step_ok(p.inst, false));
                        crate::retry::lemma_failing_push(trace, p.inst);
                        trace = trace.push(p.inst);
                    }
                },
            }
        }
    }
}

impl<U: UartPeriph> UartInterruptTxHandler<U> {
    /// The peripheral handle of the background half.
    pub closed spec fn uart_spec(&self) -> U {
        self.uart
    }

    /// Wraps the second handle of the split peripheral.
    pub fn new(uart: U) -> (r: UartInterruptTxHandler<U>)
        ensures
            r.uart_spec() == uart,
    {
        UartInterruptTxHandler { uart }
    }

    /// The peripheral handle, for inspection.
    pub fn uart(&self) -> (r: &U)
        ensures
            *r == self.uart_spec(),
    {
        &self.uart
    }

    /// One interrupt's worth of work: offer the next queued byte to the
    /// hardware, and drop it from the queue exactly when the hardware took
    /// it — a declined byte stays for the next interrupt, so no byte is
    /// lost in the hand-off.  On an empty queue, disable the "transmit
    /// register empty" interrupt — the sole backpressure release, undone
    /// only by the next foreground `write`.
    pub fn handler(&mut self, q: &mut RingBuffer)
        requires
            old(q).wf(),
        ensures
            final(q).wf(),
            final(q).capacity_spec() == old(q).capacity_spec(),
            final(self).uart_spec().pending_spec() == old(self).uart_spec().pending_spec(),
            old(q)@.len() == 0 ==> final(q)@ == old(q)@
                && !final(self).uart_spec().it_enabled(UartEvent::TxEmpty)
                && final(self).uart_spec().sent_spec() == old(self).uart_spec().sent_spec()
                && forall|e: UartEvent|
                    e != UartEvent::TxEmpty ==> #[trigger] final(self).uart_spec().it_enabled(e)
                        == old(self).uart_spec().it_enabled(e),
            old(q)@.len() > 0 ==> {
                &&& old(self).uart_spec().tx_ready_spec() ==> final(q)@ == old(q)@.skip(1)
                    && final(self).uart_spec().sent_spec() == old(
                    self,
                ).uart_spec().sent_spec().push(old(q)@[0] as u16)
                &&& !old(self).uart_spec().tx_ready_spec() ==> final(q)@ == old(q)@
                    && final(self).uart_spec().sent_spec() == old(self).uart_spec().sent_spec()
                &&& forall|e: UartEvent|
                    #[trigger] final(self).uart_spec().it_enabled(e)
                        == old(self).uart_spec().it_enabled(e)
            },
    {
        let next = q.peek();
        match next {
            Some(byte) => {
                if self.uart.write(byte as u16).is_ok() {
                    q.pop();
                }
            },
            None => {
                if self.uart.is_interrupt_enable(UartEvent::TxEmpty) {
                    self.uart.set_interrupt(UartEvent::TxEmpty, false);
                }
            },
        }
    }
}

// Receive -------------------------------------------------------------------

/// Foreground half of the interrupt-mode receiver.
pub struct UartInterruptRx<U, T> {
    uart: U,
    timeout: T,
}

/// Background half of the interrupt-mode receiver, run from the interrupt
/// service routine.
pub struct UartInterruptRxHandler<U> {
    uart: U,
    overruns: u32,
}

impl<U: UartPeriph, T: Timeout> UartInterruptRx<U, T> {
    /// The peripheral handle of the foreground half.
    pub closed spec fn uart_spec(&self) -> U {
        self.uart
    }

    /// The dequeue retry policy.
    pub closed spec fn timeout_spec(&self) -> T {
        self.timeout
    }

    /// Builds the receive pair over one peripheral split into two handles,
    /// together with the queue of `buf_size` bytes that joins them; the
    /// handler half starts with the "receive not empty" interrupt enabled.
    pub fn new(uart: (U, U), buf_size: usize, timeout: T) -> (r: (
        UartInterruptRx<U, T>,
        UartInterruptRxHandler<U>,
        RingBuffer,
    ))
        requires
            buf_size < usize::MAX,
        ensures
            r.2.wf(),
            r.2@ == Seq::<u8>::empty(),
            r.2.capacity_spec() == buf_size,
            r.0.uart_spec() == uart.0,
            r.0.timeout_spec() == timeout,
            r.1.uart_spec().it_enabled(UartEvent::RxNotEmpty),
            r.1.overruns_spec() == 0,
    {
        let (u1, u2) = uart;
        let q = RingBuffer::new(buf_size);
        (
            UartInterruptRx { uart: u1, timeout },
            UartInterruptRxHandler::new(u2),
            q,
        )
    }


    /// The peripheral handle, for inspection.
    pub fn uart(&self) -> (r: &U)
        ensures
            *r == self.uart_spec(),
    {
        &self.uart
    }

    /// Takes up to `max` queued bytes, oldest first.  With the queue empty
    /// the call retries under its policy, keeping the "receive not empty"
    /// interrupt enabled while it waits, and gives up with `Busy` only once
    /// the policy has timed out.  `max == 0` asks for nothing and is refused.
    #[verifier::loop_isolation(false)]
    pub fn read(&mut self, q: &mut RingBuffer, max: usize) -> (r: Result<Vec<u8>, Error>)
        requires
            old(q).wf(),
        ensures
            final(q).wf(),
            final(q).capacity_spec() == old(q).capacity_spec(),
            final(self).timeout_spec() == old(self).timeout_spec(),
            forall|e: UartEvent|
                e != UartEvent::RxNotEmpty ==> #[trigger] final(self).uart_spec().it_enabled(e)
                    == old(self).uart_spec().it_enabled(e),
            final(self).uart_spec().sent_spec() == old(self).uart_spec().sent_spec(),
            final(self).uart_spec().pending_spec() == old(self).uart_spec().pending_spec(),
            final(self).uart_spec().tx_ready_spec() == old(self).uart_spec().tx_ready_spec(),
            final(self).uart_spec().tx_done_spec() == old(self).uart_spec().tx_done_spec(),
            max == 0 ==> r == Err::<Vec<u8>, Error>(Error::Other) && final(q)@ == old(q)@
                && *final(self) == *old(self),
            max > 0 && old(q)@.len() > 0 ==> (r matches Ok(v)
                && v@ == old(q)@.take(vstd::math::min(max as int, old(q)@.len() as int))
                && final(q)@ == old(q)@.skip(vstd::math::min(max as int, old(q)@.len() as int))
                && *final(self) == *old(self)),
            max > 0 && old(q)@.len() == 0 ==> r == Err::<Vec<u8>, Error>(Error::Busy)
                && final(q)@ == old(q)@
                && final(self).uart_spec().it_enabled(UartEvent::RxNotEmpty)
                && exists|tr: Seq<T::Instance>|
                    #[trigger] timed_out_run(old(self).timeout_spec(), tr),
    {
        if max == 0 {
            return Err(Error::Other);
        }
        let got = q.pop_slice(max);
        if got.len() > 0 {
            return Ok(got);
        }
        if !self.uart.is_interrupt_enable(UartEvent::RxNotEmpty) {
            self.uart.set_interrupt(UartEvent::RxNotEmpty, true);
        }
        let mut t = self.timeout.start();
        let ghost mut trace: Seq<T::Instance> = seq![t];
        loop
            invariant
                q.wf(),
                q@ == old(q)@,
                q@.len() == 0,
                q.capacity_spec() == old(q).capacity_spec(),
                max > 0,
                self.uart_spec().it_enabled(UartEvent::RxNotEmpty),
                forall|e: UartEvent|
                    e != UartEvent::RxNotEmpty ==> #[trigger] self.uart_spec().it_enabled(e)
                        == old(self).uart_spec().it_enabled(e),
                self.uart_spec().sent_spec() == old(self).uart_spec().sent_spec(),
                self.uart_spec().pending_spec() == old(self).uart_spec().pending_spec(),
                self.uart_spec().tx_ready_spec() == old(self).uart_spec().tx_ready_spec(),
                self.uart_spec().tx_done_spec() == old(self).uart_spec().tx_done_spec(),
                self.timeout_spec() == old(self).timeout_spec(),
                trace.len() >= 1,
                old(self).timeout_spec().fresh_ok(trace[0]),
                failing_steps(trace),
                trace.last() == t,
            decreases t.fuel(),
        {
            if t.timeout() {
                proof {
                    assert(timed_out_run(old(self).timeout_spec(), trace));
                }
                return Err(Error::Busy);
            }
            proof {
                crate::retry::lemma_failing_push(trace, t);
                trace = trace.push(t);
            }
            t.interval();
            let got = q.pop_slice(max);
            if got.len() > 0 {
                return Ok(got);
            }
        }
    }
}

impl<U: UartPeriph> UartInterruptRxHandler<U> {
    /// The peripheral handle of the background half.
    pub closed spec fn uart_spec(&self) -> U {
        self.uart
    }

    /// How many received words were dropped or lost to overrun.
    pub closed spec fn overruns_spec(&self) -> nat {
        self.overruns as nat
    }

    /// Wraps the second handle of the split peripheral and enables the
    /// "receive not empty" interrupt.
    pub fn new(uart: U) -> (r: UartInterruptRxHandler<U>)
        ensures
            r.uart_spec().it_enabled(UartEvent::RxNotEmpty),
            forall|e: UartEvent|
                e != UartEvent::RxNotEmpty ==> #[trigger] r.uart_spec().it_enabled(e)
                    == uart.it_enabled(e),
            r.overruns_spec() == 0,
    {
        let mut uart = uart;
        uart.set_interrupt(UartEvent::RxNotEmpty, true);
        UartInterruptRxHandler { uart, overruns: 0 }
    }

    /// The peripheral handle, for inspection.
    pub fn uart(&self) -> (r: &U)
        ensures
            *r == self.uart_spec(),
    {
        &self.uart
    }

    /// How many received words were dropped because the queue was full, or
    /// lost to a hardware overrun.  The counter saturates.
    pub fn overrun_count(&self) -> (r: u32)
        ensures
            r == self.overruns_spec(),
    {
        self.overruns
    }

    /// One interrupt's worth of work: take one received word from the
    /// hardware and queue its low byte.  A word that arrives to a full
    /// queue is dropped and counted — no backpressure is applied to the
    /// receive side.
    pub fn handler(&mut self, q: &mut RingBuffer)
        requires
            old(q).wf(),
        ensures
            final(q).wf(),
            final(q).capacity_spec() == old(q).capacity_spec(),
            forall|e: UartEvent|
                #[trigger] final(self).uart_spec().it_enabled(e)
                    == old(self).uart_spec().it_enabled(e),
            final(self).uart_spec().sent_spec() == old(self).uart_spec().sent_spec(),
            ({
                let p = old(self).uart_spec().pending_spec();
                &&& p.len() > 0 ==> final(self).uart_spec().pending_spec() == p.skip(1) && (
                old(q).free_spec() > 0 ==> final(q)@ == old(q)@.push(p[0] as u8)
                    && final(self).overruns_spec() == old(self).overruns_spec()) && (old(
                    q,
                ).free_spec() == 0 ==> final(q)@ == old(q)@ && final(self).overruns_spec() == (
                if old(self).overruns_spec() < u32::MAX {
                    old(self).overruns_spec() + 1
                } else {
                    old(self).overruns_spec()
                }))
                &&& p.len() == 0 ==> final(q)@ == old(q)@ && final(self).uart_spec().pending_spec()
                    == p
            }),
            old(self).overruns_spec() <= final(self).overruns_spec()
                <= old(self).overruns_spec() + 1,
    {
        match self.uart.read() {
            Ok(word) => {
                let pushed = q.push(#[verifier::truncate] (word as u8));
                if !pushed {
                    if self.overruns < u32::MAX {
                        self.overruns = self.overruns + 1;
                    }
                }
                proof {
                    old(q).lemma_len_le_capacity();
                }
            },
            Err(e) => {
                match e {
                    crate::uart::NbError::WouldBlock => {},
                    crate::uart::NbError::Other(err) => {
                        match err {
                            Error::Overrun => {
                                if self.overruns < u32::MAX {
                                    self.overruns = self.overruns + 1;
                                }
                            },
                            _ => {},
                        }
                    },
                }
            },
        }
    }
}

} // verus!
