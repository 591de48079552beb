//! Poll-mode transmit and receive pipelines: no DMA, no interrupts, only
//! continuous polling of the status flags.
//!
//! Transmit blocks (by bounded busy-retry) for the first word, then writes
//! the rest best-effort: a hardware rejection mid-buffer ends the call early
//! with the count written so far, never an error once one word has landed.
//! Receive mirrors this: it blocks for the first word, then drains
//! opportunistically until a few consecutive empty polls end the call.

use crate::retry::{failing_steps, timed_out_run, Timeout, TimeoutInstance};
use crate::uart::{same_it_enabled, Error, NbError, UartEvent, UartPeriph};
use vstd::prelude::*;

verus! {


// Transmit ------------------------------------------------------------------

/// Poll-mode transmitter.
pub struct UartPollTx<U, T> {
    uart: U,
    timeout: T,
    flush_retry_times: u32,
}

impl<U: UartPeriph, T: Timeout> UartPollTx<U, T> {
    /// The peripheral handle.
    pub closed spec fn uart_spec(&self) -> U {
        self.uart
    }

    /// The first-word retry policy.
    pub closed spec fn timeout_spec(&self) -> T {
        self.timeout
    }

    /// How many extra polls a flush is allowed.
    pub closed spec fn flush_retry_times_spec(&self) -> u32 {
        self.flush_retry_times
    }

    pub fn new(uart: U, timeout: T, flush_retry_times: u32) -> (r: UartPollTx<U, T>)
        ensures
            r.uart_spec() == uart,
            r.timeout_spec() == timeout,
            r.flush_retry_times_spec() == flush_retry_times,
    {
        UartPollTx { uart, timeout, flush_retry_times }
    }


    /// The peripheral handle, for inspection.
    pub fn uart(&self) -> (r: &U)
        ensures
            *r == self.uart_spec(),
    {
        &self.uart
    }

    /// Offers one word until the hardware takes it or the policy runs out:
    /// `Busy` — the only error the transmit path has — exactly when the
    /// retry budget was exhausted on would-block answers.  On success
    /// exactly this word joined the transcript; on `Busy` nothing did.
    #[verifier::loop_isolation(false)]
    fn write_first(&mut self, word: u16) -> (r: Result<(), Error>)
        ensures
            final(self).timeout == old(self).timeout,
            final(self).flush_retry_times == old(self).flush_retry_times,
            same_it_enabled(old(self).uart, final(self).uart),
            final(self).uart.pending_spec() == old(self).uart.pending_spec(),
            r is Ok ==> final(self).uart.sent_spec() == old(self).uart.sent_spec().push(word),
            r is Err ==> final(self).uart.sent_spec() == old(self).uart.sent_spec(),
            match r {
                Ok(()) => true,
                Err(e) => e == Error::Busy,
            },
            r == Err::<(), Error>(Error::Busy) ==> exists|tr: Seq<T::Instance>|
                #[trigger] timed_out_run(old(self).timeout_spec(), tr),
    {
        let mut t = self.timeout.start();
        let ghost mut trace: Seq<T::Instance> = seq![t];
        loop
            invariant
                same_it_enabled(old(self).uart, self.uart),
                self.uart.sent_spec() == old(self).uart.sent_spec(),
                self.uart.pending_spec() == old(self).uart.pending_spec(),
                self.timeout == old(self).timeout,
                self.flush_retry_times == old(self).flush_retry_times,
                trace.len() >= 1,
                old(self).timeout_spec().fresh_ok(trace[0]),
                failing_steps(trace),
                trace.last() == t,
            decreases t.fuel(),
        {
            if t.timeout() {
                proof {
                    assert(timed_out_run(old(self).timeout_spec(), trace));
                }
                return Err(Error::Busy);
            }
            proof {
                crate::retry::lemma_failing_push(trace, t);
                trace = trace.push(t);
            }
            match self.uart.write(word) {
                Ok(()) => {
                    return Ok(());
                },
                Err(NbError::WouldBlock) => {},
                Err(NbError::Other(_)) => {
                    return Err(Error::Other);
                },
            }
            t.interval();
        }
    }

    /// Writes `data`: the first word under the retry policy — `Busy`, the
    /// only error a non-empty write can return, exactly when that budget
    /// ran out — and the rest best-effort, ending early with the count
    /// written once the hardware declines a word.  `Ok(n)` means exactly
    /// the first `n` bytes joined the device transcript, in order; an error
    /// means none did.
    #[verifier::loop_isolation(false)]
    pub fn write(&mut self, data: &[u8]) -> (r: Result<usize, Error>)
        ensures
            final(self).timeout_spec() == old(self).timeout_spec(),
            final(self).flush_retry_times_spec() == old(self).flush_retry_times_spec(),
            same_it_enabled(old(self).uart_spec(), final(self).uart_spec()),
            final(self).uart_spec().pending_spec() == old(self).uart_spec().pending_spec(),
            data@.len() == 0 ==> r == Err::<usize, Error>(Error::Other)
                && *final(self) == *old(self),
            data@.len() > 0 ==> match r {
                Ok(n) => 1 <= n <= data@.len()
                    && final(self).uart_spec().sent_spec() == old(self).uart_spec().sent_spec()
                    + data@.take(n as int).map_values(|b: u8| b as u16),
                Err(e) => e == Error::Busy
                    && final(self).uart_spec().sent_spec() == old(self).uart_spec().sent_spec(),
            },
            r == Err::<usize, Error>(Error::Busy) ==> exists|tr: Seq<T::Instance>|
                #[trigger] timed_out_run(old(self).timeout_spec(), tr),
    {
        if data.len() == 0 {
            return Err(Error::Other);
        }
        match self.write_first(data[0] as u16) {
            Ok(()) => {},
            Err(e) => {
                return Err(e);
            },
        }
        proof {
            assert(self.uart.sent_spec() == old(self).uart.sent_spec().push(data@[0] as u16));
            assert(data@.take(1).map_values(|b: u8| b as u16).len() == 1);
            assert(data@.take(1).map_values(|b: u8| b as u16)[0] == data@[0] as u16);
            assert(self.uart.sent_spec() =~= old(self).uart.sent_spec() + data@.take(
                1,
            ).map_values(|b: u8| b as u16));
        }
        let mut i: usize = 1;
        while i < data.len()
            invariant
                1 <= i <= data@.len(),
                same_it_enabled(old(self).uart, self.uart),
                self.uart.sent_spec() == old(self).uart.sent_spec() + data@.take(
                    i as int,
                ).map_values(|b: u8| b as u16),
                self.uart.pending_spec() == old(self).uart.pending_spec(),
                self.timeout_spec() == old(self).timeout_spec(),
                self.flush_retry_times_spec() == old(self).flush_retry_times_spec(),
            decreases data@.len() - i,
        {
            if self.uart.write(data[i] as u16).is_err() {
                return Ok(i);
            }
            proof {
                assert(self.uart.sent_spec() =~= old(self).uart.sent_spec() + data@.take(
                    i + 1,
                ).map_values(|b: u8| b as u16));
            }
            i = i + 1;
        }
        Ok(i)
    }

    /// Polls until both "transmit register empty" and "transmit complete"
    /// are observed, at most `flush_retry_times` extra polls, else `Other`.
    /// Success means both flags were observed set; nothing is written and
    /// nothing else changes either way.
    #[verifier::loop_isolation(false)]
    pub fn flush(&mut self) -> (r: Result<(), Error>)
        ensures
            *final(self) == *old(self),
            r == Ok::<(), Error>(()) ==> old(self).uart_spec().tx_ready_spec() && old(
                self,
            ).uart_spec().tx_done_spec(),
            r == Ok::<(), Error>(()) || r == Err::<(), Error>(Error::Other),
    {
        let mut k: u32 = 0;
        loop
            invariant
                k <= self.flush_retry_times,
                *self == *old(self),
            decreases self.flush_retry_times - k,
        {
            if self.uart.is_tx_empty() && self.uart.is_tx_complete() {
                return Ok(());
            }
            if k == self.flush_retry_times {
                return Err(Error::Other);
            }
            k = k + 1;
        }
    }
}

// Receive -------------------------------------------------------------------

/// Poll-mode receiver.
pub struct UartPollRx<U, T> {
    uart: U,
    timeout: T,
    continue_retry_times: u32,
}

impl<U: UartPeriph, T: Timeout> UartPollRx<U, T> {
    /// The peripheral handle.
    pub closed spec fn uart_spec(&self) -> U {
        self.uart
    }

    /// The first-word retry policy.
    pub closed spec fn timeout_spec(&self) -> T {
        self.timeout
    }

    /// How many consecutive empty polls end an ongoing read.
    pub closed spec fn continue_retry_times_spec(&self) -> u32 {
        self.continue_retry_times
    }

    pub fn new(uart: U, timeout: T, continue_retry_times: u32) -> (r: UartPollRx<U, T>)
        ensures
            r.uart_spec() == uart,
            r.timeout_spec() == timeout,
            r.continue_retry_times_spec() == continue_retry_times,
    {
        UartPollRx { uart, timeout, continue_retry_times }
    }


    /// The peripheral handle, for inspection.
    pub fn uart(&self) -> (r: &U)
        ensures
            *r == self.uart_spec(),
    {
        &self.uart
    }

    /// Waits for one word under the retry policy: `Busy` exactly when the
    /// budget was exhausted on would-block answers; a latched hardware error
    /// comes back as itself.  On success the word is the device's oldest
    /// pending one; on an error nothing was consumed.
    #[verifier::loop_isolation(false)]
    fn read_first(&mut self) -> (r: Result<u16, Error>)
        ensures
            final(self).timeout == old(self).timeout,
            final(self).continue_retry_times == old(self).continue_retry_times,
            same_it_enabled(old(self).uart, final(self).uart),
            final(self).uart.sent_spec() == old(self).uart.sent_spec(),
            r matches Ok(word) ==> old(self).uart.pending_spec().len() > 0 && word == old(
                self,
            ).uart.pending_spec()[0] && final(self).uart.pending_spec() == old(
                self,
            ).uart.pending_spec().skip(1),
            r is Err ==> final(self).uart.pending_spec() == old(self).uart.pending_spec(),
            r matches Err(e) && e != Error::Busy ==> old(self).uart.pending_spec().len() == 0,
            r == Err::<u16, Error>(Error::Busy) ==> exists|tr: Seq<T::Instance>|
                #[trigger] timed_out_run(old(self).timeout_spec(), tr),
    {
        let mut t = self.timeout.start();
        let ghost mut trace: Seq<T::Instance> = seq![t];
        loop
            invariant
                same_it_enabled(old(self).uart, self.uart),
                self.uart.sent_spec() == old(self).uart.sent_spec(),
                self.uart.pending_spec() == old(self).uart.pending_spec(),
                self.timeout_spec() == old(self).timeout_spec(),
                self.continue_retry_times_spec() == old(self).continue_retry_times_spec(),
                trace.len() >= 1,
                old(self).timeout_spec().fresh_ok(trace[0]),
                failing_steps(trace),
                trace.last() == t,
            decreases t.fuel(),
        {
            if t.timeout() {
                proof {
                    assert(timed_out_run(old(self).timeout_spec(), trace));
                }
                return Err(Error::Busy);
            }
            proof {
                crate::retry::lemma_failing_push(trace, t);
                trace = trace.push(t);
            }
            match self.uart.read() {
                Ok(word) => {
                    return Ok(word);
                },
                Err(NbError::WouldBlock) => {},
                Err(NbError::Other(err)) => {
                    // the status latch never reports Busy; keep Busy reserved
                    // for an exhausted retry budget
                    return Err(
                        match err {
                            Error::Busy => Error::Other,
                            _ => err,
                        },
                    );
                },
            }
            t.interval();
        }
    }

    /// Reads up to `max` bytes: the first under the retry policy — `Busy`
    /// exactly when that budget ran out — then opportunistically, ending
    /// early with the partial count after `continue_retry_times` consecutive
    /// empty polls, so a short bursty line can be drained without waiting
    /// for a full buffer.  `Ok(v)` means `v` is exactly the device's oldest
    /// pending words, in arrival order, truncated to bytes and to `max`; an
    /// error consumes nothing.
    #[verifier::loop_isolation(false)]
    pub fn read(&mut self, max: usize) -> (r: Result<Vec<u8>, Error>)
        ensures
            final(self).timeout_spec() == old(self).timeout_spec(),
            final(self).continue_retry_times_spec() == old(self).continue_retry_times_spec(),
            same_it_enabled(old(self).uart_spec(), final(self).uart_spec()),
            final(self).uart_spec().sent_spec() == old(self).uart_spec().sent_spec(),
            max == 0 ==> r == Err::<Vec<u8>, Error>(Error::Other) && *final(self) == *old(self),
            max > 0 ==> match r {
                Ok(v) => {
                    let p = old(self).uart_spec().pending_spec();
                    &&& v@.len() == vstd::math::min(max as int, p.len() as int)
                    &&& v@ == p.take(v@.len() as int).map_values(|w: u16| w as u8)
                    &&& final(self).uart_spec().pending_spec() == p.skip(v@.len() as int)
                },
                Err(e) => final(self).uart_spec().pending_spec() == old(
                    self,
                ).uart_spec().pending_spec(),
            },
            max > 0 && (r matches Err(e) && e != Error::Busy) ==> old(
                self,
            ).uart_spec().pending_spec().len() == 0,
            r == Err::<Vec<u8>, Error>(Error::Busy) ==> exists|tr: Seq<T::Instance>|
                #[trigger] timed_out_run(old(self).timeout_spec(), tr),
    {
        if max == 0 {
            return Err(Error::Other);
        }
        let first = match self.read_first() {
            Ok(word) => word,
            Err(e) => {
                return Err(e);
            },
        };
        let mut out: Vec<u8> = Vec::new();
        out.push(#[verifier::truncate] (first as u8));
        proof {
            let p = old(self).uart.pending_spec();
            assert(out@ =~= p.take(1).map_values(|w: u16| w as u8));
        }
        let mut retry: u32 = 0;
        while out.len() < max
            invariant
                1 <= out@.len() <= max,
                out@.len() <= old(self).uart.pending_spec().len(),
                retry <= self.continue_retry_times,
                same_it_enabled(old(self).uart, self.uart),
                self.uart.sent_spec() == old(self).uart.sent_spec(),
                self.uart.pending_spec() == old(self).uart.pending_spec().skip(
                    out@.len() as int,
                ),
                out@ == old(self).uart.pending_spec().take(out@.len() as int).map_values(
                    |w: u16| w as u8,
                ),
                self.timeout == old(self).timeout,
                self.continue_retry_times == old(self).continue_retry_times,
            decreases max - out@.len(), self.continue_retry_times - retry,
        {
            let got = self.uart.read();
            match got {
                Ok(word) => {
                    out.push(#[verifier::truncate] (word as u8));
                    proof {
                        let p = old(self).uart.pending_spec();
                        assert(p.skip(out@.len() - 1)[0] == p[out@.len() - 1]);
                        assert(out@ =~= p.take(out@.len() as int).map_values(|w: u16| w as u8));
                        assert(self.uart.pending_spec() =~= p.skip(out@.len() as int));
                    }
                    retry = 0;
                },
                Err(NbError::Other(_)) => {
                    proof {
                        lemma_drained(old(self).uart.pending_spec(), out@.len() as int, max as int);
                    }
                    return Ok(out);
                },
                Err(NbError::WouldBlock) => {
                    if retry >= self.continue_retry_times {
                        proof {
                            lemma_drained(
                                old(self).uart.pending_spec(),
                                out@.len() as int,
                                max as int,
                            );
                        }
                        return Ok(out);
                    }
                    retry = retry + 1;
                },
            }
        }
        Ok(out)
    }
}

/// A read that stopped on an empty device consumed everything that was
/// pending: the count is the smaller of the request and what was there.
proof fn lemma_drained(p: Seq<u16>, len: int, max: int)
    requires
        0 <= len <= max,
        len <= p.len(),
        p.skip(len).len() == 0,
    ensures
        len == vstd::math::min(max, p.len() as int),
{
}

} // verus!
