//! DMA channel capability and the circular capture buffer fed by it.
//!
//! The hardware writes a fixed byte array forever in circular mode; software
//! trails behind with a single `read_idx` cursor.  The hardware write
//! position is never stored: it is derived on every read from the channel's
//! remaining-transfer-length register as `0` when the remaining length is
//! `0`, else `len - remaining`.  One read returns only a contiguous run — a
//! run that wraps takes two reads.

use vstd::prelude::*;

verus! {

/// Interrupt sources of a DMA channel.
#[derive(Clone, Copy, Debug, PartialEq, Eq)]
pub enum DmaEvent {
    TransferComplete,
    HalfTransfer,
}

/// What the pipelines need from a DMA channel, as a contract: programming
/// the addresses, direction and transfer length, starting and stopping, and
/// querying the remaining length, which the hardware only ever reports
/// within the programmed transfer length.  The model is sequential: the
/// channel's programmed state changes only through these calls.
pub trait DmaChannel: Sized {
    /// The transfer length the channel is programmed with.
    spec fn configured_len(&self) -> nat;

    /// Whether the channel is started.
    spec fn running_spec(&self) -> bool;

    /// Whether the channel is programmed for circular mode.
    spec fn circular_spec(&self) -> bool;

    /// Whether the channel is programmed memory-to-peripheral.
    spec fn mem_to_periph_spec(&self) -> bool;

    /// The peripheral-side address the channel is programmed with.
    spec fn periph_addr_spec(&self) -> u32;

    fn start(&mut self)
        ensures
            final(self).running_spec(),
            final(self).configured_len() == old(self).configured_len(),
            final(self).circular_spec() == old(self).circular_spec(),
            final(self).mem_to_periph_spec() == old(self).mem_to_periph_spec(),
            final(self).periph_addr_spec() == old(self).periph_addr_spec(),
    ;

    fn stop(&mut self)
        ensures
            !final(self).running_spec(),
            final(self).configured_len() == old(self).configured_len(),
            final(self).circular_spec() == old(self).circular_spec(),
            final(self).mem_to_periph_spec() == old(self).mem_to_periph_spec(),
            final(self).periph_addr_spec() == old(self).periph_addr_spec(),
    ;

    /// Programs the peripheral-side address and the transfer direction,
    /// increment and circular flags.
    fn set_peripheral_address(
        &mut self,
        address: u32,
        mem_to_periph: bool,
        increase: bool,
        circular: bool,
    )
        ensures
            final(self).periph_addr_spec() == address,
            final(self).mem_to_periph_spec() == mem_to_periph,
            final(self).circular_spec() == circular,
            final(self).configured_len() == old(self).configured_len(),
            final(self).running_spec() == old(self).running_spec(),
    ;

    /// Programs the memory-side address without touching the length.
    fn set_memory_address(&mut self, address: usize, increase: bool)
        ensures
            final(self).configured_len() == old(self).configured_len(),
            final(self).running_spec() == old(self).running_spec(),
            final(self).circular_spec() == old(self).circular_spec(),
            final(self).mem_to_periph_spec() == old(self).mem_to_periph_spec(),
            final(self).periph_addr_spec() == old(self).periph_addr_spec(),
    ;

    /// Programs the transfer length.
    fn set_transfer_length(&mut self, len: usize)
        ensures
            final(self).configured_len() == len,
            final(self).running_spec() == old(self).running_spec(),
            final(self).circular_spec() == old(self).circular_spec(),
            final(self).mem_to_periph_spec() == old(self).mem_to_periph_spec(),
            final(self).periph_addr_spec() == old(self).periph_addr_spec(),
    ;

    /// Points the channel at `buf`: memory address and transfer length in
    /// one step.
    fn set_memory_buffer(&mut self, buf: &[u8])
        ensures
            final(self).configured_len() == buf@.len(),
            final(self).running_spec() == old(self).running_spec(),
            final(self).circular_spec() == old(self).circular_spec(),
            final(self).mem_to_periph_spec() == old(self).mem_to_periph_spec(),
            final(self).periph_addr_spec() == old(self).periph_addr_spec(),
    ;

    /// Programs a memory-to-memory transfer of `len` units; a mode of its
    /// own, outside the peripheral-directed flags above.
    fn set_memory_to_memory(&mut self, src_addr: usize, dst_addr: usize, len: usize)
        ensures
            final(self).configured_len() == len,
            final(self).running_spec() == old(self).running_spec(),
    ;

    /// How many units the hardware has still to transfer; never more than the
    /// programmed length.
    fn get_left_len(&self) -> (r: usize)
        ensures
            r <= self.configured_len(),
    ;

    fn in_progress(&self) -> bool;

    fn set_interrupt(&mut self, event: DmaEvent, enable: bool)
        ensures
            final(self).configured_len() == old(self).configured_len(),
            final(self).running_spec() == old(self).running_spec(),
            final(self).circular_spec() == old(self).circular_spec(),
            final(self).mem_to_periph_spec() == old(self).mem_to_periph_spec(),
            final(self).periph_addr_spec() == old(self).periph_addr_spec(),
    ;

    fn is_interrupted(&mut self, event: DmaEvent) -> (r: bool)
        ensures
            final(self).configured_len() == old(self).configured_len(),
            final(self).running_spec() == old(self).running_spec(),
            final(self).circular_spec() == old(self).circular_spec(),
            final(self).mem_to_periph_spec() == old(self).mem_to_periph_spec(),
            final(self).periph_addr_spec() == old(self).periph_addr_spec(),
    ;
}

/// An in-memory DMA channel for targets without the hardware one: it records
/// what it was programmed with, and the remaining length is set by hand in
/// place of a hardware transfer.  It is also the checked model of
/// [`DmaChannel`]: its implementation is verified against the trait's
/// contract.
pub struct SoftDmaChannel {
    len: usize,
    left: usize,
    running: bool,
    circ: bool,
    m2p: bool,
    paddr: u32,
    it_tc: bool,
    it_ht: bool,
}

impl SoftDmaChannel {
    /// How much of the programmed transfer counts as not yet done.
    pub closed spec fn left_spec(&self) -> nat {
        self.left as nat
    }

    /// An unprogrammed, stopped channel.
    pub fn new() -> (r: SoftDmaChannel)
        ensures
            r.configured_len() == 0,
            !r.running_spec(),
            !r.circular_spec(),
            !r.mem_to_periph_spec(),
            r.left_spec() == 0,
    {
        SoftDmaChannel {
            len: 0,
            left: 0,
            running: false,
            circ: false,
            m2p: false,
            paddr: 0,
            it_tc: false,
            it_ht: false,
        }
    }

    /// Stands in for hardware progress: sets the remaining transfer length.
    pub fn set_left(&mut self, left: usize)
        ensures
            final(self).configured_len() == old(self).configured_len(),
            final(self).left_spec() == left,
            final(self).running_spec() == old(self).running_spec(),
            final(self).circular_spec() == old(self).circular_spec(),
            final(self).mem_to_periph_spec() == old(self).mem_to_periph_spec(),
            final(self).periph_addr_spec() == old(self).periph_addr_spec(),
    {
        self.left = left;
    }

    /// Whether the channel is started.
    pub fn is_running(&self) -> (r: bool)
        ensures
            r == self.running_spec(),
    {
        self.running
    }

    /// Whether the channel is programmed for circular mode.
    pub fn is_circular(&self) -> (r: bool)
        ensures
            r == self.circular_spec(),
    {
        self.circ
    }

    /// Whether the channel is programmed memory-to-peripheral.
    pub fn is_mem_to_periph(&self) -> (r: bool)
        ensures
            r == self.mem_to_periph_spec(),
    {
        self.m2p
    }

    /// The programmed peripheral-side address.
    pub fn peripheral_address(&self) -> (r: u32)
        ensures
            r == self.periph_addr_spec(),
    {
        self.paddr
    }
}

impl DmaChannel for SoftDmaChannel {
    closed spec fn configured_len(&self) -> nat {
        self.len as nat
    }

    closed spec fn running_spec(&self) -> bool {
        self.running
    }

    closed spec fn circular_spec(&self) -> bool {
        self.circ
    }

    closed spec fn mem_to_periph_spec(&self) -> bool {
        self.m2p
    }

    closed spec fn periph_addr_spec(&self) -> u32 {
        self.paddr
    }

    fn start(&mut self)
        ensures
            final(self).left_spec() == old(self).left_spec(),
    {
        self.running = true;
    }

    fn stop(&mut self)
        ensures
            final(self).left_spec() == old(self).left_spec(),
    {
        self.running = false;
    }

    fn set_peripheral_address(
        &mut self,
        address: u32,
        mem_to_periph: bool,
        increase: bool,
        circular: bool,
    )
        ensures
            final(self).left_spec() == old(self).left_spec(),
    {
        self.paddr = address;
        self.m2p = mem_to_periph;
        self.circ = circular;
    }

    fn set_memory_address(&mut self, address: usize, increase: bool)
        ensures
            final(self).left_spec() == old(self).left_spec(),
    {
    }

    fn set_transfer_length(&mut self, len: usize)
        ensures
            final(self).left_spec() == old(self).left_spec(),
    {
        self.len = len;
    }

    fn set_memory_buffer(&mut self, buf: &[u8])
        ensures
            final(self).left_spec() == old(self).left_spec(),
    {
        self.len = buf.len();
    }

    fn set_memory_to_memory(&mut self, src_addr: usize, dst_addr: usize, len: usize)
        ensures
            final(self).left_spec() == old(self).left_spec(),
    {
        self.len = len;
    }

    fn get_left_len(&self) -> (r: usize)
        ensures
            r == vstd::math::min(self.left_spec() as int, self.configured_len() as int),
    {
        if self.left <= self.len {
            self.left
        } else {
            self.len
        }
    }

    fn in_progress(&self) -> (r: bool)
        ensures
            r == (self.running_spec() && self.left_spec() > 0),
    {
        self.running && self.left > 0
    }

    fn set_interrupt(&mut self, event: DmaEvent, enable: bool)
        ensures
            final(self).left_spec() == old(self).left_spec(),
    {
        match event {
            DmaEvent::TransferComplete => {
                self.it_tc = enable;
            },
            DmaEvent::HalfTransfer => {
                self.it_ht = enable;
            },
        }
    }

    fn is_interrupted(&mut self, event: DmaEvent) -> (r: bool)
        ensures
            final(self).left_spec() == old(self).left_spec(),
    {
        match event {
            DmaEvent::TransferComplete => self.it_tc && self.left == 0,
            DmaEvent::HalfTransfer => self.it_ht,
        }
    }
}

/// The sequence behind a returned chunk, `None` when nothing came back.
pub open spec fn opt_view(r: Option<Vec<u8>>) -> Option<Seq<u8>> {
    match r {
        Some(v) => Some(v@),
        None => None,
    }
}

/// A fixed byte array continuously overwritten by DMA hardware, read through
/// a trailing cursor.
pub struct CircularBuffer {
    recv_buf: Vec<u8>,
    read_idx: usize,
}

impl CircularBuffer {
    /// The backing array.
    pub closed spec fn view(&self) -> Seq<u8> {
        self.recv_buf@
    }

    /// The trailing read cursor.
    pub closed spec fn read_index(&self) -> nat {
        self.read_idx as nat
    }

    /// The cursor stays strictly inside the backing array (at 0 when the
    /// array is empty): it never exceeds the array length.
    pub open spec fn wf(&self) -> bool {
        if self@.len() == 0 {
            self.read_index() == 0
        } else {
            self.read_index() < self@.len()
        }
    }

    /// Where the hardware write cursor stands, derived from the remaining
    /// transfer length.
    pub open spec fn dma_index(m: nat, left: nat) -> nat
        recommends
            left <= m,
    {
        if left == 0 {
            0
        } else {
            (m - left) as nat
        }
    }

    /// The bytes written by the hardware and not yet read: from the read
    /// cursor to the derived write cursor, wrapping at the array end.
    pub open spec fn unread(&self, d: nat) -> Seq<u8>
        recommends
            self.wf(),
            d <= self@.len(),
    {
        if self.read_index() <= d {
            self@.subrange(self.read_index() as int, d as int)
        } else {
            self@.subrange(self.read_index() as int, self@.len() as int)
                + self@.subrange(0, d as int)
        }
    }

    /// Exactly what one `read` call does.  With `d` the derived write cursor:
    /// nothing is returned when the cursor has caught up (or nothing was
    /// asked); otherwise the next contiguous run, truncated to `max` and to
    /// the array end, comes out and the cursor advances past it, wrapping to
    /// 0 at the end.
    pub open spec fn read_ok(
        pre: CircularBuffer,
        post: CircularBuffer,
        left: nat,
        max: nat,
        r: Option<Seq<u8>>,
    ) -> bool {
        let m = pre@.len();
        let d = Self::dma_index(m, left);
        let ri = pre.read_index();
        let run = if ri < d {
            (d - ri) as nat
        } else {
            (m - ri) as nat
        };
        let k = vstd::math::min(max as int, run as int) as nat;
        if max == 0 || ri == d {
            r is None && post == pre
        } else {
            &&& r == Some(pre@.subrange(ri as int, (ri + k) as int))
            &&& post@ == pre@
            &&& post.read_index() == (if ri + k == m {
                0
            } else {
                (ri + k) as nat
            })
        }
    }

    /// Creates a zeroed buffer of `buf_size` bytes with the cursor at 0.
    pub fn new(buf_size: usize) -> (r: CircularBuffer)
        ensures
            r.wf(),
            r@.len() == buf_size,
            r@ == Seq::<u8>::new(buf_size as nat, |i: int| 0u8),
            r.read_index() == 0,
    {
        let mut recv_buf: Vec<u8> = Vec::new();
        while recv_buf.len() < buf_size
            invariant
                recv_buf@.len() <= buf_size,
                recv_buf@ == Seq::<u8>::new(recv_buf@.len(), |i: int| 0u8),
            decreases buf_size - recv_buf@.len(),
        {
            recv_buf.push(0u8);
            proof {
                assert(recv_buf@ =~= Seq::<u8>::new(recv_buf@.len(), |i: int| 0u8));
            }
        }
        CircularBuffer { recv_buf, read_idx: 0 }
    }

    /// The backing array length.
    pub fn len(&self) -> (r: usize)
        ensures
            r == self@.len(),
    {
        self.recv_buf.len()
    }

    /// The backing array, as the DMA hardware sees it.
    pub fn as_slice(&self) -> (r: &[u8])
        ensures
            r@ == self@,
    {
        self.recv_buf.as_slice()
    }

    /// Stores one byte, as the DMA hardware would.
    pub fn set_slot(&mut self, i: usize, value: u8)
        requires
            i < old(self)@.len(),
        ensures
            final(self)@ == old(self)@.update(i as int, value),
            final(self).read_index() == old(self).read_index(),
            old(self).wf() ==> final(self).wf(),
    {
        self.recv_buf[i] = value;
    }

    /// Returns the next unread contiguous run, at most `max` bytes and never
    /// across the array end, advancing the cursor past it; `None` when the
    /// cursor has caught up with the hardware.  `left_len` is the remaining
    /// transfer length read from the channel.
    pub fn read(&mut self, left_len: usize, max: usize) -> (r: Option<Vec<u8>>)
        requires
            old(self).wf(),
            left_len <= old(self)@.len(),
        ensures
            final(self).wf(),
            Self::read_ok(
                *old(self),
                *final(self),
                left_len as nat,
                max as nat,
                (match r {
                    Some(v) => Some(v@),
                    None => None,
                }),
            ),
    {
        let m = self.recv_buf.len();
        let dma_recv_idx = if left_len == 0 {
            0
        } else {
            m - left_len
        };

        if max == 0 || self.read_idx == dma_recv_idx {
            return None;
        }

        let run = if self.read_idx < dma_recv_idx {
            dma_recv_idx - self.read_idx
        } else {
            m - self.read_idx
        };
        let k = if max < run {
            max
        } else {
            run
        };

        let mut out: Vec<u8> = Vec::new();
        let mut j: usize = self.read_idx;
        while j < self.read_idx + k
            invariant
                self.read_idx + k <= m,
                m == self@.len(),
                self.read_idx <= j <= self.read_idx + k,
                out@ == self@.subrange(self.read_idx as int, j as int),
            decreases self.read_idx + k - j,
        {
            out.push(self.recv_buf[j]);
            proof {
                assert(out@ =~= self@.subrange(self.read_idx as int, j + 1));
            }
            j = j + 1;
        }

        self.read_idx = if self.read_idx + k == m {
            0
        } else {
            self.read_idx + k
        };
        Some(out)
    }
}

/// One read loses and duplicates nothing: what it returns, followed by what
/// stays unread, is exactly what was unread before, as long as the hardware
/// cursor has not moved.
pub proof fn lemma_read_no_loss(
    pre: CircularBuffer,
    post: CircularBuffer,
    left: nat,
    max: nat,
    r: Option<Seq<u8>>,
)
    requires
        pre.wf(),
        left <= pre@.len(),
        CircularBuffer::read_ok(pre, post, left, max, r),
    ensures
        pre.unread(CircularBuffer::dma_index(pre@.len(), left)) == (match r {
            Some(v) => v,
            None => Seq::<u8>::empty(),
        }) + post.unread(CircularBuffer::dma_index(pre@.len(), left)),
{
    let m = pre@.len();
    let d = CircularBuffer::dma_index(m, left);
    let got = (match r {
        Some(v) => v,
        None => Seq::<u8>::empty(),
    });
    assert(pre.unread(d) =~= got + post.unread(d));
}

/// What a read returned, as a sequence; nothing when nothing came back.
pub open spec fn opt_or_empty(r: Option<Seq<u8>>) -> Seq<u8> {
    match r {
        Some(v) => v,
        None => Seq::<u8>::empty(),
    }
}

/// Two consecutive reads lose and duplicate nothing either: while the
/// hardware cursor stands still, what they return, in order, followed by
/// what stays unread, is exactly what was unread before the first — so
/// repeated reads recover a wrapped run whole.
pub proof fn lemma_reads_no_loss_chain(
    a: CircularBuffer,
    b: CircularBuffer,
    c: CircularBuffer,
    left: nat,
    max1: nat,
    max2: nat,
    r1: Option<Seq<u8>>,
    r2: Option<Seq<u8>>,
)
    requires
        a.wf(),
        left <= a@.len(),
        CircularBuffer::read_ok(a, b, left, max1, r1),
        CircularBuffer::read_ok(b, c, left, max2, r2),
    ensures
        a.unread(CircularBuffer::dma_index(a@.len(), left)) == opt_or_empty(r1) + opt_or_empty(
            r2,
        ) + c.unread(CircularBuffer::dma_index(a@.len(), left)),
{
    let d = CircularBuffer::dma_index(a@.len(), left);
    assert(b.wf() && b@ == a@);
    lemma_read_no_loss(a, b, left, max1, r1);
    lemma_read_no_loss(b, c, left, max2, r2);
    assert(a.unread(d) =~= opt_or_empty(r1) + opt_or_empty(r2) + c.unread(d));
}

/// A DMA channel armed in circular, peripheral-to-memory mode over a fixed
/// backing buffer, read by the one consumer through a trailing cursor.
pub struct DmaCircularBufferRx<CH> {
    ch: CH,
    buf: CircularBuffer,
}

impl<CH: DmaChannel> DmaCircularBufferRx<CH> {
    /// The capture buffer, with its cursor.
    pub closed spec fn capture(&self) -> CircularBuffer {
        self.buf
    }

    /// The channel handle.
    pub closed spec fn channel(&self) -> CH {
        self.ch
    }

    /// The channel handle, for inspection.
    pub fn channel_ref(&self) -> (r: &CH)
        ensures
            *r == self.channel(),
    {
        &self.ch
    }

    /// The channel is programmed over the whole backing array.
    pub open spec fn wf(&self) -> bool {
        &&& self.capture().wf()
        &&& self.channel().configured_len() == self.capture()@.len()
    }

    /// Arms `ch` over a fresh zeroed buffer of `buf_size` bytes — stop,
    /// program memory side, program the peripheral side circular and
    /// peripheral-to-memory, start — and hands the armed pair back: the
    /// channel runs from then on and the hardware writes continuously.
    pub fn new(ch: CH, peripheral_addr: u32, buf_size: usize) -> (r: DmaCircularBufferRx<CH>)
        ensures
            r.wf(),
            r.capture()@.len() == buf_size,
            r.capture().read_index() == 0,
            r.channel().running_spec(),
            r.channel().circular_spec(),
            !r.channel().mem_to_periph_spec(),
            r.channel().periph_addr_spec() == peripheral_addr,
    {
        let buf = CircularBuffer::new(buf_size);
        let mut ch = ch;
        ch.stop();
        ch.set_memory_buffer(buf.as_slice());
        ch.set_peripheral_address(peripheral_addr, false, false, true);
        ch.start();
        DmaCircularBufferRx { ch, buf }
    }

    /// Reads the next unread contiguous run, at most `max` bytes, `None` when
    /// the hardware has written nothing new; the remaining length is taken
    /// from the channel at the moment of the call.
    pub fn read(&mut self, max: usize) -> (r: Option<Vec<u8>>)
        requires
            old(self).wf(),
        ensures
            final(self).wf(),
            final(self).channel() == old(self).channel(),
            exists|left: nat|
                left <= old(self).capture()@.len() && #[trigger] CircularBuffer::read_ok(
                    old(self).capture(),
                    final(self).capture(),
                    left,
                    max as nat,
                    opt_view(r),
                ),
    {
        let left_len = self.ch.get_left_len();
        let r = self.buf.read(left_len, max);
        proof {
            assert(CircularBuffer::read_ok(
                old(self).capture(),
                self.capture(),
                left_len as nat,
                max as nat,
                (match r {
                    Some(v) => Some(v@),
                    None => None,
                }),
            ));
        }
        r
    }
}

} // verus!
