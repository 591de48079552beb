//! Fixed-capacity single-producer/single-consumer byte queue.
//!
//! The queue is a ring over a backing array of `capacity + 1` slots with two
//! cursors: `write`, advanced only when a byte is pushed, and `read`, advanced
//! only when a byte is popped.  `read == write` means empty; the slot before
//! `read` is never filled, so full is `write + 1 == read` (modulo the array
//! length) and the two cursors never pass one another.
//!
//! In the intended two-context arrangement the producer half lives in
//! application code and the consumer half in an interrupt handler; each cursor
//! has exactly one writer.  Verified code cannot hold two aliased mutable
//! halves, so here the queue is one value and both sides take it by `&mut`:
//! the pipeline methods receive the queue from their caller, who decides which
//! context runs.

use vstd::prelude::*;

verus! {

/// Ring buffer of bytes with first-in first-out order.
pub struct RingBuffer {
    buf: Vec<u8>,
    read: usize,
    write: usize,
}

impl RingBuffer {
    /// The bytes currently queued, oldest first.
    pub closed spec fn view(&self) -> Seq<u8> {
        if self.read <= self.write {
            self.buf@.subrange(self.read as int, self.write as int)
        } else {
            self.buf@.subrange(self.read as int, self.buf@.len() as int)
                + self.buf@.subrange(0, self.write as int)
        }
    }

    /// How many bytes the queue can hold at most.
    pub closed spec fn capacity_spec(&self) -> nat {
        (self.buf@.len() - 1) as nat
    }

    /// How many more bytes fit before the queue is full.
    pub open spec fn free_spec(&self) -> nat {
        (self.capacity_spec() - self@.len()) as nat
    }

    /// Internal consistency: both cursors point into the backing array, which
    /// holds one slot more than the capacity.
    pub closed spec fn wf(&self) -> bool {
        &&& self.buf@.len() >= 1
        &&& self.read < self.buf@.len()
        &&& self.write < self.buf@.len()
    }

    /// The queued bytes never exceed the capacity.
    pub proof fn lemma_len_le_capacity(&self)
        requires
            self.wf(),
        ensures
            self@.len() <= self.capacity_spec(),
    {
    }

    /// Creates an empty queue that can hold `capacity` bytes.
    pub fn new(capacity: usize) -> (r: RingBuffer)
        requires
            capacity < usize::MAX,
        ensures
            r.wf(),
            r@ == Seq::<u8>::empty(),
            r.capacity_spec() == capacity,
    {
        let mut buf: Vec<u8> = Vec::new();
        let n = capacity + 1;
        while buf.len() < n
            invariant
                buf@.len() <= n,
            decreases n - buf@.len(),
        {
            buf.push(0u8);
        }
        let r = RingBuffer { buf, read: 0, write: 0 };
        proof {
            assert(r@ =~= Seq::<u8>::empty());
        }
        r
    }

    /// The capacity chosen at construction.
    pub fn capacity(&self) -> (r: usize)
        requires
            self.wf(),
        ensures
            r == self.capacity_spec(),
    {
        self.buf.len() - 1
    }

    /// How many bytes are queued.
    pub fn occupied_len(&self) -> (r: usize)
        requires
            self.wf(),
        ensures
            r == self@.len(),
    {
        if self.read <= self.write {
            self.write - self.read
        } else {
            self.buf.len() - self.read + self.write
        }
    }

    /// How many bytes can still be pushed.
    pub fn slots(&self) -> (r: usize)
        requires
            self.wf(),
        ensures
            r == self.free_spec(),
    {
        let occ = self.occupied_len();
        self.buf.len() - 1 - occ
    }

    /// Whether nothing is queued.
    pub fn is_empty(&self) -> (r: bool)
        requires
            self.wf(),
        ensures
            r == (self@.len() == 0),
    {
        self.read == self.write
    }

    /// Whether no further byte fits.
    pub fn is_full(&self) -> (r: bool)
        requires
            self.wf(),
        ensures
            r == (self@.len() == self.capacity_spec()),
    {
        self.slots() == 0
    }

    /// Pushes one byte; returns false and changes nothing when the queue is
    /// full.
    pub fn push(&mut self, byte: u8) -> (r: bool)
        requires
            old(self).wf(),
        ensures
            final(self).wf(),
            final(self).capacity_spec() == old(self).capacity_spec(),
            r == (old(self)@.len() < old(self).capacity_spec()),
            r ==> final(self)@ == old(self)@.push(byte),
            !r ==> *final(self) == *old(self),
    {
        let next = if self.write == self.buf.len() - 1 {
            0
        } else {
            self.write + 1
        };
        if next == self.read {
            proof {
                assert(self@.len() == self.capacity_spec());
            }
            return false;
        }
        self.buf[self.write] = byte;
        self.write = next;
        proof {
            assert(final(self)@ =~= old(self)@.push(byte));
        }
        true
    }

    /// Copies the front byte without removing it.
    pub fn peek(&self) -> (r: Option<u8>)
        requires
            self.wf(),
        ensures
            r == (if self@.len() == 0 {
                Option::<u8>::None
            } else {
                Option::Some(self@[0])
            }),
    {
        if self.read == self.write {
            None
        } else {
            Some(self.buf[self.read])
        }
    }

    /// Removes and returns the oldest byte, or `None` when empty.
    pub fn pop(&mut self) -> (r: Option<u8>)
        requires
            old(self).wf(),
        ensures
            final(self).wf(),
            final(self).capacity_spec() == old(self).capacity_spec(),
            r == (if old(self)@.len() == 0 {
                Option::<u8>::None
            } else {
                Option::Some(old(self)@[0])
            }),
            old(self)@.len() == 0 ==> *final(self) == *old(self),
            old(self)@.len() > 0 ==> final(self)@ == old(self)@.skip(1),
    {
        if self.read == self.write {
            return None;
        }
        let byte = self.buf[self.read];
        self.read = if self.read == self.buf.len() - 1 {
            0
        } else {
            self.read + 1
        };
        proof {
            assert(final(self)@ =~= old(self)@.skip(1));
        }
        Some(byte)
    }

    /// Pushes as much of `data` as fits, in order, and returns how many bytes
    /// went in: the whole slice when there is room, exactly the free slots
    /// otherwise.  A short count is back-pressure, not an error.
    pub fn push_slice(&mut self, data: &[u8]) -> (n: usize)
        requires
            old(self).wf(),
        ensures
            final(self).wf(),
            final(self).capacity_spec() == old(self).capacity_spec(),
            n == vstd::math::min(data@.len() as int, old(self).free_spec() as int),
            final(self)@ == old(self)@ + data@.take(n as int),
    {
        let mut i: usize = 0;
        while i < data.len() && self.slots() > 0
            invariant
                self.wf(),
                self.capacity_spec() == old(self).capacity_spec(),
                i <= data@.len(),
                self.free_spec() == old(self).free_spec() - i,
                self@ == old(self)@ + data@.take(i as int),
            decreases data@.len() - i,
        {
            self.push(data[i]);
            proof {
                assert((old(self)@ + data@.take(i as int)).push(data@[i as int])
                    =~= old(self)@ + data@.take(i + 1));
            }
            i = i + 1;
        }
        i
    }

    /// Removes up to `max` of the oldest bytes and returns them in order.
    pub fn pop_slice(&mut self, max: usize) -> (r: Vec<u8>)
        requires
            old(self).wf(),
        ensures
            final(self).wf(),
            final(self).capacity_spec() == old(self).capacity_spec(),
            r@.len() == vstd::math::min(max as int, old(self)@.len() as int),
            r@ == old(self)@.take(r@.len() as int),
            final(self)@ == old(self)@.skip(r@.len() as int),
    {
        let mut out: Vec<u8> = Vec::new();
        while out.len() < max && !self.is_empty()
            invariant
                self.wf(),
                self.capacity_spec() == old(self).capacity_spec(),
                out@.len() <= max,
                out@.len() <= old(self)@.len(),
                out@ == old(self)@.take(out@.len() as int),
                self@ == old(self)@.skip(out@.len() as int),
            decreases max - out@.len(),
        {
            let b = self.pop();
            let x = b.unwrap();
            out.push(x);
            proof {
                assert(out@ =~= old(self)@.take(out@.len() as int));
                assert(self@ =~= old(self)@.skip(out@.len() as int));
            }
        }
        out
    }
}

/// At every observation point the occupied and the free slots account for the
/// whole capacity: `occupied_len() + slots() == capacity()`.
pub proof fn lemma_occupied_plus_free_is_capacity(q: &RingBuffer)
    requires
        q.wf(),
    ensures
        q@.len() + q.free_spec() == q.capacity_spec(),
{
    q.lemma_len_le_capacity();
}

/// No byte is lost by a partial push: when only `free < data.len()` slots are
/// free, a push of `data` stores exactly its first `free` bytes, and a later
/// push of the rest, made when enough slots have freed up, stores all of them;
/// together the two stored runs are exactly `data`.
pub proof fn lemma_partial_push_completes(data: Seq<u8>, free1: nat, free2: nat)
    requires
        free1 < data.len(),
        free2 >= data.len() - free1,
    ensures
        vstd::math::min(data.len() as int, free1 as int) == free1,
        vstd::math::min(data.skip(free1 as int).len() as int, free2 as int)
            == data.len() - free1,
        data.take(free1 as int) + data.skip(free1 as int) == data,
{
    assert(data.take(free1 as int) + data.skip(free1 as int) =~= data);
}

} // verus!
