//! The ring buffer that received bytes wait in.
use ringbuf::storage::Heap;
use ringbuf::traits::{Consumer, Observer, Producer};
use ringbuf::LocalRb;
use vstd::prelude::*;

verus! {

/// A bounded first-in first-out buffer of bytes: `ringbuf::LocalRb` over
/// `ringbuf::storage::Heap`. `LocalRb` has a parameter that is bounded by a trait
/// of `ringbuf`, which Verus cannot declare, so the ring is held in an opaque
/// struct; what it holds is described by `ring_contents` and `ring_capacity`.
#[verifier::external_body]
pub struct ByteRing {
    rb: LocalRb<Heap<u8>>,
}

/// The bytes that a ring holds, oldest first.
pub uninterp spec fn ring_contents(ring: ByteRing) -> Seq<u8>;

/// How many bytes a ring can hold.
pub uninterp spec fn ring_capacity(ring: ByteRing) -> nat;

/// The smaller of two lengths.
pub open spec fn min_len(a: int, b: int) -> int {
    if a <= b {
        a
    } else {
        b
    }
}

/// A ring is fit for use: it holds no more than its capacity, and the capacity
/// is so small that `ringbuf` computes its indices, which stay below twice the
/// capacity, and their sums without overflow.
pub open spec fn ring_fits(ring: ByteRing) -> bool {
    &&& ring_contents(ring).len() <= ring_capacity(ring)
    &&& ring_capacity(ring) * 4 <= usize::MAX
}

impl ByteRing {
    /// `LocalRb::new`: an empty ring of exactly the given capacity. It panics on
    /// a capacity of zero.
    #[verifier::external_body]
    pub(crate) fn new(capacity: usize) -> (ring: ByteRing)
        requires
            0 < capacity,
            capacity * 4 <= usize::MAX,
        ensures
            ring_contents(ring) == Seq::<u8>::empty(),
            ring_capacity(ring) == capacity,
    {
        ByteRing { rb: LocalRb::new(capacity) }
    }

    /// `Producer::push_slice` on a `LocalRb`: appends as many of the bytes as
    /// there is room for, from the first on, leaves out the others, and gives
    /// the number appended.
    #[verifier::external_body]
    pub(crate) fn push_slice(&mut self, bytes: &[u8]) -> (count: usize)
        requires
            ring_fits(*old(self)),
        ensures
            count == min_len(
                bytes@.len() as int,
                ring_capacity(*old(self)) - ring_contents(*old(self)).len(),
            ),
            ring_contents(*final(self)) == ring_contents(*old(self)) + bytes@.take(count as int),
            ring_capacity(*final(self)) == ring_capacity(*old(self)),
    {
        self.rb.push_slice(bytes)
    }

    /// `Consumer::pop_slice` on a `LocalRb`: moves the oldest bytes out, as many
    /// as there are and as fit, to the front of `out`, leaves the rest of `out`
    /// as it was, and gives the number moved.
    #[verifier::external_body]
    pub(crate) fn pop_slice(&mut self, out: &mut [u8]) -> (count: usize)
        requires
            ring_fits(*old(self)),
        ensures
            count == min_len(old(out)@.len() as int, ring_contents(*old(self)).len() as int),
            final(out)@ == ring_contents(*old(self)).take(count as int) + old(out)@.skip(
                count as int,
            ),
            ring_contents(*final(self)) == ring_contents(*old(self)).skip(count as int),
            ring_capacity(*final(self)) == ring_capacity(*old(self)),
    {
        self.rb.pop_slice(out)
    }

    /// `Observer::occupied_len` on a `LocalRb`: how many bytes the ring holds.
    #[verifier::external_body]
    pub(crate) fn occupied_len(&self) -> (count: usize)
        requires
            ring_fits(*self),
        ensures
            count == ring_contents(*self).len(),
    {
        self.rb.occupied_len()
    }
}

} // verus!
