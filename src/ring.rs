//! Fixed-capacity sample windows, held in `ringbuffer`'s const-generic ring buffer.
use ringbuffer::ConstGenericRingBuffer;
use ringbuffer::RingBuffer;
use vstd::prelude::*;

use crate::WINDOW;

verus! {

/// Declares `ringbuffer::ConstGenericRingBuffer`, seen only through `ring_items`
/// and the functions below.
#[verifier::external_type_specification]
#[verifier::external_body]
#[verifier::reject_recursive_types(T)]
pub struct ExConstGenericRingBuffer<T, const CAP: usize>(ConstGenericRingBuffer<T, CAP>);

/// One channel's window of sample bit patterns.
pub type SampleRing = ConstGenericRingBuffer<u32, WINDOW>;

/// What a window holds, oldest first.
pub uninterp spec fn ring_items(r: SampleRing) -> Seq<u32>;

/// Relies on `ConstGenericRingBuffer::new`: the new buffer holds nothing.
#[verifier::external_body]
pub(crate) fn ring_new() -> (r: SampleRing)
    ensures
        ring_items(r).len() == 0,
{
    ConstGenericRingBuffer::new()
}

/// Relies on `RingBuffer::fill_default`: afterwards the buffer is full, and every
/// item is `u32::default()`, which is zero.
#[verifier::external_body]
pub(crate) fn ring_fill_default(r: &mut SampleRing)
    ensures
        ring_items(*final(r)) == Seq::new(WINDOW as nat, |_i: int| 0u32),
{
    r.fill_default()
}

/// Relies on `RingBuffer::enqueue`: the value is appended as the newest item, and
/// when the buffer was already at capacity its oldest item is dropped first.
#[verifier::external_body]
pub(crate) fn ring_enqueue(r: &mut SampleRing, value: u32)
    requires
        ring_items(*old(r)).len() <= WINDOW,
    ensures
        ring_items(*final(r)) == if ring_items(*old(r)).len() == WINDOW {
            ring_items(*old(r)).drop_first().push(value)
        } else {
            ring_items(*old(r)).push(value)
        },
{
    r.enqueue(value)
}

/// Relies on `ConstGenericRingBuffer`'s `Index<usize>`: position `i` counts from
/// the oldest item, and an index below the length is taken as it is.
#[verifier::external_body]
pub(crate) fn ring_get(r: &SampleRing, i: usize) -> (v: u32)
    requires
        i < ring_items(*r).len(),
    ensures
        v == ring_items(*r)[i as int],
{
    r[i]
}

} // verus!
