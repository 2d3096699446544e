//! Trusted boundary around the fixed-capacity ring buffers that hold the
//! rolling sample histories.
//!
//! The buffers come from the `ringbuffer` crate.  Their contents are named by
//! uninterpreted spec functions, always ordered oldest first, and every
//! operation the sampler uses is wrapped with a contract over those names.

use vstd::prelude::*;

use ringbuffer::AllocRingBuffer;
use ringbuffer::RingBuffer;

verus! {

#[verifier::external_type_specification]
#[verifier::external_body]
#[verifier::reject_recursive_types(T)]
pub struct ExAllocRingBuffer<T>(AllocRingBuffer<T>);

/// The CPU samples (thousandths of a percent) a buffer holds, oldest first.
pub uninterp spec fn cpu_ring_contents(rb: AllocRingBuffer<u64>) -> Seq<u64>;

/// The fixed capacity a CPU sample buffer was created with.
pub uninterp spec fn cpu_ring_capacity(rb: AllocRingBuffer<u64>) -> nat;

/// The network-rate samples (byte count, period in milliseconds) a buffer
/// holds, oldest first.
pub uninterp spec fn rate_ring_contents(rb: AllocRingBuffer<(u64, u64)>) -> Seq<(u64, u64)>;

/// The fixed capacity a network-rate sample buffer was created with.
pub uninterp spec fn rate_ring_capacity(rb: AllocRingBuffer<(u64, u64)>) -> nat;

/// Relies on `AllocRingBuffer::new`: creates an empty buffer with the given
/// capacity.  It panics on a zero capacity, which the precondition excludes.
#[verifier::external_body]
pub(crate) fn cpu_ring_new(capacity: usize) -> (rb: AllocRingBuffer<u64>)
    requires
        capacity >= 1,
    ensures
        cpu_ring_contents(rb) == Seq::<u64>::empty(),
        cpu_ring_capacity(rb) == capacity as nat,
{
    AllocRingBuffer::new(capacity)
}

/// Relies on `AllocRingBuffer::enqueue`: appends the value as the newest
/// element; once the buffer is full, exactly the oldest element is evicted
/// and returned.
#[verifier::external_body]
pub(crate) fn cpu_ring_enqueue(rb: &mut AllocRingBuffer<u64>, value: u64) -> (evicted: Option<
    u64,
>)
    ensures
        cpu_ring_capacity(*final(rb)) == cpu_ring_capacity(*old(rb)),
        cpu_ring_contents(*old(rb)).len() < cpu_ring_capacity(*old(rb)) ==> {
            &&& cpu_ring_contents(*final(rb)) == cpu_ring_contents(*old(rb)).push(value)
            &&& evicted is None
        },
        cpu_ring_contents(*old(rb)).len() >= cpu_ring_capacity(*old(rb)) ==> {
            &&& cpu_ring_contents(*final(rb)) == cpu_ring_contents(*old(rb)).subrange(
                1,
                cpu_ring_contents(*old(rb)).len() as int,
            ).push(value)
            &&& evicted == Some(cpu_ring_contents(*old(rb)).first())
        },
{
    rb.enqueue(value)
}

/// Relies on `RingBuffer::to_vec`: copies the contents out, oldest first.
#[verifier::external_body]
pub(crate) fn cpu_ring_to_vec(rb: &AllocRingBuffer<u64>) -> (v: Vec<u64>)
    ensures
        v@ == cpu_ring_contents(*rb),
{
    rb.to_vec()
}

/// Relies on `AllocRingBuffer::new`: creates an empty buffer with the given
/// capacity.  It panics on a zero capacity, which the precondition excludes.
#[verifier::external_body]
pub(crate) fn rate_ring_new(capacity: usize) -> (rb: AllocRingBuffer<(u64, u64)>)
    requires
        capacity >= 1,
    ensures
        rate_ring_contents(rb) == Seq::<(u64, u64)>::empty(),
        rate_ring_capacity(rb) == capacity as nat,
{
    AllocRingBuffer::new(capacity)
}

/// Relies on `AllocRingBuffer::enqueue`: appends the value as the newest
/// element; once the buffer is full, exactly the oldest element is evicted
/// and returned.
#[verifier::external_body]
pub(crate) fn rate_ring_enqueue(rb: &mut AllocRingBuffer<(u64, u64)>, value: (u64, u64)) -> (evicted:
    Option<(u64, u64)>)
    ensures
        rate_ring_capacity(*final(rb)) == rate_ring_capacity(*old(rb)),
        rate_ring_contents(*old(rb)).len() < rate_ring_capacity(*old(rb)) ==> {
            &&& rate_ring_contents(*final(rb)) == rate_ring_contents(*old(rb)).push(value)
            &&& evicted is None
        },
        rate_ring_contents(*old(rb)).len() >= rate_ring_capacity(*old(rb)) ==> {
            &&& rate_ring_contents(*final(rb)) == rate_ring_contents(*old(rb)).subrange(
                1,
                rate_ring_contents(*old(rb)).len() as int,
            ).push(value)
            &&& evicted == Some(rate_ring_contents(*old(rb)).first())
        },
{
    rb.enqueue(value)
}

/// Relies on `RingBuffer::to_vec`: copies the contents out, oldest first.
#[verifier::external_body]
pub(crate) fn rate_ring_to_vec(rb: &AllocRingBuffer<(u64, u64)>) -> (v: Vec<(u64, u64)>)
    ensures
        v@ == rate_ring_contents(*rb),
{
    rb.to_vec()
}

} // verus!
