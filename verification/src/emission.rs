//! Emission accumulators: the memory that a worker writes to, over and over,
//! for the sake of the bus traffic that the writes cause.
//!
//! What an accumulator holds matters to nobody; it counts the emissions made on
//! it, and starts again from zero when the count is full.

use std::sync::atomic::AtomicUsize;
use std::sync::atomic::Ordering;
use vstd::prelude::*;
use volatile::Volatile;

verus! {

/// Volatile load of `*cell`.
///
/// Trusted: `volatile::Volatile::new` wraps the reference and
/// `volatile::Volatile::read` returns a copy of the value behind it, read with
/// `core::ptr::read_volatile`.
#[verifier::external_body]
fn volatile_read(cell: &u64) -> (value: u64)
    ensures
        value == *cell,
{
    Volatile::new(cell).read()
}

/// Volatile store of `value` to `*cell`.
///
/// Trusted: `volatile::Volatile::new` wraps the reference and
/// `volatile::Volatile::write` sets the value behind it to `value`, written
/// with `core::ptr::write_volatile`.
#[verifier::external_body]
fn volatile_write(cell: &mut u64, value: u64)
    ensures
        *final(cell) == value,
{
    Volatile::new(cell).write(value)
}

/// The count after one more emission.
pub open spec fn bumped(count: u64) -> u64 {
    if count == u64::MAX {
        0
    } else {
        (count + 1) as u64
    }
}

/// A memory cell that is read and written with volatile accesses. Its view is
/// the value it holds.
#[derive(Debug)]
pub struct VolatileAccumulator {
    value: u64,
}

impl View for VolatileAccumulator {
    type V = u64;

    closed spec fn view(&self) -> u64 {
        self.value
    }
}

impl VolatileAccumulator {
    /// A cell that holds zero.
    pub fn new() -> (cell: VolatileAccumulator)
        ensures
            cell@ == 0,
    {
        VolatileAccumulator { value: 0 }
    }

    /// A cell that holds `value`.
    pub fn holding(value: u64) -> (cell: VolatileAccumulator)
        ensures
            cell@ == value,
    {
        VolatileAccumulator { value }
    }

    /// One emission: a volatile read of the cell, then a volatile write of the
    /// value read plus one.
    pub fn bump(&mut self)
        ensures
            final(self)@ == bumped(old(self)@),
    {
        let seen: u64 = volatile_read(&self.value);
        let next: u64 = if seen == u64::MAX {
            0
        } else {
            seen + 1
        };
        volatile_write(&mut self.value, next);
    }

    /// A volatile read of the value held.
    pub fn value(&self) -> (value: u64)
        ensures
            value == self@,
    {
        volatile_read(&self.value)
    }
}

/// A counter that is incremented with sequentially consistent atomic
/// operations. It may be shared, so nothing is claimed of what it holds.
#[derive(Debug)]
pub struct AtomicAccumulator {
    counter: AtomicUsize,
}

impl AtomicAccumulator {
    /// A counter that holds zero.
    pub fn new() -> AtomicAccumulator {
        AtomicAccumulator { counter: AtomicUsize::new(0) }
    }

    /// One emission: a sequentially consistent increment, which wraps around
    /// when the counter is full.
    pub fn bump(&self) {
        self.counter.fetch_add(1, Ordering::SeqCst);
    }

    /// A sequentially consistent load of the counter.
    pub fn value(&self) -> usize {
        self.counter.load(Ordering::SeqCst)
    }
}

} // verus!
