//! The cost of a command, in the two quantities that a block is limited in.

use vstd::prelude::*;

verus! {

/// A cost: time to compute, and size of the proof of what was read.
#[derive(Clone, Copy, Debug, PartialEq, Eq)]
pub struct Weight {
    pub ref_time: u64,
    pub proof_size: u64,
}

/// The sum of two `u64` values, or the largest `u64` where the sum is larger.
pub open spec fn saturating_sum(a: u64, b: u64) -> u64 {
    if a + b > u64::MAX {
        u64::MAX
    } else {
        (a + b) as u64
    }
}

/// The product of two `u64` values, or the largest `u64` where the product
/// is larger.
pub open spec fn saturating_product(a: u64, b: u64) -> u64 {
    if a * b > u64::MAX {
        u64::MAX
    } else {
        (a * b) as u64
    }
}

impl Weight {
    /// The sum of two weights, component by component, each kept at the
    /// largest `u64` where it would pass it.
    pub open spec fn plus(self, other: Weight) -> Weight {
        Weight {
            ref_time: saturating_sum(self.ref_time, other.ref_time),
            proof_size: saturating_sum(self.proof_size, other.proof_size),
        }
    }

    /// The weight with the given components.
    pub fn from_parts(ref_time: u64, proof_size: u64) -> (w: Weight)
        ensures
            w == (Weight { ref_time, proof_size }),
    {
        Weight { ref_time, proof_size }
    }

    /// No cost at all.
    pub fn zero() -> (w: Weight)
        ensures
            w == (Weight { ref_time: 0, proof_size: 0 }),
    {
        Weight { ref_time: 0, proof_size: 0 }
    }

    /// The time component.
    pub fn ref_time(&self) -> (t: u64)
        ensures
            t == self.ref_time,
    {
        self.ref_time
    }

    /// The proof-size component.
    pub fn proof_size(&self) -> (s: u64)
        ensures
            s == self.proof_size,
    {
        self.proof_size
    }

    /// The sum of two weights, component by component, each kept at the
    /// largest `u64` where it would pass it.
    pub fn saturating_add(self, other: Weight) -> (w: Weight)
        ensures
            w == self.plus(other),
    {
        Weight {
            ref_time: self.ref_time.saturating_add(other.ref_time),
            proof_size: self.proof_size.saturating_add(other.proof_size),
        }
    }
}

/// What one read and one write of the database cost in time.
#[derive(Clone, Copy, Debug, PartialEq, Eq)]
pub struct RuntimeDbWeight {
    pub read: u64,
    pub write: u64,
}

impl RuntimeDbWeight {
    /// The cost of `n` reads.
    pub open spec fn cost_of_reads(self, n: u64) -> Weight {
        Weight { ref_time: saturating_product(self.read, n), proof_size: 0 }
    }

    /// The cost of `n` writes.
    pub open spec fn cost_of_writes(self, n: u64) -> Weight {
        Weight { ref_time: saturating_product(self.write, n), proof_size: 0 }
    }

    /// The cost of `n` reads.
    pub fn reads(&self, n: u64) -> (w: Weight)
        ensures
            w == self.cost_of_reads(n),
    {
        Weight::from_parts(saturating_mul(self.read, n), 0)
    }

    /// The cost of `n` writes.
    pub fn writes(&self, n: u64) -> (w: Weight)
        ensures
            w == self.cost_of_writes(n),
    {
        Weight::from_parts(saturating_mul(self.write, n), 0)
    }
}

/// The product of `a` and `b`, kept at the largest `u64` where it would
/// pass it.
fn saturating_mul(a: u64, b: u64) -> (p: u64)
    ensures
        p == saturating_product(a, b),
{
    match a.checked_mul(b) {
        Some(p) => p,
        None => u64::MAX,
    }
}

/// What a read of a key-value store on disk costs: 25 microseconds, in
/// picoseconds.
pub const ROCKS_DB_READ: u64 = 25_000_000;

/// What a write to a key-value store on disk costs: 100 microseconds, in
/// picoseconds.
pub const ROCKS_DB_WRITE: u64 = 100_000_000;

/// A runtime's answer to what its database costs.
pub trait DbWeight {
    /// The costs.
    spec fn spec_db_weight() -> RuntimeDbWeight;

    /// The costs.
    fn db_weight() -> (w: RuntimeDbWeight)
        ensures
            w == Self::spec_db_weight(),
    ;
}

impl DbWeight for () {
    open spec fn spec_db_weight() -> RuntimeDbWeight {
        RuntimeDbWeight { read: ROCKS_DB_READ, write: ROCKS_DB_WRITE }
    }

    fn db_weight() -> (w: RuntimeDbWeight) {
        RuntimeDbWeight { read: ROCKS_DB_READ, write: ROCKS_DB_WRITE }
    }
}

} // verus!
