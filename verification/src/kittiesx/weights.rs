//! What the commands of the asset module cost.

use crate::weight::{DbWeight, Weight};
use vstd::prelude::*;

verus! {

/// The costs of the module's commands.
pub trait WeightInfo {
    /// The cost of any command of the module.
    spec fn cost_of_do_something() -> Weight;

    /// The cost of any command of the module.
    fn do_something() -> (w: Weight)
        ensures
            w == Self::cost_of_do_something(),
    ;
}

/// The costs on a runtime `T`: nine microseconds and one write to its
/// database.
pub struct SubstrateWeight<T>(pub core::marker::PhantomData<T>);

impl<T: DbWeight> WeightInfo for SubstrateWeight<T> {
    open spec fn cost_of_do_something() -> Weight {
        (Weight { ref_time: 9_000_000, proof_size: 0 }).plus(T::spec_db_weight().cost_of_writes(1))
    }

    fn do_something() -> (w: Weight) {
        Weight::from_parts(9_000_000, 0).saturating_add(T::db_weight().writes(1_u64))
    }
}

/// The costs where nothing is known of the runtime: nine microseconds and
/// one write to a key-value store on disk.
impl WeightInfo for () {
    open spec fn cost_of_do_something() -> Weight {
        (Weight { ref_time: 9_000_000, proof_size: 0 }).plus(
            <() as DbWeight>::spec_db_weight().cost_of_writes(1),
        )
    }

    fn do_something() -> (w: Weight) {
        Weight::from_parts(9_000_000, 0).saturating_add(<() as DbWeight>::db_weight().writes(1_u64))
    }
}

} // verus!
