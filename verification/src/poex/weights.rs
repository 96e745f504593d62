//! What the commands of the claims module cost.

use crate::weight::{DbWeight, Weight};
use vstd::prelude::*;

verus! {

/// The costs of the module's commands.
pub trait WeightInfo {
    /// The cost of claiming.
    spec fn cost_of_create_claim() -> Weight;

    /// The cost of revoking.
    spec fn cost_of_revoke_claim() -> Weight;

    /// The cost of giving a claim away.
    spec fn cost_of_transfer_claim() -> Weight;

    /// The cost of claiming.
    fn create_claim() -> (w: Weight)
        ensures
            w == Self::cost_of_create_claim(),
    ;

    /// The cost of revoking.
    fn revoke_claim() -> (w: Weight)
        ensures
            w == Self::cost_of_revoke_claim(),
    ;

    /// The cost of giving a claim away.
    fn transfer_claim() -> (w: Weight)
        ensures
            w == Self::cost_of_transfer_claim(),
    ;
}

/// The cost of `base` picoseconds of computing, `reads` reads and `writes`
/// writes on a database with the costs `db`.
pub open spec fn cost(base: u64, db: crate::weight::RuntimeDbWeight, reads: u64, writes: u64) -> Weight {
    (Weight { ref_time: base, proof_size: 0 }).plus(db.cost_of_reads(reads)).plus(
        db.cost_of_writes(writes),
    )
}

/// The costs on a runtime `T`, by what its database costs: claiming takes
/// nine microseconds and a write, revoking a read and a write, giving away
/// three microseconds, a read and a write.
pub struct SubstrateWeight<T>(pub core::marker::PhantomData<T>);

impl<T: DbWeight> WeightInfo for SubstrateWeight<T> {
    open spec fn cost_of_create_claim() -> Weight {
        cost(9_000_000, T::spec_db_weight(), 0, 1)
    }

    open spec fn cost_of_revoke_claim() -> Weight {
        cost(0, T::spec_db_weight(), 1, 1)
    }

    open spec fn cost_of_transfer_claim() -> Weight {
        cost(3_000_000, T::spec_db_weight(), 1, 1)
    }

    fn create_claim() -> (w: Weight) {
        Weight::from_parts(9_000_000, 0).saturating_add(T::db_weight().writes(1_u64))
    }

    fn revoke_claim() -> (w: Weight) {
        Weight::from_parts(0, 0).saturating_add(T::db_weight().reads(1_u64)).saturating_add(
            T::db_weight().writes(1_u64),
        )
    }

    fn transfer_claim() -> (w: Weight) {
        Weight::from_parts(3_000_000, 0).saturating_add(
            T::db_weight().reads(1_u64),
        ).saturating_add(T::db_weight().writes(1_u64))
    }
}

/// The costs where nothing is known of the runtime, on a key-value store on
/// disk.
impl WeightInfo for () {
    open spec fn cost_of_create_claim() -> Weight {
        cost(9_000_000, <() as DbWeight>::spec_db_weight(), 0, 1)
    }

    open spec fn cost_of_revoke_claim() -> Weight {
        cost(0, <() as DbWeight>::spec_db_weight(), 1, 1)
    }

    open spec fn cost_of_transfer_claim() -> Weight {
        cost(3_000_000, <() as DbWeight>::spec_db_weight(), 1, 1)
    }

    fn create_claim() -> (w: Weight) {
        Weight::from_parts(9_000_000, 0).saturating_add(<() as DbWeight>::db_weight().writes(1_u64))
    }

    fn revoke_claim() -> (w: Weight) {
        Weight::from_parts(0, 0).saturating_add(
            <() as DbWeight>::db_weight().reads(1_u64),
        ).saturating_add(<() as DbWeight>::db_weight().writes(1_u64))
    }

    fn transfer_claim() -> (w: Weight) {
        Weight::from_parts(3_000_000, 0).saturating_add(
            <() as DbWeight>::db_weight().reads(1_u64),
        ).saturating_add(<() as DbWeight>::db_weight().writes(1_u64))
    }
}

} // verus!
