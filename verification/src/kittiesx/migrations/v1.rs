//! From the first layout, which stored the DNA alone, to the current one.

use crate::kittiesx::{
    newborn, Kitty, KittyId, KittyRecord, Pallet, State, DEFAULT_KITTY_FEATURE, DEFAULT_KITTY_NAME,
    STORAGE_VERSION,
};
use crate::store::{lemma_pairs_map_at, pairs_map};
use crate::weight::Weight;
use vstd::prelude::*;

verus! {

/// An asset in the first layout: its DNA.
#[derive(Clone, Copy, Debug, PartialEq, Eq, Default)]
pub struct KittyV0(pub [u8; 16]);

/// The DNA of a stored asset. Every layout starts with it, so a record of
/// any layout can be read as one of the first.
pub open spec fn dna_of(record: KittyRecord) -> [u8; 16] {
    match record {
        KittyRecord::V0(kitty) => kitty.0,
        KittyRecord::V1(kitty) => kitty.dna,
        KittyRecord::V2(kitty) => kitty.dna,
    }
}

/// The record in the current layout that a record read in the first layout
/// becomes: the same DNA, with the name and the feature of a new asset.
pub open spec fn rewritten(record: KittyRecord) -> KittyRecord {
    KittyRecord::V2(newborn(dna_of(record)))
}

/// What is stored after the step: where the first layout is stamped, every
/// asset is rewritten and the current layout is stamped; else nothing
/// changes.
pub open spec fn upgraded(state: State) -> State {
    if state.version == 0 {
        State {
            version: STORAGE_VERSION,
            kitties: Map::new(
                |id: KittyId| state.kitties.contains_key(id),
                |id: KittyId| rewritten(state.kitties[id]),
            ),
            ..state
        }
    } else {
        state
    }
}

/// Reads `record` in the first layout and writes it in the current one.
fn rewrite(record: KittyRecord) -> (out: KittyRecord)
    ensures
        out == rewritten(record),
{
    let dna = match record {
        KittyRecord::V0(kitty) => kitty.0,
        KittyRecord::V1(kitty) => kitty.dna,
        KittyRecord::V2(kitty) => kitty.dna,
    };
    KittyRecord::V2(Kitty { dna, name: DEFAULT_KITTY_NAME, feature: DEFAULT_KITTY_FEATURE })
}

/// Brings the assets from the first layout into the current one, where the
/// first layout is stamped, and stamps the current one. Costs nothing.
pub fn upgrade(pallet: &mut Pallet) -> (weight: Weight)
    ensures
        final(pallet)@ == upgraded(old(pallet)@),
        final(pallet).create_price == old(pallet).create_price,
        final(pallet).pallet_id == old(pallet).pallet_id,
        weight.ref_time == 0,
        weight.proof_size == 0,
{
    let on_chain_version = pallet.on_chain_storage_version();
    let current_version = Pallet::current_storage_version();
    if on_chain_version != 0 {
        return Weight::zero();
    }
    if current_version != 2 {
        return Weight::zero();
    }
    let ghost before = pallet.kitties@;
    let listing = pallet.kitties.drain();
    let mut i: usize = 0;
    while i < listing.len()
        invariant
            0 <= i <= listing@.len(),
            crate::store::pairs_distinct(listing@),
            pairs_map(listing@) == before,
            forall|id: KittyId| #[trigger]
                pallet.kitties@.contains_key(id) <==> exists|j: int|
                    0 <= j < i && (#[trigger] listing@[j]).0 == id,
            forall|id: KittyId|
                pallet.kitties@.contains_key(id) ==> #[trigger] pallet.kitties@[id] == rewritten(
                    before[id],
                ),
            pallet.create_price == old(pallet).create_price,
            pallet.pallet_id == old(pallet).pallet_id,
            pallet.storage_version@ == old(pallet).storage_version@,
            pallet.next_kitty_id@ == old(pallet).next_kitty_id@,
            pallet.kitty_owners@ == old(pallet).kitty_owners@,
            pallet.kitty_parents@ == old(pallet).kitty_parents@,
            pallet.kitty_on_sale@ == old(pallet).kitty_on_sale@,
        decreases listing@.len() - i,
    {
        let (kitty_id, kitty) = listing[i];
        let ghost stored = pallet.kitties@;
        proof {
            lemma_pairs_map_at(listing@, i as int);
        }
        pallet.kitties.insert(kitty_id, rewrite(kitty));
        proof {
            assert forall|id: KittyId| #[trigger]
                pallet.kitties@.contains_key(id) <==> exists|j: int|
                    0 <= j < i + 1 && (#[trigger] listing@[j]).0 == id by {
                if pallet.kitties@.contains_key(id) {
                    if id == kitty_id {
                        assert(listing@[i as int].0 == id);
                    } else {
                        assert(stored.contains_key(id));
                        let j = choose|j: int| 0 <= j < i && (#[trigger] listing@[j]).0 == id;
                        assert(0 <= j < i + 1 && listing@[j].0 == id);
                    }
                }
                if exists|j: int| 0 <= j < i + 1 && (#[trigger] listing@[j]).0 == id {
                    let j = choose|j: int| 0 <= j < i + 1 && (#[trigger] listing@[j]).0 == id;
                    if j < i {
                        assert(stored.contains_key(id));
                    }
                }
            }
        }
        i = i + 1;
    }
    pallet.storage_version.put(STORAGE_VERSION);
    proof {
        let want = upgraded(old(pallet)@).kitties;
        assert forall|id: KittyId| #[trigger] pallet.kitties@.contains_key(id) == want.contains_key(
            id,
        ) by {
            if before.contains_key(id) {
                let j = choose|j: int| 0 <= j < listing@.len() && (#[trigger] listing@[j]).0 == id;
                assert(0 <= j < i && listing@[j].0 == id);
            }
        }
        assert(pallet.kitties@ =~= want);
    }
    Weight::zero()
}

/// The step leaves a state alone that is not stamped with the first layout.
pub proof fn lemma_upgrade_skips_other_layouts(state: State)
    requires
        state.version != 0,
    ensures
        upgraded(state) == state,
{
}

/// After the step, a state that was stamped with the first layout holds
/// every asset it held, each in the current layout with its DNA.
pub proof fn lemma_upgrade_keeps_assets(state: State)
    requires
        state.version == 0,
    ensures
        upgraded(state).current(),
        upgraded(state).kitties.dom() == state.kitties.dom(),
        forall|id: KittyId|
            state.kitties.contains_key(id) ==> (#[trigger] upgraded(state).kitty(id))->Some_0.dna
                == dna_of(state.kitties[id]),
        state.consistent() ==> upgraded(state).consistent(),
{
    assert(upgraded(state).kitties.dom() =~= state.kitties.dom());
}

} // verus!
