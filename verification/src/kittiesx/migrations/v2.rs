//! From the second layout, which stored the DNA and a name of four bytes, to
//! the current one.

use crate::kittiesx::{Kitty, KittyId, KittyRecord, Pallet, State, DEFAULT_KITTY_FEATURE, STORAGE_VERSION};
use crate::store::{lemma_pairs_map_at, pairs_map};
use crate::weight::Weight;
use vstd::prelude::*;

verus! {

/// An asset in the second layout.
#[derive(Clone, Copy, Debug, PartialEq, Eq, Default)]
pub struct KittyV1 {
    pub dna: [u8; 16],
    pub name: [u8; 4],
}

/// What a stored asset is when read in the second layout. A record of the
/// first layout is too short to be read so; one of the current layout is
/// read by its DNA and the first four bytes of its name.
pub open spec fn read_as_v1(record: KittyRecord) -> Option<KittyV1> {
    match record {
        KittyRecord::V0(_) => None,
        KittyRecord::V1(kitty) => Some(kitty),
        KittyRecord::V2(kitty) => Some(
            KittyV1 {
                dna: kitty.dna,
                name: [kitty.name[0], kitty.name[1], kitty.name[2], kitty.name[3]],
            },
        ),
    }
}

/// A name of four bytes, filled up with spaces to eight.
pub open spec fn padded(name: [u8; 4]) -> [u8; 8] {
    [name[0], name[1], name[2], name[3], 32u8, 32u8, 32u8, 32u8]
}

/// The record in the current layout that an asset of the second layout
/// becomes: the same DNA, the name filled up with spaces, and the feature
/// of a new asset.
pub open spec fn rewritten(kitty: KittyV1) -> KittyRecord {
    KittyRecord::V2(Kitty { dna: kitty.dna, name: padded(kitty.name), feature: DEFAULT_KITTY_FEATURE })
}

/// What is stored after the step: where the second layout is stamped, every
/// asset that can be read in it is rewritten, the others are gone, and the
/// current layout is stamped; else nothing changes.
pub open spec fn upgraded(state: State) -> State {
    if state.version == 1 {
        State {
            version: STORAGE_VERSION,
            kitties: Map::new(
                |id: KittyId|
                    state.kitties.contains_key(id) && read_as_v1(state.kitties[id]) is Some,
                |id: KittyId| rewritten(read_as_v1(state.kitties[id])->Some_0),
            ),
            ..state
        }
    } else {
        state
    }
}

/// Reads `record` in the second layout, where it can be read so.
fn read(record: KittyRecord) -> (kitty: Option<KittyV1>)
    ensures
        kitty == read_as_v1(record),
{
    match record {
        KittyRecord::V0(_) => None,
        KittyRecord::V1(kitty) => Some(kitty),
        KittyRecord::V2(kitty) => {
            let name = [kitty.name[0], kitty.name[1], kitty.name[2], kitty.name[3]];
            Some(KittyV1 { dna: kitty.dna, name })
        },
    }
}

/// Writes an asset of the second layout in the current one.
fn rewrite(kitty: KittyV1) -> (out: KittyRecord)
    ensures
        out == rewritten(kitty),
{
    let mut name = [32u8;8];
    let mut i: usize = 0;
    while i < 4
        invariant
            0 <= i <= 4,
            forall|k: int| 0 <= k < i ==> name[k] == kitty.name[k],
            forall|k: int| i <= k < 8 ==> name[k] == 32u8,
        decreases 4 - i,
    {
        name[i] = kitty.name[i];
        i = i + 1;
    }
    assert(name =~= padded(kitty.name));
    KittyRecord::V2(Kitty { dna: kitty.dna, name, feature: DEFAULT_KITTY_FEATURE })
}

/// Brings the assets from the second layout into the current one, where the
/// second layout is stamped, and stamps the current one. Costs nothing.
pub fn upgrade(pallet: &mut Pallet) -> (weight: Weight)
    ensures
        final(pallet)@ == upgraded(old(pallet)@),
        final(pallet).create_price == old(pallet).create_price,
        final(pallet).pallet_id == old(pallet).pallet_id,
        weight.ref_time == 0,
        weight.proof_size == 0,
{
    let on_chain_version = pallet.on_chain_storage_version();
    let current_version = Pallet::current_storage_version();
    if on_chain_version != 1 {
        return Weight::zero();
    }
    if current_version != 2 {
        return Weight::zero();
    }
    let ghost before = pallet.kitties@;
    let listing = pallet.kitties.drain();
    let mut i: usize = 0;
    while i < listing.len()
        invariant
            0 <= i <= listing@.len(),
            crate::store::pairs_distinct(listing@),
            pairs_map(listing@) == before,
            forall|id: KittyId| #[trigger]
                pallet.kitties@.contains_key(id) <==> exists|j: int|
                    0 <= j < i && (#[trigger] listing@[j]).0 == id && read_as_v1(listing@[j].1)
                        is Some,
            forall|id: KittyId|
                pallet.kitties@.contains_key(id) ==> #[trigger] pallet.kitties@[id] == rewritten(
                    read_as_v1(before[id])->Some_0,
                ),
            pallet.create_price == old(pallet).create_price,
            pallet.pallet_id == old(pallet).pallet_id,
            pallet.storage_version@ == old(pallet).storage_version@,
            pallet.next_kitty_id@ == old(pallet).next_kitty_id@,
            pallet.kitty_owners@ == old(pallet).kitty_owners@,
            pallet.kitty_parents@ == old(pallet).kitty_parents@,
            pallet.kitty_on_sale@ == old(pallet).kitty_on_sale@,
        decreases listing@.len() - i,
    {
        let (kitty_id, record) = listing[i];
        let ghost stored = pallet.kitties@;
        proof {
            lemma_pairs_map_at(listing@, i as int);
        }
        match read(record) {
            Some(kitty) => {
                pallet.kitties.insert(kitty_id, rewrite(kitty));
            },
            None => {},
        }
        proof {
            assert forall|id: KittyId| #[trigger]
                pallet.kitties@.contains_key(id) <==> exists|j: int|
                    0 <= j < i + 1 && (#[trigger] listing@[j]).0 == id && read_as_v1(listing@[j].1)
                        is Some by {
                if pallet.kitties@.contains_key(id) {
                    if id == kitty_id && read_as_v1(record) is Some {
                        assert(listing@[i as int].0 == id);
                    } else {
                        assert(stored.contains_key(id));
                        let j = choose|j: int|
                            0 <= j < i && (#[trigger] listing@[j]).0 == id && read_as_v1(
                                listing@[j].1,
                            ) is Some;
                        assert(0 <= j < i + 1 && listing@[j].0 == id);
                    }
                }
                if exists|j: int|
                    0 <= j < i + 1 && (#[trigger] listing@[j]).0 == id && read_as_v1(listing@[j].1)
                        is Some {
                    let j = choose|j: int|
                        0 <= j < i + 1 && (#[trigger] listing@[j]).0 == id && read_as_v1(
                            listing@[j].1,
                        ) is Some;
                    if j < i {
                        assert(stored.contains_key(id));
                    }
                }
            }
        }
        i = i + 1;
    }
    pallet.storage_version.put(STORAGE_VERSION);
    proof {
        let want = upgraded(old(pallet)@).kitties;
        assert forall|id: KittyId| #[trigger] pallet.kitties@.contains_key(id) == want.contains_key(
            id,
        ) by {
            if pallet.kitties@.contains_key(id) {
                let j = choose|j: int|
                    0 <= j < i && (#[trigger] listing@[j]).0 == id && read_as_v1(listing@[j].1)
                        is Some;
                lemma_pairs_map_at(listing@, j);
            }
            if want.contains_key(id) {
                let j = choose|j: int| 0 <= j < listing@.len() && (#[trigger] listing@[j]).0 == id;
                lemma_pairs_map_at(listing@, j);
                assert(0 <= j < i && listing@[j].0 == id && read_as_v1(listing@[j].1) is Some);
            }
        }
        assert(pallet.kitties@ =~= want);
    }
    Weight::zero()
}

/// The step leaves a state alone that is not stamped with the second
/// layout.
pub proof fn lemma_upgrade_skips_other_layouts(state: State)
    requires
        state.version != 1,
    ensures
        upgraded(state) == state,
{
}

/// After the step, a state that was stamped with the second layout holds
/// its assets in the current layout; where each could be read in the second
/// layout, none is lost and a consistent state stays consistent.
pub proof fn lemma_upgrade_keeps_assets(state: State)
    requires
        state.version == 1,
    ensures
        upgraded(state).current(),
        (forall|id: KittyId|
            state.kitties.contains_key(id) ==> read_as_v1(#[trigger] state.kitties[id]) is Some)
            ==> upgraded(state).kitties.dom() == state.kitties.dom() && (state.consistent()
            ==> upgraded(state).consistent()),
{
    if forall|id: KittyId|
        state.kitties.contains_key(id) ==> read_as_v1(#[trigger] state.kitties[id]) is Some {
        assert(upgraded(state).kitties.dom() =~= state.kitties.dom());
    }
}

} // verus!
