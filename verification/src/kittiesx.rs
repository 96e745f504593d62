//! Collectible assets: each has a 16-byte DNA, a name and a feature, an
//! owner, and, where it was bred, two parents. An owner can give an asset
//! away or offer it at a price, and anybody can buy what is offered.

use crate::balances::{held, moved, reservable, transfer_outcome, Balances, ExistenceRequirement};
use crate::hashing::{blake2_128, blake2_128_digest};
use crate::scale::{encode_seed_material, seed_material};
use crate::store::{item_prefix, StorageValue, TypedMap};
use crate::system::{ensure_signed, AccountId, Balance, DispatchError, RawOrigin, RuntimeEvent, System};
use vstd::bytes::*;
use vstd::prelude::*;
use vstd::string::*;

pub mod migrations;
pub mod offchain;
pub mod weights;

verus! {

/// The number under which an asset is known.
pub type KittyId = u32;

/// An asset in the current layout.
#[derive(Clone, Copy, Debug, PartialEq, Eq, Default)]
pub struct Kitty {
    pub dna: [u8; 16],
    pub name: [u8; 8],
    pub feature: [u8; 5],
}

/// The feature of a new asset: `happy`.
pub const DEFAULT_KITTY_FEATURE: [u8; 5] = [104u8, 97, 112, 112, 121];

/// The name of a new asset: `mimimimi`.
pub const DEFAULT_KITTY_NAME: [u8; 8] = [109u8, 105, 109, 105, 109, 105, 109, 105];

/// The layout that this code reads and writes.
pub const STORAGE_VERSION: u16 = 2;

/// What is stored of an asset, in the layout it was written in.
#[derive(Clone, Copy, Debug, PartialEq, Eq)]
pub enum KittyRecord {
    /// The first layout: the DNA alone.
    V0(migrations::v1::KittyV0),
    /// The second layout: the DNA and a name of four bytes.
    V1(migrations::v2::KittyV1),
    /// The current layout.
    V2(Kitty),
}

/// What the module reports.
#[derive(Clone, Copy, Debug, PartialEq, Eq)]
pub enum Event {
    KittyCreated { owner: AccountId, kitty_id: KittyId, kitty: Kitty },
    KittyBred { owner: AccountId, kitty_id: KittyId, kitty: Kitty },
    KittyTransfer { owner: AccountId, recipient: AccountId, kitty_id: KittyId },
    KittyOnSale { owner: AccountId, kitty_id: KittyId, price: Balance },
    KittyBought { owner: AccountId, kitty_id: KittyId },
}

/// Why the module refuses a command.
#[derive(Clone, Copy, Debug, PartialEq, Eq)]
pub enum Error {
    /// No asset number is left.
    KittyOverflow,
    /// There is no such asset.
    InvalidKittyId,
    /// An asset cannot be bred with itself.
    KittySingleParent,
    /// The caller does not own the asset.
    ErrorKittyOwner,
    /// The caller cannot give an asset to itself.
    ErrprRecipient,
    /// The asset is on offer.
    KittyOnSale,
    /// The caller cannot pay.
    NotEnoughCurrency,
}

/// A new asset with the given DNA.
pub open spec fn newborn(dna: [u8; 16]) -> Kitty {
    Kitty { dna, name: DEFAULT_KITTY_NAME, feature: DEFAULT_KITTY_FEATURE }
}

/// The 16 bytes drawn for `who` from the block's seed and the index of the
/// command being run.
pub open spec fn random_bytes(seed: [u8; 32], who: AccountId, index: Option<u32>) -> [u8; 16] {
    blake2_128_digest(seed_material(seed@, who, index))
}

/// `child` takes each bit from `first` where the selector has a one, and
/// from `second` where it has a zero.
pub open spec fn is_mix(child: [u8; 16], first: [u8; 16], second: [u8; 16], selector: [u8; 16]) -> bool {
    forall|i: int|
        0 <= i < 16 ==> #[trigger] child[i] == (first[i] & selector[i]) | (second[i] & !selector[i])
}

/// The DNA that takes each bit from `first` where the selector has a one,
/// and from `second` where it has a zero.
pub open spec fn mixed_dna(first: [u8; 16], second: [u8; 16], selector: [u8; 16]) -> [u8; 16] {
    choose|child: [u8; 16]| is_mix(child, first, second, selector)
}

/// The account that a module identifier stands for: the tag `modl` and the
/// identifier, cut to the eight bytes of an account and read little-endian.
pub open spec fn account_of(pallet_id: [u8; 8]) -> AccountId {
    spec_u64_from_le_bytes(
        seq![109u8, 111u8, 100u8, 108u8, pallet_id[0], pallet_id[1], pallet_id[2], pallet_id[3]],
    )
}

/// What the module stores, as plain values.
pub ghost struct State {
    /// The layout that the stored assets are in.
    pub version: u16,
    /// The number that the next asset gets.
    pub next_id: KittyId,
    /// The assets.
    pub kitties: Map<KittyId, KittyRecord>,
    /// Who owns which asset.
    pub owners: Map<KittyId, AccountId>,
    /// The parents of the assets that were bred.
    pub parents: Map<KittyId, (KittyId, KittyId)>,
    /// The price of each asset on offer.
    pub on_sale: Map<KittyId, Balance>,
}

impl State {
    /// The asset `id` in the current layout, if it is stored in it.
    pub open spec fn kitty(self, id: KittyId) -> Option<Kitty> {
        if self.kitties.contains_key(id) {
            match self.kitties[id] {
                KittyRecord::V2(kitty) => Some(kitty),
                _ => None,
            }
        } else {
            None
        }
    }

    /// The owner of the asset `id`, if it has one.
    pub open spec fn owner(self, id: KittyId) -> Option<AccountId> {
        if self.owners.contains_key(id) {
            Some(self.owners[id])
        } else {
            None
        }
    }

    /// The price of the asset `id`, if it is on offer.
    pub open spec fn price(self, id: KittyId) -> Option<Balance> {
        if self.on_sale.contains_key(id) {
            Some(self.on_sale[id])
        } else {
            None
        }
    }

    /// Every stored asset is in the current layout.
    pub open spec fn current(self) -> bool {
        &&& self.version == STORAGE_VERSION
        &&& forall|id: KittyId| self.kitties.contains_key(id) ==> #[trigger] self.kitties[id] is V2
    }

    /// An asset has an owner exactly where it exists, only assets have
    /// parents or a price, and every asset has a number below the next one.
    pub open spec fn consistent(self) -> bool {
        &&& forall|id: KittyId| self.owners.contains_key(id) <==> self.kitties.contains_key(id)
        &&& forall|id: KittyId| self.parents.contains_key(id) ==> self.kitties.contains_key(id)
        &&& forall|id: KittyId| self.on_sale.contains_key(id) ==> self.kitties.contains_key(id)
        &&& forall|id: KittyId| self.kitties.contains_key(id) ==> id < self.next_id
    }
}

/// How the module is set up.
#[derive(Clone, Copy, Debug, PartialEq, Eq)]
pub struct Config {
    /// What the creation of an asset costs.
    pub create_price: Balance,
    /// The identifier from which the module's own account is derived.
    pub pallet_id: [u8; 8],
}

/// The module: its configuration and what it stores.
pub struct Pallet {
    /// What the creation of an asset costs.
    pub create_price: Balance,
    /// The identifier from which the module's own account is derived.
    pub pallet_id: [u8; 8],
    /// The layout that the stored assets are in; 0 where nothing is stamped.
    pub storage_version: StorageValue<u16>,
    /// The number that the next asset gets; 0 where nothing is stored.
    pub next_kitty_id: StorageValue<KittyId>,
    /// The assets.
    pub kitties: TypedMap<KittyId, KittyRecord>,
    /// Who owns which asset.
    pub kitty_owners: TypedMap<KittyId, AccountId>,
    /// The parents of the assets that were bred.
    pub kitty_parents: TypedMap<KittyId, (KittyId, KittyId)>,
    /// The price of each asset on offer.
    pub kitty_on_sale: TypedMap<KittyId, Balance>,
}

impl View for Pallet {
    type V = State;

    open spec fn view(&self) -> State {
        State {
            version: match self.storage_version@ {
                Some(v) => v,
                None => 0,
            },
            next_id: match self.next_kitty_id@ {
                Some(n) => n,
                None => 0,
            },
            kitties: self.kitties@,
            owners: self.kitty_owners@,
            parents: self.kitty_parents@,
            on_sale: self.kitty_on_sale@,
        }
    }
}

impl Pallet {
    /// Whether a scope is open on everything that the module stores.
    pub open spec fn in_transaction(&self) -> bool {
        &&& self.storage_version.in_transaction()
        &&& self.next_kitty_id.in_transaction()
        &&& self.kitties.in_transaction()
        &&& self.kitty_owners.in_transaction()
        &&& self.kitty_parents.in_transaction()
        &&& self.kitty_on_sale.in_transaction()
    }

    /// Whether no scope is open on anything that the module stores.
    pub open spec fn settled(&self) -> bool {
        &&& !self.storage_version.in_transaction()
        &&& !self.next_kitty_id.in_transaction()
        &&& !self.kitties.in_transaction()
        &&& !self.kitty_owners.in_transaction()
        &&& !self.kitty_parents.in_transaction()
        &&& !self.kitty_on_sale.in_transaction()
    }

    /// What the module goes back to when the open scope is undone.
    pub open spec fn savepoint(&self) -> State {
        State {
            version: match self.storage_version.saved() {
                Some(v) => v,
                None => 0,
            },
            next_id: match self.next_kitty_id.saved() {
                Some(n) => n,
                None => 0,
            },
            kitties: self.kitties.saved(),
            owners: self.kitty_owners.saved(),
            parents: self.kitty_parents.saved(),
            on_sale: self.kitty_on_sale.saved(),
        }
    }

    /// Opens a scope on everything that the module stores.
    pub fn begin_transaction(&mut self)
        ensures
            final(self)@ == old(self)@,
            final(self).savepoint() == old(self)@,
            final(self).in_transaction(),
            final(self).create_price == old(self).create_price,
            final(self).pallet_id == old(self).pallet_id,
    {
        self.storage_version.begin_transaction();
        self.next_kitty_id.begin_transaction();
        self.kitties.begin_transaction();
        self.kitty_owners.begin_transaction();
        self.kitty_parents.begin_transaction();
        self.kitty_on_sale.begin_transaction();
    }

    /// Keeps what was written in the open scope and closes it.
    pub fn commit_transaction(&mut self)
        ensures
            final(self)@ == old(self)@,
            final(self).settled(),
            final(self).create_price == old(self).create_price,
            final(self).pallet_id == old(self).pallet_id,
    {
        self.storage_version.commit_transaction();
        self.next_kitty_id.commit_transaction();
        self.kitties.commit_transaction();
        self.kitty_owners.commit_transaction();
        self.kitty_parents.commit_transaction();
        self.kitty_on_sale.commit_transaction();
    }

    /// Undoes what was written in the open scope and closes it.
    pub fn rollback_transaction(&mut self)
        ensures
            final(self)@ == old(self).savepoint(),
            final(self).settled(),
            final(self).create_price == old(self).create_price,
            final(self).pallet_id == old(self).pallet_id,
    {
        self.storage_version.rollback_transaction();
        self.next_kitty_id.rollback_transaction();
        self.kitties.rollback_transaction();
        self.kitty_owners.rollback_transaction();
        self.kitty_parents.rollback_transaction();
        self.kitty_on_sale.rollback_transaction();
    }
}

/// How `create` ends.
pub open spec fn create_outcome(
    state: State,
    price: Balance,
    treasury: AccountId,
    bank: Map<AccountId, Balance>,
    minimum: Balance,
    origin: RawOrigin,
) -> Result<(), DispatchError<Error>> {
    match origin {
        RawOrigin::Signed(who) => {
            if state.next_id == u32::MAX {
                Err(DispatchError::Module(Error::KittyOverflow))
            } else if !reservable(held(bank, who), price, minimum) {
                Err(DispatchError::Module(Error::NotEnoughCurrency))
            } else {
                match transfer_outcome(
                    held(bank, who),
                    held(bank, treasury),
                    who == treasury,
                    price,
                    ExistenceRequirement::KeepAlive,
                    minimum,
                ) {
                    Ok(_) => Ok(()),
                    Err(e) => Err(DispatchError::Token(e)),
                }
            }
        },
        _ => Err(DispatchError::BadOrigin),
    }
}

/// How `breed` ends.
pub open spec fn breed_outcome(
    state: State,
    origin: RawOrigin,
    kitty_id_1: KittyId,
    kitty_id_2: KittyId,
) -> Result<(), DispatchError<Error>> {
    match origin {
        RawOrigin::Signed(who) => {
            if kitty_id_1 == kitty_id_2 {
                Err(DispatchError::Module(Error::KittySingleParent))
            } else if state.kitty(kitty_id_1) is None || state.kitty(kitty_id_2) is None {
                Err(DispatchError::Module(Error::InvalidKittyId))
            } else if state.next_id == u32::MAX {
                Err(DispatchError::Module(Error::KittyOverflow))
            } else {
                Ok(())
            }
        },
        _ => Err(DispatchError::BadOrigin),
    }
}

/// How `transfer` ends.
pub open spec fn transfer_result(
    state: State,
    origin: RawOrigin,
    recipient: AccountId,
    kitty_id: KittyId,
) -> Result<(), DispatchError<Error>> {
    match origin {
        RawOrigin::Signed(who) => {
            if who == recipient {
                Err(DispatchError::Module(Error::ErrprRecipient))
            } else if state.kitty(kitty_id) is None {
                Err(DispatchError::Module(Error::InvalidKittyId))
            } else if state.price(kitty_id) is Some {
                Err(DispatchError::Module(Error::KittyOnSale))
            } else if state.owner(kitty_id) is None {
                Err(DispatchError::Module(Error::InvalidKittyId))
            } else if state.owner(kitty_id) != Some(who) {
                Err(DispatchError::Module(Error::ErrorKittyOwner))
            } else {
                Ok(())
            }
        },
        _ => Err(DispatchError::BadOrigin),
    }
}

/// How `sale` ends.
pub open spec fn sale_outcome(state: State, origin: RawOrigin, kitty_id: KittyId) -> Result<
    (),
    DispatchError<Error>,
> {
    match origin {
        RawOrigin::Signed(who) => {
            if state.kitty(kitty_id) is None || state.owner(kitty_id) is None {
                Err(DispatchError::Module(Error::InvalidKittyId))
            } else if state.owner(kitty_id) != Some(who) {
                Err(DispatchError::Module(Error::ErrorKittyOwner))
            } else if state.price(kitty_id) is Some {
                Err(DispatchError::Module(Error::KittyOnSale))
            } else {
                Ok(())
            }
        },
        _ => Err(DispatchError::BadOrigin),
    }
}

/// How `buy` ends.
pub open spec fn buy_outcome(
    state: State,
    bank: Map<AccountId, Balance>,
    minimum: Balance,
    origin: RawOrigin,
    kitty_id: KittyId,
) -> Result<(), DispatchError<Error>> {
    match origin {
        RawOrigin::Signed(who) => {
            if state.price(kitty_id) is None || state.owner(kitty_id) is None {
                Err(DispatchError::Module(Error::InvalidKittyId))
            } else {
                let price = state.price(kitty_id)->Some_0;
                let seller = state.owner(kitty_id)->Some_0;
                if !reservable(held(bank, who), price, minimum) {
                    Err(DispatchError::Module(Error::NotEnoughCurrency))
                } else {
                    match transfer_outcome(
                        held(bank, who),
                        held(bank, seller),
                        who == seller,
                        price,
                        ExistenceRequirement::KeepAlive,
                        minimum,
                    ) {
                        Ok(_) => Ok(()),
                        Err(e) => Err(DispatchError::Token(e)),
                    }
                }
            }
        },
        _ => Err(DispatchError::BadOrigin),
    }
}

impl Pallet {
    /// The module's own account, which the price of creation is paid to.
    pub open spec fn treasury(&self) -> AccountId {
        account_of(self.pallet_id)
    }

    /// A module that stores nothing yet, stamped with the current layout.
    /// `name` is the name under which the runtime knows the module.
    pub fn new(name: &[u8], config: Config) -> (pallet: Self)
        ensures
            pallet.create_price == config.create_price,
            pallet.pallet_id == config.pallet_id,
            pallet@.version == STORAGE_VERSION,
            pallet@.next_id == 0,
            pallet@.kitties == Map::<KittyId, KittyRecord>::empty(),
            pallet@.owners == Map::<KittyId, AccountId>::empty(),
            pallet@.parents == Map::<KittyId, (KittyId, KittyId)>::empty(),
            pallet@.on_sale == Map::<KittyId, Balance>::empty(),
            pallet@.current(),
            pallet@.consistent(),
            pallet.settled(),
            pallet.storage_version.prefix() == item_prefix(
                name@,
                ":__STORAGE_VERSION__:".spec_bytes(),
            ),
            pallet.next_kitty_id.prefix() == item_prefix(name@, "NextKittyId".spec_bytes()),
            pallet.kitties.prefix() == item_prefix(name@, "Kitties".spec_bytes()),
            pallet.kitty_owners.prefix() == item_prefix(name@, "KittyOwners".spec_bytes()),
            pallet.kitty_parents.prefix() == item_prefix(name@, "KittyParents".spec_bytes()),
            pallet.kitty_on_sale.prefix() == item_prefix(name@, "KittyOnSale".spec_bytes()),
    {
        let mut storage_version = StorageValue::new(name, ":__STORAGE_VERSION__:".as_bytes());
        storage_version.put(STORAGE_VERSION);
        Pallet {
            create_price: config.create_price,
            pallet_id: config.pallet_id,
            storage_version,
            next_kitty_id: StorageValue::new(name, "NextKittyId".as_bytes()),
            kitties: TypedMap::new(name, "Kitties".as_bytes()),
            kitty_owners: TypedMap::new(name, "KittyOwners".as_bytes()),
            kitty_parents: TypedMap::new(name, "KittyParents".as_bytes()),
            kitty_on_sale: TypedMap::new(name, "KittyOnSale".as_bytes()),
        }
    }

    /// The layout that the stored assets are in.
    pub fn on_chain_storage_version(&self) -> (version: u16)
        ensures
            version == self@.version,
    {
        match self.storage_version.get() {
            Some(v) => *v,
            None => 0,
        }
    }

    /// The layout that this code reads and writes.
    pub fn current_storage_version() -> (version: u16)
        ensures
            version == STORAGE_VERSION,
    {
        STORAGE_VERSION
    }

    /// The number that the next asset gets.
    pub fn next_kitty_id(&self) -> (id: KittyId)
        ensures
            id == self@.next_id,
    {
        match self.next_kitty_id.get() {
            Some(n) => *n,
            None => 0,
        }
    }

    /// The asset `kitty_id`, if it is stored in the current layout.
    pub fn kitties(&self, kitty_id: KittyId) -> (kitty: Option<Kitty>)
        ensures
            kitty == self@.kitty(kitty_id),
    {
        match self.kitties.get(kitty_id) {
            Some(KittyRecord::V2(kitty)) => Some(*kitty),
            _ => None,
        }
    }

    /// The owner of the asset `kitty_id`, if it has one.
    pub fn kitty_owners(&self, kitty_id: KittyId) -> (owner: Option<AccountId>)
        ensures
            owner == self@.owner(kitty_id),
    {
        match self.kitty_owners.get(kitty_id) {
            Some(owner) => Some(*owner),
            None => None,
        }
    }

    /// The parents of the asset `kitty_id`, if it was bred.
    pub fn kitty_parents(&self, kitty_id: KittyId) -> (parents: Option<(KittyId, KittyId)>)
        ensures
            parents is Some == self@.parents.contains_key(kitty_id),
            parents is Some ==> parents->Some_0 == self@.parents[kitty_id],
    {
        match self.kitty_parents.get(kitty_id) {
            Some(parents) => Some(*parents),
            None => None,
        }
    }

    /// The price of the asset `kitty_id`, if it is on offer.
    pub fn kitty_on_sale(&self, kitty_id: KittyId) -> (price: Option<Balance>)
        ensures
            price == self@.price(kitty_id),
    {
        match self.kitty_on_sale.get(kitty_id) {
            Some(price) => Some(*price),
            None => None,
        }
    }

    /// Hands out the next asset number and moves the counter on, or fails
    /// and leaves the counter where no number is left.
    pub fn get_next_id(&mut self) -> (r: Result<KittyId, Error>)
        ensures
            match r {
                Ok(id) => id == old(self)@.next_id && id < u32::MAX && final(self)@ == (State {
                    next_id: (id + 1) as u32,
                    ..old(self)@
                }),
                Err(e) => {
                    &&& e == Error::KittyOverflow
                    &&& old(self)@.next_id == u32::MAX
                    &&& *final(self) == *old(self)
                },
            },
            final(self).create_price == old(self).create_price,
            final(self).pallet_id == old(self).pallet_id,
            old(self).in_transaction() ==> final(self).in_transaction() && final(self).savepoint()
                == old(self).savepoint(),
    {
        let current_id = self.next_kitty_id();
        match current_id.checked_add(1) {
            Some(next) => {
                self.next_kitty_id.put(next);
                Ok(current_id)
            },
            None => Err(Error::KittyOverflow),
        }
    }

    /// Sixteen bytes that depend on the block's seed, on the caller and on
    /// the index of the command being run, and on nothing else.
    pub fn random_value(sys: &System, sender: AccountId) -> (value: [u8; 16])
        ensures
            value == random_bytes(sys.random_seed, sender, sys.extrinsic_index),
    {
        let payload = encode_seed_material(&sys.random_seed, sender, sys.extrinsic_index);
        blake2_128(payload.as_slice())
    }

    /// The module's own account.
    pub fn get_pallet_account_id(&self) -> (account: AccountId)
        ensures
            account == self.treasury(),
    {
        let mut bytes: Vec<u8> = Vec::new();
        bytes.push(109u8);
        bytes.push(111u8);
        bytes.push(100u8);
        bytes.push(108u8);
        bytes.push(self.pallet_id[0]);
        bytes.push(self.pallet_id[1]);
        bytes.push(self.pallet_id[2]);
        bytes.push(self.pallet_id[3]);
        assert(bytes@ =~= seq![
            109u8,
            111u8,
            100u8,
            108u8,
            self.pallet_id[0],
            self.pallet_id[1],
            self.pallet_id[2],
            self.pallet_id[3],
        ]);
        u64_from_le_bytes(bytes.as_slice())
    }
}

/// What is stored after `who` has created the asset with the given DNA.
pub open spec fn after_create(state: State, who: AccountId, dna: [u8; 16]) -> State {
    State {
        next_id: (state.next_id + 1) as u32,
        kitties: state.kitties.insert(state.next_id, KittyRecord::V2(newborn(dna))),
        owners: state.owners.insert(state.next_id, who),
        ..state
    }
}

/// What is stored after `who` has bred the two assets, with the selector
/// drawn for the command.
pub open spec fn after_breed(
    state: State,
    who: AccountId,
    kitty_id_1: KittyId,
    kitty_id_2: KittyId,
    selector: [u8; 16],
) -> State {
    let child = newborn(
        mixed_dna(state.kitty(kitty_id_1)->Some_0.dna, state.kitty(kitty_id_2)->Some_0.dna, selector),
    );
    State {
        next_id: (state.next_id + 1) as u32,
        kitties: state.kitties.insert(state.next_id, KittyRecord::V2(child)),
        owners: state.owners.insert(state.next_id, who),
        parents: state.parents.insert(state.next_id, (kitty_id_1, kitty_id_2)),
        ..state
    }
}

/// What is stored after the asset has gone to `recipient`.
pub open spec fn after_transfer(state: State, recipient: AccountId, kitty_id: KittyId) -> State {
    State { owners: state.owners.insert(kitty_id, recipient), ..state }
}

/// What is stored after the asset has been offered at `price`.
pub open spec fn after_sale(state: State, kitty_id: KittyId, price: Balance) -> State {
    State { on_sale: state.on_sale.insert(kitty_id, price), ..state }
}

/// What is stored after `who` has bought the asset.
pub open spec fn after_buy(state: State, who: AccountId, kitty_id: KittyId) -> State {
    State {
        owners: state.owners.insert(kitty_id, who),
        on_sale: state.on_sale.remove(kitty_id),
        ..state
    }
}

/// The one DNA that mixes the two parents by the selector.
pub proof fn lemma_mixed_dna(child: [u8; 16], first: [u8; 16], second: [u8; 16], selector: [u8; 16])
    requires
        is_mix(child, first, second, selector),
    ensures
        child == mixed_dna(first, second, selector),
{
    broadcast use vstd::array::group_array_axioms;

    let other = mixed_dna(first, second, selector);
    assert(is_mix(other, first, second, selector));
    assert forall|i: int| 0 <= i < 16 implies child[i] == other[i] by {
        assert(child[i] == (first[i] & selector[i]) | (second[i] & !selector[i]));
        assert(other[i] == (first[i] & selector[i]) | (second[i] & !selector[i]));
    }
    assert(child =~= other);
}

impl Pallet {
    /// Creates an asset for the caller, who pays the price of creation to
    /// the module's account. The DNA is drawn from the block's seed, the
    /// caller and the index of the command.
    pub fn create(&mut self, sys: &mut System, bank: &mut Balances, origin: RawOrigin) -> (r: Result<
        (),
        DispatchError<Error>,
    >)
        ensures
            r == create_outcome(
                old(self)@,
                old(self).create_price,
                old(self).treasury(),
                old(bank)@,
                old(bank).minimum(),
                origin,
            ),
            final(self).create_price == old(self).create_price,
            final(self).pallet_id == old(self).pallet_id,
            final(bank).minimum() == old(bank).minimum(),
            final(sys).block_number == old(sys).block_number,
            final(sys).extrinsic_index == old(sys).extrinsic_index,
            final(sys).random_seed == old(sys).random_seed,
            r is Err ==> {
                &&& final(self)@ == old(self)@
                &&& final(bank)@ == old(bank)@
                &&& final(sys).events@ == old(sys).events@
            },
            r is Ok ==> {
                let who = origin->Signed_0;
                let dna = random_bytes(old(sys).random_seed, who, old(sys).extrinsic_index);
                &&& final(self)@ == after_create(old(self)@, who, dna)
                &&& final(bank)@ == moved(
                    old(bank)@,
                    who,
                    old(self).treasury(),
                    old(self).create_price,
                )
                &&& final(sys).events@ == old(sys).events@.push(
                    RuntimeEvent::Kittiesx(
                        Event::KittyCreated {
                            owner: who,
                            kitty_id: old(self)@.next_id,
                            kitty: newborn(dna),
                        },
                    ),
                )
            },
            old(self)@.consistent() ==> final(self)@.consistent(),
            final(self).settled(),
            !final(sys).events.in_transaction(),
            !final(bank).in_transaction(),
    {
        self.begin_transaction();
        sys.events.begin_transaction();
        bank.begin_transaction();
        let r = self.do_create(sys, bank, origin);
        if r.is_ok() {
            self.commit_transaction();
            sys.events.commit_transaction();
            bank.commit_transaction();
        } else {
            self.rollback_transaction();
            sys.events.rollback_transaction();
            bank.rollback_transaction();
        }
        r
    }

    /// The steps of `create`, in a scope that the caller has opened and
    /// ends.
    fn do_create(&mut self, sys: &mut System, bank: &mut Balances, origin: RawOrigin) -> (r: Result<
        (),
        DispatchError<Error>,
    >)
        requires
            old(self).in_transaction(),
            old(sys).events.in_transaction(),
            old(bank).in_transaction(),
        ensures
            r == create_outcome(
                old(self)@,
                old(self).create_price,
                old(self).treasury(),
                old(bank)@,
                old(bank).minimum(),
                origin,
            ),
            final(self).create_price == old(self).create_price,
            final(self).pallet_id == old(self).pallet_id,
            final(bank).minimum() == old(bank).minimum(),
            final(sys).block_number == old(sys).block_number,
            final(sys).extrinsic_index == old(sys).extrinsic_index,
            final(sys).random_seed == old(sys).random_seed,
            r is Ok ==> {
                let who = origin->Signed_0;
                let dna = random_bytes(old(sys).random_seed, who, old(sys).extrinsic_index);
                &&& final(self)@ == after_create(old(self)@, who, dna)
                &&& final(bank)@ == moved(
                    old(bank)@,
                    who,
                    old(self).treasury(),
                    old(self).create_price,
                )
                &&& final(sys).events@ == old(sys).events@.push(
                    RuntimeEvent::Kittiesx(
                        Event::KittyCreated {
                            owner: who,
                            kitty_id: old(self)@.next_id,
                            kitty: newborn(dna),
                        },
                    ),
                )
            },
            r is Ok && old(self)@.consistent() ==> final(self)@.consistent(),
            final(self).in_transaction(),
            final(self).savepoint() == old(self).savepoint(),
            final(sys).events.in_transaction(),
            final(sys).events.saved() == old(sys).events.saved(),
            final(bank).in_transaction(),
            final(bank).saved() == old(bank).saved(),
    {
        let who = match ensure_signed(origin) {
            Ok(who) => who,
            Err(_) => {
                return Err(DispatchError::BadOrigin);
            },
        };
        let kitty_id = match self.get_next_id() {
            Ok(id) => id,
            Err(e) => {
                return Err(DispatchError::Module(e));
            },
        };
        let kitty = Kitty {
            dna: Self::random_value(sys, who),
            name: DEFAULT_KITTY_NAME,
            feature: DEFAULT_KITTY_FEATURE,
        };
        let create_price = self.create_price;
        if !bank.can_reserve(who, create_price) {
            return Err(DispatchError::Module(Error::NotEnoughCurrency));
        }
        let treasury = self.get_pallet_account_id();
        match bank.transfer(who, treasury, create_price, ExistenceRequirement::KeepAlive) {
            Ok(_) => {},
            Err(e) => {
                return Err(DispatchError::Token(e));
            },
        }
        self.kitties.insert(kitty_id, KittyRecord::V2(kitty));
        self.kitty_owners.insert(kitty_id, who);
        sys.deposit_event(RuntimeEvent::Kittiesx(Event::KittyCreated { owner: who, kitty_id, kitty }));
        proof {
            assert(kitty == newborn(kitty.dna));
            if old(self)@.consistent() {
                lemma_create_keeps_consistency(old(self)@, who, kitty.dna);
            }
        }
        Ok(())
    }

    /// Breeds a new asset for the caller from two different assets. Each
    /// bit of its DNA comes from one of the parents, as the bytes drawn for
    /// the command select. Nothing is charged.
    pub fn breed(
        &mut self,
        sys: &mut System,
        origin: RawOrigin,
        kitty_id_1: KittyId,
        kitty_id_2: KittyId,
    ) -> (r: Result<(), DispatchError<Error>>)
        ensures
            r == breed_outcome(old(self)@, origin, kitty_id_1, kitty_id_2),
            final(self).create_price == old(self).create_price,
            final(self).pallet_id == old(self).pallet_id,
            final(sys).block_number == old(sys).block_number,
            final(sys).extrinsic_index == old(sys).extrinsic_index,
            final(sys).random_seed == old(sys).random_seed,
            r is Err ==> final(self)@ == old(self)@ && final(sys).events@ == old(sys).events@,
            r is Ok ==> {
                let who = origin->Signed_0;
                let selector = random_bytes(old(sys).random_seed, who, old(sys).extrinsic_index);
                let after = after_breed(old(self)@, who, kitty_id_1, kitty_id_2, selector);
                &&& final(self)@ == after
                &&& final(sys).events@ == old(sys).events@.push(
                    RuntimeEvent::Kittiesx(
                        Event::KittyBred {
                            owner: who,
                            kitty_id: old(self)@.next_id,
                            kitty: after.kitty(old(self)@.next_id)->Some_0,
                        },
                    ),
                )
            },
            old(self)@.consistent() ==> final(self)@.consistent(),
            final(self).settled(),
            !final(sys).events.in_transaction(),
    {
        self.begin_transaction();
        sys.events.begin_transaction();
        let r = self.do_breed(sys, origin, kitty_id_1, kitty_id_2);
        if r.is_ok() {
            self.commit_transaction();
            sys.events.commit_transaction();
        } else {
            self.rollback_transaction();
            sys.events.rollback_transaction();
        }
        r
    }

    /// The steps of `breed`, in a scope that the caller has opened and
    /// ends.
    fn do_breed(
        &mut self,
        sys: &mut System,
        origin: RawOrigin,
        kitty_id_1: KittyId,
        kitty_id_2: KittyId,
    ) -> (r: Result<(), DispatchError<Error>>)
        requires
            old(self).in_transaction(),
            old(sys).events.in_transaction(),
        ensures
            r == breed_outcome(old(self)@, origin, kitty_id_1, kitty_id_2),
            final(self).create_price == old(self).create_price,
            final(self).pallet_id == old(self).pallet_id,
            final(sys).block_number == old(sys).block_number,
            final(sys).extrinsic_index == old(sys).extrinsic_index,
            final(sys).random_seed == old(sys).random_seed,
            r is Ok ==> {
                let who = origin->Signed_0;
                let selector = random_bytes(old(sys).random_seed, who, old(sys).extrinsic_index);
                let after = after_breed(old(self)@, who, kitty_id_1, kitty_id_2, selector);
                &&& final(self)@ == after
                &&& final(sys).events@ == old(sys).events@.push(
                    RuntimeEvent::Kittiesx(
                        Event::KittyBred {
                            owner: who,
                            kitty_id: old(self)@.next_id,
                            kitty: after.kitty(old(self)@.next_id)->Some_0,
                        },
                    ),
                )
            },
            r is Ok && old(self)@.consistent() ==> final(self)@.consistent(),
            final(self).in_transaction(),
            final(self).savepoint() == old(self).savepoint(),
            final(sys).events.in_transaction(),
            final(sys).events.saved() == old(sys).events.saved(),
    {
        let who = match ensure_signed(origin) {
            Ok(who) => who,
            Err(_) => {
                return Err(DispatchError::BadOrigin);
            },
        };
        if kitty_id_1 == kitty_id_2 {
            return Err(DispatchError::Module(Error::KittySingleParent));
        }
        let kitty_p_1 = match self.kitties(kitty_id_1) {
            Some(kitty) => kitty,
            None => {
                return Err(DispatchError::Module(Error::InvalidKittyId));
            },
        };
        let kitty_p_2 = match self.kitties(kitty_id_2) {
            Some(kitty) => kitty,
            None => {
                return Err(DispatchError::Module(Error::InvalidKittyId));
            },
        };
        let kitty_id = match self.get_next_id() {
            Ok(id) => id,
            Err(e) => {
                return Err(DispatchError::Module(e));
            },
        };
        let selector = Self::random_value(sys, who);
        let mut data = [0u8;16];
        let mut i: usize = 0;
        while i < 16
            invariant
                0 <= i <= 16,
                forall|k: int|
                    0 <= k < i ==> #[trigger] data[k] == (kitty_p_1.dna[k] & selector[k]) | (
                    kitty_p_2.dna[k] & !selector[k]),
            decreases 16 - i,
        {
            data[i] = (kitty_p_1.dna[i] & selector[i]) | (kitty_p_2.dna[i] & !selector[i]);
            i = i + 1;
        }
        proof {
            lemma_mixed_dna(data, kitty_p_1.dna, kitty_p_2.dna, selector);
        }
        let kitty = Kitty { dna: data, name: DEFAULT_KITTY_NAME, feature: DEFAULT_KITTY_FEATURE };
        self.kitties.insert(kitty_id, KittyRecord::V2(kitty));
        self.kitty_owners.insert(kitty_id, who);
        self.kitty_parents.insert(kitty_id, (kitty_id_1, kitty_id_2));
        sys.deposit_event(RuntimeEvent::Kittiesx(Event::KittyBred { owner: who, kitty_id, kitty }));
        proof {
            assert(kitty == newborn(data));
            if old(self)@.consistent() {
                lemma_breed_keeps_consistency(old(self)@, who, kitty_id_1, kitty_id_2, selector);
            }
        }
        Ok(())
    }

    /// Gives the caller's asset to `recipient`, unless it is on offer.
    pub fn transfer(
        &mut self,
        sys: &mut System,
        origin: RawOrigin,
        recipient: AccountId,
        kitty_id: KittyId,
    ) -> (r: Result<(), DispatchError<Error>>)
        ensures
            r == transfer_result(old(self)@, origin, recipient, kitty_id),
            final(self).create_price == old(self).create_price,
            final(self).pallet_id == old(self).pallet_id,
            final(sys).block_number == old(sys).block_number,
            final(sys).extrinsic_index == old(sys).extrinsic_index,
            final(sys).random_seed == old(sys).random_seed,
            r is Err ==> final(self)@ == old(self)@ && final(sys).events@ == old(sys).events@,
            r is Ok ==> {
                &&& final(self)@ == after_transfer(old(self)@, recipient, kitty_id)
                &&& final(sys).events@ == old(sys).events@.push(
                    RuntimeEvent::Kittiesx(
                        Event::KittyTransfer { owner: origin->Signed_0, recipient, kitty_id },
                    ),
                )
            },
            old(self)@.consistent() ==> final(self)@.consistent(),
            final(self).settled(),
            !final(sys).events.in_transaction(),
    {
        self.begin_transaction();
        sys.events.begin_transaction();
        let r = self.do_transfer(sys, origin, recipient, kitty_id);
        if r.is_ok() {
            self.commit_transaction();
            sys.events.commit_transaction();
        } else {
            self.rollback_transaction();
            sys.events.rollback_transaction();
        }
        r
    }

    /// The steps of `transfer`, in a scope that the caller has opened and
    /// ends.
    fn do_transfer(
        &mut self,
        sys: &mut System,
        origin: RawOrigin,
        recipient: AccountId,
        kitty_id: KittyId,
    ) -> (r: Result<(), DispatchError<Error>>)
        requires
            old(self).in_transaction(),
            old(sys).events.in_transaction(),
        ensures
            r == transfer_result(old(self)@, origin, recipient, kitty_id),
            final(self).create_price == old(self).create_price,
            final(self).pallet_id == old(self).pallet_id,
            final(sys).block_number == old(sys).block_number,
            final(sys).extrinsic_index == old(sys).extrinsic_index,
            final(sys).random_seed == old(sys).random_seed,
            r is Ok ==> {
                &&& final(self)@ == after_transfer(old(self)@, recipient, kitty_id)
                &&& final(sys).events@ == old(sys).events@.push(
                    RuntimeEvent::Kittiesx(
                        Event::KittyTransfer { owner: origin->Signed_0, recipient, kitty_id },
                    ),
                )
            },
            r is Ok && old(self)@.consistent() ==> final(self)@.consistent(),
            final(self).in_transaction(),
            final(self).savepoint() == old(self).savepoint(),
            final(sys).events.in_transaction(),
            final(sys).events.saved() == old(sys).events.saved(),
    {
        let who = match ensure_signed(origin) {
            Ok(who) => who,
            Err(_) => {
                return Err(DispatchError::BadOrigin);
            },
        };
        if who == recipient {
            return Err(DispatchError::Module(Error::ErrprRecipient));
        }
        if self.kitties(kitty_id).is_none() {
            return Err(DispatchError::Module(Error::InvalidKittyId));
        }
        if self.kitty_on_sale(kitty_id).is_some() {
            return Err(DispatchError::Module(Error::KittyOnSale));
        }
        let owner = match self.kitty_owners(kitty_id) {
            Some(owner) => owner,
            None => {
                return Err(DispatchError::Module(Error::InvalidKittyId));
            },
        };
        if who != owner {
            return Err(DispatchError::Module(Error::ErrorKittyOwner));
        }
        self.kitty_owners.insert(kitty_id, recipient);
        sys.deposit_event(RuntimeEvent::Kittiesx(Event::KittyTransfer { owner, recipient, kitty_id }));
        proof {
            if old(self)@.consistent() {
                lemma_transfer_keeps_consistency(old(self)@, recipient, kitty_id);
            }
        }
        Ok(())
    }

    /// Offers the caller's asset at `price`.
    pub fn sale(&mut self, sys: &mut System, origin: RawOrigin, kitty_id: KittyId, price: Balance) -> (r:
        Result<(), DispatchError<Error>>)
        ensures
            r == sale_outcome(old(self)@, origin, kitty_id),
            final(self).create_price == old(self).create_price,
            final(self).pallet_id == old(self).pallet_id,
            final(sys).block_number == old(sys).block_number,
            final(sys).extrinsic_index == old(sys).extrinsic_index,
            final(sys).random_seed == old(sys).random_seed,
            r is Err ==> final(self)@ == old(self)@ && final(sys).events@ == old(sys).events@,
            r is Ok ==> {
                &&& final(self)@ == after_sale(old(self)@, kitty_id, price)
                &&& final(sys).events@ == old(sys).events@.push(
                    RuntimeEvent::Kittiesx(
                        Event::KittyOnSale { owner: origin->Signed_0, kitty_id, price },
                    ),
                )
            },
            old(self)@.consistent() ==> final(self)@.consistent(),
            final(self).settled(),
            !final(sys).events.in_transaction(),
    {
        self.begin_transaction();
        sys.events.begin_transaction();
        let r = self.do_sale(sys, origin, kitty_id, price);
        if r.is_ok() {
            self.commit_transaction();
            sys.events.commit_transaction();
        } else {
            self.rollback_transaction();
            sys.events.rollback_transaction();
        }
        r
    }

    /// The steps of `sale`, in a scope that the caller has opened and
    /// ends.
    fn do_sale(&mut self, sys: &mut System, origin: RawOrigin, kitty_id: KittyId, price: Balance) -> (r:
        Result<(), DispatchError<Error>>)
        requires
            old(self).in_transaction(),
            old(sys).events.in_transaction(),
        ensures
            r == sale_outcome(old(self)@, origin, kitty_id),
            final(self).create_price == old(self).create_price,
            final(self).pallet_id == old(self).pallet_id,
            final(sys).block_number == old(sys).block_number,
            final(sys).extrinsic_index == old(sys).extrinsic_index,
            final(sys).random_seed == old(sys).random_seed,
            r is Ok ==> {
                &&& final(self)@ == after_sale(old(self)@, kitty_id, price)
                &&& final(sys).events@ == old(sys).events@.push(
                    RuntimeEvent::Kittiesx(
                        Event::KittyOnSale { owner: origin->Signed_0, kitty_id, price },
                    ),
                )
            },
            r is Ok && old(self)@.consistent() ==> final(self)@.consistent(),
            final(self).in_transaction(),
            final(self).savepoint() == old(self).savepoint(),
            final(sys).events.in_transaction(),
            final(sys).events.saved() == old(sys).events.saved(),
    {
        let who = match ensure_signed(origin) {
            Ok(who) => who,
            Err(_) => {
                return Err(DispatchError::BadOrigin);
            },
        };
        if self.kitties(kitty_id).is_none() {
            return Err(DispatchError::Module(Error::InvalidKittyId));
        }
        let owner = match self.kitty_owners(kitty_id) {
            Some(owner) => owner,
            None => {
                return Err(DispatchError::Module(Error::InvalidKittyId));
            },
        };
        if who != owner {
            return Err(DispatchError::Module(Error::ErrorKittyOwner));
        }
        if self.kitty_on_sale(kitty_id).is_some() {
            return Err(DispatchError::Module(Error::KittyOnSale));
        }
        self.kitty_on_sale.insert(kitty_id, price);
        sys.deposit_event(RuntimeEvent::Kittiesx(Event::KittyOnSale { owner, kitty_id, price }));
        proof {
            if old(self)@.consistent() {
                lemma_sale_keeps_consistency(old(self)@, kitty_id, price);
            }
        }
        Ok(())
    }

    /// Buys the asset on offer for the caller: the asset changes owner, the
    /// offer is gone, and the price moves from the caller to the owner
    /// before. Nothing stops an owner from buying its own asset.
    pub fn buy(&mut self, sys: &mut System, bank: &mut Balances, origin: RawOrigin, kitty_id: KittyId) -> (r:
        Result<(), DispatchError<Error>>)
        ensures
            r == buy_outcome(old(self)@, old(bank)@, old(bank).minimum(), origin, kitty_id),
            final(self).create_price == old(self).create_price,
            final(self).pallet_id == old(self).pallet_id,
            final(bank).minimum() == old(bank).minimum(),
            final(sys).block_number == old(sys).block_number,
            final(sys).extrinsic_index == old(sys).extrinsic_index,
            final(sys).random_seed == old(sys).random_seed,
            r is Err ==> {
                &&& final(self)@ == old(self)@
                &&& final(bank)@ == old(bank)@
                &&& final(sys).events@ == old(sys).events@
            },
            r is Ok ==> {
                let who = origin->Signed_0;
                let seller = old(self)@.owner(kitty_id)->Some_0;
                let price = old(self)@.price(kitty_id)->Some_0;
                &&& final(self)@ == after_buy(old(self)@, who, kitty_id)
                &&& final(self)@.price(kitty_id) is None
                &&& final(self)@.owner(kitty_id) == Some(who)
                &&& final(bank)@ == moved(old(bank)@, who, seller, price)
                &&& who != seller ==> {
                    &&& final(bank).free(who) == old(bank).free(who) - price
                    &&& final(bank).free(seller) == old(bank).free(seller) + price
                    &&& forall|other: AccountId|
                        other != who && other != seller ==> held(final(bank)@, other) == held(
                            old(bank)@,
                            other,
                        )
                }
                &&& final(sys).events@ == old(sys).events@.push(
                    RuntimeEvent::Kittiesx(Event::KittyBought { owner: who, kitty_id }),
                )
            },
            old(self)@.consistent() ==> final(self)@.consistent(),
            final(self).settled(),
            !final(sys).events.in_transaction(),
            !final(bank).in_transaction(),
    {
        self.begin_transaction();
        sys.events.begin_transaction();
        bank.begin_transaction();
        let r = self.do_buy(sys, bank, origin, kitty_id);
        if r.is_ok() {
            self.commit_transaction();
            sys.events.commit_transaction();
            bank.commit_transaction();
        } else {
            self.rollback_transaction();
            sys.events.rollback_transaction();
            bank.rollback_transaction();
        }
        r
    }

    /// The steps of `buy`, in a scope that the caller has opened and
    /// ends.
    fn do_buy(&mut self, sys: &mut System, bank: &mut Balances, origin: RawOrigin, kitty_id: KittyId) -> (r:
        Result<(), DispatchError<Error>>)
        requires
            old(self).in_transaction(),
            old(sys).events.in_transaction(),
            old(bank).in_transaction(),
        ensures
            r == buy_outcome(old(self)@, old(bank)@, old(bank).minimum(), origin, kitty_id),
            final(self).create_price == old(self).create_price,
            final(self).pallet_id == old(self).pallet_id,
            final(bank).minimum() == old(bank).minimum(),
            final(sys).block_number == old(sys).block_number,
            final(sys).extrinsic_index == old(sys).extrinsic_index,
            final(sys).random_seed == old(sys).random_seed,
            r is Ok ==> {
                let who = origin->Signed_0;
                let seller = old(self)@.owner(kitty_id)->Some_0;
                let price = old(self)@.price(kitty_id)->Some_0;
                &&& final(self)@ == after_buy(old(self)@, who, kitty_id)
                &&& final(self)@.price(kitty_id) is None
                &&& final(self)@.owner(kitty_id) == Some(who)
                &&& final(bank)@ == moved(old(bank)@, who, seller, price)
                &&& who != seller ==> {
                    &&& final(bank).free(who) == old(bank).free(who) - price
                    &&& final(bank).free(seller) == old(bank).free(seller) + price
                    &&& forall|other: AccountId|
                        other != who && other != seller ==> held(final(bank)@, other) == held(
                            old(bank)@,
                            other,
                        )
                }
                &&& final(sys).events@ == old(sys).events@.push(
                    RuntimeEvent::Kittiesx(Event::KittyBought { owner: who, kitty_id }),
                )
            },
            r is Ok && old(self)@.consistent() ==> final(self)@.consistent(),
            final(self).in_transaction(),
            final(self).savepoint() == old(self).savepoint(),
            final(sys).events.in_transaction(),
            final(sys).events.saved() == old(sys).events.saved(),
            final(bank).in_transaction(),
            final(bank).saved() == old(bank).saved(),
    {
        let who = match ensure_signed(origin) {
            Ok(who) => who,
            Err(_) => {
                return Err(DispatchError::BadOrigin);
            },
        };
        let price = match self.kitty_on_sale(kitty_id) {
            Some(price) => price,
            None => {
                return Err(DispatchError::Module(Error::InvalidKittyId));
            },
        };
        let owner = match self.kitty_owners(kitty_id) {
            Some(owner) => owner,
            None => {
                return Err(DispatchError::Module(Error::InvalidKittyId));
            },
        };
        if !bank.can_reserve(who, price) {
            return Err(DispatchError::Module(Error::NotEnoughCurrency));
        }
        self.kitty_owners.insert(kitty_id, who);
        self.kitty_on_sale.remove(kitty_id);
        match bank.transfer(who, owner, price, ExistenceRequirement::KeepAlive) {
            Ok(_) => {},
            Err(e) => {
                return Err(DispatchError::Token(e));
            },
        }
        sys.deposit_event(RuntimeEvent::Kittiesx(Event::KittyBought { owner: who, kitty_id }));
        proof {
            if old(self)@.consistent() {
                lemma_buy_keeps_consistency(old(self)@, who, kitty_id);
            }
            if who != owner {
                crate::balances::lemma_moved(old(bank)@, who, owner, price);
            }
        }
        Ok(())
    }
}

/// Creating an asset keeps the stored state consistent.
pub proof fn lemma_create_keeps_consistency(state: State, who: AccountId, dna: [u8; 16])
    requires
        state.consistent(),
        state.next_id < u32::MAX,
    ensures
        after_create(state, who, dna).consistent(),
{
}

/// Breeding an asset keeps the stored state consistent.
pub proof fn lemma_breed_keeps_consistency(
    state: State,
    who: AccountId,
    kitty_id_1: KittyId,
    kitty_id_2: KittyId,
    selector: [u8; 16],
)
    requires
        state.consistent(),
        state.next_id < u32::MAX,
    ensures
        after_breed(state, who, kitty_id_1, kitty_id_2, selector).consistent(),
{
}

/// Giving an existing asset away keeps the stored state consistent.
pub proof fn lemma_transfer_keeps_consistency(state: State, recipient: AccountId, kitty_id: KittyId)
    requires
        state.consistent(),
        state.kitties.contains_key(kitty_id),
    ensures
        after_transfer(state, recipient, kitty_id).consistent(),
{
}

/// Offering an existing asset keeps the stored state consistent.
pub proof fn lemma_sale_keeps_consistency(state: State, kitty_id: KittyId, price: Balance)
    requires
        state.consistent(),
        state.kitties.contains_key(kitty_id),
    ensures
        after_sale(state, kitty_id, price).consistent(),
{
}

/// Buying an asset that has an owner keeps the stored state consistent.
pub proof fn lemma_buy_keeps_consistency(state: State, who: AccountId, kitty_id: KittyId)
    requires
        state.consistent(),
        state.owners.contains_key(kitty_id),
    ensures
        after_buy(state, who, kitty_id).consistent(),
{
}

/// What is stored after both steps of the migration, each of which acts
/// only on the layout it starts from.
pub open spec fn migrated(state: State) -> State {
    migrations::v2::upgraded(migrations::v1::upgraded(state))
}

impl Pallet {
    /// Brings what is stored into the current layout, whichever older
    /// layout it is in. Costs nothing.
    pub fn on_runtime_upgrade(&mut self) -> (weight: crate::weight::Weight)
        ensures
            final(self)@ == migrated(old(self)@),
            final(self).create_price == old(self).create_price,
            final(self).pallet_id == old(self).pallet_id,
            weight.ref_time == 0,
            weight.proof_size == 0,
    {
        let mut _w = migrations::v1::upgrade(self);
        _w = migrations::v2::upgrade(self);
        _w
    }
}

impl Pallet {
    /// What the module does at the start of a block: nothing. Costs
    /// nothing.
    pub fn on_initialize(&self, _n: crate::system::BlockNumber) -> (weight: crate::weight::Weight)
        ensures
            weight.ref_time == 0,
            weight.proof_size == 0,
    {
        crate::weight::Weight::from_parts(0, 0)
    }

    /// What the module does with the time left in a block: nothing. Costs
    /// nothing.
    pub fn on_idle(&self, _n: crate::system::BlockNumber, _remaining: crate::weight::Weight) -> (weight:
        crate::weight::Weight)
        ensures
            weight.ref_time == 0,
            weight.proof_size == 0,
    {
        crate::weight::Weight::from_parts(0, 0)
    }
}

/// The migration changes nothing in a state that is stamped with the
/// current layout.
pub proof fn lemma_migration_leaves_current_alone(state: State)
    requires
        state.version == STORAGE_VERSION,
    ensures
        migrated(state) == state,
{
}

/// Running the migration a second time changes nothing.
pub proof fn lemma_migration_idempotent(state: State)
    ensures
        migrated(migrated(state)) == migrated(state),
{
}

/// After the migration, a state that was stamped with an older layout is in
/// the current one.
pub proof fn lemma_migration_reaches_current(state: State)
    requires
        state.version < STORAGE_VERSION,
    ensures
        migrated(state).current(),
{
    if state.version == 0 {
        migrations::v1::lemma_upgrade_keeps_assets(state);
    } else {
        migrations::v2::lemma_upgrade_keeps_assets(state);
    }
}

/// The migration keeps a consistent state consistent, unless it has to drop
/// an asset: one stored in the first layout where the second is stamped.
pub proof fn lemma_migration_keeps_consistency(state: State)
    requires
        state.consistent(),
        state.version == 1 ==> forall|id: KittyId|
            state.kitties.contains_key(id) ==> !(#[trigger] state.kitties[id] is V0),
    ensures
        migrated(state).consistent(),
{
    if state.version == 0 {
        migrations::v1::lemma_upgrade_keeps_assets(state);
    } else if state.version == 1 {
        assert forall|id: KittyId| state.kitties.contains_key(id) implies migrations::v2::read_as_v1(
            #[trigger] state.kitties[id],
        ) is Some by {
            assert(!(state.kitties[id] is V0));
        }
        migrations::v2::lemma_upgrade_keeps_assets(state);
    }
}

/// The commands of the module.
#[allow(non_camel_case_types)]
#[derive(Clone, Copy, Debug, PartialEq, Eq)]
pub enum Call {
    create,
    breed { kitty_id_1: KittyId, kitty_id_2: KittyId },
    transfer { recipient: AccountId, kitty_id: KittyId },
    sale { kitty_id: KittyId, price: Balance },
    buy { kitty_id: KittyId },
}

impl Call {
    /// The number by which the command is known in a transaction.
    pub open spec fn number(&self) -> u8 {
        match self {
            Call::create => 0u8,
            Call::breed { .. } => 1u8,
            Call::transfer { .. } => 2u8,
            Call::sale { .. } => 3u8,
            Call::buy { .. } => 4u8,
        }
    }

    /// The number by which the command is known in a transaction.
    pub fn index(&self) -> (i: u8)
        ensures
            i == self.number(),
    {
        match self {
            Call::create => 0,
            Call::breed { .. } => 1,
            Call::transfer { .. } => 2,
            Call::sale { .. } => 3,
            Call::buy { .. } => 4,
        }
    }
}

/// What a command meets: what the module stores and how it is set up, the
/// balances, and the block being built.
pub ghost struct Setting {
    pub state: State,
    pub create_price: Balance,
    pub treasury: AccountId,
    pub bank: Map<AccountId, Balance>,
    pub minimum: Balance,
    pub random_seed: [u8; 32],
    pub extrinsic_index: Option<u32>,
}

/// How a command ends.
pub open spec fn call_outcome(at: Setting, origin: RawOrigin, call: Call) -> Result<
    (),
    DispatchError<Error>,
> {
    match call {
        Call::create => create_outcome(
            at.state,
            at.create_price,
            at.treasury,
            at.bank,
            at.minimum,
            origin,
        ),
        Call::breed { kitty_id_1, kitty_id_2 } => breed_outcome(
            at.state,
            origin,
            kitty_id_1,
            kitty_id_2,
        ),
        Call::transfer { recipient, kitty_id } => transfer_result(
            at.state,
            origin,
            recipient,
            kitty_id,
        ),
        Call::sale { kitty_id, price } => sale_outcome(at.state, origin, kitty_id),
        Call::buy { kitty_id } => buy_outcome(at.state, at.bank, at.minimum, origin, kitty_id),
    }
}

/// What the module stores after a command of `who` that went through.
pub open spec fn call_effect(at: Setting, who: AccountId, call: Call) -> State {
    let drawn = random_bytes(at.random_seed, who, at.extrinsic_index);
    match call {
        Call::create => after_create(at.state, who, drawn),
        Call::breed { kitty_id_1, kitty_id_2 } => after_breed(
            at.state,
            who,
            kitty_id_1,
            kitty_id_2,
            drawn,
        ),
        Call::transfer { recipient, kitty_id } => after_transfer(at.state, recipient, kitty_id),
        Call::sale { kitty_id, price } => after_sale(at.state, kitty_id, price),
        Call::buy { kitty_id } => after_buy(at.state, who, kitty_id),
    }
}

/// The balances after a command of `who` that went through.
pub open spec fn call_payment(at: Setting, who: AccountId, call: Call) -> Map<AccountId, Balance> {
    match call {
        Call::create => moved(at.bank, who, at.treasury, at.create_price),
        Call::buy { kitty_id } => moved(
            at.bank,
            who,
            at.state.owner(kitty_id)->Some_0,
            at.state.price(kitty_id)->Some_0,
        ),
        _ => at.bank,
    }
}

/// What a command of `who` that went through reports.
pub open spec fn call_event(at: Setting, who: AccountId, call: Call) -> Event {
    let kitty_id = at.state.next_id;
    match call {
        Call::create => Event::KittyCreated {
            owner: who,
            kitty_id,
            kitty: call_effect(at, who, call).kitty(kitty_id)->Some_0,
        },
        Call::breed { kitty_id_1, kitty_id_2 } => Event::KittyBred {
            owner: who,
            kitty_id,
            kitty: call_effect(at, who, call).kitty(kitty_id)->Some_0,
        },
        Call::transfer { recipient, kitty_id } => Event::KittyTransfer {
            owner: who,
            recipient,
            kitty_id,
        },
        Call::sale { kitty_id, price } => Event::KittyOnSale { owner: who, kitty_id, price },
        Call::buy { kitty_id } => Event::KittyBought { owner: who, kitty_id },
    }
}

impl Pallet {
    /// What a command meets.
    pub open spec fn setting(&self, sys: &System, bank: &Balances) -> Setting {
        Setting {
            state: self@,
            create_price: self.create_price,
            treasury: self.treasury(),
            bank: bank@,
            minimum: bank.minimum(),
            random_seed: sys.random_seed,
            extrinsic_index: sys.extrinsic_index,
        }
    }

    /// Runs a command. A command that is refused changes nothing; one that
    /// goes through changes what the module stores and the balances, and
    /// reports one event.
    pub fn dispatch(&mut self, sys: &mut System, bank: &mut Balances, origin: RawOrigin, call: Call) -> (r:
        Result<(), DispatchError<Error>>)
        ensures
            r == call_outcome(old(self).setting(old(sys), old(bank)), origin, call),
            final(self).create_price == old(self).create_price,
            final(self).pallet_id == old(self).pallet_id,
            final(bank).minimum() == old(bank).minimum(),
            final(sys).block_number == old(sys).block_number,
            final(sys).extrinsic_index == old(sys).extrinsic_index,
            final(sys).random_seed == old(sys).random_seed,
            r is Err ==> {
                &&& final(self)@ == old(self)@
                &&& final(bank)@ == old(bank)@
                &&& final(sys).events@ == old(sys).events@
            },
            r is Ok ==> {
                let at = old(self).setting(old(sys), old(bank));
                let who = origin->Signed_0;
                &&& origin is Signed
                &&& final(self)@ == call_effect(at, who, call)
                &&& final(bank)@ == call_payment(at, who, call)
                &&& final(sys).events@ == old(sys).events@.push(
                    RuntimeEvent::Kittiesx(call_event(at, who, call)),
                )
            },
            old(self)@.consistent() ==> final(self)@.consistent(),
    {
        match call {
            Call::create => self.create(sys, bank, origin),
            Call::breed { kitty_id_1, kitty_id_2 } => self.breed(sys, origin, kitty_id_1, kitty_id_2),
            Call::transfer { recipient, kitty_id } => self.transfer(sys, origin, recipient, kitty_id),
            Call::sale { kitty_id, price } => self.sale(sys, origin, kitty_id, price),
            Call::buy { kitty_id } => self.buy(sys, bank, origin, kitty_id),
        }
    }
}

} // verus!
