//! The price feed: a worker outside the chain fetches a price and hands it
//! in as an unsigned command that carries a signed payload; the chain
//! admits the command where the signature is good and stores the price.

use crate::bounded::BoundedVec;
use crate::scale::{append_bytes, copy_bytes, encode_payload, encode_u64, payload_bytes};
use crate::store::{item_prefix, StorageMap, StorageValue, TypedMap};
use crate::system::{
    ensure_none, ensure_signed, AccountId, BlockNumber, DispatchError, RawOrigin, RuntimeEvent, System,
};
use vstd::bytes::*;
use vstd::prelude::*;
use vstd::string::*;

pub mod crypto;
pub mod price;

verus! {

/// What the key of a block's indexing data starts with: `ocwx-key-`.
pub const ONCHAIN_TX_KEY: [u8; 9] = [111u8, 99, 119, 120, 45, 107, 101, 121, 45];

/// The note stored with every number: `ocwx.indexing.data`.
pub const INDEXING_DATA: [u8; 18] = [
    111u8,
    99,
    119,
    120,
    46,
    105,
    110,
    100,
    101,
    120,
    105,
    110,
    103,
    46,
    100,
    97,
    116,
    97,
];

/// What the tags of an admitted command start with.
pub const TAG_PREFIX: &'static str = "ExampleOffchainWorker";

/// For how many blocks an admitted command stays valid.
pub const TX_LONGEVITY: u64 = 5;

/// The longest key that is kept of a block.
pub const BLOCK_KEY_BOUND: u32 = 32;

/// What is handed to the node for indexing: a number and a note.
#[derive(Clone, Debug, PartialEq, Eq)]
pub struct IndexingData(pub u128, pub Vec<u8>);

/// What the worker signs: the price, its own public key, and the block it
/// ran for.
#[derive(Clone, Copy, Debug, PartialEq, Eq)]
pub struct Payload {
    pub number: u32,
    pub public: crypto::Public,
    pub block_number: BlockNumber,
}

impl Payload {
    /// The key under which the signature is to be checked.
    pub fn public(&self) -> (key: crypto::Public)
        ensures
            key == self.public,
    {
        self.public
    }

    /// The bytes that are signed.
    pub fn encode(&self) -> (bytes: Vec<u8>)
        ensures
            bytes@ == payload_bytes(self.number, self.public@, self.block_number),
    {
        encode_payload(self.number, &self.public, self.block_number)
    }
}

/// The commands of the module.
#[allow(non_camel_case_types)]
#[derive(Clone, Copy, Debug, PartialEq, Eq)]
pub enum Call {
    /// Stores a number; signed.
    storage_number { number: u128 },
    /// Hands in a price with the payload that the worker signed; unsigned.
    submit_price_unsigned_with_signed_payload {
        timestamp: u64,
        payload: Payload,
        signature: crypto::Signature,
    },
    /// Hands in a price without a signature; unsigned.
    submit_price_unsigned { block_number: BlockNumber, price: u32 },
}

/// What the module reports.
#[derive(Clone, Copy, Debug, PartialEq, Eq)]
pub enum Event {
    NumberStored { number: u128, who: AccountId, block_number: BlockNumber },
}

/// Why the module refuses a command. Neither is returned yet.
#[derive(Clone, Copy, Debug, PartialEq, Eq)]
pub enum Error {
    NoneValue,
    StorageOverflow,
}

/// What the pool is told of an admitted command.
#[derive(Clone, Debug, PartialEq, Eq)]
pub struct ValidTransaction {
    pub priority: u64,
    pub requires: Vec<Vec<u8>>,
    pub provides: Vec<Vec<u8>>,
    pub longevity: u64,
    pub propagate: bool,
}

/// Why a command is not admitted.
#[derive(Clone, Copy, Debug, PartialEq, Eq)]
pub enum InvalidTransaction {
    /// The command is not one that may come unsigned.
    Call,
    /// The signature is not good.
    BadProof,
}

/// Whether a command is admitted, and with what.
pub type TransactionValidity = Result<ValidTransaction, InvalidTransaction>;

/// What the worker has to do once the request for the price has ended.
#[derive(Clone, Copy, Debug, PartialEq, Eq)]
pub enum WorkerStep {
    /// There is no price: nothing more to do.
    Stop,
    /// There is a price, but no account to sign with: to be logged as an
    /// error.
    NoLocalAccount,
    /// Sign the payload, then hand in the command that carries it.
    Sign(Payload),
}

/// The key of the indexing data of the block `n`.
pub open spec fn block_key(n: BlockNumber) -> Seq<u8> {
    ONCHAIN_TX_KEY@ + spec_u64_to_le_bytes(n)
}

/// What the pool is told of every admitted command: no priority, no tags,
/// valid for `TX_LONGEVITY` blocks, to be passed on to other nodes.
pub open spec fn accepted(v: ValidTransaction) -> bool {
    &&& v.priority == 0
    &&& v.requires@.len() == 0
    &&& v.provides@.len() == 0
    &&& v.longevity == TX_LONGEVITY
    &&& v.propagate
}

/// Whether the signature that a command carries is good: it signs the
/// bytes of the payload under the public key in the payload.
pub open spec fn signature_good(payload: Payload, signature: crypto::Signature) -> bool {
    crypto::sr25519_valid(
        signature@,
        payload_bytes(payload.number, payload.public@, payload.block_number),
        payload.public@,
    )
}

/// `after` is `before` with `number` stored in the block `now`: it is the
/// number stored last; under the key of the block it has been handed to the
/// node for indexing, with the note; and the key of the block is kept.
/// Nothing else has changed.
pub open spec fn number_stored(before: Pallet, after: Pallet, number: u128, now: BlockNumber) -> bool {
    &&& after.numbers@ == Some(number)
    &&& after.payload_numbers@ == before.payload_numbers@
    &&& after.offchain_index@.contains_key(block_key(now))
    &&& after.offchain_index@[block_key(now)].0 == number
    &&& after.offchain_index@[block_key(now)].1@ == INDEXING_DATA@
    &&& after.offchain_index@.remove(block_key(now)) == before.offchain_index@.remove(block_key(now))
    &&& after.block_keys@.contains_key(now)
    &&& after.block_keys@[now]@ == block_key(now)
    &&& after.block_keys@.remove(now) == before.block_keys@.remove(now)
}

/// `after` holds what `before` holds.
pub open spec fn same_stored(before: Pallet, after: Pallet) -> bool {
    &&& after.numbers@ == before.numbers@
    &&& after.block_keys@ == before.block_keys@
    &&& after.payload_numbers@ == before.payload_numbers@
    &&& after.offchain_index@ == before.offchain_index@
}

/// How a command ends.
pub open spec fn call_outcome(origin: RawOrigin, call: Call) -> Result<(), DispatchError<Error>> {
    match call {
        Call::storage_number { .. } => match origin {
            RawOrigin::Signed(_) => Ok(()),
            _ => Err(DispatchError::BadOrigin),
        },
        _ => match origin {
            RawOrigin::Unsigned => Ok(()),
            _ => Err(DispatchError::BadOrigin),
        },
    }
}

/// Uses `ValidTransaction::with_tag_prefix` of `sp_runtime`, the builder's
/// `longevity` and `propagate`, and the conversion of the builder into what
/// it has built, which is what its `build` wraps in `Ok`. A builder starts
/// without priority and without tags, and the two setters change only the
/// field they are named after.
#[verifier::external_body]
fn build_validity(tag_prefix: &'static str, longevity: u64, propagate: bool) -> (v: ValidTransaction)
    ensures
        v.priority == 0,
        v.requires@.len() == 0,
        v.provides@.len() == 0,
        v.longevity == longevity,
        v.propagate == propagate,
{
    let built: sp_runtime::transaction_validity::ValidTransaction =
        sp_runtime::transaction_validity::ValidTransaction::with_tag_prefix(tag_prefix)
            .longevity(longevity)
            .propagate(propagate)
            .into();
    ValidTransaction {
        priority: built.priority,
        requires: built.requires,
        provides: built.provides,
        longevity: built.longevity,
        propagate: built.propagate,
    }
}

/// The module: the number stored last, the key kept of each block, the
/// prices handed in, and what was handed to the node for indexing.
pub struct Pallet {
    /// The number stored last.
    pub numbers: StorageValue<u128>,
    /// The key of the indexing data of each block in which a number was
    /// stored.
    pub block_keys: TypedMap<BlockNumber, BoundedVec>,
    /// The prices handed in, by the time at which the worker handed them
    /// in.
    pub payload_numbers: TypedMap<u64, (u32, bool)>,
    /// What was handed to the node for indexing, by key.
    pub offchain_index: StorageMap<IndexingData>,
}

/// What the module stores, as plain maps.
pub ghost struct Stored {
    pub numbers: Option<u128>,
    pub block_keys: Map<BlockNumber, BoundedVec>,
    pub payload_numbers: Map<u64, (u32, bool)>,
    pub offchain_index: Map<Seq<u8>, IndexingData>,
}

impl View for Pallet {
    type V = Stored;

    open spec fn view(&self) -> Stored {
        Stored {
            numbers: self.numbers@,
            block_keys: self.block_keys@,
            payload_numbers: self.payload_numbers@,
            offchain_index: self.offchain_index@,
        }
    }
}

impl Pallet {
    /// A module that stores nothing yet. `name` is the name under which the
    /// runtime knows the module.
    pub fn new(name: &[u8]) -> (pallet: Self)
        ensures
            pallet.numbers@ is None,
            pallet.block_keys@ == Map::<BlockNumber, BoundedVec>::empty(),
            pallet.payload_numbers@ == Map::<u64, (u32, bool)>::empty(),
            pallet.offchain_index@ == Map::<Seq<u8>, IndexingData>::empty(),
            pallet.settled(),
            pallet.numbers.prefix() == item_prefix(name@, "Numbers".spec_bytes()),
            pallet.block_keys.prefix() == item_prefix(name@, "BlockKeys".spec_bytes()),
            pallet.payload_numbers.prefix() == item_prefix(name@, "PayloadNumbers".spec_bytes()),
            pallet.offchain_index.prefix() == item_prefix(name@, "OffchainIndex".spec_bytes()),
    {
        Pallet {
            numbers: StorageValue::new(name, "Numbers".as_bytes()),
            block_keys: TypedMap::new(name, "BlockKeys".as_bytes()),
            payload_numbers: TypedMap::new(name, "PayloadNumbers".as_bytes()),
            offchain_index: StorageMap::new(name, "OffchainIndex".as_bytes()),
        }
    }

    /// The number stored last.
    pub fn numbers(&self) -> (number: Option<u128>)
        ensures
            number == self.numbers@,
    {
        match self.numbers.get() {
            Some(n) => Some(*n),
            None => None,
        }
    }

    /// The key kept of the block `n`.
    pub fn block_keys(&self, n: BlockNumber) -> (key: Option<&BoundedVec>)
        ensures
            key is Some == self.block_keys@.contains_key(n),
            key is Some ==> *key->Some_0 == self.block_keys@[n],
    {
        self.block_keys.get(n)
    }

    /// The price handed in at `timestamp`.
    pub fn payload_numbers(&self, timestamp: u64) -> (entry: Option<(u32, bool)>)
        ensures
            entry is Some == self.payload_numbers@.contains_key(timestamp),
            entry is Some ==> entry->Some_0 == self.payload_numbers@[timestamp],
    {
        match self.payload_numbers.get(timestamp) {
            Some(entry) => Some(*entry),
            None => None,
        }
    }

    /// The key of the indexing data of the block `n`: `ocwx-key-` and the
    /// number of the block.
    pub fn derive_block_number_to_key(n: BlockNumber) -> (key: Vec<u8>)
        ensures
            key@ == block_key(n),
    {
        let encoded = encode_u64(n);
        let mut key = copy_bytes(ONCHAIN_TX_KEY.as_slice());
        append_bytes(&mut key, encoded.as_slice());
        key
    }

    /// Whether a scope is open on everything that the module stores.
    pub open spec fn in_transaction(&self) -> bool {
        &&& self.numbers.in_transaction()
        &&& self.block_keys.in_transaction()
        &&& self.payload_numbers.in_transaction()
        &&& self.offchain_index.in_transaction()
    }

    /// Whether no scope is open on anything that the module stores.
    pub open spec fn settled(&self) -> bool {
        &&& !self.numbers.in_transaction()
        &&& !self.block_keys.in_transaction()
        &&& !self.payload_numbers.in_transaction()
        &&& !self.offchain_index.in_transaction()
    }

    /// What the module goes back to when the open scope is undone.
    pub open spec fn savepoint(&self) -> Stored {
        Stored {
            numbers: self.numbers.saved(),
            block_keys: self.block_keys.saved(),
            payload_numbers: self.payload_numbers.saved(),
            offchain_index: self.offchain_index.saved(),
        }
    }

    /// Opens a scope on everything that the module stores.
    pub fn begin_transaction(&mut self)
        ensures
            final(self)@ == old(self)@,
            final(self).savepoint() == old(self)@,
            final(self).in_transaction(),
    {
        self.numbers.begin_transaction();
        self.block_keys.begin_transaction();
        self.payload_numbers.begin_transaction();
        self.offchain_index.begin_transaction();
    }

    /// Keeps what was written in the open scope and closes it.
    pub fn commit_transaction(&mut self)
        ensures
            final(self)@ == old(self)@,
            final(self).settled(),
    {
        self.numbers.commit_transaction();
        self.block_keys.commit_transaction();
        self.payload_numbers.commit_transaction();
        self.offchain_index.commit_transaction();
    }

    /// Undoes what was written in the open scope and closes it.
    pub fn rollback_transaction(&mut self)
        ensures
            final(self)@ == old(self).savepoint(),
            final(self).settled(),
    {
        self.numbers.rollback_transaction();
        self.block_keys.rollback_transaction();
        self.payload_numbers.rollback_transaction();
        self.offchain_index.rollback_transaction();
    }

    /// Stores `number` for the caller: it becomes the number stored last,
    /// it is handed to the node for indexing under the key of the block,
    /// and the key is kept.
    pub fn storage_number(&mut self, sys: &mut System, origin: RawOrigin, number: u128) -> (r: Result<
        (),
        DispatchError<Error>,
    >)
        ensures
            r == match origin {
                RawOrigin::Signed(_) => Ok::<(), DispatchError<Error>>(()),
                _ => Err(DispatchError::BadOrigin),
            },
            final(sys).block_number == old(sys).block_number,
            final(sys).extrinsic_index == old(sys).extrinsic_index,
            final(sys).random_seed == old(sys).random_seed,
            r is Err ==> same_stored(*old(self), *final(self)) && final(sys).events@
                == old(sys).events@,
            r is Ok ==> {
                let now = old(sys).block_number;
                &&& number_stored(*old(self), *final(self), number, now)
                &&& final(sys).events@ == old(sys).events@.push(
                    RuntimeEvent::Ocwx(
                        Event::NumberStored { number, who: origin->Signed_0, block_number: now },
                    ),
                )
            },
            final(self).settled(),
            !final(sys).events.in_transaction(),
    {
        self.begin_transaction();
        sys.events.begin_transaction();
        let r = self.do_storage_number(sys, origin, number);
        if r.is_ok() {
            self.commit_transaction();
            sys.events.commit_transaction();
        } else {
            self.rollback_transaction();
            sys.events.rollback_transaction();
        }
        r
    }

    /// The steps of `storage_number`, in a scope that the caller has opened and
    /// ends.
    fn do_storage_number(&mut self, sys: &mut System, origin: RawOrigin, number: u128) -> (r: Result<
        (),
        DispatchError<Error>,
    >)
        requires
            old(self).in_transaction(),
            old(sys).events.in_transaction(),
        ensures
            r == match origin {
                RawOrigin::Signed(_) => Ok::<(), DispatchError<Error>>(()),
                _ => Err(DispatchError::BadOrigin),
            },
            final(sys).block_number == old(sys).block_number,
            final(sys).extrinsic_index == old(sys).extrinsic_index,
            final(sys).random_seed == old(sys).random_seed,
            r is Ok ==> {
                let now = old(sys).block_number;
                &&& number_stored(*old(self), *final(self), number, now)
                &&& final(sys).events@ == old(sys).events@.push(
                    RuntimeEvent::Ocwx(
                        Event::NumberStored { number, who: origin->Signed_0, block_number: now },
                    ),
                )
            },
            final(self).in_transaction(),
            final(self).savepoint() == old(self).savepoint(),
            final(sys).events.in_transaction(),
            final(sys).events.saved() == old(sys).events.saved(),
    {
        let who = match ensure_signed(origin) {
            Ok(who) => who,
            Err(_) => {
                return Err(DispatchError::BadOrigin);
            },
        };
        let block_number = sys.block_number();
        let key = Self::derive_block_number_to_key(block_number);
        self.numbers.put(number);
        sys.deposit_event(RuntimeEvent::Ocwx(Event::NumberStored { number, who, block_number }));
        let data = IndexingData(number, copy_bytes(INDEXING_DATA.as_slice()));
        self.offchain_index.insert(key.as_slice(), data);
        proof {
            lemma_auto_spec_u64_to_from_le_bytes();
            assert(spec_u64_to_le_bytes(block_number).len() == 8);
            assert(key@.len() == 17);
            let before = old(self).offchain_index@;
            assert(self.offchain_index@.remove(block_key(block_number)) =~= before.remove(
                block_key(block_number),
            ));
        }
        let bk = BoundedVec::truncate_from(key, BLOCK_KEY_BOUND);
        self.block_keys.insert(block_number, bk);
        proof {
            let before = old(self).block_keys@;
            assert(self.block_keys@.remove(block_number) =~= before.remove(block_number));
        }
        Ok(())
    }

    /// Stores the price of a payload under the time at which the worker
    /// handed it in. Only the unsigned origin may call.
    pub fn submit_price_unsigned_with_signed_payload(
        &mut self,
        origin: RawOrigin,
        timestamp: u64,
        payload: Payload,
        _signature: crypto::Signature,
    ) -> (r: Result<(), DispatchError<Error>>)
        ensures
            r == match origin {
                RawOrigin::Unsigned => Ok::<(), DispatchError<Error>>(()),
                _ => Err(DispatchError::BadOrigin),
            },
            final(self).numbers@ == old(self).numbers@,
            final(self).block_keys@ == old(self).block_keys@,
            final(self).offchain_index@ == old(self).offchain_index@,
            r is Err ==> final(self).payload_numbers@ == old(self).payload_numbers@,
            r is Ok ==> final(self).payload_numbers@ == old(self).payload_numbers@.insert(
                timestamp,
                (payload.number, true),
            ),
            final(self).settled(),
    {
        self.begin_transaction();
        let r = self.do_submit_price_unsigned_with_signed_payload(origin, timestamp, payload, _signature);
        if r.is_ok() {
            self.commit_transaction();
        } else {
            self.rollback_transaction();
        }
        r
    }

    /// The steps of `submit_price_unsigned_with_signed_payload`, in a scope
    /// that the caller has opened and ends.
    fn do_submit_price_unsigned_with_signed_payload(
        &mut self,
        origin: RawOrigin,
        timestamp: u64,
        payload: Payload,
        _signature: crypto::Signature,
    ) -> (r: Result<(), DispatchError<Error>>)
        requires
            old(self).in_transaction(),
        ensures
            r == match origin {
                RawOrigin::Unsigned => Ok::<(), DispatchError<Error>>(()),
                _ => Err(DispatchError::BadOrigin),
            },
            final(self).numbers@ == old(self).numbers@,
            final(self).block_keys@ == old(self).block_keys@,
            final(self).offchain_index@ == old(self).offchain_index@,
            r is Ok ==> final(self).payload_numbers@ == old(self).payload_numbers@.insert(
                timestamp,
                (payload.number, true),
            ),
            final(self).in_transaction(),
            final(self).savepoint() == old(self).savepoint(),
    {
        match ensure_none(origin) {
            Ok(_) => {},
            Err(_) => {
                return Err(DispatchError::BadOrigin);
            },
        }
        self.payload_numbers.insert(timestamp, (payload.number, true));
        Ok(())
    }

    /// Takes a price without a signature and stores nothing. Only the
    /// unsigned origin may call.
    pub fn submit_price_unsigned(&self, origin: RawOrigin, _block_number: BlockNumber, _price: u32) -> (r:
        Result<(), DispatchError<Error>>)
        ensures
            r == match origin {
                RawOrigin::Unsigned => Ok::<(), DispatchError<Error>>(()),
                _ => Err(DispatchError::BadOrigin),
            },
    {
        match ensure_none(origin) {
            Ok(_) => Ok(()),
            Err(_) => Err(DispatchError::BadOrigin),
        }
    }

    /// What the pool is told of a command that is admitted.
    pub fn validate_transaction_parameters(_block_number: &BlockNumber, _new_price: &u32) -> (r:
        TransactionValidity)
        ensures
            r is Ok,
            accepted(r->Ok_0),
    {
        Ok(build_validity(TAG_PREFIX, TX_LONGEVITY, true))
    }

    /// Admits a command that carries a signed payload where the signature
    /// has been found good, and refuses it as badly proved where not.
    pub fn admit_signed_payload(signature_valid: bool, payload: &Payload) -> (r: TransactionValidity)
        ensures
            !signature_valid ==> r == Err::<ValidTransaction, InvalidTransaction>(
                InvalidTransaction::BadProof,
            ),
            signature_valid ==> r is Ok && accepted(r->Ok_0),
    {
        if !signature_valid {
            return Err(InvalidTransaction::BadProof);
        }
        Self::validate_transaction_parameters(&payload.block_number, &payload.number)
    }

    /// Tells whether a command may come unsigned. One that carries a signed
    /// payload is admitted exactly where the signature signs the payload
    /// under the public key in it; one that hands in a price without a
    /// signature is admitted always; any other is refused.
    pub fn validate_unsigned(call: &Call) -> (r: TransactionValidity)
        ensures
            match *call {
                Call::submit_price_unsigned_with_signed_payload { timestamp, payload, signature } => {
                    if signature_good(payload, signature) {
                        r is Ok && accepted(r->Ok_0)
                    } else {
                        r == Err::<ValidTransaction, InvalidTransaction>(
                            InvalidTransaction::BadProof,
                        )
                    }
                },
                Call::submit_price_unsigned { block_number, price } => r is Ok && accepted(r->Ok_0),
                Call::storage_number { number } => r == Err::<ValidTransaction, InvalidTransaction>(
                    InvalidTransaction::Call,
                ),
            },
    {
        match call {
            Call::submit_price_unsigned_with_signed_payload { timestamp, payload, signature } => {
                let message = payload.encode();
                let signature_valid = crypto::AuthId::verify(
                    message.as_slice(),
                    &payload.public(),
                    signature,
                );
                Self::admit_signed_payload(signature_valid, payload)
            },
            Call::submit_price_unsigned { block_number, price } => {
                Self::validate_transaction_parameters(block_number, price)
            },
            _ => Err(InvalidTransaction::Call),
        }
    }

    /// What the worker has to do for the block `n` once the request for the
    /// price has ended: nothing where there is no price; else to sign the
    /// price, its public key and the block with a local account, if there
    /// is one.
    pub fn call_fetch_price(
        n: BlockNumber,
        outcome: &price::HttpOutcome,
        account: Option<crypto::Public>,
    ) -> (step: WorkerStep)
        ensures
            step == match price::fetched_price(*outcome) {
                Err(_) => WorkerStep::Stop,
                Ok(number) => match account {
                    None => WorkerStep::NoLocalAccount,
                    Some(public) => WorkerStep::Sign(Payload { number, public, block_number: n }),
                },
            },
    {
        match price::fetch_price(outcome) {
            Ok(number) => match account {
                Some(public) => WorkerStep::Sign(Payload { number, public, block_number: n }),
                None => WorkerStep::NoLocalAccount,
            },
            Err(_) => WorkerStep::Stop,
        }
    }

    /// The command that hands in a signed payload.
    pub fn signed_payload_call(timestamp: u64, payload: Payload, signature: crypto::Signature) -> (call:
        Call)
        ensures
            call == (Call::submit_price_unsigned_with_signed_payload {
                timestamp,
                payload,
                signature,
            }),
    {
        Call::submit_price_unsigned_with_signed_payload { timestamp, payload, signature }
    }

    /// Runs a command. A command that is refused changes nothing.
    pub fn dispatch(&mut self, sys: &mut System, origin: RawOrigin, call: Call) -> (r: Result<
        (),
        DispatchError<Error>,
    >)
        ensures
            r == call_outcome(origin, call),
            final(sys).block_number == old(sys).block_number,
            final(sys).extrinsic_index == old(sys).extrinsic_index,
            final(sys).random_seed == old(sys).random_seed,
            r is Err ==> same_stored(*old(self), *final(self)) && final(sys).events@
                == old(sys).events@,
            r is Ok ==> match call {
                Call::storage_number { number } => {
                    let now = old(sys).block_number;
                    &&& number_stored(*old(self), *final(self), number, now)
                    &&& final(sys).events@ == old(sys).events@.push(
                        RuntimeEvent::Ocwx(
                            Event::NumberStored { number, who: origin->Signed_0, block_number: now },
                        ),
                    )
                },
                Call::submit_price_unsigned_with_signed_payload { timestamp, payload, signature } => {
                    &&& final(self).numbers@ == old(self).numbers@
                    &&& final(self).block_keys@ == old(self).block_keys@
                    &&& final(self).offchain_index@ == old(self).offchain_index@
                    &&& final(self).payload_numbers@ == old(self).payload_numbers@.insert(
                        timestamp,
                        (payload.number, true),
                    )
                    &&& final(sys).events@ == old(sys).events@
                },
                Call::submit_price_unsigned { .. } => {
                    &&& same_stored(*old(self), *final(self))
                    &&& final(sys).events@ == old(sys).events@
                },
            },
    {
        match call {
            Call::storage_number { number } => self.storage_number(sys, origin, number),
            Call::submit_price_unsigned_with_signed_payload { timestamp, payload, signature } => {
                self.submit_price_unsigned_with_signed_payload(origin, timestamp, payload, signature)
            },
            Call::submit_price_unsigned { block_number, price } => {
                self.submit_price_unsigned(origin, block_number, price)
            },
        }
    }
}

impl Call {
    /// The number by which the command is known in a transaction.
    pub open spec fn number(&self) -> u8 {
        match self {
            Call::storage_number { .. } => 0u8,
            Call::submit_price_unsigned_with_signed_payload { .. } => 1u8,
            Call::submit_price_unsigned { .. } => 2u8,
        }
    }

    /// The number by which the command is known in a transaction.
    pub fn index(&self) -> (i: u8)
        ensures
            i == self.number(),
    {
        match self {
            Call::storage_number { .. } => 0,
            Call::submit_price_unsigned_with_signed_payload { .. } => 1,
            Call::submit_price_unsigned { .. } => 2,
        }
    }
}

} // verus!
