//! The runtime: the modules side by side, and the dispatcher that hands
//! each command to the module it names.
//!
//! A command runs as a whole or not at all: one that is refused leaves what
//! the modules store, the balances and the events of the block as they
//! were.

use crate::balances::Balances;
use crate::system::{
    one_more, AccountId, Balance, BlockNumber, DispatchError, RawOrigin, RuntimeEvent, System,
};
use crate::{kittiesx, ocwx, poe, poex};
use vstd::prelude::*;

verus! {

/// A command of any module.
#[derive(Clone, Debug, PartialEq, Eq)]
pub enum RuntimeCall {
    Poe(poe::Call),
    Poex(poex::Call),
    Kittiesx(kittiesx::Call),
    Ocwx(ocwx::Call),
}

/// A refusal by any module.
#[derive(Clone, Copy, Debug, PartialEq, Eq)]
pub enum ModuleError {
    Poe(poe::Error),
    Poex(poex::Error),
    Kittiesx(kittiesx::Error),
    Ocwx(ocwx::Error),
}

/// How a command ends.
pub type DispatchResult = Result<(), DispatchError<ModuleError>>;

/// The result of a command of the claims module, as one of the runtime.
pub open spec fn from_poe(r: Result<(), DispatchError<poe::Error>>) -> DispatchResult {
    match r {
        Ok(_) => Ok(()),
        Err(DispatchError::BadOrigin) => Err(DispatchError::BadOrigin),
        Err(DispatchError::Module(e)) => Err(DispatchError::Module(ModuleError::Poe(e))),
        Err(DispatchError::Token(e)) => Err(DispatchError::Token(e)),
    }
}

/// The result of a command of the module of bounded claims, as one of the
/// runtime.
pub open spec fn from_poex(r: Result<(), DispatchError<poex::Error>>) -> DispatchResult {
    match r {
        Ok(_) => Ok(()),
        Err(DispatchError::BadOrigin) => Err(DispatchError::BadOrigin),
        Err(DispatchError::Module(e)) => Err(DispatchError::Module(ModuleError::Poex(e))),
        Err(DispatchError::Token(e)) => Err(DispatchError::Token(e)),
    }
}

/// The result of a command of the asset module, as one of the runtime.
pub open spec fn from_kittiesx(r: Result<(), DispatchError<kittiesx::Error>>) -> DispatchResult {
    match r {
        Ok(_) => Ok(()),
        Err(DispatchError::BadOrigin) => Err(DispatchError::BadOrigin),
        Err(DispatchError::Module(e)) => Err(DispatchError::Module(ModuleError::Kittiesx(e))),
        Err(DispatchError::Token(e)) => Err(DispatchError::Token(e)),
    }
}

/// The result of a command of the price feed, as one of the runtime.
pub open spec fn from_ocwx(r: Result<(), DispatchError<ocwx::Error>>) -> DispatchResult {
    match r {
        Ok(_) => Ok(()),
        Err(DispatchError::BadOrigin) => Err(DispatchError::BadOrigin),
        Err(DispatchError::Module(e)) => Err(DispatchError::Module(ModuleError::Ocwx(e))),
        Err(DispatchError::Token(e)) => Err(DispatchError::Token(e)),
    }
}

/// The modules, the balances they pay in, and what they share of the block
/// being built.
pub struct Runtime {
    pub system: System,
    pub balances: Balances,
    pub poe: poe::Pallet,
    pub poex: poex::Pallet,
    pub kittiesx: kittiesx::Pallet,
    pub ocwx: ocwx::Pallet,
}

/// How the runtime is set up.
#[derive(Clone, Copy, Debug, PartialEq, Eq)]
pub struct Config {
    /// The least that an account kept alive may hold.
    pub existential_deposit: Balance,
    /// The greatest length of a claimed byte string.
    pub max_claim_length: u32,
    /// What the creation of an asset costs.
    pub create_price: Balance,
    /// The identifier from which the asset module's account is derived.
    pub pallet_id: [u8; 8],
}

impl Runtime {
    /// The claims module holds in `after` what it holds in `self`.
    pub open spec fn same_poe(&self, after: &Runtime) -> bool {
        after.poe@ == self.poe@ && after.poe.max_length == self.poe.max_length
    }

    /// The module of bounded claims holds in `after` what it holds in
    /// `self`.
    pub open spec fn same_poex(&self, after: &Runtime) -> bool {
        after.poex@ == self.poex@ && after.poex.max_claim_length == self.poex.max_claim_length
    }

    /// The asset module holds in `after` what it holds in `self`.
    pub open spec fn same_kittiesx(&self, after: &Runtime) -> bool {
        &&& after.kittiesx@ == self.kittiesx@
        &&& after.kittiesx.create_price == self.kittiesx.create_price
        &&& after.kittiesx.pallet_id == self.kittiesx.pallet_id
    }

    /// The price feed holds in `after` what it holds in `self`.
    pub open spec fn same_ocwx(&self, after: &Runtime) -> bool {
        ocwx::same_stored(self.ocwx, after.ocwx)
    }

    /// The balances are in `after` what they are in `self`.
    pub open spec fn same_balances(&self, after: &Runtime) -> bool {
        after.balances@ == self.balances@ && after.balances.minimum() == self.balances.minimum()
    }

    /// The block being built is in `after` the one it is in `self`.
    pub open spec fn same_block(&self, after: &Runtime) -> bool {
        &&& after.system.block_number == self.system.block_number
        &&& after.system.extrinsic_index == self.system.extrinsic_index
        &&& after.system.random_seed == self.system.random_seed
    }

    /// Nothing that a command can change differs between `self` and
    /// `after`.
    pub open spec fn untouched(&self, after: &Runtime) -> bool {
        &&& self.same_poe(after)
        &&& self.same_poex(after)
        &&& self.same_kittiesx(after)
        &&& self.same_ocwx(after)
        &&& self.same_balances(after)
        &&& after.system.events@ == self.system.events@
    }

    /// How a command ends.
    pub open spec fn outcome(&self, origin: RawOrigin, call: RuntimeCall) -> DispatchResult {
        match call {
            RuntimeCall::Poe(c) => from_poe(poe::call_outcome(self.poe@, self.poe.max_length, origin, c)),
            RuntimeCall::Poex(c) => from_poex(
                poex::call_outcome(self.poex@, self.poex.max_claim_length, origin, c),
            ),
            RuntimeCall::Kittiesx(c) => from_kittiesx(
                kittiesx::call_outcome(self.kittiesx.setting(&self.system, &self.balances), origin, c),
            ),
            RuntimeCall::Ocwx(c) => from_ocwx(ocwx::call_outcome(origin, c)),
        }
    }

    /// What a command of `who` that went through has done: `after` is
    /// `self` with the command's effect on its module, on the balances and
    /// on the events, and with nothing else changed.
    pub open spec fn applied(&self, after: &Runtime, who: AccountId, call: RuntimeCall) -> bool {
        let now = self.system.block_number;
        match call {
            RuntimeCall::Poe(c) => {
                &&& after.poe.max_length == self.poe.max_length
                &&& after.poe@ == poe::call_effect(self.poe@, who, now, c)
                &&& one_more(self.system.events@, after.system.events@)
                &&& poe::call_reported(after.system.events@.last(), who, c)
                &&& self.same_poex(after)
                &&& self.same_kittiesx(after)
                &&& self.same_ocwx(after)
                &&& self.same_balances(after)
            },
            RuntimeCall::Poex(c) => {
                &&& after.poex.max_claim_length == self.poex.max_claim_length
                &&& after.poex@ == poex::call_effect(self.poex@, who, now, c)
                &&& one_more(self.system.events@, after.system.events@)
                &&& poex::call_reported(after.system.events@.last(), who, c)
                &&& self.same_poe(after)
                &&& self.same_kittiesx(after)
                &&& self.same_ocwx(after)
                &&& self.same_balances(after)
            },
            RuntimeCall::Kittiesx(c) => {
                let at = self.kittiesx.setting(&self.system, &self.balances);
                &&& after.kittiesx.create_price == self.kittiesx.create_price
                &&& after.kittiesx.pallet_id == self.kittiesx.pallet_id
                &&& after.kittiesx@ == kittiesx::call_effect(at, who, c)
                &&& after.balances@ == kittiesx::call_payment(at, who, c)
                &&& after.balances.minimum() == self.balances.minimum()
                &&& after.system.events@ == self.system.events@.push(
                    RuntimeEvent::Kittiesx(kittiesx::call_event(at, who, c)),
                )
                &&& self.same_poe(after)
                &&& self.same_poex(after)
                &&& self.same_ocwx(after)
            },
            RuntimeCall::Ocwx(c) => {
                &&& match c {
                    ocwx::Call::storage_number { number } => {
                        &&& ocwx::number_stored(self.ocwx, after.ocwx, number, now)
                        &&& after.system.events@ == self.system.events@.push(
                            RuntimeEvent::Ocwx(
                                ocwx::Event::NumberStored { number, who, block_number: now },
                            ),
                        )
                    },
                    ocwx::Call::submit_price_unsigned_with_signed_payload {
                        timestamp,
                        payload,
                        signature,
                    } => {
                        &&& after.ocwx.numbers@ == self.ocwx.numbers@
                        &&& after.ocwx.block_keys@ == self.ocwx.block_keys@
                        &&& after.ocwx.offchain_index@ == self.ocwx.offchain_index@
                        &&& after.ocwx.payload_numbers@ == self.ocwx.payload_numbers@.insert(
                            timestamp,
                            (payload.number, true),
                        )
                        &&& after.system.events@ == self.system.events@
                    },
                    ocwx::Call::submit_price_unsigned { .. } => {
                        &&& self.same_ocwx(after)
                        &&& after.system.events@ == self.system.events@
                    },
                }
                &&& self.same_poe(after)
                &&& self.same_poex(after)
                &&& self.same_kittiesx(after)
                &&& self.same_balances(after)
            },
        }
    }

    /// A runtime in which no module stores anything, no account holds
    /// anything, and no block has been built.
    pub fn new(config: Config) -> (runtime: Self)
        ensures
            runtime.system.block_number == 0,
            runtime.system.events@ == Seq::<RuntimeEvent>::empty(),
            runtime.balances@ == Map::<AccountId, Balance>::empty(),
            runtime.balances.minimum() == config.existential_deposit,
            runtime.poe.max_length == config.max_claim_length,
            runtime.poe@ == Map::<Seq<u8>, (AccountId, BlockNumber)>::empty(),
            runtime.poex.max_claim_length == config.max_claim_length,
            runtime.poex@ == Map::<Seq<u8>, (AccountId, BlockNumber)>::empty(),
            runtime.kittiesx.create_price == config.create_price,
            runtime.kittiesx.pallet_id == config.pallet_id,
            runtime.kittiesx@.current(),
            runtime.kittiesx@.consistent(),
            runtime.kittiesx@.next_id == 0,
    {
        Runtime {
            system: System::new(),
            balances: Balances::new(config.existential_deposit),
            poe: poe::Pallet::new(
                "PoeModule".as_bytes(),
                poe::Config { max_length: config.max_claim_length },
            ),
            poex: poex::Pallet::new(
                "PoexModule".as_bytes(),
                poex::Config { max_claim_length: config.max_claim_length },
            ),
            kittiesx: kittiesx::Pallet::new(
                "KittiesxModule".as_bytes(),
                kittiesx::Config { create_price: config.create_price, pallet_id: config.pallet_id },
            ),
            ocwx: ocwx::Pallet::new("OcwxModule".as_bytes()),
        }
    }

    /// Starts the block `number` with the seed `seed`. The events of the
    /// block before are gone, and assets stored in an older layout are
    /// brought into the current one.
    pub fn initialize_block(&mut self, number: BlockNumber, seed: [u8; 32])
        ensures
            final(self).system.block_number == number,
            final(self).system.random_seed == seed,
            final(self).system.extrinsic_index is None,
            final(self).system.events@ == Seq::<RuntimeEvent>::empty(),
            final(self).kittiesx@ == kittiesx::migrated(old(self).kittiesx@),
            final(self).kittiesx.create_price == old(self).kittiesx.create_price,
            final(self).kittiesx.pallet_id == old(self).kittiesx.pallet_id,
            old(self).same_poe(final(self)),
            old(self).same_poex(final(self)),
            old(self).same_ocwx(final(self)),
            old(self).same_balances(final(self)),
    {
        self.system.initialize_block(number, seed);
        let _w = self.kittiesx.on_runtime_upgrade();
    }

    /// Runs the command as the one with the index `index` in the block.
    pub fn apply_extrinsic(&mut self, index: u32, origin: RawOrigin, call: RuntimeCall) -> (r:
        DispatchResult)
        ensures
            ({
                let start = Runtime {
                    system: System { extrinsic_index: Some(index), ..old(self).system },
                    ..*old(self)
                };
                &&& r == start.outcome(origin, call)
                &&& r is Err ==> start.untouched(final(self))
                &&& r is Ok ==> origin is Signed || origin is Unsigned
                &&& r is Ok ==> start.applied(
                    final(self),
                    match origin {
                        RawOrigin::Signed(who) => who,
                        _ => 0,
                    },
                    call,
                )
            }),
            final(self).system.block_number == old(self).system.block_number,
            final(self).system.random_seed == old(self).system.random_seed,
            final(self).system.extrinsic_index is None,
    {
        self.system.extrinsic_index = Some(index);
        let r = self.dispatch(origin, call);
        self.system.extrinsic_index = None;
        r
    }

    /// Hands the command to the module it names. A command that is refused
    /// changes nothing; one that goes through changes only what the
    /// command is about.
    pub fn dispatch(&mut self, origin: RawOrigin, call: RuntimeCall) -> (r: DispatchResult)
        ensures
            r == old(self).outcome(origin, call),
            old(self).same_block(final(self)),
            r is Err ==> old(self).untouched(final(self)),
            r is Ok ==> origin is Signed || origin is Unsigned,
            r is Ok ==> old(self).applied(
                final(self),
                match origin {
                    RawOrigin::Signed(who) => who,
                    _ => 0,
                },
                call,
            ),
            old(self).kittiesx@.consistent() ==> final(self).kittiesx@.consistent(),
    {
        match call {
            RuntimeCall::Poe(c) => match self.poe.dispatch(&mut self.system, origin, c) {
                Ok(_) => Ok(()),
                Err(DispatchError::BadOrigin) => Err(DispatchError::BadOrigin),
                Err(DispatchError::Module(e)) => Err(DispatchError::Module(ModuleError::Poe(e))),
                Err(DispatchError::Token(e)) => Err(DispatchError::Token(e)),
            },
            RuntimeCall::Poex(c) => match self.poex.dispatch(&mut self.system, origin, c) {
                Ok(_) => Ok(()),
                Err(DispatchError::BadOrigin) => Err(DispatchError::BadOrigin),
                Err(DispatchError::Module(e)) => Err(DispatchError::Module(ModuleError::Poex(e))),
                Err(DispatchError::Token(e)) => Err(DispatchError::Token(e)),
            },
            RuntimeCall::Kittiesx(c) => match self.kittiesx.dispatch(
                &mut self.system,
                &mut self.balances,
                origin,
                c,
            ) {
                Ok(_) => Ok(()),
                Err(DispatchError::BadOrigin) => Err(DispatchError::BadOrigin),
                Err(DispatchError::Module(e)) => Err(DispatchError::Module(ModuleError::Kittiesx(e))),
                Err(DispatchError::Token(e)) => Err(DispatchError::Token(e)),
            },
            RuntimeCall::Ocwx(c) => match self.ocwx.dispatch(&mut self.system, origin, c) {
                Ok(_) => Ok(()),
                Err(DispatchError::BadOrigin) => Err(DispatchError::BadOrigin),
                Err(DispatchError::Module(e)) => Err(DispatchError::Module(ModuleError::Ocwx(e))),
                Err(DispatchError::Token(e)) => Err(DispatchError::Token(e)),
            },
        }
    }

    /// Tells whether a command may come unsigned: only the price feed takes
    /// such commands.
    pub fn validate_unsigned(call: &RuntimeCall) -> (r: ocwx::TransactionValidity)
        ensures
            match *call {
                RuntimeCall::Ocwx(c) => match c {
                    ocwx::Call::submit_price_unsigned_with_signed_payload {
                        timestamp,
                        payload,
                        signature,
                    } => {
                        if ocwx::signature_good(payload, signature) {
                            r is Ok && ocwx::accepted(r->Ok_0)
                        } else {
                            r == Err::<ocwx::ValidTransaction, ocwx::InvalidTransaction>(
                                ocwx::InvalidTransaction::BadProof,
                            )
                        }
                    },
                    ocwx::Call::submit_price_unsigned { .. } => r is Ok && ocwx::accepted(r->Ok_0),
                    ocwx::Call::storage_number { .. } => r == Err::<
                        ocwx::ValidTransaction,
                        ocwx::InvalidTransaction,
                    >(ocwx::InvalidTransaction::Call),
                },
                _ => r == Err::<ocwx::ValidTransaction, ocwx::InvalidTransaction>(
                    ocwx::InvalidTransaction::Call,
                ),
            },
    {
        match call {
            RuntimeCall::Ocwx(c) => ocwx::Pallet::validate_unsigned(c),
            _ => Err(ocwx::InvalidTransaction::Call),
        }
    }
}

impl RuntimeCall {
    /// The numbers by which the command is known in a transaction: that of
    /// its module, then its own.
    pub fn index(&self) -> (i: (u8, u8))
        ensures
            i == match self {
                RuntimeCall::Poe(c) => (0u8, c.number()),
                RuntimeCall::Poex(c) => (1u8, c.number()),
                RuntimeCall::Kittiesx(c) => (2u8, c.number()),
                RuntimeCall::Ocwx(c) => (3u8, c.number()),
            },
    {
        match self {
            RuntimeCall::Poe(c) => (0, c.index()),
            RuntimeCall::Poex(c) => (1, c.index()),
            RuntimeCall::Kittiesx(c) => (2, c.index()),
            RuntimeCall::Ocwx(c) => (3, c.index()),
        }
    }
}

} // verus!
