//! Proof of existence over bounded claims: the registry in which an
//! account claims a byte string, gives the claim to another account, or
//! revokes it, with each byte string handed in under a bound of its own.

use crate::bounded::BoundedVec;
use crate::store::{item_prefix, StorageMap};
use crate::system::{
    ensure_signed, one_more, AccountId, BlockNumber, DispatchError, RawOrigin, RuntimeEvent, System,
};
use vstd::prelude::*;
use vstd::string::*;

pub mod weights;

verus! {

/// What the module reports.
#[derive(Clone, Debug, PartialEq, Eq)]
pub enum Event {
    /// The account has claimed the byte string.
    ClaimCreated(AccountId, BoundedVec),
    /// The account has revoked its claim on the byte string.
    ClaimRevoked(AccountId, BoundedVec),
    /// The first account has given its claim on the byte string to the
    /// second.
    ClaimTransfer(AccountId, AccountId, BoundedVec),
}

/// Why the module refuses a command.
#[derive(Clone, Copy, Debug, PartialEq, Eq)]
pub enum Error {
    /// The byte string is claimed already.
    AlreadyExist,
    /// The byte string is longer than a claim may be.
    TooLong,
    /// The byte string is not claimed.
    NotExist,
    /// The caller does not hold the claim.
    ErrorOwner,
    /// The caller cannot give a claim to itself.
    SameOwner,
    /// The recipient is not known. Kept for later use; never returned.
    NoDest,
}

/// The greatest length of a claimed byte string, unless the runtime sets
/// another.
pub const DEFAULT_MAX_LENGTH: u32 = 512;

/// The claims: who holds each claimed byte string, and since which block.
pub type Claims = Map<Seq<u8>, (AccountId, BlockNumber)>;

/// How `create_claim` ends.
pub open spec fn create_outcome(claims: Claims, max_length: u32, origin: RawOrigin, proof: Seq<u8>) -> Result<
    (),
    DispatchError<Error>,
> {
    match origin {
        RawOrigin::Signed(_) => {
            if proof.len() > max_length {
                Err(DispatchError::Module(Error::TooLong))
            } else if claims.contains_key(proof) {
                Err(DispatchError::Module(Error::AlreadyExist))
            } else {
                Ok(())
            }
        },
        _ => Err(DispatchError::BadOrigin),
    }
}

/// How `revoke_claim` ends.
pub open spec fn revoke_outcome(claims: Claims, max_length: u32, origin: RawOrigin, proof: Seq<u8>) -> Result<
    (),
    DispatchError<Error>,
> {
    match origin {
        RawOrigin::Signed(who) => {
            if proof.len() > max_length {
                Err(DispatchError::Module(Error::TooLong))
            } else if !claims.contains_key(proof) {
                Err(DispatchError::Module(Error::NotExist))
            } else if claims[proof].0 != who {
                Err(DispatchError::Module(Error::ErrorOwner))
            } else {
                Ok(())
            }
        },
        _ => Err(DispatchError::BadOrigin),
    }
}

/// How `transfer_claim` ends.
pub open spec fn transfer_outcome(
    claims: Claims,
    max_length: u32,
    origin: RawOrigin,
    dest: AccountId,
    proof: Seq<u8>,
) -> Result<(), DispatchError<Error>> {
    match origin {
        RawOrigin::Signed(who) => {
            if who == dest {
                Err(DispatchError::Module(Error::SameOwner))
            } else if proof.len() > max_length {
                Err(DispatchError::Module(Error::TooLong))
            } else if !claims.contains_key(proof) {
                Err(DispatchError::Module(Error::NotExist))
            } else if claims[proof].0 != who {
                Err(DispatchError::Module(Error::ErrorOwner))
            } else {
                Ok(())
            }
        },
        _ => Err(DispatchError::BadOrigin),
    }
}

/// `event` reports that `who` has claimed `proof`.
pub open spec fn reports_created(event: RuntimeEvent, who: AccountId, proof: Seq<u8>) -> bool {
    event matches RuntimeEvent::Poex(Event::ClaimCreated(w, p)) && w == who && p@ == proof
}

/// `event` reports that `who` has revoked its claim on `proof`.
pub open spec fn reports_revoked(event: RuntimeEvent, who: AccountId, proof: Seq<u8>) -> bool {
    event matches RuntimeEvent::Poex(Event::ClaimRevoked(w, p)) && w == who && p@ == proof
}

/// `event` reports that `who` has given its claim on `proof` to `dest`.
pub open spec fn reports_transfer(
    event: RuntimeEvent,
    who: AccountId,
    dest: AccountId,
    proof: Seq<u8>,
) -> bool {
    event matches RuntimeEvent::Poex(Event::ClaimTransfer(w, d, p)) && w == who && d == dest && p@
        == proof
}

/// How the module is set up.
#[derive(Clone, Copy, Debug, PartialEq, Eq)]
pub struct Config {
    /// The greatest length of a claimed byte string.
    pub max_claim_length: u32,
}

impl Default for Config {
    /// Claims of up to `DEFAULT_MAX_LENGTH` bytes.
    fn default() -> (config: Self)
        ensures
            config.max_claim_length == DEFAULT_MAX_LENGTH,
    {
        Config { max_claim_length: DEFAULT_MAX_LENGTH }
    }
}

/// The module: the longest claim it takes, and the claims it holds.
pub struct Pallet {
    /// The greatest length of a claimed byte string.
    pub max_claim_length: u32,
    /// The claims, by the claimed byte string.
    pub claims: StorageMap<(AccountId, BlockNumber)>,
}

impl View for Pallet {
    type V = Claims;

    open spec fn view(&self) -> Claims {
        self.claims@
    }
}

impl Pallet {
    /// A module that holds no claim yet. `name` is the name under which the
    /// runtime knows the module.
    pub fn new(name: &[u8], config: Config) -> (pallet: Self)
        ensures
            pallet.max_claim_length == config.max_claim_length,
            pallet@ == Map::<Seq<u8>, (AccountId, BlockNumber)>::empty(),
            pallet.settled(),
            pallet.claims.prefix() == item_prefix(name@, "Proofs".spec_bytes()),
    {
        Pallet {
            max_claim_length: config.max_claim_length,
            claims: StorageMap::new(name, "Proofs".as_bytes()),
        }
    }

    /// Who holds the claim on `proof`, and since which block, if it is
    /// claimed.
    pub fn proofs(&self, proof: &[u8]) -> (claim: Option<(AccountId, BlockNumber)>)
        ensures
            claim is Some == self@.contains_key(proof@),
            claim is Some ==> claim->Some_0 == self@[proof@],
    {
        match self.claims.get(proof) {
            Some(claim) => Some(*claim),
            None => None,
        }
    }

    /// Whether a scope is open on the claims.
    pub open spec fn in_transaction(&self) -> bool {
        self.claims.in_transaction()
    }

    /// Whether no scope is open on the claims.
    pub open spec fn settled(&self) -> bool {
        !self.claims.in_transaction()
    }

    /// What the claims go back to when the open scope is undone.
    pub open spec fn savepoint(&self) -> Claims {
        self.claims.saved()
    }

    /// Opens a scope on the claims.
    pub fn begin_transaction(&mut self)
        ensures
            final(self)@ == old(self)@,
            final(self).savepoint() == old(self)@,
            final(self).in_transaction(),
            final(self).max_claim_length == old(self).max_claim_length,
    {
        self.claims.begin_transaction();
    }

    /// Keeps what was written in the open scope and closes it.
    pub fn commit_transaction(&mut self)
        ensures
            final(self)@ == old(self)@,
            final(self).settled(),
            final(self).max_claim_length == old(self).max_claim_length,
    {
        self.claims.commit_transaction();
    }

    /// Undoes what was written in the open scope and closes it.
    pub fn rollback_transaction(&mut self)
        ensures
            final(self)@ == old(self).savepoint(),
            final(self).settled(),
            final(self).max_claim_length == old(self).max_claim_length,
    {
        self.claims.rollback_transaction();
    }

    /// Claims `claim` for the caller, as of the block being built.
    pub fn create_claim(&mut self, sys: &mut System, origin: RawOrigin, claim: BoundedVec) -> (r: Result<
        (),
        DispatchError<Error>,
    >)
        ensures
            r == create_outcome(old(self)@, old(self).max_claim_length, origin, claim@),
            final(self).max_claim_length == old(self).max_claim_length,
            final(sys).block_number == old(sys).block_number,
            final(sys).extrinsic_index == old(sys).extrinsic_index,
            final(sys).random_seed == old(sys).random_seed,
            r is Err ==> final(self)@ == old(self)@ && final(sys).events@ == old(sys).events@,
            r is Ok ==> {
                let who = origin->Signed_0;
                &&& final(self)@ == old(self)@.insert(claim@, (who, old(sys).block_number))
                &&& one_more(old(sys).events@, final(sys).events@)
                &&& reports_created(final(sys).events@.last(), who, claim@)
            },
            final(self).settled(),
            !final(sys).events.in_transaction(),
    {
        self.begin_transaction();
        sys.events.begin_transaction();
        let r = self.do_create_claim(sys, origin, claim);
        if r.is_ok() {
            self.commit_transaction();
            sys.events.commit_transaction();
        } else {
            self.rollback_transaction();
            sys.events.rollback_transaction();
        }
        r
    }

    /// The steps of `create_claim`, in a scope that the caller has opened and
    /// ends.
    fn do_create_claim(&mut self, sys: &mut System, origin: RawOrigin, claim: BoundedVec) -> (r: Result<
        (),
        DispatchError<Error>,
    >)
        requires
            old(self).in_transaction(),
            old(sys).events.in_transaction(),
        ensures
            r == create_outcome(old(self)@, old(self).max_claim_length, origin, claim@),
            final(self).max_claim_length == old(self).max_claim_length,
            final(sys).block_number == old(sys).block_number,
            final(sys).extrinsic_index == old(sys).extrinsic_index,
            final(sys).random_seed == old(sys).random_seed,
            r is Ok ==> {
                let who = origin->Signed_0;
                &&& final(self)@ == old(self)@.insert(claim@, (who, old(sys).block_number))
                &&& one_more(old(sys).events@, final(sys).events@)
                &&& reports_created(final(sys).events@.last(), who, claim@)
            },
            final(self).in_transaction(),
            final(self).savepoint() == old(self).savepoint(),
            final(sys).events.in_transaction(),
            final(sys).events.saved() == old(sys).events.saved(),
    {
        let sender = match ensure_signed(origin) {
            Ok(who) => who,
            Err(_) => {
                return Err(DispatchError::BadOrigin);
            },
        };
        if claim.len() > self.max_claim_length as usize {
            return Err(DispatchError::Module(Error::TooLong));
        }
        if self.claims.contains_key(claim.as_slice()) {
            return Err(DispatchError::Module(Error::AlreadyExist));
        }
        self.claims.insert(claim.as_slice(), (sender, sys.block_number()));
        sys.deposit_event(RuntimeEvent::Poex(Event::ClaimCreated(sender, claim)));
        proof {
            assert(sys.events@.drop_last() =~= old(sys).events@);
        }
        Ok(())
    }

    /// Revokes the caller's claim on `claim`.
    pub fn revoke_claim(&mut self, sys: &mut System, origin: RawOrigin, claim: BoundedVec) -> (r: Result<
        (),
        DispatchError<Error>,
    >)
        ensures
            r == revoke_outcome(old(self)@, old(self).max_claim_length, origin, claim@),
            final(self).max_claim_length == old(self).max_claim_length,
            final(sys).block_number == old(sys).block_number,
            final(sys).extrinsic_index == old(sys).extrinsic_index,
            final(sys).random_seed == old(sys).random_seed,
            r is Err ==> final(self)@ == old(self)@ && final(sys).events@ == old(sys).events@,
            r is Ok ==> {
                &&& final(self)@ == old(self)@.remove(claim@)
                &&& !final(self)@.contains_key(claim@)
                &&& one_more(old(sys).events@, final(sys).events@)
                &&& reports_revoked(final(sys).events@.last(), origin->Signed_0, claim@)
            },
            final(self).settled(),
            !final(sys).events.in_transaction(),
    {
        self.begin_transaction();
        sys.events.begin_transaction();
        let r = self.do_revoke_claim(sys, origin, claim);
        if r.is_ok() {
            self.commit_transaction();
            sys.events.commit_transaction();
        } else {
            self.rollback_transaction();
            sys.events.rollback_transaction();
        }
        r
    }

    /// The steps of `revoke_claim`, in a scope that the caller has opened and
    /// ends.
    fn do_revoke_claim(&mut self, sys: &mut System, origin: RawOrigin, claim: BoundedVec) -> (r: Result<
        (),
        DispatchError<Error>,
    >)
        requires
            old(self).in_transaction(),
            old(sys).events.in_transaction(),
        ensures
            r == revoke_outcome(old(self)@, old(self).max_claim_length, origin, claim@),
            final(self).max_claim_length == old(self).max_claim_length,
            final(sys).block_number == old(sys).block_number,
            final(sys).extrinsic_index == old(sys).extrinsic_index,
            final(sys).random_seed == old(sys).random_seed,
            r is Ok ==> {
                &&& final(self)@ == old(self)@.remove(claim@)
                &&& !final(self)@.contains_key(claim@)
                &&& one_more(old(sys).events@, final(sys).events@)
                &&& reports_revoked(final(sys).events@.last(), origin->Signed_0, claim@)
            },
            final(self).in_transaction(),
            final(self).savepoint() == old(self).savepoint(),
            final(sys).events.in_transaction(),
            final(sys).events.saved() == old(sys).events.saved(),
    {
        let sender = match ensure_signed(origin) {
            Ok(who) => who,
            Err(_) => {
                return Err(DispatchError::BadOrigin);
            },
        };
        if claim.len() > self.max_claim_length as usize {
            return Err(DispatchError::Module(Error::TooLong));
        }
        let owner = match self.claims.get(claim.as_slice()) {
            Some(claim) => claim.0,
            None => {
                return Err(DispatchError::Module(Error::NotExist));
            },
        };
        if owner != sender {
            return Err(DispatchError::Module(Error::ErrorOwner));
        }
        self.claims.remove(claim.as_slice());
        sys.deposit_event(RuntimeEvent::Poex(Event::ClaimRevoked(sender, claim)));
        proof {
            assert(sys.events@.drop_last() =~= old(sys).events@);
        }
        Ok(())
    }

    /// Gives the caller's claim on `claim` to `dest`. The claim then counts
    /// as held since the block being built.
    pub fn transfer_claim(
        &mut self,
        sys: &mut System,
        origin: RawOrigin,
        dest: AccountId,
        claim: BoundedVec,
    ) -> (r: Result<(), DispatchError<Error>>)
        ensures
            r == transfer_outcome(old(self)@, old(self).max_claim_length, origin, dest, claim@),
            final(self).max_claim_length == old(self).max_claim_length,
            final(sys).block_number == old(sys).block_number,
            final(sys).extrinsic_index == old(sys).extrinsic_index,
            final(sys).random_seed == old(sys).random_seed,
            r is Err ==> final(self)@ == old(self)@ && final(sys).events@ == old(sys).events@,
            r is Ok ==> {
                &&& final(self)@ == old(self)@.insert(claim@, (dest, old(sys).block_number))
                &&& one_more(old(sys).events@, final(sys).events@)
                &&& reports_transfer(final(sys).events@.last(), origin->Signed_0, dest, claim@)
            },
            final(self).settled(),
            !final(sys).events.in_transaction(),
    {
        self.begin_transaction();
        sys.events.begin_transaction();
        let r = self.do_transfer_claim(sys, origin, dest, claim);
        if r.is_ok() {
            self.commit_transaction();
            sys.events.commit_transaction();
        } else {
            self.rollback_transaction();
            sys.events.rollback_transaction();
        }
        r
    }

    /// The steps of `transfer_claim`, in a scope that the caller has opened and
    /// ends.
    fn do_transfer_claim(
        &mut self,
        sys: &mut System,
        origin: RawOrigin,
        dest: AccountId,
        claim: BoundedVec,
    ) -> (r: Result<(), DispatchError<Error>>)
        requires
            old(self).in_transaction(),
            old(sys).events.in_transaction(),
        ensures
            r == transfer_outcome(old(self)@, old(self).max_claim_length, origin, dest, claim@),
            final(self).max_claim_length == old(self).max_claim_length,
            final(sys).block_number == old(sys).block_number,
            final(sys).extrinsic_index == old(sys).extrinsic_index,
            final(sys).random_seed == old(sys).random_seed,
            r is Ok ==> {
                &&& final(self)@ == old(self)@.insert(claim@, (dest, old(sys).block_number))
                &&& one_more(old(sys).events@, final(sys).events@)
                &&& reports_transfer(final(sys).events@.last(), origin->Signed_0, dest, claim@)
            },
            final(self).in_transaction(),
            final(self).savepoint() == old(self).savepoint(),
            final(sys).events.in_transaction(),
            final(sys).events.saved() == old(sys).events.saved(),
    {
        let sender = match ensure_signed(origin) {
            Ok(who) => who,
            Err(_) => {
                return Err(DispatchError::BadOrigin);
            },
        };
        if sender == dest {
            return Err(DispatchError::Module(Error::SameOwner));
        }
        if claim.len() > self.max_claim_length as usize {
            return Err(DispatchError::Module(Error::TooLong));
        }
        let owner = match self.claims.get(claim.as_slice()) {
            Some(claim) => claim.0,
            None => {
                return Err(DispatchError::Module(Error::NotExist));
            },
        };
        if owner != sender {
            return Err(DispatchError::Module(Error::ErrorOwner));
        }
        let now = sys.block_number();
        let hand_over = |_held: Option<(AccountId, BlockNumber)>| -> (out: Option<
            (AccountId, BlockNumber),
        >)
            ensures
                out == Some((dest, now)),
            { Some((dest, now)) };
        self.claims.mutate(claim.as_slice(), hand_over);
        sys.deposit_event(RuntimeEvent::Poex(Event::ClaimTransfer(sender, dest, claim)));
        proof {
            assert(sys.events@.drop_last() =~= old(sys).events@);
        }
        Ok(())
    }
}

/// The commands of the module.
#[allow(non_camel_case_types)]
#[derive(Clone, Debug, PartialEq, Eq)]
pub enum Call {
    create_claim { claim: BoundedVec },
    revoke_claim { claim: BoundedVec },
    transfer_claim { dest: AccountId, claim: BoundedVec },
}

impl Call {
    /// The number by which the command is known in a transaction.
    pub open spec fn number(&self) -> u8 {
        match self {
            Call::create_claim { .. } => 0u8,
            Call::revoke_claim { .. } => 1u8,
            Call::transfer_claim { .. } => 2u8,
        }
    }

    /// The number by which the command is known in a transaction.
    pub fn index(&self) -> (i: u8)
        ensures
            i == self.number(),
    {
        match self {
            Call::create_claim { .. } => 0,
            Call::revoke_claim { .. } => 1,
            Call::transfer_claim { .. } => 2,
        }
    }
}

/// How a command ends.
pub open spec fn call_outcome(claims: Claims, max_length: u32, origin: RawOrigin, call: Call) -> Result<
    (),
    DispatchError<Error>,
> {
    match call {
        Call::create_claim { claim } => create_outcome(claims, max_length, origin, claim@),
        Call::revoke_claim { claim } => revoke_outcome(claims, max_length, origin, claim@),
        Call::transfer_claim { dest, claim } => transfer_outcome(
            claims,
            max_length,
            origin,
            dest,
            claim@,
        ),
    }
}

/// The claims after a command of `who` that went through in the block
/// `now`.
pub open spec fn call_effect(claims: Claims, who: AccountId, now: BlockNumber, call: Call) -> Claims {
    match call {
        Call::create_claim { claim } => claims.insert(claim@, (who, now)),
        Call::revoke_claim { claim } => claims.remove(claim@),
        Call::transfer_claim { dest, claim } => claims.insert(claim@, (dest, now)),
    }
}

/// `event` is what a command of `who` that went through reports.
pub open spec fn call_reported(event: RuntimeEvent, who: AccountId, call: Call) -> bool {
    match call {
        Call::create_claim { claim } => reports_created(event, who, claim@),
        Call::revoke_claim { claim } => reports_revoked(event, who, claim@),
        Call::transfer_claim { dest, claim } => reports_transfer(event, who, dest, claim@),
    }
}

impl Pallet {
    /// Runs a command. A command that is refused changes nothing; one that
    /// goes through changes the claims and reports one event.
    pub fn dispatch(&mut self, sys: &mut System, origin: RawOrigin, call: Call) -> (r: Result<
        (),
        DispatchError<Error>,
    >)
        ensures
            r == call_outcome(old(self)@, old(self).max_claim_length, origin, call),
            final(self).max_claim_length == old(self).max_claim_length,
            final(sys).block_number == old(sys).block_number,
            final(sys).extrinsic_index == old(sys).extrinsic_index,
            final(sys).random_seed == old(sys).random_seed,
            r is Err ==> final(self)@ == old(self)@ && final(sys).events@ == old(sys).events@,
            r is Ok ==> {
                let who = origin->Signed_0;
                &&& origin is Signed
                &&& final(self)@ == call_effect(old(self)@, who, old(sys).block_number, call)
                &&& one_more(old(sys).events@, final(sys).events@)
                &&& call_reported(final(sys).events@.last(), who, call)
            },
    {
        match call {
            Call::create_claim { claim } => self.create_claim(sys, origin, claim),
            Call::revoke_claim { claim } => self.revoke_claim(sys, origin, claim),
            Call::transfer_claim { dest, claim } => self.transfer_claim(sys, origin, dest, claim),
        }
    }
}

} // verus!
