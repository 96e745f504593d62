//! Proof of existence: a registry in which an account claims a byte string,
//! gives the claim to another account, or revokes it.

use crate::store::{item_prefix, StorageMap};
use crate::system::{
    ensure_signed, one_more, AccountId, BlockNumber, DispatchError, RawOrigin, RuntimeEvent, System,
};
use vstd::prelude::*;
use vstd::string::*;

verus! {

/// What the module reports.
#[derive(Clone, Debug, PartialEq, Eq)]
pub enum Event {
    /// The account has claimed the byte string.
    Created(AccountId, Vec<u8>),
    /// The account has revoked its claim on the byte string.
    Revoked(AccountId, Vec<u8>),
    /// The first account has given its claim on the byte string to the
    /// second.
    Transfer(AccountId, AccountId, Vec<u8>),
    /// Whether the account is known. Kept for later use; never reported.
    HasDest(AccountId, bool),
}

/// Why the module refuses a command.
#[derive(Clone, Copy, Debug, PartialEq, Eq)]
pub enum Error {
    /// The byte string is claimed already.
    AlreadyExist,
    /// The byte string is longer than a claim may be.
    TooLong,
    /// The byte string is not claimed.
    NotExist,
    /// The caller does not hold the claim.
    ErrorOwner,
    /// The caller cannot give a claim to itself.
    SameOwner,
    /// The recipient is not known. Kept for later use; never returned.
    NoDest,
}

/// The greatest length of a claimed byte string, unless the runtime sets
/// another.
pub const DEFAULT_MAX_LENGTH: u32 = 512;

/// The claims: who holds each claimed byte string, and since which block.
pub type Claims = Map<Seq<u8>, (AccountId, BlockNumber)>;

/// How `create_proof` ends.
pub open spec fn create_outcome(claims: Claims, max_length: u32, origin: RawOrigin, proof: Seq<u8>) -> Result<
    (),
    DispatchError<Error>,
> {
    match origin {
        RawOrigin::Signed(_) => {
            if proof.len() > max_length {
                Err(DispatchError::Module(Error::TooLong))
            } else if claims.contains_key(proof) {
                Err(DispatchError::Module(Error::AlreadyExist))
            } else {
                Ok(())
            }
        },
        _ => Err(DispatchError::BadOrigin),
    }
}

/// How `revoke_proof` ends.
pub open spec fn revoke_outcome(claims: Claims, max_length: u32, origin: RawOrigin, proof: Seq<u8>) -> Result<
    (),
    DispatchError<Error>,
> {
    match origin {
        RawOrigin::Signed(who) => {
            if proof.len() > max_length {
                Err(DispatchError::Module(Error::TooLong))
            } else if !claims.contains_key(proof) {
                Err(DispatchError::Module(Error::NotExist))
            } else if claims[proof].0 != who {
                Err(DispatchError::Module(Error::ErrorOwner))
            } else {
                Ok(())
            }
        },
        _ => Err(DispatchError::BadOrigin),
    }
}

/// How `transfer_proof` ends.
pub open spec fn transfer_outcome(
    claims: Claims,
    max_length: u32,
    origin: RawOrigin,
    dest: AccountId,
    proof: Seq<u8>,
) -> Result<(), DispatchError<Error>> {
    match origin {
        RawOrigin::Signed(who) => {
            if who == dest {
                Err(DispatchError::Module(Error::SameOwner))
            } else if proof.len() > max_length {
                Err(DispatchError::Module(Error::TooLong))
            } else if !claims.contains_key(proof) {
                Err(DispatchError::Module(Error::NotExist))
            } else if claims[proof].0 != who {
                Err(DispatchError::Module(Error::ErrorOwner))
            } else {
                Ok(())
            }
        },
        _ => Err(DispatchError::BadOrigin),
    }
}

/// `event` reports that `who` has claimed `proof`.
pub open spec fn reports_created(event: RuntimeEvent, who: AccountId, proof: Seq<u8>) -> bool {
    event matches RuntimeEvent::Poe(Event::Created(w, p)) && w == who && p@ == proof
}

/// `event` reports that `who` has revoked its claim on `proof`.
pub open spec fn reports_revoked(event: RuntimeEvent, who: AccountId, proof: Seq<u8>) -> bool {
    event matches RuntimeEvent::Poe(Event::Revoked(w, p)) && w == who && p@ == proof
}

/// `event` reports that `who` has given its claim on `proof` to `dest`.
pub open spec fn reports_transfer(
    event: RuntimeEvent,
    who: AccountId,
    dest: AccountId,
    proof: Seq<u8>,
) -> bool {
    event matches RuntimeEvent::Poe(Event::Transfer(w, d, p)) && w == who && d == dest && p@
        == proof
}

/// How the module is set up.
#[derive(Clone, Copy, Debug, PartialEq, Eq)]
pub struct Config {
    /// The greatest length of a claimed byte string.
    pub max_length: u32,
}

impl Default for Config {
    /// Claims of up to `DEFAULT_MAX_LENGTH` bytes.
    fn default() -> (config: Self)
        ensures
            config.max_length == DEFAULT_MAX_LENGTH,
    {
        Config { max_length: DEFAULT_MAX_LENGTH }
    }
}

/// The module: the longest claim it takes, and the claims it holds.
pub struct Pallet {
    /// The greatest length of a claimed byte string.
    pub max_length: u32,
    /// The claims, by the claimed byte string.
    pub proofs: StorageMap<(AccountId, BlockNumber)>,
}

impl View for Pallet {
    type V = Claims;

    open spec fn view(&self) -> Claims {
        self.proofs@
    }
}

impl Pallet {
    /// A module that holds no claim yet. `name` is the name under which the
    /// runtime knows the module.
    pub fn new(name: &[u8], config: Config) -> (pallet: Self)
        ensures
            pallet.max_length == config.max_length,
            pallet@ == Map::<Seq<u8>, (AccountId, BlockNumber)>::empty(),
            pallet.settled(),
            pallet.proofs.prefix() == item_prefix(name@, "Proofs".spec_bytes()),
    {
        Pallet { max_length: config.max_length, proofs: StorageMap::new(name, "Proofs".as_bytes()) }
    }

    /// Who holds the claim on `proof`, and since which block, if it is
    /// claimed.
    pub fn data_smap(&self, proof: &[u8]) -> (claim: Option<(AccountId, BlockNumber)>)
        ensures
            claim is Some == self@.contains_key(proof@),
            claim is Some ==> claim->Some_0 == self@[proof@],
    {
        match self.proofs.get(proof) {
            Some(claim) => Some(*claim),
            None => None,
        }
    }

    /// Whether a scope is open on the claims.
    pub open spec fn in_transaction(&self) -> bool {
        self.proofs.in_transaction()
    }

    /// Whether no scope is open on the claims.
    pub open spec fn settled(&self) -> bool {
        !self.proofs.in_transaction()
    }

    /// What the claims go back to when the open scope is undone.
    pub open spec fn savepoint(&self) -> Claims {
        self.proofs.saved()
    }

    /// Opens a scope on the claims.
    pub fn begin_transaction(&mut self)
        ensures
            final(self)@ == old(self)@,
            final(self).savepoint() == old(self)@,
            final(self).in_transaction(),
            final(self).max_length == old(self).max_length,
    {
        self.proofs.begin_transaction();
    }

    /// Keeps what was written in the open scope and closes it.
    pub fn commit_transaction(&mut self)
        ensures
            final(self)@ == old(self)@,
            final(self).settled(),
            final(self).max_length == old(self).max_length,
    {
        self.proofs.commit_transaction();
    }

    /// Undoes what was written in the open scope and closes it.
    pub fn rollback_transaction(&mut self)
        ensures
            final(self)@ == old(self).savepoint(),
            final(self).settled(),
            final(self).max_length == old(self).max_length,
    {
        self.proofs.rollback_transaction();
    }

    /// Claims `proof` for the caller, as of the block being built.
    pub fn create_proof(&mut self, sys: &mut System, origin: RawOrigin, proof: Vec<u8>) -> (r: Result<
        (),
        DispatchError<Error>,
    >)
        ensures
            r == create_outcome(old(self)@, old(self).max_length, origin, proof@),
            final(self).max_length == old(self).max_length,
            final(sys).block_number == old(sys).block_number,
            final(sys).extrinsic_index == old(sys).extrinsic_index,
            final(sys).random_seed == old(sys).random_seed,
            r is Err ==> final(self)@ == old(self)@ && final(sys).events@ == old(sys).events@,
            r is Ok ==> {
                let who = origin->Signed_0;
                &&& final(self)@ == old(self)@.insert(proof@, (who, old(sys).block_number))
                &&& one_more(old(sys).events@, final(sys).events@)
                &&& reports_created(final(sys).events@.last(), who, proof@)
            },
            final(self).settled(),
            !final(sys).events.in_transaction(),
    {
        self.begin_transaction();
        sys.events.begin_transaction();
        let r = self.do_create_proof(sys, origin, proof);
        if r.is_ok() {
            self.commit_transaction();
            sys.events.commit_transaction();
        } else {
            self.rollback_transaction();
            sys.events.rollback_transaction();
        }
        r
    }

    /// The steps of `create_proof`, in a scope that the caller has opened and
    /// ends.
    fn do_create_proof(&mut self, sys: &mut System, origin: RawOrigin, proof: Vec<u8>) -> (r: Result<
        (),
        DispatchError<Error>,
    >)
        requires
            old(self).in_transaction(),
            old(sys).events.in_transaction(),
        ensures
            r == create_outcome(old(self)@, old(self).max_length, origin, proof@),
            final(self).max_length == old(self).max_length,
            final(sys).block_number == old(sys).block_number,
            final(sys).extrinsic_index == old(sys).extrinsic_index,
            final(sys).random_seed == old(sys).random_seed,
            r is Ok ==> {
                let who = origin->Signed_0;
                &&& final(self)@ == old(self)@.insert(proof@, (who, old(sys).block_number))
                &&& one_more(old(sys).events@, final(sys).events@)
                &&& reports_created(final(sys).events@.last(), who, proof@)
            },
            final(self).in_transaction(),
            final(self).savepoint() == old(self).savepoint(),
            final(sys).events.in_transaction(),
            final(sys).events.saved() == old(sys).events.saved(),
    {
        let sender = match ensure_signed(origin) {
            Ok(who) => who,
            Err(_) => {
                return Err(DispatchError::BadOrigin);
            },
        };
        if proof.len() > self.max_length as usize {
            return Err(DispatchError::Module(Error::TooLong));
        }
        if self.proofs.contains_key(proof.as_slice()) {
            return Err(DispatchError::Module(Error::AlreadyExist));
        }
        self.proofs.insert(proof.as_slice(), (sender, sys.block_number()));
        sys.deposit_event(RuntimeEvent::Poe(Event::Created(sender, proof)));
        proof {
            assert(sys.events@.drop_last() =~= old(sys).events@);
        }
        Ok(())
    }

    /// Revokes the caller's claim on `proof`.
    pub fn revoke_proof(&mut self, sys: &mut System, origin: RawOrigin, proof: Vec<u8>) -> (r: Result<
        (),
        DispatchError<Error>,
    >)
        ensures
            r == revoke_outcome(old(self)@, old(self).max_length, origin, proof@),
            final(self).max_length == old(self).max_length,
            final(sys).block_number == old(sys).block_number,
            final(sys).extrinsic_index == old(sys).extrinsic_index,
            final(sys).random_seed == old(sys).random_seed,
            r is Err ==> final(self)@ == old(self)@ && final(sys).events@ == old(sys).events@,
            r is Ok ==> {
                &&& final(self)@ == old(self)@.remove(proof@)
                &&& !final(self)@.contains_key(proof@)
                &&& one_more(old(sys).events@, final(sys).events@)
                &&& reports_revoked(final(sys).events@.last(), origin->Signed_0, proof@)
            },
            final(self).settled(),
            !final(sys).events.in_transaction(),
    {
        self.begin_transaction();
        sys.events.begin_transaction();
        let r = self.do_revoke_proof(sys, origin, proof);
        if r.is_ok() {
            self.commit_transaction();
            sys.events.commit_transaction();
        } else {
            self.rollback_transaction();
            sys.events.rollback_transaction();
        }
        r
    }

    /// The steps of `revoke_proof`, in a scope that the caller has opened and
    /// ends.
    fn do_revoke_proof(&mut self, sys: &mut System, origin: RawOrigin, proof: Vec<u8>) -> (r: Result<
        (),
        DispatchError<Error>,
    >)
        requires
            old(self).in_transaction(),
            old(sys).events.in_transaction(),
        ensures
            r == revoke_outcome(old(self)@, old(self).max_length, origin, proof@),
            final(self).max_length == old(self).max_length,
            final(sys).block_number == old(sys).block_number,
            final(sys).extrinsic_index == old(sys).extrinsic_index,
            final(sys).random_seed == old(sys).random_seed,
            r is Ok ==> {
                &&& final(self)@ == old(self)@.remove(proof@)
                &&& !final(self)@.contains_key(proof@)
                &&& one_more(old(sys).events@, final(sys).events@)
                &&& reports_revoked(final(sys).events@.last(), origin->Signed_0, proof@)
            },
            final(self).in_transaction(),
            final(self).savepoint() == old(self).savepoint(),
            final(sys).events.in_transaction(),
            final(sys).events.saved() == old(sys).events.saved(),
    {
        let sender = match ensure_signed(origin) {
            Ok(who) => who,
            Err(_) => {
                return Err(DispatchError::BadOrigin);
            },
        };
        if proof.len() > self.max_length as usize {
            return Err(DispatchError::Module(Error::TooLong));
        }
        let owner = match self.proofs.get(proof.as_slice()) {
            Some(claim) => claim.0,
            None => {
                return Err(DispatchError::Module(Error::NotExist));
            },
        };
        if owner != sender {
            return Err(DispatchError::Module(Error::ErrorOwner));
        }
        self.proofs.remove(proof.as_slice());
        sys.deposit_event(RuntimeEvent::Poe(Event::Revoked(sender, proof)));
        proof {
            assert(sys.events@.drop_last() =~= old(sys).events@);
        }
        Ok(())
    }

    /// Gives the caller's claim on `proof` to `dest`. The claim then counts
    /// as held since the block being built.
    pub fn transfer_proof(
        &mut self,
        sys: &mut System,
        origin: RawOrigin,
        dest: AccountId,
        proof: Vec<u8>,
    ) -> (r: Result<(), DispatchError<Error>>)
        ensures
            r == transfer_outcome(old(self)@, old(self).max_length, origin, dest, proof@),
            final(self).max_length == old(self).max_length,
            final(sys).block_number == old(sys).block_number,
            final(sys).extrinsic_index == old(sys).extrinsic_index,
            final(sys).random_seed == old(sys).random_seed,
            r is Err ==> final(self)@ == old(self)@ && final(sys).events@ == old(sys).events@,
            r is Ok ==> {
                &&& final(self)@ == old(self)@.insert(proof@, (dest, old(sys).block_number))
                &&& one_more(old(sys).events@, final(sys).events@)
                &&& reports_transfer(final(sys).events@.last(), origin->Signed_0, dest, proof@)
            },
            final(self).settled(),
            !final(sys).events.in_transaction(),
    {
        self.begin_transaction();
        sys.events.begin_transaction();
        let r = self.do_transfer_proof(sys, origin, dest, proof);
        if r.is_ok() {
            self.commit_transaction();
            sys.events.commit_transaction();
        } else {
            self.rollback_transaction();
            sys.events.rollback_transaction();
        }
        r
    }

    /// The steps of `transfer_proof`, in a scope that the caller has opened and
    /// ends.
    fn do_transfer_proof(
        &mut self,
        sys: &mut System,
        origin: RawOrigin,
        dest: AccountId,
        proof: Vec<u8>,
    ) -> (r: Result<(), DispatchError<Error>>)
        requires
            old(self).in_transaction(),
            old(sys).events.in_transaction(),
        ensures
            r == transfer_outcome(old(self)@, old(self).max_length, origin, dest, proof@),
            final(self).max_length == old(self).max_length,
            final(sys).block_number == old(sys).block_number,
            final(sys).extrinsic_index == old(sys).extrinsic_index,
            final(sys).random_seed == old(sys).random_seed,
            r is Ok ==> {
                &&& final(self)@ == old(self)@.insert(proof@, (dest, old(sys).block_number))
                &&& one_more(old(sys).events@, final(sys).events@)
                &&& reports_transfer(final(sys).events@.last(), origin->Signed_0, dest, proof@)
            },
            final(self).in_transaction(),
            final(self).savepoint() == old(self).savepoint(),
            final(sys).events.in_transaction(),
            final(sys).events.saved() == old(sys).events.saved(),
    {
        let sender = match ensure_signed(origin) {
            Ok(who) => who,
            Err(_) => {
                return Err(DispatchError::BadOrigin);
            },
        };
        if sender == dest {
            return Err(DispatchError::Module(Error::SameOwner));
        }
        if proof.len() > self.max_length as usize {
            return Err(DispatchError::Module(Error::TooLong));
        }
        let owner = match self.proofs.get(proof.as_slice()) {
            Some(claim) => claim.0,
            None => {
                return Err(DispatchError::Module(Error::NotExist));
            },
        };
        if owner != sender {
            return Err(DispatchError::Module(Error::ErrorOwner));
        }
        let now = sys.block_number();
        let hand_over = |_held: Option<(AccountId, BlockNumber)>| -> (out: Option<
            (AccountId, BlockNumber),
        >)
            ensures
                out == Some((dest, now)),
            { Some((dest, now)) };
        self.proofs.mutate(proof.as_slice(), hand_over);
        sys.deposit_event(RuntimeEvent::Poe(Event::Transfer(sender, dest, proof)));
        proof {
            assert(sys.events@.drop_last() =~= old(sys).events@);
        }
        Ok(())
    }
}

/// The commands of the module.
#[allow(non_camel_case_types)]
#[derive(Clone, Debug, PartialEq, Eq)]
pub enum Call {
    create_proof { proof: Vec<u8> },
    revoke_proof { proof: Vec<u8> },
    transfer_proof { dest: AccountId, proof: Vec<u8> },
}

impl Call {
    /// The number by which the command is known in a transaction.
    pub open spec fn number(&self) -> u8 {
        match self {
            Call::create_proof { .. } => 0u8,
            Call::revoke_proof { .. } => 1u8,
            Call::transfer_proof { .. } => 2u8,
        }
    }

    /// The number by which the command is known in a transaction.
    pub fn index(&self) -> (i: u8)
        ensures
            i == self.number(),
    {
        match self {
            Call::create_proof { .. } => 0,
            Call::revoke_proof { .. } => 1,
            Call::transfer_proof { .. } => 2,
        }
    }
}

/// How a command ends.
pub open spec fn call_outcome(claims: Claims, max_length: u32, origin: RawOrigin, call: Call) -> Result<
    (),
    DispatchError<Error>,
> {
    match call {
        Call::create_proof { proof } => create_outcome(claims, max_length, origin, proof@),
        Call::revoke_proof { proof } => revoke_outcome(claims, max_length, origin, proof@),
        Call::transfer_proof { dest, proof } => transfer_outcome(
            claims,
            max_length,
            origin,
            dest,
            proof@,
        ),
    }
}

/// The claims after a command of `who` that went through in the block
/// `now`.
pub open spec fn call_effect(claims: Claims, who: AccountId, now: BlockNumber, call: Call) -> Claims {
    match call {
        Call::create_proof { proof } => claims.insert(proof@, (who, now)),
        Call::revoke_proof { proof } => claims.remove(proof@),
        Call::transfer_proof { dest, proof } => claims.insert(proof@, (dest, now)),
    }
}

/// `event` is what a command of `who` that went through reports.
pub open spec fn call_reported(event: RuntimeEvent, who: AccountId, call: Call) -> bool {
    match call {
        Call::create_proof { proof } => reports_created(event, who, proof@),
        Call::revoke_proof { proof } => reports_revoked(event, who, proof@),
        Call::transfer_proof { dest, proof } => reports_transfer(event, who, dest, proof@),
    }
}

impl Pallet {
    /// Runs a command. A command that is refused changes nothing; one that
    /// goes through changes the claims and reports one event.
    pub fn dispatch(&mut self, sys: &mut System, origin: RawOrigin, call: Call) -> (r: Result<
        (),
        DispatchError<Error>,
    >)
        ensures
            r == call_outcome(old(self)@, old(self).max_length, origin, call),
            final(self).max_length == old(self).max_length,
            final(sys).block_number == old(sys).block_number,
            final(sys).extrinsic_index == old(sys).extrinsic_index,
            final(sys).random_seed == old(sys).random_seed,
            r is Err ==> final(self)@ == old(self)@ && final(sys).events@ == old(sys).events@,
            r is Ok ==> {
                let who = origin->Signed_0;
                &&& origin is Signed
                &&& final(self)@ == call_effect(old(self)@, who, old(sys).block_number, call)
                &&& one_more(old(sys).events@, final(sys).events@)
                &&& call_reported(final(sys).events@.last(), who, call)
            },
    {
        match call {
            Call::create_proof { proof } => self.create_proof(sys, origin, proof),
            Call::revoke_proof { proof } => self.revoke_proof(sys, origin, proof),
            Call::transfer_proof { dest, proof } => self.transfer_proof(sys, origin, dest, proof),
        }
    }
}

/// A byte string has at most one claim, and none once the claim is revoked:
/// whoever holds it, after a revocation the registry holds nothing under
/// it, and every other claim is as it was.
pub proof fn lemma_revoked_is_absent(claims: Claims, proof: Seq<u8>)
    ensures
        !claims.remove(proof).contains_key(proof),
        forall|other: Seq<u8>|
            other != proof ==> claims.remove(proof).contains_key(other) == claims.contains_key(
                other,
            ),
{
}

/// A byte string that was claimed and revoked can be claimed again, by
/// anybody, and the new claim counts from the block in which it is made.
pub proof fn lemma_claim_again(
    claims: Claims,
    max_length: u32,
    first: AccountId,
    first_block: BlockNumber,
    second: AccountId,
    second_block: BlockNumber,
    proof: Seq<u8>,
)
    requires
        create_outcome(claims, max_length, RawOrigin::Signed(first), proof) is Ok,
    ensures
        ({
            let claimed = claims.insert(proof, (first, first_block));
            let revoked = claimed.remove(proof);
            let again = revoked.insert(proof, (second, second_block));
            &&& revoke_outcome(claimed, max_length, RawOrigin::Signed(first), proof) is Ok
            &&& create_outcome(revoked, max_length, RawOrigin::Signed(second), proof) is Ok
            &&& again[proof] == (second, second_block)
            &&& revoked == claims
        }),
{
    assert(claims.insert(proof, (first, first_block)).remove(proof) =~= claims);
}

} // verus!
