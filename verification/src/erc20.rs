//! A fungible token: balances by account, and allowances that let one
//! account spend from another.

use crate::scale::{append_bytes, encode_u64};
use crate::store::{StorageKey, TypedMap};
use crate::system::{AccountId, Balance};
use vstd::bytes::*;
use vstd::prelude::*;

verus! {

/// Why the token refuses a command.
#[derive(Clone, Copy, Debug, PartialEq, Eq)]
pub enum Error {
    /// The sender holds less than the amount.
    BalanceTooLow,
    /// The spender is allowed less than the amount.
    AllowanceTooLow,
}

/// Tokens have moved.
#[derive(Clone, Copy, Debug, PartialEq, Eq)]
pub struct Transfer {
    pub from: AccountId,
    pub to: AccountId,
    pub value: Balance,
}

/// An allowance has been set.
#[derive(Clone, Copy, Debug, PartialEq, Eq)]
pub struct Approval {
    pub from: AccountId,
    pub to: AccountId,
    pub value: Balance,
}

/// Whose tokens a spender may spend: the key of an allowance.
#[derive(Clone, Copy, Debug, PartialEq, Eq)]
pub struct AllowanceKey {
    pub owner: AccountId,
    pub spender: AccountId,
}

impl StorageKey for AllowanceKey {
    open spec fn key_bytes(self) -> Seq<u8> {
        spec_u64_to_le_bytes(self.owner) + spec_u64_to_le_bytes(self.spender)
    }

    proof fn lemma_key_bytes_injective(a: Self, b: Self) {
        lemma_auto_spec_u64_to_from_le_bytes();
        let first = a.key_bytes().subrange(0, 8);
        let second = a.key_bytes().subrange(8, 16);
        assert(spec_u64_to_le_bytes(a.owner).len() == 8 && spec_u64_to_le_bytes(a.spender).len() == 8);
        assert(spec_u64_to_le_bytes(b.owner).len() == 8 && spec_u64_to_le_bytes(b.spender).len() == 8);
        assert(first =~= spec_u64_to_le_bytes(a.owner) && first =~= spec_u64_to_le_bytes(b.owner));
        assert(second =~= spec_u64_to_le_bytes(a.spender) && second =~= spec_u64_to_le_bytes(b.spender));
        assert(spec_u64_from_le_bytes(spec_u64_to_le_bytes(a.owner)) == a.owner);
        assert(spec_u64_from_le_bytes(spec_u64_to_le_bytes(b.owner)) == b.owner);
        assert(spec_u64_from_le_bytes(spec_u64_to_le_bytes(a.spender)) == a.spender);
        assert(spec_u64_from_le_bytes(spec_u64_to_le_bytes(b.spender)) == b.spender);
    }

    fn to_key(&self) -> (out: Vec<u8>) {
        let mut out = encode_u64(self.owner);
        let second = encode_u64(self.spender);
        append_bytes(&mut out, second.as_slice());
        out
    }

    fn from_key(bytes: &[u8]) -> (key: Option<Self>) {
        proof {
            lemma_auto_spec_u64_to_from_le_bytes();
        }
        if bytes.len() == 16 {
            let first = vstd::slice::slice_subrange(bytes, 0, 8);
            let second = vstd::slice::slice_subrange(bytes, 8, 16);
            let k = AllowanceKey { owner: u64_from_le_bytes(first), spender: u64_from_le_bytes(second) };
            assert(spec_u64_to_le_bytes(spec_u64_from_le_bytes(first@)) == first@);
            assert(spec_u64_to_le_bytes(spec_u64_from_le_bytes(second@)) == second@);
            assert(k.key_bytes() =~= bytes@);
            Some(k)
        } else {
            assert forall|k: AllowanceKey| k.key_bytes() != bytes@ by {
                assert(spec_u64_to_le_bytes(k.owner).len() == 8);
                assert(spec_u64_to_le_bytes(k.spender).len() == 8);
            }
            None
        }
    }
}

/// What the token reports.
#[derive(Clone, Copy, Debug, PartialEq, Eq)]
pub enum Event {
    Transfer(Transfer),
    Approval(Approval),
}

/// What an account holds in a table of balances: nothing, unless listed.
pub open spec fn held<K>(table: Map<K, Balance>, who: K) -> Balance {
    if table.contains_key(who) {
        table[who]
    } else {
        0
    }
}

/// The token: how much of it there is, who holds how much, who may spend
/// how much of whose, and what it has reported.
pub struct Erc20 {
    total_supply: Balance,
    balances: TypedMap<AccountId, Balance>,
    allowances: TypedMap<AllowanceKey, Balance>,
    events: Vec<Event>,
}

impl Erc20 {
    /// How much of the token there is.
    pub closed spec fn supply(&self) -> Balance {
        self.total_supply
    }

    /// The balances that are listed.
    pub closed spec fn balances(&self) -> Map<AccountId, Balance> {
        self.balances@
    }

    /// The allowances that are listed, each by owner and spender.
    pub closed spec fn allowances(&self) -> Map<AllowanceKey, Balance> {
        self.allowances@
    }

    /// What the token has reported, oldest first.
    pub closed spec fn events(&self) -> Seq<Event> {
        self.events@
    }

    /// The allowances that an open scope goes back to when it is undone,
    /// and whether a scope is open.
    pub closed spec fn allowances_kept(&self) -> (Map<AllowanceKey, Balance>, bool) {
        (self.allowances.saved(), self.allowances.in_transaction())
    }

    /// A token of which `caller` holds the whole supply.
    pub fn new(caller: AccountId, total_supply: Balance) -> (token: Self)
        ensures
            token.supply() == total_supply,
            token.balances() == Map::<AccountId, Balance>::empty().insert(caller, total_supply),
            token.allowances() == Map::<AllowanceKey, Balance>::empty(),
            token.events() == Seq::<Event>::empty(),
    {
        let mut balances = TypedMap::new("Erc20".as_bytes(), "balances".as_bytes());
        balances.insert(caller, total_supply);
        Erc20 {
            total_supply,
            balances,
            allowances: TypedMap::new("Erc20".as_bytes(), "allowances".as_bytes()),
            events: Vec::new(),
        }
    }

    /// A token without supply.
    pub fn default(caller: AccountId) -> (token: Self)
        ensures
            token.supply() == 0,
            token.balances() == Map::<AccountId, Balance>::empty().insert(caller, 0),
            token.allowances() == Map::<AllowanceKey, Balance>::empty(),
            token.events() == Seq::<Event>::empty(),
    {
        Self::new(caller, 0)
    }

    /// How much of the token there is.
    pub fn total_supply(&self) -> (supply: Balance)
        ensures
            supply == self.supply(),
    {
        self.total_supply
    }

    /// What `who` holds.
    pub fn balance_of(&self, who: AccountId) -> (balance: Balance)
        ensures
            balance == held(self.balances(), who),
    {
        match self.balances.get(who) {
            Some(balance) => *balance,
            None => 0,
        }
    }

    /// How much of what `owner` holds `spender` may spend.
    pub fn allowance_of(&self, owner: AccountId, spender: AccountId) -> (allowance: Balance)
        ensures
            allowance == held(self.allowances(), AllowanceKey { owner, spender }),
    {
        match self.allowances.get(AllowanceKey { owner, spender }) {
            Some(allowance) => *allowance,
            None => 0,
        }
    }

    /// What the token has reported, oldest first.
    pub fn recorded_events(&self) -> (events: &Vec<Event>)
        ensures
            events@ == self.events(),
    {
        &self.events
    }

    /// Moves `value` from the caller to `to`.
    pub fn transfer(&mut self, caller: AccountId, to: AccountId, value: Balance) -> (r: Result<(), Error>)
        requires
            value <= held(old(self).balances(), caller) ==> held(old(self).balances(), to) + value
                <= u128::MAX,
        ensures
            r == moved_or_refused(old(self).balances(), caller, value),
            final(self).supply() == old(self).supply(),
            final(self).allowances() == old(self).allowances(),
            r is Err ==> final(self).balances() == old(self).balances() && final(self).events()
                == old(self).events(),
            r is Ok ==> final(self).balances() == after_move(old(self).balances(), caller, to, value)
                && final(self).events() == old(self).events().push(
                Event::Transfer(Transfer { from: caller, to, value }),
            ),
    {
        self.transfer_helper(&caller, &to, value)
    }

    /// Moves `value` from `from` to `to` on the caller's allowance, which
    /// shrinks by `value`. Where the move is refused, the allowance stays.
    pub fn transfer_from(&mut self, caller: AccountId, from: AccountId, to: AccountId, value: Balance) -> (r:
        Result<(), Error>)
        requires
            value <= held(old(self).balances(), from) ==> held(old(self).balances(), to) + value
                <= u128::MAX,
        ensures
            r == if held(old(self).allowances(), AllowanceKey { owner: from, spender: caller }) < value {
                Err::<(), Error>(Error::AllowanceTooLow)
            } else {
                moved_or_refused(old(self).balances(), from, value)
            },
            final(self).supply() == old(self).supply(),
            r is Err ==> {
                &&& final(self).balances() == old(self).balances()
                &&& final(self).allowances() == old(self).allowances()
                &&& final(self).events() == old(self).events()
            },
            r is Ok ==> {
                &&& final(self).balances() == after_move(old(self).balances(), from, to, value)
                &&& final(self).allowances() == old(self).allowances().insert(
                    AllowanceKey { owner: from, spender: caller },
                    (held(old(self).allowances(), AllowanceKey { owner: from, spender: caller }) - value) as Balance,
                )
                &&& final(self).events() == old(self).events().push(
                    Event::Transfer(Transfer { from, to, value }),
                )
            },
    {
        let allowance = self.allowance_of(from, caller);
        if allowance < value {
            return Err(Error::AllowanceTooLow);
        }
        self.allowances.begin_transaction();
        self.allowances.insert(AllowanceKey { owner: from, spender: caller }, allowance - value);
        let r = self.transfer_helper(&from, &to, value);
        if r.is_ok() {
            self.allowances.commit_transaction();
        } else {
            self.allowances.rollback_transaction();
        }
        r
    }

    /// Lets `to` spend `value` of what the caller holds, in place of what
    /// it was allowed before.
    pub fn approve(&mut self, caller: AccountId, to: AccountId, value: Balance) -> (r: Result<(), Error>)
        ensures
            r is Ok,
            final(self).supply() == old(self).supply(),
            final(self).balances() == old(self).balances(),
            final(self).allowances() == old(self).allowances().insert(
                AllowanceKey { owner: caller, spender: to },
                value,
            ),
            final(self).events() == old(self).events().push(
                Event::Approval(Approval { from: caller, to, value }),
            ),
    {
        let sender = caller;
        self.allowances.insert(AllowanceKey { owner: sender, spender: to }, value);
        self.events.push(Event::Approval(Approval { from: sender, to, value }));
        Ok(())
    }

    /// Moves `value` from `from` to `to`, where `from` holds as much. What
    /// `to` held is read before `from` is charged, so a move to oneself
    /// ends with `value` more than before.
    pub fn transfer_helper(&mut self, from: &AccountId, to: &AccountId, value: Balance) -> (r: Result<
        (),
        Error,
    >)
        requires
            value <= held(old(self).balances(), *from) ==> held(old(self).balances(), *to) + value
                <= u128::MAX,
        ensures
            r == moved_or_refused(old(self).balances(), *from, value),
            final(self).supply() == old(self).supply(),
            final(self).allowances() == old(self).allowances(),
            final(self).allowances_kept() == old(self).allowances_kept(),
            r is Err ==> final(self).balances() == old(self).balances() && final(self).events()
                == old(self).events(),
            r is Ok ==> final(self).balances() == after_move(old(self).balances(), *from, *to, value)
                && final(self).events() == old(self).events().push(
                Event::Transfer(Transfer { from: *from, to: *to, value }),
            ),
    {
        let balance_from = self.balance_of(*from);
        let balance_to = self.balance_of(*to);
        if value > balance_from {
            return Err(Error::BalanceTooLow);
        }
        self.balances.insert(*from, balance_from - value);
        self.balances.insert(*to, balance_to + value);
        self.events.push(Event::Transfer(Transfer { from: *from, to: *to, value }));
        Ok(())
    }
}

/// Whether a move of `value` out of what `from` holds goes through.
pub open spec fn moved_or_refused(balances: Map<AccountId, Balance>, from: AccountId, value: Balance) -> Result<
    (),
    Error,
> {
    if value > held(balances, from) {
        Err(Error::BalanceTooLow)
    } else {
        Ok(())
    }
}

/// The balances after `value` has moved from `from` to `to`: first `from`
/// is set to what it held less `value`, then `to` to what it held before
/// plus `value`.
pub open spec fn after_move(
    balances: Map<AccountId, Balance>,
    from: AccountId,
    to: AccountId,
    value: Balance,
) -> Map<AccountId, Balance> {
    balances.insert(from, (held(balances, from) - value) as Balance).insert(
        to,
        (held(balances, to) + value) as Balance,
    )
}

/// A move between two different accounts takes `value` from the one, gives
/// it to the other, and leaves every other account as it was.
pub proof fn lemma_move_between_accounts(
    balances: Map<AccountId, Balance>,
    from: AccountId,
    to: AccountId,
    value: Balance,
)
    requires
        from != to,
        value <= held(balances, from),
        held(balances, to) + value <= u128::MAX,
    ensures
        held(after_move(balances, from, to, value), from) == held(balances, from) - value,
        held(after_move(balances, from, to, value), to) == held(balances, to) + value,
        forall|other: AccountId|
            other != from && other != to ==> held(after_move(balances, from, to, value), other)
                == held(balances, other),
{
}

} // verus!
