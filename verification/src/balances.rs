//! The currency that the modules charge and pay in: free balances by
//! account, with a minimum that an account kept alive may not fall below.

use crate::system::{AccountId, Balance};
use std::collections::HashMap;
use vstd::prelude::*;

verus! {

broadcast use vstd::std_specs::hash::group_hash_axioms;

/// Why a transfer was refused.
#[derive(Clone, Copy, Debug, PartialEq, Eq)]
pub enum Error {
    /// The sender holds less than the amount.
    InsufficientBalance,
    /// The sender would be left with less than the minimum.
    KeepAlive,
    /// The recipient would hold more than the balance type can express.
    Overflow,
    /// The recipient would hold less than the minimum.
    ExistentialDeposit,
}

/// Whether the sender has to stay above the minimum.
#[derive(Clone, Copy, Debug, PartialEq, Eq)]
pub enum ExistenceRequirement {
    KeepAlive,
    AllowDeath,
}

/// What an account holds in a table of balances: nothing, unless listed.
pub open spec fn held(table: Map<AccountId, Balance>, who: AccountId) -> Balance {
    if table.contains_key(who) {
        table[who]
    } else {
        0
    }
}

/// Whether `amount` can be taken out of a balance of `free` without leaving
/// less than `minimum`: always for nothing, else only where enough is there.
pub open spec fn reservable(free: Balance, amount: Balance, minimum: Balance) -> bool {
    amount == 0 || (free >= amount && free - amount >= minimum)
}

/// How a transfer of `amount` ends, given what sender and recipient hold.
/// A transfer of nothing, or to oneself, always succeeds.
pub open spec fn transfer_outcome(
    from_free: Balance,
    to_free: Balance,
    same: bool,
    amount: Balance,
    existence: ExistenceRequirement,
    minimum: Balance,
) -> Result<(), Error> {
    if amount == 0 || same {
        Ok(())
    } else if from_free < amount {
        Err(Error::InsufficientBalance)
    } else if existence == ExistenceRequirement::KeepAlive && from_free - amount < minimum {
        Err(Error::KeepAlive)
    } else if to_free + amount > u128::MAX {
        Err(Error::Overflow)
    } else if to_free + amount < minimum {
        Err(Error::ExistentialDeposit)
    } else {
        Ok(())
    }
}

/// The balances after `amount` has moved from `from` to `to`.
pub open spec fn moved(
    table: Map<AccountId, Balance>,
    from: AccountId,
    to: AccountId,
    amount: Balance,
) -> Map<AccountId, Balance> {
    if amount == 0 || from == to {
        table
    } else {
        table.insert(from, (held(table, from) - amount) as Balance).insert(
            to,
            (held(table, to) + amount) as Balance,
        )
    }
}

/// The free balances of all accounts. Payments can be made in a scope that
/// is either kept or undone as a whole.
pub struct Balances {
    accounts: HashMap<AccountId, Balance>,
    existential_deposit: Balance,
    snapshot: Option<HashMap<AccountId, Balance>>,
}

impl View for Balances {
    type V = Map<AccountId, Balance>;

    closed spec fn view(&self) -> Map<AccountId, Balance> {
        self.accounts@
    }
}

impl Balances {
    /// The least that an account kept alive may hold.
    pub closed spec fn minimum(&self) -> Balance {
        self.existential_deposit
    }

    /// What `who` holds.
    pub open spec fn free(&self, who: AccountId) -> Balance {
        held(self@, who)
    }

    /// Whether a scope is open.
    pub closed spec fn in_transaction(&self) -> bool {
        self.snapshot is Some
    }

    /// What the balances go back to when the open scope is undone: what
    /// they were when the scope was opened. Without a scope, what they are.
    pub closed spec fn saved(&self) -> Map<AccountId, Balance> {
        match self.snapshot {
            Some(kept) => kept@,
            None => self.accounts@,
        }
    }

    /// Opens a scope: the balances as they are now are what they go back
    /// to when the scope is undone. A scope that was open is kept first.
    pub fn begin_transaction(&mut self)
        ensures
            final(self)@ == old(self)@,
            final(self).saved() == old(self)@,
            final(self).in_transaction(),
            final(self).minimum() == old(self).minimum(),
    {
        self.snapshot = Some(self.accounts.clone());
    }

    /// Keeps the payments of the open scope and closes it.
    pub fn commit_transaction(&mut self)
        ensures
            final(self)@ == old(self)@,
            final(self).saved() == old(self)@,
            !final(self).in_transaction(),
            final(self).minimum() == old(self).minimum(),
    {
        self.snapshot = None;
    }

    /// Undoes the payments of the open scope and closes it.
    pub fn rollback_transaction(&mut self)
        ensures
            final(self)@ == old(self).saved(),
            final(self).saved() == old(self).saved(),
            !final(self).in_transaction(),
            final(self).minimum() == old(self).minimum(),
    {
        let mut kept: Option<HashMap<AccountId, Balance>> = None;
        core::mem::swap(&mut self.snapshot, &mut kept);
        match kept {
            Some(accounts) => {
                self.accounts = accounts;
            },
            None => {},
        }
    }

    /// A table in which no account holds anything.
    pub fn new(existential_deposit: Balance) -> (bank: Self)
        ensures
            bank@ == Map::<AccountId, Balance>::empty(),
            bank.minimum() == existential_deposit,
            !bank.in_transaction(),
            bank.saved() == bank@,
    {
        Balances { accounts: HashMap::new(), existential_deposit, snapshot: None }
    }

    /// The least that an account kept alive may hold.
    pub fn existential_deposit(&self) -> (minimum: Balance)
        ensures
            minimum == self.minimum(),
    {
        self.existential_deposit
    }

    /// What `who` holds.
    pub fn free_balance(&self, who: AccountId) -> (amount: Balance)
        ensures
            amount == self.free(who),
    {
        match self.accounts.get(&who) {
            Some(amount) => *amount,
            None => 0,
        }
    }

    /// Makes `who` hold exactly `amount`, and returns that amount.
    pub fn set_balance(&mut self, who: AccountId, amount: Balance) -> (set: Balance)
        ensures
            set == amount,
            final(self)@ == old(self)@.insert(who, amount),
            final(self).minimum() == old(self).minimum(),
            old(self).in_transaction() ==> final(self).saved() == old(self).saved(),
            !old(self).in_transaction() ==> final(self).saved() == final(self)@,
            final(self).in_transaction() == old(self).in_transaction(),
    {
        self.accounts.insert(who, amount);
        amount
    }

    /// Whether `amount` can be taken from `who` without leaving less than
    /// the minimum.
    pub fn can_reserve(&self, who: AccountId, amount: Balance) -> (ok: bool)
        ensures
            ok == reservable(self.free(who), amount, self.minimum()),
    {
        if amount == 0 {
            return true;
        }
        let free = self.free_balance(who);
        free >= amount && free - amount >= self.existential_deposit
    }

    /// Moves `amount` from `from` to `to`, or refuses and changes nothing.
    pub fn transfer(
        &mut self,
        from: AccountId,
        to: AccountId,
        amount: Balance,
        existence: ExistenceRequirement,
    ) -> (r: Result<(), Error>)
        ensures
            r == transfer_outcome(
                old(self).free(from),
                old(self).free(to),
                from == to,
                amount,
                existence,
                old(self).minimum(),
            ),
            final(self).minimum() == old(self).minimum(),
            r is Ok ==> final(self)@ == moved(old(self)@, from, to, amount),
            r is Err ==> final(self)@ == old(self)@,
            old(self).in_transaction() ==> final(self).saved() == old(self).saved(),
            !old(self).in_transaction() ==> final(self).saved() == final(self)@,
            final(self).in_transaction() == old(self).in_transaction(),
    {
        if amount == 0 || from == to {
            return Ok(());
        }
        let from_free = self.free_balance(from);
        let to_free = self.free_balance(to);
        if from_free < amount {
            return Err(Error::InsufficientBalance);
        }
        let keep = match existence {
            ExistenceRequirement::KeepAlive => true,
            ExistenceRequirement::AllowDeath => false,
        };
        if keep && from_free - amount < self.existential_deposit {
            return Err(Error::KeepAlive);
        }
        match to_free.checked_add(amount) {
            None => Err(Error::Overflow),
            Some(credited) => {
                if credited < self.existential_deposit {
                    return Err(Error::ExistentialDeposit);
                }
                self.accounts.insert(from, from_free - amount);
                self.accounts.insert(to, credited);
                Ok(())
            },
        }
    }
}

/// A transfer that succeeds takes the amount from the sender, gives it to
/// the recipient, and leaves every other account as it was.
pub proof fn lemma_moved(
    table: Map<AccountId, Balance>,
    from: AccountId,
    to: AccountId,
    amount: Balance,
)
    requires
        from != to,
        held(table, from) >= amount,
        held(table, to) + amount <= u128::MAX,
    ensures
        held(moved(table, from, to, amount), from) == held(table, from) - amount,
        held(moved(table, from, to, amount), to) == held(table, to) + amount,
        forall|other: AccountId|
            other != from && other != to ==> held(moved(table, from, to, amount), other) == held(
                table,
                other,
            ),
{
}

} // verus!
