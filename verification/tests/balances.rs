use ledger_modules::balances::{Balances, Error, ExistenceRequirement};

const TEST_AMOUNT: u128 = 10000;

#[test]
fn balance_work() {
    let mut bank = Balances::new(1);
    let account_id = 1u64;
    let raw_balance = bank.free_balance(account_id);
    bank.set_balance(account_id, TEST_AMOUNT);
    let set_balance = bank.free_balance(account_id);
    println!("Balance:{:?}->{:?}", raw_balance, set_balance);
    assert_eq!(raw_balance, 0);
    assert_eq!(set_balance, TEST_AMOUNT);
}

#[test]
fn can_reserve_leaves_the_minimum() {
    let mut bank = Balances::new(10);
    bank.set_balance(1, 100);
    assert!(bank.can_reserve(1, 0));
    assert!(bank.can_reserve(1, 90));
    assert!(!bank.can_reserve(1, 91));
    assert!(!bank.can_reserve(1, 101));
    assert!(bank.can_reserve(2, 0));
    assert!(!bank.can_reserve(2, 1));
}

#[test]
fn transfer_moves_the_amount_and_nothing_else() {
    let mut bank = Balances::new(1);
    bank.set_balance(1, 100);
    bank.set_balance(3, 7);
    assert_eq!(bank.transfer(1, 2, 40, ExistenceRequirement::KeepAlive), Ok(()));
    assert_eq!(bank.free_balance(1), 60);
    assert_eq!(bank.free_balance(2), 40);
    assert_eq!(bank.free_balance(3), 7);
}

#[test]
fn transfer_is_refused_for_each_reason_in_turn() {
    let mut bank = Balances::new(10);
    bank.set_balance(1, 100);
    bank.set_balance(2, u128::MAX);
    assert_eq!(bank.transfer(1, 3, 101, ExistenceRequirement::KeepAlive), Err(Error::InsufficientBalance));
    assert_eq!(bank.transfer(1, 3, 95, ExistenceRequirement::KeepAlive), Err(Error::KeepAlive));
    assert_eq!(bank.transfer(1, 2, 50, ExistenceRequirement::KeepAlive), Err(Error::Overflow));
    assert_eq!(bank.transfer(1, 3, 5, ExistenceRequirement::KeepAlive), Err(Error::ExistentialDeposit));
    assert_eq!(bank.free_balance(1), 100);
    assert_eq!(bank.free_balance(2), u128::MAX);
    assert_eq!(bank.free_balance(3), 0);
    assert_eq!(bank.transfer(1, 3, 95, ExistenceRequirement::AllowDeath), Ok(()));
    assert_eq!(bank.free_balance(1), 5);
    assert_eq!(bank.free_balance(3), 95);
}

#[test]
fn transfer_of_nothing_or_to_oneself_changes_nothing() {
    let mut bank = Balances::new(10);
    bank.set_balance(1, 5);
    assert_eq!(bank.transfer(1, 2, 0, ExistenceRequirement::KeepAlive), Ok(()));
    assert_eq!(bank.transfer(1, 1, 1000, ExistenceRequirement::KeepAlive), Ok(()));
    assert_eq!(bank.free_balance(1), 5);
    assert_eq!(bank.free_balance(2), 0);
}

#[test]
fn scope_on_the_balances_is_undone_or_kept() {
    let mut bank = Balances::new(1);
    bank.set_balance(1, 100);
    bank.begin_transaction();
    assert_eq!(bank.transfer(1, 2, 40, ExistenceRequirement::KeepAlive), Ok(()));
    bank.set_balance(3, 5);
    bank.rollback_transaction();
    assert_eq!(bank.free_balance(1), 100);
    assert_eq!(bank.free_balance(2), 0);
    assert_eq!(bank.free_balance(3), 0);
    bank.begin_transaction();
    assert_eq!(bank.transfer(1, 2, 40, ExistenceRequirement::KeepAlive), Ok(()));
    bank.commit_transaction();
    bank.rollback_transaction();
    assert_eq!(bank.free_balance(1), 60);
    assert_eq!(bank.free_balance(2), 40);
    assert_eq!(bank.existential_deposit(), 1);
}
