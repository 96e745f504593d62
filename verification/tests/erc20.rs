use ledger_modules::erc20::{Approval, Erc20, Error, Event, Transfer};

const ALICE: u64 = 1;
const BOB: u64 = 2;
const CHARLIE: u64 = 3;

#[test]
fn default_works() {
    let erc20 = Erc20::default(ALICE);
    assert_eq!(erc20.total_supply(), 0);
}

#[test]
fn transfer_should_works() {
    let mut erc20 = Erc20::new(ALICE, 100000);
    assert_eq!(erc20.total_supply(), 100000);

    let val = 12345u128;

    let _ = erc20.transfer(ALICE, BOB, val);
    let emitted_evnets = erc20.recorded_events();
    let event = &emitted_evnets[0];
    match event {
        Event::Transfer(Transfer { from: _, to: _, value }) => {
            assert_eq!(*value, val);
        }
        _ => panic!("match error"),
    }
    assert_eq!(erc20.balance_of(ALICE), 100000 - val);
    assert_eq!(erc20.balance_of(BOB), val);
}

#[test]
fn invalid_transfer_should_fail() {
    let mut erc20 = Erc20::new(ALICE, 100000);
    let res = erc20.transfer(BOB, CHARLIE, 12);
    assert!(res.is_err());
    assert_eq!(res, Err(Error::BalanceTooLow));
    assert_eq!(erc20.balance_of(BOB), 0);
    assert_eq!(erc20.balance_of(CHARLIE), 0);
    assert_eq!(erc20.recorded_events().len(), 0);
}

#[test]
fn e2e_transfer() {
    let total_supply = 100000u128;
    let val = 2000u128;
    let mut erc20 = Erc20::new(ALICE, total_supply);
    assert!(erc20.transfer(ALICE, BOB, val).is_ok());
    assert_eq!(erc20.balance_of(BOB), val, "balance_of bob");
    assert_eq!(erc20.balance_of(ALICE), total_supply - val, "balance_of alice");
}

#[test]
fn allowance_is_spent_by_transfer_from() {
    let mut erc20 = Erc20::new(ALICE, 1000);
    assert_eq!(erc20.allowance_of(ALICE, BOB), 0);
    assert_eq!(erc20.transfer_from(BOB, ALICE, CHARLIE, 1), Err(Error::AllowanceTooLow));
    assert_eq!(erc20.approve(ALICE, BOB, 300), Ok(()));
    assert_eq!(erc20.allowance_of(ALICE, BOB), 300);
    assert_eq!(erc20.allowance_of(BOB, ALICE), 0);
    assert_eq!(
        erc20.recorded_events().last(),
        Some(&Event::Approval(Approval { from: ALICE, to: BOB, value: 300 }))
    );
    assert_eq!(erc20.transfer_from(BOB, ALICE, CHARLIE, 301), Err(Error::AllowanceTooLow));
    assert_eq!(erc20.transfer_from(BOB, ALICE, CHARLIE, 120), Ok(()));
    assert_eq!(erc20.allowance_of(ALICE, BOB), 180);
    assert_eq!(erc20.balance_of(ALICE), 880);
    assert_eq!(erc20.balance_of(CHARLIE), 120);
    assert_eq!(erc20.balance_of(BOB), 0);
    assert_eq!(
        erc20.recorded_events().last(),
        Some(&Event::Transfer(Transfer { from: ALICE, to: CHARLIE, value: 120 }))
    );
    assert_eq!(erc20.total_supply(), 1000);
}

#[test]
fn transfer_from_without_balance_keeps_the_allowance() {
    let mut erc20 = Erc20::new(ALICE, 10);
    assert_eq!(erc20.approve(BOB, CHARLIE, 50), Ok(()));
    assert_eq!(erc20.transfer_from(CHARLIE, BOB, ALICE, 20), Err(Error::BalanceTooLow));
    assert_eq!(erc20.allowance_of(BOB, CHARLIE), 50);
    assert_eq!(erc20.balance_of(ALICE), 10);
    assert_eq!(erc20.recorded_events().len(), 1);
}

#[test]
fn transfer_to_oneself_adds_the_value() {
    let mut erc20 = Erc20::new(ALICE, 10);
    let (from, to) = (ALICE, ALICE);
    assert_eq!(erc20.transfer_helper(&from, &to, 4), Ok(()));
    assert_eq!(erc20.balance_of(ALICE), 14);
    assert_eq!(erc20.total_supply(), 10);
}
