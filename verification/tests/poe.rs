use ledger_modules::poe::{Config, Error, Event, Pallet};
use ledger_modules::system::{DispatchError, RawOrigin, RuntimeEvent, System};

fn new_test_ext() -> (Pallet, System) {
    let mut sys = System::new();
    sys.set_block_number(1);
    (Pallet::new(b"PoeModule", Config { max_length: 512 }), sys)
}

fn module(e: Error) -> Result<(), DispatchError<Error>> {
    Err(DispatchError::Module(e))
}

#[test]
fn create() {
    let (mut poe, mut sys) = new_test_ext();
    let proof = vec![3, 5, 7];
    let proof1 = vec![0; 513];
    let account = RawOrigin::Signed(1);

    assert_eq!(poe.create_proof(&mut sys, account.clone(), proof1.clone()), module(Error::TooLong));
    assert_eq!(poe.data_smap(&proof1), None);
    assert_eq!(sys.events.count(), 0);
    assert_eq!(poe.create_proof(&mut sys, account.clone(), proof.clone()), Ok(()));
    assert_eq!(
        poe.create_proof(&mut sys, account.clone(), proof.clone()),
        module(Error::AlreadyExist)
    );
    assert_eq!(sys.events.count(), 1);

    let (owner, _) = poe.data_smap(&proof).unwrap();
    assert_eq!(owner, 1);
}

#[test]
fn revoke() {
    let (mut poe, mut sys) = new_test_ext();
    let proof = vec![3, 5, 7];
    let proof1 = vec![0; 513];
    let proof2 = vec![4, 6, 8];
    let account = RawOrigin::Signed(1);
    let account1 = RawOrigin::Signed(2);

    assert_eq!(poe.create_proof(&mut sys, account.clone(), proof.clone()), Ok(()));
    assert_eq!(poe.revoke_proof(&mut sys, account.clone(), proof1.clone()), module(Error::TooLong));
    assert_eq!(poe.revoke_proof(&mut sys, account.clone(), proof2.clone()), module(Error::NotExist));
    assert_eq!(poe.revoke_proof(&mut sys, account1.clone(), proof.clone()), module(Error::ErrorOwner));
    assert_eq!(poe.data_smap(&proof), Some((1, 1)));
    assert_eq!(sys.events.count(), 1);
    assert_eq!(poe.revoke_proof(&mut sys, account.clone(), proof.clone()), Ok(()));
}

#[test]
fn transfer() {
    let (mut poe, mut sys) = new_test_ext();
    let proof = vec![3, 5, 7];
    let proof1 = vec![0; 513];
    let proof2 = vec![4, 6, 8];
    let account = RawOrigin::Signed(1);
    let account1 = RawOrigin::Signed(2);

    assert_eq!(poe.create_proof(&mut sys, account.clone(), proof.clone()), Ok(()));
    assert_eq!(poe.transfer_proof(&mut sys, account.clone(), 2, proof1.clone()), module(Error::TooLong));
    assert_eq!(poe.transfer_proof(&mut sys, account.clone(), 2, proof2.clone()), module(Error::NotExist));
    assert_eq!(
        poe.transfer_proof(&mut sys, account1.clone(), 1, proof.clone()),
        module(Error::ErrorOwner)
    );
    assert_eq!(poe.data_smap(&proof), Some((1, 1)));
    assert_eq!(sys.events.count(), 1);
    assert_eq!(poe.transfer_proof(&mut sys, account.clone(), 2, proof.clone()), Ok(()));

    let (owner, _) = poe.data_smap(&proof).unwrap();
    assert_eq!(owner, 2);
}

#[test]
fn claim_at_the_greatest_length_is_taken() {
    let (mut poe, mut sys) = new_test_ext();
    assert_eq!(poe.create_proof(&mut sys, RawOrigin::Signed(1), vec![0; 512]), Ok(()));
    assert_eq!(poe.data_smap(&vec![0; 512]), Some((1, 1)));
    assert_eq!(poe.create_proof(&mut sys, RawOrigin::Signed(1), vec![]), Ok(()));
    assert_eq!(poe.data_smap(&[]), Some((1, 1)));
}

#[test]
fn duplicate_claim_keeps_the_first_record() {
    let (mut poe, mut sys) = new_test_ext();
    assert_eq!(poe.create_proof(&mut sys, RawOrigin::Signed(1), vec![3, 5, 7]), Ok(()));
    sys.set_block_number(4);
    assert_eq!(
        poe.create_proof(&mut sys, RawOrigin::Signed(2), vec![3, 5, 7]),
        module(Error::AlreadyExist)
    );
    assert_eq!(poe.data_smap(&[3, 5, 7]), Some((1, 1)));
}

#[test]
fn revoked_claim_is_absent_and_can_be_made_again() {
    let (mut poe, mut sys) = new_test_ext();
    let proof = vec![9, 9];
    assert_eq!(poe.create_proof(&mut sys, RawOrigin::Signed(1), proof.clone()), Ok(()));
    assert_eq!(poe.revoke_proof(&mut sys, RawOrigin::Signed(1), proof.clone()), Ok(()));
    assert_eq!(poe.data_smap(&proof), None);
    assert_eq!(
        sys.events.last(),
        Some(&RuntimeEvent::Poe(Event::Revoked(1, proof.clone())))
    );
    sys.set_block_number(7);
    assert_eq!(poe.create_proof(&mut sys, RawOrigin::Signed(2), proof.clone()), Ok(()));
    assert_eq!(poe.data_smap(&proof), Some((2, 7)));
    assert_eq!(sys.events.count(), 3);
}

#[test]
fn transfer_to_oneself_is_refused_first() {
    let (mut poe, mut sys) = new_test_ext();
    assert_eq!(
        poe.transfer_proof(&mut sys, RawOrigin::Signed(1), 1, vec![0; 513]),
        module(Error::SameOwner)
    );
    assert_eq!(
        poe.transfer_proof(&mut sys, RawOrigin::Unsigned, 1, vec![1]),
        Err(DispatchError::BadOrigin)
    );
}

#[test]
fn transfer_counts_the_claim_from_the_block_of_the_transfer() {
    let (mut poe, mut sys) = new_test_ext();
    let proof = vec![1, 2, 3];
    assert_eq!(poe.create_proof(&mut sys, RawOrigin::Signed(1), proof.clone()), Ok(()));
    sys.set_block_number(12);
    assert_eq!(poe.transfer_proof(&mut sys, RawOrigin::Signed(1), 2, proof.clone()), Ok(()));
    assert_eq!(poe.data_smap(&proof), Some((2, 12)));
    assert_eq!(
        sys.events.last(),
        Some(&RuntimeEvent::Poe(Event::Transfer(1, 2, proof.clone())))
    );
    assert_eq!(sys.events.count(), 2);
}

#[test]
fn claims_are_up_to_512_bytes_unless_set_otherwise() {
    assert_eq!(Config::default(), Config { max_length: 512 });
    let mut poe = Pallet::new(b"PoeModule", Config { max_length: 2 });
    let mut sys = System::new();
    assert_eq!(poe.create_proof(&mut sys, RawOrigin::Signed(1), vec![1, 2, 3]), module(Error::TooLong));
    assert_eq!(poe.create_proof(&mut sys, RawOrigin::Signed(1), vec![1, 2]), Ok(()));
    assert_eq!(poe.data_smap(&[1, 2]), Some((1, 0)));
}
