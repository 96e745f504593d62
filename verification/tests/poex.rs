use ledger_modules::bounded::BoundedVec;
use ledger_modules::poex::weights::{SubstrateWeight, WeightInfo};
use ledger_modules::poex::{Config, Error, Event, Pallet};
use ledger_modules::system::{DispatchError, RawOrigin, RuntimeEvent, System};
use ledger_modules::weight::Weight;

fn new_test_ext() -> (Pallet, System) {
    let mut sys = System::new();
    sys.set_block_number(1);
    (Pallet::new(b"PoexModule", Config::default()), sys)
}

fn bounded(bytes: Vec<u8>) -> BoundedVec {
    BoundedVec::try_from(bytes, 512).unwrap()
}

fn module(e: Error) -> Result<(), DispatchError<Error>> {
    Err(DispatchError::Module(e))
}

#[test]
fn create_claim() {
    let (mut poex, mut sys) = new_test_ext();
    let claim = bounded(vec![0, 1]);
    let ok = poex.create_claim(&mut sys, RawOrigin::Signed(1), claim.clone());
    assert_eq!(ok, Ok(()));
}

#[test]
fn create_claim_failed_when_already_exist() {
    let (mut poex, mut sys) = new_test_ext();
    let claim = bounded(vec![0, 1]);
    let _ = poex.create_claim(&mut sys, RawOrigin::Signed(1), claim.clone());
    let error = poex.create_claim(&mut sys, RawOrigin::Signed(1), claim.clone());
    assert_eq!(error, module(Error::AlreadyExist));
    assert_eq!(poex.proofs(&[0, 1]), Some((1, 1)));
    assert_eq!(sys.events.count(), 1);
}

#[test]
fn revoke_claim() {
    let (mut poex, mut sys) = new_test_ext();
    let claim = bounded(vec![0, 1]);
    let _ = poex.create_claim(&mut sys, RawOrigin::Signed(1), claim.clone());
    let ok = poex.revoke_claim(&mut sys, RawOrigin::Signed(1), claim.clone());
    assert_eq!(ok, Ok(()));
}

#[test]
fn revoke_claim_failed_when_not_exist() {
    let (mut poex, mut sys) = new_test_ext();
    let claim = bounded(vec![0, 1, 2]);
    let error = poex.revoke_claim(&mut sys, RawOrigin::Signed(1), claim.clone());
    assert_eq!(error, module(Error::NotExist));
    assert_eq!(sys.events.count(), 0);
}

#[test]
fn revoke_claim_failed_when_error_owner() {
    let (mut poex, mut sys) = new_test_ext();
    let claim = bounded(vec![0, 1]);
    let _ = poex.create_claim(&mut sys, RawOrigin::Signed(1), claim.clone());
    let error = poex.revoke_claim(&mut sys, RawOrigin::Signed(2), claim.clone());
    assert_eq!(error, module(Error::ErrorOwner));
    assert_eq!(poex.proofs(&[0, 1]), Some((1, 1)));
}

#[test]
fn transfer_claim() {
    let (mut poex, mut sys) = new_test_ext();
    let claim = bounded(vec![0, 1]);
    let origin = RawOrigin::Signed(1);
    let _ = poex.create_claim(&mut sys, origin, claim.clone());
    let origin = RawOrigin::Signed(1);
    let dest = 2u64;
    let ok = poex.transfer_claim(&mut sys, origin, dest, claim.clone());
    assert_eq!(ok, Ok(()));
}

#[test]
fn transfer_claim_failed_when_same_owner() {
    let (mut poex, mut sys) = new_test_ext();
    let claim = bounded(vec![0, 1]);
    let origin = RawOrigin::Signed(1);
    let _ = poex.create_claim(&mut sys, origin, claim.clone());
    let origin = RawOrigin::Signed(1);
    let dest = 1u64;
    let error = poex.transfer_claim(&mut sys, origin, dest, claim.clone());
    assert_eq!(error, module(Error::SameOwner));
}

#[test]
fn transfer_claim_failed_when_not_exist() {
    let (mut poex, mut sys) = new_test_ext();
    let claim = bounded(vec![0, 1]);
    let origin = RawOrigin::Signed(1);
    let dest = 2u64;
    let error = poex.transfer_claim(&mut sys, origin, dest, claim.clone());
    assert_eq!(error, module(Error::NotExist));
}

#[test]
fn transfer_claim_failed_when_error_owner() {
    let (mut poex, mut sys) = new_test_ext();
    let claim = bounded(vec![0, 1]);
    let origin = RawOrigin::Signed(2);
    let _ = poex.create_claim(&mut sys, origin, claim.clone());
    let origin = RawOrigin::Signed(1);
    let dest = 2u64;
    let error = poex.transfer_claim(&mut sys, origin, dest, claim.clone());
    assert_eq!(error, module(Error::ErrorOwner));
}

#[test]
fn claim_made_under_a_wider_bound_is_too_long() {
    let (mut poex, mut sys) = new_test_ext();
    let claim = BoundedVec::try_from(vec![0; 513], 1024).unwrap();
    assert_eq!(
        poex.create_claim(&mut sys, RawOrigin::Signed(1), claim.clone()),
        module(Error::TooLong)
    );
    assert_eq!(poex.revoke_claim(&mut sys, RawOrigin::Signed(1), claim.clone()), module(Error::TooLong));
    assert_eq!(
        poex.transfer_claim(&mut sys, RawOrigin::Signed(1), 2, claim.clone()),
        module(Error::TooLong)
    );
    assert_eq!(sys.events.count(), 0);
}

#[test]
fn claim_events_carry_the_claim() {
    let (mut poex, mut sys) = new_test_ext();
    let claim = bounded(vec![5, 6]);
    assert_eq!(poex.create_claim(&mut sys, RawOrigin::Signed(1), claim.clone()), Ok(()));
    assert_eq!(
        sys.events.last(),
        Some(&RuntimeEvent::Poex(Event::ClaimCreated(1, claim.clone())))
    );
    sys.set_block_number(3);
    assert_eq!(poex.transfer_claim(&mut sys, RawOrigin::Signed(1), 2, claim.clone()), Ok(()));
    assert_eq!(
        sys.events.last(),
        Some(&RuntimeEvent::Poex(Event::ClaimTransfer(1, 2, claim.clone())))
    );
    assert_eq!(poex.proofs(&[5, 6]), Some((2, 3)));
    assert_eq!(poex.revoke_claim(&mut sys, RawOrigin::Signed(2), claim.clone()), Ok(()));
    assert_eq!(
        sys.events.last(),
        Some(&RuntimeEvent::Poex(Event::ClaimRevoked(2, claim.clone())))
    );
    assert_eq!(poex.proofs(&[5, 6]), None);
}

#[test]
fn bounded_bytes_keep_their_bound() {
    assert_eq!(BoundedVec::try_from(vec![1, 2, 3], 2), Err(vec![1, 2, 3]));
    let b = BoundedVec::try_from(vec![1, 2], 2).unwrap();
    assert_eq!(b.len(), 2);
    assert_eq!(b.bound(), 2);
    assert_eq!(b.as_slice(), &[1, 2]);
    let t = BoundedVec::truncate_from(vec![1, 2, 3, 4], 3);
    assert_eq!(t.clone().into_inner(), vec![1, 2, 3]);
    assert_eq!(BoundedVec::truncate_from(vec![1], 3).into_inner(), vec![1]);
}

#[test]
fn claim_weights_on_a_store_on_disk() {
    assert_eq!(<() as WeightInfo>::create_claim(), Weight::from_parts(109_000_000, 0));
    assert_eq!(<() as WeightInfo>::revoke_claim(), Weight::from_parts(125_000_000, 0));
    assert_eq!(<() as WeightInfo>::transfer_claim(), Weight::from_parts(128_000_000, 0));
    assert_eq!(<SubstrateWeight<()> as WeightInfo>::create_claim(), Weight::from_parts(109_000_000, 0));
    assert_eq!(<SubstrateWeight<()> as WeightInfo>::revoke_claim(), Weight::from_parts(125_000_000, 0));
    assert_eq!(<SubstrateWeight<()> as WeightInfo>::transfer_claim(), Weight::from_parts(128_000_000, 0));
}

#[test]
fn benchmark_create_claim() {
    let (mut poex, mut sys) = new_test_ext();
    let max = poex.max_claim_length;
    let claim = bounded(vec![0; max as usize]);
    assert_eq!(poex.create_claim(&mut sys, RawOrigin::Signed(1), claim.clone()), Ok(()));
    assert_eq!(poex.proofs(claim.as_slice()).is_some(), true);
}

#[test]
fn benchmark_revoke_claim() {
    let (mut poex, mut sys) = new_test_ext();
    let max = poex.max_claim_length;
    let claim = bounded(vec![0; max as usize]);
    let _ = poex.create_claim(&mut sys, RawOrigin::Signed(1), claim.clone());
    assert_eq!(poex.revoke_claim(&mut sys, RawOrigin::Signed(1), claim.clone()), Ok(()));
    assert_eq!(poex.proofs(claim.as_slice()).is_none(), true);
}

#[test]
fn benchmark_transfer_claim() {
    let (mut poex, mut sys) = new_test_ext();
    let max = poex.max_claim_length;
    let claim = bounded(vec![0; max as usize]);
    let _ = poex.create_claim(&mut sys, RawOrigin::Signed(1), claim.clone());
    assert_eq!(poex.transfer_claim(&mut sys, RawOrigin::Signed(1), 2, claim.clone()), Ok(()));
    assert_eq!(poex.proofs(claim.as_slice()).is_some(), true);
    assert_eq!(ledger_modules::poex::DEFAULT_MAX_LENGTH, 512);
    assert_eq!(ledger_modules::poe::DEFAULT_MAX_LENGTH, 512);
}
