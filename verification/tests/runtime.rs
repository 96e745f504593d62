use ledger_modules::bounded::BoundedVec;
use ledger_modules::runtime::{Config, ModuleError, Runtime, RuntimeCall};
use ledger_modules::system::{
    ensure_none, ensure_root, ensure_signed, BadOrigin, DispatchError, RawOrigin, RuntimeEvent,
};
use ledger_modules::{kittiesx, ocwx, poe, poex};

fn new_runtime() -> Runtime {
    let mut runtime = Runtime::new(Config {
        existential_deposit: 1,
        max_claim_length: 512,
        create_price: 10,
        pallet_id: *b"kittiesX",
    });
    runtime.initialize_block(1, [3; 32]);
    runtime
}

#[test]
fn origins_are_told_apart() {
    assert_eq!(ensure_signed(RawOrigin::Signed(5)), Ok(5));
    assert_eq!(ensure_signed(RawOrigin::Root), Err(BadOrigin));
    assert_eq!(ensure_signed(RawOrigin::Unsigned), Err(BadOrigin));
    assert_eq!(ensure_none(RawOrigin::Unsigned), Ok(()));
    assert_eq!(ensure_none(RawOrigin::Signed(5)), Err(BadOrigin));
    assert_eq!(ensure_root(RawOrigin::Root), Ok(()));
    assert_eq!(ensure_root(RawOrigin::Unsigned), Err(BadOrigin));
}

#[test]
fn commands_go_to_their_module() {
    let mut runtime = new_runtime();
    runtime.balances.set_balance(1, 10000);
    assert_eq!(
        runtime.dispatch(
            RawOrigin::Signed(1),
            RuntimeCall::Poe(poe::Call::create_proof { proof: vec![3, 5, 7] })
        ),
        Ok(())
    );
    assert_eq!(
        runtime.dispatch(
            RawOrigin::Signed(1),
            RuntimeCall::Poe(poe::Call::create_proof { proof: vec![3, 5, 7] })
        ),
        Err(DispatchError::Module(ModuleError::Poe(poe::Error::AlreadyExist)))
    );
    assert_eq!(runtime.poe.data_smap(&[3, 5, 7]), Some((1, 1)));
    let claim = BoundedVec::try_from(vec![1], 512).unwrap();
    assert_eq!(
        runtime.dispatch(
            RawOrigin::Signed(2),
            RuntimeCall::Poex(poex::Call::revoke_claim { claim: claim.clone() })
        ),
        Err(DispatchError::Module(ModuleError::Poex(poex::Error::NotExist)))
    );
    assert_eq!(
        runtime.dispatch(RawOrigin::Signed(2), RuntimeCall::Poex(poex::Call::create_claim { claim })),
        Ok(())
    );
    assert_eq!(runtime.poex.proofs(&[1]), Some((2, 1)));
    assert_eq!(runtime.poe.data_smap(&[1]), None);
    assert_eq!(
        runtime.apply_extrinsic(0, RawOrigin::Signed(1), RuntimeCall::Kittiesx(kittiesx::Call::create)),
        Ok(())
    );
    assert_eq!(
        runtime.dispatch(
            RawOrigin::Signed(1),
            RuntimeCall::Kittiesx(kittiesx::Call::breed { kitty_id_1: 0, kitty_id_2: 0 })
        ),
        Err(DispatchError::Module(ModuleError::Kittiesx(kittiesx::Error::KittySingleParent)))
    );
    assert_eq!(
        runtime.dispatch(
            RawOrigin::Signed(1),
            RuntimeCall::Ocwx(ocwx::Call::storage_number { number: 8 })
        ),
        Ok(())
    );
    assert_eq!(runtime.ocwx.numbers(), Some(8));
    assert_eq!(runtime.system.events.count(), 4);
    assert_eq!(runtime.balances.free_balance(1), 9990);
    assert_eq!(runtime.system.extrinsic_index(), None);
}

#[test]
fn refused_command_leaves_no_trace() {
    let mut runtime = new_runtime();
    runtime.balances.set_balance(1, 5);
    assert_eq!(
        runtime.dispatch(RawOrigin::Signed(1), RuntimeCall::Kittiesx(kittiesx::Call::create)),
        Err(DispatchError::Module(ModuleError::Kittiesx(kittiesx::Error::NotEnoughCurrency)))
    );
    runtime.balances.set_balance(1, 10);
    assert_eq!(
        runtime.dispatch(RawOrigin::Signed(1), RuntimeCall::Kittiesx(kittiesx::Call::create)),
        Err(DispatchError::Module(ModuleError::Kittiesx(kittiesx::Error::NotEnoughCurrency)))
    );
    runtime.balances.set_balance(1, 11);
    runtime.balances.set_balance(u64::from_le_bytes(*b"modlkitt"), u128::MAX);
    assert_eq!(
        runtime.dispatch(RawOrigin::Signed(1), RuntimeCall::Kittiesx(kittiesx::Call::create)),
        Err(DispatchError::Token(ledger_modules::balances::Error::Overflow))
    );
    assert_eq!(
        runtime.dispatch(RawOrigin::Root, RuntimeCall::Kittiesx(kittiesx::Call::create)),
        Err(DispatchError::BadOrigin)
    );
    assert_eq!(runtime.kittiesx.next_kitty_id(), 0);
    assert_eq!(runtime.kittiesx.kitties(0), None);
    assert_eq!(runtime.balances.free_balance(1), 11);
    assert_eq!(runtime.system.events.count(), 0);
    assert_eq!(runtime.system.events.last(), None);
}

#[test]
fn events_come_in_the_order_of_the_commands_and_go_with_the_block() {
    let mut runtime = new_runtime();
    runtime.balances.set_balance(1, 10000);
    assert_eq!(
        runtime.apply_extrinsic(0, RawOrigin::Signed(1), RuntimeCall::Kittiesx(kittiesx::Call::create)),
        Ok(())
    );
    assert_eq!(
        runtime.apply_extrinsic(
            1,
            RawOrigin::Signed(1),
            RuntimeCall::Kittiesx(kittiesx::Call::sale { kitty_id: 0, price: 5 })
        ),
        Ok(())
    );
    assert_eq!(runtime.system.events.count(), 2);
    assert_eq!(
        runtime.system.events.last(),
        Some(&RuntimeEvent::Kittiesx(kittiesx::Event::KittyOnSale { owner: 1, kitty_id: 0, price: 5 }))
    );
    runtime.initialize_block(2, [4; 32]);
    assert_eq!(runtime.system.block_number(), 2);
    assert_eq!(runtime.system.random_seed(), [4; 32]);
    assert_eq!(runtime.system.events.count(), 0);
    assert_eq!(runtime.kittiesx.kitty_on_sale(0), Some(5));
}

#[test]
fn same_inputs_give_the_same_outcome() {
    let run = || {
        let mut runtime = new_runtime();
        runtime.balances.set_balance(1, 10000);
        runtime.balances.set_balance(2, 10000);
        let a = runtime.apply_extrinsic(0, RawOrigin::Signed(1), RuntimeCall::Kittiesx(kittiesx::Call::create));
        let b = runtime.apply_extrinsic(1, RawOrigin::Signed(2), RuntimeCall::Kittiesx(kittiesx::Call::create));
        let c = runtime.apply_extrinsic(
            2,
            RawOrigin::Signed(2),
            RuntimeCall::Kittiesx(kittiesx::Call::breed { kitty_id_1: 0, kitty_id_2: 1 }),
        );
        (a, b, c, runtime.kittiesx.kitties(0), runtime.kittiesx.kitties(1), runtime.kittiesx.kitties(2))
    };
    let first = run();
    assert_eq!(first, run());
    assert_eq!((first.0, first.1, first.2), (Ok(()), Ok(()), Ok(())));
    assert_ne!(first.3.unwrap().dna, first.4.unwrap().dna);
}

#[test]
fn only_the_price_feed_takes_unsigned_commands() {
    assert_eq!(
        Runtime::validate_unsigned(&RuntimeCall::Kittiesx(kittiesx::Call::create)),
        Err(ocwx::InvalidTransaction::Call)
    );
    assert_eq!(
        Runtime::validate_unsigned(&RuntimeCall::Poe(poe::Call::revoke_proof { proof: vec![] })),
        Err(ocwx::InvalidTransaction::Call)
    );
    assert!(Runtime::validate_unsigned(&RuntimeCall::Ocwx(ocwx::Call::submit_price_unsigned {
        block_number: 1,
        price: 2
    }))
    .is_ok());
    assert_eq!(
        Runtime::validate_unsigned(&RuntimeCall::Ocwx(ocwx::Call::storage_number { number: 2 })),
        Err(ocwx::InvalidTransaction::Call)
    );
}

#[test]
fn commands_are_numbered_by_module_and_call() {
    assert_eq!(RuntimeCall::Poe(poe::Call::transfer_proof { dest: 1, proof: vec![] }).index(), (0, 2));
    assert_eq!(RuntimeCall::Kittiesx(kittiesx::Call::create).index(), (2, 0));
    assert_eq!(RuntimeCall::Kittiesx(kittiesx::Call::breed { kitty_id_1: 0, kitty_id_2: 1 }).index(), (2, 1));
    assert_eq!(RuntimeCall::Kittiesx(kittiesx::Call::transfer { recipient: 0, kitty_id: 1 }).index(), (2, 2));
    assert_eq!(RuntimeCall::Kittiesx(kittiesx::Call::sale { kitty_id: 0, price: 1 }).index(), (2, 3));
    assert_eq!(RuntimeCall::Kittiesx(kittiesx::Call::buy { kitty_id: 0 }).index(), (2, 4));
    assert_eq!(RuntimeCall::Ocwx(ocwx::Call::storage_number { number: 0 }).index(), (3, 0));
}

#[test]
fn events_of_a_scope_are_forgotten_or_kept() {
    let mut runtime = new_runtime();
    runtime.system.deposit_event(RuntimeEvent::Kittiesx(kittiesx::Event::KittyBought { owner: 1, kitty_id: 0 }));
    runtime.system.events.begin_transaction();
    runtime.system.deposit_event(RuntimeEvent::Kittiesx(kittiesx::Event::KittyBought { owner: 2, kitty_id: 0 }));
    runtime.system.deposit_event(RuntimeEvent::Kittiesx(kittiesx::Event::KittyBought { owner: 3, kitty_id: 0 }));
    assert_eq!(runtime.system.events.count(), 3);
    runtime.system.events.rollback_transaction();
    assert_eq!(runtime.system.events.count(), 1);
    assert_eq!(
        runtime.system.events.last(),
        Some(&RuntimeEvent::Kittiesx(kittiesx::Event::KittyBought { owner: 1, kitty_id: 0 }))
    );
    runtime.system.events.begin_transaction();
    runtime.system.deposit_event(RuntimeEvent::Kittiesx(kittiesx::Event::KittyBought { owner: 4, kitty_id: 0 }));
    runtime.system.events.commit_transaction();
    runtime.system.events.rollback_transaction();
    assert_eq!(runtime.system.events.count(), 2);
    runtime.system.events.reset();
    assert_eq!(runtime.system.events.count(), 0);
}

#[test]
fn block_start_brings_old_assets_into_the_current_layout() {
    let mut runtime = new_runtime();
    runtime.kittiesx.storage_version.kill();
    runtime.kittiesx.kitties.insert(
        0,
        kittiesx::KittyRecord::V0(kittiesx::migrations::v1::KittyV0([5; 16])),
    );
    runtime.kittiesx.kitty_owners.insert(0, 1);
    runtime.kittiesx.next_kitty_id.put(1);
    assert_eq!(
        runtime.dispatch(
            RawOrigin::Signed(1),
            RuntimeCall::Kittiesx(kittiesx::Call::sale { kitty_id: 0, price: 1 })
        ),
        Err(DispatchError::Module(ModuleError::Kittiesx(kittiesx::Error::InvalidKittyId)))
    );
    runtime.initialize_block(2, [0; 32]);
    assert_eq!(runtime.kittiesx.on_chain_storage_version(), 2);
    assert_eq!(
        runtime.dispatch(
            RawOrigin::Signed(1),
            RuntimeCall::Kittiesx(kittiesx::Call::sale { kitty_id: 0, price: 1 })
        ),
        Ok(())
    );
}
