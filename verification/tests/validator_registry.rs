//! The validator manager registry.

use squads_mpl::errors::MsError;
use squads_mpl::key::Key;
use squads_mpl::ms::{Member, Ms};
use squads_mpl::pda::derive_multisig;
use squads_mpl::registry_ops::create;
use squads_mpl::validator::{
    close_validator_account, create_managed_validator, create_validator_manager,
};

fn key(n: u64) -> Key {
    Key { hi: 0, lo: n as u128 }
}

fn program_id() -> Key {
    Key { hi: 7, lo: 7 }
}

fn new_registry() -> (Ms, Key) {
    let create_key = key(1_000_000);
    let (ms_key, bump) = derive_multisig(&create_key, &program_id()).unwrap();
    let members = vec![
        Member { key: key(10), guardian_can_remove: false },
        Member { key: key(20), guardian_can_remove: false },
    ];
    (create(1, create_key, members, 0, bump).unwrap(), ms_key)
}

#[test]
fn manager_creation_requires_membership() {
    let (ms, ms_key) = new_registry();
    let r = create_validator_manager(&ms, key(99), ms_key, 5);
    assert_eq!(r.err(), Some(MsError::KeyNotInMultisig));
    let vm = create_validator_manager(&ms, key(10), ms_key, 5).unwrap();
    assert_eq!(vm.multisig, ms_key);
    assert_eq!(vm.managed_validator_index, 0);
    assert_eq!(vm.bump, 5);
}

#[test]
fn managed_validators_are_numbered_in_order() {
    let (ms, ms_key) = new_registry();
    let mut vm = create_validator_manager(&ms, key(10), ms_key, 5).unwrap();
    let v1 = create_managed_validator(
        &ms,
        &mut vm,
        key(10),
        key(500),
        String::from("alpha"),
        1,
    )
    .unwrap();
    assert_eq!(v1.managed_validator_index, 1);
    assert_eq!(v1.validator_address, key(500));
    assert_eq!(v1.multisig, ms_key);
    assert_eq!(v1.name, "alpha");
    let v2 = create_managed_validator(
        &ms,
        &mut vm,
        key(20),
        key(501),
        String::from("beta"),
        2,
    )
    .unwrap();
    assert_eq!(v2.managed_validator_index, 2);
    assert_eq!(vm.managed_validator_index, 2);
    let r = create_managed_validator(&ms, &mut vm, key(99), key(502), String::from("x"), 3);
    assert_eq!(r.err(), Some(MsError::KeyNotInMultisig));
    assert_eq!(vm.managed_validator_index, 2);
}

#[test]
fn closing_a_validator_account_succeeds() {
    assert!(close_validator_account().is_ok());
}
