//! Address derivation cross-checked against the host scheme computed
//! directly.

use solana_program::pubkey::Pubkey;
use squads_mpl::key::Key;
use squads_mpl::pda::{
    derive_authority, derive_instruction, derive_multisig, derive_spending_limit,
    derive_transaction, derive_validator, derive_vmanage,
};

fn key_bytes(k: &Key) -> [u8; 32] {
    let mut b = [0u8; 32];
    b[..16].copy_from_slice(&k.hi.to_be_bytes());
    b[16..].copy_from_slice(&k.lo.to_be_bytes());
    b
}

fn to_pubkey(k: &Key) -> Pubkey {
    Pubkey::new_from_array(key_bytes(k))
}

fn from_pubkey(p: &Pubkey) -> Key {
    let b = p.to_bytes();
    Key {
        hi: u128::from_be_bytes(b[..16].try_into().unwrap()),
        lo: u128::from_be_bytes(b[16..].try_into().unwrap()),
    }
}

fn key(n: u64) -> Key {
    Key { hi: n as u128, lo: 3 * n as u128 + 1 }
}

#[test]
fn multisig_address_matches_host_derivation() {
    let create_key = key(11);
    let program = key(99);
    let (k, b) = derive_multisig(&create_key, &program).unwrap();
    let (expect_k, expect_b) = Pubkey::find_program_address(
        &[b"squad", &key_bytes(&create_key), b"multisig"],
        &to_pubkey(&program),
    );
    assert_eq!(k, from_pubkey(&expect_k));
    assert_eq!(b, expect_b);
}

#[test]
fn transaction_address_matches_host_derivation() {
    let ms_key = key(21);
    let program = key(99);
    let (k, b) = derive_transaction(&ms_key, 7, &program).unwrap();
    let (expect_k, expect_b) = Pubkey::find_program_address(
        &[b"squad", &key_bytes(&ms_key), &7u32.to_le_bytes(), b"transaction"],
        &to_pubkey(&program),
    );
    assert_eq!(k, from_pubkey(&expect_k));
    assert_eq!(b, expect_b);
}

#[test]
fn instruction_address_matches_host_derivation() {
    let tx_key = key(31);
    let program = key(99);
    let (k, b) = derive_instruction(&tx_key, 3, &program).unwrap();
    let (expect_k, expect_b) = Pubkey::find_program_address(
        &[b"squad", &key_bytes(&tx_key), &3u8.to_le_bytes(), b"instruction"],
        &to_pubkey(&program),
    );
    assert_eq!(k, from_pubkey(&expect_k));
    assert_eq!(b, expect_b);
}

#[test]
fn authority_address_matches_host_derivation() {
    let ms_key = key(41);
    let program = key(99);
    let (k, b) = derive_authority(&ms_key, 2, &program).unwrap();
    let (expect_k, expect_b) = Pubkey::find_program_address(
        &[b"squad", &key_bytes(&ms_key), &2u32.to_le_bytes(), b"authority"],
        &to_pubkey(&program),
    );
    assert_eq!(k, from_pubkey(&expect_k));
    assert_eq!(b, expect_b);
    // A different authority index lands on a different vault.
    let (k3, _) = derive_authority(&ms_key, 3, &program).unwrap();
    assert_ne!(k, k3);
}

#[test]
fn spending_limit_address_matches_host_derivation() {
    let ms_key = key(51);
    let create_key = key(52);
    let program = key(99);
    let (k, b) = derive_spending_limit(&ms_key, &create_key, &program).unwrap();
    let (expect_k, expect_b) = Pubkey::find_program_address(
        &[b"squad", &key_bytes(&ms_key), &key_bytes(&create_key), b"spending_limit"],
        &to_pubkey(&program),
    );
    assert_eq!(k, from_pubkey(&expect_k));
    assert_eq!(b, expect_b);
}

#[test]
fn validator_addresses_match_host_derivation() {
    let ms_key = key(61);
    let program = key(99);
    let (vm, vm_bump) = derive_vmanage(&ms_key, &program).unwrap();
    let (expect_k, expect_b) = Pubkey::find_program_address(
        &[b"squad", &key_bytes(&ms_key), b"vmanage"],
        &to_pubkey(&program),
    );
    assert_eq!(vm, from_pubkey(&expect_k));
    assert_eq!(vm_bump, expect_b);
    let (v, v_bump) = derive_validator(&vm, 4, &program).unwrap();
    let (expect_k, expect_b) = Pubkey::find_program_address(
        &[b"squad", &key_bytes(&vm), &4u32.to_le_bytes(), b"validator"],
        &to_pubkey(&program),
    );
    assert_eq!(v, from_pubkey(&expect_k));
    assert_eq!(v_bump, expect_b);
}
