//! Spending limits: creation, the pause, period resets and deduction.

use squads_mpl::errors::MsError;
use squads_mpl::key::Key;
use squads_mpl::ms::{Member, Ms};
use squads_mpl::pda::derive_multisig;
use squads_mpl::registry_ops::create;
use squads_mpl::spending_limit::{Period, SpendingLimit};
use squads_mpl::spending_ops::{
    add_spending_limit, pause_spending_limit, remove_spending_limit, spending_limit_use,
    SpendingUseAccounts, TransferPlan,
};

fn key(n: u64) -> Key {
    Key { hi: 0, lo: n as u128 }
}

fn program_id() -> Key {
    Key { hi: 7, lo: 7 }
}

fn new_registry() -> Ms {
    let create_key = key(1_000_000);
    let (_, bump) = derive_multisig(&create_key, &program_id()).unwrap();
    let members = vec![
        Member { key: key(10), guardian_can_remove: false },
        Member { key: key(20), guardian_can_remove: false },
    ];
    create(1, create_key, members, 0, bump).unwrap()
}

fn native_accounts() -> SpendingUseAccounts {
    SpendingUseAccounts {
        mint: None,
        has_system_program: true,
        has_vault_token_account: false,
        has_destination_token_account: false,
        has_token_program: false,
    }
}

fn token_accounts(mint: Key) -> SpendingUseAccounts {
    SpendingUseAccounts {
        mint: Some(mint),
        has_system_program: false,
        has_vault_token_account: true,
        has_destination_token_account: true,
        has_token_program: true,
    }
}

/// A native-asset daily limit of 1000 for member 10.
fn new_limit(ms: &mut Ms) -> SpendingLimit {
    add_spending_limit(
        ms,
        key(2_000_000),
        Key { hi: 0, lo: 0 },
        1,
        1000,
        key(10),
        Period::Daily,
        0,
        &program_id(),
        0,
    )
    .unwrap()
}

#[test]
fn daily_limit_deducts_and_resets() {
    let mut ms = new_registry();
    let mut sl = new_limit(&mut ms);
    assert_eq!(sl.remaining_amount, 1000);
    assert_eq!(sl.last_reset, 0);
    // First use leaves 600.
    let plan =
        spending_limit_use(&ms, &mut sl, key(10), 400, 9, native_accounts(), &program_id(), 10)
            .unwrap();
    match plan {
        TransferPlan::Native { amount, ref signer_seeds, .. } => {
            assert_eq!(amount, 400);
            assert!(!signer_seeds.is_empty());
        },
        TransferPlan::Token { .. } => panic!("native limit produced a token transfer"),
    }
    assert_eq!(sl.remaining_amount, 600);
    // An immediate second use beyond the remainder fails and changes
    // nothing.
    let r = spending_limit_use(&ms, &mut sl, key(10), 700, 9, native_accounts(), &program_id(), 20);
    assert_eq!(r.err(), Some(MsError::SpendingLimitExceeded));
    assert_eq!(sl.remaining_amount, 600);
    assert_eq!(sl.last_reset, 0);
    // After more than a day the allowance resets to the full cap before
    // deducting, and the reset time advances by whole days.
    let day = 24 * 60 * 60;
    spending_limit_use(&ms, &mut sl, key(10), 400, 9, native_accounts(), &program_id(), day + 100)
        .unwrap();
    assert_eq!(sl.remaining_amount, 600);
    assert_eq!(sl.last_reset, day);
}

#[test]
fn reset_advances_by_whole_periods_only() {
    let mut ms = new_registry();
    let mut sl = new_limit(&mut ms);
    let day = 24 * 60 * 60;
    // Two and a half days later: the boundary lands on day two, not on
    // the moment of use.
    spending_limit_use(
        &ms,
        &mut sl,
        key(10),
        1000,
        9,
        native_accounts(),
        &program_id(),
        2 * day + day / 2,
    )
    .unwrap();
    assert_eq!(sl.remaining_amount, 0);
    assert_eq!(sl.last_reset, 2 * day);
}

#[test]
fn spending_limit_rejects_wrong_member() {
    let mut ms = new_registry();
    let mut sl = new_limit(&mut ms);
    let r = spending_limit_use(&ms, &mut sl, key(20), 100, 9, native_accounts(), &program_id(), 1);
    assert_eq!(r.err(), Some(MsError::UnauthorizedMember));
}

#[test]
fn spending_limit_rejects_wrong_decimals() {
    let mut ms = new_registry();
    let mut sl = new_limit(&mut ms);
    let r = spending_limit_use(&ms, &mut sl, key(10), 100, 6, native_accounts(), &program_id(), 1);
    assert_eq!(r.err(), Some(MsError::InvalidDecimals));
}

#[test]
fn spending_limit_requires_transfer_accounts() {
    let mut ms = new_registry();
    let mut sl = new_limit(&mut ms);
    let mut accounts = native_accounts();
    accounts.has_system_program = false;
    let r = spending_limit_use(&ms, &mut sl, key(10), 100, 9, accounts, &program_id(), 1);
    assert_eq!(r.err(), Some(MsError::MissingAccount));
}

#[test]
fn token_limit_checks_mint_and_accounts() {
    let mut ms = new_registry();
    let mint = key(3_000_000);
    let mut sl = add_spending_limit(
        &mut ms,
        key(2_000_001),
        mint,
        1,
        500,
        key(10),
        Period::Weekly,
        0,
        &program_id(),
        0,
    )
    .unwrap();
    // A supplied mint account that is not the limit's asset.
    let r = spending_limit_use(
        &ms,
        &mut sl,
        key(10),
        100,
        6,
        token_accounts(key(4)),
        &program_id(),
        1,
    );
    assert_eq!(r.err(), Some(MsError::InvalidMint));
    // The mint account missing entirely.
    let mut accounts = token_accounts(mint);
    accounts.mint = None;
    let r = spending_limit_use(&ms, &mut sl, key(10), 100, 6, accounts, &program_id(), 1);
    assert_eq!(r.err(), Some(MsError::MissingAccount));
    // All accounts present: a decimals-checked token transfer.
    let plan = spending_limit_use(
        &ms,
        &mut sl,
        key(10),
        100,
        6,
        token_accounts(mint),
        &program_id(),
        1,
    )
    .unwrap();
    match plan {
        TransferPlan::Token { amount, decimals, .. } => {
            assert_eq!(amount, 100);
            assert_eq!(decimals, 6);
        },
        TransferPlan::Native { .. } => panic!("token limit produced a native transfer"),
    }
    assert_eq!(sl.remaining_amount, 400);
}

#[test]
fn guardian_pause_disables_spending() {
    let mut ms = new_registry();
    ms.guardian = Some(key(77));
    let mut sl = new_limit(&mut ms);
    // Only the guardian may pause.
    let r = pause_spending_limit(&mut ms, key(10));
    assert_eq!(r.err(), Some(MsError::UnauthorizedMember));
    assert!(ms.spending_limit_enabled);
    pause_spending_limit(&mut ms, key(77)).unwrap();
    assert!(!ms.spending_limit_enabled);
    let r = spending_limit_use(&ms, &mut sl, key(10), 100, 9, native_accounts(), &program_id(), 1);
    assert_eq!(r.err(), Some(MsError::SpendingLimitDisabled));
}

#[test]
fn add_spending_limit_rejects_zero_amount() {
    let mut ms = new_registry();
    let r = add_spending_limit(
        &mut ms,
        key(2_000_000),
        Key { hi: 0, lo: 0 },
        1,
        0,
        key(10),
        Period::Daily,
        0,
        &program_id(),
        0,
    );
    assert_eq!(r.err(), Some(MsError::InvalidAmount));
}

#[test]
fn spending_limit_changes_deprecate_transactions() {
    let mut ms = new_registry();
    ms.transaction_index = 8;
    new_limit(&mut ms);
    assert_eq!(ms.ms_change_index, 8);
    ms.transaction_index = 9;
    remove_spending_limit(&mut ms).unwrap();
    assert_eq!(ms.ms_change_index, 9);
}

#[test]
fn period_lengths_in_seconds() {
    assert_eq!(Period::Daily.to_seconds(), Some(86_400));
    assert_eq!(Period::Weekly.to_seconds(), Some(604_800));
    assert_eq!(Period::Monthly.to_seconds(), Some(2_592_000));
}

#[test]
fn spending_limit_record_size_follows_the_layout() {
    assert_eq!(squads_mpl::spending_limit::SPENDING_LIMIT_LEN, 166);
}
