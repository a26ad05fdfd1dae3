//! Spending limit operations: creation, removal, the guardian's pause,
//! and the accounting of a use. A use resets the allowance by whole
//! periods (keeping period boundaries aligned rather than drifting),
//! deducts, and describes the transfer for the host to perform.

use vstd::prelude::*;
use crate::key::Key;
use crate::ms::Ms;
use crate::spending_limit::{SpendingLimit, Period};
use crate::errors::MsError;
use crate::pda::{
    pda_of, authority_seeds, authority_signer_seeds, derive_authority,
    build_authority_signer_seeds,
};
use crate::tx_ops::{derived_ms_key, check_ms_address};
use vstd::arithmetic::div_mod::lemma_fundamental_div_mod;

verus! {

/// Decimal count of the native asset's smallest unit.
pub const NATIVE_DECIMALS: u8 = 9;

/// The validation chain of `add_spending_limit`, in check order.
pub open spec fn add_spending_limit_error(ms: Ms, amount: u64, program: Key) -> Option<MsError> {
    if derived_ms_key(ms, program) is None {
        Some(MsError::InvalidInstructionAccount)
    } else if amount == 0 {
        Some(MsError::InvalidAmount)
    } else {
        None
    }
}

/// Create a spending limit under the registry. The call is authorized by
/// the registry's own signature, so it has already passed a multisig vote
/// or guardian action; like every configuration change it deprecates all
/// in-flight transactions.
pub fn add_spending_limit(
    ms: &mut Ms,
    create_key: Key,
    mint: Key,
    authority_index: u32,
    amount: u64,
    member: Key,
    period: Period,
    bump: u8,
    program_id: &Key,
    now: i64,
) -> (r: Result<SpendingLimit, MsError>)
    requires
        old(ms).wf(),
    ensures
        r is Ok <==> add_spending_limit_error(*old(ms), amount, *program_id) is None,
        r is Err ==> Some(r->Err_0) == add_spending_limit_error(*old(ms), amount, *program_id)
            && *final(ms) == *old(ms),
        r is Ok ==> {
            let sl = r->Ok_0;
            &&& sl == (SpendingLimit {
                create_key,
                multisig: derived_ms_key(*old(ms), *program_id)->Some_0,
                authority_index,
                mint,
                amount,
                member,
                period,
                remaining_amount: amount,
                last_reset: now,
                bump,
            })
            &&& sl.wf()
            &&& *final(ms) == (Ms { ms_change_index: old(ms).transaction_index, ..*old(ms) })
        },
{
    let ms_key = match check_ms_address(ms, program_id) {
        Some(k) => k,
        None => { return Err(MsError::InvalidInstructionAccount) },
    };
    if amount == 0 {
        return Err(MsError::InvalidAmount);
    }
    let sl = SpendingLimit::init(
        ms_key,
        create_key,
        mint,
        authority_index,
        amount,
        member,
        period,
        bump,
        now,
    );
    let new_index = ms.transaction_index;
    match ms.set_change_index(new_index) {
        Ok(_) => {},
        Err(e) => { return Err(e) },
    }
    Ok(sl)
}

/// Remove a spending limit. Closing the record and refunding its rent to
/// the registry is the host's part; here the removal counts as a
/// configuration change and deprecates all in-flight transactions.
pub fn remove_spending_limit(ms: &mut Ms) -> (r: Result<(), MsError>)
    requires
        old(ms).wf(),
    ensures
        r is Ok,
        *final(ms) == (Ms { ms_change_index: old(ms).transaction_index, ..*old(ms) }),
        final(ms).wf(),
{
    let new_index = ms.transaction_index;
    match ms.set_change_index(new_index) {
        Ok(_) => {},
        Err(e) => { return Err(e) },
    }
    Ok(())
}

/// The validation chain of `pause_spending_limit`.
pub open spec fn pause_spending_limit_error(ms: Ms, disabler: Key) -> Option<MsError> {
    if ms.guardian != Some(disabler) {
        Some(MsError::UnauthorizedMember)
    } else {
        None
    }
}

/// The guardian's emergency brake: disable spending limits without a
/// multisig vote.
pub fn pause_spending_limit(ms: &mut Ms, disabler: Key) -> (r: Result<(), MsError>)
    requires
        old(ms).wf(),
        old(ms).guardian is Some,
    ensures
        r is Ok <==> pause_spending_limit_error(*old(ms), disabler) is None,
        r is Err ==> Some(r->Err_0) == pause_spending_limit_error(*old(ms), disabler) && *final(ms)
            == *old(ms),
        r is Ok ==> {
            &&& *final(ms) == (Ms {
                spending_limit_enabled: false,
                ms_change_index: old(ms).transaction_index,
                ..*old(ms)
            })
            &&& final(ms).wf()
        },
{
    let authorized = match &ms.guardian {
        Some(g) => g.eq_key(&disabler),
        None => false,
    };
    if !authorized {
        return Err(MsError::UnauthorizedMember);
    }
    ms.spending_limit_enabled = false;
    let new_index = ms.transaction_index;
    match ms.set_change_index(new_index) {
        Ok(_) => {},
        Err(e) => { return Err(e) },
    }
    Ok(())
}

/// Which of the optional transfer accounts the caller supplied, and the
/// supplied mint account's key when there is one.
#[derive(Clone, Copy, PartialEq, Eq, Structural, Debug)]
pub struct SpendingUseAccounts {
    pub mint: Option<Key>,
    pub has_system_program: bool,
    pub has_vault_token_account: bool,
    pub has_destination_token_account: bool,
    pub has_token_program: bool,
}

/// The transfer the host must perform for a successful use: a native
/// transfer out of the derived vault, or a decimals-checked token
/// transfer authorized by it. Either way the vault signs with its
/// derived seeds.
pub enum TransferPlan {
    Native { vault: Key, amount: u64, signer_seeds: Vec<Vec<u8>> },
    Token { vault: Key, amount: u64, decimals: u8, signer_seeds: Vec<Vec<u8>> },
}

/// Seconds since the limit last reset.
pub open spec fn elapsed_since_reset(sl: SpendingLimit, now: i64) -> int {
    now - sl.last_reset
}

/// Whether a whole period has passed, so the allowance resets first.
pub open spec fn reset_due(sl: SpendingLimit, now: i64) -> bool {
    elapsed_since_reset(sl, now) > sl.period.spec_seconds()
}

/// What the limit still allows at `now`, a reset counted in.
pub open spec fn available_amount(sl: SpendingLimit, now: i64) -> int {
    if reset_due(sl, now) {
        sl.amount as int
    } else {
        sl.remaining_amount as int
    }
}

/// The reset timestamp after a use at `now`: advanced by the whole number
/// of elapsed periods, never to `now` itself, so period boundaries stay
/// aligned instead of drifting.
pub open spec fn advanced_last_reset(sl: SpendingLimit, now: i64) -> int {
    if reset_due(sl, now) {
        sl.last_reset + (elapsed_since_reset(sl, now) / sl.period.spec_seconds())
            * sl.period.spec_seconds()
    } else {
        sl.last_reset as int
    }
}

/// The validation chain of `spending_limit_use`, in check order: the
/// supplied mint account must match the limit's asset, only the limit's
/// designated member may spend, the vault must be re-derivable, the
/// registry-wide enable flag must be on, the amount must fit what is
/// available, and the accounts for the selected asset path must all be
/// present with matching decimals.
pub open spec fn spending_use_error(
    ms: Ms,
    sl: SpendingLimit,
    member: Key,
    amount: u64,
    decimals: u8,
    accounts: SpendingUseAccounts,
    program: Key,
    now: i64,
) -> Option<MsError> {
    if accounts.mint is Some && accounts.mint->Some_0 != sl.mint {
        Some(MsError::InvalidMint)
    } else if sl.member != member {
        Some(MsError::UnauthorizedMember)
    } else if derived_ms_key(ms, program) is None {
        Some(MsError::InvalidInstructionAccount)
    } else if pda_of(
        authority_seeds(derived_ms_key(ms, program)->Some_0, sl.authority_index),
        program,
    ) is None {
        Some(MsError::InvalidInstructionAccount)
    } else if !ms.spending_limit_enabled {
        Some(MsError::SpendingLimitDisabled)
    } else if amount > available_amount(sl, now) {
        Some(MsError::SpendingLimitExceeded)
    } else if sl.mint == (Key { hi: 0, lo: 0 }) {
        if decimals != NATIVE_DECIMALS {
            Some(MsError::InvalidDecimals)
        } else if !accounts.has_system_program {
            Some(MsError::MissingAccount)
        } else {
            None
        }
    } else {
        if !accounts.has_destination_token_account {
            Some(MsError::MissingAccount)
        } else if !accounts.has_vault_token_account {
            Some(MsError::MissingAccount)
        } else if accounts.mint is None {
            Some(MsError::MissingAccount)
        } else if !accounts.has_token_program {
            Some(MsError::MissingAccount)
        } else {
            None
        }
    }
}

/// Spend against the limit: reset the allowance if a whole period has
/// passed, deduct, and hand back the transfer for the host to perform,
/// signed by the limit's own vault.
pub fn spending_limit_use(
    ms: &Ms,
    sl: &mut SpendingLimit,
    member: Key,
    amount: u64,
    decimals: u8,
    accounts: SpendingUseAccounts,
    program_id: &Key,
    now: i64,
) -> (r: Result<TransferPlan, MsError>)
    requires
        ms.wf(),
        old(sl).wf(),
        0 <= old(sl).last_reset <= now,
    ensures
        r is Ok <==> spending_use_error(
            *ms,
            *old(sl),
            member,
            amount,
            decimals,
            accounts,
            *program_id,
            now,
        ) is None,
        r is Err ==> Some(r->Err_0) == spending_use_error(
            *ms,
            *old(sl),
            member,
            amount,
            decimals,
            accounts,
            *program_id,
            now,
        ) && *final(sl) == *old(sl),
        r is Ok ==> {
            let ms_key = derived_ms_key(*ms, *program_id)->Some_0;
            let vault = pda_of(authority_seeds(ms_key, old(sl).authority_index), *program_id);
            &&& *final(sl) == (SpendingLimit {
                remaining_amount: (available_amount(*old(sl), now) - amount) as u64,
                last_reset: advanced_last_reset(*old(sl), now) as i64,
                ..*old(sl)
            })
            &&& final(sl).wf()
            &&& old(sl).last_reset <= final(sl).last_reset <= now
            &&& (match r->Ok_0 {
                TransferPlan::Native { vault: v, amount: a, signer_seeds } => {
                    &&& old(sl).mint == (Key { hi: 0, lo: 0 })
                    &&& v == vault->Some_0.0
                    &&& a == amount
                    &&& signer_seeds.deep_view() == authority_signer_seeds(
                        ms_key,
                        old(sl).authority_index,
                        vault->Some_0.1,
                    )
                },
                TransferPlan::Token { vault: v, amount: a, decimals: d, signer_seeds } => {
                    &&& old(sl).mint != (Key { hi: 0, lo: 0 })
                    &&& v == vault->Some_0.0
                    &&& a == amount
                    &&& d == decimals
                    &&& signer_seeds.deep_view() == authority_signer_seeds(
                        ms_key,
                        old(sl).authority_index,
                        vault->Some_0.1,
                    )
                },
            })
        },
{
    match &accounts.mint {
        Some(k) => {
            if !k.eq_key(&sl.mint) {
                return Err(MsError::InvalidMint);
            }
        },
        None => {},
    }
    if !sl.member.eq_key(&member) {
        return Err(MsError::UnauthorizedMember);
    }
    let ms_key = match check_ms_address(ms, program_id) {
        Some(k) => k,
        None => { return Err(MsError::InvalidInstructionAccount) },
    };
    let (vault, vault_bump) = match derive_authority(&ms_key, sl.authority_index, program_id) {
        Some(vb) => vb,
        None => { return Err(MsError::InvalidInstructionAccount) },
    };
    if !ms.spending_limit_enabled {
        return Err(MsError::SpendingLimitDisabled);
    }
    let reset_period = sl.period.to_seconds().unwrap();
    let time_since_last_reset = now - sl.last_reset;
    // Work out what is available and where the period boundary lands,
    // without touching the record until every check has passed.
    let mut base = sl.remaining_amount;
    let mut new_last_reset = sl.last_reset;
    if time_since_last_reset > reset_period {
        base = sl.amount;
        let periods_passed = (time_since_last_reset as u64) / (reset_period as u64);
        proof {
            lemma_fundamental_div_mod(time_since_last_reset as int, reset_period as int);
        }
        let advance = periods_passed * (reset_period as u64);
        new_last_reset = sl.last_reset + (advance as i64);
    }
    if amount > base {
        return Err(MsError::SpendingLimitExceeded);
    }
    let signer_seeds_plan: TransferPlan;
    if sl.mint.eq_key(&Key::zero()) {
        if decimals != NATIVE_DECIMALS {
            return Err(MsError::InvalidDecimals);
        }
        if !accounts.has_system_program {
            return Err(MsError::MissingAccount);
        }
        let signer_seeds = build_authority_signer_seeds(&ms_key, sl.authority_index, vault_bump);
        signer_seeds_plan = TransferPlan::Native { vault, amount, signer_seeds };
    } else {
        if !accounts.has_destination_token_account {
            return Err(MsError::MissingAccount);
        }
        if !accounts.has_vault_token_account {
            return Err(MsError::MissingAccount);
        }
        match &accounts.mint {
            Some(_) => {},
            None => { return Err(MsError::MissingAccount) },
        }
        if !accounts.has_token_program {
            return Err(MsError::MissingAccount);
        }
        let signer_seeds = build_authority_signer_seeds(&ms_key, sl.authority_index, vault_bump);
        signer_seeds_plan = TransferPlan::Token { vault, amount, decimals, signer_seeds };
    }
    sl.remaining_amount = base - amount;
    sl.last_reset = new_last_reset;
    Ok(signer_seeds_plan)
}

} // verus!
