//! Per-member, per-asset, per-period spending caps that can move funds
//! without a full multisig vote.

use vstd::prelude::*;
use crate::key::Key;

verus! {

/// Serialized size of a spending limit record.
pub const SPENDING_LIMIT_LEN: usize = 8 + 32 + 32 + 4 + 32 + 8 + 32 + 1 + 8 + 8 + 1;

/// Reset period of a spending limit.
#[derive(Clone, Copy, PartialEq, Eq, Structural, Debug)]
pub enum Period {
    Daily,
    Weekly,
    Monthly,
}

impl Period {
    /// Length of the period in seconds (a month counts thirty days).
    pub open spec fn spec_seconds(self) -> int {
        match self {
            Period::Daily => (24 * 60 * 60) as int,
            Period::Weekly => (7 * 24 * 60 * 60) as int,
            Period::Monthly => (30 * 24 * 60 * 60) as int,
        }
    }

    /// Length of the period in seconds.
    pub fn to_seconds(&self) -> (r: Option<i64>)
        ensures
            r == Some(self.spec_seconds() as i64),
            r->Some_0 > 0,
    {
        match self {
            Period::Daily => Some(24 * 60 * 60),
            Period::Weekly => Some(7 * 24 * 60 * 60),
            Period::Monthly => Some(30 * 24 * 60 * 60),
        }
    }
}

/// A periodic transfer allowance for one member against one derived vault.
#[derive(Clone, Copy, PartialEq, Eq, Structural, Debug)]
pub struct SpendingLimit {
    /// Seed identity fixed at creation.
    pub create_key: Key,
    /// Address of the owning registry.
    pub multisig: Key,
    /// Which derived vault the limit draws from.
    pub authority_index: u32,
    /// Asset identity; the all-zero key denotes the native asset.
    pub mint: Key,
    /// Cap per period, in the asset's smallest unit.
    pub amount: u64,
    /// The one member allowed to use this limit.
    pub member: Key,
    /// Reset period.
    pub period: Period,
    /// What is left to spend in the current period.
    pub remaining_amount: u64,
    /// When the current period began.
    pub last_reset: i64,
    /// Derivation proof of this record's address.
    pub bump: u8,
}

impl SpendingLimit {
    /// The record invariant: what remains never exceeds the cap.
    pub open spec fn wf(self) -> bool {
        self.remaining_amount <= self.amount
    }

    /// Build a fresh record at time `now` with the full cap available.
    pub fn init(
        multisig: Key,
        create_key: Key,
        mint: Key,
        authority_index: u32,
        amount: u64,
        member: Key,
        period: Period,
        bump: u8,
        now: i64,
    ) -> (sl: SpendingLimit)
        ensures
            sl == (SpendingLimit {
                create_key,
                multisig,
                authority_index,
                mint,
                amount,
                member,
                period,
                remaining_amount: amount,
                last_reset: now,
                bump,
            }),
            sl.wf(),
    {
        SpendingLimit {
            create_key,
            multisig,
            authority_index,
            mint,
            amount,
            member,
            period,
            remaining_amount: amount,
            last_reset: now,
            bump,
        }
    }
}

} // verus!
