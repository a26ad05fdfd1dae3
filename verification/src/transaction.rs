//! The transaction record: one per proposed action, owning its status
//! state machine and its three sorted vote sets (approve, reject, cancel).

use vstd::prelude::*;
use crate::key::Key;
use crate::keyset::{sorted_unique, find_key, insert_key, remove_at};
use crate::errors::MsError;

verus! {

/// Lifecycle status. Each state carries the timestamp of entry, so a
/// timestamp belongs to exactly one state.
#[derive(Clone, Copy, PartialEq, Eq, Structural, Debug)]
pub enum MsTransactionStatus {
    Draft { timestamp: i64 },
    Active { timestamp: i64 },
    ExecuteReady { timestamp: i64 },
    Executed { timestamp: i64 },
    Rejected { timestamp: i64 },
    Cancelled { timestamp: i64 },
}

/// Serialized size of a transaction record without the vote vectors.
pub const TRANSACTION_MINIMUM_SIZE: usize = 32 + 32 + 4 + 4 + 1 + (8 * 6) + 1 + 1 + 1;

/// A proposed multisig action.
#[derive(Clone, PartialEq, Eq, Debug)]
pub struct MsTransaction {
    /// Member that created the transaction.
    pub creator: Key,
    /// Address of the owning registry.
    pub ms: Key,
    /// One-based index, fixed at creation from the registry's counter.
    pub transaction_index: u32,
    /// Which derived authority signs the attached instructions; zero is
    /// the registry's own identity.
    pub authority_index: u32,
    /// Derivation proof of the signing authority.
    pub authority_bump: u8,
    /// Current lifecycle state.
    pub status: MsTransactionStatus,
    /// Number of attached instructions (their indices run from one).
    pub instruction_index: u8,
    /// Derivation proof of this record's own address.
    pub bump: u8,
    /// Members that approved, sorted by key.
    pub approved: Vec<Key>,
    /// Members that rejected, sorted by key.
    pub rejected: Vec<Key>,
    /// Members that voted to cancel, sorted by key.
    pub cancelled: Vec<Key>,
    /// How many instructions sequential execution has consumed so far.
    pub executed_index: u8,
}

impl MsTransaction {
    /// Vote-set well-formedness: the three vote vectors are sorted and
    /// duplicate-free.
    pub open spec fn wf(self) -> bool {
        &&& sorted_unique(self.approved@)
        &&& sorted_unique(self.rejected@)
        &&& sorted_unique(self.cancelled@)
    }

    /// Bytes to reserve for a fresh record, allowing every member to end
    /// up in each of the three vote sets.
    pub fn initial_size_with_members(members_len: usize) -> (r: usize)
        requires
            members_len <= u16::MAX as usize,
        ensures
            r == TRANSACTION_MINIMUM_SIZE + 3 * (4 + members_len * 32),
    {
        TRANSACTION_MINIMUM_SIZE + 3 * (4 + members_len * 32)
    }

    /// Build a fresh record in `Draft` at time `now`, with empty vote sets
    /// and nothing attached or executed yet.
    pub fn init(
        creator: Key,
        multisig: Key,
        transaction_index: u32,
        bump: u8,
        authority_index: u32,
        authority_bump: u8,
        now: i64,
    ) -> (tx: MsTransaction)
        ensures
            tx.creator == creator,
            tx.ms == multisig,
            tx.transaction_index == transaction_index,
            tx.authority_index == authority_index,
            tx.authority_bump == authority_bump,
            tx.status == (MsTransactionStatus::Draft { timestamp: now }),
            tx.instruction_index == 0,
            tx.bump == bump,
            tx.approved@ == Seq::<Key>::empty(),
            tx.rejected@ == Seq::<Key>::empty(),
            tx.cancelled@ == Seq::<Key>::empty(),
            tx.executed_index == 0,
            tx.wf(),
    {
        let tx = MsTransaction {
            creator,
            ms: multisig,
            transaction_index,
            authority_index,
            authority_bump,
            status: MsTransactionStatus::Draft { timestamp: now },
            instruction_index: 0,
            bump,
            approved: Vec::new(),
            rejected: Vec::new(),
            cancelled: Vec::new(),
            executed_index: 0,
        };
        proof {
            assert(tx.approved@ =~= Seq::<Key>::empty());
            assert(tx.rejected@ =~= Seq::<Key>::empty());
            assert(tx.cancelled@ =~= Seq::<Key>::empty());
        }
        tx
    }

    /// Enter `Active` at time `now`.
    pub fn activate(&mut self, now: i64) -> (r: Result<(), MsError>)
        ensures
            r is Ok,
            *final(self) == (MsTransaction {
                status: MsTransactionStatus::Active { timestamp: now },
                ..*old(self)
            }),
    {
        self.status = MsTransactionStatus::Active { timestamp: now };
        Ok(())
    }

    /// Enter `ExecuteReady` at time `now`.
    pub fn ready_to_execute(&mut self, now: i64) -> (r: Result<(), MsError>)
        ensures
            r is Ok,
            *final(self) == (MsTransaction {
                status: MsTransactionStatus::ExecuteReady { timestamp: now },
                ..*old(self)
            }),
    {
        self.status = MsTransactionStatus::ExecuteReady { timestamp: now };
        Ok(())
    }

    /// Enter the terminal `Rejected` state at time `now`.
    pub fn set_rejected(&mut self, now: i64) -> (r: Result<(), MsError>)
        ensures
            r is Ok,
            *final(self) == (MsTransaction {
                status: MsTransactionStatus::Rejected { timestamp: now },
                ..*old(self)
            }),
    {
        self.status = MsTransactionStatus::Rejected { timestamp: now };
        Ok(())
    }

    /// Enter the terminal `Cancelled` state at time `now`.
    pub fn set_cancelled(&mut self, now: i64) -> (r: Result<(), MsError>)
        ensures
            r is Ok,
            *final(self) == (MsTransaction {
                status: MsTransactionStatus::Cancelled { timestamp: now },
                ..*old(self)
            }),
    {
        self.status = MsTransactionStatus::Cancelled { timestamp: now };
        Ok(())
    }

    /// Enter the terminal `Executed` state at time `now`.
    pub fn set_executed(&mut self, now: i64) -> (r: Result<(), MsError>)
        ensures
            r is Ok,
            *final(self) == (MsTransaction {
                status: MsTransactionStatus::Executed { timestamp: now },
                ..*old(self)
            }),
    {
        self.status = MsTransactionStatus::Executed { timestamp: now };
        Ok(())
    }

    /// Record an approval vote for a member that has not approved yet.
    pub fn sign(&mut self, member: Key) -> (r: Result<(), MsError>)
        requires
            sorted_unique(old(self).approved@),
            !old(self).approved@.contains(member),
        ensures
            r is Ok,
            sorted_unique(final(self).approved@),
            final(self).approved@.len() == old(self).approved@.len() + 1,
            final(self).approved@.to_set() == old(self).approved@.to_set().insert(member),
            final(self).approved@.contains(member),
            *final(self) == (MsTransaction { approved: final(self).approved, ..*old(self) }),
    {
        insert_key(&mut self.approved, member);
        Ok(())
    }

    /// Record a rejection vote for a member that has not rejected yet.
    pub fn reject(&mut self, member: Key) -> (r: Result<(), MsError>)
        requires
            sorted_unique(old(self).rejected@),
            !old(self).rejected@.contains(member),
        ensures
            r is Ok,
            sorted_unique(final(self).rejected@),
            final(self).rejected@.len() == old(self).rejected@.len() + 1,
            final(self).rejected@.to_set() == old(self).rejected@.to_set().insert(member),
            final(self).rejected@.contains(member),
            *final(self) == (MsTransaction { rejected: final(self).rejected, ..*old(self) }),
    {
        insert_key(&mut self.rejected, member);
        Ok(())
    }

    /// Record a cancel vote for a member that has not voted to cancel yet.
    pub fn cancel(&mut self, member: Key) -> (r: Result<(), MsError>)
        requires
            sorted_unique(old(self).cancelled@),
            !old(self).cancelled@.contains(member),
        ensures
            r is Ok,
            sorted_unique(final(self).cancelled@),
            final(self).cancelled@.len() == old(self).cancelled@.len() + 1,
            final(self).cancelled@.to_set() == old(self).cancelled@.to_set().insert(member),
            final(self).cancelled@.contains(member),
            *final(self) == (MsTransaction { cancelled: final(self).cancelled, ..*old(self) }),
    {
        insert_key(&mut self.cancelled, member);
        Ok(())
    }

    /// Whether the member has an approval or rejection vote on record.
    pub fn has_voted(&self, member: Key) -> (r: bool)
        requires
            sorted_unique(self.approved@),
            sorted_unique(self.rejected@),
        ensures
            r == (self.approved@.contains(member) || self.rejected@.contains(member)),
    {
        let approved = find_key(&self.approved, &member).is_some();
        let rejected = find_key(&self.rejected, &member).is_some();
        approved || rejected
    }

    /// Position of the member's approval vote, if any.
    pub fn has_voted_approve(&self, member: Key) -> (r: Option<usize>)
        requires
            sorted_unique(self.approved@),
        ensures
            r is Some <==> self.approved@.contains(member),
            r is Some ==> r->Some_0 < self.approved@.len() && self.approved@[r->Some_0 as int]
                == member,
    {
        find_key(&self.approved, &member)
    }

    /// Position of the member's rejection vote, if any.
    pub fn has_voted_reject(&self, member: Key) -> (r: Option<usize>)
        requires
            sorted_unique(self.rejected@),
        ensures
            r is Some <==> self.rejected@.contains(member),
            r is Some ==> r->Some_0 < self.rejected@.len() && self.rejected@[r->Some_0 as int]
                == member,
    {
        find_key(&self.rejected, &member)
    }

    /// Position of the member's cancel vote, if any.
    pub fn has_cancelled(&self, member: Key) -> (r: Option<usize>)
        requires
            sorted_unique(self.cancelled@),
        ensures
            r is Some <==> self.cancelled@.contains(member),
            r is Some ==> r->Some_0 < self.cancelled@.len() && self.cancelled@[r->Some_0 as int]
                == member,
    {
        find_key(&self.cancelled, &member)
    }

    /// Drop the rejection vote at `index` (a member switching to approve).
    pub fn remove_reject(&mut self, index: usize) -> (r: Result<(), MsError>)
        requires
            sorted_unique(old(self).rejected@),
            index < old(self).rejected@.len(),
        ensures
            r is Ok,
            sorted_unique(final(self).rejected@),
            final(self).rejected@.len() == old(self).rejected@.len() - 1,
            final(self).rejected@.to_set() == old(self).rejected@.to_set().remove(
                old(self).rejected@[index as int],
            ),
            !final(self).rejected@.contains(old(self).rejected@[index as int]),
            *final(self) == (MsTransaction { rejected: final(self).rejected, ..*old(self) }),
    {
        remove_at(&mut self.rejected, index);
        Ok(())
    }

    /// Drop the approval vote at `index` (a member switching to reject).
    pub fn remove_approve(&mut self, index: usize) -> (r: Result<(), MsError>)
        requires
            sorted_unique(old(self).approved@),
            index < old(self).approved@.len(),
        ensures
            r is Ok,
            sorted_unique(final(self).approved@),
            final(self).approved@.len() == old(self).approved@.len() - 1,
            final(self).approved@.to_set() == old(self).approved@.to_set().remove(
                old(self).approved@[index as int],
            ),
            !final(self).approved@.contains(old(self).approved@[index as int]),
            *final(self) == (MsTransaction { approved: final(self).approved, ..*old(self) }),
    {
        remove_at(&mut self.approved, index);
        Ok(())
    }
}

} // verus!
