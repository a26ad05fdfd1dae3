//! Transaction lifecycle operations: creation, instruction attachment,
//! activation and voting. Every operation re-validates the caller's
//! membership, the registry's derived address, and the deprecation rule
//! before touching any state, so a failed call leaves every record as it
//! was.

use vstd::prelude::*;
use crate::key::Key;
use crate::keyset::sorted_unique;
use crate::ms::Ms;
use crate::transaction::{MsTransaction, MsTransactionStatus};
use crate::instruction::{MsInstruction, IncomingInstruction};
use crate::errors::MsError;
use crate::pda::{pda_of, multisig_seeds, authority_seeds, derive_multisig, derive_authority};

verus! {

/// The registry's own address under `program`, provided the stored
/// derivation proof matches; `None` when the registry's identity cannot
/// be re-derived.
pub open spec fn derived_ms_key(ms: Ms, program: Key) -> Option<Key> {
    match pda_of(multisig_seeds(ms.create_key), program) {
        Some(kb) => if kb.1 == ms.bump {
            Some(kb.0)
        } else {
            None
        },
        None => None,
    }
}

/// Re-derive the registry's address and hold it against the stored
/// derivation proof.
pub fn check_ms_address(ms: &Ms, program: &Key) -> (r: Option<Key>)
    ensures
        r == derived_ms_key(*ms, *program),
{
    match derive_multisig(&ms.create_key, program) {
        Some((k, b)) => if b == ms.bump {
            Some(k)
        } else {
            None
        },
        None => None,
    }
}

/// The validation chain of `create_transaction`, in check order.
pub open spec fn create_transaction_error(
    ms: Ms,
    creator: Key,
    authority_index: u32,
    program: Key,
) -> Option<MsError> {
    if !ms.spec_is_member(creator) {
        Some(MsError::KeyNotInMultisig)
    } else if derived_ms_key(ms, program) is None {
        Some(MsError::InvalidInstructionAccount)
    } else if authority_index >= 1 && pda_of(
        authority_seeds(derived_ms_key(ms, program)->Some_0, authority_index),
        program,
    ) is None {
        Some(MsError::InvalidAuthorityIndex)
    } else {
        None
    }
}

/// Create a transaction under the registry: assign it the next index,
/// fix its signing authority and derivation proofs, and start it in
/// `Draft`. Authority zero is the registry's own identity; one and above
/// are derived vaults, whose derivation proof is re-computed here.
pub fn create_transaction(
    ms: &mut Ms,
    creator: Key,
    authority_index: u32,
    tx_bump: u8,
    program_id: &Key,
    now: i64,
) -> (r: Result<MsTransaction, MsError>)
    requires
        old(ms).wf(),
        old(ms).transaction_index < u32::MAX,
    ensures
        r is Ok <==> create_transaction_error(*old(ms), creator, authority_index, *program_id)
            is None,
        r is Err ==> Some(r->Err_0) == create_transaction_error(
            *old(ms),
            creator,
            authority_index,
            *program_id,
        ) && *final(ms) == *old(ms),
        r is Ok ==> {
            let tx = r->Ok_0;
            let ms_key = derived_ms_key(*old(ms), *program_id)->Some_0;
            &&& *final(ms) == (Ms {
                transaction_index: (old(ms).transaction_index + 1) as u32,
                ..*old(ms)
            })
            &&& tx.creator == creator
            &&& tx.ms == ms_key
            &&& tx.transaction_index == old(ms).transaction_index + 1
            &&& tx.authority_index == authority_index
            &&& tx.authority_bump == (if authority_index >= 1 {
                pda_of(authority_seeds(ms_key, authority_index), *program_id)->Some_0.1
            } else {
                old(ms).bump
            })
            &&& tx.status == (MsTransactionStatus::Draft { timestamp: now })
            &&& tx.instruction_index == 0
            &&& tx.bump == tx_bump
            &&& tx.executed_index == 0
            &&& tx.approved@.len() == 0
            &&& tx.rejected@.len() == 0
            &&& tx.cancelled@.len() == 0
            &&& tx.wf()
        },
{
    if ms.is_member(creator).is_none() {
        return Err(MsError::KeyNotInMultisig);
    }
    let ms_key = match check_ms_address(ms, program_id) {
        Some(k) => k,
        None => { return Err(MsError::InvalidInstructionAccount) },
    };
    let authority_bump = if authority_index >= 1 {
        match derive_authority(&ms_key, authority_index, program_id) {
            Some((_, b)) => b,
            None => { return Err(MsError::InvalidAuthorityIndex) },
        }
    } else {
        ms.bump
    };
    ms.transaction_index = ms.transaction_index + 1;
    Ok(
        MsTransaction::init(
            creator,
            ms_key,
            ms.transaction_index,
            tx_bump,
            authority_index,
            authority_bump,
            now,
        ),
    )
}

/// The validation chain of `activate_transaction`, in check order.
pub open spec fn activate_error(ms: Ms, tx: MsTransaction, creator: Key, program: Key) -> Option<
    MsError,
> {
    if !ms.spec_is_member(creator) {
        Some(MsError::KeyNotInMultisig)
    } else if derived_ms_key(ms, program) is None {
        Some(MsError::InvalidInstructionAccount)
    } else if tx.ms != derived_ms_key(ms, program)->Some_0 {
        Some(MsError::InvalidInstructionAccount)
    } else if tx.creator != creator {
        Some(MsError::UnauthorizedMember)
    } else if !(tx.status is Draft) {
        Some(MsError::InvalidTransactionState)
    } else if tx.transaction_index <= ms.ms_change_index {
        Some(MsError::DeprecatedTransaction)
    } else {
        None
    }
}

/// Move a draft to `Active`: only its creator, only while the draft is
/// not deprecated by a later configuration change.
pub fn activate_transaction(
    ms: &Ms,
    tx: &mut MsTransaction,
    creator: Key,
    program_id: &Key,
    now: i64,
) -> (r: Result<(), MsError>)
    requires
        ms.wf(),
    ensures
        r is Ok <==> activate_error(*ms, *old(tx), creator, *program_id) is None,
        r is Err ==> Some(r->Err_0) == activate_error(*ms, *old(tx), creator, *program_id)
            && *final(tx) == *old(tx),
        r is Ok ==> *final(tx) == (MsTransaction {
            status: MsTransactionStatus::Active { timestamp: now },
            ..*old(tx)
        }),
{
    if ms.is_member(creator).is_none() {
        return Err(MsError::KeyNotInMultisig);
    }
    let ms_key = match check_ms_address(ms, program_id) {
        Some(k) => k,
        None => { return Err(MsError::InvalidInstructionAccount) },
    };
    if !tx.ms.eq_key(&ms_key) {
        return Err(MsError::InvalidInstructionAccount);
    }
    if !tx.creator.eq_key(&creator) {
        return Err(MsError::UnauthorizedMember);
    }
    match tx.status {
        MsTransactionStatus::Draft { .. } => {},
        _ => { return Err(MsError::InvalidTransactionState) },
    }
    if tx.transaction_index <= ms.ms_change_index {
        return Err(MsError::DeprecatedTransaction);
    }
    match tx.activate(now) {
        Ok(_) => {},
        Err(e) => { return Err(e) },
    }
    Ok(())
}

/// The validation chain of `add_instruction`, in check order. An
/// internal-authority transaction may only target this program itself,
/// which keeps the registry's own signing identity away from foreign
/// programs.
pub open spec fn add_instruction_error(
    ms: Ms,
    tx: MsTransaction,
    creator: Key,
    incoming_program: Key,
    program: Key,
) -> Option<MsError> {
    if !ms.spec_is_member(creator) {
        Some(MsError::KeyNotInMultisig)
    } else if derived_ms_key(ms, program) is None {
        Some(MsError::InvalidInstructionAccount)
    } else if tx.ms != derived_ms_key(ms, program)->Some_0 {
        Some(MsError::InvalidInstructionAccount)
    } else if tx.creator != creator {
        Some(MsError::UnauthorizedMember)
    } else if !(tx.status is Draft) {
        Some(MsError::InvalidTransactionState)
    } else if tx.authority_index == 0 && incoming_program != program {
        Some(MsError::InvalidAuthorityIndex)
    } else {
        None
    }
}

/// Attach an instruction to a draft: the record stores the submitted
/// descriptor verbatim under the next one-based index.
pub fn add_instruction(
    ms: &Ms,
    tx: &mut MsTransaction,
    creator: Key,
    incoming_instruction: IncomingInstruction,
    ix_bump: u8,
    program_id: &Key,
) -> (r: Result<MsInstruction, MsError>)
    requires
        ms.wf(),
        old(tx).instruction_index < u8::MAX,
    ensures
        r is Ok <==> add_instruction_error(
            *ms,
            *old(tx),
            creator,
            incoming_instruction.program_id,
            *program_id,
        ) is None,
        r is Err ==> Some(r->Err_0) == add_instruction_error(
            *ms,
            *old(tx),
            creator,
            incoming_instruction.program_id,
            *program_id,
        ) && *final(tx) == *old(tx),
        r is Ok ==> {
            let ix = r->Ok_0;
            &&& *final(tx) == (MsTransaction {
                instruction_index: (old(tx).instruction_index + 1) as u8,
                ..*old(tx)
            })
            &&& ix.program_id == incoming_instruction.program_id
            &&& ix.keys@ == incoming_instruction.keys@
            &&& ix.data@ == incoming_instruction.data@
            &&& ix.instruction_index == old(tx).instruction_index + 1
            &&& ix.bump == ix_bump
        },
{
    if ms.is_member(creator).is_none() {
        return Err(MsError::KeyNotInMultisig);
    }
    let ms_key = match check_ms_address(ms, program_id) {
        Some(k) => k,
        None => { return Err(MsError::InvalidInstructionAccount) },
    };
    if !tx.ms.eq_key(&ms_key) {
        return Err(MsError::InvalidInstructionAccount);
    }
    if !tx.creator.eq_key(&creator) {
        return Err(MsError::UnauthorizedMember);
    }
    match tx.status {
        MsTransactionStatus::Draft { .. } => {},
        _ => { return Err(MsError::InvalidTransactionState) },
    }
    if tx.authority_index == 0 && !incoming_instruction.program_id.eq_key(program_id) {
        return Err(MsError::InvalidAuthorityIndex);
    }
    tx.instruction_index = tx.instruction_index + 1;
    Ok(MsInstruction::init(tx.instruction_index, incoming_instruction, ix_bump))
}

/// The validation chain shared by the two voting operations, in check
/// order: caller membership, registry identity, transaction linkage,
/// active status, and the deprecation rule.
pub open spec fn vote_checks_error(ms: Ms, tx: MsTransaction, member: Key, program: Key) -> Option<
    MsError,
> {
    if !ms.spec_is_member(member) {
        Some(MsError::KeyNotInMultisig)
    } else if derived_ms_key(ms, program) is None {
        Some(MsError::InvalidInstructionAccount)
    } else if tx.ms != derived_ms_key(ms, program)->Some_0 {
        Some(MsError::InvalidInstructionAccount)
    } else if !(tx.status is Active) {
        Some(MsError::InvalidTransactionState)
    } else if tx.transaction_index <= ms.ms_change_index {
        Some(MsError::DeprecatedTransaction)
    } else {
        None
    }
}

/// The validation chain of `approve_transaction`: the shared voting
/// checks, then the registry's time lock measured from activation.
pub open spec fn approve_error(
    ms: Ms,
    tx: MsTransaction,
    member: Key,
    program: Key,
    now: i64,
) -> Option<MsError> {
    match vote_checks_error(ms, tx, member, program) {
        Some(e) => Some(e),
        None => if now - tx.status->Active_timestamp < ms.time_lock {
            Some(MsError::TimeLockNotSatisfied)
        } else {
            None
        },
    }
}

/// What a successful approval does: the member's approval is recorded
/// (idempotently), any prior rejection by the member is withdrawn, and
/// the transaction becomes `ExecuteReady` exactly when the approval
/// count reaches the threshold.
pub open spec fn approve_ok_post(
    ms: Ms,
    pre: MsTransaction,
    post: MsTransaction,
    member: Key,
    now: i64,
) -> bool {
    &&& sorted_unique(post.approved@)
    &&& sorted_unique(post.rejected@)
    &&& post.approved@.to_set() == pre.approved@.to_set().insert(member)
    &&& post.approved@.len() == pre.approved@.len() + (if pre.approved@.contains(member) {
        0int
    } else {
        1int
    })
    &&& post.approved@.contains(member)
    &&& post.rejected@.to_set() == pre.rejected@.to_set().remove(member)
    &&& post.rejected@.len() == pre.rejected@.len() - (if pre.rejected@.contains(member) {
        1int
    } else {
        0int
    })
    &&& !post.rejected@.contains(member)
    &&& post.cancelled@ == pre.cancelled@
    &&& post.status == (if post.approved@.len() >= ms.threshold {
        MsTransactionStatus::ExecuteReady { timestamp: now }
    } else {
        pre.status
    })
    &&& post.creator == pre.creator
    &&& post.ms == pre.ms
    &&& post.transaction_index == pre.transaction_index
    &&& post.authority_index == pre.authority_index
    &&& post.authority_bump == pre.authority_bump
    &&& post.instruction_index == pre.instruction_index
    &&& post.bump == pre.bump
    &&& post.executed_index == pre.executed_index
}

/// Cast an approval vote. A repeated approval is a no-op; an approval
/// after a rejection switches the vote.
pub fn approve_transaction(
    ms: &Ms,
    tx: &mut MsTransaction,
    member: Key,
    program_id: &Key,
    now: i64,
) -> (r: Result<(), MsError>)
    requires
        ms.wf(),
        old(tx).wf(),
        old(tx).status is Active ==> 0 <= old(tx).status->Active_timestamp <= now,
    ensures
        r is Ok <==> approve_error(*ms, *old(tx), member, *program_id, now) is None,
        r is Err ==> Some(r->Err_0) == approve_error(*ms, *old(tx), member, *program_id, now)
            && *final(tx) == *old(tx),
        r is Ok ==> approve_ok_post(*ms, *old(tx), *final(tx), member, now),
        final(tx).wf(),
{
    if ms.is_member(member).is_none() {
        return Err(MsError::KeyNotInMultisig);
    }
    let ms_key = match check_ms_address(ms, program_id) {
        Some(k) => k,
        None => { return Err(MsError::InvalidInstructionAccount) },
    };
    if !tx.ms.eq_key(&ms_key) {
        return Err(MsError::InvalidInstructionAccount);
    }
    let activated_at = match tx.status {
        MsTransactionStatus::Active { timestamp } => timestamp,
        _ => { return Err(MsError::InvalidTransactionState) },
    };
    if tx.transaction_index <= ms.ms_change_index {
        return Err(MsError::DeprecatedTransaction);
    }
    if now - activated_at < (ms.time_lock as i64) {
        return Err(MsError::TimeLockNotSatisfied);
    }
    // Vote flip: an earlier rejection by this member is withdrawn.
    match tx.has_voted_reject(member) {
        Some(ind) => {
            match tx.remove_reject(ind) {
                Ok(_) => {},
                Err(e) => { return Err(e) },
            }
        },
        None => {
            proof {
                assert(tx.rejected@.to_set() =~= old(tx).rejected@.to_set().remove(member));
            }
        },
    }
    // Record the approval unless it is already on file.
    match tx.has_voted_approve(member) {
        Some(_) => {
            proof {
                assert(tx.approved@.to_set() =~= old(tx).approved@.to_set().insert(member));
            }
        },
        None => {
            match tx.sign(member) {
                Ok(_) => {},
                Err(e) => { return Err(e) },
            }
        },
    }
    // Threshold evaluation: enough approvals make the transaction ready.
    if tx.approved.len() >= (ms.threshold as usize) {
        match tx.ready_to_execute(now) {
            Ok(_) => {},
            Err(e) => { return Err(e) },
        }
    }
    Ok(())
}

/// What a successful rejection does: the member's rejection is recorded
/// (idempotently), any prior approval by the member is withdrawn, and
/// the transaction is `Rejected` exactly when the rejections exhaust the
/// approvals that could still reach the threshold.
pub open spec fn reject_ok_post(
    ms: Ms,
    pre: MsTransaction,
    post: MsTransaction,
    member: Key,
    now: i64,
) -> bool {
    &&& sorted_unique(post.approved@)
    &&& sorted_unique(post.rejected@)
    &&& post.rejected@.to_set() == pre.rejected@.to_set().insert(member)
    &&& post.rejected@.len() == pre.rejected@.len() + (if pre.rejected@.contains(member) {
        0int
    } else {
        1int
    })
    &&& post.rejected@.contains(member)
    &&& post.approved@.to_set() == pre.approved@.to_set().remove(member)
    &&& post.approved@.len() == pre.approved@.len() - (if pre.approved@.contains(member) {
        1int
    } else {
        0int
    })
    &&& !post.approved@.contains(member)
    &&& post.cancelled@ == pre.cancelled@
    &&& post.status == (if post.rejected@.len() > ms.keys@.len() - ms.threshold {
        MsTransactionStatus::Rejected { timestamp: now }
    } else {
        pre.status
    })
    &&& post.creator == pre.creator
    &&& post.ms == pre.ms
    &&& post.transaction_index == pre.transaction_index
    &&& post.authority_index == pre.authority_index
    &&& post.authority_bump == pre.authority_bump
    &&& post.instruction_index == pre.instruction_index
    &&& post.bump == pre.bump
    &&& post.executed_index == pre.executed_index
}

/// Cast a rejection vote. Rejection wins by exhaustion: once more members
/// reject than could be spared while still reaching the threshold, the
/// transaction is rejected for good.
pub fn reject_transaction(
    ms: &Ms,
    tx: &mut MsTransaction,
    member: Key,
    program_id: &Key,
    now: i64,
) -> (r: Result<(), MsError>)
    requires
        ms.wf(),
        old(tx).wf(),
    ensures
        r is Ok <==> vote_checks_error(*ms, *old(tx), member, *program_id) is None,
        r is Err ==> Some(r->Err_0) == vote_checks_error(*ms, *old(tx), member, *program_id)
            && *final(tx) == *old(tx),
        r is Ok ==> reject_ok_post(*ms, *old(tx), *final(tx), member, now),
        final(tx).wf(),
{
    if ms.is_member(member).is_none() {
        return Err(MsError::KeyNotInMultisig);
    }
    let ms_key = match check_ms_address(ms, program_id) {
        Some(k) => k,
        None => { return Err(MsError::InvalidInstructionAccount) },
    };
    if !tx.ms.eq_key(&ms_key) {
        return Err(MsError::InvalidInstructionAccount);
    }
    match tx.status {
        MsTransactionStatus::Active { .. } => {},
        _ => { return Err(MsError::InvalidTransactionState) },
    }
    if tx.transaction_index <= ms.ms_change_index {
        return Err(MsError::DeprecatedTransaction);
    }
    // Vote flip: an earlier approval by this member is withdrawn.
    match tx.has_voted_approve(member) {
        Some(ind) => {
            match tx.remove_approve(ind) {
                Ok(_) => {},
                Err(e) => { return Err(e) },
            }
        },
        None => {
            proof {
                assert(tx.approved@.to_set() =~= old(tx).approved@.to_set().remove(member));
            }
        },
    }
    // Record the rejection unless it is already on file.
    match tx.has_voted_reject(member) {
        Some(_) => {
            proof {
                assert(tx.rejected@.to_set() =~= old(tx).rejected@.to_set().insert(member));
            }
        },
        None => {
            match tx.reject(member) {
                Ok(_) => {},
                Err(e) => { return Err(e) },
            }
        },
    }
    // Rejection by exhaustion: more rejections than the members to spare.
    let cutoff = ms.keys.len() - (ms.threshold as usize);
    if tx.rejected.len() > cutoff {
        match tx.set_rejected(now) {
            Ok(_) => {},
            Err(e) => { return Err(e) },
        }
    }
    Ok(())
}

/// The validation chain of `cancel_transaction`, in check order. A
/// transaction that is ready to execute may be cancelled whether or not
/// it has been deprecated.
pub open spec fn cancel_checks_error(ms: Ms, tx: MsTransaction, member: Key, program: Key)
    -> Option<MsError> {
    if !ms.spec_is_member(member) {
        Some(MsError::KeyNotInMultisig)
    } else if derived_ms_key(ms, program) is None {
        Some(MsError::InvalidInstructionAccount)
    } else if tx.ms != derived_ms_key(ms, program)->Some_0 {
        Some(MsError::InvalidInstructionAccount)
    } else if !(tx.status is ExecuteReady) {
        Some(MsError::InvalidTransactionState)
    } else {
        None
    }
}

/// What a successful cancel vote does: the member's cancel vote is
/// recorded (idempotently) and the transaction is `Cancelled` exactly
/// when the cancel count reaches the threshold.
pub open spec fn cancel_ok_post(
    ms: Ms,
    pre: MsTransaction,
    post: MsTransaction,
    member: Key,
    now: i64,
) -> bool {
    &&& sorted_unique(post.cancelled@)
    &&& post.cancelled@.to_set() == pre.cancelled@.to_set().insert(member)
    &&& post.cancelled@.len() == pre.cancelled@.len() + (if pre.cancelled@.contains(member) {
        0int
    } else {
        1int
    })
    &&& post.cancelled@.contains(member)
    &&& post.approved@ == pre.approved@
    &&& post.rejected@ == pre.rejected@
    &&& post.status == (if post.cancelled@.len() >= ms.threshold {
        MsTransactionStatus::Cancelled { timestamp: now }
    } else {
        pre.status
    })
    &&& post.creator == pre.creator
    &&& post.ms == pre.ms
    &&& post.transaction_index == pre.transaction_index
    &&& post.authority_index == pre.authority_index
    &&& post.authority_bump == pre.authority_bump
    &&& post.instruction_index == pre.instruction_index
    &&& post.bump == pre.bump
    &&& post.executed_index == pre.executed_index
}

/// Cast a cancel vote on a transaction that is ready to execute. Enough
/// cancel votes are a hard stop even after quorum approval.
pub fn cancel_transaction(
    ms: &Ms,
    tx: &mut MsTransaction,
    member: Key,
    program_id: &Key,
    now: i64,
) -> (r: Result<(), MsError>)
    requires
        ms.wf(),
        old(tx).wf(),
    ensures
        r is Ok <==> cancel_checks_error(*ms, *old(tx), member, *program_id) is None,
        r is Err ==> Some(r->Err_0) == cancel_checks_error(*ms, *old(tx), member, *program_id)
            && *final(tx) == *old(tx),
        r is Ok ==> cancel_ok_post(*ms, *old(tx), *final(tx), member, now),
        final(tx).wf(),
{
    if ms.is_member(member).is_none() {
        return Err(MsError::KeyNotInMultisig);
    }
    let ms_key = match check_ms_address(ms, program_id) {
        Some(k) => k,
        None => { return Err(MsError::InvalidInstructionAccount) },
    };
    if !tx.ms.eq_key(&ms_key) {
        return Err(MsError::InvalidInstructionAccount);
    }
    match tx.status {
        MsTransactionStatus::ExecuteReady { .. } => {},
        _ => { return Err(MsError::InvalidTransactionState) },
    }
    // Record the cancel vote unless it is already on file.
    match tx.has_cancelled(member) {
        Some(_) => {
            proof {
                assert(tx.cancelled@.to_set() =~= old(tx).cancelled@.to_set().insert(member));
            }
        },
        None => {
            match tx.cancel(member) {
                Ok(_) => {},
                Err(e) => { return Err(e) },
            }
        },
    }
    // Threshold evaluation: enough cancel votes stop the transaction.
    if tx.cancelled.len() >= (ms.threshold as usize) {
        match tx.set_cancelled(now) {
            Ok(_) => {},
            Err(e) => { return Err(e) },
        }
    }
    Ok(())
}

} // verus!
