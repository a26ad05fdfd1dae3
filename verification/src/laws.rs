//! The guarantees that hold across operations, stated and proved in one
//! place: membership after creation, idempotent and switchable voting,
//! threshold and exhaustion quorums, deprecation by configuration
//! change, strict sequential ordering, the exclusion between atomic and
//! sequential execution, and spending limit accounting.

use vstd::prelude::*;
use crate::key::Key;
use crate::keyset::lemma_sorted_unique_canonical;
use crate::ms::{Ms, Member, member_keys, MAX_TIME_LOCK};
use crate::transaction::{MsTransaction, MsTransactionStatus};
use crate::instruction::MsInstruction;
use crate::spending_limit::SpendingLimit;
use crate::errors::MsError;
use crate::registry_ops::{create_error, distinct_member_keys, change_index_bumped};
use crate::tx_ops::{
    activate_error, approve_error, vote_checks_error, approve_ok_post, reject_ok_post,
};
use crate::execute::{
    execute_transaction_error, execute_instruction_error, AccountRef,
};
use crate::spending_ops::{available_amount, advanced_last_reset, reset_due};

verus! {

/// Creation accepts every valid member set: non-empty, within capacity,
/// duplicate-free, with a threshold between one and the member count and
/// a bounded time lock.
pub proof fn lemma_create_accepts_valid_input(threshold: u16, members: Seq<Member>, time_lock: u32)
    requires
        1 <= threshold <= members.len() <= u16::MAX as int,
        distinct_member_keys(members),
        time_lock <= MAX_TIME_LOCK,
    ensures
        create_error(threshold, members, time_lock) is None,
{
}

/// A registry holding exactly the keys of an input member list counts as
/// member exactly those keys: membership asks for nothing more and
/// nothing less than occurrence in the input.
pub proof fn lemma_created_registry_membership(ms: Ms, members: Seq<Member>, k: Key)
    requires
        ms.member_set() == member_keys(members).to_set(),
    ensures
        ms.spec_is_member(k) <==> exists|i: int| 0 <= i < members.len() && members[i].key == k,
{
    assert(ms.member_set().contains(k) == member_keys(ms.keys@).contains(k));
    assert(member_keys(members).to_set().contains(k) == member_keys(members).contains(k));
    if member_keys(members).contains(k) {
        let i = choose|i: int|
            0 <= i < member_keys(members).len() && member_keys(members)[i] == k;
        assert(members[i].key == k);
    }
    if exists|i: int| 0 <= i < members.len() && members[i].key == k {
        let i = choose|i: int| 0 <= i < members.len() && members[i].key == k;
        assert(member_keys(members)[i] == k);
    }
}

/// Approval is idempotent: a second approval by the same member, at the
/// same time, leaves every part of the transaction exactly as the first
/// approval left it.
pub proof fn lemma_approve_idempotent(
    ms: Ms,
    t0: MsTransaction,
    t1: MsTransaction,
    t2: MsTransaction,
    m: Key,
    now: i64,
)
    requires
        approve_ok_post(ms, t0, t1, m, now),
        approve_ok_post(ms, t1, t2, m, now),
    ensures
        t2.approved@ == t1.approved@,
        t2.rejected@ == t1.rejected@,
        t2.cancelled@ == t1.cancelled@,
        t2.status == t1.status,
        t2.executed_index == t1.executed_index,
        t2.instruction_index == t1.instruction_index,
{
    assert(t1.approved@.to_set().contains(m));
    assert(t2.approved@.to_set() =~= t1.approved@.to_set());
    lemma_sorted_unique_canonical(t2.approved@, t1.approved@);
    assert(!t1.rejected@.to_set().contains(m));
    assert(t2.rejected@.to_set() =~= t1.rejected@.to_set());
    lemma_sorted_unique_canonical(t2.rejected@, t1.rejected@);
}

/// Approving and then rejecting removes the approval and records only
/// the rejection: the vote is switched, not duplicated.
pub proof fn lemma_approve_then_reject(
    ms: Ms,
    t0: MsTransaction,
    t1: MsTransaction,
    t2: MsTransaction,
    m: Key,
    now1: i64,
    now2: i64,
)
    requires
        approve_ok_post(ms, t0, t1, m, now1),
        reject_ok_post(ms, t1, t2, m, now2),
    ensures
        t2.approved@.to_set() == t0.approved@.to_set().remove(m),
        !t2.approved@.contains(m),
        t2.rejected@.to_set() == t0.rejected@.to_set().insert(m),
        t2.rejected@.contains(m),
{
    assert(t2.approved@.to_set() =~= t0.approved@.to_set().remove(m));
    assert(t2.rejected@.to_set() =~= t0.rejected@.to_set().insert(m));
}

/// A transaction becomes `ExecuteReady` exactly when the approval count
/// reaches the threshold, and never before: below the threshold it stays
/// in the `Active` state it came from.
pub proof fn lemma_execute_ready_exactly_at_threshold(
    ms: Ms,
    pre: MsTransaction,
    post: MsTransaction,
    m: Key,
    now: i64,
)
    requires
        approve_ok_post(ms, pre, post, m, now),
        pre.status is Active,
    ensures
        post.status is ExecuteReady <==> post.approved@.len() >= ms.threshold,
        post.approved@.len() < ms.threshold ==> post.status == pre.status,
{
}

/// A transaction becomes `Rejected` exactly when the rejections exceed
/// the members that could be spared while still reaching the threshold.
pub proof fn lemma_rejected_exactly_at_cutoff(
    ms: Ms,
    pre: MsTransaction,
    post: MsTransaction,
    m: Key,
    now: i64,
)
    requires
        reject_ok_post(ms, pre, post, m, now),
        pre.status is Active,
    ensures
        post.status is Rejected <==> post.rejected@.len() > ms.keys@.len() - ms.threshold,
        post.rejected@.len() <= ms.keys@.len() - ms.threshold ==> post.status == pre.status,
{
}

/// A configuration change deprecates every transaction created at or
/// before it: the change index lands on the registry's transaction
/// counter, so no earlier transaction index stays above it.
pub proof fn lemma_config_change_deprecates(pre: Ms, post: Ms, tx: MsTransaction)
    requires
        change_index_bumped(pre, post),
        tx.transaction_index <= pre.transaction_index,
    ensures
        tx.transaction_index <= post.ms_change_index,
{
}

/// A deprecated transaction is permanently unusable, whatever state it
/// reached: activation, either vote, and both execution paths are all
/// refused.
pub proof fn lemma_deprecated_transaction_unusable(
    ms: Ms,
    tx: MsTransaction,
    ix: MsInstruction,
    actor: Key,
    program: Key,
    ixs: Seq<MsInstruction>,
    mapped: Seq<AccountRef>,
    supplied: Seq<AccountRef>,
    now: i64,
)
    requires
        tx.transaction_index <= ms.ms_change_index,
    ensures
        activate_error(ms, tx, actor, program) is Some,
        approve_error(ms, tx, actor, program, now) is Some,
        vote_checks_error(ms, tx, actor, program) is Some,
        execute_transaction_error(ms, tx, actor, program, ixs, mapped) is Some,
        execute_instruction_error(ms, tx, ix, actor, program, supplied) is Some,
{
}

/// Sequential execution is strictly ordered: an instruction whose index
/// is not exactly the next one is refused.
pub proof fn lemma_sequential_strict_order(
    ms: Ms,
    tx: MsTransaction,
    ix: MsInstruction,
    member: Key,
    program: Key,
    supplied: Seq<AccountRef>,
)
    requires
        ix.instruction_index != tx.executed_index + 1,
    ensures
        execute_instruction_error(ms, tx, ix, member, program, supplied) is Some,
{
}

/// Executing the last attached instruction completes the transaction:
/// the executed counter lands on the instruction count and the status is
/// terminal `Executed`.
pub proof fn lemma_sequential_completion(
    pre: MsTransaction,
    post: MsTransaction,
    ix: MsInstruction,
    now: i64,
)
    requires
        post == (MsTransaction {
            executed_index: ix.instruction_index,
            status: if ix.instruction_index == pre.instruction_index {
                MsTransactionStatus::Executed { timestamp: now }
            } else {
                pre.status
            },
            ..pre
        }),
        ix.instruction_index == pre.instruction_index,
    ensures
        post.status is Executed,
        post.executed_index == pre.instruction_index,
{
}

/// Atomic and sequential execution exclude each other: once sequential
/// execution has begun, atomic execution is refused; and a transaction
/// no longer ready (for instance, already executed atomically) admits no
/// sequential step.
pub proof fn lemma_atomic_sequential_exclusive(
    ms: Ms,
    tx: MsTransaction,
    ix: MsInstruction,
    member: Key,
    program: Key,
    ixs: Seq<MsInstruction>,
    mapped: Seq<AccountRef>,
    supplied: Seq<AccountRef>,
)
    ensures
        tx.executed_index >= 1 ==> execute_transaction_error(ms, tx, member, program, ixs, mapped)
            is Some,
        !(tx.status is ExecuteReady) ==> execute_instruction_error(
            ms,
            tx,
            ix,
            member,
            program,
            supplied,
        ) is Some,
{
}

/// Spending limit accounting: what remains never exceeds the cap (and,
/// being unsigned, never drops below zero), and once a whole period has
/// passed a use draws from the full cap, reset before deduction.
pub proof fn lemma_spending_limit_balance(
    pre: SpendingLimit,
    post: SpendingLimit,
    amount: u64,
    now: i64,
)
    requires
        pre.wf(),
        0 <= pre.last_reset <= now,
        amount <= available_amount(pre, now),
        post == (SpendingLimit {
            remaining_amount: (available_amount(pre, now) - amount) as u64,
            last_reset: advanced_last_reset(pre, now) as i64,
            ..pre
        }),
    ensures
        post.wf(),
        reset_due(pre, now) ==> post.remaining_amount == pre.amount - amount,
        !reset_due(pre, now) ==> post.remaining_amount == pre.remaining_amount - amount,
{
}

} // verus!
