//! The execution engine. It validates the transaction's state and the
//! whole supplied account list against the stored instruction records,
//! re-derives every address instead of trusting a handle, guards the
//! registry's own signing identity against re-entrant self-invocation,
//! and hands the host an ordered list of instruction descriptors together
//! with the derived signer seeds. The host performs the invocations; if
//! any of them fails, the host rolls the whole invocation back, record
//! changes included.

use vstd::prelude::*;
use crate::key::Key;
use crate::ms::Ms;
use crate::transaction::{MsTransaction, MsTransactionStatus};
use crate::instruction::{MsInstruction, IncomingInstruction};
use crate::errors::MsError;
use crate::pda::{
    pda_of, transaction_seeds, instruction_seeds, authority_signer_seeds, multisig_signer_seeds,
    derive_transaction, derive_instruction, build_authority_signer_seeds,
    build_multisig_signer_seeds,
};
use crate::tx_ops::{derived_ms_key, check_ms_address};

verus! {

/// Leading dispatch bytes of the atomic execution operation.
pub open spec fn exec_tx_discriminator() -> Seq<u8> {
    seq![0xe7u8, 0xad, 0x31, 0x5b, 0xeb, 0x18, 0x44, 0x13]
}

/// Leading dispatch bytes of the sequential execution operation.
pub open spec fn exec_ix_discriminator() -> Seq<u8> {
    seq![0x30u8, 0x12, 0x28, 0x28, 0x4b, 0x4a, 0x93, 0x6e]
}

/// Whether a payload would dispatch back into one of this program's own
/// execution operations. Such payloads are refused for the registry's
/// internal authority: a self-authorized transaction must not re-trigger
/// execution and bypass the quorum.
pub open spec fn is_self_execution_payload(d: Seq<u8>) -> bool {
    d.len() >= 8 && (d.subrange(0, 8) == exec_tx_discriminator() || d.subrange(0, 8)
        == exec_ix_discriminator())
}

/// Build the atomic execution dispatch bytes.
fn exec_tx_discriminator_vec() -> (r: Vec<u8>)
    ensures
        r@ == exec_tx_discriminator(),
{
    let mut v: Vec<u8> = Vec::new();
    v.push(0xe7);
    v.push(0xad);
    v.push(0x31);
    v.push(0x5b);
    v.push(0xeb);
    v.push(0x18);
    v.push(0x44);
    v.push(0x13);
    proof {
        assert(v@ =~= exec_tx_discriminator());
    }
    v
}

/// Build the sequential execution dispatch bytes.
fn exec_ix_discriminator_vec() -> (r: Vec<u8>)
    ensures
        r@ == exec_ix_discriminator(),
{
    let mut v: Vec<u8> = Vec::new();
    v.push(0x30);
    v.push(0x12);
    v.push(0x28);
    v.push(0x28);
    v.push(0x4b);
    v.push(0x4a);
    v.push(0x93);
    v.push(0x6e);
    proof {
        assert(v@ =~= exec_ix_discriminator());
    }
    v
}

/// Test whether eight payload bytes match one discriminator.
fn prefix_matches(data: &Vec<u8>, disc: &Vec<u8>) -> (r: bool)
    requires
        data@.len() >= 8,
        disc@.len() == 8,
    ensures
        r == (data@.subrange(0, 8) == disc@),
{
    let mut k: usize = 0;
    while k < 8
        invariant
            k <= 8,
            data@.len() >= 8,
            disc@.len() == 8,
            forall|j: int| 0 <= j < k ==> data@[j] == disc@[j],
        decreases 8 - k,
    {
        if data[k] != disc[k] {
            proof {
                assert(data@.subrange(0, 8)[k as int] == data@[k as int]);
            }
            return false;
        }
        k = k + 1;
    }
    proof {
        assert(data@.subrange(0, 8) =~= disc@);
    }
    true
}

/// Test whether a payload would dispatch back into this program's own
/// execution operations.
pub fn payload_is_self_execution(data: &Vec<u8>) -> (r: bool)
    ensures
        r == is_self_execution_payload(data@),
{
    if data.len() < 8 {
        return false;
    }
    let d1 = exec_tx_discriminator_vec();
    let d2 = exec_ix_discriminator_vec();
    let m1 = prefix_matches(data, &d1);
    let m2 = prefix_matches(data, &d2);
    m1 || m2
}

/// One supplied account: its address and its owning program.
#[derive(Clone, Copy, PartialEq, Eq, Structural, Debug)]
pub struct AccountRef {
    pub key: Key,
    pub owner: Key,
}

/// What the host must perform after a successful execution: the stored
/// instruction descriptors, in order, each to be invoked signed with the
/// one set of signer seeds.
pub struct ExecutionPlan {
    pub signer_seeds: Vec<Vec<u8>>,
    pub calls: Vec<IncomingInstruction>,
}

/// The supplied account list after index remapping: entry `i` of the
/// index list picks the account to stand at position `i`.
pub open spec fn remap_accounts(supplied: Seq<AccountRef>, account_list: Seq<u8>) -> Seq<
    AccountRef,
> {
    Seq::new(account_list.len(), |i: int| supplied[account_list[i] as int])
}

/// The transaction's own address under `program`, provided the stored
/// derivation proof matches.
pub open spec fn derived_tx_key(tx: MsTransaction, program: Key) -> Option<Key> {
    match pda_of(transaction_seeds(tx.ms, tx.transaction_index), program) {
        Some(kb) => if kb.1 == tx.bump {
            Some(kb.0)
        } else {
            None
        },
        None => None,
    }
}

/// Whether `account` is the derived address of instruction `seqno` under
/// the transaction at `tx_key`.
pub open spec fn ix_pda_ok(tx_key: Key, seqno: u8, program: Key, account: Key) -> bool {
    match pda_of(instruction_seeds(tx_key, seqno), program) {
        Some(kb) => kb.0 == account,
        None => false,
    }
}

/// Accounts one instruction consumes from the supplied list: its own
/// record, its target program, and its declared accounts.
pub open spec fn account_block_len(ix: MsInstruction) -> int {
    2 + ix.keys@.len() as int
}

/// Where instruction `i + 1`'s account block begins.
pub open spec fn block_start(ixs: Seq<MsInstruction>, i: int) -> int
    decreases i,
{
    if i <= 0 {
        0
    } else {
        block_start(ixs, i - 1) + account_block_len(ixs[i - 1])
    }
}

/// The validation chain of one instruction's account block, in check
/// order: the record account must be present, owned by this program and
/// at its derived address; the target program account must be present
/// and match the record; every declared account must be present and
/// match in order; and for the internal authority the target must be
/// this program itself with a payload that is not a re-entrant
/// self-invocation.
pub open spec fn block_error(
    ix: MsInstruction,
    seqno: u8,
    start: int,
    mapped: Seq<AccountRef>,
    tx_key: Key,
    auth_zero: bool,
    program: Key,
) -> Option<MsError> {
    if mapped.len() <= start {
        Some(MsError::InvalidNumberOfAccounts)
    } else if mapped[start].owner != program {
        Some(MsError::InvalidInstructionAccount)
    } else if !ix_pda_ok(tx_key, seqno, program, mapped[start].key) {
        Some(MsError::InvalidInstructionAccount)
    } else if mapped.len() <= start + 1 {
        Some(MsError::InvalidNumberOfAccounts)
    } else if mapped[start + 1].key != ix.program_id {
        Some(MsError::InvalidInstructionAccount)
    } else if exists|k: int|
        0 <= k < ix.keys@.len() && start + 2 + k < mapped.len() && mapped[start + 2 + k].key
            != ix.keys@[k].pubkey {
        Some(MsError::InvalidInstructionAccount)
    } else if mapped.len() < start + 2 + ix.keys@.len() {
        Some(MsError::InvalidNumberOfAccounts)
    } else if auth_zero && ix.program_id != program {
        Some(MsError::InvalidAuthorityIndex)
    } else if auth_zero && is_self_execution_payload(ix.data@) {
        Some(MsError::InvalidAuthorityIndex)
    } else {
        None
    }
}

/// The first failure among the account blocks of instructions one
/// through `n`, walked in order.
pub open spec fn blocks_error(
    ixs: Seq<MsInstruction>,
    mapped: Seq<AccountRef>,
    tx_key: Key,
    auth_zero: bool,
    program: Key,
    n: int,
) -> Option<MsError>
    decreases n,
{
    if n <= 0 {
        None
    } else {
        match blocks_error(ixs, mapped, tx_key, auth_zero, program, n - 1) {
            Some(e) => Some(e),
            None => block_error(
                ixs[n - 1],
                n as u8,
                block_start(ixs, n - 1),
                mapped,
                tx_key,
                auth_zero,
                program,
            ),
        }
    }
}

/// Once a block has failed, every longer walk reports that same first
/// failure.
proof fn lemma_blocks_error_prefix(
    ixs: Seq<MsInstruction>,
    mapped: Seq<AccountRef>,
    tx_key: Key,
    auth_zero: bool,
    program: Key,
    i: int,
    n: int,
)
    requires
        0 <= i <= n,
        blocks_error(ixs, mapped, tx_key, auth_zero, program, i) is Some,
    ensures
        blocks_error(ixs, mapped, tx_key, auth_zero, program, n) == blocks_error(
            ixs,
            mapped,
            tx_key,
            auth_zero,
            program,
            i,
        ),
    decreases n,
{
    if n > i {
        lemma_blocks_error_prefix(ixs, mapped, tx_key, auth_zero, program, i, n - 1);
    }
}

/// The validation chain of `execute_transaction`, in check order: the
/// caller's membership, the registry's identity, the transaction's
/// linkage, readiness, the deprecation rule, the bar on mixing with
/// sequential execution, and then — unless nothing is attached — the
/// transaction's own derived address and every instruction's account
/// block.
pub open spec fn execute_transaction_error(
    ms: Ms,
    tx: MsTransaction,
    member: Key,
    program: Key,
    ixs: Seq<MsInstruction>,
    mapped: Seq<AccountRef>,
) -> Option<MsError> {
    if !ms.spec_is_member(member) {
        Some(MsError::KeyNotInMultisig)
    } else if derived_ms_key(ms, program) is None {
        Some(MsError::InvalidInstructionAccount)
    } else if tx.ms != derived_ms_key(ms, program)->Some_0 {
        Some(MsError::InvalidInstructionAccount)
    } else if !(tx.status is ExecuteReady) {
        Some(MsError::InvalidTransactionState)
    } else if tx.transaction_index <= ms.ms_change_index {
        Some(MsError::DeprecatedTransaction)
    } else if tx.executed_index >= 1 {
        Some(MsError::PartialExecution)
    } else if tx.instruction_index < 1 {
        None
    } else if derived_tx_key(tx, program) is None {
        Some(MsError::InvalidInstructionAccount)
    } else {
        blocks_error(
            ixs,
            mapped,
            derived_tx_key(tx, program)->Some_0,
            tx.authority_index == 0,
            program,
            tx.instruction_index as int,
        )
    }
}

/// Execute a ready transaction atomically: validate everything, mark the
/// record executed, and hand back the full ordered list of invocations
/// with the derived signer seeds. With nothing attached the record is
/// simply marked executed. Atomic execution is refused once sequential
/// execution has begun.
#[verifier::loop_isolation(false)]
pub fn execute_transaction(
    ms: &Ms,
    tx: &mut MsTransaction,
    member: Key,
    program_id: &Key,
    ixs: &Vec<MsInstruction>,
    supplied: &Vec<AccountRef>,
    account_list: &Vec<u8>,
    now: i64,
) -> (r: Result<ExecutionPlan, MsError>)
    requires
        ms.wf(),
        old(tx).wf(),
        ixs@.len() == old(tx).instruction_index as int,
        forall|i: int| 0 <= i < account_list@.len() ==> (account_list@[i] as int)
            < supplied@.len(),
    ensures
        r is Ok <==> execute_transaction_error(
            *ms,
            *old(tx),
            member,
            *program_id,
            ixs@,
            remap_accounts(supplied@, account_list@),
        ) is None,
        r is Err ==> Some(r->Err_0) == execute_transaction_error(
            *ms,
            *old(tx),
            member,
            *program_id,
            ixs@,
            remap_accounts(supplied@, account_list@),
        ) && *final(tx) == *old(tx),
        r is Ok ==> {
            let plan = r->Ok_0;
            &&& *final(tx) == (MsTransaction {
                status: MsTransactionStatus::Executed { timestamp: now },
                executed_index: old(tx).instruction_index,
                ..*old(tx)
            })
            &&& plan.calls@.len() == old(tx).instruction_index as int
            &&& forall|j: int|
                0 <= j < plan.calls@.len() ==> {
                    &&& (#[trigger] plan.calls@[j]).program_id == ixs@[j].program_id
                    &&& plan.calls@[j].keys@ == ixs@[j].keys@
                    &&& plan.calls@[j].data@ == ixs@[j].data@
                }
            &&& old(tx).instruction_index >= 1 ==> plan.signer_seeds.deep_view() == (if old(
                tx,
            ).authority_index == 0 {
                multisig_signer_seeds(ms.create_key, ms.bump)
            } else {
                authority_signer_seeds(
                    derived_ms_key(*ms, *program_id)->Some_0,
                    old(tx).authority_index,
                    old(tx).authority_bump,
                )
            })
        },
{
    if ms.is_member(member).is_none() {
        return Err(MsError::KeyNotInMultisig);
    }
    let ms_key = match check_ms_address(ms, program_id) {
        Some(k) => k,
        None => { return Err(MsError::InvalidInstructionAccount) },
    };
    if !tx.ms.eq_key(&ms_key) {
        return Err(MsError::InvalidInstructionAccount);
    }
    match tx.status {
        MsTransactionStatus::ExecuteReady { .. } => {},
        _ => { return Err(MsError::InvalidTransactionState) },
    }
    if tx.transaction_index <= ms.ms_change_index {
        return Err(MsError::DeprecatedTransaction);
    }
    if tx.executed_index >= 1 {
        return Err(MsError::PartialExecution);
    }
    if tx.instruction_index < 1 {
        // Nothing attached: the transaction is executed by decree.
        match tx.set_executed(now) {
            Ok(_) => {},
            Err(e) => { return Err(e) },
        }
        return Ok(ExecutionPlan { signer_seeds: Vec::new(), calls: Vec::new() });
    }
    let (tx_key, tx_bump) = match derive_transaction(&ms_key, tx.transaction_index, program_id) {
        Some(kb) => kb,
        None => { return Err(MsError::InvalidInstructionAccount) },
    };
    if tx_bump != tx.bump {
        return Err(MsError::InvalidInstructionAccount);
    }
    // Unroll the index remapping into the account order the blocks use.
    let mut mapped: Vec<AccountRef> = Vec::new();
    let mut p: usize = 0;
    while p < account_list.len()
        invariant
            p <= account_list@.len(),
            mapped@.len() == p,
            forall|j: int| 0 <= j < p ==> mapped@[j] == supplied@[account_list@[j] as int],
        decreases account_list@.len() - p,
    {
        let idx = account_list[p] as usize;
        mapped.push(supplied[idx]);
        p = p + 1;
    }
    proof {
        assert(mapped@ =~= remap_accounts(supplied@, account_list@));
    }
    let auth_zero = tx.authority_index == 0;
    let n = tx.instruction_index as usize;
    let ghost gmapped = mapped@;
    let mut cursor: usize = 0;
    let mut calls: Vec<IncomingInstruction> = Vec::new();
    let mut i: usize = 1;
    while i <= n
        invariant
            1 <= i <= n + 1,
            cursor == block_start(ixs@, i - 1),
            cursor <= gmapped.len(),
            mapped@ == gmapped,
            blocks_error(ixs@, gmapped, tx_key, auth_zero, *program_id, i - 1) is None,
            calls@.len() == i - 1,
            forall|j: int|
                0 <= j < i - 1 ==> {
                    &&& (#[trigger] calls@[j]).program_id == ixs@[j].program_id
                    &&& calls@[j].keys@ == ixs@[j].keys@
                    &&& calls@[j].data@ == ixs@[j].data@
                },
        decreases n + 1 - i,
    {
        let ghost start = cursor as int;
        let seqno = i as u8;
        let ix_rec = &ixs[i - 1];
        if cursor >= mapped.len() {
            proof {
                assert(blocks_error(ixs@, gmapped, tx_key, auth_zero, *program_id, i as int)
                    == Some(MsError::InvalidNumberOfAccounts));
                lemma_blocks_error_prefix(
                    ixs@,
                    gmapped,
                    tx_key,
                    auth_zero,
                    *program_id,
                    i as int,
                    n as int,
                );
            }
            return Err(MsError::InvalidNumberOfAccounts);
        }
        let rec_account = mapped[cursor];
        if !rec_account.owner.eq_key(program_id) {
            proof {
                assert(blocks_error(ixs@, gmapped, tx_key, auth_zero, *program_id, i as int)
                    == Some(MsError::InvalidInstructionAccount));
                lemma_blocks_error_prefix(
                    ixs@,
                    gmapped,
                    tx_key,
                    auth_zero,
                    *program_id,
                    i as int,
                    n as int,
                );
            }
            return Err(MsError::InvalidInstructionAccount);
        }
        // The record must sit at its derived address for this index.
        let pda_matches = match derive_instruction(&tx_key, seqno, program_id) {
            Some((k, _)) => k.eq_key(&rec_account.key),
            None => false,
        };
        if !pda_matches {
            proof {
                assert(!ix_pda_ok(tx_key, seqno, *program_id, gmapped[start].key));
                assert(blocks_error(ixs@, gmapped, tx_key, auth_zero, *program_id, i as int)
                    == Some(MsError::InvalidInstructionAccount));
                lemma_blocks_error_prefix(
                    ixs@,
                    gmapped,
                    tx_key,
                    auth_zero,
                    *program_id,
                    i as int,
                    n as int,
                );
            }
            return Err(MsError::InvalidInstructionAccount);
        }
        cursor = cursor + 1;
        if cursor >= mapped.len() {
            proof {
                assert(blocks_error(ixs@, gmapped, tx_key, auth_zero, *program_id, i as int)
                    == Some(MsError::InvalidNumberOfAccounts));
                lemma_blocks_error_prefix(
                    ixs@,
                    gmapped,
                    tx_key,
                    auth_zero,
                    *program_id,
                    i as int,
                    n as int,
                );
            }
            return Err(MsError::InvalidNumberOfAccounts);
        }
        let prog_account = mapped[cursor];
        if !prog_account.key.eq_key(&ix_rec.program_id) {
            proof {
                assert(blocks_error(ixs@, gmapped, tx_key, auth_zero, *program_id, i as int)
                    == Some(MsError::InvalidInstructionAccount));
                lemma_blocks_error_prefix(
                    ixs@,
                    gmapped,
                    tx_key,
                    auth_zero,
                    *program_id,
                    i as int,
                    n as int,
                );
            }
            return Err(MsError::InvalidInstructionAccount);
        }
        cursor = cursor + 1;
        let mut k: usize = 0;
        while k < ix_rec.keys.len()
            invariant
                k <= ix_rec.keys@.len(),
                cursor == start + 2 + k,
                cursor <= gmapped.len(),
                forall|j: int|
                    0 <= j < k ==> gmapped[start + 2 + j].key == ix_rec.keys@[j].pubkey,
            decreases ix_rec.keys@.len() - k,
        {
            if cursor >= mapped.len() {
                proof {
                    assert forall|j: int|
                        0 <= j < ix_rec.keys@.len() && start + 2 + j
                            < gmapped.len() implies gmapped[start + 2 + j].key
                        == ix_rec.keys@[j].pubkey by {
                        assert(j < k);
                    }
                    assert(blocks_error(ixs@, gmapped, tx_key, auth_zero, *program_id, i as int)
                        == Some(MsError::InvalidNumberOfAccounts));
                    lemma_blocks_error_prefix(
                        ixs@,
                        gmapped,
                        tx_key,
                        auth_zero,
                        *program_id,
                        i as int,
                        n as int,
                    );
                }
                return Err(MsError::InvalidNumberOfAccounts);
            }
            let a = mapped[cursor];
            if !a.key.eq_key(&ix_rec.keys[k].pubkey) {
                proof {
                    assert(gmapped[start + 2 + k].key != ix_rec.keys@[k as int].pubkey);
                    assert(blocks_error(ixs@, gmapped, tx_key, auth_zero, *program_id, i as int)
                        == Some(MsError::InvalidInstructionAccount));
                    lemma_blocks_error_prefix(
                        ixs@,
                        gmapped,
                        tx_key,
                        auth_zero,
                        *program_id,
                        i as int,
                        n as int,
                    );
                }
                return Err(MsError::InvalidInstructionAccount);
            }
            cursor = cursor + 1;
            k = k + 1;
        }
        proof {
            assert forall|j: int|
                0 <= j < ix_rec.keys@.len() && start + 2 + j < gmapped.len() implies gmapped[start
                + 2 + j].key == ix_rec.keys@[j].pubkey by {}
        }
        if auth_zero {
            if !ix_rec.program_id.eq_key(program_id) {
                proof {
                    assert(blocks_error(ixs@, gmapped, tx_key, auth_zero, *program_id, i as int)
                        == Some(MsError::InvalidAuthorityIndex));
                    lemma_blocks_error_prefix(
                        ixs@,
                        gmapped,
                        tx_key,
                        auth_zero,
                        *program_id,
                        i as int,
                        n as int,
                    );
                }
                return Err(MsError::InvalidAuthorityIndex);
            }
            if payload_is_self_execution(&ix_rec.data) {
                proof {
                    assert(blocks_error(ixs@, gmapped, tx_key, auth_zero, *program_id, i as int)
                        == Some(MsError::InvalidAuthorityIndex));
                    lemma_blocks_error_prefix(
                        ixs@,
                        gmapped,
                        tx_key,
                        auth_zero,
                        *program_id,
                        i as int,
                        n as int,
                    );
                }
                return Err(MsError::InvalidAuthorityIndex);
            }
        }
        calls.push(ix_rec.descriptor());
        proof {
            assert(block_error(ixs@[i - 1], seqno, start, gmapped, tx_key, auth_zero, *program_id)
                is None);
            assert(blocks_error(ixs@, gmapped, tx_key, auth_zero, *program_id, i as int) is None);
        }
        i = i + 1;
    }
    let signer_seeds = if auth_zero {
        build_multisig_signer_seeds(&ms.create_key, ms.bump)
    } else {
        build_authority_signer_seeds(&ms_key, tx.authority_index, tx.authority_bump)
    };
    tx.executed_index = tx.instruction_index;
    match tx.set_executed(now) {
        Ok(_) => {},
        Err(e) => { return Err(e) },
    }
    Ok(ExecutionPlan { signer_seeds, calls })
}

/// The validation chain of `execute_instruction`, in check order: the
/// shared readiness checks, strict in-order sequencing (the record's
/// index must be exactly the next one), the record's derived address,
/// the bar on the internal authority, and the supplied program and
/// account list matched against the record.
pub open spec fn execute_instruction_error(
    ms: Ms,
    tx: MsTransaction,
    ix: MsInstruction,
    member: Key,
    program: Key,
    supplied: Seq<AccountRef>,
) -> Option<MsError> {
    if !ms.spec_is_member(member) {
        Some(MsError::KeyNotInMultisig)
    } else if derived_ms_key(ms, program) is None {
        Some(MsError::InvalidInstructionAccount)
    } else if tx.ms != derived_ms_key(ms, program)->Some_0 {
        Some(MsError::InvalidInstructionAccount)
    } else if !(tx.status is ExecuteReady) {
        Some(MsError::InvalidTransactionState)
    } else if tx.transaction_index <= ms.ms_change_index {
        Some(MsError::DeprecatedTransaction)
    } else if ix.instruction_index != tx.executed_index + 1 {
        Some(MsError::InvalidInstructionAccount)
    } else if derived_tx_key(tx, program) is None {
        Some(MsError::InvalidInstructionAccount)
    } else if !(match pda_of(
        instruction_seeds(derived_tx_key(tx, program)->Some_0, ix.instruction_index),
        program,
    ) {
        Some(kb) => kb.1 == ix.bump,
        None => false,
    }) {
        Some(MsError::InvalidInstructionAccount)
    } else if tx.authority_index == 0 {
        Some(MsError::InvalidAuthorityIndex)
    } else if supplied.len() < 1 {
        Some(MsError::InvalidNumberOfAccounts)
    } else if supplied[0].key != ix.program_id {
        Some(MsError::InvalidInstructionAccount)
    } else if exists|k: int|
        0 <= k < ix.keys@.len() && 1 + k < supplied.len() && supplied[1 + k].key
            != ix.keys@[k].pubkey {
        Some(MsError::InvalidInstructionAccount)
    } else if supplied.len() < 1 + ix.keys@.len() {
        Some(MsError::InvalidNumberOfAccounts)
    } else {
        None
    }
}

/// Execute exactly the next attached instruction of a ready transaction.
/// Sequential execution is strictly ordered — no skipping — and never
/// available to the registry's internal authority. Executing the last
/// attached instruction also marks the transaction executed.
#[verifier::loop_isolation(false)]
pub fn execute_instruction(
    ms: &Ms,
    tx: &mut MsTransaction,
    ix: &MsInstruction,
    member: Key,
    program_id: &Key,
    supplied: &Vec<AccountRef>,
    now: i64,
) -> (r: Result<ExecutionPlan, MsError>)
    requires
        ms.wf(),
        old(tx).wf(),
        old(tx).executed_index < u8::MAX,
    ensures
        r is Ok <==> execute_instruction_error(*ms, *old(tx), *ix, member, *program_id, supplied@)
            is None,
        r is Err ==> Some(r->Err_0) == execute_instruction_error(
            *ms,
            *old(tx),
            *ix,
            member,
            *program_id,
            supplied@,
        ) && *final(tx) == *old(tx),
        r is Ok ==> {
            let plan = r->Ok_0;
            &&& *final(tx) == (MsTransaction {
                executed_index: ix.instruction_index,
                status: if ix.instruction_index == old(tx).instruction_index {
                    MsTransactionStatus::Executed { timestamp: now }
                } else {
                    old(tx).status
                },
                ..*old(tx)
            })
            &&& plan.calls@.len() == 1
            &&& plan.calls@[0].program_id == ix.program_id
            &&& plan.calls@[0].keys@ == ix.keys@
            &&& plan.calls@[0].data@ == ix.data@
            &&& plan.signer_seeds.deep_view() == authority_signer_seeds(
                derived_ms_key(*ms, *program_id)->Some_0,
                old(tx).authority_index,
                old(tx).authority_bump,
            )
        },
{
    if ms.is_member(member).is_none() {
        return Err(MsError::KeyNotInMultisig);
    }
    let ms_key = match check_ms_address(ms, program_id) {
        Some(k) => k,
        None => { return Err(MsError::InvalidInstructionAccount) },
    };
    if !tx.ms.eq_key(&ms_key) {
        return Err(MsError::InvalidInstructionAccount);
    }
    match tx.status {
        MsTransactionStatus::ExecuteReady { .. } => {},
        _ => { return Err(MsError::InvalidTransactionState) },
    }
    if tx.transaction_index <= ms.ms_change_index {
        return Err(MsError::DeprecatedTransaction);
    }
    // Strict ordering: only the next instruction may run.
    if ix.instruction_index != tx.executed_index + 1 {
        return Err(MsError::InvalidInstructionAccount);
    }
    let (tx_key, tx_bump) = match derive_transaction(&ms_key, tx.transaction_index, program_id) {
        Some(kb) => kb,
        None => { return Err(MsError::InvalidInstructionAccount) },
    };
    if tx_bump != tx.bump {
        return Err(MsError::InvalidInstructionAccount);
    }
    let bump_matches = match derive_instruction(&tx_key, ix.instruction_index, program_id) {
        Some((_, b)) => b == ix.bump,
        None => false,
    };
    if !bump_matches {
        return Err(MsError::InvalidInstructionAccount);
    }
    // The registry's own identity never executes sequentially.
    if tx.authority_index == 0 {
        return Err(MsError::InvalidAuthorityIndex);
    }
    if supplied.len() < 1 {
        return Err(MsError::InvalidNumberOfAccounts);
    }
    if !supplied[0].key.eq_key(&ix.program_id) {
        return Err(MsError::InvalidInstructionAccount);
    }
    let mut k: usize = 0;
    while k < ix.keys.len()
        invariant
            k <= ix.keys@.len(),
            1 + k <= supplied@.len(),
            forall|j: int| 0 <= j < k ==> supplied@[1 + j].key == ix.keys@[j].pubkey,
        decreases ix.keys@.len() - k,
    {
        if 1 + k >= supplied.len() {
            proof {
                assert forall|j: int|
                    0 <= j < ix.keys@.len() && 1 + j < supplied@.len() implies supplied@[1
                    + j].key == ix.keys@[j].pubkey by {
                    assert(j < k);
                }
            }
            return Err(MsError::InvalidNumberOfAccounts);
        }
        if !supplied[1 + k].key.eq_key(&ix.keys[k].pubkey) {
            proof {
                assert(supplied@[1 + k].key != ix.keys@[k as int].pubkey);
            }
            return Err(MsError::InvalidInstructionAccount);
        }
        k = k + 1;
    }
    proof {
        assert forall|j: int|
            0 <= j < ix.keys@.len() && 1 + j < supplied@.len() implies supplied@[1 + j].key
            == ix.keys@[j].pubkey by {}
    }
    let signer_seeds = build_authority_signer_seeds(&ms_key, tx.authority_index, tx.authority_bump);
    let mut calls: Vec<IncomingInstruction> = Vec::new();
    calls.push(ix.descriptor());
    tx.executed_index = ix.instruction_index;
    if ix.instruction_index == tx.instruction_index {
        match tx.set_executed(now) {
            Ok(_) => {},
            Err(e) => { return Err(e) },
        }
    }
    Ok(ExecutionPlan { signer_seeds, calls })
}

} // verus!
