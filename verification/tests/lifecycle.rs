//! The transaction lifecycle: voting, thresholds, deprecation, and both
//! execution paths.

use squads_mpl::errors::MsError;
use squads_mpl::execute::{execute_instruction, execute_transaction, AccountRef};
use squads_mpl::instruction::{IncomingInstruction, MsAccountMeta, MsInstruction};
use squads_mpl::key::Key;
use squads_mpl::ms::{Member, Ms};
use squads_mpl::pda::{derive_instruction, derive_multisig, derive_transaction};
use squads_mpl::registry_ops::add_member;
use squads_mpl::transaction::{MsTransaction, MsTransactionStatus};
use squads_mpl::tx_ops::{
    activate_transaction, add_instruction, approve_transaction, cancel_transaction,
    create_transaction, reject_transaction,
};

fn key(n: u64) -> Key {
    Key { hi: 0, lo: n as u128 }
}

fn member(n: u64) -> Member {
    Member { key: key(n), guardian_can_remove: false }
}

fn program_id() -> Key {
    Key { hi: 7, lo: 7 }
}

/// A registry with members 10, 20, 30 and threshold 2.
fn new_registry(threshold: u16, time_lock: u32) -> Ms {
    let create_key = key(1_000_000);
    let (_, bump) = derive_multisig(&create_key, &program_id()).unwrap();
    let members = vec![member(10), member(20), member(30)];
    squads_mpl::registry_ops::create(threshold, create_key, members, time_lock, bump).unwrap()
}

fn ms_address(ms: &Ms) -> Key {
    derive_multisig(&ms.create_key, &program_id()).unwrap().0
}

/// Create a transaction under the registry with correct derivation
/// proofs for later execution.
fn new_transaction(ms: &mut Ms, creator: Key, authority_index: u32, now: i64) -> MsTransaction {
    let ms_key = ms_address(ms);
    let (_, tx_bump) =
        derive_transaction(&ms_key, ms.transaction_index + 1, &program_id()).unwrap();
    create_transaction(ms, creator, authority_index, tx_bump, &program_id(), now).unwrap()
}

fn tx_address(ms: &Ms, tx: &MsTransaction) -> Key {
    derive_transaction(&ms_address(ms), tx.transaction_index, &program_id()).unwrap().0
}

/// Attach an instruction with the correct derivation proof.
fn attach(
    ms: &Ms,
    tx: &mut MsTransaction,
    creator: Key,
    target: Key,
    account: Key,
    data: Vec<u8>,
) -> MsInstruction {
    let tx_key = tx_address(ms, tx);
    let (_, ix_bump) =
        derive_instruction(&tx_key, tx.instruction_index + 1, &program_id()).unwrap();
    let incoming = IncomingInstruction {
        program_id: target,
        keys: vec![MsAccountMeta { pubkey: account, is_signer: false, is_writable: true }],
        data,
    };
    add_instruction(ms, tx, creator, incoming, ix_bump, &program_id()).unwrap()
}

/// The flattened account list for executing `ixs` atomically: each block
/// is the record's derived address, the target program, then the
/// declared accounts.
fn accounts_for(ms: &Ms, tx: &MsTransaction, ixs: &[MsInstruction]) -> (Vec<AccountRef>, Vec<u8>) {
    let tx_key = tx_address(ms, tx);
    let mut supplied = Vec::new();
    let mut order = Vec::new();
    for ix in ixs {
        let pda = derive_instruction(&tx_key, ix.instruction_index, &program_id()).unwrap().0;
        order.push(supplied.len() as u8);
        supplied.push(AccountRef { key: pda, owner: program_id() });
        order.push(supplied.len() as u8);
        supplied.push(AccountRef { key: ix.program_id, owner: key(0) });
        for m in &ix.keys {
            order.push(supplied.len() as u8);
            supplied.push(AccountRef { key: m.pubkey, owner: key(0) });
        }
    }
    (supplied, order)
}

fn is_active(tx: &MsTransaction) -> bool {
    matches!(tx.status, MsTransactionStatus::Active { .. })
}

#[test]
fn full_lifecycle_three_members_threshold_two() {
    let mut ms = new_registry(2, 0);
    // Member A creates a transaction under authority 1 and attaches one
    // instruction.
    let mut tx = new_transaction(&mut ms, key(10), 1, 0);
    assert_eq!(tx.transaction_index, 1);
    assert!(matches!(tx.status, MsTransactionStatus::Draft { .. }));
    let ix = attach(&ms, &mut tx, key(10), key(500), key(600), vec![1, 2, 3]);
    assert_eq!(tx.instruction_index, 1);
    activate_transaction(&ms, &mut tx, key(10), &program_id(), 1).unwrap();
    assert!(is_active(&tx));
    // A approves: one approval is below the threshold of two.
    approve_transaction(&ms, &mut tx, key(10), &program_id(), 2).unwrap();
    assert_eq!(tx.approved, vec![key(10)]);
    assert!(is_active(&tx));
    // B approves: the threshold is reached.
    approve_transaction(&ms, &mut tx, key(20), &program_id(), 3).unwrap();
    assert_eq!(tx.approved, vec![key(10), key(20)]);
    assert!(matches!(tx.status, MsTransactionStatus::ExecuteReady { timestamp: 3 }));
    // Any member executes; the one instruction is handed back signed by
    // the derived authority.
    let ixs = vec![ix];
    let (supplied, order) = accounts_for(&ms, &tx, &ixs);
    let plan =
        execute_transaction(&ms, &mut tx, key(30), &program_id(), &ixs, &supplied, &order, 4)
            .unwrap();
    assert_eq!(plan.calls.len(), 1);
    assert_eq!(plan.calls[0].program_id, key(500));
    assert_eq!(plan.calls[0].data, vec![1, 2, 3]);
    assert!(!plan.signer_seeds.is_empty());
    assert!(matches!(tx.status, MsTransactionStatus::Executed { timestamp: 4 }));
    assert_eq!(tx.executed_index, 1);
    // A second execution attempt fails: the state is terminal.
    let r = execute_transaction(&ms, &mut tx, key(30), &program_id(), &ixs, &supplied, &order, 5);
    assert_eq!(r.err(), Some(MsError::InvalidTransactionState));
}

#[test]
fn approve_twice_is_idempotent() {
    let mut ms = new_registry(2, 0);
    let mut tx = new_transaction(&mut ms, key(10), 1, 0);
    activate_transaction(&ms, &mut tx, key(10), &program_id(), 1).unwrap();
    approve_transaction(&ms, &mut tx, key(10), &program_id(), 2).unwrap();
    let after_once = tx.clone();
    approve_transaction(&ms, &mut tx, key(10), &program_id(), 2).unwrap();
    assert_eq!(tx, after_once);
}

#[test]
fn approve_then_reject_switches_the_vote() {
    let mut ms = new_registry(2, 0);
    let mut tx = new_transaction(&mut ms, key(10), 1, 0);
    activate_transaction(&ms, &mut tx, key(10), &program_id(), 1).unwrap();
    approve_transaction(&ms, &mut tx, key(10), &program_id(), 2).unwrap();
    assert_eq!(tx.approved, vec![key(10)]);
    reject_transaction(&ms, &mut tx, key(10), &program_id(), 3).unwrap();
    assert!(tx.approved.is_empty());
    assert_eq!(tx.rejected, vec![key(10)]);
    assert!(is_active(&tx));
}

#[test]
fn rejection_wins_by_exhaustion() {
    // Three members, threshold two: one rejection can be spared, two
    // cannot.
    let mut ms = new_registry(2, 0);
    let mut tx = new_transaction(&mut ms, key(10), 1, 0);
    activate_transaction(&ms, &mut tx, key(10), &program_id(), 1).unwrap();
    reject_transaction(&ms, &mut tx, key(10), &program_id(), 2).unwrap();
    assert!(is_active(&tx));
    reject_transaction(&ms, &mut tx, key(20), &program_id(), 3).unwrap();
    assert!(matches!(tx.status, MsTransactionStatus::Rejected { timestamp: 3 }));
}

#[test]
fn cancel_after_quorum_stops_execution() {
    let mut ms = new_registry(2, 0);
    let mut tx = new_transaction(&mut ms, key(10), 1, 0);
    activate_transaction(&ms, &mut tx, key(10), &program_id(), 1).unwrap();
    approve_transaction(&ms, &mut tx, key(10), &program_id(), 2).unwrap();
    approve_transaction(&ms, &mut tx, key(20), &program_id(), 3).unwrap();
    cancel_transaction(&ms, &mut tx, key(10), &program_id(), 4).unwrap();
    assert!(matches!(tx.status, MsTransactionStatus::ExecuteReady { .. }));
    cancel_transaction(&ms, &mut tx, key(30), &program_id(), 5).unwrap();
    assert!(matches!(tx.status, MsTransactionStatus::Cancelled { timestamp: 5 }));
    // Cancelled is terminal: execution is refused.
    let r = execute_transaction(
        &ms,
        &mut tx,
        key(10),
        &program_id(),
        &Vec::new(),
        &Vec::new(),
        &Vec::new(),
        6,
    );
    assert_eq!(r.err(), Some(MsError::InvalidTransactionState));
}

#[test]
fn configuration_change_deprecates_active_transaction() {
    let mut ms = new_registry(2, 0);
    let mut tx = new_transaction(&mut ms, key(10), 1, 0);
    activate_transaction(&ms, &mut tx, key(10), &program_id(), 1).unwrap();
    approve_transaction(&ms, &mut tx, key(10), &program_id(), 2).unwrap();
    // A membership change lands the change index on the transaction
    // counter, deprecating the in-flight transaction for good.
    add_member(&mut ms, member(40)).unwrap();
    assert_eq!(ms.ms_change_index, 1);
    let r = approve_transaction(&ms, &mut tx, key(20), &program_id(), 3);
    assert_eq!(r.err(), Some(MsError::DeprecatedTransaction));
    let r = reject_transaction(&ms, &mut tx, key(20), &program_id(), 3);
    assert_eq!(r.err(), Some(MsError::DeprecatedTransaction));
    let r = execute_transaction(
        &ms,
        &mut tx,
        key(10),
        &program_id(),
        &Vec::new(),
        &Vec::new(),
        &Vec::new(),
        4,
    );
    // Still Active, so the state check comes first; force readiness to
    // see the deprecation check itself.
    assert_eq!(r.err(), Some(MsError::InvalidTransactionState));
    tx.status = MsTransactionStatus::ExecuteReady { timestamp: 3 };
    let r = execute_transaction(
        &ms,
        &mut tx,
        key(10),
        &program_id(),
        &Vec::new(),
        &Vec::new(),
        &Vec::new(),
        4,
    );
    assert_eq!(r.err(), Some(MsError::DeprecatedTransaction));
}

#[test]
fn deprecated_draft_cannot_activate() {
    let mut ms = new_registry(2, 0);
    let mut tx = new_transaction(&mut ms, key(10), 1, 0);
    add_member(&mut ms, member(40)).unwrap();
    let r = activate_transaction(&ms, &mut tx, key(10), &program_id(), 1);
    assert_eq!(r.err(), Some(MsError::DeprecatedTransaction));
}

#[test]
fn sequential_execution_is_strictly_ordered() {
    let mut ms = new_registry(2, 0);
    let mut tx = new_transaction(&mut ms, key(10), 1, 0);
    let ix1 = attach(&ms, &mut tx, key(10), key(500), key(600), vec![1]);
    let ix2 = attach(&ms, &mut tx, key(10), key(501), key(601), vec![2]);
    activate_transaction(&ms, &mut tx, key(10), &program_id(), 1).unwrap();
    approve_transaction(&ms, &mut tx, key(10), &program_id(), 2).unwrap();
    approve_transaction(&ms, &mut tx, key(20), &program_id(), 3).unwrap();
    let supplied1 = vec![
        AccountRef { key: ix1.program_id, owner: key(0) },
        AccountRef { key: key(600), owner: key(0) },
    ];
    let supplied2 = vec![
        AccountRef { key: ix2.program_id, owner: key(0) },
        AccountRef { key: key(601), owner: key(0) },
    ];
    // Skipping ahead to the second instruction is refused.
    let r = execute_instruction(&ms, &mut tx, &ix2, key(10), &program_id(), &supplied2, 4);
    assert_eq!(r.err(), Some(MsError::InvalidInstructionAccount));
    // In order: the first, then the second.
    let plan =
        execute_instruction(&ms, &mut tx, &ix1, key(10), &program_id(), &supplied1, 4).unwrap();
    assert_eq!(plan.calls.len(), 1);
    assert_eq!(plan.calls[0].data, vec![1]);
    assert_eq!(tx.executed_index, 1);
    assert!(matches!(tx.status, MsTransactionStatus::ExecuteReady { .. }));
    // Atomic execution is blocked once sequential execution has begun.
    let ixs = vec![ix1.clone(), ix2.clone()];
    let (supplied, order) = accounts_for(&ms, &tx, &ixs);
    let r = execute_transaction(&ms, &mut tx, key(10), &program_id(), &ixs, &supplied, &order, 5);
    assert_eq!(r.err(), Some(MsError::PartialExecution));
    // The last instruction completes the transaction.
    let plan =
        execute_instruction(&ms, &mut tx, &ix2, key(10), &program_id(), &supplied2, 6).unwrap();
    assert_eq!(plan.calls[0].data, vec![2]);
    assert_eq!(tx.executed_index, 2);
    assert!(matches!(tx.status, MsTransactionStatus::Executed { timestamp: 6 }));
}

#[test]
fn sequential_execution_refuses_internal_authority() {
    let mut ms = new_registry(2, 0);
    let mut tx = new_transaction(&mut ms, key(10), 0, 0);
    let ix = attach(&ms, &mut tx, key(10), program_id(), key(600), vec![1]);
    activate_transaction(&ms, &mut tx, key(10), &program_id(), 1).unwrap();
    approve_transaction(&ms, &mut tx, key(10), &program_id(), 2).unwrap();
    approve_transaction(&ms, &mut tx, key(20), &program_id(), 3).unwrap();
    let supplied = vec![
        AccountRef { key: ix.program_id, owner: key(0) },
        AccountRef { key: key(600), owner: key(0) },
    ];
    let r = execute_instruction(&ms, &mut tx, &ix, key(10), &program_id(), &supplied, 4);
    assert_eq!(r.err(), Some(MsError::InvalidAuthorityIndex));
}

#[test]
fn internal_authority_rejects_foreign_target_at_attach() {
    let mut ms = new_registry(2, 0);
    let mut tx = new_transaction(&mut ms, key(10), 0, 0);
    let incoming = IncomingInstruction { program_id: key(500), keys: vec![], data: vec![] };
    let r = add_instruction(&ms, &mut tx, key(10), incoming, 0, &program_id());
    assert_eq!(r.err(), Some(MsError::InvalidAuthorityIndex));
}

#[test]
fn reentrant_self_execution_is_refused() {
    let mut ms = new_registry(2, 0);
    let mut tx = new_transaction(&mut ms, key(10), 0, 0);
    // A payload that would dispatch the atomic execution operation of
    // this program itself.
    let data = hex::decode("e7ad315beb184413").unwrap();
    let ix = attach(&ms, &mut tx, key(10), program_id(), key(600), data);
    activate_transaction(&ms, &mut tx, key(10), &program_id(), 1).unwrap();
    approve_transaction(&ms, &mut tx, key(10), &program_id(), 2).unwrap();
    approve_transaction(&ms, &mut tx, key(20), &program_id(), 3).unwrap();
    let ixs = vec![ix];
    let (supplied, order) = accounts_for(&ms, &tx, &ixs);
    let r = execute_transaction(&ms, &mut tx, key(10), &program_id(), &ixs, &supplied, &order, 4);
    assert_eq!(r.err(), Some(MsError::InvalidAuthorityIndex));
    // The sequential discriminator is refused the same way.
    let mut tx2 = new_transaction(&mut ms, key(10), 0, 0);
    let data2 = hex::decode("301228284b4a936e").unwrap();
    let ix2 = attach(&ms, &mut tx2, key(10), program_id(), key(600), data2);
    activate_transaction(&ms, &mut tx2, key(10), &program_id(), 1).unwrap();
    approve_transaction(&ms, &mut tx2, key(10), &program_id(), 2).unwrap();
    approve_transaction(&ms, &mut tx2, key(20), &program_id(), 3).unwrap();
    let ixs2 = vec![ix2];
    let (supplied2, order2) = accounts_for(&ms, &tx2, &ixs2);
    let r =
        execute_transaction(&ms, &mut tx2, key(10), &program_id(), &ixs2, &supplied2, &order2, 4);
    assert_eq!(r.err(), Some(MsError::InvalidAuthorityIndex));
    // An ordinary payload under the internal authority goes through.
    let mut tx3 = new_transaction(&mut ms, key(10), 0, 0);
    let ix3 = attach(&ms, &mut tx3, key(10), program_id(), key(600), vec![9, 9]);
    activate_transaction(&ms, &mut tx3, key(10), &program_id(), 1).unwrap();
    approve_transaction(&ms, &mut tx3, key(10), &program_id(), 2).unwrap();
    approve_transaction(&ms, &mut tx3, key(20), &program_id(), 3).unwrap();
    let ixs3 = vec![ix3];
    let (supplied3, order3) = accounts_for(&ms, &tx3, &ixs3);
    execute_transaction(&ms, &mut tx3, key(10), &program_id(), &ixs3, &supplied3, &order3, 4)
        .unwrap();
}

#[test]
fn execution_validates_supplied_accounts() {
    let mut ms = new_registry(2, 0);
    let mut tx = new_transaction(&mut ms, key(10), 1, 0);
    let ix = attach(&ms, &mut tx, key(10), key(500), key(600), vec![1]);
    activate_transaction(&ms, &mut tx, key(10), &program_id(), 1).unwrap();
    approve_transaction(&ms, &mut tx, key(10), &program_id(), 2).unwrap();
    approve_transaction(&ms, &mut tx, key(20), &program_id(), 3).unwrap();
    let ixs = vec![ix];
    // Too few accounts supplied.
    let r = execute_transaction(
        &ms,
        &mut tx,
        key(10),
        &program_id(),
        &ixs,
        &Vec::new(),
        &Vec::new(),
        4,
    );
    assert_eq!(r.err(), Some(MsError::InvalidNumberOfAccounts));
    // A declared account replaced by a stranger.
    let (mut supplied, order) = accounts_for(&ms, &tx, &ixs);
    supplied[2].key = key(999);
    let r = execute_transaction(&ms, &mut tx, key(10), &program_id(), &ixs, &supplied, &order, 4);
    assert_eq!(r.err(), Some(MsError::InvalidInstructionAccount));
    // A non-member caller.
    let (supplied, order) = accounts_for(&ms, &tx, &ixs);
    let r = execute_transaction(&ms, &mut tx, key(99), &program_id(), &ixs, &supplied, &order, 4);
    assert_eq!(r.err(), Some(MsError::KeyNotInMultisig));
    // The record account owned by a foreign program.
    let (mut supplied, order) = accounts_for(&ms, &tx, &ixs);
    supplied[0].owner = key(1);
    let r = execute_transaction(&ms, &mut tx, key(10), &program_id(), &ixs, &supplied, &order, 4);
    assert_eq!(r.err(), Some(MsError::InvalidInstructionAccount));
    // Everything in place: execution goes through.
    let (supplied, order) = accounts_for(&ms, &tx, &ixs);
    execute_transaction(&ms, &mut tx, key(10), &program_id(), &ixs, &supplied, &order, 4).unwrap();
}

#[test]
fn execute_with_no_instructions_marks_executed() {
    let mut ms = new_registry(2, 0);
    let mut tx = new_transaction(&mut ms, key(10), 1, 0);
    activate_transaction(&ms, &mut tx, key(10), &program_id(), 1).unwrap();
    approve_transaction(&ms, &mut tx, key(10), &program_id(), 2).unwrap();
    approve_transaction(&ms, &mut tx, key(20), &program_id(), 3).unwrap();
    let plan = execute_transaction(
        &ms,
        &mut tx,
        key(10),
        &program_id(),
        &Vec::new(),
        &Vec::new(),
        &Vec::new(),
        4,
    )
    .unwrap();
    assert!(plan.calls.is_empty());
    assert!(matches!(tx.status, MsTransactionStatus::Executed { timestamp: 4 }));
}

#[test]
fn time_lock_delays_approval() {
    let mut ms = new_registry(2, 100);
    let mut tx = new_transaction(&mut ms, key(10), 1, 1000);
    activate_transaction(&ms, &mut tx, key(10), &program_id(), 1000).unwrap();
    let r = approve_transaction(&ms, &mut tx, key(10), &program_id(), 1050);
    assert_eq!(r.err(), Some(MsError::TimeLockNotSatisfied));
    assert!(tx.approved.is_empty());
    approve_transaction(&ms, &mut tx, key(10), &program_id(), 1100).unwrap();
    assert_eq!(tx.approved, vec![key(10)]);
}

#[test]
fn only_the_creator_activates() {
    let mut ms = new_registry(2, 0);
    let mut tx = new_transaction(&mut ms, key(10), 1, 0);
    let r = activate_transaction(&ms, &mut tx, key(20), &program_id(), 1);
    assert_eq!(r.err(), Some(MsError::UnauthorizedMember));
    let r = activate_transaction(&ms, &mut tx, key(99), &program_id(), 1);
    assert_eq!(r.err(), Some(MsError::KeyNotInMultisig));
}

#[test]
fn signer_seeds_are_the_authority_derivation() {
    let mut ms = new_registry(2, 0);
    let mut tx = new_transaction(&mut ms, key(10), 1, 0);
    let ix = attach(&ms, &mut tx, key(10), key(500), key(600), vec![1]);
    activate_transaction(&ms, &mut tx, key(10), &program_id(), 1).unwrap();
    approve_transaction(&ms, &mut tx, key(10), &program_id(), 2).unwrap();
    approve_transaction(&ms, &mut tx, key(20), &program_id(), 3).unwrap();
    let authority_bump = tx.authority_bump;
    let ixs = vec![ix];
    let (supplied, order) = accounts_for(&ms, &tx, &ixs);
    let plan =
        execute_transaction(&ms, &mut tx, key(30), &program_id(), &ixs, &supplied, &order, 4)
            .unwrap();
    // The vault signs with namespace, registry address, authority index
    // (little endian), role, and the derivation proof byte.
    let ms_key = ms_address(&ms);
    let mut ms_key_bytes = Vec::new();
    ms_key_bytes.extend_from_slice(&ms_key.hi.to_be_bytes());
    ms_key_bytes.extend_from_slice(&ms_key.lo.to_be_bytes());
    let expected: Vec<Vec<u8>> = vec![
        b"squad".to_vec(),
        ms_key_bytes,
        1u32.to_le_bytes().to_vec(),
        b"authority".to_vec(),
        vec![authority_bump],
    ];
    assert_eq!(plan.signer_seeds, expected);
}

#[test]
fn transaction_of_another_registry_is_refused() {
    let mut ms = new_registry(2, 0);
    let mut tx = new_transaction(&mut ms, key(10), 1, 0);
    // Point the record at a different owning registry.
    tx.ms = key(12345);
    let r = activate_transaction(&ms, &mut tx, key(10), &program_id(), 1);
    assert_eq!(r.err(), Some(MsError::InvalidInstructionAccount));
    let r = approve_transaction(&ms, &mut tx, key(10), &program_id(), 1);
    assert_eq!(r.err(), Some(MsError::InvalidInstructionAccount));
}

#[test]
fn deprecated_transaction_admits_no_sequential_step() {
    let mut ms = new_registry(2, 0);
    let mut tx = new_transaction(&mut ms, key(10), 1, 0);
    let ix = attach(&ms, &mut tx, key(10), key(500), key(600), vec![1]);
    activate_transaction(&ms, &mut tx, key(10), &program_id(), 1).unwrap();
    approve_transaction(&ms, &mut tx, key(10), &program_id(), 2).unwrap();
    approve_transaction(&ms, &mut tx, key(20), &program_id(), 3).unwrap();
    add_member(&mut ms, member(40)).unwrap();
    let supplied = vec![
        AccountRef { key: ix.program_id, owner: key(0) },
        AccountRef { key: key(600), owner: key(0) },
    ];
    let r = execute_instruction(&ms, &mut tx, &ix, key(10), &program_id(), &supplied, 4);
    assert_eq!(r.err(), Some(MsError::DeprecatedTransaction));
}

#[test]
fn vote_queries_report_recorded_votes() {
    let mut ms = new_registry(2, 0);
    let mut tx = new_transaction(&mut ms, key(10), 1, 0);
    activate_transaction(&ms, &mut tx, key(10), &program_id(), 1).unwrap();
    assert!(!tx.has_voted(key(10)));
    approve_transaction(&ms, &mut tx, key(10), &program_id(), 2).unwrap();
    reject_transaction(&ms, &mut tx, key(20), &program_id(), 3).unwrap();
    assert!(tx.has_voted(key(10)));
    assert!(tx.has_voted(key(20)));
    assert!(!tx.has_voted(key(30)));
    assert_eq!(tx.has_voted_approve(key(10)), Some(0));
    assert_eq!(tx.has_voted_approve(key(20)), None);
    assert_eq!(tx.has_voted_reject(key(20)), Some(0));
    assert_eq!(tx.has_cancelled(key(10)), None);
}

#[test]
fn record_sizes_follow_the_layout() {
    let incoming = IncomingInstruction {
        program_id: key(1),
        keys: vec![
            MsAccountMeta { pubkey: key(2), is_signer: false, is_writable: true },
            MsAccountMeta { pubkey: key(3), is_signer: true, is_writable: false },
        ],
        data: vec![0, 1, 2, 3, 4],
    };
    // 32 program bytes, two length prefixes, index and proof bytes, two
    // 34-byte account entries, five payload bytes.
    assert_eq!(incoming.get_max_size(), 42 + 68 + 5);
    assert_eq!(MsTransaction::initial_size_with_members(3), 124 + 3 * (4 + 96));
}
