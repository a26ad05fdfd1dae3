//! The validator manager: a thin registry of managed validators keyed
//! off multisig membership. Not part of the core state machine; records
//! here only point back at the registry that owns them.

use vstd::prelude::*;
use crate::key::Key;
use crate::ms::Ms;
use crate::errors::MsError;

verus! {

/// One manager per registry, counting the validators it manages.
#[derive(Clone, Copy, PartialEq, Eq, Structural, Debug)]
pub struct ValidatorManager {
    /// Address of the owning registry.
    pub multisig: Key,
    /// Index of the most recently added managed validator.
    pub managed_validator_index: u32,
    /// Derivation proof of this record's address.
    pub bump: u8,
}

/// One managed validator under a manager.
#[derive(Clone, PartialEq, Eq, Debug)]
pub struct ManagedValidator {
    /// The validator's own address.
    pub validator_address: Key,
    /// Address of the owning registry.
    pub multisig: Key,
    /// Derivation proof of this record's address.
    pub bump: u8,
    /// Display name.
    pub name: String,
    /// One-based index under the manager.
    pub managed_validator_index: u32,
}

/// Create the manager record for a registry; only a member may do so.
pub fn create_validator_manager(ms: &Ms, creator: Key, ms_key: Key, bump: u8) -> (r: Result<
    ValidatorManager,
    MsError,
>)
    requires
        ms.wf(),
    ensures
        r is Ok <==> ms.spec_is_member(creator),
        r is Err ==> r == Err::<ValidatorManager, MsError>(MsError::KeyNotInMultisig),
        r is Ok ==> r->Ok_0 == (ValidatorManager {
            multisig: ms_key,
            managed_validator_index: 0u32,
            bump,
        }),
{
    if ms.is_member(creator).is_none() {
        return Err(MsError::KeyNotInMultisig);
    }
    Ok(ValidatorManager { multisig: ms_key, managed_validator_index: 0, bump })
}

/// Add a managed validator under the next index; only a member may do so.
pub fn create_managed_validator(
    ms: &Ms,
    vm: &mut ValidatorManager,
    creator: Key,
    validator_address: Key,
    name: String,
    bump: u8,
) -> (r: Result<ManagedValidator, MsError>)
    requires
        ms.wf(),
        old(vm).managed_validator_index < u32::MAX,
    ensures
        r is Ok <==> ms.spec_is_member(creator),
        r is Err ==> r == Err::<ManagedValidator, MsError>(MsError::KeyNotInMultisig) && *final(vm)
            == *old(vm),
        r is Ok ==> {
            let v = r->Ok_0;
            &&& *final(vm) == (ValidatorManager {
                managed_validator_index: (old(vm).managed_validator_index + 1) as u32,
                ..*old(vm)
            })
            &&& v.validator_address == validator_address
            &&& v.multisig == old(vm).multisig
            &&& v.bump == bump
            &&& v.name == name
            &&& v.managed_validator_index == old(vm).managed_validator_index + 1
        },
{
    if ms.is_member(creator).is_none() {
        return Err(MsError::KeyNotInMultisig);
    }
    let new_mvi = vm.managed_validator_index + 1;
    let v = ManagedValidator {
        validator_address,
        multisig: vm.multisig,
        bump,
        name,
        managed_validator_index: new_mvi,
    };
    vm.managed_validator_index = new_mvi;
    Ok(v)
}

/// Close a managed validator record. The record removal and rent refund
/// are the host's part; the operation itself always succeeds.
pub fn close_validator_account() -> (r: Result<(), MsError>)
    ensures
        r is Ok,
{
    Ok(())
}

} // verus!
