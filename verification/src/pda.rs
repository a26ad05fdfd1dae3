//! Deterministic address derivation. Every reference between records is
//! an address derived from a fixed namespace tag, the parent's address,
//! and a role tag plus index; accessors re-derive and compare instead of
//! trusting a supplied handle. The derivation itself is the host scheme's
//! hash search, reached through one trusted wrapper; everything that
//! assembles seeds is verified.

use vstd::prelude::*;
use crate::key::Key;

verus! {

/// The namespace tag, `squad` in ASCII.
pub open spec fn tag_squad() -> Seq<u8> {
    seq![115, 113, 117, 97, 100]
}

/// The registry role tag, `multisig` in ASCII.
pub open spec fn tag_multisig() -> Seq<u8> {
    seq![109, 117, 108, 116, 105, 115, 105, 103]
}

/// The transaction role tag, `transaction` in ASCII.
pub open spec fn tag_transaction() -> Seq<u8> {
    seq![116, 114, 97, 110, 115, 97, 99, 116, 105, 111, 110]
}

/// The instruction role tag, `instruction` in ASCII.
pub open spec fn tag_instruction() -> Seq<u8> {
    seq![105, 110, 115, 116, 114, 117, 99, 116, 105, 111, 110]
}

/// The authority role tag, `authority` in ASCII.
pub open spec fn tag_authority() -> Seq<u8> {
    seq![97, 117, 116, 104, 111, 114, 105, 116, 121]
}

/// The spending limit role tag, `spending_limit` in ASCII.
pub open spec fn tag_spending_limit() -> Seq<u8> {
    seq![115, 112, 101, 110, 100, 105, 110, 103, 95, 108, 105, 109, 105, 116]
}

/// The validator manager role tag, `vmanage` in ASCII.
pub open spec fn tag_vmanage() -> Seq<u8> {
    seq![118, 109, 97, 110, 97, 103, 101]
}

/// The managed validator role tag, `validator` in ASCII.
pub open spec fn tag_validator() -> Seq<u8> {
    seq![118, 97, 108, 105, 100, 97, 116, 111, 114]
}

/// Byte `i` (most significant first) of the 32-byte encoding of a key.
pub open spec fn key_byte(k: Key, i: int) -> u8 {
    if i < 16 {
        (k.hi >> (((15 - i) * 8) as u32)) as u8
    } else {
        (k.lo >> (((31 - i) * 8) as u32)) as u8
    }
}

/// The 32-byte big-endian encoding of a key.
pub open spec fn key_bytes(k: Key) -> Seq<u8> {
    Seq::new(32, |i: int| key_byte(k, i))
}

/// The four little-endian bytes of a 32-bit index.
pub open spec fn u32_le_bytes(x: u32) -> Seq<u8> {
    seq![x as u8, (x >> 8u32) as u8, (x >> 16u32) as u8, (x >> 24u32) as u8]
}

/// Build the byte encoding of a key.
pub fn key_to_bytes(k: &Key) -> (r: Vec<u8>)
    ensures
        r@ == key_bytes(*k),
{
    let mut v: Vec<u8> = Vec::new();
    let mut i: usize = 0;
    while i < 16
        invariant
            i <= 16,
            v@.len() == i,
            forall|j: int| 0 <= j < i ==> v@[j] == key_byte(*k, j),
        decreases 16 - i,
    {
        let sh: u32 = ((15 - i) * 8) as u32;
        v.push((k.hi >> sh) as u8);
        i = i + 1;
    }
    while i < 32
        invariant
            16 <= i <= 32,
            v@.len() == i,
            forall|j: int| 0 <= j < i ==> v@[j] == key_byte(*k, j),
        decreases 32 - i,
    {
        let sh: u32 = ((31 - i) * 8) as u32;
        v.push((k.lo >> sh) as u8);
        i = i + 1;
    }
    proof {
        assert(v@ =~= key_bytes(*k));
    }
    v
}

/// Build the little-endian encoding of a 32-bit index.
pub fn u32_to_le_bytes(x: u32) -> (r: Vec<u8>)
    ensures
        r@ == u32_le_bytes(x),
{
    let mut v: Vec<u8> = Vec::new();
    v.push(x as u8);
    v.push((x >> 8u32) as u8);
    v.push((x >> 16u32) as u8);
    v.push((x >> 24u32) as u8);
    proof {
        assert(v@ =~= u32_le_bytes(x));
    }
    v
}

/// The address and derivation proof that the host's scheme assigns to a
/// seed list under a program, when one exists off the curve. A function
/// of its arguments alone.
pub uninterp spec fn pda_of(seeds: Seq<Seq<u8>>, program: Key) -> Option<(Key, u8)>;

/// Relies on `solana_program::pubkey::Pubkey::try_find_program_address`:
/// the derived address and bump seed depend on the seed list and program
/// id alone, and `None` is returned when no bump yields a valid address.
#[verifier::external_body]
pub(crate) fn find_pda(seeds: &Vec<Vec<u8>>, program: &Key) -> (r: Option<(Key, u8)>)
    ensures
        r == pda_of(seeds.deep_view(), *program),
{
    let mut pb = [0u8; 32];
    pb[..16].copy_from_slice(&program.hi.to_be_bytes());
    pb[16..].copy_from_slice(&program.lo.to_be_bytes());
    let slices: Vec<&[u8]> = seeds.iter().map(|s| s.as_slice()).collect();
    let p = solana_program::pubkey::Pubkey::new_from_array(pb);
    let (addr, bump) = solana_program::pubkey::Pubkey::try_find_program_address(&slices, &p)?;
    let ab = addr.to_bytes();
    let hi = u128::from_be_bytes(ab[..16].try_into().unwrap());
    let lo = u128::from_be_bytes(ab[16..].try_into().unwrap());
    Some((Key { hi, lo }, bump))
}

/// Seeds of a registry address: namespace, create key, registry role.
pub open spec fn multisig_seeds(create_key: Key) -> Seq<Seq<u8>> {
    seq![tag_squad(), key_bytes(create_key), tag_multisig()]
}

/// Seeds of a transaction address: namespace, registry address, the
/// transaction's index, transaction role.
pub open spec fn transaction_seeds(ms_key: Key, tx_index: u32) -> Seq<Seq<u8>> {
    seq![tag_squad(), key_bytes(ms_key), u32_le_bytes(tx_index), tag_transaction()]
}

/// Seeds of an instruction address: namespace, transaction address, the
/// instruction's one-byte index, instruction role.
pub open spec fn instruction_seeds(tx_key: Key, ix_index: u8) -> Seq<Seq<u8>> {
    seq![tag_squad(), key_bytes(tx_key), seq![ix_index], tag_instruction()]
}

/// Seeds of a derived authority: namespace, registry address, the
/// authority index, authority role.
pub open spec fn authority_seeds(ms_key: Key, authority_index: u32) -> Seq<Seq<u8>> {
    seq![tag_squad(), key_bytes(ms_key), u32_le_bytes(authority_index), tag_authority()]
}

/// Seeds of a spending limit address: namespace, registry address, the
/// limit's create key, spending limit role.
pub open spec fn spending_limit_seeds(ms_key: Key, create_key: Key) -> Seq<Seq<u8>> {
    seq![tag_squad(), key_bytes(ms_key), key_bytes(create_key), tag_spending_limit()]
}

/// Seeds of a validator manager address: namespace, registry address,
/// manager role.
pub open spec fn vmanage_seeds(ms_key: Key) -> Seq<Seq<u8>> {
    seq![tag_squad(), key_bytes(ms_key), tag_vmanage()]
}

/// Seeds of a managed validator address: namespace, manager address, the
/// validator's index, validator role.
pub open spec fn validator_seeds(vm_key: Key, index: u32) -> Seq<Seq<u8>> {
    seq![tag_squad(), key_bytes(vm_key), u32_le_bytes(index), tag_validator()]
}

/// Build the `squad` namespace tag.
fn tag_squad_vec() -> (r: Vec<u8>)
    ensures
        r@ == tag_squad(),
{
    let mut v: Vec<u8> = Vec::new();
    v.push(115);
    v.push(113);
    v.push(117);
    v.push(97);
    v.push(100);
    proof {
        assert(v@ =~= tag_squad());
    }
    v
}

/// Build the `multisig` role tag.
fn tag_multisig_vec() -> (r: Vec<u8>)
    ensures
        r@ == tag_multisig(),
{
    let mut v: Vec<u8> = Vec::new();
    v.push(109);
    v.push(117);
    v.push(108);
    v.push(116);
    v.push(105);
    v.push(115);
    v.push(105);
    v.push(103);
    proof {
        assert(v@ =~= tag_multisig());
    }
    v
}

/// Build the `transaction` role tag.
fn tag_transaction_vec() -> (r: Vec<u8>)
    ensures
        r@ == tag_transaction(),
{
    let mut v: Vec<u8> = Vec::new();
    v.push(116);
    v.push(114);
    v.push(97);
    v.push(110);
    v.push(115);
    v.push(97);
    v.push(99);
    v.push(116);
    v.push(105);
    v.push(111);
    v.push(110);
    proof {
        assert(v@ =~= tag_transaction());
    }
    v
}

/// Build the `instruction` role tag.
fn tag_instruction_vec() -> (r: Vec<u8>)
    ensures
        r@ == tag_instruction(),
{
    let mut v: Vec<u8> = Vec::new();
    v.push(105);
    v.push(110);
    v.push(115);
    v.push(116);
    v.push(114);
    v.push(117);
    v.push(99);
    v.push(116);
    v.push(105);
    v.push(111);
    v.push(110);
    proof {
        assert(v@ =~= tag_instruction());
    }
    v
}

/// Build the `authority` role tag.
fn tag_authority_vec() -> (r: Vec<u8>)
    ensures
        r@ == tag_authority(),
{
    let mut v: Vec<u8> = Vec::new();
    v.push(97);
    v.push(117);
    v.push(116);
    v.push(104);
    v.push(111);
    v.push(114);
    v.push(105);
    v.push(116);
    v.push(121);
    proof {
        assert(v@ =~= tag_authority());
    }
    v
}

/// Build the `spending_limit` role tag.
fn tag_spending_limit_vec() -> (r: Vec<u8>)
    ensures
        r@ == tag_spending_limit(),
{
    let mut v: Vec<u8> = Vec::new();
    v.push(115);
    v.push(112);
    v.push(101);
    v.push(110);
    v.push(100);
    v.push(105);
    v.push(110);
    v.push(103);
    v.push(95);
    v.push(108);
    v.push(105);
    v.push(109);
    v.push(105);
    v.push(116);
    proof {
        assert(v@ =~= tag_spending_limit());
    }
    v
}

/// Build the `vmanage` role tag.
fn tag_vmanage_vec() -> (r: Vec<u8>)
    ensures
        r@ == tag_vmanage(),
{
    let mut v: Vec<u8> = Vec::new();
    v.push(118);
    v.push(109);
    v.push(97);
    v.push(110);
    v.push(97);
    v.push(103);
    v.push(101);
    proof {
        assert(v@ =~= tag_vmanage());
    }
    v
}

/// Build the `validator` role tag.
fn tag_validator_vec() -> (r: Vec<u8>)
    ensures
        r@ == tag_validator(),
{
    let mut v: Vec<u8> = Vec::new();
    v.push(118);
    v.push(97);
    v.push(108);
    v.push(105);
    v.push(100);
    v.push(97);
    v.push(116);
    v.push(111);
    v.push(114);
    proof {
        assert(v@ =~= tag_validator());
    }
    v
}

/// Derive a registry address from its create key.
pub fn derive_multisig(create_key: &Key, program: &Key) -> (r: Option<(Key, u8)>)
    ensures
        r == pda_of(multisig_seeds(*create_key), *program),
{
    let mut seeds: Vec<Vec<u8>> = Vec::new();
    seeds.push(tag_squad_vec());
    seeds.push(key_to_bytes(create_key));
    seeds.push(tag_multisig_vec());
    proof {
        assert(seeds.deep_view() =~~= multisig_seeds(*create_key));
    }
    find_pda(&seeds, program)
}

/// Derive a transaction address from its registry and index.
pub fn derive_transaction(ms_key: &Key, tx_index: u32, program: &Key) -> (r: Option<(Key, u8)>)
    ensures
        r == pda_of(transaction_seeds(*ms_key, tx_index), *program),
{
    let mut seeds: Vec<Vec<u8>> = Vec::new();
    seeds.push(tag_squad_vec());
    seeds.push(key_to_bytes(ms_key));
    seeds.push(u32_to_le_bytes(tx_index));
    seeds.push(tag_transaction_vec());
    proof {
        assert(seeds.deep_view() =~~= transaction_seeds(*ms_key, tx_index));
    }
    find_pda(&seeds, program)
}

/// Derive an instruction address from its transaction and index.
pub fn derive_instruction(tx_key: &Key, ix_index: u8, program: &Key) -> (r: Option<(Key, u8)>)
    ensures
        r == pda_of(instruction_seeds(*tx_key, ix_index), *program),
{
    let mut seeds: Vec<Vec<u8>> = Vec::new();
    seeds.push(tag_squad_vec());
    seeds.push(key_to_bytes(tx_key));
    let mut ix: Vec<u8> = Vec::new();
    ix.push(ix_index);
    proof {
        assert(ix@ =~= seq![ix_index]);
    }
    seeds.push(ix);
    seeds.push(tag_instruction_vec());
    proof {
        assert(seeds.deep_view() =~~= instruction_seeds(*tx_key, ix_index));
    }
    find_pda(&seeds, program)
}

/// Derive a signing authority address from its registry and index.
pub fn derive_authority(ms_key: &Key, authority_index: u32, program: &Key) -> (r: Option<
    (Key, u8),
>)
    ensures
        r == pda_of(authority_seeds(*ms_key, authority_index), *program),
{
    let mut seeds: Vec<Vec<u8>> = Vec::new();
    seeds.push(tag_squad_vec());
    seeds.push(key_to_bytes(ms_key));
    seeds.push(u32_to_le_bytes(authority_index));
    seeds.push(tag_authority_vec());
    proof {
        assert(seeds.deep_view() =~~= authority_seeds(*ms_key, authority_index));
    }
    find_pda(&seeds, program)
}

/// Derive a spending limit address from its registry and create key.
pub fn derive_spending_limit(ms_key: &Key, create_key: &Key, program: &Key) -> (r: Option<
    (Key, u8),
>)
    ensures
        r == pda_of(spending_limit_seeds(*ms_key, *create_key), *program),
{
    let mut seeds: Vec<Vec<u8>> = Vec::new();
    seeds.push(tag_squad_vec());
    seeds.push(key_to_bytes(ms_key));
    seeds.push(key_to_bytes(create_key));
    seeds.push(tag_spending_limit_vec());
    proof {
        assert(seeds.deep_view() =~~= spending_limit_seeds(*ms_key, *create_key));
    }
    find_pda(&seeds, program)
}

/// Derive a validator manager address from its registry.
pub fn derive_vmanage(ms_key: &Key, program: &Key) -> (r: Option<(Key, u8)>)
    ensures
        r == pda_of(vmanage_seeds(*ms_key), *program),
{
    let mut seeds: Vec<Vec<u8>> = Vec::new();
    seeds.push(tag_squad_vec());
    seeds.push(key_to_bytes(ms_key));
    seeds.push(tag_vmanage_vec());
    proof {
        assert(seeds.deep_view() =~~= vmanage_seeds(*ms_key));
    }
    find_pda(&seeds, program)
}

/// Derive a managed validator address from its manager and index.
pub fn derive_validator(vm_key: &Key, index: u32, program: &Key) -> (r: Option<(Key, u8)>)
    ensures
        r == pda_of(validator_seeds(*vm_key, index), *program),
{
    let mut seeds: Vec<Vec<u8>> = Vec::new();
    seeds.push(tag_squad_vec());
    seeds.push(key_to_bytes(vm_key));
    seeds.push(u32_to_le_bytes(index));
    seeds.push(tag_validator_vec());
    proof {
        assert(seeds.deep_view() =~~= validator_seeds(*vm_key, index));
    }
    find_pda(&seeds, program)
}

/// The seed list, bump included, with which the host lets a derived
/// authority sign.
pub open spec fn authority_signer_seeds(ms_key: Key, authority_index: u32, bump: u8) -> Seq<
    Seq<u8>,
> {
    authority_seeds(ms_key, authority_index).push(seq![bump])
}

/// The seed list, bump included, with which the host lets the registry's
/// own identity sign.
pub open spec fn multisig_signer_seeds(create_key: Key, bump: u8) -> Seq<Seq<u8>> {
    multisig_seeds(create_key).push(seq![bump])
}

/// Build the signer seeds of a derived authority.
pub fn build_authority_signer_seeds(ms_key: &Key, authority_index: u32, bump: u8) -> (r: Vec<
    Vec<u8>,
>)
    ensures
        r.deep_view() == authority_signer_seeds(*ms_key, authority_index, bump),
{
    let mut seeds: Vec<Vec<u8>> = Vec::new();
    seeds.push(tag_squad_vec());
    seeds.push(key_to_bytes(ms_key));
    seeds.push(u32_to_le_bytes(authority_index));
    seeds.push(tag_authority_vec());
    let mut b: Vec<u8> = Vec::new();
    b.push(bump);
    proof {
        assert(b@ =~= seq![bump]);
    }
    seeds.push(b);
    proof {
        assert(seeds.deep_view() =~~= authority_signer_seeds(*ms_key, authority_index, bump));
    }
    seeds
}

/// Build the signer seeds of the registry's own identity.
pub fn build_multisig_signer_seeds(create_key: &Key, bump: u8) -> (r: Vec<Vec<u8>>)
    ensures
        r.deep_view() == multisig_signer_seeds(*create_key, bump),
{
    let mut seeds: Vec<Vec<u8>> = Vec::new();
    seeds.push(tag_squad_vec());
    seeds.push(key_to_bytes(create_key));
    seeds.push(tag_multisig_vec());
    let mut b: Vec<u8> = Vec::new();
    b.push(bump);
    proof {
        assert(b@ =~= seq![bump]);
    }
    seeds.push(b);
    proof {
        assert(seeds.deep_view() =~~= multisig_signer_seeds(*create_key, bump));
    }
    seeds
}

} // verus!
