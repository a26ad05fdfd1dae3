//! Registry-level operations: creation and every configuration change.
//! Each mutating operation ends by setting the change index to the current
//! transaction index, deprecating every in-flight transaction.

use vstd::prelude::*;
use crate::key::{Key, key_lt};
use crate::keyset::sorted_unique;
use crate::ms::{Ms, Member, member_keys, MAX_TIME_LOCK};
use crate::errors::MsError;

verus! {

/// No two entries share a key.
pub open spec fn distinct_member_keys(members: Seq<Member>) -> bool {
    forall|i: int, j: int| 0 <= i < j < members.len() ==> members[i].key != members[j].key
}

/// The validation chain of `create`, in check order.
pub open spec fn create_error(threshold: u16, members: Seq<Member>, time_lock: u32) -> Option<
    MsError,
> {
    if members.len() < 1 {
        Some(MsError::CannotRemoveSoloMember)
    } else if members.len() > u16::MAX as int {
        Some(MsError::MaxMembersReached)
    } else if threshold < 1 || threshold > members.len() {
        Some(MsError::InvalidThreshold)
    } else if time_lock > MAX_TIME_LOCK {
        Some(MsError::TimeLockExceedsMaximum)
    } else if !distinct_member_keys(members) {
        Some(MsError::DuplicateMembers)
    } else {
        None
    }
}

/// Create a registry: validate the member set, threshold and time lock,
/// and return the new record with the members sorted by key. Counters
/// start at zero, so nothing is deprecated and no transaction exists yet.
pub fn create(
    threshold: u16,
    create_key: Key,
    members: Vec<Member>,
    time_lock: u32,
    bump: u8,
) -> (r: Result<Ms, MsError>)
    ensures
        r is Ok <==> create_error(threshold, members@, time_lock) is None,
        r is Err ==> Some(r->Err_0) == create_error(threshold, members@, time_lock),
        r is Ok ==> {
            let ms = r->Ok_0;
            &&& ms.wf()
            &&& ms.threshold == threshold
            &&& ms.create_key == create_key
            &&& ms.bump == bump
            &&& ms.time_lock == time_lock
            &&& ms.authority_index == 1
            &&& ms.transaction_index == 0
            &&& ms.ms_change_index == 0
            &&& ms.spending_limit_enabled
            &&& ms.guardian is None
            &&& ms.keys@.len() == members@.len()
            &&& ms.member_set() == member_keys(members@).to_set()
        },
{
    if members.len() < 1 {
        return Err(MsError::CannotRemoveSoloMember);
    }
    if members.len() > (u16::MAX as usize) {
        return Err(MsError::MaxMembersReached);
    }
    if threshold < 1 || (threshold as usize) > members.len() {
        return Err(MsError::InvalidThreshold);
    }
    if time_lock > MAX_TIME_LOCK {
        return Err(MsError::TimeLockExceedsMaximum);
    }
    let mut ms = Ms::init(threshold, create_key, Vec::new(), bump, time_lock);
    proof {
        assert(member_keys(ms.keys@) =~= Seq::<Key>::empty());
        assert(ms.member_set() =~= Set::<Key>::empty());
    }
    let n = members.len();
    let mut i: usize = 0;
    while i < n
        invariant
            i <= n,
            n == members@.len(),
            1 <= n <= u16::MAX as int,
            1 <= threshold <= n,
            time_lock <= MAX_TIME_LOCK,
            sorted_unique(member_keys(ms.keys@)),
            ms.keys@.len() == i,
            ms.member_set() == member_keys(members@.take(i as int)).to_set(),
            distinct_member_keys(members@.take(i as int)),
            ms.threshold == threshold,
            ms.create_key == create_key,
            ms.bump == bump,
            ms.time_lock == time_lock,
            ms.authority_index == 1,
            ms.transaction_index == 0,
            ms.ms_change_index == 0,
            ms.spending_limit_enabled,
            ms.guardian is None,
        decreases n - i,
    {
        let ghost pre = ms.member_set();
        let m = members[i];
        match ms.add_member(m) {
            Ok(_) => {},
            Err(e) => {
                proof {
                    // The rejected key already occurs among the first i
                    // entries, so the input has a duplicate.
                    let tk = member_keys(members@.take(i as int));
                    assert(tk.to_set().contains(m.key));
                    assert(tk.contains(m.key));
                    let p = choose|p: int| 0 <= p < tk.len() && tk[p] == m.key;
                    assert(tk[p] == members@.take(i as int)[p].key);
                    assert(members@.take(i as int)[p] == members@[p]);
                    assert(0 <= p < i < members@.len());
                    assert(members@[p].key == members@[i as int].key);
                    assert(!distinct_member_keys(members@));
                }
                return Err(e);
            },
        }
        proof {
            let tk = members@.take(i + 1);
            assert forall|q: int| 0 <= q < i + 1 implies tk[q] == members@[q] by {}
            assert(member_keys(tk).to_set() =~= pre.insert(m.key)) by {
                assert forall|a: Key| member_keys(tk).to_set().contains(a) implies pre.insert(
                    m.key,
                ).contains(a) by {
                    let q = choose|q: int| 0 <= q < tk.len() && member_keys(tk)[q] == a;
                    if q < i {
                        assert(member_keys(members@.take(i as int))[q] == a);
                    }
                }
                assert forall|a: Key| pre.insert(m.key).contains(a) implies member_keys(
                    tk,
                ).to_set().contains(a) by {
                    if a == m.key {
                        assert(member_keys(tk)[i as int] == a);
                    } else {
                        let q = choose|q: int|
                            0 <= q < i && member_keys(members@.take(i as int))[q] == a;
                        assert(member_keys(tk)[q] == a);
                    }
                }
            }
            assert forall|p: int, q: int| 0 <= p < q < i + 1 implies tk[p].key != tk[q].key by {
                if q == i {
                    // The insert succeeded, so the new key was not among
                    // the first i.
                    assert(!pre.contains(m.key));
                    assert(member_keys(members@.take(i as int))[p] == tk[p].key);
                    assert(pre.contains(member_keys(members@.take(i as int))[p]));
                } else {
                    assert(members@.take(i as int)[p] == tk[p]);
                    assert(members@.take(i as int)[q] == tk[q]);
                }
            }
        }
        i = i + 1;
    }
    proof {
        assert(members@.take(n as int) =~= members@);
    }
    Ok(ms)
}

/// The validation chain of `add_member`, in check order.
pub open spec fn add_member_error(ms: Ms, new_member: Member) -> Option<MsError> {
    if ms.keys@.len() >= u16::MAX as int {
        Some(MsError::MaxMembersReached)
    } else if ms.spec_is_member(new_member.key) {
        Some(MsError::DuplicateMembers)
    } else {
        None
    }
}

/// What every successful registry mutation does to the bookkeeping: the
/// change index moves up to the current transaction index, deprecating
/// every transaction created at or before it.
pub open spec fn change_index_bumped(pre: Ms, post: Ms) -> bool {
    post.ms_change_index == pre.transaction_index
}

/// Add a member, keeping the list sorted. The caller must have funded any
/// storage growth beforehand; the host rejects the growth otherwise.
pub fn add_member(ms: &mut Ms, new_member: Member) -> (r: Result<(), MsError>)
    requires
        old(ms).wf(),
    ensures
        r is Ok <==> add_member_error(*old(ms), new_member) is None,
        r is Err ==> Some(r->Err_0) == add_member_error(*old(ms), new_member) && *final(ms)
            == *old(ms),
        r is Ok ==> {
            &&& final(ms).wf()
            &&& final(ms).keys@.len() == old(ms).keys@.len() + 1
            &&& final(ms).member_set() == old(ms).member_set().insert(new_member.key)
            &&& final(ms).keys@.contains(new_member)
            &&& change_index_bumped(*old(ms), *final(ms))
            &&& final(ms).threshold == old(ms).threshold
            &&& final(ms).transaction_index == old(ms).transaction_index
            &&& final(ms).time_lock == old(ms).time_lock
            &&& final(ms).guardian == old(ms).guardian
            &&& final(ms).spending_limit_enabled == old(ms).spending_limit_enabled
            &&& final(ms).create_key == old(ms).create_key
            &&& final(ms).bump == old(ms).bump
            &&& final(ms).authority_index == old(ms).authority_index
        },
{
    if ms.keys.len() >= (u16::MAX as usize) {
        return Err(MsError::MaxMembersReached);
    }
    match ms.add_member(new_member) {
        Ok(_) => {},
        Err(e) => { return Err(e) },
    }
    let new_index = ms.transaction_index;
    match ms.set_change_index(new_index) {
        Ok(_) => {},
        Err(e) => { return Err(e) },
    }
    Ok(())
}

/// The validation chain of `remove_member`, in check order.
pub open spec fn remove_member_error(ms: Ms, old_member: Key) -> Option<MsError> {
    if ms.keys@.len() <= 1 {
        Some(MsError::CannotRemoveSoloMember)
    } else if !ms.spec_is_member(old_member) {
        Some(MsError::MemberNotFound)
    } else {
        None
    }
}

/// Remove a member. A registry always retains at least one member, and
/// the threshold shrinks if it would otherwise exceed the new count.
pub fn remove_member(ms: &mut Ms, old_member: Key) -> (r: Result<(), MsError>)
    requires
        old(ms).wf(),
    ensures
        r is Ok <==> remove_member_error(*old(ms), old_member) is None,
        r is Err ==> Some(r->Err_0) == remove_member_error(*old(ms), old_member) && *final(ms)
            == *old(ms),
        r is Ok ==> {
            &&& final(ms).wf()
            &&& final(ms).keys@.len() == old(ms).keys@.len() - 1
            &&& final(ms).member_set() == old(ms).member_set().remove(old_member)
            &&& !final(ms).spec_is_member(old_member)
            &&& final(ms).threshold == if old(ms).threshold > old(ms).keys@.len() - 1 {
                old(ms).keys@.len() - 1
            } else {
                old(ms).threshold as int
            }
            &&& change_index_bumped(*old(ms), *final(ms))
            &&& final(ms).transaction_index == old(ms).transaction_index
            &&& final(ms).time_lock == old(ms).time_lock
            &&& final(ms).guardian == old(ms).guardian
            &&& final(ms).spending_limit_enabled == old(ms).spending_limit_enabled
            &&& final(ms).create_key == old(ms).create_key
            &&& final(ms).bump == old(ms).bump
            &&& final(ms).authority_index == old(ms).authority_index
        },
{
    if ms.keys.len() <= 1 {
        return Err(MsError::CannotRemoveSoloMember);
    }
    match ms.remove_member(old_member) {
        Ok(_) => {},
        Err(e) => { return Err(e) },
    }
    // Keep the threshold satisfiable by the members that are left.
    if (ms.threshold as usize) > ms.keys.len() {
        let shrunk = ms.keys.len() as u16;
        match ms.change_threshold(shrunk) {
            Ok(_) => {},
            Err(e) => { return Err(e) },
        }
    }
    let new_index = ms.transaction_index;
    match ms.set_change_index(new_index) {
        Ok(_) => {},
        Err(e) => { return Err(e) },
    }
    Ok(())
}

/// The validation chain of `change_threshold`.
pub open spec fn change_threshold_error(new_threshold: u16) -> Option<MsError> {
    if new_threshold < 1 {
        Some(MsError::InvalidThreshold)
    } else {
        None
    }
}

/// Set the approval threshold. A value above the member count is clamped
/// to the member count; zero is rejected.
pub fn change_threshold(ms: &mut Ms, new_threshold: u16) -> (r: Result<(), MsError>)
    requires
        old(ms).wf(),
    ensures
        r is Ok <==> change_threshold_error(new_threshold) is None,
        r is Err ==> Some(r->Err_0) == change_threshold_error(new_threshold) && *final(ms)
            == *old(ms),
        r is Ok ==> {
            &&& final(ms).wf()
            &&& final(ms).threshold == if new_threshold > old(ms).keys@.len() {
                old(ms).keys@.len() as int
            } else {
                new_threshold as int
            }
            &&& change_index_bumped(*old(ms), *final(ms))
            &&& final(ms).keys@ == old(ms).keys@
            &&& final(ms).transaction_index == old(ms).transaction_index
            &&& final(ms).time_lock == old(ms).time_lock
            &&& final(ms).guardian == old(ms).guardian
            &&& final(ms).spending_limit_enabled == old(ms).spending_limit_enabled
            &&& final(ms).create_key == old(ms).create_key
            &&& final(ms).bump == old(ms).bump
            &&& final(ms).authority_index == old(ms).authority_index
        },
{
    if ms.keys.len() < (new_threshold as usize) {
        let clamped = ms.keys.len() as u16;
        match ms.change_threshold(clamped) {
            Ok(_) => {},
            Err(e) => { return Err(e) },
        }
    } else if new_threshold < 1 {
        return Err(MsError::InvalidThreshold);
    } else {
        match ms.change_threshold(new_threshold) {
            Ok(_) => {},
            Err(e) => { return Err(e) },
        }
    }
    let new_index = ms.transaction_index;
    match ms.set_change_index(new_index) {
        Ok(_) => {},
        Err(e) => { return Err(e) },
    }
    Ok(())
}

/// Bump the advisory authority counter. Purely informational: it neither
/// deprecates transactions nor affects any authorization check.
pub fn add_authority(ms: &mut Ms) -> (r: Result<(), MsError>)
    requires
        old(ms).wf(),
        old(ms).authority_index < u16::MAX,
    ensures
        r is Ok,
        *final(ms) == (Ms {
            authority_index: (old(ms).authority_index + 1) as u16,
            ..*old(ms)
        }),
        final(ms).wf(),
{
    ms.add_authority()
}

/// The validation chain of `update_multisig_settings`.
pub open spec fn update_settings_error(new_time_lock: u32) -> Option<MsError> {
    if new_time_lock > MAX_TIME_LOCK {
        Some(MsError::TimeLockExceedsMaximum)
    } else {
        None
    }
}

/// Update time lock, spending-limit flag and guardian in one step, and
/// deprecate every in-flight transaction.
pub fn update_multisig_settings(
    ms: &mut Ms,
    new_time_lock: u32,
    spending_limit_enabled: bool,
    guardian: Option<Key>,
) -> (r: Result<(), MsError>)
    requires
        old(ms).wf(),
    ensures
        r is Ok <==> update_settings_error(new_time_lock) is None,
        r is Err ==> Some(r->Err_0) == update_settings_error(new_time_lock) && *final(ms) == *old(
            ms,
        ),
        r is Ok ==> {
            &&& final(ms).wf()
            &&& final(ms).time_lock == new_time_lock
            &&& final(ms).spending_limit_enabled == spending_limit_enabled
            &&& final(ms).guardian == guardian
            &&& change_index_bumped(*old(ms), *final(ms))
            &&& final(ms).keys@ == old(ms).keys@
            &&& final(ms).threshold == old(ms).threshold
            &&& final(ms).transaction_index == old(ms).transaction_index
            &&& final(ms).create_key == old(ms).create_key
            &&& final(ms).bump == old(ms).bump
            &&& final(ms).authority_index == old(ms).authority_index
        },
{
    if new_time_lock > MAX_TIME_LOCK {
        return Err(MsError::TimeLockExceedsMaximum);
    }
    ms.time_lock = new_time_lock;
    ms.spending_limit_enabled = spending_limit_enabled;
    ms.guardian = guardian;
    let new_index = ms.transaction_index;
    match ms.set_change_index(new_index) {
        Ok(_) => {},
        Err(e) => { return Err(e) },
    }
    Ok(())
}

/// The validation chain of `remove_primary_member`, in check order: the
/// caller must be the guardian, the target must be a member flagged as
/// removable by the guardian, and a solo member can never be removed.
pub open spec fn remove_primary_member_error(ms: Ms, remover: Key, old_member: Key) -> Option<
    MsError,
> {
    if ms.guardian != Some(remover) {
        Some(MsError::UnauthorizedMember)
    } else if !ms.spec_is_member(old_member) {
        Some(MsError::MemberNotFound)
    } else if !member_flag(ms, old_member) {
        Some(MsError::UnauthorizedMember)
    } else if ms.keys@.len() <= 1 {
        Some(MsError::CannotRemoveSoloMember)
    } else {
        None
    }
}

/// Whether the member holding `key` may be removed by the guardian.
pub open spec fn member_flag(ms: Ms, key: Key) -> bool {
    exists|i: int|
        0 <= i < ms.keys@.len() && ms.keys@[i].key == key && ms.keys@[i].guardian_can_remove
}

/// Guardian-signed removal of a member that carries the removable flag.
/// The threshold shrinks if it would otherwise exceed the new count, so
/// guardian removal can never make the registry unsatisfiable.
pub fn remove_primary_member(ms: &mut Ms, remover: Key, old_member: Key) -> (r: Result<
    (),
    MsError,
>)
    requires
        old(ms).wf(),
    ensures
        r is Ok <==> remove_primary_member_error(*old(ms), remover, old_member) is None,
        r is Err ==> Some(r->Err_0) == remove_primary_member_error(*old(ms), remover, old_member)
            && *final(ms) == *old(ms),
        r is Ok ==> {
            &&& final(ms).wf()
            &&& final(ms).keys@.len() == old(ms).keys@.len() - 1
            &&& final(ms).member_set() == old(ms).member_set().remove(old_member)
            &&& !final(ms).spec_is_member(old_member)
            &&& change_index_bumped(*old(ms), *final(ms))
            &&& final(ms).guardian == old(ms).guardian
            &&& final(ms).transaction_index == old(ms).transaction_index
        },
{
    let authorized = match &ms.guardian {
        Some(g) => g.eq_key(&remover),
        None => false,
    };
    if !authorized {
        return Err(MsError::UnauthorizedMember);
    }
    let idx = match ms.is_member(old_member) {
        Some(idx) => idx,
        None => { return Err(MsError::MemberNotFound) },
    };
    if !ms.keys[idx].guardian_can_remove {
        proof {
            // Sortedness makes the index holding the key unique, so no
            // other entry can carry both this key and the flag.
            assert(!member_flag(*ms, old_member)) by {
                if member_flag(*ms, old_member) {
                    let i = choose|i: int|
                        0 <= i < ms.keys@.len() && ms.keys@[i].key == old_member
                            && ms.keys@[i].guardian_can_remove;
                    assert(member_keys(ms.keys@)[i] == ms.keys@[i].key);
                    assert(member_keys(ms.keys@)[idx as int] == ms.keys@[idx as int].key);
                    if i < idx {
                        assert(key_lt(member_keys(ms.keys@)[i], member_keys(ms.keys@)[idx as int]));
                    } else if i > idx {
                        assert(key_lt(member_keys(ms.keys@)[idx as int], member_keys(ms.keys@)[i]));
                    }
                }
            }
        }
        return Err(MsError::UnauthorizedMember);
    }
    proof {
        assert(ms.keys@[idx as int].guardian_can_remove);
        assert(member_flag(*ms, old_member));
    }
    if ms.keys.len() <= 1 {
        return Err(MsError::CannotRemoveSoloMember);
    }
    match ms.remove_member(old_member) {
        Ok(_) => {},
        Err(e) => { return Err(e) },
    }
    // Keep the threshold satisfiable by the members that are left.
    if (ms.threshold as usize) > ms.keys.len() {
        let shrunk = ms.keys.len() as u16;
        match ms.change_threshold(shrunk) {
            Ok(_) => {},
            Err(e) => { return Err(e) },
        }
    }
    let new_index = ms.transaction_index;
    match ms.set_change_index(new_index) {
        Ok(_) => {},
        Err(e) => { return Err(e) },
    }
    Ok(())
}

} // verus!
