//! The multisig registry: membership, threshold, change tracking, optional
//! guardian and time lock. It is the root of trust for every authorization
//! check; the member list is kept sorted by key so that membership is a
//! binary search and the stored layout is deterministic.

use vstd::prelude::*;
use crate::key::{Key, key_lt, key_le};
use crate::keyset::sorted_unique;
use crate::errors::MsError;

verus! {

/// Longest accepted time lock, in seconds (three months of thirty days).
pub const MAX_TIME_LOCK: u32 = 3 * 30 * 24 * 60 * 60;

/// One member of a registry: a key, and whether the guardian may remove
/// this member without a vote.
#[derive(Clone, Copy, PartialEq, Eq, Structural, Debug)]
pub struct Member {
    pub key: Key,
    pub guardian_can_remove: bool,
}

/// The keys of a member list, in stored order.
pub open spec fn member_keys(s: Seq<Member>) -> Seq<Key> {
    s.map_values(|m: Member| m.key)
}

/// The multisig registry record.
#[derive(Clone, PartialEq, Eq, Debug)]
pub struct Ms {
    /// How many approvals a transaction needs before it may execute.
    pub threshold: u16,
    /// Advisory count of derived authorities handed out; no effect on logic.
    pub authority_index: u16,
    /// Index of the most recently created transaction.
    pub transaction_index: u32,
    /// Transaction index at the last configuration change; transactions at
    /// or below it are deprecated.
    pub ms_change_index: u32,
    /// Derivation proof for the registry's own address.
    pub bump: u8,
    /// Seed identity fixed at creation.
    pub create_key: Key,
    /// Members, sorted ascending by key, duplicate-free.
    pub keys: Vec<Member>,
    /// Seconds a transaction must stay active before approvals count.
    pub time_lock: u32,
    /// Whether spending limits may currently move funds.
    pub spending_limit_enabled: bool,
    /// Key allowed to pause spending limits and remove flagged members.
    pub guardian: Option<Key>,
}

impl Ms {
    /// The registry invariant: non-empty sorted duplicate-free member set
    /// that fits the representable count, threshold within range, bounded
    /// time lock, and a change index that never outruns the transaction
    /// counter.
    pub open spec fn wf(self) -> bool {
        &&& sorted_unique(member_keys(self.keys@))
        &&& self.keys@.len() >= 1
        &&& self.keys@.len() <= u16::MAX as int
        &&& 1 <= self.threshold <= self.keys@.len()
        &&& self.time_lock <= MAX_TIME_LOCK
        &&& self.ms_change_index <= self.transaction_index
    }

    /// The set of member keys.
    pub open spec fn member_set(self) -> Set<Key> {
        member_keys(self.keys@).to_set()
    }

    /// Whether `k` is a member.
    pub open spec fn spec_is_member(self, k: Key) -> bool {
        member_keys(self.keys@).contains(k)
    }

    /// Build a fresh registry. Counters start at zero, the default vault is
    /// authority one, spending limits start enabled, and no guardian is set.
    /// Validation is the caller's next step (`check_invariants`).
    pub fn init(threshold: u16, create_key: Key, members: Vec<Member>, bump: u8, time_lock: u32)
        -> (ms: Ms)
        ensures
            ms == (Ms {
                threshold,
                authority_index: 1u16,
                transaction_index: 0u32,
                ms_change_index: 0u32,
                bump,
                create_key,
                keys: members,
                time_lock,
                spending_limit_enabled: true,
                guardian: None::<Key>,
            }),
    {
        Ms {
            threshold,
            authority_index: 1,
            transaction_index: 0,
            ms_change_index: 0,
            bump,
            create_key,
            keys: members,
            time_lock,
            spending_limit_enabled: true,
            guardian: None,
        }
    }

    /// Check every registry invariant, reporting the first violation.
    /// The member list must be strictly ascending by key; any order or
    /// duplication violation reports `DuplicateMembers`.
    pub fn check_invariants(&self) -> (r: Result<(), MsError>)
        ensures
            r is Ok <==> self.wf(),
            r == Err::<(), MsError>(MsError::CannotRemoveSoloMember) <==> self.keys@.len() < 1,
            r == Err::<(), MsError>(MsError::MaxMembersReached) <==> (self.keys@.len() >= 1
                && self.keys@.len() > u16::MAX as int),
            r == Err::<(), MsError>(MsError::InvalidThreshold) <==> (1 <= self.keys@.len()
                <= u16::MAX as int && !(1 <= self.threshold <= self.keys@.len())),
            r == Err::<(), MsError>(MsError::TimeLockExceedsMaximum) <==> (1 <= self.keys@.len()
                <= u16::MAX as int && 1 <= self.threshold <= self.keys@.len() && self.time_lock
                > MAX_TIME_LOCK),
            r == Err::<(), MsError>(MsError::DuplicateMembers) <==> (1 <= self.keys@.len()
                <= u16::MAX as int && 1 <= self.threshold <= self.keys@.len() && self.time_lock
                <= MAX_TIME_LOCK && !sorted_unique(member_keys(self.keys@))),
            r == Err::<(), MsError>(MsError::ChangeIndexExceedsTransactionIndex) <==> (1
                <= self.keys@.len() <= u16::MAX as int && 1 <= self.threshold
                <= self.keys@.len() && self.time_lock <= MAX_TIME_LOCK && sorted_unique(
                member_keys(self.keys@),
            ) && self.ms_change_index > self.transaction_index),
    {
        if self.keys.len() < 1 {
            return Err(MsError::CannotRemoveSoloMember);
        }
        if self.keys.len() > (u16::MAX as usize) {
            return Err(MsError::MaxMembersReached);
        }
        if self.threshold < 1 || (self.threshold as usize) > self.keys.len() {
            return Err(MsError::InvalidThreshold);
        }
        if self.time_lock > MAX_TIME_LOCK {
            return Err(MsError::TimeLockExceedsMaximum);
        }
        let n = self.keys.len();
        let mut i: usize = 1;
        while i < n
            invariant
                1 <= i <= n,
                n == self.keys@.len(),
                1 <= self.threshold <= self.keys@.len() <= u16::MAX as int,
                self.time_lock <= MAX_TIME_LOCK,
                forall|p: int, q: int| 0 <= p < q < i ==> key_lt(
                    member_keys(self.keys@)[p],
                    member_keys(self.keys@)[q],
                ),
            decreases n - i,
        {
            if !self.keys[i - 1].key.lt(&self.keys[i].key) {
                proof {
                    let mk = member_keys(self.keys@);
                    assert(mk[i - 1] == self.keys@[i - 1].key);
                    assert(mk[i as int] == self.keys@[i as int].key);
                    assert(!sorted_unique(mk)) by {
                        if sorted_unique(mk) {
                            assert(key_lt(mk[i - 1], mk[i as int]));
                        }
                    }
                }
                return Err(MsError::DuplicateMembers);
            }
            proof {
                assert forall|p: int, q: int| 0 <= p < q < i + 1 implies key_lt(
                    member_keys(self.keys@)[p],
                    member_keys(self.keys@)[q],
                ) by {
                    if q == i {
                        if p < i - 1 {
                            assert(key_lt(
                                member_keys(self.keys@)[p],
                                member_keys(self.keys@)[i - 1],
                            ));
                        }
                        assert(key_lt(member_keys(self.keys@)[i - 1], member_keys(self.keys@)[q]));
                    }
                }
            }
            i = i + 1;
        }
        if self.ms_change_index > self.transaction_index {
            return Err(MsError::ChangeIndexExceedsTransactionIndex);
        }
        Ok(())
    }

    /// Membership test by binary search: the position of the key in the
    /// member list, or `None` when the key is not a member.
    pub fn is_member(&self, member_key: Key) -> (r: Option<usize>)
        requires
            sorted_unique(member_keys(self.keys@)),
        ensures
            r is Some <==> self.spec_is_member(member_key),
            r is Some ==> r->Some_0 < self.keys@.len() && self.keys@[r->Some_0 as int].key
                == member_key,
    {
        let n = self.keys.len();
        let mut lo: usize = 0;
        let mut hi: usize = n;
        while lo < hi
            invariant
                lo <= hi <= n,
                n == self.keys@.len(),
                sorted_unique(member_keys(self.keys@)),
                forall|j: int| 0 <= j < lo ==> key_lt(member_keys(self.keys@)[j], member_key),
                forall|j: int| hi <= j < n ==> key_le(member_key, member_keys(self.keys@)[j]),
            decreases hi - lo,
        {
            let mid = lo + (hi - lo) / 2;
            assert(member_keys(self.keys@)[mid as int] == self.keys@[mid as int].key);
            if self.keys[mid].key.lt(&member_key) {
                proof {
                    assert forall|j: int| 0 <= j <= mid implies key_lt(
                        member_keys(self.keys@)[j],
                        member_key,
                    ) by {
                        if j < mid {
                            assert(key_lt(
                                member_keys(self.keys@)[j],
                                member_keys(self.keys@)[mid as int],
                            ));
                        }
                    }
                }
                lo = mid + 1;
            } else {
                proof {
                    assert forall|j: int| mid <= j < n implies key_le(
                        member_key,
                        member_keys(self.keys@)[j],
                    ) by {
                        if j > mid {
                            assert(key_lt(
                                member_keys(self.keys@)[mid as int],
                                member_keys(self.keys@)[j],
                            ));
                        }
                    }
                }
                hi = mid;
            }
        }
        if lo < n {
            assert(member_keys(self.keys@)[lo as int] == self.keys@[lo as int].key);
            if self.keys[lo].key.eq_key(&member_key) {
                assert(member_keys(self.keys@).contains(member_key));
                return Some(lo);
            }
        }
        assert(!member_keys(self.keys@).contains(member_key)) by {
            assert forall|j: int| 0 <= j < member_keys(self.keys@).len() implies member_keys(
                self.keys@,
            )[j] != member_key by {
                if j >= lo {
                    assert(key_le(member_key, member_keys(self.keys@)[lo as int]));
                    if j > lo {
                        assert(key_lt(
                            member_keys(self.keys@)[lo as int],
                            member_keys(self.keys@)[j],
                        ));
                    }
                }
            }
        }
        None
    }

    /// Record a configuration change: every transaction whose index is at
    /// or below the new change index is deprecated from here on.
    pub fn set_change_index(&mut self, index: u32) -> (r: Result<(), MsError>)
        ensures
            r is Ok,
            *final(self) == (Ms { ms_change_index: index, ..*old(self) }),
    {
        self.ms_change_index = index;
        Ok(())
    }

    /// Bump the advisory authority counter. Tracking only; no authorization
    /// depends on it.
    pub fn add_authority(&mut self) -> (r: Result<(), MsError>)
        requires
            old(self).authority_index < u16::MAX,
        ensures
            r is Ok,
            *final(self) == (Ms {
                authority_index: (old(self).authority_index + 1) as u16,
                ..*old(self)
            }),
    {
        self.authority_index = self.authority_index + 1;
        Ok(())
    }

    /// Insert a member in key order. A key that is already present is
    /// reported as `DuplicateMembers` and leaves the registry unchanged.
    pub fn add_member(&mut self, member: Member) -> (r: Result<(), MsError>)
        requires
            sorted_unique(member_keys(old(self).keys@)),
            old(self).keys@.len() < usize::MAX,
        ensures
            r is Ok <==> !old(self).spec_is_member(member.key),
            r is Err ==> r == Err::<(), MsError>(MsError::DuplicateMembers) && *final(self) == *old(
                self,
            ),
            r is Ok ==> {
                &&& sorted_unique(member_keys(final(self).keys@))
                &&& final(self).keys@.len() == old(self).keys@.len() + 1
                &&& final(self).member_set() == old(self).member_set().insert(member.key)
                &&& final(self).keys@.contains(member)
                &&& *final(self) == (Ms { keys: final(self).keys, ..*old(self) })
            },
    {
        let ghost olds = self.keys@;
        let ghost oldk = member_keys(olds);
        let n = self.keys.len();
        let mut lo: usize = 0;
        let mut hi: usize = n;
        while lo < hi
            invariant
                lo <= hi <= n,
                n == self.keys@.len(),
                self.keys@ == olds,
                sorted_unique(member_keys(self.keys@)),
                forall|j: int| 0 <= j < lo ==> key_lt(member_keys(self.keys@)[j], member.key),
                forall|j: int| hi <= j < n ==> key_le(member.key, member_keys(self.keys@)[j]),
            decreases hi - lo,
        {
            let mid = lo + (hi - lo) / 2;
            assert(member_keys(self.keys@)[mid as int] == self.keys@[mid as int].key);
            if self.keys[mid].key.lt(&member.key) {
                proof {
                    assert forall|j: int| 0 <= j <= mid implies key_lt(
                        member_keys(self.keys@)[j],
                        member.key,
                    ) by {
                        if j < mid {
                            assert(key_lt(
                                member_keys(self.keys@)[j],
                                member_keys(self.keys@)[mid as int],
                            ));
                        }
                    }
                }
                lo = mid + 1;
            } else {
                proof {
                    assert forall|j: int| mid <= j < n implies key_le(
                        member.key,
                        member_keys(self.keys@)[j],
                    ) by {
                        if j > mid {
                            assert(key_lt(
                                member_keys(self.keys@)[mid as int],
                                member_keys(self.keys@)[j],
                            ));
                        }
                    }
                }
                hi = mid;
            }
        }
        if lo < n {
            assert(member_keys(self.keys@)[lo as int] == self.keys@[lo as int].key);
            if self.keys[lo].key.eq_key(&member.key) {
                assert(member_keys(self.keys@).contains(member.key));
                return Err(MsError::DuplicateMembers);
            }
        }
        assert(!member_keys(self.keys@).contains(member.key)) by {
            assert forall|j: int| 0 <= j < member_keys(self.keys@).len() implies member_keys(
                self.keys@,
            )[j] != member.key by {
                if j >= lo {
                    assert(key_le(member.key, member_keys(self.keys@)[lo as int]));
                    if j > lo {
                        assert(key_lt(
                            member_keys(self.keys@)[lo as int],
                            member_keys(self.keys@)[j],
                        ));
                    }
                }
            }
        }
        proof {
            olds.insert_ensures(lo as int, member);
        }
        self.keys.insert(lo, member);
        proof {
            let news = self.keys@;
            let newk = member_keys(news);
            assert forall|i: int| 0 <= i < newk.len() implies newk[i] == (if i < lo {
                oldk[i]
            } else if i == lo {
                member.key
            } else {
                oldk[i - 1]
            }) by {
                if i < lo {
                    assert(news[i] == olds[i]);
                } else if i > lo {
                    assert(news[i] == olds[i - 1]);
                }
            }
            assert forall|i: int, j: int| 0 <= i < j < newk.len() implies key_lt(
                newk[i],
                newk[j],
            ) by {
                if j < lo {
                } else if i > lo {
                } else if i < lo && j == lo {
                } else if i < lo && j > lo {
                    assert(key_le(member.key, oldk[j - 1]));
                } else if i == lo {
                    assert(key_le(member.key, oldk[j - 1]));
                    assert(oldk[j - 1] != member.key);
                }
            }
            assert(newk[lo as int] == member.key);
            assert(newk.contains(member.key));
            assert(news[lo as int] == member);
            assert(news.contains(member));
            assert(newk.to_set() =~= oldk.to_set().insert(member.key)) by {
                assert forall|a: Key| newk.to_set().contains(a) implies oldk.to_set().contains(a)
                    || a == member.key by {
                    let i = choose|i: int| 0 <= i < newk.len() && newk[i] == a;
                    if i < lo {
                        assert(oldk[i] == a);
                    } else if i > lo {
                        assert(oldk[i - 1] == a);
                    }
                }
                assert forall|a: Key| oldk.to_set().contains(a) || a == member.key implies newk
                    .to_set().contains(a) by {
                    if a == member.key {
                        assert(newk[lo as int] == a);
                    } else {
                        let i = choose|i: int| 0 <= i < oldk.len() && oldk[i] == a;
                        if i < lo {
                            assert(newk[i] == a);
                        } else {
                            assert(newk[i + 1] == a);
                        }
                    }
                }
            }
        }
        Ok(())
    }

    /// Remove a member by key; `MemberNotFound` when the key is absent.
    /// Guarding against an empty or under-threshold result is the caller's
    /// responsibility.
    pub fn remove_member(&mut self, member_pubkey: Key) -> (r: Result<(), MsError>)
        requires
            sorted_unique(member_keys(old(self).keys@)),
        ensures
            r is Ok <==> old(self).spec_is_member(member_pubkey),
            r is Err ==> r == Err::<(), MsError>(MsError::MemberNotFound) && *final(self) == *old(
                self,
            ),
            r is Ok ==> {
                &&& sorted_unique(member_keys(final(self).keys@))
                &&& final(self).keys@.len() == old(self).keys@.len() - 1
                &&& final(self).member_set() == old(self).member_set().remove(member_pubkey)
                &&& !final(self).spec_is_member(member_pubkey)
                &&& *final(self) == (Ms { keys: final(self).keys, ..*old(self) })
            },
    {
        let ghost olds = self.keys@;
        let ghost oldk = member_keys(olds);
        let idx = match self.is_member(member_pubkey) {
            Some(idx) => idx,
            None => { return Err(MsError::MemberNotFound) },
        };
        proof {
            olds.remove_ensures(idx as int);
        }
        self.keys.remove(idx);
        proof {
            let news = self.keys@;
            let newk = member_keys(news);
            assert forall|i: int| 0 <= i < newk.len() implies newk[i] == (if i < idx {
                oldk[i]
            } else {
                oldk[i + 1]
            }) by {
                if i < idx {
                    assert(news[i] == olds[i]);
                } else {
                    assert(news[i] == olds[i + 1]);
                }
            }
            assert forall|p: int, q: int| 0 <= p < q < newk.len() implies key_lt(
                newk[p],
                newk[q],
            ) by {
                if q < idx {
                } else if p >= idx {
                } else {
                    assert(key_lt(oldk[p], oldk[q + 1]));
                }
            }
            assert forall|j: int| 0 <= j < newk.len() implies newk[j] != member_pubkey by {
                if j < idx {
                    assert(key_lt(oldk[j], oldk[idx as int]));
                } else {
                    assert(key_lt(oldk[idx as int], oldk[j + 1]));
                }
            }
            assert(newk.to_set() =~= oldk.to_set().remove(member_pubkey)) by {
                assert forall|a: Key| newk.to_set().contains(a) implies oldk.to_set().contains(a)
                    && a != member_pubkey by {
                    let j = choose|j: int| 0 <= j < newk.len() && newk[j] == a;
                    if j < idx {
                        assert(oldk[j] == a);
                    } else {
                        assert(oldk[j + 1] == a);
                    }
                }
                assert forall|a: Key| oldk.to_set().contains(a) && a != member_pubkey implies newk
                    .to_set().contains(a) by {
                    let j = choose|j: int| 0 <= j < oldk.len() && oldk[j] == a;
                    if j < idx {
                        assert(newk[j] == a);
                    } else {
                        assert(j != idx);
                        assert(newk[j - 1] == a);
                    }
                }
            }
        }
        Ok(())
    }

    /// Set the threshold. Range validation against the member count is the
    /// caller's responsibility.
    pub fn change_threshold(&mut self, threshold: u16) -> (r: Result<(), MsError>)
        ensures
            r is Ok,
            *final(self) == (Ms { threshold, ..*old(self) }),
    {
        self.threshold = threshold;
        Ok(())
    }
}

} // verus!
