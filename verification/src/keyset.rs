//! Sorted, duplicate-free vectors of keys: the representation of every
//! member and vote set. Sorting gives deterministic storage layout and
//! binary-search membership tests; uniqueness makes a vector's length
//! equal to the size of the set it represents.

use vstd::prelude::*;
use crate::key::{Key, key_lt, key_le};

verus! {

/// A sequence of keys is strictly increasing, hence duplicate-free.
pub open spec fn sorted_unique(s: Seq<Key>) -> bool {
    forall|i: int, j: int| 0 <= i < j < s.len() ==> key_lt(s[i], s[j])
}

/// Index of the first key that is not below `k`: everything before it is
/// strictly below `k`, everything from it on is at or above `k`.
pub fn lower_bound(v: &Vec<Key>, k: &Key) -> (pos: usize)
    requires
        sorted_unique(v@),
    ensures
        pos <= v@.len(),
        forall|j: int| 0 <= j < pos ==> key_lt(v@[j], *k),
        forall|j: int| pos <= j < v@.len() ==> key_le(*k, v@[j]),
{
    let mut lo: usize = 0;
    let mut hi: usize = v.len();
    while lo < hi
        invariant
            lo <= hi <= v@.len(),
            sorted_unique(v@),
            forall|j: int| 0 <= j < lo ==> key_lt(v@[j], *k),
            forall|j: int| hi <= j < v@.len() ==> key_le(*k, v@[j]),
        decreases hi - lo,
    {
        let mid = lo + (hi - lo) / 2;
        if v[mid].lt(k) {
            proof {
                assert forall|j: int| 0 <= j <= mid implies key_lt(v@[j], *k) by {
                    if j < mid {
                        assert(key_lt(v@[j], v@[mid as int]));
                    }
                }
            }
            lo = mid + 1;
        } else {
            proof {
                assert forall|j: int| mid <= j < v@.len() implies key_le(*k, v@[j]) by {
                    if j > mid {
                        assert(key_lt(v@[mid as int], v@[j]));
                    }
                }
            }
            hi = mid;
        }
    }
    lo
}

/// Binary search: the position of `k`, or `None` when it is absent.
pub fn find_key(v: &Vec<Key>, k: &Key) -> (r: Option<usize>)
    requires
        sorted_unique(v@),
    ensures
        r is Some <==> v@.contains(*k),
        r is Some ==> r->Some_0 < v@.len() && v@[r->Some_0 as int] == *k,
{
    let pos = lower_bound(v, k);
    if pos < v.len() && v[pos].eq_key(k) {
        assert(v@.contains(*k));
        Some(pos)
    } else {
        assert(!v@.contains(*k)) by {
            assert forall|j: int| 0 <= j < v@.len() implies v@[j] != *k by {
                if j >= pos {
                    assert(key_le(*k, v@[pos as int]));
                    if j > pos {
                        assert(key_lt(v@[pos as int], v@[j]));
                    }
                }
            }
        }
        None
    }
}

/// Insert a key that is not yet present, keeping the vector sorted.
pub fn insert_key(v: &mut Vec<Key>, k: Key)
    requires
        sorted_unique(old(v)@),
        !old(v)@.contains(k),
    ensures
        sorted_unique(final(v)@),
        final(v)@.len() == old(v)@.len() + 1,
        final(v)@.to_set() == old(v)@.to_set().insert(k),
        final(v)@.contains(k),
{
    let pos = lower_bound(v, &k);
    let ghost olds = v@;
    proof {
        olds.insert_ensures(pos as int, k);
    }
    v.insert(pos, k);
    proof {
        assert forall|i: int, j: int| 0 <= i < j < v@.len() implies key_lt(v@[i], v@[j]) by {
            if j < pos {
                assert(v@[i] == olds[i] && v@[j] == olds[j]);
            } else if i > pos {
                assert(v@[i] == olds[i - 1] && v@[j] == olds[j - 1]);
            } else if i < pos && j == pos {
                assert(v@[i] == olds[i] && v@[j] == k);
            } else if i < pos && j > pos {
                assert(v@[i] == olds[i] && v@[j] == olds[j - 1]);
                assert(key_le(k, olds[j - 1]));
            } else if i == pos {
                assert(v@[i] == k && v@[j] == olds[j - 1]);
                assert(key_le(k, olds[j - 1]));
                assert(olds[j - 1] != k);
            }
        }
        assert(v@[pos as int] == k);
        assert(v@.contains(k));
        assert(v@.to_set() =~= olds.to_set().insert(k)) by {
            assert forall|a: Key| v@.to_set().contains(a) implies olds.to_set().contains(a) || a
                == k by {
                let i = choose|i: int| 0 <= i < v@.len() && v@[i] == a;
                if i < pos {
                    assert(olds[i] == a);
                } else if i > pos {
                    assert(olds[i - 1] == a);
                }
            }
            assert forall|a: Key| olds.to_set().contains(a) || a == k implies v@.to_set().contains(
                a,
            ) by {
                if a == k {
                    assert(v@[pos as int] == a);
                } else {
                    let i = choose|i: int| 0 <= i < olds.len() && olds[i] == a;
                    if i < pos {
                        assert(v@[i] == a);
                    } else {
                        assert(v@[i + 1] == a);
                    }
                }
            }
        }
    }
}

/// Remove the key at position `i`, keeping the vector sorted.
pub fn remove_at(v: &mut Vec<Key>, i: usize) -> (x: Key)
    requires
        sorted_unique(old(v)@),
        i < old(v)@.len(),
    ensures
        x == old(v)@[i as int],
        sorted_unique(final(v)@),
        final(v)@.len() == old(v)@.len() - 1,
        final(v)@.to_set() == old(v)@.to_set().remove(old(v)@[i as int]),
        !final(v)@.contains(old(v)@[i as int]),
{
    let ghost olds = v@;
    proof {
        olds.remove_ensures(i as int);
    }
    let x = v.remove(i);
    proof {
        assert forall|p: int, q: int| 0 <= p < q < v@.len() implies key_lt(v@[p], v@[q]) by {
            if q < i {
                assert(v@[p] == olds[p] && v@[q] == olds[q]);
            } else if p >= i {
                assert(v@[p] == olds[p + 1] && v@[q] == olds[q + 1]);
            } else {
                assert(v@[p] == olds[p] && v@[q] == olds[q + 1]);
            }
        }
        assert forall|j: int| 0 <= j < v@.len() implies v@[j] != olds[i as int] by {
            if j < i {
                assert(v@[j] == olds[j]);
                assert(key_lt(olds[j], olds[i as int]));
            } else {
                assert(v@[j] == olds[j + 1]);
                assert(key_lt(olds[i as int], olds[j + 1]));
            }
        }
        assert(v@.to_set() =~= olds.to_set().remove(olds[i as int])) by {
            assert forall|a: Key| v@.to_set().contains(a) implies olds.to_set().contains(a) && a
                != olds[i as int] by {
                let j = choose|j: int| 0 <= j < v@.len() && v@[j] == a;
                if j < i {
                    assert(olds[j] == a);
                } else {
                    assert(olds[j + 1] == a);
                }
            }
            assert forall|a: Key| olds.to_set().contains(a) && a != olds[i as int] implies v@
                .to_set().contains(a) by {
                let j = choose|j: int| 0 <= j < olds.len() && olds[j] == a;
                if j < i {
                    assert(v@[j] == a);
                } else {
                    assert(j != i);
                    assert(v@[j - 1] == a);
                }
            }
        }
    }
    x
}

/// Two sorted duplicate-free vectors holding the same set of keys are the
/// same sequence: the representation is canonical.
pub proof fn lemma_sorted_unique_canonical(s1: Seq<Key>, s2: Seq<Key>)
    requires
        sorted_unique(s1),
        sorted_unique(s2),
        s1.to_set() == s2.to_set(),
    ensures
        s1 == s2,
    decreases s1.len(),
{
    if s1.len() == 0 {
        if s2.len() > 0 {
            assert(s2.contains(s2[0]));
            assert(s1.to_set().contains(s2[0]));
        }
        assert(s1 =~= s2);
    } else if s2.len() == 0 {
        assert(s1.contains(s1[0]));
        assert(s2.to_set().contains(s1[0]));
        assert(s1 =~= s2);
    } else {
        assert(s1.contains(s1[0]));
        assert(s2.to_set().contains(s1[0]));
        let j1 = choose|j: int| 0 <= j < s2.len() && s2[j] == s1[0];
        assert(key_le(s2[0], s1[0])) by {
            if j1 > 0 {
                assert(key_lt(s2[0], s2[j1]));
            }
        }
        assert(s2.contains(s2[0]));
        assert(s1.to_set().contains(s2[0]));
        let j2 = choose|j: int| 0 <= j < s1.len() && s1[j] == s2[0];
        assert(key_le(s1[0], s2[0])) by {
            if j2 > 0 {
                assert(key_lt(s1[0], s1[j2]));
            }
        }
        assert(s1[0] == s2[0]);
        let t1 = s1.drop_first();
        let t2 = s2.drop_first();
        assert forall|i: int, j: int| 0 <= i < j < t1.len() implies key_lt(t1[i], t1[j]) by {
            assert(t1[i] == s1[i + 1] && t1[j] == s1[j + 1]);
        }
        assert forall|i: int, j: int| 0 <= i < j < t2.len() implies key_lt(t2[i], t2[j]) by {
            assert(t2[i] == s2[i + 1] && t2[j] == s2[j + 1]);
        }
        lemma_drop_first_set(s1);
        lemma_drop_first_set(s2);
        assert(t1.to_set() =~= t2.to_set());
        lemma_sorted_unique_canonical(t1, t2);
        assert(t1.len() == s1.len() - 1);
        assert(t2.len() == s2.len() - 1);
        assert(s1.len() == s2.len());
        assert forall|i: int| 0 <= i < s1.len() implies s1[i] == s2[i] by {
            if i > 0 {
                assert(t1[i - 1] == s1[i]);
                assert(t2[i - 1] == s2[i]);
            }
        }
        assert(s1 =~= s2);
    }
}

/// Dropping the first element of a sorted duplicate-free vector removes
/// exactly that key from the set it represents.
proof fn lemma_drop_first_set(s: Seq<Key>)
    requires
        sorted_unique(s),
        s.len() > 0,
    ensures
        s.drop_first().to_set() == s.to_set().remove(s[0]),
{
    let t = s.drop_first();
    assert(t.to_set() =~= s.to_set().remove(s[0])) by {
        assert forall|a: Key| t.to_set().contains(a) implies s.to_set().contains(a) && a
            != s[0] by {
            let i = choose|i: int| 0 <= i < t.len() && t[i] == a;
            assert(s[i + 1] == a);
            assert(key_lt(s[0], s[i + 1]));
        }
        assert forall|a: Key| s.to_set().contains(a) && a != s[0] implies t.to_set().contains(
            a,
        ) by {
            let i = choose|i: int| 0 <= i < s.len() && s[i] == a;
            assert(i != 0);
            assert(t[i - 1] == a);
        }
    }
}

} // verus!
