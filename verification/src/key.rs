//! 32-byte public keys, stored as two 128-bit halves so that equality and
//! ordering are plain integer comparisons. The order is the lexicographic
//! order of the big-endian byte representation.

use vstd::prelude::*;

verus! {

/// A 32-byte public key. `hi` holds the first 16 bytes (big-endian),
/// `lo` the last 16.
#[derive(Clone, Copy, PartialEq, Eq, Structural, Debug)]
pub struct Key {
    pub hi: u128,
    pub lo: u128,
}

/// Strict ordering of keys: lexicographic on (hi, lo).
pub open spec fn key_lt(a: Key, b: Key) -> bool {
    a.hi < b.hi || (a.hi == b.hi && a.lo < b.lo)
}

/// Non-strict ordering of keys.
pub open spec fn key_le(a: Key, b: Key) -> bool {
    key_lt(a, b) || a == b
}

impl Key {
    /// The all-zero key, used as the sentinel for the native asset.
    pub fn zero() -> (r: Key)
        ensures
            r == (Key { hi: 0, lo: 0 }),
    {
        Key { hi: 0, lo: 0 }
    }

    /// Strict comparison matching `key_lt`.
    pub fn lt(&self, other: &Key) -> (r: bool)
        ensures
            r == key_lt(*self, *other),
    {
        self.hi < other.hi || (self.hi == other.hi && self.lo < other.lo)
    }

    /// Equality test usable from exec code.
    pub fn eq_key(&self, other: &Key) -> (r: bool)
        ensures
            r == (*self == *other),
    {
        self.hi == other.hi && self.lo == other.lo
    }
}

} // verus!
