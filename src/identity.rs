//! Actor identities.
use vstd::prelude::*;

verus! {

/// An opaque 32-byte actor identifier.
///
/// The identifier is held as its two big-endian 128-bit halves, so that the
/// order on `(hi, lo)` is the lexicographic order of the 32 bytes.
#[derive(Clone, Copy, Debug, PartialEq, Eq, Structural, Hash)]
pub struct Identity {
    pub hi: u128,
    pub lo: u128,
}

/// The strict total order on identities: the lexicographic order of the bytes.
pub open spec fn id_lt(a: Identity, b: Identity) -> bool {
    a.hi < b.hi || (a.hi == b.hi && a.lo < b.lo)
}

impl Identity {
    /// Builds an identity from its big-endian halves.
    pub fn new(hi: u128, lo: u128) -> (r: Identity)
        ensures
            r.hi == hi,
            r.lo == lo,
    {
        Identity { hi, lo }
    }

    /// The all-zero identity, used before a channel has an owner.
    pub fn zero() -> (r: Identity)
        ensures
            r.hi == 0,
            r.lo == 0,
    {
        Identity { hi: 0, lo: 0 }
    }

    /// Whether `self` comes strictly before `other`.
    pub fn precedes(&self, other: &Identity) -> (r: bool)
        ensures
            r == id_lt(*self, *other),
    {
        self.hi < other.hi || (self.hi == other.hi && self.lo < other.lo)
    }
}

} // verus!
