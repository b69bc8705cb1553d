use vstd::prelude::*;

verus! {

/// An opaque, copyable identifier wrapping the precomputed 64-bit digest of
/// a key.
///
/// A `Trash` value carries no reference to the key it was computed from: it
/// is a pure value type, cheap to copy and to compare. Two identifiers are
/// equal exactly when their underlying digests are equal. The library
/// assumes, without checking, that equal identifiers came from equal keys;
/// see the crate documentation for this accepted collision risk.
#[derive(Copy, Clone, Debug, Hash, PartialEq, Eq, Structural)]
pub struct Trash(u64);

impl View for Trash {
    type V = u64;

    closed spec fn view(&self) -> u64 {
        self.0
    }
}

impl Trash {
    /// Returns the raw 64-bit digest this identifier wraps.
    pub fn get_hash(&self) -> (h: u64)
        ensures
            h == self@,
    {
        self.0
    }

    /// Wraps an already-computed digest as an identifier.
    pub(crate) fn from_hash(h: u64) -> (t: Trash)
        ensures
            t@ == h,
    {
        Trash(h)
    }
}

/// Two identifiers are equal exactly when their underlying 64-bit digests
/// are equal.
pub proof fn lemma_trash_equality(a: Trash, b: Trash)
    ensures
        (a == b) <==> (a@ == b@),
{
}

} // verus!
