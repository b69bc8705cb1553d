use core::marker::PhantomData;
use std::collections::HashSet;
use vstd::prelude::*;

use crate::strategy::DefaultStrategy;
use crate::strategy::HashStrategy;
use crate::trash::Trash;

verus! {

/// A membership-only container of precomputed key digests.
///
/// A `TrashSet` is the membership counterpart of [`crate::TrashMap`]: it
/// owns a hashing strategy `S` and an inner table holding the raw 64-bit
/// digests themselves. A key of the logical key type `K` is hashed exactly
/// once, in [`TrashSet::trash`] (which every key-taking operation goes
/// through); all later operations take the resulting [`Trash`] identifier
/// and test or change membership directly by its digest. `K` exists only to
/// fix the strategy's input type at compile time; no key value is ever kept.
///
/// The view of a `TrashSet` is the mathematical set of digests, `Set<u64>`.
/// The [`TrashSet::insert_check`] / [`TrashSet::remove`] pair is the
/// designed idiom for cycle detection in a recursive walk: check-and-insert
/// before descending, remove the same identifier after returning, with no
/// second hash computation.
pub struct TrashSet<K: ?Sized, S = DefaultStrategy> {
    hasher: S,
    set: HashSet<u64>,
    key: PhantomData<K>,
}

impl<K: ?Sized, S> View for TrashSet<K, S> {
    type V = Set<u64>;

    closed spec fn view(&self) -> Set<u64> {
        self.set@
    }
}

impl<K: ?Sized, S: HashStrategy<K>> TrashSet<K, S> {
    /// The strategy instance this set hashes keys with.
    pub closed spec fn strategy(&self) -> S {
        self.hasher
    }

    /// The digest this set's strategy assigns to `k`.
    pub open spec fn spec_id(&self, k: &K) -> u64 {
        self.strategy().digest_spec(k)
    }

    /// Constructs an empty set with a default strategy.
    pub fn new() -> (s: Self) where S: Default
        ensures
            s@ == Set::<u64>::empty(),
            call_ensures(S::default, (), s.strategy()),
    {
        TrashSet { hasher: Default::default(), set: HashSet::new(), key: PhantomData }
    }

    /// Constructs an empty set with the given capacity hint and strategy.
    pub fn with_capacity_and_hasher(cap: usize, hasher: S) -> (s: Self)
        ensures
            s@ == Set::<u64>::empty(),
            s.strategy() == hasher,
    {
        TrashSet { hasher, set: HashSet::with_capacity(cap), key: PhantomData }
    }

    /// Computes the identifier for `k` under this set's strategy. This is
    /// the sole hashing entry point: every other operation either takes an
    /// identifier directly or calls this first.
    pub fn trash(&self, k: &K) -> (id: Trash)
        ensures
            id@ == self.spec_id(k),
    {
        Trash::from_hash(self.hasher.digest(k))
    }

    /// Inserts the identifier of `key` and returns it.
    pub fn insert(&mut self, key: &K) -> (id: Trash)
        ensures
            id@ == old(self).spec_id(key),
            final(self)@ == old(self)@.insert(id@),
            final(self).strategy() == old(self).strategy(),
    {
        let id = self.trash(key);
        self.set.insert(id.get_hash());
        id
    }

    /// Inserts the identifier of `key`, returning it together with whether
    /// the entry was newly inserted: `true` if it was previously absent,
    /// `false` if it was already present.
    pub fn insert_check(&mut self, key: &K) -> (r: (Trash, bool))
        ensures
            r.0@ == old(self).spec_id(key),
            r.1 == !old(self)@.contains(r.0@),
            final(self)@ == old(self)@.insert(r.0@),
            final(self).strategy() == old(self).strategy(),
    {
        let id = self.trash(key);
        let fresh = self.set.insert(id.get_hash());
        (id, fresh)
    }

    /// Inserts identifier `key` directly, with no hashing at all, returning
    /// whether it was previously absent. The caller is responsible for
    /// having obtained `key` from this set's own strategy: an identifier
    /// from anywhere else silently aliases or misses.
    pub fn insert_id(&mut self, key: Trash) -> (fresh: bool)
        ensures
            fresh == !old(self)@.contains(key@),
            final(self)@ == old(self)@.insert(key@),
            final(self).strategy() == old(self).strategy(),
    {
        self.set.insert(key.get_hash())
    }

    /// Returns whether identifier `key` is present, hashing nothing.
    pub fn contains(&self, key: Trash) -> (present: bool)
        ensures
            present == self@.contains(key@),
    {
        self.set.contains(&key.get_hash())
    }

    /// Returns whether the identifier of `key` is present, computing that
    /// identifier first.
    pub fn contains_key(&self, key: &K) -> (present: bool)
        ensures
            present == self@.contains(self.spec_id(key)),
    {
        let id = self.trash(key);
        self.set.contains(&id.get_hash())
    }

    /// Removes identifier `key`, returning whether it was present. Removing
    /// an absent identifier returns `false` and changes nothing.
    pub fn remove(&mut self, key: Trash) -> (removed: bool)
        ensures
            removed == old(self)@.contains(key@),
            final(self)@ == old(self)@.remove(key@),
            final(self).strategy() == old(self).strategy(),
    {
        self.set.remove(&key.get_hash())
    }

    /// Removes the identifier of `key`, computing it first, and returns
    /// whether it was present.
    pub fn remove_key(&mut self, key: &K) -> (removed: bool)
        ensures
            removed == old(self)@.contains(old(self).spec_id(key)),
            final(self)@ == old(self)@.remove(old(self).spec_id(key)),
            final(self).strategy() == old(self).strategy(),
    {
        let id = self.trash(key);
        self.set.remove(&id.get_hash())
    }
}

impl<K: ?Sized, S: HashStrategy<K> + Default> Default for TrashSet<K, S> {
    /// Constructs an empty set with a default strategy, as [`TrashSet::new`]
    /// does.
    fn default() -> (s: Self)
        ensures
            s@ == Set::<u64>::empty(),
            call_ensures(S::default, (), s.strategy()),
    {
        Self::new()
    }
}

/// The check-and-insert idiom detects exactly the identifiers currently on
/// the path: on a never-seen identifier the insertion finds it absent (so
/// `insert_check` reports newly inserted), a second check before removal
/// finds it present, and after removal it is absent again.
pub proof fn lemma_insert_check_cycle(s: Set<u64>, d: u64)
    requires
        !s.contains(d),
    ensures
        s.insert(d).contains(d),
        !s.insert(d).remove(d).contains(d),
{
}

/// Removing an absent identifier is a no-op: the set is unchanged (and
/// `remove` reports that nothing was removed).
pub proof fn lemma_absent_removal(s: Set<u64>, d: u64)
    requires
        !s.contains(d),
    ensures
        s.remove(d) == s,
{
    assert(s.remove(d) =~= s);
}

/// An identifier never inserted stays absent: a fresh set does not contain
/// `d`, and neither inserting nor removing another identifier makes it
/// appear.
pub proof fn lemma_set_untouched_identifier(s: Set<u64>, d: u64, d2: u64)
    requires
        !s.contains(d),
        d2 != d,
    ensures
        !Set::<u64>::empty().contains(d),
        !s.insert(d2).contains(d),
        !s.remove(d2).contains(d),
{
}

} // verus!
