use core::marker::PhantomData;
use std::collections::HashMap;
use vstd::prelude::*;

use crate::strategy::DefaultStrategy;
use crate::strategy::HashStrategy;
use crate::trash::Trash;

verus! {

/// An associative container from precomputed key digests to values.
///
/// A `TrashMap` owns a hashing strategy `S` and an inner table keyed by the
/// raw 64-bit digests themselves. A key of the logical key type `K` is
/// hashed exactly once, in [`TrashMap::trash`] (which every key-taking
/// operation goes through); all later operations take the resulting
/// [`Trash`] identifier and look the entry up directly by its digest, so the
/// original key is neither stored nor re-hashed. `K` exists only to fix the
/// strategy's input type at compile time; no key value is ever kept.
///
/// The view of a `TrashMap` is the mathematical map from digests to values,
/// `Map<u64, V>`. The library assumes, without checking, that distinct keys
/// get distinct digests under the configured strategy instance; colliding
/// keys silently share one entry.
pub struct TrashMap<K: ?Sized, V, S = DefaultStrategy> {
    hasher: S,
    map: HashMap<u64, V>,
    key: PhantomData<K>,
}

impl<K: ?Sized, V, S> View for TrashMap<K, V, S> {
    type V = Map<u64, V>;

    closed spec fn view(&self) -> Map<u64, V> {
        self.map@
    }
}

impl<K: ?Sized, V, S: HashStrategy<K>> TrashMap<K, V, S> {
    /// The strategy instance this map hashes keys with.
    pub closed spec fn strategy(&self) -> S {
        self.hasher
    }

    /// The digest this map's strategy assigns to `k`.
    pub open spec fn spec_id(&self, k: &K) -> u64 {
        self.strategy().digest_spec(k)
    }

    /// Constructs an empty map with a default strategy.
    pub fn new() -> (m: Self) where S: Default
        ensures
            m@ == Map::<u64, V>::empty(),
            call_ensures(S::default, (), m.strategy()),
    {
        TrashMap { hasher: Default::default(), map: HashMap::new(), key: PhantomData }
    }

    /// Constructs an empty map with the given capacity hint and strategy.
    pub fn with_capacity_and_hasher(cap: usize, hasher: S) -> (m: Self)
        ensures
            m@ == Map::<u64, V>::empty(),
            m.strategy() == hasher,
    {
        TrashMap { hasher, map: HashMap::with_capacity(cap), key: PhantomData }
    }

    /// Computes the identifier for `k` under this map's strategy. This is
    /// the sole hashing entry point: every other operation either takes an
    /// identifier directly or calls this first.
    pub fn trash(&self, k: &K) -> (id: Trash)
        ensures
            id@ == self.spec_id(k),
    {
        Trash::from_hash(self.hasher.digest(k))
    }

    /// Inserts `v` at the identifier of `k`, discarding any value already
    /// there, and returns that identifier.
    pub fn insert(&mut self, k: &K, v: V) -> (id: Trash)
        ensures
            id@ == old(self).spec_id(k),
            final(self)@ == old(self)@.insert(id@, v),
            final(self).strategy() == old(self).strategy(),
    {
        let id = self.trash(k);
        self.map.insert(id.get_hash(), v);
        id
    }

    /// Inserts `v` directly at identifier `k`, with no hashing at all, and
    /// returns the value previously there, if any. The caller is responsible
    /// for having obtained `k` from this map's own strategy: an identifier
    /// from anywhere else silently aliases or misses.
    pub fn insert_id(&mut self, k: Trash, v: V) -> (prev: Option<V>)
        ensures
            final(self)@ == old(self)@.insert(k@, v),
            final(self).strategy() == old(self).strategy(),
            match prev {
                Some(p) => old(self)@.contains_key(k@) && p == old(self)@[k@],
                None => !old(self)@.contains_key(k@),
            },
    {
        self.map.insert(k.get_hash(), v)
    }

    /// Inserts `v` at the identifier of `k`, returning that identifier
    /// together with the value previously there, if any.
    pub fn insert_replace(&mut self, k: &K, v: V) -> (r: (Trash, Option<V>))
        ensures
            r.0@ == old(self).spec_id(k),
            final(self)@ == old(self)@.insert(r.0@, v),
            final(self).strategy() == old(self).strategy(),
            match r.1 {
                Some(p) => old(self)@.contains_key(r.0@) && p == old(self)@[r.0@],
                None => !old(self)@.contains_key(r.0@),
            },
    {
        let id = self.trash(k);
        let prev = self.map.insert(id.get_hash(), v);
        (id, prev)
    }

    /// Looks up the value at identifier `key`, if any, hashing nothing.
    pub fn get(&self, key: Trash) -> (r: Option<&V>)
        ensures
            match r {
                Some(v) => self@.contains_key(key@) && *v == self@[key@],
                None => !self@.contains_key(key@),
            },
    {
        self.map.get(&key.get_hash())
    }

    /// Looks up the value stored for key `key`, computing its identifier
    /// first.
    pub fn get_key(&self, key: &K) -> (r: Option<&V>)
        ensures
            match r {
                Some(v) => self@.contains_key(self.spec_id(key)) && *v == self@[self.spec_id(key)],
                None => !self@.contains_key(self.spec_id(key)),
            },
    {
        let id = self.trash(key);
        self.map.get(&id.get_hash())
    }

    /// Removes and returns the value at identifier `key`, if any. Removing
    /// an absent identifier returns `None` and changes nothing.
    pub fn remove(&mut self, key: Trash) -> (r: Option<V>)
        ensures
            final(self)@ == old(self)@.remove(key@),
            final(self).strategy() == old(self).strategy(),
            match r {
                Some(v) => old(self)@.contains_key(key@) && v == old(self)@[key@],
                None => !old(self)@.contains_key(key@),
            },
    {
        self.map.remove(&key.get_hash())
    }

    /// Removes and returns the value stored for key `key`, computing its
    /// identifier first.
    pub fn remove_key(&mut self, key: &K) -> (r: Option<V>)
        ensures
            final(self)@ == old(self)@.remove(old(self).spec_id(key)),
            final(self).strategy() == old(self).strategy(),
            match r {
                Some(v) => old(self)@.contains_key(old(self).spec_id(key))
                    && v == old(self)@[old(self).spec_id(key)],
                None => !old(self)@.contains_key(old(self).spec_id(key)),
            },
    {
        let id = self.trash(key);
        self.map.remove(&id.get_hash())
    }
}

impl<K: ?Sized, V, S: HashStrategy<K> + Default> Default for TrashMap<K, V, S> {
    /// Constructs an empty map with a default strategy, as [`TrashMap::new`]
    /// does.
    fn default() -> (m: Self)
        ensures
            m@ == Map::<u64, V>::empty(),
            call_ensures(S::default, (), m.strategy()),
    {
        Self::new()
    }
}

/// Keys hashing to distinct digests occupy distinct entries: after inserting
/// a value at each of two distinct identifiers, each identifier retrieves
/// exactly the value inserted at it.
pub proof fn lemma_distinct_identifiers<V>(m: Map<u64, V>, d1: u64, d2: u64, v1: V, v2: V)
    requires
        d1 != d2,
    ensures
        m.insert(d1, v1).insert(d2, v2).contains_key(d1),
        m.insert(d1, v1).insert(d2, v2).contains_key(d2),
        m.insert(d1, v1).insert(d2, v2)[d1] == v1,
        m.insert(d1, v1).insert(d2, v2)[d2] == v2,
{
}

/// Round trip: inserting a value at an identifier makes exactly that value
/// retrievable there, and removing the identifier afterwards leaves nothing
/// retrievable there.
pub proof fn lemma_map_round_trip<V>(m: Map<u64, V>, d: u64, v: V)
    ensures
        m.insert(d, v).contains_key(d),
        m.insert(d, v)[d] == v,
        !m.insert(d, v).remove(d).contains_key(d),
{
}

/// Duplicate insertion keeps only the second value: after inserting twice at
/// one identifier, only the second value is retrievable there, and the first
/// is what the second insertion finds as the previous value.
pub proof fn lemma_duplicate_insertion<V>(m: Map<u64, V>, d: u64, v1: V, v2: V)
    ensures
        m.insert(d, v1).contains_key(d),
        m.insert(d, v1)[d] == v1,
        m.insert(d, v1).insert(d, v2).contains_key(d),
        m.insert(d, v1).insert(d, v2)[d] == v2,
{
}

/// An identifier never inserted stays absent: a fresh map has no entry at
/// `d`, and neither inserting at nor removing another identifier creates
/// one.
pub proof fn lemma_map_untouched_identifier<V>(m: Map<u64, V>, d: u64, d2: u64, v: V)
    requires
        !m.contains_key(d),
        d2 != d,
    ensures
        !Map::<u64, V>::empty().contains_key(d),
        !m.insert(d2, v).contains_key(d),
        !m.remove(d2).contains_key(d),
{
}

} // verus!
