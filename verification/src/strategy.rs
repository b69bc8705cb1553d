use std::collections::hash_map::DefaultHasher;
use std::hash::Hasher;
use vstd::bytes::spec_u64_to_le_bytes;
use vstd::bytes::u64_to_le_bytes;
use vstd::prelude::*;
use vstd::std_specs::hash::DefaultHasherAdditionalSpecFns;
use vstd::string::StringSliceAdditionalSpecFns;
use vstd::utf8::encode_utf8;

verus! {

/// A pluggable hashing strategy: the algorithm that turns a key into its
/// 64-bit digest.
///
/// `digest_spec` pins the digest down as a mathematical function of the
/// strategy instance and the key alone, so a fixed instance maps equal keys
/// to bit-identical digests on every call. Different instances may disagree
/// (for example when seeded differently): an identifier is only meaningful
/// for the strategy instance that produced it.
pub trait HashStrategy<K: ?Sized> {
    /// The digest of `k` under this strategy instance.
    spec fn digest_spec(&self, k: &K) -> u64;

    /// Computes the digest of `k`.
    fn digest(&self, k: &K) -> (d: u64)
        ensures
            d == self.digest_spec(k),
    ;
}

/// The default hashing strategy: a general-purpose keyed hash.
///
/// The digest of a key is the standard library's `DefaultHasher` digest of
/// the strategy's seed followed by the key's bytes. Instances with equal
/// seeds give equal digests for equal keys; `new` and `default` always seed
/// with zero, `with_seed` picks the seed.
#[derive(Clone, Copy, Debug)]
pub struct DefaultStrategy {
    seed: u64,
}

impl DefaultStrategy {
    /// The seed this strategy mixes into every digest.
    pub closed spec fn spec_seed(&self) -> u64 {
        self.seed
    }

    /// Constructs the zero-seeded default strategy.
    pub fn new() -> (s: Self)
        ensures
            s.spec_seed() == 0,
    {
        DefaultStrategy { seed: 0 }
    }

    /// Constructs a strategy with an explicit seed.
    pub fn with_seed(seed: u64) -> (s: Self)
        ensures
            s.spec_seed() == seed,
    {
        DefaultStrategy { seed }
    }
}

impl Default for DefaultStrategy {
    fn default() -> (s: Self)
        ensures
            s.spec_seed() == 0,
    {
        DefaultStrategy { seed: 0 }
    }
}

impl HashStrategy<str> for DefaultStrategy {
    open spec fn digest_spec(&self, k: &str) -> u64 {
        DefaultHasher::spec_finish(
            seq![spec_u64_to_le_bytes(self.spec_seed()), k.spec_bytes()],
        )
    }

    fn digest(&self, k: &str) -> u64 {
        let mut h = DefaultHasher::new();
        let seed_bytes = u64_to_le_bytes(self.seed);
        h.write(seed_bytes.as_slice());
        h.write(k.as_bytes());
        proof {
            assert(h@ =~= seq![spec_u64_to_le_bytes(self.seed), k.spec_bytes()]);
        }
        h.finish()
    }
}

impl HashStrategy<String> for DefaultStrategy {
    open spec fn digest_spec(&self, k: &String) -> u64 {
        DefaultHasher::spec_finish(
            seq![spec_u64_to_le_bytes(self.spec_seed()), encode_utf8(k@)],
        )
    }

    fn digest(&self, k: &String) -> u64 {
        let mut h = DefaultHasher::new();
        let seed_bytes = u64_to_le_bytes(self.seed);
        h.write(seed_bytes.as_slice());
        h.write(k.as_str().as_bytes());
        proof {
            assert(h@ =~= seq![spec_u64_to_le_bytes(self.seed), encode_utf8(k@)]);
        }
        h.finish()
    }
}

/// Under one `DefaultStrategy` instance, an owned `String` key and a
/// borrowed `str` key with the same characters get the same digest, so the
/// two key forms address the same entry.
pub proof fn lemma_owned_borrowed_agree(s: &DefaultStrategy, owned: &String, borrowed: &str)
    requires
        owned@ == borrowed@,
    ensures
        HashStrategy::<String>::digest_spec(s, owned) == HashStrategy::<str>::digest_spec(
            s,
            borrowed,
        ),
{
}

impl HashStrategy<[u8]> for DefaultStrategy {
    open spec fn digest_spec(&self, k: &[u8]) -> u64 {
        DefaultHasher::spec_finish(seq![spec_u64_to_le_bytes(self.spec_seed()), k@])
    }

    fn digest(&self, k: &[u8]) -> u64 {
        let mut h = DefaultHasher::new();
        let seed_bytes = u64_to_le_bytes(self.seed);
        h.write(seed_bytes.as_slice());
        h.write(k);
        proof {
            assert(h@ =~= seq![spec_u64_to_le_bytes(self.seed), k@]);
        }
        h.finish()
    }
}

impl HashStrategy<u64> for DefaultStrategy {
    open spec fn digest_spec(&self, k: &u64) -> u64 {
        DefaultHasher::spec_finish(
            seq![spec_u64_to_le_bytes(self.spec_seed()), spec_u64_to_le_bytes(*k)],
        )
    }

    fn digest(&self, k: &u64) -> u64 {
        let mut h = DefaultHasher::new();
        let seed_bytes = u64_to_le_bytes(self.seed);
        h.write(seed_bytes.as_slice());
        let key_bytes = u64_to_le_bytes(*k);
        h.write(key_bytes.as_slice());
        proof {
            assert(h@ =~= seq![spec_u64_to_le_bytes(self.seed), spec_u64_to_le_bytes(*k)]);
        }
        h.finish()
    }
}

} // verus!
