//! Containers addressed by precomputed key digests.
//!
//! [`TrashMap`] and [`TrashSet`] let a caller hash a key once, keep the
//! resulting 64-bit identifier ([`Trash`]), and perform every later lookup,
//! insertion and removal through that identifier, without re-hashing the
//! original key and without holding a borrow of it. This pays off when keys
//! are expensive to hash (long strings, composite values) or when a key
//! cannot stay borrowed across a call sequence, such as a recursive graph
//! walk that mutates the container as it goes.
//!
//! Identifiers are produced by a pluggable [`HashStrategy`]; the default,
//! [`DefaultStrategy`], is a general-purpose keyed hash. An identifier is
//! only meaningful for the strategy instance that produced it: use one
//! strategy instance consistently per container instance.
//!
//! The library assumes, and does not check, that distinct keys produce
//! distinct 64-bit digests under the configured strategy. A collision
//! silently aliases the colliding keys; this is a documented, accepted
//! trade-off for skipping key storage and re-hashing, not a detectable
//! error.

mod map;
mod set;
mod strategy;
mod trash;

pub use map::lemma_distinct_identifiers;
pub use map::lemma_duplicate_insertion;
pub use map::lemma_map_round_trip;
pub use map::lemma_map_untouched_identifier;
pub use map::TrashMap;
pub use set::lemma_absent_removal;
pub use set::lemma_insert_check_cycle;
pub use set::lemma_set_untouched_identifier;
pub use set::TrashSet;
pub use strategy::lemma_owned_borrowed_agree;
pub use strategy::DefaultStrategy;
pub use strategy::HashStrategy;
pub use trash::lemma_trash_equality;
pub use trash::Trash;
