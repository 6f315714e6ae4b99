//! Core of a zero-copy binary archive format.
//!
//! A buffer produced by this library encodes a value graph so that the bytes
//! can be interpreted in place: pointer fields are stored as byte offsets
//! relative to their own position, so the whole buffer can be relocated
//! without fix-up. The crate provides the relative-pointer primitive and its
//! owning-box wrapper ([`boxed`]), the composable write-time context
//! ([`ser`]), the bounds-checked validation engine that proves an untrusted
//! buffer safe to read ([`validation`]), and the safe access entry points
//! ([`util`]). [`typename`] builds stable textual names for types, used to
//! key registries of dynamically dispatched values.

pub mod boxed;
pub mod rel_ptr;
pub mod ser;
pub mod typename;
pub mod util;
pub mod validation;

use vstd::prelude::*;

verus! {

/// The failures the archive core can report.
///
/// Every fallible operation fails fast with one of these kinds; no partial
/// result is ever produced, and untrusted input never causes a panic.
#[derive(Clone, Copy, Debug, PartialEq, Eq, Structural)]
pub enum Error {
    /// The computed size of an unsized pointee overflows the addressable range.
    LayoutOverflow,
    /// A serialization-time relative offset exceeds the representable range.
    OffsetOutOfRange,
    /// A validation-time pointer falls outside the active subtree range.
    PointerOutOfBounds,
    /// A subtree range or scratch allocation was released out of order.
    OutOfOrderPop,
    /// The same address was registered under two different type identities.
    SharedTypeConflict,
    /// The backing storage of a writer or allocator is exhausted.
    CapacityExhausted,
}

/// A size and alignment pair: the byte layout of a pointee.
#[derive(Clone, Copy, Debug, PartialEq, Eq, Structural)]
pub struct Layout {
    /// The pointee's size in bytes.
    pub size: usize,
    /// The pointee's required alignment in bytes.
    pub align: usize,
}

/// The map described by an association list: later entries override earlier
/// ones with the same key.
pub open spec fn assoc_map<V>(entries: Seq<(usize, V)>) -> Map<usize, V>
    decreases entries.len(),
{
    if entries.len() == 0 {
        Map::empty()
    } else {
        assoc_map(entries.drop_last()).insert(entries.last().0, entries.last().1)
    }
}

pub proof fn lemma_assoc_map_absent<V>(entries: Seq<(usize, V)>, key: usize)
    requires
        forall|i: int| 0 <= i < entries.len() ==> (#[trigger] entries[i]).0 != key,
    ensures
        !assoc_map(entries).contains_key(key),
    decreases entries.len(),
{
    if entries.len() > 0 {
        lemma_assoc_map_absent(entries.drop_last(), key);
    }
}

/// If position `i` holds the last entry with key `key`, the association map
/// sends `key` to that entry's value.
pub proof fn lemma_assoc_map_last_match<V>(entries: Seq<(usize, V)>, key: usize, i: int)
    requires
        0 <= i < entries.len(),
        entries[i].0 == key,
        forall|j: int| i < j < entries.len() ==> (#[trigger] entries[j]).0 != key,
    ensures
        assoc_map(entries).contains_key(key),
        assoc_map(entries)[key] == entries[i].1,
    decreases entries.len(),
{
    if i == entries.len() - 1 {
    } else {
        lemma_assoc_map_last_match(entries.drop_last(), key, i);
    }
}

} // verus!
