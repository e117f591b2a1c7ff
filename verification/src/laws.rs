//! Laws every registry variant obeys. Each variant's view is a
//! `Map<Address, V>` and its `insert` is an upsert keyed by the stored
//! value's own address, so the laws are stated once, over that model.

use vstd::prelude::*;
use crate::Address;

verus! {

/// A value inserted under an address is what a lookup at that same address
/// then finds.
pub proof fn lemma_upsert_then_lookup<V>(m: Map<Address, V>, a: Address, v: V)
    ensures
        m.insert(a, v).contains_key(a),
        m.insert(a, v)[a] == v,
{
}

/// The empty registry holds no address at all.
pub proof fn lemma_empty_holds_nothing<V>(a: Address)
    ensures
        !Map::<Address, V>::empty().contains_key(a),
{
}

/// An address distinct from the inserted one is found after the upsert
/// exactly when it was found before, with the same value.
pub proof fn lemma_upsert_keeps_others<V>(m: Map<Address, V>, a: Address, v: V, b: Address)
    requires
        b != a,
    ensures
        m.insert(a, v).contains_key(b) == m.contains_key(b),
        m.contains_key(b) ==> m.insert(a, v)[b] == m[b],
{
}

/// Re-inserting at an occupied address silently replaces the entry: after
/// storing `x` and then `y` under one address, lookup yields `y`, not `x`.
pub proof fn lemma_reinsert_replaces<V>(m: Map<Address, V>, a: Address, x: V, y: V)
    ensures
        m.insert(a, x).insert(a, y).contains_key(a),
        m.insert(a, x).insert(a, y)[a] == y,
{
}

} // verus!
