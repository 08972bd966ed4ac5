//! Trusted boundary around `slab::Slab`, the sparse table that holds one
//! pending wake token per registered waiter.
//!
//! The table is modelled by [`slab_model`], the map from occupied slot index
//! to the token stored there. Every contract in this module states what the
//! slab crate's source shows of the corresponding method.

use vstd::prelude::*;

use slab::Slab;

verus! {

#[verifier::external_type_specification]
#[verifier::external_body]
#[verifier::reject_recursive_types(T)]
pub struct ExSlab<T>(Slab<T>);

/// The contents of a slot table: the map from each occupied slot index to
/// the token stored in that slot.
pub uninterp spec fn slab_model(s: Slab<u64>) -> Map<int, u64>;

/// An upper bound on how many slots the table is asked to hold at once.
/// Far below what any machine can reach, it keeps every insertion below the
/// allocation sizes at which the slab's backing vector could fail to grow.
pub const MAX_SLOTS: usize = usize::MAX / 256;

/// A slot table with nothing registered.
pub open spec fn empty_table() -> Map<int, u64> {
    Map::empty()
}

/// `ks` lists every occupied slot of `m` exactly once, and `r` holds the
/// stored tokens in that order.
pub open spec fn enumerated_by(r: Seq<u64>, m: Map<int, u64>, ks: Seq<int>) -> bool {
    &&& ks.no_duplicates()
    &&& ks.len() == r.len()
    &&& (forall|i: int|
        0 <= i < ks.len() ==> m.dom().contains(#[trigger] ks[i]) && r[i] == m[ks[i]])
    &&& (forall|k: int| #[trigger] m.dom().contains(k) ==> ks.contains(k))
}

/// `r` hands out the tokens of `m`, one per occupied slot, each slot's token
/// exactly once, in no particular order.
pub open spec fn enumerates(r: Seq<u64>, m: Map<int, u64>) -> bool {
    exists|ks: Seq<int>| enumerated_by(r, m, ks)
}

/// Relies on `Slab::new`: an empty table.
#[verifier::external_body]
pub(crate) fn slab_new() -> (s: Slab<u64>)
    ensures
        slab_model(s) == empty_table(),
{
    Slab::new()
}

/// Relies on `Slab::with_capacity`: an empty table with room reserved for
/// `n` values.
#[verifier::external_body]
pub(crate) fn slab_with_capacity(n: usize) -> (s: Slab<u64>)
    ensures
        slab_model(s) == empty_table(),
{
    Slab::with_capacity(n)
}

/// Relies on `Slab::insert`: the value is stored at a vacant key, which is
/// returned. The bound on the occupied count keeps the backing vector's
/// growth below the sizes at which `insert` could fail.
#[verifier::external_body]
pub(crate) fn slab_insert(s: &mut Slab<u64>, v: u64) -> (key: usize)
    requires
        slab_model(*old(s)).dom().len() < MAX_SLOTS as nat,
    ensures
        !slab_model(*old(s)).dom().contains(key as int),
        slab_model(*final(s)) == slab_model(*old(s)).insert(key as int, v),
{
    s.insert(v)
}

/// Relies on `Slab::index_mut`: the value at an occupied key is replaced in
/// place. Vacant keys are left out, since the slab refuses them.
#[verifier::external_body]
pub(crate) fn slab_overwrite(s: &mut Slab<u64>, key: usize, v: u64)
    requires
        slab_model(*old(s)).dom().contains(key as int),
    ensures
        slab_model(*final(s)) == slab_model(*old(s)).insert(key as int, v),
{
    s[key] = v;
}

/// Relies on `Slab::remove`: the value at an occupied key is taken out and
/// returned. Vacant keys are left out, since the slab refuses them.
#[verifier::external_body]
pub(crate) fn slab_remove(s: &mut Slab<u64>, key: usize) -> (v: u64)
    requires
        slab_model(*old(s)).dom().contains(key as int),
    ensures
        v == slab_model(*old(s))[key as int],
        slab_model(*final(s)) == slab_model(*old(s)).remove(key as int),
{
    s.remove(key)
}

/// Relies on `Slab::drain`: every stored value is removed and handed out,
/// each occupied slot's value exactly once, leaving the table empty.
#[verifier::external_body]
pub(crate) fn slab_drain(s: &mut Slab<u64>) -> (drained: Vec<u64>)
    ensures
        slab_model(*final(s)) == empty_table(),
        drained@.len() == slab_model(*old(s)).dom().len(),
        enumerates(drained@, slab_model(*old(s))),
{
    s.drain().collect()
}

/// Relies on `Slab::len`: the number of stored values, one per occupied slot.
#[verifier::external_body]
pub(crate) fn slab_len(s: &Slab<u64>) -> (n: usize)
    ensures
        n as nat == slab_model(*s).dom().len(),
{
    s.len()
}

/// Relies on `Slab::capacity`: how many values the table can hold without
/// reallocating, never fewer than it currently holds.
#[verifier::external_body]
pub(crate) fn slab_capacity(s: &Slab<u64>) -> (n: usize)
    ensures
        n as nat >= slab_model(*s).dom().len(),
{
    s.capacity()
}

} // verus!
