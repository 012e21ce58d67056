//! Sets and counts of the numbers that expressions and variables go by.
use rustc_hash::{FxHashMap, FxHashSet};
use vstd::prelude::*;

verus! {

/// The hasher builder of `rustc_hash`. Nothing is said of it but that it can
/// stand in the type of a set or a map.
#[verifier::external_type_specification]
#[verifier::external_body]
pub struct ExFxBuildHasher(rustc_hash::FxBuildHasher);

/// `FxHashSet::default`: a set without elements.
#[verifier::external_body]
pub(crate) fn new_set() -> (r: FxHashSet<u32>)
    ensures
        r@ == Set::<u32>::empty(),
{
    FxHashSet::default()
}

/// `FxHashSet::insert`: the set gains the element and nothing else, and it is
/// told whether the element is new.
#[verifier::external_body]
pub(crate) fn insert_into(set: &mut FxHashSet<u32>, id: u32) -> (r: bool)
    ensures
        final(set)@ == old(set)@.insert(id),
        r == !old(set)@.contains(id),
{
    set.insert(id)
}

/// `FxHashSet::contains`: whether the element is in the set.
#[verifier::external_body]
pub(crate) fn is_in(set: &FxHashSet<u32>, id: u32) -> (r: bool)
    ensures
        r == set@.contains(id),
{
    set.contains(&id)
}

/// `FxHashMap::default`: a map without entries.
#[verifier::external_body]
pub(crate) fn new_counts() -> (r: FxHashMap<u32, u32>)
    ensures
        forall|id: u32| !(#[trigger] r@.contains_key(id)),
{
    FxHashMap::default()
}

/// `FxHashMap::get`: the value of a key, where it has one.
#[verifier::external_body]
pub(crate) fn count_at(counts: &FxHashMap<u32, u32>, id: u32) -> (r: Option<u32>)
    ensures
        r == if counts@.contains_key(id) {
            Some(counts@[id])
        } else {
            None
        },
{
    counts.get(&id).copied()
}

/// `FxHashMap::insert`: the key has the value, and no other key changes. What
/// it had before is not handed on.
#[verifier::external_body]
pub(crate) fn set_count(counts: &mut FxHashMap<u32, u32>, id: u32, n: u32)
    ensures
        final(counts)@ == old(counts)@.insert(id, n),
{
    counts.insert(id, n);
}

/// `FxHashMap::clone`: a map with the same entries.
#[verifier::external_body]
pub(crate) fn copy_counts(counts: &FxHashMap<u32, u32>) -> (r: FxHashMap<u32, u32>)
    ensures
        r@ == counts@,
{
    counts.clone()
}

/// `FxHashMap::keys`: the keys, each of them once, in an order that is left
/// open.
#[verifier::external_body]
pub(crate) fn counted_ids(counts: &FxHashMap<u32, u32>) -> (r: Vec<u32>)
    ensures
        forall|id: u32| #[trigger] r@.contains(id) == counts@.contains_key(id),
        r@.no_duplicates(),
{
    counts.keys().copied().collect()
}

} // verus!
