//! The binding-identity tables, held in hash maps with `rustc_hash`'s
//! deterministic hasher.
//!
//! The maps are `std::collections::HashMap` with `FxBuildHasher` in the
//! hasher position, exactly the `FxHashMap` shape.  vstd gives such a map
//! its `Map` view for any hasher, but ties the method contracts to hashers
//! it has axiomatized, so the three operations the extractor needs are
//! trusted wrappers whose contracts state, over the view, what a correct
//! map does.

use vstd::prelude::*;
use std::collections::HashMap;
use rustc_hash::FxBuildHasher;
use rustc_hash::FxHashMap;

verus! {

#[verifier::external_type_specification]
#[verifier::external_body]
pub struct ExFxBuildHasher(FxBuildHasher);

/// Relies on `FxHashMap::default` (std's `HashMap::default` with
/// `rustc_hash`'s `FxBuildHasher`): it returns a map with no entries.
#[verifier::external_body]
pub(crate) fn fx_map_new<V>() -> (m: HashMap<u64, V, FxBuildHasher>)
    ensures
        (m@ == Map::<u64, V>::empty()),
{
    FxHashMap::default()
}

/// Relies on `HashMap::insert` with `rustc_hash`'s `FxBuildHasher`: it maps
/// the given key to the given value and leaves every other entry as it was.
#[verifier::external_body]
pub(crate) fn fx_map_insert<V>(m: &mut HashMap<u64, V, FxBuildHasher>, k: u64, v: V)
    ensures
        final(m)@ == old(m)@.insert(k, v),
{
    m.insert(k, v);
}

/// Relies on `HashMap::get` with `rustc_hash`'s `FxBuildHasher`: it returns
/// the value of the entry with the given key, and `None` exactly when there
/// is no such entry.
#[verifier::external_body]
pub(crate) fn fx_map_get<'a, V>(m: &'a HashMap<u64, V, FxBuildHasher>, k: u64) -> (r: Option<
    &'a V,
>)
    ensures
        match r {
            Some(v) => m@.contains_key(k) && *v == m@[k],
            None => !m@.contains_key(k),
        },
{
    m.get(&k)
}

} // verus!
