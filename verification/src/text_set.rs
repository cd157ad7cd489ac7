//! Sets of texts, kept in the concurrent set of `dashmap`.

use dashmap::DashSet;
use vstd::prelude::*;

verus! {

/// The concurrent set of `dashmap`.
#[verifier::external_type_specification]
#[verifier::external_body]
#[verifier::reject_recursive_types(K)]
#[verifier::reject_recursive_types(S)]
pub struct ExDashSet<K, S>(DashSet<K, S>);

/// The texts that a set of texts holds.
pub uninterp spec fn set_keys(set: DashSet<String>) -> Set<Seq<char>>;

/// Calls `DashSet::new`, which makes an empty set.
#[verifier::external_body]
pub(crate) fn new_set() -> (set: DashSet<String>)
    ensures
        set_keys(set) == Set::<Seq<char>>::empty(),
{
    DashSet::new()
}

/// Calls `DashSet::insert`, which adds the key and says whether it was new.
/// The set is taken exclusively, so nobody else changes it meanwhile.
#[verifier::external_body]
pub(crate) fn set_insert(set: &mut DashSet<String>, key: String) -> (fresh: bool)
    ensures
        fresh == !set_keys(*old(set)).contains(key@),
        set_keys(*final(set)) == set_keys(*old(set)).insert(key@),
{
    set.insert(key)
}

/// Calls `DashSet::contains`, which says whether the set holds the key.
#[verifier::external_body]
pub(crate) fn set_contains(set: &DashSet<String>, key: &String) -> (held: bool)
    ensures
        held == set_keys(*set).contains(key@),
{
    set.contains(key)
}

/// Calls `DashSet::len`, which gives the number of keys that the set holds.
#[verifier::external_body]
pub(crate) fn set_len(set: &DashSet<String>) -> (n: usize)
    ensures
        n == set_keys(*set).len(),
{
    set.len()
}

} // verus!
