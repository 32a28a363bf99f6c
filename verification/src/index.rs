//! The concurrent map that backs each direction of the directory, and what
//! is taken on trust about it.
//!
//! A `DashMap` changes behind a shared reference. The functions here that
//! change one take it by exclusive reference instead, so that a contract can
//! speak of the map before the call and after it.

use crate::membership::{lists, members, struck, with_member, Index};
use dashmap::{DashMap, DashSet};
use vstd::prelude::*;

verus! {

/// `dashmap::DashMap`, a sharded concurrent hash map.
#[verifier::external_type_specification]
#[verifier::external_body]
#[verifier::reject_recursive_types(K)]
#[verifier::reject_recursive_types(V)]
#[verifier::reject_recursive_types(S)]
pub struct ExDashMap<K, V, S>(DashMap<K, V, S>);

/// `dashmap::DashSet`, a concurrent hash set built on `DashMap`.
#[verifier::external_type_specification]
#[verifier::external_body]
#[verifier::reject_recursive_types(K)]
#[verifier::reject_recursive_types(S)]
pub struct ExDashSet<K, S>(DashSet<K, S>);

/// What a map of sets holds: each key with the members filed under it.
pub uninterp spec fn entries(index: DashMap<String, DashSet<String>>) -> Index;

/// `DashMap::new`: a map that holds no key.
#[verifier::external_body]
pub(crate) fn new_index() -> (index: DashMap<String, DashSet<String>>)
    ensures
        entries(index) == Index::empty(),
{
    DashMap::new()
}

/// `DashMap::entry`, `Entry::or_insert_with` and `DashSet::insert`: the set
/// under `key` is created empty if the key is absent, and `member` is put
/// into it. No other key is touched, and the call does not unwind.
#[verifier::external_body]
pub(crate) fn file_member(
    index: &mut DashMap<String, DashSet<String>>,
    key: &str,
    member: &str,
)
    ensures
        entries(*final(index)) == with_member(entries(*old(index)), key@, member@),
    no_unwind
{
    index.entry(key.to_owned()).or_insert_with(DashSet::new).insert(member.to_owned());
}

/// `DashMap::get_mut`, `DashSet::remove` and `DashSet::is_empty`: where the
/// key is present, `member` is taken out of its set, which stays in the map,
/// and the answer tells whether that set is now empty. Where the key is
/// absent nothing changes and there is no answer. The call does not unwind.
#[verifier::external_body]
pub(crate) fn strike_member(
    index: &mut DashMap<String, DashSet<String>>,
    key: &str,
    member: &str,
) -> (emptied: Option<bool>)
    ensures
        entries(*final(index)) == struck(entries(*old(index)), key@, member@),
        entries(*old(index)).dom().contains(key@) ==> emptied == Some(
            entries(*old(index))[key@].remove(member@).is_empty(),
        ),
        !entries(*old(index)).dom().contains(key@) ==> emptied is None,
    no_unwind
{
    match index.get_mut(key) {
        Some(set) => {
            set.remove(member);
            Some(set.is_empty())
        },
        None => None,
    }
}

/// `DashMap::remove`: the key and its set leave the map; an absent key
/// changes nothing. The call does not unwind.
#[verifier::external_body]
pub(crate) fn drop_key(index: &mut DashMap<String, DashSet<String>>, key: &str)
    ensures
        entries(*final(index)) == entries(*old(index)).remove(key@),
    no_unwind
{
    index.remove(key);
}

/// `DashMap::get`, then the set's clone drained by `DashSet::into_iter`: the
/// members filed under `key`, each once, in no particular order; none where
/// the key is absent.
#[verifier::external_body]
pub(crate) fn list_members(index: &DashMap<String, DashSet<String>>, key: &str) -> (listed: Vec<
    String,
>)
    ensures
        lists(listed@, members(entries(*index), key@)),
{
    match index.get(key) {
        Some(set) => set.clone().into_iter().collect(),
        None => Vec::new(),
    }
}

} // verus!
