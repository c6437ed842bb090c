//! Insertion-ordered maps, as this crate uses them.
//!
//! The maps are `indexmap`'s. What they hold is known to the verifier only
//! through the contracts in this file, which restate that crate's
//! documentation and are not proved.

use crate::addr::NameAddr;
use indexmap::IndexMap;
use std::collections::hash_map::RandomState;
use vstd::prelude::*;

verus! {

#[verifier::external_type_specification]
#[verifier::external_body]
#[verifier::reject_recursive_types(K)]
#[verifier::reject_recursive_types(V)]
#[verifier::reject_recursive_types(S)]
pub struct ExIndexMap<K, V, S>(IndexMap<K, V, S>);

/// No key stands at two places.
pub open spec fn distinct_keys<K, V>(entries: Seq<(K, V)>) -> bool {
    forall|i: int, j: int| 0 <= i < j < entries.len() ==> entries[i].0 != entries[j].0
}

/// Whether `key` is the key of some entry.
pub open spec fn has_key<K, V>(entries: Seq<(K, V)>, key: K) -> bool {
    exists|i: int| 0 <= i < entries.len() && #[trigger] entries[i].0 == key
}

/// The place of `key` among the entries, where it has one.
pub open spec fn position_of<K, V>(entries: Seq<(K, V)>, key: K) -> int {
    choose|i: int| 0 <= i < entries.len() && #[trigger] entries[i].0 == key
}

/// The value stored for `key`, if it is a key.
pub open spec fn value_of<K, V>(entries: Seq<(K, V)>, key: K) -> Option<V> {
    if has_key(entries, key) {
        Some(entries[position_of(entries, key)].1)
    } else {
        None
    }
}

/// The entries after `key` was given `value`: a key already present keeps its
/// place, a new one goes last.
pub open spec fn with_entry<K, V>(entries: Seq<(K, V)>, key: K, value: V) -> Seq<(K, V)> {
    if has_key(entries, key) {
        entries.update(position_of(entries, key), (key, value))
    } else {
        entries.push((key, value))
    }
}

/// The entries after `key` was taken out: the others keep their order.
pub open spec fn without_key<K, V>(entries: Seq<(K, V)>, key: K) -> Seq<(K, V)> {
    if has_key(entries, key) {
        entries.remove(position_of(entries, key))
    } else {
        entries
    }
}

/// The entries after the one at `index` was taken out, if there is one.
pub open spec fn without_index<K, V>(entries: Seq<(K, V)>, index: int) -> Seq<(K, V)> {
    if 0 <= index < entries.len() {
        entries.remove(index)
    } else {
        entries
    }
}

/// The entries of a map from destination names to slots, in insertion order.
pub uninterp spec fn name_index(m: IndexMap<(String, u16), usize, RandomState>) -> Seq<
    ((Seq<char>, u16), usize),
>;

/// `IndexMap::new`: a map without entries.
#[verifier::external_body]
pub(crate) fn names_new() -> (m: IndexMap<(String, u16), usize, RandomState>)
    ensures
        name_index(m) == Seq::<((Seq<char>, u16), usize)>::empty(),
{
    IndexMap::new()
}

/// `IndexMap::clone`: a map with the same entries in the same order.
#[verifier::external_body]
pub(crate) fn names_clone(m: &IndexMap<(String, u16), usize, RandomState>) -> (copy: IndexMap<
    (String, u16),
    usize,
    RandomState,
>)
    ensures
        name_index(copy) == name_index(*m),
{
    m.clone()
}

/// `IndexMap::get`: the slot stored for a name, if the name is a key.
#[verifier::external_body]
pub(crate) fn names_get(m: &IndexMap<(String, u16), usize, RandomState>, addr: &NameAddr) -> (slot:
    Option<usize>)
    ensures
        slot == value_of(name_index(*m), addr@),
{
    m.get(&(addr.name.clone(), addr.port)).copied()
}

/// `IndexMap::insert`: a new key goes last and `None` comes back; a key
/// already present keeps its place, takes the new slot and gives the old one
/// back. Afterwards, as always in such a map, no key stands twice.
#[verifier::external_body]
pub(crate) fn names_insert(
    m: &mut IndexMap<(String, u16), usize, RandomState>,
    addr: &NameAddr,
    slot: usize,
) -> (prior: Option<usize>)
    ensures
        prior == value_of(name_index(*old(m)), addr@),
        name_index(*final(m)) == with_entry(name_index(*old(m)), addr@, slot),
        distinct_keys(name_index(*final(m))),
{
    m.insert((addr.name.clone(), addr.port), slot)
}

/// The entries of a map from tokens to request handles, in insertion order.
pub uninterp spec fn token_entries(m: IndexMap<usize, u64, RandomState>) -> Seq<(usize, u64)>;

/// `IndexMap::new`: a map without entries.
#[verifier::external_body]
pub(crate) fn tokens_new() -> (m: IndexMap<usize, u64, RandomState>)
    ensures
        token_entries(m) == Seq::<(usize, u64)>::empty(),
{
    IndexMap::new()
}

/// `IndexMap::len`: the number of entries.
#[verifier::external_body]
pub(crate) fn tokens_len(m: &IndexMap<usize, u64, RandomState>) -> (n: usize)
    ensures
        n == token_entries(*m).len(),
{
    m.len()
}

/// `IndexMap::insert`: a new key goes last and `None` comes back; a key
/// already present keeps its place, takes the new value and gives the old one
/// back. Afterwards, as always in such a map, no key stands twice.
#[verifier::external_body]
pub(crate) fn tokens_insert(m: &mut IndexMap<usize, u64, RandomState>, token: usize, handle: u64) -> (prior:
    Option<u64>)
    ensures
        prior == value_of(token_entries(*old(m)), token),
        token_entries(*final(m)) == with_entry(token_entries(*old(m)), token, handle),
        distinct_keys(token_entries(*final(m))),
{
    m.insert(token, handle)
}

/// `IndexMap::shift_remove_index`: takes out the entry at `index`, if there is
/// one, and gives it back; the entries behind it move up and keep their order.
#[verifier::external_body]
pub(crate) fn tokens_shift_remove_index(m: &mut IndexMap<usize, u64, RandomState>, index: usize) -> (removed:
    Option<(usize, u64)>)
    ensures
        removed == (if index < token_entries(*old(m)).len() {
            Some(token_entries(*old(m))[index as int])
        } else {
            None
        }),
        token_entries(*final(m)) == without_index(token_entries(*old(m)), index as int),
        distinct_keys(token_entries(*final(m))),
{
    m.shift_remove_index(index)
}

/// `IndexMap::shift_remove`: takes out the entry of `token`, if there is one,
/// and gives its value back; the entries behind it move up and keep their
/// order.
#[verifier::external_body]
pub(crate) fn tokens_shift_remove(m: &mut IndexMap<usize, u64, RandomState>, token: usize) -> (removed:
    Option<u64>)
    ensures
        removed == value_of(token_entries(*old(m)), token),
        token_entries(*final(m)) == without_key(token_entries(*old(m)), token),
        distinct_keys(token_entries(*final(m))),
{
    m.shift_remove(&token)
}

} // verus!
