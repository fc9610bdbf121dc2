//! Insertion-ordered maps from a type to a binding, kept in `map_vec::Map`.

use crate::types::TypeId;
use source_map::SpanWithSource;
use vstd::prelude::*;

verus! {

/// What a type parameter is bound to: the value, where the value came from and
/// the index of the parameter that produced it.
#[derive(Clone, Copy, PartialEq, Eq, Debug)]
pub struct Binding {
    pub value: TypeId,
    pub position: SpanWithSource,
    pub parameter: usize,
}

/// `map_vec::Map`: a map with the interface of a hash map, backed by a vector
/// of pairs in insertion order.
#[verifier::external_type_specification]
#[verifier::external_body]
#[verifier::reject_recursive_types(K)]
#[verifier::reject_recursive_types(V)]
pub struct ExMap<K, V>(map_vec::Map<K, V>);

/// The pairs that a binding map holds, in the order of its backing vector.
pub uninterp spec fn binding_entries(map: map_vec::Map<usize, Binding>) -> Seq<(usize, Binding)>;

/// The position of the first pair with key `key`, or the length if there is none.
pub open spec fn first_index(entries: Seq<(usize, Binding)>, key: usize) -> int
    decreases entries.len(),
{
    if entries.len() == 0 {
        0
    } else if entries[0].0 == key {
        0
    } else {
        1 + first_index(entries.drop_first(), key)
    }
}

/// The value of the first pair with key `key`.
pub open spec fn lookup(entries: Seq<(usize, Binding)>, key: usize) -> Option<Binding> {
    let at = first_index(entries, key);
    if 0 <= at < entries.len() {
        Some(entries[at].1)
    } else {
        None
    }
}

/// `entries` with `key` bound to `value`: the first pair with that key has its
/// value replaced in place; without such a pair a new one is appended.
pub open spec fn put(entries: Seq<(usize, Binding)>, key: usize, value: Binding) -> Seq<
    (usize, Binding),
> {
    let at = first_index(entries, key);
    if 0 <= at < entries.len() {
        entries.update(at, (key, value))
    } else {
        entries.push((key, value))
    }
}

/// `entries` with `key` bound to `value` unless `key` is bound already.
pub open spec fn put_first(entries: Seq<(usize, Binding)>, key: usize, value: Binding) -> Seq<
    (usize, Binding),
> {
    if lookup(entries, key) is Some {
        entries
    } else {
        entries.push((key, value))
    }
}

/// `first_index` stays within `0..=len`; under `len` it points at a pair with
/// the key, and no pair before it has the key.
pub proof fn first_index_bounds(entries: Seq<(usize, Binding)>, key: usize)
    ensures
        0 <= first_index(entries, key) <= entries.len(),
        first_index(entries, key) < entries.len() ==> entries[first_index(entries, key)].0 == key,
        forall|i: int| 0 <= i < first_index(entries, key) ==> (#[trigger] entries[i]).0 != key,
    decreases entries.len(),
{
    if entries.len() != 0 && entries[0].0 != key {
        first_index_bounds(entries.drop_first(), key);
        let rest = entries.drop_first();
        assert forall|i: int| 0 <= i < first_index(entries, key) implies (#[trigger] entries[i]).0
            != key by {
            if i > 0 {
                assert(entries[i] == rest[i - 1]);
            }
        }
    }
}

/// The first pair with the key `key` is at `at` if it has the key and no pair
/// before it has.
pub proof fn first_index_is(entries: Seq<(usize, Binding)>, key: usize, at: int)
    requires
        0 <= at <= entries.len(),
        at < entries.len() ==> entries[at].0 == key,
        forall|i: int| 0 <= i < at ==> (#[trigger] entries[i]).0 != key,
    ensures
        first_index(entries, key) == at,
    decreases entries.len(),
{
    if entries.len() != 0 && at != 0 {
        let rest = entries.drop_first();
        assert forall|i: int| 0 <= i < at - 1 implies (#[trigger] rest[i]).0 != key by {
        }
        first_index_is(rest, key, at - 1);
    }
}

/// A key that was put is found with the value that was put; every other key
/// is found as before.
pub proof fn lookup_after_put(
    entries: Seq<(usize, Binding)>,
    key: usize,
    value: Binding,
    other: usize,
)
    ensures
        lookup(put(entries, key, value), key) == Some(value),
        other != key ==> lookup(put(entries, key, value), other) == lookup(entries, other),
{
    let at = first_index(entries, key);
    let after = put(entries, key, value);
    first_index_bounds(entries, key);
    first_index_is(after, key, at);
    if other != key {
        let found = first_index(entries, other);
        first_index_bounds(entries, other);
        if found < entries.len() {
            first_index_is(after, other, found);
        } else {
            first_index_is(after, other, after.len() as int);
        }
    }
}

/// A key that is bound keeps its binding when it is bound again with
/// [`put_first`]; a key that is not bound is then bound to the value given.
pub proof fn lookup_after_put_first(entries: Seq<(usize, Binding)>, key: usize, value: Binding)
    ensures
        lookup(put_first(entries, key, value), key) == match lookup(entries, key) {
            Some(bound) => Some(bound),
            None => Some(value),
        },
{
    if lookup(entries, key) is None {
        first_index_bounds(entries, key);
        first_index_is(entries.push((key, value)), key, entries.len() as int);
    }
}

/// `Map::new`: a map without pairs.
#[verifier::external_body]
pub(crate) fn new_bindings() -> (map: map_vec::Map<usize, Binding>)
    ensures
        binding_entries(map) == Seq::<(usize, Binding)>::empty(),
{
    map_vec::Map::new()
}

/// `Map::get`: the value of the first pair whose key equals `key`.
#[verifier::external_body]
pub(crate) fn get_binding(map: &map_vec::Map<usize, Binding>, key: usize) -> (found: Option<Binding>)
    ensures
        found == lookup(binding_entries(*map), key),
{
    map.get(&key).copied()
}

/// `Map::insert`: replaces the value of the first pair with the key, in place,
/// or appends a new pair; no other pair changes.
#[verifier::external_body]
pub(crate) fn insert_binding(map: &mut map_vec::Map<usize, Binding>, key: usize, value: Binding)
    ensures
        binding_entries(*final(map)) == put(binding_entries(*old(map)), key, value),
{
    map.insert(key, value);
}

/// `Map::iter`: the pairs in the order of the backing vector, copied out.
#[verifier::external_body]
pub(crate) fn binding_pairs(map: &map_vec::Map<usize, Binding>) -> (pairs: Vec<(usize, Binding)>)
    ensures
        pairs@ == binding_entries(*map),
{
    map.iter().map(|(key, value)| (*key, *value)).collect()
}

/// `Map::clone`: a map with the same pairs in the same order.
#[verifier::external_body]
pub(crate) fn clone_bindings(map: &map_vec::Map<usize, Binding>) -> (copy: map_vec::Map<usize, Binding>)
    ensures
        binding_entries(copy) == binding_entries(*map),
{
    map.clone()
}

/// Binds `key` to `value` unless it is bound already: the first binding of a
/// key is the one that stays.
pub fn insert_first(map: &mut map_vec::Map<usize, Binding>, key: usize, value: Binding)
    ensures
        binding_entries(*final(map)) == put_first(binding_entries(*old(map)), key, value),
{
    let existing = get_binding(map, key);
    if existing.is_none() {
        insert_binding(map, key, value);
    }
}

} // verus!
