//! The table from an agent's identity to the slot of its transport, kept in
//! a `DashMap`.
use dashmap::DashMap;
use vstd::prelude::*;

verus! {

/// `dashmap::DashMap`, of which nothing is known here but what the
/// functions below say of a table.
#[verifier::external_type_specification]
#[verifier::external_body]
#[verifier::reject_recursive_types(K)]
#[verifier::reject_recursive_types(V)]
#[verifier::reject_recursive_types(S)]
pub struct ExDashMap<K, V, S>(DashMap<K, V, S>);

/// What a table holds: for each identity in it, its slot.
pub uninterp spec fn registry_entries(table: DashMap<String, usize>) -> Map<Seq<char>, usize>;

/// `DashMap::new`: a table that holds nothing.
#[verifier::external_body]
pub(crate) fn registry_new() -> (r: DashMap<String, usize>)
    ensures
        forall|key: Seq<char>| !registry_entries(r).contains_key(key),
{
    DashMap::new()
}

/// `DashMap::insert`: afterwards `key` stands for `value` and every other
/// key for what it stood for; the value that `key` stood for before is
/// handed back.
#[verifier::external_body]
pub(crate) fn registry_insert(table: &mut DashMap<String, usize>, key: String, value: usize) -> (previous:
    Option<usize>)
    ensures
        registry_entries(*final(table)) == registry_entries(*old(table)).insert(key@, value),
        previous == if registry_entries(*old(table)).contains_key(key@) {
            Some(registry_entries(*old(table))[key@])
        } else {
            None::<usize>
        },
{
    table.insert(key, value)
}

/// `DashMap::get`: the value that `key` stands for, if it is in the table.
#[verifier::external_body]
pub(crate) fn registry_get(table: &DashMap<String, usize>, key: &str) -> (value: Option<usize>)
    ensures
        value == if registry_entries(*table).contains_key(key@) {
            Some(registry_entries(*table)[key@])
        } else {
            None::<usize>
        },
{
    table.get(key).map(|entry| *entry.value())
}

/// `DashMap::iter`: every key of the table once, in an order that is not
/// fixed.
#[verifier::external_body]
pub(crate) fn registry_keys(table: &DashMap<String, usize>) -> (keys: Vec<String>)
    ensures
        forall|i: int, j: int| 0 <= i < j < keys@.len() ==> keys@[i]@ != keys@[j]@,
        forall|i: int| 0 <= i < keys@.len() ==> registry_entries(*table).contains_key(keys@[i]@),
        forall|key: Seq<char>|
            registry_entries(*table).contains_key(key) ==> exists|i: int|
                0 <= i < keys@.len() && keys@[i]@ == key,
{
    table.iter().map(|entry| entry.key().clone()).collect()
}

} // verus!
