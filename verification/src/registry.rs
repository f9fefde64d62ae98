use crate::text::texts;
use dashmap::DashMap;
use vstd::prelude::*;

verus! {

/// `dashmap::DashMap`, a hash map that may be shared between threads. Nothing inside it is
/// seen here: what a map holds is named for each kind of map that the gateway keeps, and
/// the functions below say what the map's methods do to it.
#[verifier::external_type_specification]
#[verifier::external_body]
#[verifier::reject_recursive_types(K)]
#[verifier::reject_recursive_types(V)]
#[verifier::reject_recursive_types(S)]
pub struct ExDashMap<K, V, S>(DashMap<K, V, S>);

/// What a registry of resources holds: for each identifier, the handle of the resource.
pub uninterp spec fn registry_entries(m: DashMap<String, u64>) -> Map<Seq<char>, u64>;

/// True if `keys` lists the keys of `dom`, each of them once, in some order.
pub open spec fn lists(keys: Seq<Seq<char>>, dom: Set<Seq<char>>) -> bool {
    &&& keys.no_duplicates()
    &&& forall|k: Seq<char>| dom.contains(k) <==> keys.contains(k)
}

/// `DashMap::new`: a map without entries.
#[verifier::external_body]
pub(crate) fn registry_new() -> (m: DashMap<String, u64>)
    ensures
        registry_entries(m) == (Map::<Seq<char>, u64>::empty()),
{
    DashMap::new()
}

/// `DashMap::insert`: afterwards the map holds `value` under `key` and is otherwise as
/// before.
#[verifier::external_body]
pub(crate) fn registry_insert(m: &mut DashMap<String, u64>, key: String, value: u64)
    ensures
        registry_entries(*final(m)) == registry_entries(*old(m)).insert(key@, value),
{
    m.insert(key, value);
}

/// `DashMap::view`, with the value copied out: the value held under `key`, if any.
#[verifier::external_body]
pub(crate) fn registry_get(m: &DashMap<String, u64>, key: &str) -> (r: Option<u64>)
    ensures
        r == (if registry_entries(*m).contains_key(key@) {
            Some(registry_entries(*m)[key@])
        } else {
            None
        }),
{
    m.view(key, |_, handle| *handle)
}

/// `DashMap::clear`: afterwards the map has no entries.
#[verifier::external_body]
pub(crate) fn registry_clear(m: &mut DashMap<String, u64>)
    ensures
        registry_entries(*final(m)) == (Map::<Seq<char>, u64>::empty()),
{
    m.clear()
}

/// `DashMap::iter`, with each key copied out: every key of the map, once. The order in
/// which the map is walked is left open.
#[verifier::external_body]
pub(crate) fn registry_keys(m: &DashMap<String, u64>) -> (r: Vec<String>)
    ensures
        lists(texts(r@), registry_entries(*m).dom()),
{
    m.iter().map(|entry| entry.key().clone()).collect()
}

} // verus!
