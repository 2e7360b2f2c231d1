//! The identity map: at most one live handle for each model and primary
//! key. A handle is a number that stands for a host-side object.

use vstd::prelude::*;
use crate::text::same_str;

verus! {

/// `dashmap::DashMap`, carried through as an opaque value.
#[verifier::external_type_specification]
#[verifier::external_body]
#[verifier::reject_recursive_types(K)]
#[verifier::reject_recursive_types(V)]
#[verifier::reject_recursive_types(S)]
pub struct ExDashMap<K, V, S>(dashmap::DashMap<K, V, S>);

/// The concurrent map that holds the handles.
pub type HandleStore = dashmap::DashMap<(String, String), u64>;

/// A model name and a primary key as text.
pub type IdentityKey = (Seq<char>, Seq<char>);

/// What a handle store holds: the handle of each key.
pub uninterp spec fn store_entries(m: HandleStore) -> Map<IdentityKey, u64>;

/// The entries that are left when a model is evicted: those of the other
/// models.
pub open spec fn without_model(entries: Map<IdentityKey, u64>, model: Seq<char>) -> Map<
    IdentityKey,
    u64,
> {
    entries.restrict(Set::new(|k: IdentityKey| k.0 != model))
}

/// The handle of a key.
pub open spec fn handle_of(entries: Map<IdentityKey, u64>, model: Seq<char>, pk: Seq<char>) -> Option<
    u64,
> {
    if entries.contains_key((model, pk)) {
        Some(entries[(model, pk)])
    } else {
        None
    }
}

/// Whether an entry of a model outlives the eviction of a model: it does
/// where the two differ.
pub fn outlives_eviction(entry_model: &str, evicted: &str) -> (r: bool)
    ensures
        r == (entry_model@ != evicted@),
{
    !same_str(entry_model, evicted)
}

/// `DashMap::new`: a map that holds nothing.
#[verifier::external_body]
fn store_new() -> (m: HandleStore)
    ensures
        store_entries(m) =~= Map::empty(),
{
    dashmap::DashMap::new()
}

/// `DashMap::get`: the handle under the key, none where the map has no
/// such key.
#[verifier::external_body]
fn store_get(m: &HandleStore, model: &str, pk: &str) -> (r: Option<u64>)
    ensures
        r == handle_of(store_entries(*m), model@, pk@),
{
    m.get(&(model.to_owned(), pk.to_owned())).map(|e| *e.value())
}

/// `DashMap::insert`: the key holds the handle afterwards, the other keys
/// what they held.
#[verifier::external_body]
fn store_insert(m: &mut HandleStore, model: String, pk: String, handle: u64)
    ensures
        store_entries(*final(m)) == store_entries(*old(m)).insert((model@, pk@), handle),
{
    m.insert((model, pk), handle);
}

/// `DashMap::remove`: the key is gone afterwards, the other keys hold what
/// they held.
#[verifier::external_body]
fn store_remove(m: &mut HandleStore, model: &str, pk: &str)
    ensures
        store_entries(*final(m)) == store_entries(*old(m)).remove((model@, pk@)),
{
    m.remove(&(model.to_owned(), pk.to_owned()));
}

/// `DashMap::retain` with the entries that outlive the eviction of a
/// model: those of the other models stay as they were, those of the model
/// are gone.
#[verifier::external_body]
fn store_evict_model(m: &mut HandleStore, model: &str)
    ensures
        store_entries(*final(m)) == without_model(store_entries(*old(m)), model@),
{
    m.retain(|key, _| outlives_eviction(key.0.as_str(), model));
}

/// `DashMap::clear`: the map holds nothing afterwards.
#[verifier::external_body]
fn store_clear(m: &mut HandleStore)
    ensures
        store_entries(*final(m)) =~= Map::empty(),
{
    m.clear();
}

/// The identity map.
pub struct IdentityMap {
    store: HandleStore,
}

impl IdentityMap {
    /// The handle of each key that the map holds.
    pub closed spec fn entries(&self) -> Map<IdentityKey, u64> {
        store_entries(self.store)
    }

    /// The handle of a key.
    pub open spec fn handle(&self, model: Seq<char>, pk: Seq<char>) -> Option<u64> {
        handle_of(self.entries(), model, pk)
    }

    /// A map that holds nothing.
    pub fn new() -> (r: IdentityMap)
        ensures
            r.entries() =~= Map::empty(),
    {
        IdentityMap { store: store_new() }
    }

    /// The handle registered for a model and key.
    pub fn get(&self, model: &str, pk: &str) -> (r: Option<u64>)
        ensures
            r == self.handle(model@, pk@),
    {
        store_get(&self.store, model, pk)
    }

    /// Registers a handle for a model and key, in place of any other.
    pub fn insert(&mut self, model: &str, pk: &str, handle: u64)
        ensures
            final(self).entries() == old(self).entries().insert((model@, pk@), handle),
    {
        store_insert(&mut self.store, model.to_owned(), pk.to_owned(), handle);
    }

    /// Removes the handle of a model and key.
    pub fn evict(&mut self, model: &str, pk: &str)
        ensures
            final(self).entries() == old(self).entries().remove((model@, pk@)),
    {
        store_remove(&mut self.store, model, pk);
    }

    /// Removes every handle of a model.
    pub fn evict_all_for_model(&mut self, model: &str)
        ensures
            final(self).entries() == without_model(old(self).entries(), model@),
    {
        store_evict_model(&mut self.store, model);
    }

    /// Removes every handle.
    pub fn clear(&mut self)
        ensures
            final(self).entries() =~= Map::empty(),
    {
        store_clear(&mut self.store);
    }
}

/// After a handle is registered for a key, a lookup of the key gives that
/// handle, and a lookup of any other key gives what it gave before.
pub proof fn lemma_lookup_after_insert(
    entries: Map<IdentityKey, u64>,
    model: Seq<char>,
    pk: Seq<char>,
    handle: u64,
    other_model: Seq<char>,
    other_pk: Seq<char>,
)
    ensures
        handle_of(entries.insert((model, pk), handle), model, pk) == Some(handle),
        (other_model, other_pk) != (model, pk) ==> handle_of(
            entries.insert((model, pk), handle),
            other_model,
            other_pk,
        ) == handle_of(entries, other_model, other_pk),
{
}

/// After a model is evicted, no key of the model has a handle, and the
/// keys of every other model have the handles that they had.
pub proof fn lemma_lookup_after_model_eviction(
    entries: Map<IdentityKey, u64>,
    model: Seq<char>,
    other_model: Seq<char>,
    pk: Seq<char>,
)
    ensures
        handle_of(without_model(entries, model), model, pk).is_none(),
        other_model != model ==> handle_of(without_model(entries, model), other_model, pk)
            == handle_of(entries, other_model, pk),
{
}

/// After a key is evicted it has no handle, and every other key has the
/// handle that it had.
pub proof fn lemma_lookup_after_eviction(
    entries: Map<IdentityKey, u64>,
    model: Seq<char>,
    pk: Seq<char>,
    other_model: Seq<char>,
    other_pk: Seq<char>,
)
    ensures
        handle_of(entries.remove((model, pk)), model, pk).is_none(),
        (other_model, other_pk) != (model, pk) ==> handle_of(
            entries.remove((model, pk)),
            other_model,
            other_pk,
        ) == handle_of(entries, other_model, other_pk),
{
}

} // verus!
