//! The shared key-value store: a string-to-string map backed by dashmap's
//! sharded concurrent hash map, so that every operation is a short, atomic
//! critical section.
//!
//! The map itself is outside code; each operation the cache uses stands
//! behind a trusted wrapper whose contract states, over [`store_contents`],
//! what dashmap's source shows the call to do.

use vstd::prelude::*;

verus! {

/// dashmap's concurrent hash map, declared so that a value of it can stand
/// in a field; Verus sees nothing inside such a value.
#[verifier::external_type_specification]
#[verifier::external_body]
#[verifier::reject_recursive_types(K)]
#[verifier::reject_recursive_types(V)]
#[verifier::reject_recursive_types(S)]
pub struct ExDashMap<K, V, S>(dashmap::DashMap<K, V, S>);

/// What the map holds: its key-value pairs, as text.
pub uninterp spec fn store_contents(m: dashmap::DashMap<String, String>) -> Map<
    Seq<char>,
    Seq<char>,
>;

/// The store all connections share. Entries are created and overwritten by
/// `set`, removed one at a time by `del` and all at once by `clear`; a key
/// carries no expiry and no version.
pub struct Store {
    map: dashmap::DashMap<String, String>,
}

impl View for Store {
    type V = Map<Seq<char>, Seq<char>>;

    closed spec fn view(&self) -> Map<Seq<char>, Seq<char>> {
        store_contents(self.map)
    }
}

impl Store {
    /// Relies on dashmap's DashMap::new: the new map holds nothing.
    #[verifier::external_body]
    fn new_raw() -> (s: Store)
        ensures
            store_contents(s.map) =~= Map::empty(),
    {
        Store { map: dashmap::DashMap::new() }
    }

    /// Relies on dashmap's DashMap::get: the value the key maps to, if any,
    /// handed out as an owned copy.
    #[verifier::external_body]
    fn get_raw(&self, key: &String) -> (r: Option<String>)
        ensures
            r matches Some(v) ==> self@.contains_key(key@) && v@ == self@[key@],
            r is None ==> !self@.contains_key(key@),
    {
        self.map.get(key).map(|entry| entry.value().clone())
    }

    /// Relies on dashmap's DashMap::insert: maps the key to the value and
    /// returns the value the key mapped to before, if any.
    #[verifier::external_body]
    fn set_raw(&mut self, key: String, value: String) -> (r: Option<String>)
        ensures
            final(self)@ == old(self)@.insert(key@, value@),
            r matches Some(v) ==> old(self)@.contains_key(key@) && v@ == old(self)@[key@],
            r is None ==> !old(self)@.contains_key(key@),
    {
        self.map.insert(key, value)
    }

    /// Relies on dashmap's DashMap::remove: unmaps the key and returns the
    /// value it mapped to, if any.
    #[verifier::external_body]
    fn del_raw(&mut self, key: &String) -> (r: Option<String>)
        ensures
            final(self)@ == old(self)@.remove(key@),
            r matches Some(v) ==> old(self)@.contains_key(key@) && v@ == old(self)@[key@],
            r is None ==> !old(self)@.contains_key(key@),
    {
        self.map.remove(key).map(|entry| entry.1)
    }

    /// Relies on dashmap's DashMap::clear: unmaps every key.
    #[verifier::external_body]
    fn clear_raw(&mut self)
        ensures
            store_contents(final(self).map) =~= Map::empty(),
    {
        self.map.clear()
    }

    /// Creates an empty store.
    pub fn new() -> (s: Store)
        ensures
            s@ == Map::<Seq<char>, Seq<char>>::empty(),
    {
        Store::new_raw()
    }

    /// Returns the current value of the key, or its absence; no side effects.
    pub fn get(&self, key: &String) -> (r: Option<String>)
        ensures
            r matches Some(v) ==> self@.contains_key(key@) && v@ == self@[key@],
            (r is Some) == self@.contains_key(key@),
    {
        self.get_raw(key)
    }

    /// Inserts or overwrites the key; returns the prior value if there was
    /// one.
    pub fn set(&mut self, key: String, value: String) -> (r: Option<String>)
        ensures
            final(self)@ == old(self)@.insert(key@, value@),
            r matches Some(v) ==> old(self)@.contains_key(key@) && v@ == old(self)@[key@],
            (r is Some) == old(self)@.contains_key(key@),
    {
        self.set_raw(key, value)
    }

    /// Removes the key if present; returns the removed value or its absence.
    pub fn del(&mut self, key: &String) -> (r: Option<String>)
        ensures
            final(self)@ == old(self)@.remove(key@),
            r matches Some(v) ==> old(self)@.contains_key(key@) && v@ == old(self)@[key@],
            (r is Some) == old(self)@.contains_key(key@),
    {
        self.del_raw(key)
    }

    /// Removes all entries.
    pub fn clear(&mut self)
        ensures
            final(self)@ == Map::<Seq<char>, Seq<char>>::empty(),
    {
        self.clear_raw()
    }
}

} // verus!
