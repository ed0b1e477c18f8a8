//! The store: string keys mapped to string values.
//!
//! The entries live in a `std::collections::HashMap` behind a small set
//! of trusted wrappers that give the map a mathematical contents
//! function; [`Store`] is the verified type the executor works on. All
//! access goes through `&mut self` — one caller at a time — and the
//! surrounding process, which owns the one store for the server's
//! lifetime, serializes the workers' access to it behind a lock.

use vstd::prelude::*;

use std::collections::HashMap;

verus! {

/// What a map holds: a mathematical map over the characters of its keys
/// and values.
pub uninterp spec fn hm_contents(m: HashMap<String, String>) -> Map<Seq<char>, Seq<char>>;

/// The contents of a store that holds nothing.
pub open spec fn empty_contents() -> Map<Seq<char>, Seq<char>> {
    Map::empty()
}

/// Relies on HashMap::new: a fresh map holds no entries.
#[verifier::external_body]
fn hm_new() -> (m: HashMap<String, String>)
    ensures
        hm_contents(m) == empty_contents(),
{
    HashMap::new()
}

/// Relies on HashMap::get: the value under the key, if the key is present.
#[verifier::external_body]
fn hm_get(m: &HashMap<String, String>, key: &str) -> (r: Option<String>)
    ensures
        match r {
            Some(v) => hm_contents(*m).dom().contains(key@) && v@ == hm_contents(*m)[key@],
            None => !hm_contents(*m).dom().contains(key@),
        },
{
    m.get(key).map(|v| v.clone())
}

/// Relies on HashMap::insert: replaces the entry under the key and
/// returns the prior value, if any.
#[verifier::external_body]
fn hm_insert(m: &mut HashMap<String, String>, key: String, value: String) -> (r: Option<String>)
    ensures
        hm_contents(*final(m)) == hm_contents(*old(m)).insert(key@, value@),
        match r {
            Some(prior) => hm_contents(*old(m)).dom().contains(key@) && prior@ == hm_contents(
                *old(m),
            )[key@],
            None => !hm_contents(*old(m)).dom().contains(key@),
        },
{
    m.insert(key, value)
}

/// Relies on HashMap::remove: deletes the entry under the key and
/// returns its value, if any.
#[verifier::external_body]
fn hm_remove(m: &mut HashMap<String, String>, key: &str) -> (r: Option<String>)
    ensures
        hm_contents(*final(m)) == hm_contents(*old(m)).remove(key@),
        match r {
            Some(prior) => hm_contents(*old(m)).dom().contains(key@) && prior@ == hm_contents(
                *old(m),
            )[key@],
            None => !hm_contents(*old(m)).dom().contains(key@),
        },
{
    m.remove(key)
}

/// Relies on HashMap::contains_key: whether the key has an entry.
#[verifier::external_body]
fn hm_contains_key(m: &HashMap<String, String>, key: &str) -> (r: bool)
    ensures
        r == hm_contents(*m).dom().contains(key@),
{
    m.contains_key(key)
}

/// Relies on HashMap::clear: removes every entry.
#[verifier::external_body]
fn hm_clear(m: &mut HashMap<String, String>)
    ensures
        hm_contents(*final(m)) == empty_contents(),
{
    m.clear()
}

/// The server's store. Created once at startup and owned by the server
/// for its whole lifetime; its view is the mapping it currently holds.
/// Its methods take the store exclusively, so a process with several
/// workers shares it behind a lock.
pub struct Store {
    map: HashMap<String, String>,
}

impl View for Store {
    type V = Map<Seq<char>, Seq<char>>;

    closed spec fn view(&self) -> Map<Seq<char>, Seq<char>> {
        hm_contents(self.map)
    }
}

impl Store {
    /// A store with no entries.
    pub fn new() -> (s: Store)
        ensures
            s@ == Map::<Seq<char>, Seq<char>>::empty(),
    {
        Store { map: hm_new() }
    }

    /// The value under `key`, if the key is present.
    pub fn get(&self, key: &str) -> (r: Option<String>)
        ensures
            match r {
                Some(v) => self@.dom().contains(key@) && v@ == self@[key@],
                None => !self@.dom().contains(key@),
            },
    {
        hm_get(&self.map, key)
    }

    /// Upsert: put `value` under `key` and hand back the prior value, if any.
    pub fn insert(&mut self, key: String, value: String) -> (r: Option<String>)
        ensures
            final(self)@ == old(self)@.insert(key@, value@),
            match r {
                Some(prior) => old(self)@.dom().contains(key@) && prior@ == old(self)@[key@],
                None => !old(self)@.dom().contains(key@),
            },
    {
        hm_insert(&mut self.map, key, value)
    }

    /// Delete the entry under `key` and hand back its value, if any.
    pub fn remove(&mut self, key: &str) -> (r: Option<String>)
        ensures
            final(self)@ == old(self)@.remove(key@),
            match r {
                Some(prior) => old(self)@.dom().contains(key@) && prior@ == old(self)@[key@],
                None => !old(self)@.dom().contains(key@),
            },
    {
        hm_remove(&mut self.map, key)
    }

    /// Whether `key` has an entry.
    pub fn contains_key(&self, key: &str) -> (r: bool)
        ensures
            r == self@.dom().contains(key@),
    {
        hm_contains_key(&self.map, key)
    }

    /// Remove every entry.
    pub fn clear(&mut self)
        ensures
            final(self)@ == Map::<Seq<char>, Seq<char>>::empty(),
    {
        hm_clear(&mut self.map)
    }
}

} // verus!
