//! The greeting registry: a concurrent map from `u32` ids to texts in which
//! the first insert of an id wins and every later insert is a conflict.

use dashmap::mapref::entry::Entry;
use dashmap::DashMap;
use vstd::prelude::*;

verus! {

#[verifier::external_type_specification]
#[verifier::external_body]
#[verifier::reject_recursive_types(K)]
#[verifier::reject_recursive_types(V)]
#[verifier::reject_recursive_types(S)]
pub struct ExDashMap<K, V, S>(DashMap<K, V, S>);

/// What a `DashMap<u32, String>` holds: each id with the characters of its text.
pub uninterp spec fn held(m: DashMap<u32, String>) -> Map<u32, Seq<char>>;

/// Relies on `DashMap::new`: a new map holds no entries.
#[verifier::external_body]
fn map_new() -> (r: DashMap<u32, String>)
    ensures
        held(r) =~= Map::empty(),
{
    DashMap::new()
}

/// Relies on `DashMap::entry`, which holds the write lock of the key's shard
/// while the entry lives: an occupied entry hands back a copy of the stored
/// value and leaves the map as it is; a vacant one stores `text` under `id`.
#[verifier::external_body]
fn map_insert_if_absent(m: &mut DashMap<u32, String>, id: u32, text: String) -> (r: Option<
    String,
>)
    ensures
        held(*old(m)).contains_key(id) ==> r.is_some() && r.unwrap()@ == held(*old(m))[id]
            && held(*final(m)) == held(*old(m)),
        !held(*old(m)).contains_key(id) ==> r.is_none() && held(*final(m)) == held(
            *old(m),
        ).insert(id, text@),
{
    match m.entry(id) {
        Entry::Occupied(o) => Some(o.get().clone()),
        Entry::Vacant(v) => {
            v.insert(text);
            None
        },
    }
}

/// Relies on `DashMap::get`: the value stored under `id`, if any.
#[verifier::external_body]
fn map_get(m: &DashMap<u32, String>, id: u32) -> (r: Option<String>)
    ensures
        r.is_some() == held(*m).contains_key(id),
        r.is_some() ==> r.unwrap()@ == held(*m)[id],
{
    m.get(&id).map(|e| e.value().clone())
}

/// Relies on `DashMap::iter`: every entry is visited once, in an order that
/// the map does not fix.
#[verifier::external_body]
fn map_entries(m: &DashMap<u32, String>) -> (r: Vec<(u32, String)>)
    ensures
        forall|i: int|
            0 <= i < r@.len() ==> #[trigger] held(*m).contains_key(r@[i].0) && held(*m)[r@[i].0]
                == r@[i].1@,
        forall|i: int, j: int| 0 <= i < j < r@.len() ==> r@[i].0 != r@[j].0,
        forall|k: u32| #[trigger]
            held(*m).contains_key(k) ==> exists|i: int| 0 <= i < r@.len() && r@[i].0 == k,
{
    m.iter().map(|e| (*e.key(), e.value().clone())).collect()
}

/// The text stored under `id` in `m`, if any.
pub open spec fn lookup(m: Map<u32, Seq<char>>, id: u32) -> Option<Seq<char>> {
    if m.contains_key(id) {
        Some(m[id])
    } else {
        None
    }
}

/// The characters of an optional text.
pub open spec fn text_of(o: Option<String>) -> Option<Seq<char>> {
    match o {
        Some(s) => Some(s@),
        None => None,
    }
}

/// What an insert-if-absent reports.
pub enum Outcome {
    /// This call stored the entry.
    Created,
    /// An entry for the id was already there; its text is handed back.
    Conflict(String),
}

impl Outcome {
    /// `None` for `Created`, the existing text for `Conflict`.
    pub open spec fn existing(self) -> Option<Seq<char>> {
        match self {
            Outcome::Created => None,
            Outcome::Conflict(t) => Some(t@),
        }
    }

    pub fn is_created(&self) -> (r: bool)
        ensures
            r == (self.existing() is None),
    {
        match self {
            Outcome::Created => true,
            Outcome::Conflict(_) => false,
        }
    }
}

/// The effect of one insert-if-absent on the registry's contents: the new
/// contents and what the call reports (`None` for created, else the text
/// that was already stored).
pub open spec fn insert_step(m: Map<u32, Seq<char>>, id: u32, text: Seq<char>) -> (Map<
    u32,
    Seq<char>,
>, Option<Seq<char>>) {
    if m.contains_key(id) {
        (m, Some(m[id]))
    } else {
        (m.insert(id, text), None)
    }
}

/// The registry of greetings. Entries are only ever added, never changed or
/// removed.
pub struct Registry {
    map: DashMap<u32, String>,
}

impl View for Registry {
    type V = Map<u32, Seq<char>>;

    closed spec fn view(&self) -> Map<u32, Seq<char>> {
        held(self.map)
    }
}

impl Registry {
    /// An empty registry.
    pub fn new() -> (r: Registry)
        ensures
            r@ == Map::<u32, Seq<char>>::empty(),
    {
        Registry { map: map_new() }
    }

    /// Stores `text` under `id` unless `id` is already taken. The check and
    /// the store are one step: of two calls for the same id exactly one
    /// reports `Created`.
    pub fn insert_if_absent(&mut self, id: u32, text: String) -> (r: Outcome)
        ensures
            (final(self)@, r.existing()) == insert_step(old(self)@, id, text@),
    {
        match map_insert_if_absent(&mut self.map, id, text) {
            Some(t) => Outcome::Conflict(t),
            None => Outcome::Created,
        }
    }

    /// The text stored under `id`, or `None` when there is none.
    pub fn get(&self, id: u32) -> (r: Option<String>)
        ensures
            text_of(r) == lookup(self@, id),
    {
        map_get(&self.map, id)
    }

    /// Every entry once, as `(id, text)`, in no particular order.
    pub fn list_all(&self) -> (r: Vec<(u32, String)>)
        ensures
            forall|i: int|
                0 <= i < r@.len() ==> #[trigger] lookup(self@, r@[i].0) == Some(r@[i].1@),
            forall|i: int, j: int| 0 <= i < j < r@.len() ==> r@[i].0 != r@[j].0,
            forall|k: u32| #[trigger]
                self@.contains_key(k) ==> exists|i: int| 0 <= i < r@.len() && r@[i].0 == k,
    {
        map_entries(&self.map)
    }
}

} // verus!
