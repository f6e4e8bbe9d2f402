//! The registry's storage: full records kept under an email.
//!
//! The records live in a [`DashMap`]. Verus does not look inside it: what it
//! holds is named by [`dashmap_records`], and the four functions below that
//! touch it are believed, not proved. Everything else in this crate is proved
//! from what they state.

use crate::user::{User, UserView};
use dashmap::DashMap;
use vstd::prelude::*;

verus! {

/// `dashmap::DashMap`, taken as it is: nothing inside it is visible to a proof.
#[verifier::external_type_specification]
#[verifier::external_body]
#[verifier::reject_recursive_types(K)]
#[verifier::reject_recursive_types(V)]
#[verifier::reject_recursive_types(S)]
pub struct ExDashMap<K, V, S>(DashMap<K, V, S>);

/// The entries of a `DashMap` of user records: each key's text, and the value
/// of the record kept under it.
pub uninterp spec fn dashmap_records(map: &DashMap<String, User>) -> Map<Seq<char>, UserView>;

/// `DashMap::new`: a map that holds no entry.
#[verifier::external_body]
fn dashmap_new() -> (fresh: DashMap<String, User>)
    ensures
        dashmap_records(&fresh) =~= Map::empty(),
{
    DashMap::new()
}

/// `DashMap::contains_key`: whether an entry is kept under `key`. Two keys are
/// the same when their texts are.
#[verifier::external_body]
fn dashmap_contains_key(map: &DashMap<String, User>, key: &str) -> (found: bool)
    ensures
        found == dashmap_records(map).contains_key(key@),
{
    map.contains_key(key)
}

/// `DashMap::insert`: afterwards `value` is kept under `key` and every other
/// entry is as before. The value that `key` held before, if any, is handed
/// back.
#[verifier::external_body]
fn dashmap_insert(map: &mut DashMap<String, User>, key: String, value: User) -> (previous: Option<
    User,
>)
    ensures
        dashmap_records(final(map)) == dashmap_records(old(map)).insert(key@, value@),
        match previous {
            Some(record) => dashmap_records(old(map)).contains_key(key@) && record@
                == dashmap_records(old(map))[key@],
            None => !dashmap_records(old(map)).contains_key(key@),
        },
{
    map.insert(key, value)
}

/// `DashMap::get`, with the entry it refers to copied out: the record kept
/// under `key`, or `None` where there is none.
#[verifier::external_body]
fn dashmap_get(map: &DashMap<String, User>, key: &str) -> (found: Option<User>)
    ensures
        match found {
            Some(record) => dashmap_records(map).contains_key(key@) && record@ == dashmap_records(
                map,
            )[key@],
            None => !dashmap_records(map).contains_key(key@),
        },
{
    map.get(key).map(|entry| entry.value().clone())
}

/// The registry's records, each kept under an email.
///
/// Nothing is ever removed or replaced: the only way in is
/// [`Store::insert_if_absent`].
pub struct Store {
    records: DashMap<String, User>,
}

impl View for Store {
    type V = Map<Seq<char>, UserView>;

    closed spec fn view(&self) -> Map<Seq<char>, UserView> {
        dashmap_records(&self.records)
    }
}

impl Store {
    /// A store that holds no record.
    pub fn new() -> (store: Store)
        ensures
            store@ =~= Map::empty(),
    {
        Store { records: dashmap_new() }
    }

    /// Whether a record is kept under `email`.
    pub fn contains(&self, email: &str) -> (present: bool)
        ensures
            present == self@.contains_key(email@),
    {
        dashmap_contains_key(&self.records, email)
    }

    /// A copy of the record kept under `email`, if there is one.
    pub fn get(&self, email: &str) -> (found: Option<User>)
        ensures
            match found {
                Some(record) => self@.contains_key(email@) && record@ == self@[email@],
                None => !self@.contains_key(email@),
            },
    {
        dashmap_get(&self.records, email)
    }

    /// Keeps `record` under `email` unless a record is already kept there, and
    /// says whether it did. An email that is taken keeps its record, and no
    /// other entry changes either way.
    ///
    /// The exclusive borrow makes the test and the insertion one step: nothing
    /// else can reach the store between them.
    pub fn insert_if_absent(&mut self, email: String, record: User) -> (inserted: bool)
        ensures
            inserted == !old(self)@.contains_key(email@),
            final(self)@ == if inserted {
                old(self)@.insert(email@, record@)
            } else {
                old(self)@
            },
    {
        if dashmap_contains_key(&self.records, email.as_str()) {
            false
        } else {
            let _ = dashmap_insert(&mut self.records, email, record);
            true
        }
    }
}

} // verus!
