//! The shared cache store: a concurrent map from keys to values.
//!
//! The map itself is `dashmap::DashMap`. Its entries are named by
//! `store_entries`; the functions here say what each operation does to them.
//! Operations that change the store take it by `&mut`, so that the entries
//! before and after a call are those of one owner. The map also lets its
//! entries be changed, and locked by a guard, through a shared reference;
//! what is stated here holds of a store that is changed through these
//! functions alone and into which no guard is held while they are called.

use vstd::prelude::*;
use crate::value::{Value, ValueView};

verus! {

/// Declares `dashmap::DashMap`. It is carried through as it is: nothing is
/// known of what is inside a map but what `store_entries` names.
#[verifier::external_type_specification]
#[verifier::external_body]
#[verifier::reject_recursive_types(K)]
#[verifier::reject_recursive_types(V)]
#[verifier::reject_recursive_types(S)]
pub struct ExDashMap<K, V, S>(dashmap::DashMap<K, V, S>);

/// The cache store.
pub type Db = dashmap::DashMap<String, Value>;

/// What a store holds: the content of each entry, by key.
pub uninterp spec fn store_entries(db: Db) -> Map<Seq<char>, ValueView>;

/// The entries of a store that holds nothing.
pub open spec fn no_entries() -> Map<Seq<char>, ValueView> {
    Map::empty()
}

/// What a read of `key` gives: the entry's content, or `Unit` when there
/// is no entry.
pub open spec fn read_entry(entries: Map<Seq<char>, ValueView>, key: Seq<char>) -> ValueView {
    if entries.dom().contains(key) {
        entries[key]
    } else {
        ValueView::Unit
    }
}

/// The text of each string of a sequence.
pub open spec fn texts(names: Seq<String>) -> Seq<Seq<char>> {
    names.map_values(|name: String| name@)
}

/// The entries that a list of pairs stands for; of two pairs with one key
/// the later one counts.
pub open spec fn listed_entries(pairs: Seq<(String, Value)>) -> Map<Seq<char>, ValueView>
    decreases pairs.len(),
{
    if pairs.len() == 0 {
        Map::empty()
    } else {
        listed_entries(pairs.drop_last()).insert(pairs.last().0@, pairs.last().1@)
    }
}

/// Calls `DashMap::new`.
///
/// Trusted: the new map has no entries.
#[verifier::external_body]
pub(crate) fn map_new() -> (db: Db)
    ensures
        store_entries(db) == no_entries(),
{
    dashmap::DashMap::new()
}

/// Calls `DashMap::insert`.
///
/// Trusted: afterwards the key is bound to the value and every other entry
/// is as before.
#[verifier::external_body]
pub(crate) fn map_insert(db: &mut Db, key: String, value: Value)
    ensures
        store_entries(*final(db)) == store_entries(*old(db)).insert(key@, value@),
{
    db.insert(key, value);
}

/// Calls `DashMap::get` and copies the value out of the guard.
///
/// Trusted: the result is the content bound to the key, and `None` exactly
/// when the key has no entry.
#[verifier::external_body]
pub(crate) fn map_get(db: &Db, key: &str) -> (found: Option<Value>)
    ensures
        found is Some <==> store_entries(*db).dom().contains(key@),
        found is Some ==> found->0@ == store_entries(*db)[key@],
{
    db.get(key).map(|entry| entry.value().clone())
}

/// Calls `DashMap::remove`.
///
/// Trusted: afterwards the key has no entry and every other entry is as
/// before; the result is the content that was bound to the key, and `None`
/// exactly when there was none.
#[verifier::external_body]
pub(crate) fn map_remove(db: &mut Db, key: &str) -> (removed: Option<Value>)
    ensures
        store_entries(*final(db)) == store_entries(*old(db)).remove(key@),
        removed is Some <==> store_entries(*old(db)).dom().contains(key@),
        removed is Some ==> removed->0@ == store_entries(*old(db))[key@],
{
    db.remove(key).map(|pair| pair.1)
}

/// Calls `DashMap::clear`.
///
/// Trusted: afterwards the map has no entries.
#[verifier::external_body]
pub(crate) fn map_clear(db: &mut Db)
    ensures
        store_entries(*final(db)) == no_entries(),
{
    db.clear();
}

/// Walks the map with `DashMap::iter` and copies each key.
///
/// Trusted: every key of the map is listed once and nothing else is; the
/// order is whatever the walk gave.
#[verifier::external_body]
pub(crate) fn map_keys(db: &Db) -> (names: Vec<String>)
    ensures
        texts(names@).no_duplicates(),
        texts(names@).to_set() == store_entries(*db).dom(),
{
    db.iter().map(|entry| entry.key().clone()).collect()
}

/// Walks the map with `DashMap::iter` and copies each entry.
///
/// Trusted: every entry of the map is listed once, with its content, and
/// nothing else is; the order is whatever the walk gave.
#[verifier::external_body]
pub(crate) fn map_pairs(db: &Db) -> (pairs: Vec<(String, Value)>)
    ensures
        texts(pairs@.map_values(|pair: (String, Value)| pair.0)).no_duplicates(),
        listed_entries(pairs@) == store_entries(*db),
{
    db.iter().map(|entry| (entry.key().clone(), entry.value().clone())).collect()
}

/// Makes an empty store.
pub fn empty_store() -> (db: Db)
    ensures
        store_entries(db) == no_entries(),
{
    map_new()
}

/// Reads the value bound to `key`: `Unit` when there is none.
pub fn read(db: &Db, key: &str) -> (value: Value)
    ensures
        value@ == read_entry(store_entries(*db), key@),
{
    match map_get(db, key) {
        Some(value) => value,
        None => Value::Unit,
    }
}

/// Builds a store from a list of entries; of two entries with one key the
/// later one stays.
pub fn restore(pairs: Vec<(String, Value)>) -> (db: Db)
    ensures
        store_entries(db) == listed_entries(pairs@),
{
    let mut db = map_new();
    let mut i: usize = 0;
    while i < pairs.len()
        invariant
            i <= pairs.len(),
            store_entries(db) == listed_entries(pairs@.subrange(0, i as int)),
        decreases pairs.len() - i,
    {
        let key = pairs[i].0.clone();
        let value = pairs[i].1.duplicate();
        proof {
            let upto = pairs@.subrange(0, i as int + 1);
            assert(upto.drop_last() =~= pairs@.subrange(0, i as int));
            assert(upto.last() == pairs@[i as int]);
        }
        map_insert(&mut db, key, value);
        i += 1;
    }
    proof {
        assert(pairs@.subrange(0, pairs.len() as int) =~= pairs@);
    }
    db
}

} // verus!
