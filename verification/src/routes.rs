//! What each data endpoint does to the store and what it replies.
//!
//! A write or a delete also gives the event that is to be published for
//! propagation, after the store has changed.

use vstd::prelude::*;
use crate::responses::{DelResponse, GetResponse, KeysResponse, PingResponse, PurgeResponse, SetResponse};
use crate::store::{
    map_clear, map_insert, map_keys, map_remove, no_entries, read, read_entry, store_entries, texts,
    Db,
};
use crate::transport::Message;
use crate::value::{Value, ValueView};

pub mod internal;

verus! {

/// The content of the status that an accepted write is answered with:
/// the string `ok`.
pub open spec fn ok_status() -> ValueView {
    ValueView::String("ok"@)
}

/// The reply to an accepted write.
pub fn ok_reponse() -> (response: SetResponse)
    ensures
        response.status@ == ok_status(),
{
    SetResponse { status: Value::String("ok".to_owned()) }
}

/// Reads `name`: the reply holds its value, or `Unit` when there is none.
/// The store is left as it is.
pub fn getter(cache: &Db, name: &str) -> (response: GetResponse)
    ensures
        response.data@ == read_entry(store_entries(*cache), name@),
{
    GetResponse { data: read(cache, name) }
}

/// Binds `name` to `value` and gives the event to publish.
pub fn setter(cache: &mut Db, name: String, value: Value) -> (done: (SetResponse, Message))
    ensures
        store_entries(*final(cache)) == store_entries(*old(cache)).insert(name@, value@),
        done.0.status@ == ok_status(),
        done.1 is Created,
        done.1.key() == name@,
        done.1.payload() == value@,
{
    map_insert(cache, name.clone(), value.clone());
    (ok_reponse(), Message::Created(name, value))
}

/// Removes the entry of `name`, tells whether there was one, and gives
/// the event to publish. The event is given whether or not an entry was
/// removed.
pub fn deleter(cache: &mut Db, name: String) -> (done: (DelResponse, Message))
    ensures
        store_entries(*final(cache)) == store_entries(*old(cache)).remove(name@),
        done.0.deleted == store_entries(*old(cache)).dom().contains(name@),
        done.1 is Deleted,
        done.1.key() == name@,
{
    let deleted = map_remove(cache, name.as_str()).is_some();
    (DelResponse { deleted }, Message::Deleted(name))
}

/// Removes every entry.
pub fn purge(cache: &mut Db) -> (response: PurgeResponse)
    ensures
        store_entries(*final(cache)) == no_entries(),
        response.purged,
{
    map_clear(cache);
    PurgeResponse { purged: true }
}

/// Answers a liveness probe.
pub fn ping() -> (response: PingResponse)
    ensures
        response.pong,
{
    PingResponse { pong: true }
}

/// Lists the keys, each once, in no particular order.
pub fn keys(cache: &Db) -> (response: KeysResponse)
    ensures
        texts(response.keys@).no_duplicates(),
        texts(response.keys@).to_set() == store_entries(*cache).dom(),
{
    KeysResponse { keys: map_keys(cache) }
}

/// A key reads as `Unit` until it is set, as the value after it is set,
/// and as `Unit` again after it is deleted; a delete reports an entry
/// exactly when there was one, so a second delete reports none.
pub proof fn lemma_read_write_delete(
    entries: Map<Seq<char>, ValueView>,
    key: Seq<char>,
    value: ValueView,
)
    ensures
        !entries.dom().contains(key) ==> read_entry(entries, key) == ValueView::Unit,
        read_entry(entries.insert(key, value), key) == value,
        entries.insert(key, value).dom().contains(key),
        read_entry(entries.insert(key, value).remove(key), key) == ValueView::Unit,
        read_entry(entries.remove(key), key) == ValueView::Unit,
        !entries.remove(key).dom().contains(key),
        !entries.insert(key, value).remove(key).remove(key).dom().contains(key),
{
}

/// A write or a delete of one key leaves what every other key reads as.
pub proof fn lemma_other_keys_untouched(
    entries: Map<Seq<char>, ValueView>,
    key: Seq<char>,
    value: ValueView,
    other: Seq<char>,
)
    requires
        other != key,
    ensures
        read_entry(entries.insert(key, value), other) == read_entry(entries, other),
        read_entry(entries.remove(key), other) == read_entry(entries, other),
{
}

/// After a purge every key reads as `Unit` and the listing of keys is
/// empty.
pub proof fn lemma_purged_store_is_empty(key: Seq<char>, listing: Seq<Seq<char>>)
    requires
        listing.to_set() == no_entries().dom(),
    ensures
        read_entry(no_entries(), key) == ValueView::Unit,
        listing.len() == 0,
{
    if listing.len() > 0 {
        assert(listing.to_set().contains(listing[0]));
    }
}

} // verus!
