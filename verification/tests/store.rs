use dashmap::DashMap;
use racher::responses::{DelResponse, GetResponse, PurgeResponse, SetResponse};
use racher::routes;
use racher::routes::internal::{inner_sync, SyncRequest};
use racher::config::RuntimeConfig;
use racher::store::{empty_store, read, restore, Db};
use racher::transport::Message;
use racher::value::Value;

fn two_entries() -> Db {
    let map = DashMap::new();
    map.insert(String::from("testing"), Value::Bool(true));
    map.insert(String::from("another"), Value::Bool(true));
    map
}

#[test]
fn get_not_existing() {
    let cache: Db = DashMap::new();
    let value = routes::getter(&cache, "not-existing");
    let expected = GetResponse { data: Value::Unit };
    assert_eq!(value, expected);
}

#[test]
fn get_existing() {
    let map = DashMap::new();
    map.insert(String::from("testing"), Value::Bool(true));
    let cache: Db = map;
    let value = routes::getter(&cache, "testing");
    let expected = GetResponse { data: Value::Bool(true) };
    assert_eq!(value, expected);
}

#[test]
fn set() {
    let mut cache: Db = DashMap::new();
    let (value, _) = routes::setter(&mut cache, String::from("testing"), Value::U64(123));
    assert_eq!(value, SetResponse { status: Value::String("ok".into()) });

    let value = routes::getter(&cache, "testing");
    let expected = GetResponse { data: Value::U64(123) };
    assert_eq!(value, expected);

    // has been set in the cache
    assert_eq!(&Value::U64(123), cache.get("testing").unwrap().value());
}

#[test]
fn set_publishes_the_write() {
    let mut cache: Db = DashMap::new();
    let (_, message) = routes::setter(&mut cache, String::from("k"), Value::I64(-5));
    match message {
        Message::Created(key, value) => {
            assert_eq!(key, "k");
            assert_eq!(value, Value::I64(-5));
        }
        Message::Deleted(_) => panic!("a write publishes a creation"),
    }
}

#[test]
fn keys() {
    let map = DashMap::new();
    map.insert(String::from("testing"), Value::Bool(true));
    map.insert(String::from("another"), Value::Bool(true));
    let cache: Db = map;

    let value = routes::keys(&cache);
    let mut keys = value.keys;
    keys.sort();

    assert_eq!(keys, vec!["another", "testing"]);
}

#[test]
fn delete_existing() {
    let mut cache = two_entries();

    assert!(cache.contains_key("testing"));
    assert!(cache.contains_key("another"));

    let (value, message) = routes::deleter(&mut cache, String::from("testing"));
    let expected = DelResponse { deleted: true };
    assert_eq!(expected, value);
    assert!(matches!(message, Message::Deleted(key) if key == "testing"));

    assert!(!cache.contains_key("testing"));
    assert!(cache.contains_key("another"));
}

#[test]
fn delete_not_existing() {
    let mut cache = two_entries();

    assert!(cache.contains_key("testing"));
    assert!(cache.contains_key("another"));

    let (value, message) = routes::deleter(&mut cache, String::from("something"));
    let expected = DelResponse { deleted: false };
    assert_eq!(expected, value);
    assert!(matches!(message, Message::Deleted(key) if key == "something"));

    assert!(cache.contains_key("testing"));
    assert!(cache.contains_key("another"));
}

#[test]
fn purge() {
    let mut cache = two_entries();

    assert!(cache.contains_key("testing"));
    assert!(cache.contains_key("another"));

    let value = routes::purge(&mut cache);
    let expected = PurgeResponse { purged: true };
    assert_eq!(expected, value);

    assert!(!cache.contains_key("testing"));
    assert!(!cache.contains_key("another"));
}

#[test]
fn ping_answers_pong() {
    assert!(routes::ping().pong);
}

#[test]
fn read_write_delete_cycle() {
    let mut cache = empty_store();
    assert_eq!(routes::getter(&cache, "k").data, Value::Unit);
    routes::setter(&mut cache, String::from("k"), Value::String("v".into()));
    assert_eq!(routes::getter(&cache, "k").data, Value::String("v".into()));
    let (first, _) = routes::deleter(&mut cache, String::from("k"));
    assert!(first.deleted);
    assert_eq!(routes::getter(&cache, "k").data, Value::Unit);
    let (second, _) = routes::deleter(&mut cache, String::from("k"));
    assert!(!second.deleted);
}

#[test]
fn write_replaces_the_value() {
    let mut cache = empty_store();
    routes::setter(&mut cache, String::from("k"), Value::U64(1));
    routes::setter(&mut cache, String::from("k"), Value::U64(2));
    assert_eq!(routes::getter(&cache, "k").data, Value::U64(2));
    assert_eq!(routes::keys(&cache).keys, vec!["k"]);
}

#[test]
fn purge_empties_the_store() {
    let mut cache = two_entries();
    routes::purge(&mut cache);
    assert_eq!(routes::getter(&cache, "testing").data, Value::Unit);
    assert_eq!(routes::getter(&cache, "another").data, Value::Unit);
    assert!(routes::keys(&cache).keys.is_empty());
}

#[test]
fn purge_of_an_empty_store() {
    let mut cache = empty_store();
    assert!(routes::purge(&mut cache).purged);
    assert!(routes::keys(&cache).keys.is_empty());
}

#[test]
fn read_gives_unit_for_a_missing_key() {
    let mut db = empty_store();
    assert!(routes::keys(&db).keys.is_empty());
    assert_eq!(read(&db, "a"), Value::Unit);
    routes::setter(&mut db, String::from("a"), Value::Bool(false));
    assert_eq!(read(&db, "a"), Value::Bool(false));
    assert_eq!(read(&db, "b"), Value::Unit);
}

#[test]
fn snapshot_and_restore_round_trip() {
    let mut db = empty_store();
    routes::setter(&mut db, String::from("n"), Value::F64(0x3ff8000000000000));
    routes::setter(
        &mut db,
        String::from("list"),
        Value::Array(vec![Value::Unit, Value::I64(-1), Value::String("x".into())]),
    );
    routes::setter(
        &mut db,
        String::from("map"),
        Value::Object(vec![(String::from("inner"), Value::Array(vec![Value::Bool(true)]))]),
    );
    let config = RuntimeConfig::default();
    let request = SyncRequest { code: config.base_code.clone() };
    let mut pairs = inner_sync(&request, &db, &config).unwrap();
    pairs.sort_by(|a, b| a.0.cmp(&b.0));
    assert_eq!(pairs.len(), 3);
    assert_eq!(pairs[0].0, "list");
    assert_eq!(pairs[1].0, "map");
    assert_eq!(pairs[2], (String::from("n"), Value::F64(0x3ff8000000000000)));

    let copy = restore(pairs);
    assert_eq!(read(&copy, "list"), read(&db, "list"));
    assert_eq!(read(&copy, "map"), read(&db, "map"));
    assert_eq!(read(&copy, "n"), read(&db, "n"));
    assert_eq!(routes::keys(&copy).keys.len(), 3);
}

#[test]
fn restore_keeps_the_later_of_two_entries() {
    let db = restore(vec![
        (String::from("k"), Value::U64(1)),
        (String::from("k"), Value::U64(2)),
    ]);
    assert_eq!(read(&db, "k"), Value::U64(2));
    assert_eq!(routes::keys(&db).keys, vec!["k"]);
}

#[test]
fn value_copies_are_equal_and_deep() {
    let value = Value::Object(vec![
        (String::from("a"), Value::Array(vec![Value::U64(1), Value::Bool(true)])),
        (String::from("b"), Value::String("text".into())),
    ]);
    let copy = value.clone();
    assert_eq!(copy, value);
    assert_eq!(value.duplicate(), value);
    assert_ne!(Value::U64(1), Value::I64(1));
}
