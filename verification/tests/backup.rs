use racher::backup::{recognise, snapshot_name};
use racher::cli::{clean_data_dir, fetch_data_dir_filenames, fs_loop, load_from_backup};
use racher::config::RuntimeConfig;
use racher::routes::{getter, keys, setter};
use racher::store::{empty_store, restore};
use racher::value::Value;

fn names(list: &[&str]) -> Vec<String> {
    list.iter().map(|name| name.to_string()).collect()
}

fn keeping(amount: usize) -> RuntimeConfig {
    let mut config = RuntimeConfig::default();
    config.backup_amount = amount;
    config
}

#[test]
fn snapshot_is_named_by_its_time() {
    let config = RuntimeConfig::default();
    let mut store = empty_store();
    setter(&mut store, String::from("k"), Value::U64(1));
    let turn = fs_loop(&config, &store, 1431648000, 26_490_000).unwrap();
    assert_eq!(turn.file_name, "racher-20150515T000000026490.json");
    assert_eq!(turn.dir, "datadir");
    assert_eq!(turn.entries, vec![(String::from("k"), Value::U64(1))]);
}

#[test]
fn snapshot_time_has_microseconds() {
    let config = RuntimeConfig::default();
    let store = empty_store();
    assert_eq!(
        fs_loop(&config, &store, 0, 0).unwrap().file_name,
        "racher-19700101T000000000000.json"
    );
    assert_eq!(
        fs_loop(&config, &store, 1_700_000_000, 999_999_999).unwrap().file_name,
        "racher-20231114T221320999999.json"
    );
}

#[test]
fn snapshot_outside_the_calendar_is_none() {
    let config = RuntimeConfig::default();
    let store = empty_store();
    assert!(fs_loop(&config, &store, i64::MAX, 0).is_none());
    assert!(fs_loop(&config, &store, 0, 2_000_000_000).is_none());
}

#[test]
fn later_snapshots_have_later_names() {
    let config = RuntimeConfig::default();
    let store = empty_store();
    let first = fs_loop(&config, &store, 1_700_000_000, 1_000).unwrap().file_name;
    let second = fs_loop(&config, &store, 1_700_000_000, 2_000).unwrap().file_name;
    let third = fs_loop(&config, &store, 1_700_000_001, 0).unwrap().file_name;
    assert!(first < second);
    assert!(second < third);
}

#[test]
fn snapshot_names() {
    assert_eq!(snapshot_name("20150515T000000026490"), "racher-20150515T000000026490.json");
    assert_eq!(snapshot_name(""), "racher-.json");
    assert!(recognise(&snapshot_name("x")));
}

#[test]
fn snapshots_are_recognised_by_their_prefix() {
    assert!(recognise("racher-20150515T000000026490.json"));
    assert!(recognise("racher"));
    assert!(recognise("racherx"));
    assert!(!recognise("rache"));
    assert!(!recognise(""));
    assert!(!recognise("Racher-1.json"));
    assert!(!recognise("a-racher-1.json"));
    assert!(!recognise("r\u{e4}cher-1"));
}

#[test]
fn listing_keeps_snapshots_in_ascending_order() {
    let found = names(&[
        "racher-20200102T000000000000.json",
        "notes.txt",
        "racher-20200101T000000000000.json",
        "racher-20191231T235959999999.json",
        ".hidden",
    ]);
    assert_eq!(
        fetch_data_dir_filenames(found),
        names(&[
            "racher-20191231T235959999999.json",
            "racher-20200101T000000000000.json",
            "racher-20200102T000000000000.json",
        ])
    );
}

#[test]
fn listing_of_nothing_is_empty() {
    assert!(fetch_data_dir_filenames(Vec::new()).is_empty());
    assert!(fetch_data_dir_filenames(names(&["a", "b"])).is_empty());
}

#[test]
fn pruning_removes_all_but_the_newest() {
    let found = names(&["racher-1", "racher-2", "racher-3", "racher-4", "racher-5"]);
    assert_eq!(clean_data_dir(&keeping(2), &found), names(&["racher-3", "racher-2", "racher-1"]));
    assert_eq!(clean_data_dir(&keeping(4), &found), names(&["racher-1"]));
    assert!(clean_data_dir(&keeping(5), &found).is_empty());
    assert!(clean_data_dir(&keeping(9), &found).is_empty());
    assert_eq!(clean_data_dir(&keeping(0), &found).len(), 5);
    assert!(clean_data_dir(&keeping(0), &Vec::new()).is_empty());
}

#[test]
fn retention_over_many_cycles() {
    let config = keeping(3);
    let store = empty_store();
    let mut on_disk: Vec<String> = Vec::new();
    for cycle in 0..8 {
        let turn = fs_loop(&config, &store, 1_700_000_000 + cycle, 0).unwrap();
        on_disk.push(turn.file_name);
        let listed = fetch_data_dir_filenames(on_disk.clone());
        let doomed = clean_data_dir(&config, &listed);
        on_disk.retain(|name| !doomed.contains(name));
    }
    assert_eq!(
        fetch_data_dir_filenames(on_disk),
        names(&[
            "racher-20231114T221325000000.json",
            "racher-20231114T221326000000.json",
            "racher-20231114T221327000000.json",
        ])
    );
}

#[test]
fn start_loads_the_newest_snapshot() {
    let config = RuntimeConfig::default();
    let found = fetch_data_dir_filenames(names(&["racher-2", "racher-3", "racher-1"]));
    assert_eq!(load_from_backup(&config, &found), Some(String::from("racher-3")));
}

#[test]
fn start_loads_nothing_when_told_to_skip_or_when_nothing_is_there() {
    let mut config = RuntimeConfig::default();
    assert_eq!(load_from_backup(&config, &Vec::new()), None);
    config.backup_skip_loading = true;
    assert_eq!(load_from_backup(&config, &names(&["racher-1"])), None);
    assert_eq!(load_from_backup(&config, &Vec::new()), None);
}

#[test]
fn restart_restores_the_newest_snapshot() {
    let config = keeping(2);
    let mut store = empty_store();
    let mut disk: Vec<(String, Vec<(String, Value)>)> = Vec::new();

    setter(&mut store, String::from("a"), Value::U64(1));
    let first = fs_loop(&config, &store, 1_700_000_000, 0).unwrap();
    disk.push((first.file_name, first.entries));

    setter(&mut store, String::from("b"), Value::U64(2));
    setter(&mut store, String::from("a"), Value::U64(3));
    let second = fs_loop(&config, &store, 1_700_000_010, 0).unwrap();
    disk.push((second.file_name, second.entries));

    setter(&mut store, String::from("c"), Value::U64(4));

    let found = fetch_data_dir_filenames(disk.iter().map(|file| file.0.clone()).collect());
    let chosen = load_from_backup(&config, &found).unwrap();
    assert_eq!(chosen, "racher-20231114T221330000000.json");
    let entries = disk.into_iter().find(|file| file.0 == chosen).unwrap().1;
    let restarted = restore(entries);

    assert_eq!(getter(&restarted, "a").data, Value::U64(3));
    assert_eq!(getter(&restarted, "b").data, Value::U64(2));
    assert_eq!(getter(&restarted, "c").data, Value::Unit);
    assert_eq!(keys(&restarted).keys.len(), 2);
}

#[test]
fn start_without_snapshots_serves_an_empty_store() {
    let config = RuntimeConfig::default();
    let found = fetch_data_dir_filenames(vec![String::from("notes.txt")]);
    assert_eq!(load_from_backup(&config, &found), None);
    assert!(keys(&empty_store()).keys.is_empty());
}
