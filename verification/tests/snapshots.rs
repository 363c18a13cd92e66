use std::cell::RefCell;
use std::collections::BTreeMap;

use ce_iam_core_wasm::snapshot::{perform_all, replacement, snapshot_text};
use ce_iam_core_wasm::{StoreEntry, StoreOp, VaultCore, WasmVault};
use serde_json::Value;

type Store = RefCell<BTreeMap<String, Value>>;

fn list(store: &Store, prefix: &str) -> Result<Vec<StoreEntry>, String> {
    let entries = store.borrow();
    Ok(entries
        .iter()
        .filter(|(key, _)| key.starts_with(prefix))
        .map(|(key, value)| StoreEntry { key: key.clone(), value: value.clone() })
        .collect())
}

fn open_list<'a>(
    store: &'a Store,
    prefix: &str,
) -> Result<(&'a Store, Vec<StoreEntry>), String> {
    list(store, prefix).map(|entries| (store, entries))
}

fn change<'a>(store: &'a Store, op: &StoreOp) -> Result<&'a Store, String> {
    match op {
        StoreOp::Del { key } => {
            store.borrow_mut().remove(key);
        }
        StoreOp::Put { key, value } => {
            store.borrow_mut().insert(key.clone(), value.clone());
        }
    }
    Ok(store)
}

fn open(_: &str, _: &str, _: &str) -> Result<Store, String> {
    Ok(RefCell::new(BTreeMap::new()))
}

fn native() -> VaultCore<Store> {
    VaultCore::new("{}", "ns", "2026-06-26T00:00:00.000Z", open).unwrap()
}

fn entry(key: &str, value: Value) -> StoreEntry {
    StoreEntry { key: key.to_string(), value }
}

fn shown(op: &StoreOp) -> String {
    match op {
        StoreOp::Del { key } => format!("del {}", key),
        StoreOp::Put { key, value } => format!("put {} {}", key, value),
    }
}

#[test]
fn an_empty_store_is_an_empty_object() {
    assert_eq!(native().snapshot(list).unwrap(), "{}");
}

#[test]
fn a_snapshot_is_an_object_in_the_order_of_keys() {
    let entries = vec![
        entry("s.b", Value::from("x")),
        entry("meta", Value::from(1u64)),
        entry("s.a", Value::from(true)),
    ];
    assert_eq!(snapshot_text(&entries), "{\"meta\":1,\"s.a\":true,\"s.b\":\"x\"}");
}

#[test]
fn of_entries_with_one_key_the_last_counts() {
    let entries = vec![entry("k", Value::from("old")), entry("k", Value::from("new"))];
    assert_eq!(snapshot_text(&entries), "{\"k\":\"new\"}");
}

#[test]
fn removals_come_before_settings() {
    let mut snapshot = serde_json::Map::new();
    snapshot.insert("b".to_string(), Value::from(2u64));
    snapshot.insert("a".to_string(), Value::from(1u64));
    let current = vec![entry("z", Value::Null), entry("a", Value::Null)];
    let ops: Vec<String> = replacement(&current, snapshot).iter().map(shown).collect();
    assert_eq!(ops, vec!["del z", "del a", "put a 1", "put b 2"]);
}

#[test]
fn loading_replaces_the_contents() {
    let vault = native();
    vault.load_snapshot("{\"a\":1,\"b\":2}", open_list, change).unwrap();
    vault.load_snapshot("{\"b\":{\"n\":null},\"c\":[1,\"x\"]}", open_list, change).unwrap();
    assert_eq!(vault.snapshot(list).unwrap(), "{\"b\":{\"n\":null},\"c\":[1,\"x\"]}");
}

#[test]
fn a_snapshot_reloads() {
    let text = "{\"d.1\":{\"label\":\"\\u0000\\\"\\\\ \u{e9}\u{1f600}\",\"n\":-9223372036854775808},\"g\":18446744073709551615,\"s\":[[],{},null,false]}";
    let first = native();
    first.load_snapshot(text, open_list, change).unwrap();
    let exported = first.snapshot(list).unwrap();
    assert_eq!(exported, text);
    let second = native();
    second.load_snapshot("{\"other\":0}", open_list, change).unwrap();
    second.load_snapshot(&exported, open_list, change).unwrap();
    assert_eq!(second.snapshot(list).unwrap(), exported);
}

#[test]
fn records_reload_up_to_the_depth_that_the_reader_follows() {
    let nested = |depth: usize| {
        let mut value = Value::from("x");
        for _ in 0..depth {
            value = Value::from(vec![value]);
        }
        value
    };
    let text = snapshot_text(&vec![entry("k", nested(126))]);
    let vault = native();
    vault.load_snapshot(&text, open_list, change).unwrap();
    assert_eq!(vault.snapshot(list).unwrap(), text);
    let deeper = snapshot_text(&vec![entry("k", nested(127))]);
    assert!(vault.load_snapshot(&deeper, open_list, change).is_err());
    assert_eq!(vault.snapshot(list).unwrap(), text);
}

#[test]
fn what_is_no_object_is_refused_and_nothing_changes() {
    let vault = native();
    vault.load_snapshot("{\"a\":1}", open_list, change).unwrap();
    for bad in ["", "null", "[]", "\"a\"", "{\"a\":1", "{\"a\":1,}", "{a:1}", "{} {}"] {
        let error = vault.load_snapshot(bad, open_list, change).unwrap_err();
        assert_eq!(
            error.message(),
            "parse snapshot JSON (expected an object of key -> record)"
        );
        assert_eq!(vault.snapshot(list).unwrap(), "{\"a\":1}");
    }
}

#[test]
fn store_errors_come_back() {
    let vault = native();
    let failing = |_: &Store, _: &str| -> Result<Vec<StoreEntry>, String> {
        Err("store is gone".to_string())
    };
    assert_eq!(vault.snapshot(failing).unwrap_err().message(), "store is gone");
    let failing = |_: &Store, _: &str| -> Result<(u8, Vec<StoreEntry>), String> {
        Err("store is gone".to_string())
    };
    let unused = |_: u8, _: &StoreOp| -> Result<u8, String> { panic!("must not be called") };
    assert_eq!(
        vault.load_snapshot("{}", failing, unused).unwrap_err().message(),
        "store is gone"
    );
}

#[test]
fn the_first_change_that_fails_is_the_last() {
    let ops = vec![
        StoreOp::Del { key: "a".to_string() },
        StoreOp::Del { key: "b".to_string() },
        StoreOp::Del { key: "c".to_string() },
    ];
    let made = RefCell::new(Vec::new());
    let result = perform_all(0u32, &ops, |count: u32, op: &StoreOp| {
        made.borrow_mut().push(shown(op));
        if count == 1 {
            Err("read-only".to_string())
        } else {
            Ok(count + 1)
        }
    });
    assert_eq!(result, Err("read-only".to_string()));
    assert_eq!(*made.borrow(), vec!["del a", "del b"]);
    assert_eq!(perform_all(5u32, &ops, |count: u32, _: &StoreOp| Ok(count + 1)), Ok(8));
}

#[test]
fn the_wasm_surface_throws_the_error_s_text() {
    let vault: WasmVault<Store> =
        WasmVault::new("{}", "ns", "2026-06-26T00:00:00.000Z", open).unwrap();
    assert_eq!(
        vault.load_snapshot("", open_list, change),
        Err("parse snapshot JSON (expected an object of key -> record)".to_string())
    );
    assert_eq!(vault.load_snapshot("{\"k\":\"v\"}", open_list, change), Ok(()));
    assert_eq!(vault.snapshot(list), Ok("{\"k\":\"v\"}".to_string()));
}

#[test]
fn a_replaced_store_holds_the_snapshot() {
    let mut start = BTreeMap::new();
    start.insert("a".to_string(), Value::from(1u64));
    start.insert("b".to_string(), Value::from(2u64));
    let current = vec![entry("b", Value::from(2u64)), entry("a", Value::from(1u64))];
    let mut snapshot = serde_json::Map::new();
    snapshot.insert("b".to_string(), Value::from("x"));
    snapshot.insert("c".to_string(), Value::Null);
    let ops = replacement(&current, snapshot);
    let end = perform_all(start, &ops, |store: BTreeMap<String, Value>, op: &StoreOp| {
        let mut store = store;
        match op {
            StoreOp::Del { key } => {
                store.remove(key);
            }
            StoreOp::Put { key, value } => {
                store.insert(key.clone(), value.clone());
            }
        }
        Ok(store)
    })
    .unwrap();
    assert_eq!(end.len(), 2);
    assert_eq!(end["b"], Value::from("x"));
    assert_eq!(end["c"], Value::Null);
}

#[test]
fn an_unreadable_snapshot_never_reaches_the_store() {
    let untouched = |_: &Store, _: &str| -> Result<(u8, Vec<StoreEntry>), String> {
        panic!("must not be listed")
    };
    let unchanged = |_: u8, _: &StoreOp| -> Result<u8, String> { panic!("must not be changed") };
    assert!(native().load_snapshot("[]", untouched, unchanged).is_err());
    assert!(native().load_snapshot("{", untouched, unchanged).is_err());
}

#[test]
fn each_change_is_made_once_in_turn() {
    let vault = native();
    vault.load_snapshot("{\"a\":1,\"b\":2}", open_list, change).unwrap();
    let made = RefCell::new(Vec::new());
    vault
        .load_snapshot("{\"b\":3,\"c\":4}", open_list, |store, op: &StoreOp| {
            made.borrow_mut().push(shown(op));
            change(store, op)
        })
        .unwrap();
    assert_eq!(*made.borrow(), vec!["del a", "del b", "put b 3", "put c 4"]);
}

#[test]
fn a_snapshot_reloads_with_its_floats() {
    let text = "{\"a\":{\"t\":[0.5,-2.25]},\"b\":1e+300}";
    let first = native();
    first.load_snapshot(text, open_list, change).unwrap();
    assert_eq!(first.snapshot(list).unwrap(), text);
    let second = native();
    second.load_snapshot(&first.snapshot(list).unwrap(), open_list, change).unwrap();
    assert_eq!(second.snapshot(list).unwrap(), text);
}
