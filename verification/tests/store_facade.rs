use mpc_rendezvous::store::{Entry, Index, KvStore};

#[test]
fn set_then_get_returns_the_value_unchanged() {
    let mut store = KvStore::new();
    store.set(Entry { key: String::from("alpha"), value: String::from("one") });
    let entry = store.get(&Index { key: String::from("alpha") }).unwrap();
    assert_eq!(entry.key, "alpha");
    assert_eq!(entry.value, "one");
}

#[test]
fn get_on_an_unset_key_reports_not_found() {
    let store = KvStore::new();
    assert!(store.get(&Index { key: String::from("alpha") }).is_none());
}

#[test]
fn set_replaces_the_previous_value() {
    let mut store = KvStore::new();
    store.set(Entry { key: String::from("alpha"), value: String::from("one") });
    store.set(Entry { key: String::from("alpha"), value: String::from("two") });
    let entry = store.get(&Index { key: String::from("alpha") }).unwrap();
    assert_eq!(entry.value, "two");
}

#[test]
fn set_leaves_other_keys_untouched() {
    let mut store = KvStore::new();
    store.set(Entry { key: String::from("alpha"), value: String::from("one") });
    store.set(Entry { key: String::from("beta"), value: String::from("two") });
    let alpha = store.get(&Index { key: String::from("alpha") }).unwrap();
    assert_eq!(alpha.value, "one");
    assert!(store.get(&Index { key: String::from("gamma") }).is_none());
}
