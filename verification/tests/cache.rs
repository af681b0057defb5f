use simple_cache_rs::SimpleCache;

#[test]
fn insert_and_get_item() {
    let mut scache = SimpleCache::new(None);
    scache.insert(1, String::from("hello"));

    let v = scache.get(&1);
    assert_eq!(Some(String::from("hello")), v)
}

#[test]
fn insert_and_get_item_and_remove() {
    let mut scache = SimpleCache::new(None);
    scache.insert(1, String::from("hello"));

    let v = scache.get(&1);
    assert_eq!(Some(String::from("hello")), v);

    scache.delete(&1);

    let no_value = scache.get(&1);
    assert_eq!(None, no_value)
}

#[test]
fn insert_batch_test() {
    let mut scache = SimpleCache::new(None);

    scache.insert_batch(vec![(1, String::from("hello")), (2, String::from("world"))]);

    let values = scache.values();

    assert!(values.contains(&String::from("hello")));
    assert!(values.contains(&String::from("world")))
}

#[test]
fn get_keys_test() {
    let mut scache = SimpleCache::new(None);
    scache.insert(1, String::from("hello"));

    let keys = scache.keys();
    assert_eq!(keys, vec!(1))
}

#[test]
fn get_values_test() {
    let mut scache = SimpleCache::new(None);
    scache.insert(1, String::from("hello"));

    let values = scache.values();
    assert_eq!(values, vec!("hello"))
}

const SECOND: u64 = 1_000_000_000;

#[test]
fn insert_with_timeout() {
    let timeout = SECOND;
    let mut scache = SimpleCache::new(Some(timeout));

    scache.insert_at(1, String::from("hello"), 0);

    let v = scache.get_at(&1, SECOND + 1);
    assert_eq!(None, v)
}

#[test]
fn no_ttl_entry_survives_any_delay() {
    let mut scache = SimpleCache::new(None);
    scache.insert_at(1, String::from("hello"), 0);

    assert_eq!(Some(String::from("hello")), scache.get_at(&1, 0));
    assert_eq!(Some(String::from("hello")), scache.get_at(&1, u64::MAX));
}

#[test]
fn overwrite_returns_prior_value() {
    let mut scache = SimpleCache::new(None);

    assert_eq!(None, scache.insert(1, String::from("first")));
    assert_eq!(
        Some(String::from("first")),
        scache.insert(1, String::from("second"))
    );
    assert_eq!(Some(String::from("second")), scache.get(&1));
}

#[test]
fn delete_absent_key_is_a_no_op() {
    let mut scache = SimpleCache::new(None);
    scache.insert(2, String::from("kept"));

    assert_eq!(None, scache.delete(&1));
    assert_eq!(None, scache.delete(&1));
    assert_eq!(vec![2], scache.keys());
    assert_eq!(Some(String::from("kept")), scache.get(&2));
}

#[test]
fn entry_is_live_just_before_the_horizon() {
    let mut scache = SimpleCache::new(Some(SECOND));
    scache.insert_at(1, String::from("hello"), 0);

    assert_eq!(Some(String::from("hello")), scache.get_at(&1, SECOND - 1));
}

#[test]
fn lazy_expiration_purges_the_key() {
    let mut scache = SimpleCache::new(Some(SECOND));
    scache.insert_at(1, String::from("hello"), 0);

    assert!(scache.keys().contains(&1));
    assert_eq!(None, scache.get_at(&1, SECOND + 1));
    assert!(scache.keys().is_empty());
}

#[test]
fn reinsertion_restarts_the_ttl_window() {
    let mut scache = SimpleCache::new(Some(SECOND));
    scache.insert_at(1, String::from("old"), 0);
    scache.insert_at(1, String::from("new"), SECOND - 1);

    assert_eq!(Some(String::from("new")), scache.get_at(&1, SECOND + 1));
    assert_eq!(None, scache.get_at(&1, 2 * SECOND - 1));
}

#[test]
fn batch_shares_one_timestamp() {
    let mut scache = SimpleCache::new(Some(SECOND));
    scache.insert_batch_at(vec![(1, String::from("a")), (2, String::from("b"))], 5);

    assert_eq!(Some(String::from("a")), scache.get_at(&1, SECOND + 4));
    assert_eq!(Some(String::from("b")), scache.get_at(&2, SECOND + 4));
    assert_eq!(None, scache.get_at(&1, SECOND + 5));
    assert_eq!(None, scache.get_at(&2, SECOND + 5));
}

#[test]
fn batch_duplicate_key_keeps_the_later_value() {
    let mut scache = SimpleCache::new(None);
    scache.insert_batch(vec![(1, String::from("first")), (1, String::from("second"))]);

    assert_eq!(Some(String::from("second")), scache.get(&1));
    assert_eq!(vec![1], scache.keys());
}

#[test]
fn snapshots_are_independent_of_later_mutation() {
    let mut scache = SimpleCache::new(None);
    scache.insert(1, String::from("hello"));

    let keys = scache.keys();
    let values = scache.values();

    scache.insert(1, String::from("changed"));
    scache.insert(2, String::from("added"));
    scache.delete(&1);

    assert_eq!(vec![1], keys);
    assert_eq!(vec![String::from("hello")], values);
}

#[test]
fn batch_scenario_fills_keys_and_values() {
    let mut scache = SimpleCache::new(None);
    scache.insert_batch(vec![(1, String::from("hello")), (2, String::from("world"))]);

    let mut keys = scache.keys();
    keys.sort();
    assert_eq!(vec![1, 2], keys);

    let mut values = scache.values();
    values.sort();
    assert_eq!(vec![String::from("hello"), String::from("world")], values);
}
