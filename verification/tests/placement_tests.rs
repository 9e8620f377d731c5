use panpan::placement::FileStore;

#[test]
fn lookup_finds_placed_content() {
    let mut store = FileStore::new();
    store.place("libs/a/libpanpan.so".to_string(), vec![1, 2, 3]);
    assert_eq!(store.lookup("libs/a/libpanpan.so"), Some(&vec![1, 2, 3]));
    assert_eq!(store.lookup("libs/b/libpanpan.so"), None);
}

#[test]
fn placement_is_last_write_wins() {
    let mut store = FileStore::new();
    store.place("libs/a/libpanpan.so".to_string(), vec![1]);
    store.place("libs/a/libpanpan.so".to_string(), vec![2, 2]);
    assert_eq!(store.lookup("libs/a/libpanpan.so"), Some(&vec![2, 2]));
}

#[test]
fn placing_the_same_artifact_twice_is_idempotent() {
    let mut once = FileStore::new();
    once.place("dest".to_string(), vec![7, 7]);

    let mut twice = FileStore::new();
    twice.place("dest".to_string(), vec![7, 7]);
    twice.place("dest".to_string(), vec![7, 7]);

    assert_eq!(once.lookup("dest"), twice.lookup("dest"));
    assert_eq!(twice.lookup("dest"), Some(&vec![7, 7]));
}

#[test]
fn distinct_destinations_stay_separate() {
    let mut store = FileStore::new();
    store.place("a".to_string(), vec![1]);
    store.place("b".to_string(), vec![2]);
    store.place("a".to_string(), vec![3]);
    assert_eq!(store.lookup("a"), Some(&vec![3]));
    assert_eq!(store.lookup("b"), Some(&vec![2]));
}
