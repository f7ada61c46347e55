use ai_model_catalog::snapshot::Snapshot;

#[test]
fn a_new_snapshot_is_empty() {
    let snapshot: Snapshot<u32> = Snapshot::new();
    assert_eq!(snapshot.len(), 0);
    assert!(snapshot.get(&"a".to_string()).is_none());
    assert!(snapshot.find(&"a".to_string()).is_none());
}

#[test]
fn insert_adds_new_keys_in_order() {
    let mut snapshot: Snapshot<u32> = Snapshot::new();
    snapshot.insert("b".to_string(), 2);
    snapshot.insert("a".to_string(), 1);
    snapshot.insert("c".to_string(), 3);
    assert_eq!(snapshot.len(), 3);
    assert_eq!(snapshot.key_at(0), "b");
    assert_eq!(snapshot.key_at(1), "a");
    assert_eq!(snapshot.key_at(2), "c");
    assert_eq!(*snapshot.record_at(0), 2);
    assert_eq!(*snapshot.record_at(1), 1);
    assert_eq!(*snapshot.record_at(2), 3);
    assert_eq!(snapshot.find(&"a".to_string()), Some(1));
    assert_eq!(snapshot.get(&"c".to_string()), Some(&3));
}

#[test]
fn insert_replaces_the_record_of_a_key_in_its_place() {
    let mut snapshot: Snapshot<&str> = Snapshot::new();
    snapshot.insert("x".to_string(), "first");
    snapshot.insert("y".to_string(), "other");
    snapshot.insert("x".to_string(), "second");
    assert_eq!(snapshot.len(), 2);
    assert_eq!(snapshot.key_at(0), "x");
    assert_eq!(*snapshot.record_at(0), "second");
    assert_eq!(snapshot.key_at(1), "y");
    assert_eq!(snapshot.get(&"x".to_string()), Some(&"second"));
    assert_eq!(snapshot.get(&"y".to_string()), Some(&"other"));
}

#[test]
fn keys_are_told_apart_exactly() {
    let mut snapshot: Snapshot<u8> = Snapshot::new();
    snapshot.insert("Key".to_string(), 1);
    snapshot.insert("key".to_string(), 2);
    snapshot.insert("".to_string(), 3);
    assert_eq!(snapshot.len(), 3);
    assert_eq!(snapshot.get(&"Key".to_string()), Some(&1));
    assert_eq!(snapshot.get(&"key".to_string()), Some(&2));
    assert_eq!(snapshot.get(&"".to_string()), Some(&3));
    assert!(snapshot.get(&"KEY".to_string()).is_none());
    assert!(snapshot.get(&"key ".to_string()).is_none());
}
