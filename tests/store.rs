use stainlessdb::database::{Database, StringType};

#[test]
fn test_set() {
    let mut db = Database::new();

    let old_val = db.set("key1", "value1");
    assert_eq!(old_val, None);

    let old_val = db.set("key1", "value2");
    assert_eq!(old_val, Some("value1".to_string()));
}

#[test]
fn test_get() {
    let mut db = Database::new();

    db.set("key1", "value1");

    let val = db.get("key1");
    assert_eq!(val, Some("value1".to_string()));

    let val = db.get("key2");
    assert_eq!(val, None);
}

#[test]
fn test_delete() {
    let mut db = Database::new();

    db.set("key1", "value1");

    let deleted_val = db.delete("key1");
    assert_eq!(deleted_val, Some("value1".to_string()));

    let deleted_val = db.delete("key2");
    assert_eq!(deleted_val, None);
}

#[test]
fn set_twice_keeps_second_value() {
    let mut db = Database::new();
    assert_eq!(db.set("k", "v1"), None);
    assert_eq!(db.set("k", "v2"), Some("v1".to_string()));
    assert_eq!(db.get("k"), Some("v2".to_string()));
}

#[test]
fn unset_key_is_absent() {
    let mut db = Database::new();
    assert_eq!(db.get("never"), None);
    assert_eq!(db.delete("never"), None);
    assert_eq!(db.get("never"), None);
}

#[test]
fn set_then_delete_removes() {
    let mut db = Database::new();
    db.set("k", "v");
    assert_eq!(db.delete("k"), Some("v".to_string()));
    assert_eq!(db.get("k"), None);
    assert_eq!(db.delete("k"), None);
}

#[test]
fn empty_key_and_value_are_valid() {
    let mut db = Database::new();
    assert_eq!(db.set("", ""), None);
    assert_eq!(db.get(""), Some(String::new()));
    assert_eq!(db.set("", "x"), Some(String::new()));
    assert_eq!(db.delete(""), Some("x".to_string()));
}

#[test]
fn disjoint_keys_do_not_interfere() {
    let mut db = Database::new();
    db.set("a", "1");
    db.set("b", "2");
    db.delete("b");
    db.set("c", "3");
    assert_eq!(db.get("a"), Some("1".to_string()));
    assert_eq!(db.get("b"), None);
    assert_eq!(db.get("c"), Some("3".to_string()));
}
