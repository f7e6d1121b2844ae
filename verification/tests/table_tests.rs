use runrust::table::{find_first, KeyedTable};

#[test]
fn new_table_is_empty() {
    let table: KeyedTable<String> = KeyedTable::new();
    assert_eq!(table.len(), 0);
    assert_eq!(table.get("a"), None);
    assert_eq!(table.index_of("a"), None);
    assert!(table.entries().is_empty());
}

#[test]
fn insert_adds_new_keys_at_the_end() {
    let mut table: KeyedTable<String> = KeyedTable::new();
    table.insert("b".to_string(), "2".to_string());
    table.insert("a".to_string(), "1".to_string());
    assert_eq!(table.len(), 2);
    assert_eq!(table.index_of("b"), Some(0));
    assert_eq!(table.index_of("a"), Some(1));
    assert_eq!(table.get("a").map(String::as_str), Some("1"));
}

#[test]
fn insert_replaces_the_value_of_a_known_key_in_place() {
    let mut table: KeyedTable<String> = KeyedTable::new();
    table.insert("a".to_string(), "1".to_string());
    table.insert("b".to_string(), "2".to_string());
    table.insert("a".to_string(), "3".to_string());
    assert_eq!(table.len(), 2);
    assert_eq!(table.entries()[0], ("a".to_string(), "3".to_string()));
    assert_eq!(table.entries()[1], ("b".to_string(), "2".to_string()));
}

#[test]
fn no_key_occurs_twice() {
    let mut table: KeyedTable<String> = KeyedTable::new();
    for key in ["x", "y", "x", "z", "y", "x"] {
        table.insert(key.to_string(), key.to_uppercase());
    }
    let keys: Vec<&str> = table.entries().iter().map(|(k, _)| k.as_str()).collect();
    assert_eq!(keys, vec!["x", "y", "z"]);
}

#[test]
fn find_first_gives_the_first_of_equal_keys() {
    let pairs = vec![
        ("a".to_string(), "1".to_string()),
        ("b".to_string(), "2".to_string()),
        ("a".to_string(), "3".to_string()),
    ];
    assert_eq!(find_first(&pairs, "a"), Some(0));
    assert_eq!(find_first(&pairs, "b"), Some(1));
    assert_eq!(find_first(&pairs, "c"), None);
}
