use clutch_hub_api::pending::PendingTable;

#[test]
fn new_table_is_empty() {
    let table: PendingTable<u32> = PendingTable::new();
    assert!(table.is_empty());
    assert_eq!(table.len(), 0);
    assert!(!table.contains("a"));
}

#[test]
fn insert_registers_one_entry_per_id() {
    let mut table = PendingTable::new();
    assert_eq!(table.insert("a".to_string(), 1u32), None);
    assert_eq!(table.insert("b".to_string(), 2), None);
    assert_eq!(table.len(), 2);
    assert!(table.contains("a"));
    assert!(table.contains("b"));
    assert!(!table.contains("c"));
    assert!(!table.is_empty());
}

#[test]
fn insert_under_a_taken_id_replaces_the_slot() {
    let mut table = PendingTable::new();
    table.insert("a".to_string(), 1u32);
    table.insert("b".to_string(), 2);
    assert_eq!(table.insert("a".to_string(), 3), Some(1));
    assert_eq!(table.len(), 2);
    assert_eq!(table.remove("a"), Some(3));
    assert_eq!(table.remove("b"), Some(2));
}

#[test]
fn remove_hands_the_slot_back_once() {
    let mut table = PendingTable::new();
    table.insert("a".to_string(), 1u32);
    table.insert("b".to_string(), 2);
    table.insert("c".to_string(), 3);
    assert_eq!(table.remove("b"), Some(2));
    assert_eq!(table.remove("b"), None);
    assert_eq!(table.len(), 2);
    assert!(table.contains("a"));
    assert!(table.contains("c"));
    assert_eq!(table.remove("missing"), None);
    assert_eq!(table.len(), 2);
}

#[test]
fn drain_hands_every_entry_back_and_empties_the_table() {
    let mut table = PendingTable::new();
    table.insert("a".to_string(), 1u32);
    table.insert("b".to_string(), 2);
    table.insert("c".to_string(), 3);
    table.remove("a");
    let mut drained: Vec<(String, u32)> =
        table.drain().into_iter().map(|e| (e.id, e.slot)).collect();
    drained.sort();
    assert_eq!(drained, vec![("b".to_string(), 2), ("c".to_string(), 3)]);
    assert!(table.is_empty());
    assert_eq!(table.len(), 0);
    assert!(table.drain().is_empty());
}

#[test]
fn ids_are_compared_as_whole_strings() {
    let mut table = PendingTable::new();
    table.insert("ab".to_string(), 1u32);
    assert!(!table.contains("a"));
    assert!(!table.contains("abc"));
    assert!(!table.contains(""));
    assert!(table.contains("ab"));
}
