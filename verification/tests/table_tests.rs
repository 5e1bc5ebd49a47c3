use panorama::table::Table;

#[test]
fn new_table_is_empty() {
    let table: Table<u32> = Table::new();
    assert_eq!(table.len(), 0);
    assert_eq!(table.get("anything"), None);
    assert_eq!(table.position("anything"), None);
}

#[test]
fn insert_then_get_finds_the_value() {
    let mut table: Table<u32> = Table::new();
    table.insert("a".to_string(), 1);
    table.insert("b".to_string(), 2);
    assert_eq!(table.len(), 2);
    assert_eq!(table.get("a"), Some(&1));
    assert_eq!(table.get("b"), Some(&2));
    assert_eq!(table.get("c"), None);
}

#[test]
fn insert_under_a_known_key_replaces_in_place() {
    let mut table: Table<u32> = Table::new();
    table.insert("a".to_string(), 1);
    table.insert("b".to_string(), 2);
    table.insert("a".to_string(), 3);
    assert_eq!(table.len(), 2);
    assert_eq!(table.key(0).as_str(), "a");
    assert_eq!(*table.value(0), 3);
    assert_eq!(table.key(1).as_str(), "b");
    assert_eq!(*table.value(1), 2);
}

#[test]
fn keys_stay_in_order_of_arrival() {
    let mut table: Table<u32> = Table::new();
    table.insert("zeta".to_string(), 1);
    table.insert("alpha".to_string(), 2);
    table.insert("mid".to_string(), 3);
    assert_eq!(table.position("zeta"), Some(0));
    assert_eq!(table.position("alpha"), Some(1));
    assert_eq!(table.position("mid"), Some(2));
    assert_eq!(table.position("none"), None);
}

#[test]
fn keys_are_told_apart_to_the_last_byte() {
    let mut table: Table<u32> = Table::new();
    table.insert("plugin".to_string(), 1);
    table.insert("plugin2".to_string(), 2);
    table.insert("".to_string(), 3);
    table.insert("plügin".to_string(), 4);
    assert_eq!(table.len(), 4);
    assert_eq!(table.get("plugin"), Some(&1));
    assert_eq!(table.get("plugin2"), Some(&2));
    assert_eq!(table.get(""), Some(&3));
    assert_eq!(table.get("plügin"), Some(&4));
    assert_eq!(table.get("plugi"), None);
}
