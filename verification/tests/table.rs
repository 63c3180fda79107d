use litemon::table::NameTable;

fn name(text: &str) -> String {
    text.to_string()
}

#[test]
fn empty_table_holds_nothing() {
    let table: NameTable<u64> = NameTable::new();
    assert_eq!(table.find(&name("eth0")), None);
    assert_eq!(table.get(&name("eth0")), None);
    assert_eq!(table.get(&name("")), None);
}

#[test]
fn inserted_value_is_found_under_its_name() {
    let mut table: NameTable<u64> = NameTable::new();
    table.insert(&name("eth0"), 7);
    table.insert(&name("wlan0"), 9);
    assert_eq!(table.get(&name("eth0")), Some(&7));
    assert_eq!(table.get(&name("wlan0")), Some(&9));
    assert_eq!(table.get(&name("lo")), None);
    assert_eq!(table.find(&name("eth0")), Some(0));
    assert_eq!(table.find(&name("wlan0")), Some(1));
}

#[test]
fn second_insert_replaces_the_value_and_keeps_the_slot() {
    let mut table: NameTable<u64> = NameTable::new();
    table.insert(&name("eth0"), 7);
    table.insert(&name("wlan0"), 9);
    table.insert(&name("eth0"), 8);
    assert_eq!(table.get(&name("eth0")), Some(&8));
    assert_eq!(table.get(&name("wlan0")), Some(&9));
    assert_eq!(table.find(&name("eth0")), Some(0));
    assert_eq!(table.find(&name("wlan0")), Some(1));
}

#[test]
fn replace_hands_back_what_was_there() {
    let mut table: NameTable<Vec<u64>> = NameTable::new();
    table.insert(&name("eth0"), vec![1, 2]);
    table.insert(&name("wlan0"), vec![3]);
    let slot = table.find(&name("eth0")).unwrap();
    assert_eq!(table.replace(slot, vec![9]), vec![1, 2]);
    assert_eq!(table.get(&name("eth0")), Some(&vec![9]));
    assert_eq!(table.get(&name("wlan0")), Some(&vec![3]));
}

#[test]
fn names_are_told_apart_by_every_character() {
    let mut table: NameTable<u64> = NameTable::new();
    table.insert(&name("eth0"), 1);
    table.insert(&name("Eth0"), 2);
    table.insert(&name("eth0 "), 3);
    table.insert(&name(""), 4);
    assert_eq!(table.get(&name("eth0")), Some(&1));
    assert_eq!(table.get(&name("Eth0")), Some(&2));
    assert_eq!(table.get(&name("eth0 ")), Some(&3));
    assert_eq!(table.get(&name("")), Some(&4));
    assert_eq!(table.get(&name("eth")), None);
}
