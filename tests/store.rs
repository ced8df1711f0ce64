use marusora::{parse_entries, EntryStore};

#[test]
fn store_appends_in_order() {
    let mut store = EntryStore::new();
    assert!(!store.has_data());
    store.add(String::from("a"), String::from("b"));
    store.add(String::from("a"), String::from("b"));
    assert!(store.has_data());
    assert_eq!(store.size(), 2);
    assert_eq!(store.prompt(1), "a");
    assert_eq!(store.response(0), "b");
}

#[test]
fn parse_reads_two_fields_per_line() {
    let entries = parse_entries("2+2,4\n3+3,6\n");
    assert_eq!(
        entries,
        vec![
            (String::from("2+2"), String::from("4")),
            (String::from("3+3"), String::from("6")),
        ]
    );
}

#[test]
fn parse_skips_lines_without_two_fields() {
    let entries = parse_entries("x\n\n,y\nz,\np,q,r\nab");
    assert_eq!(entries, vec![(String::from("p"), String::from("q"))]);
}

#[test]
fn parse_of_empty_text_is_empty() {
    assert!(parse_entries("").is_empty());
}

#[test]
fn load_text_appends_to_store() {
    let mut store = EntryStore::new();
    store.add(String::from("first"), String::from("1"));
    store.load_text("cat,neko\ndog,inu");
    assert_eq!(store.size(), 3);
    assert_eq!(store.prompt(2), "dog");
    assert_eq!(store.response(1), "neko");
}
