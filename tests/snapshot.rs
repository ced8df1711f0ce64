use marusora::{deserialize, restore, serialize, EntryStore, Mode, Session, SnapshotError};

fn sample_session() -> Session {
    let mut store = EntryStore::new();
    store.add(String::from("2+2"), String::from("4"));
    store.add(String::from("3+3"), String::from("6"));
    store.add(String::from("a \"quoted\", line"), String::from("ü"));
    Session::with_deck(store, vec![2, 0]).unwrap()
}

fn assert_same(a: &Session, b: &Session) {
    assert_eq!(a.store().pairs(), b.store().pairs());
    assert_eq!(a.deck(), b.deck());
    assert_eq!(a.target_index(), b.target_index());
    assert_eq!(a.target_count(), b.target_count());
    assert_eq!(a.mode(), b.mode());
}

#[test]
fn round_trip_fresh_session() {
    let s = sample_session();
    let text = serialize(&s);
    assert!(!text.is_empty());
    let back = deserialize(&text).unwrap();
    assert_same(&s, &back);
}

#[test]
fn round_trip_after_requeue() {
    let mut s = sample_session();
    s.advance();
    s.requeue_current();
    let back = deserialize(&serialize(&s)).unwrap();
    assert_same(&s, &back);
    assert_eq!(back.mode(), Mode::Answer);
    assert_eq!(back.deck(), &vec![2, 0, 2]);
    assert_eq!(back.target_count(), 3);
}

#[test]
fn round_trip_done_session() {
    let mut s = sample_session();
    for _ in 0..4 {
        s.advance();
    }
    assert_eq!(s.mode(), Mode::Done);
    let back = deserialize(&serialize(&s)).unwrap();
    assert_same(&s, &back);
}

#[test]
fn round_trip_empty_store() {
    let s = Session::start(EntryStore::new(), -1, 0);
    let back = deserialize(&serialize(&s)).unwrap();
    assert_same(&s, &back);
    assert_eq!(back.store().size(), 0);
    assert_eq!(back.mode(), Mode::Done);
}

#[test]
fn deserialize_rejects_garbage() {
    assert_eq!(deserialize("not json").err(), Some(SnapshotError::Malformed));
    assert_eq!(deserialize("").err(), Some(SnapshotError::Malformed));
    assert_eq!(deserialize("[[],[],0,0]").err(), Some(SnapshotError::Malformed));
}

#[test]
fn deserialize_rejects_foreign_deck_index() {
    let text = "[[[\"a\",\"b\"]],[0,1],0,2,0]";
    assert_eq!(deserialize(text).err(), Some(SnapshotError::DeckIndexOutOfRange));
}

#[test]
fn deserialize_rejects_cursor_past_deck() {
    let text = "[[[\"a\",\"b\"]],[0],2,1,2]";
    assert_eq!(deserialize(text).err(), Some(SnapshotError::CursorOutOfRange));
}

#[test]
fn deserialize_rejects_unknown_mode() {
    let text = "[[[\"a\",\"b\"]],[0],0,1,3]";
    assert_eq!(deserialize(text).err(), Some(SnapshotError::InvalidMode));
}

#[test]
fn deserialize_rejects_live_mode_past_last_card() {
    let text = "[[[\"a\",\"b\"]],[0],1,1,1]";
    assert_eq!(deserialize(text).err(), Some(SnapshotError::InvalidMode));
}

#[test]
fn deserialize_accepts_valid_text() {
    let s = deserialize("[[[\"a\",\"b\"],[\"c\",\"d\"]],[1,0],1,2,1]").unwrap();
    assert_eq!(s.mode(), Mode::Answer);
    assert_eq!(s.target_index(), 1);
    assert_eq!(s.current_prompt().unwrap(), "a");
    assert_eq!(s.current_response().unwrap(), "b");
}

#[test]
fn restore_checks_fields() {
    let pairs = vec![(String::from("a"), String::from("b"))];
    assert_eq!(restore(pairs.clone(), vec![0], 0, 1, 9).err(), Some(SnapshotError::InvalidMode));
    assert_eq!(restore(pairs.clone(), vec![3], 0, 1, 0).err(), Some(SnapshotError::DeckIndexOutOfRange));
    assert_eq!(restore(pairs.clone(), vec![0], 2, 1, 2).err(), Some(SnapshotError::CursorOutOfRange));
    let s = restore(pairs, vec![0, 0], 1, 2, 0).unwrap();
    assert_eq!(s.mode(), Mode::Question);
    assert_eq!(s.current_question_number(), 2);
}

#[test]
fn serialize_writes_fields_in_order() {
    let mut store = EntryStore::new();
    store.add(String::from("2+2"), String::from("4"));
    let mut s = Session::with_deck(store, vec![0]).unwrap();
    s.advance();
    assert_eq!(serialize(&s), "[[[\"2+2\",\"4\"]],[0],0,1,1]");
}
