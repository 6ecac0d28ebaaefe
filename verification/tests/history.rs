use sharpi::error::ChatError;
use sharpi::history::{load_history, save_conversation, save_history, History};
use sharpi::model::{Conversation, Role};
use sharpi::store::{Store, StoredRecord, Write};
use sharpi::time::Timestamp;

fn unset() -> History {
    History { active_conversation_id: None }
}

#[test]
fn default_history_has_no_active_conversation() {
    assert_eq!(History::default(), unset());
}

#[test]
fn created_conversation_is_empty_and_active() {
    let mut store = Store::new();
    let mut history = unset();
    let (id, c) = history.create_conversation(&mut store, "Trip".to_string());
    assert_eq!(c.title, "Trip");
    assert!(c.messages.is_empty());
    assert_eq!(c.created_at, c.updated_at);
    assert_eq!(history.active_conversation_id, Some(id.clone()));
    assert_eq!(store.load_pointer(), Some(id.clone()));
    assert!(store.contains(&id));
}

#[test]
fn creation_writes_the_record_and_then_the_pointer() {
    let mut store = Store::new();
    let mut history = unset();
    let (id, c) = history.create_conversation(&mut store, "Trip".to_string());
    assert_eq!(
        store.take_writes(),
        vec![
            Write::Record { id: id.clone(), conversation: c },
            Write::Pointer { active: Some(id) },
        ]
    );
}

#[test]
fn created_identifiers_are_fresh() {
    let mut store = Store::new();
    let mut history = unset();
    let mut seen: Vec<String> = Vec::new();
    for _ in 0..20 {
        let (id, _) = history.create_conversation(&mut store, "same title".to_string());
        assert!(!seen.contains(&id));
        seen.push(id);
    }
    assert_eq!(store.list_all().len(), 20);
}

#[test]
fn created_conversation_reads_back() {
    let mut store = Store::new();
    let mut history = unset();
    let (id, _) = history.create_conversation(&mut store, "Trip".to_string());
    let back = history.get_conversation(&store, &id).unwrap();
    assert_eq!(back.title, "Trip");
    assert!(back.messages.is_empty());
}

#[test]
fn creation_with_given_identifier_and_instant() {
    let mut store = Store::new();
    let mut history = unset();
    let c = history.create_conversation_with(
        &mut store,
        "fixed-id".to_string(),
        "Fixed".to_string(),
        Timestamp::new(42, 7),
    );
    assert_eq!(c, Conversation::started("Fixed".to_string(), Timestamp::new(42, 7)));
    assert_eq!(history.active_conversation_id, Some("fixed-id".to_string()));
    assert_eq!(store.load("fixed-id"), Ok(c));
}

#[test]
fn get_conversation_of_an_unknown_identifier_is_not_found() {
    let store = Store::new();
    assert_eq!(
        unset().get_conversation(&store, "nope"),
        Err(ChatError::NotFound { id: "nope".to_string() })
    );
}

#[test]
fn get_conversation_of_a_corrupt_record_says_so() {
    let mut store = Store::new();
    store.restore_record("bad".to_string(), StoredRecord::Corrupt);
    assert_eq!(
        unset().get_conversation(&store, "bad"),
        Err(ChatError::CorruptRecord { id: "bad".to_string() })
    );
}

#[test]
fn no_pointer_means_no_active_conversation() {
    let mut store = Store::new();
    store.save("a", &Conversation::started("A".to_string(), Timestamp::new(1, 0)));
    assert_eq!(unset().get_active_conversation(&store), Ok(None));
}

#[test]
fn the_active_conversation_is_the_one_pointed_to() {
    let mut store = Store::new();
    let a = Conversation::started("A".to_string(), Timestamp::new(1, 0));
    let b = Conversation::started("B".to_string(), Timestamp::new(2, 0));
    store.save("a", &a);
    store.save("b", &b);
    let history = History { active_conversation_id: Some("b".to_string()) };
    assert_eq!(history.get_active_conversation(&store), Ok(Some(b)));
}

#[test]
fn a_dangling_pointer_is_reported() {
    let store = Store::new();
    let history = History { active_conversation_id: Some("gone".to_string()) };
    assert_eq!(
        history.get_active_conversation(&store),
        Err(ChatError::NotFound { id: "gone".to_string() })
    );
}

#[test]
fn activating_an_unknown_identifier_changes_nothing() {
    let mut store = Store::new();
    let mut history = unset();
    let (id, _) = history.create_conversation(&mut store, "Kept".to_string());
    store.take_writes();
    assert!(!history.set_active_conversation(&mut store, "nonexistent-id".to_string()));
    assert_eq!(history.active_conversation_id, Some(id.clone()));
    assert_eq!(store.load_pointer(), Some(id));
    assert!(store.take_writes().is_empty());
}

#[test]
fn activating_an_unknown_identifier_leaves_an_unset_pointer_unset() {
    let mut store = Store::new();
    let mut history = unset();
    assert!(!history.set_active_conversation(&mut store, "nonexistent-id".to_string()));
    assert_eq!(history, unset());
    assert_eq!(store.load_pointer(), None);
}

#[test]
fn activating_a_stored_conversation_moves_the_pointer() {
    let mut store = Store::new();
    let mut history = unset();
    let (first, _) = history.create_conversation(&mut store, "First".to_string());
    let (second, _) = history.create_conversation(&mut store, "Second".to_string());
    store.take_writes();
    assert_eq!(history.active_conversation_id, Some(second));
    assert!(history.set_active_conversation(&mut store, first.clone()));
    assert_eq!(history.active_conversation_id, Some(first.clone()));
    assert_eq!(store.load_pointer(), Some(first.clone()));
    assert_eq!(store.take_writes(), vec![Write::Pointer { active: Some(first) }]);
}

#[test]
fn removing_the_active_conversation_clears_the_pointer() {
    let mut store = Store::new();
    let mut history = unset();
    let (id, _) = history.create_conversation(&mut store, "Doomed".to_string());
    store.take_writes();
    assert_eq!(history.remove_conversation(&mut store, &id), Ok(()));
    assert_eq!(history.get_active_conversation(&store), Ok(None));
    assert_eq!(history.active_conversation_id, None);
    assert_eq!(store.load_pointer(), None);
    assert!(!store.contains(&id));
    assert_eq!(store.load(&id), Err(ChatError::NotFound { id: id.clone() }));
    assert_eq!(
        store.take_writes(),
        vec![Write::Removal { id }, Write::Pointer { active: None }]
    );
}

#[test]
fn removing_another_conversation_keeps_the_pointer() {
    let mut store = Store::new();
    let mut history = unset();
    let (first, _) = history.create_conversation(&mut store, "First".to_string());
    let (second, _) = history.create_conversation(&mut store, "Second".to_string());
    store.take_writes();
    assert_eq!(history.remove_conversation(&mut store, &first), Ok(()));
    assert_eq!(history.active_conversation_id, Some(second.clone()));
    assert_eq!(store.load_pointer(), Some(second.clone()));
    assert!(store.contains(&second));
    assert_eq!(store.take_writes(), vec![Write::Removal { id: first }]);
}

#[test]
fn removing_an_unknown_conversation_is_not_found() {
    let mut store = Store::new();
    let mut history = unset();
    let (id, _) = history.create_conversation(&mut store, "Kept".to_string());
    store.take_writes();
    assert_eq!(
        history.remove_conversation(&mut store, "other"),
        Err(ChatError::NotFound { id: "other".to_string() })
    );
    assert_eq!(history.active_conversation_id, Some(id));
    assert!(store.take_writes().is_empty());
}

#[test]
fn a_default_conversation_is_made_once() {
    let mut store = Store::new();
    let mut history = unset();
    let (id, c) = history.ensure_active_conversation(&mut store).unwrap();
    assert_eq!(c.title, "Default Conversation");
    assert!(c.messages.is_empty());
    assert_eq!(history.active_conversation_id, Some(id.clone()));
    assert_eq!(store.list_all().len(), 1);
    assert_eq!(store.take_writes().len(), 2);

    let (again, same) = history.ensure_active_conversation(&mut store).unwrap();
    assert_eq!(again, id);
    assert_eq!(same, c);
    assert_eq!(store.list_all().len(), 1);
    assert!(store.take_writes().is_empty());
}

#[test]
fn an_active_conversation_is_returned_as_it_is() {
    let mut store = Store::new();
    let mut history = unset();
    let (id, mut c) = history.create_conversation(&mut store, "Mine".to_string());
    c.record_message(Role::User, "hi".to_string(), Timestamp::new(5, 0), Timestamp::new(6, 0));
    save_conversation(&mut store, &id, &c);
    assert_eq!(history.ensure_active_conversation(&mut store), Ok((id, c)));
}

#[test]
fn ensuring_with_a_dangling_pointer_fails_and_creates_nothing() {
    let mut store = Store::new();
    let mut history = History { active_conversation_id: Some("gone".to_string()) };
    assert_eq!(
        history.ensure_active_conversation(&mut store),
        Err(ChatError::NotFound { id: "gone".to_string() })
    );
    assert!(store.list_all().is_empty());
    assert!(store.take_writes().is_empty());
}

#[test]
fn listing_shows_metadata_of_readable_conversations_only() {
    let mut store = Store::new();
    let mut c = Conversation::started("Valid".to_string(), Timestamp::new(10, 0));
    c.record_message(Role::User, "q".to_string(), Timestamp::new(11, 0), Timestamp::new(12, 0));
    store.restore_record("valid".to_string(), StoredRecord::Valid(c));
    store.restore_record("corrupt".to_string(), StoredRecord::Corrupt);
    let items = unset().list_conversations(&store);
    assert_eq!(items.len(), 1);
    assert_eq!(items[0].0, "valid");
    assert_eq!(items[0].1.title, "Valid");
    assert_eq!(items[0].1.message_count, 1);
    assert_eq!(items[0].1.updated_at, Timestamp::new(12, 0));
}

#[test]
fn history_loads_from_and_saves_to_the_store() {
    let mut store = Store::new();
    assert_eq!(load_history(&store), unset());
    store.restore_pointer(Some("abc".to_string()));
    assert_eq!(load_history(&store), History { active_conversation_id: Some("abc".to_string()) });
    save_history(&History { active_conversation_id: Some("xyz".to_string()) }, &mut store);
    assert_eq!(store.load_pointer(), Some("xyz".to_string()));
    save_history(&unset(), &mut store);
    assert_eq!(store.load_pointer(), None);
    assert_eq!(
        store.take_writes(),
        vec![Write::Pointer { active: Some("xyz".to_string()) }, Write::Pointer { active: None }]
    );
}

#[test]
fn save_conversation_stores_under_the_identifier() {
    let mut store = Store::new();
    let c = Conversation::started("Saved".to_string(), Timestamp::new(3, 3));
    save_conversation(&mut store, "k", &c);
    assert_eq!(store.load("k"), Ok(c.clone()));
    assert_eq!(store.take_writes(), vec![Write::Record { id: "k".to_string(), conversation: c }]);
}
