use sharpi::model::{Conversation, Message, Role};
use sharpi::time::Timestamp;

fn at(secs: i64) -> Timestamp {
    Timestamp::new(secs, 0)
}

#[test]
fn started_conversation_has_no_turns() {
    let c = Conversation::started("Trip".to_string(), Timestamp::new(1_700_000_000, 5));
    assert_eq!(c.title, "Trip");
    assert!(c.messages.is_empty());
    assert_eq!(c.created_at, Timestamp { secs: 1_700_000_000, nanos: 5 });
    assert_eq!(c.created_at, c.updated_at);
}

#[test]
fn new_conversation_is_empty_and_stamped_once() {
    let (id, c) = Conversation::new("Plans".to_string());
    assert_eq!(c.title, "Plans");
    assert!(c.messages.is_empty());
    assert_eq!(c.created_at, c.updated_at);
    assert!(c.created_at.secs > 1_600_000_000);
    assert!(c.created_at.nanos < 1_000_000_000);
    assert_eq!(id.chars().count(), 36);
}

#[test]
fn new_identifier_has_the_hyphenated_shape() {
    let (id, _) = Conversation::new(String::new());
    let chars: Vec<char> = id.chars().collect();
    assert_eq!(chars.len(), 36);
    for (i, c) in chars.iter().enumerate() {
        if i == 8 || i == 13 || i == 18 || i == 23 {
            assert_eq!(*c, '-');
        } else {
            assert!(c.is_ascii_digit() || ('a'..='f').contains(c));
        }
    }
}

#[test]
fn new_identifiers_differ() {
    let (a, _) = Conversation::new("a".to_string());
    let (b, _) = Conversation::new("a".to_string());
    assert_ne!(a, b);
}

#[test]
fn record_message_appends_and_touches() {
    let mut c = Conversation::started("T".to_string(), at(10));
    c.record_message(Role::User, "hi".to_string(), at(11), at(12));
    assert_eq!(
        c.messages,
        vec![Message { role: Role::User, content: "hi".to_string(), timestamp: at(11) }]
    );
    assert_eq!(c.updated_at, at(12));
    assert_eq!(c.created_at, at(10));
    assert_eq!(c.title, "T");
}

#[test]
fn user_then_assistant_come_in_that_order() {
    let mut c = Conversation::started("T".to_string(), at(10));
    c.record_message(Role::User, "question".to_string(), at(11), at(12));
    let after_first = c.updated_at;
    c.record_message(Role::Assistant, "answer".to_string(), at(13), at(14));
    assert_eq!(
        c.messages,
        vec![
            Message { role: Role::User, content: "question".to_string(), timestamp: at(11) },
            Message { role: Role::Assistant, content: "answer".to_string(), timestamp: at(13) },
        ]
    );
    assert!(at(10).is_before(&after_first));
    assert!(after_first.is_before(&c.updated_at));
}

#[test]
fn clocked_turns_keep_order_and_roles() {
    let mut c = Conversation::started("T".to_string(), at(0));
    c.add_user_message("one".to_string());
    let touched = c.updated_at;
    c.add_assistant_message("two".to_string());
    assert_eq!(c.messages.len(), 2);
    assert_eq!(c.messages[0].role, Role::User);
    assert_eq!(c.messages[0].content, "one");
    assert_eq!(c.messages[1].role, Role::Assistant);
    assert_eq!(c.messages[1].content, "two");
    assert!(at(0).is_before(&touched));
    assert!(at(0).is_before(&c.updated_at));
    assert!(at(0).is_before(&c.messages[0].timestamp));
    assert!(at(0).is_before(&c.messages[1].timestamp));
    assert_eq!(c.created_at, at(0));
}

#[test]
fn metadata_counts_turns() {
    let mut c = Conversation::started("Counted".to_string(), at(1));
    c.record_message(Role::User, "a".to_string(), at(2), at(3));
    c.record_message(Role::Assistant, "b".to_string(), at(4), at(5));
    c.record_message(Role::User, "c".to_string(), at(6), at(7));
    let m = c.metadata();
    assert_eq!(m.title, "Counted");
    assert_eq!(m.message_count, 3);
    assert_eq!(m.created_at, at(1));
    assert_eq!(m.updated_at, at(7));
}

#[test]
fn duplicate_equals_the_source() {
    let mut c = Conversation::started("Copy".to_string(), at(1));
    c.record_message(Role::User, "a".to_string(), at(2), at(3));
    let d = c.duplicate();
    assert_eq!(c, d);
    assert_eq!(c.messages[0].duplicate(), c.messages[0]);
}

#[test]
fn role_names() {
    assert_eq!(Role::User.as_str(), "user");
    assert_eq!(Role::Assistant.as_str(), "assistant");
}

#[test]
fn roles_are_found_by_name() {
    assert_eq!(Role::named("user"), Some(Role::User));
    assert_eq!(Role::named("assistant"), Some(Role::Assistant));
    assert_eq!(Role::named("User"), None);
    assert_eq!(Role::named("system"), None);
    assert_eq!(Role::named(""), None);
    assert_eq!(Role::named(Role::Assistant.as_str()), Some(Role::Assistant));
}

#[test]
fn timestamps_order_by_seconds_then_nanoseconds() {
    assert!(Timestamp::new(1, 999).is_before(&Timestamp::new(2, 0)));
    assert!(Timestamp::new(2, 0).is_before(&Timestamp::new(2, 1)));
    assert!(!Timestamp::new(2, 1).is_before(&Timestamp::new(2, 1)));
    assert!(!Timestamp::new(3, 0).is_before(&Timestamp::new(2, 5)));
    assert!(Timestamp::new(-5, 0).is_before(&Timestamp::new(-4, 0)));
}

#[test]
fn the_clock_reads_forward_of_the_epoch() {
    let a = Timestamp::now();
    assert!(a.secs > 1_600_000_000);
    assert!(a.nanos < 1_000_000_000);
    assert!(Timestamp::new(0, 0).is_before(&a));
}

#[test]
fn instants_read_to_the_minute() {
    assert_eq!(Timestamp::new(0, 0).to_minute_text(), Some("1970-01-01 00:00".to_string()));
    assert_eq!(
        Timestamp::new(1_431_648_000, 0).to_minute_text(),
        Some("2015-05-15 00:00".to_string())
    );
    assert_eq!(
        Timestamp::new(1_700_000_000, 999_999_999).to_minute_text(),
        Some("2023-11-14 22:13".to_string())
    );
    assert_eq!(Timestamp::new(-60, 0).to_minute_text(), Some("1969-12-31 23:59".to_string()));
}

#[test]
fn instants_outside_the_calendar_have_no_text() {
    assert_eq!(Timestamp::new(i64::MAX, 0).to_minute_text(), None);
    assert_eq!(Timestamp::new(i64::MIN, 0).to_minute_text(), None);
    assert_eq!(Timestamp::new(0, 2_000_000_000).to_minute_text(), None);
}
