use chat_notify::event::Event;
use chat_notify::resolver::{
    add_user, add_users, contains_user, resolve, resolve_after_lookup, resolve_with, to_user,
    Lookup, ResolveError,
};

fn message(members: Option<Vec<i64>>) -> Event {
    Event::NewMessage {
        chat_id: 1,
        sender_id: 10,
        timestamp: 0,
        content: "hi".to_string(),
        members,
    }
}

fn sorted(mut v: Vec<u64>) -> Vec<u64> {
    v.sort();
    v
}

#[test]
fn to_user_keeps_a_valid_id() {
    assert_eq!(to_user(0), 0);
    assert_eq!(to_user(42), 42);
    assert_eq!(to_user(i64::MAX), 9_223_372_036_854_775_807);
}

#[test]
fn contains_user_finds_entries() {
    assert!(contains_user(&vec![3, 1, 2], 2));
    assert!(!contains_user(&vec![3, 1, 2], 4));
    assert!(!contains_user(&vec![], 0));
}

#[test]
fn add_user_keeps_entries_unique() {
    let mut list = vec![1, 2];
    add_user(&mut list, 2);
    assert_eq!(list, vec![1, 2]);
    add_user(&mut list, 5);
    assert_eq!(list, vec![1, 2, 5]);
}

#[test]
fn add_users_merges_without_repeats() {
    let mut list = vec![7];
    add_users(&mut list, &vec![1, 7, 1, 3]);
    assert_eq!(list, vec![7, 1, 3]);
}

#[test]
fn resolve_uses_embedded_members() {
    assert_eq!(resolve(&message(Some(vec![10, 11, 10]))).map(sorted), Some(vec![10, 11]));
    let created = Event::ChatCreated {
        chat_id: 1,
        actor_id: 10,
        timestamp: 0,
        name: None,
        chat_type: chat_notify::model::ChatType::Single,
        members: vec![10, 12],
    };
    assert_eq!(resolve(&created).map(sorted), Some(vec![10, 12]));
    assert_eq!(resolve(&message(Some(vec![]))), Some(vec![]));
}

#[test]
fn resolve_asks_for_a_lookup_otherwise() {
    assert_eq!(resolve(&message(None)), None);
    let added = Event::MemberAdded { chat_id: 1, actor_id: 10, timestamp: 0, member_id: 13 };
    assert_eq!(resolve(&added), None);
    let removed = Event::MemberRemoved { chat_id: 1, actor_id: 10, timestamp: 0, member_id: 13 };
    assert_eq!(resolve(&removed), None);
}

#[test]
fn resolve_with_reads_the_snapshot_only_when_needed() {
    let snapshot = vec![1, 2, 3];
    assert_eq!(sorted(resolve_with(&message(None), &snapshot)), vec![1, 2, 3]);
    assert_eq!(sorted(resolve_with(&message(Some(vec![8, 9])), &snapshot)), vec![8, 9]);
}

#[test]
fn resolve_with_includes_the_member_who_joined_or_left() {
    let added = Event::MemberAdded { chat_id: 1, actor_id: 1, timestamp: 0, member_id: 4 };
    assert_eq!(sorted(resolve_with(&added, &vec![1, 2, 4])), vec![1, 2, 4]);
    let removed = Event::MemberRemoved { chat_id: 1, actor_id: 1, timestamp: 0, member_id: 4 };
    assert_eq!(sorted(resolve_with(&removed, &vec![1, 2])), vec![1, 2, 4]);
}

#[test]
fn resolving_twice_gives_the_same_recipients() {
    let event = message(None);
    let snapshot = vec![5, 3, 5, 9];
    let first = resolve_with(&event, &snapshot);
    let second = resolve_with(&event, &snapshot);
    assert_eq!(first, second);
    assert_eq!(sorted(first), vec![3, 5, 9]);
    let reordered = resolve_with(&event, &vec![9, 5, 3]);
    assert_eq!(sorted(reordered), vec![3, 5, 9]);
}

#[test]
fn a_failed_lookup_drops_the_event() {
    let event = message(None);
    assert_eq!(resolve_after_lookup(&event, &Lookup::Unavailable), Err(ResolveError::LookupFailed));
    assert_eq!(
        resolve_after_lookup(&event, &Lookup::Members(vec![2, 1])).map(sorted),
        Ok(vec![1, 2])
    );
}
