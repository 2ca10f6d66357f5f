use idcore::{settle, Invite, Outcome, Secret, SessionKind, Store, Transaction, Uuid};

fn some_invite(id: u128) -> Invite {
    Invite {
        id: Uuid::new(id),
        creator_id: Uuid::new(900),
        granter_id: Some(Uuid::new(900)),
        user_id: None,
        active: true,
        created_at: 0,
        updated_at: 0,
    }
}

#[test]
fn transaction_commit_makes_writes_visible() {
    let mut store = Store::new();
    let out: Outcome<(), u32, u32> = store.with_transaction(|mut t: Transaction| {
        t.st.insert_invite(some_invite(1));
        (t, Outcome::Commit(()))
    });
    assert!(matches!(out, Outcome::Commit(())));
    assert!(store.find_invite(Uuid::new(1)).is_some());
}

#[test]
fn transaction_reject_discards_writes() {
    let mut store = Store::new();
    let out: Outcome<(), u32, u32> = store.with_transaction(|mut t: Transaction| {
        t.st.insert_invite(some_invite(1));
        (t, Outcome::Reject(5))
    });
    assert!(matches!(out, Outcome::Reject(5)));
    // Read back in the store itself: the row written inside the discarded
    // unit of work is not visible.
    assert!(store.find_invite(Uuid::new(1)).is_none());
}

#[test]
fn transaction_fail_discards_writes() {
    let mut store = Store::new();
    let out: Outcome<(), u32, u32> = store.with_transaction(|mut t: Transaction| {
        t.st.insert_invite(some_invite(1));
        (t, Outcome::Fail(8))
    });
    assert!(matches!(out, Outcome::Fail(8)));
    assert!(store.find_invite(Uuid::new(1)).is_none());
}

#[test]
fn settle_keeps_commit_without_commit_error() {
    let r: Outcome<u32, u32, u32> = settle(Outcome::Commit(1), None);
    assert!(matches!(r, Outcome::Commit(1)));
}

#[test]
fn settle_turns_failed_commit_into_fail() {
    let r: Outcome<u32, u32, u32> = settle(Outcome::Commit(1), Some(77));
    assert!(matches!(r, Outcome::Fail(77)));
}

#[test]
fn settle_never_upgrades_reject() {
    let r: Outcome<u32, u32, u32> = settle(Outcome::Reject(2), Some(77));
    assert!(matches!(r, Outcome::Reject(2)));
}

#[test]
fn settle_keeps_fail() {
    let r: Outcome<u32, u32, u32> = settle(Outcome::Fail(3), None);
    assert!(matches!(r, Outcome::Fail(3)));
}

#[test]
fn insert_user_refuses_taken_email() {
    let mut store = Store::new();
    let first = store.insert_user(
        "a@example.com".to_string(),
        Secret::from_encoded("h1".to_string()),
        0,
    );
    assert!(first.is_some());
    let second = store.insert_user(
        "a@example.com".to_string(),
        Secret::from_encoded("h2".to_string()),
        0,
    );
    assert!(second.is_none());
    assert_eq!(store.users.len(), 1);
}

#[test]
fn find_user_by_email_finds_the_row() {
    let mut store = Store::new();
    store
        .insert_user("a@example.com".to_string(), Secret::from_encoded("h1".to_string()), 0)
        .unwrap();
    store
        .insert_user("b@example.com".to_string(), Secret::from_encoded("h2".to_string()), 0)
        .unwrap();
    let found = store.find_user_by_email(&"b@example.com".to_string()).unwrap();
    assert_eq!(found.email, "b@example.com");
    assert!(store.find_user_by_email(&"c@example.com".to_string()).is_none());
}

#[test]
fn create_session_issues_fresh_ids() {
    let mut store = Store::new();
    let user = store
        .insert_user("a@example.com".to_string(), Secret::from_encoded("h".to_string()), 0)
        .unwrap();
    let s1 = store.create_session(SessionKind::Login, user.id, true, 3);
    let s2 = store.create_session(SessionKind::Grant, user.id, true, 4);
    assert_ne!(s1.id, s2.id);
    assert_eq!(s1.kind, 1);
    assert_eq!(s2.kind, 2);
    assert_eq!(store.find_session(s1.id).unwrap().created_at, 3);
}

#[test]
fn update_invite_replaces_the_row() {
    let mut store = Store::new();
    assert!(store.insert_invite(some_invite(5)));
    assert!(!store.insert_invite(some_invite(5)));
    let mut changed = some_invite(5);
    changed.active = false;
    assert!(store.update_invite(changed));
    assert!(!store.find_invite(Uuid::new(5)).unwrap().active);
    let absent = some_invite(6);
    assert!(!store.update_invite(absent));
    assert!(store.find_invite(Uuid::new(6)).is_none());
}
