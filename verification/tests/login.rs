use idcore::guard::authenticate;
use idcore::{
    grant_session, login, HashConfig, Invite, LoginDenial, Modify, Outcome, Secret, Session,
    SessionCreateData, SessionKind, Store, Uuid,
};

fn light_config() -> HashConfig {
    HashConfig { mem_cost: 8, time_cost: 1, lanes: 1, hash_length: 8 }
}

fn canonical(v: u128) -> String {
    let hex = format!("{:032x}", v);
    format!(
        "{}-{}-{}-{}-{}",
        &hex[0..8],
        &hex[8..12],
        &hex[12..16],
        &hex[16..20],
        &hex[20..32]
    )
}

fn store_with_account(password: &str) -> Store {
    let cfg = light_config();
    let mut store = Store::new();
    let mut buffer = password.as_bytes().to_vec();
    let secret = Secret::hash(&mut buffer, &cfg);
    store.insert_user("bob@example.com".to_string(), secret, 0).unwrap();
    store
}

#[test]
fn login_issues_a_valid_session() {
    let mut store = store_with_account("correct horse battery staple");
    let out = login(
        &mut store,
        SessionCreateData {
            user: "bob@example.com".to_string(),
            pass: "correct horse battery staple".to_string(),
        },
        9,
    );
    let session = match out {
        Outcome::Commit(s) => s,
        _ => panic!("expected commit"),
    };
    assert_eq!(session.kind, 1);
    assert!(session.valid);
    assert_eq!(session.created_at, 9);
    assert!(store.find_session(session.id).is_some());
}

#[test]
fn login_rejects_a_wrong_password() {
    let mut store = store_with_account("correct horse battery staple");
    let out = login(
        &mut store,
        SessionCreateData {
            user: "bob@example.com".to_string(),
            pass: "incorrect horse".to_string(),
        },
        9,
    );
    assert!(matches!(out, Outcome::Reject(LoginDenial::BadCredentials)));
    assert_eq!(store.sessions.len(), 0);
}

#[test]
fn login_rejects_an_unknown_email() {
    let mut store = store_with_account("correct horse battery staple");
    let out = login(
        &mut store,
        SessionCreateData {
            user: "nobody@example.com".to_string(),
            pass: "correct horse battery staple".to_string(),
        },
        9,
    );
    assert!(matches!(out, Outcome::Reject(LoginDenial::BadCredentials)));
}

#[test]
fn login_fails_on_undecodable_stored_credential() {
    let mut store = Store::new();
    store
        .insert_user(
            "bob@example.com".to_string(),
            Secret::from_encoded("garbage".to_string()),
            0,
        )
        .unwrap();
    let out = login(
        &mut store,
        SessionCreateData { user: "bob@example.com".to_string(), pass: "whatever".to_string() },
        9,
    );
    assert!(matches!(out, Outcome::Fail(_)));
}

#[test]
fn grant_issues_a_grant_session_for_the_guarded_user() {
    let mut store = store_with_account("correct horse battery staple");
    let out = login(
        &mut store,
        SessionCreateData {
            user: "bob@example.com".to_string(),
            pass: "correct horse battery staple".to_string(),
        },
        9,
    );
    let session = match out {
        Outcome::Commit(s) => s,
        _ => panic!("expected commit"),
    };
    let headers = vec![format!("Bearer {}", canonical(session.id.value))];
    let guard = authenticate(&store, &headers).ok().unwrap();
    let granted = grant_session(&mut store, &guard, 12);
    assert_eq!(granted.kind, 2);
    assert!(granted.valid);
    assert_eq!(granted.user_id, guard.user().id);
    assert!(store.find_session(granted.id).is_some());
}

#[test]
fn authenticable_is_exactly_valid_login_or_grant() {
    let base = Session {
        id: Uuid::new(1),
        kind: 0,
        user_id: Uuid::new(2),
        valid: true,
        created_at: 0,
        updated_at: 0,
    };
    for kind in 0u32..6 {
        for valid in [true, false] {
            let s = Session { kind, valid, ..base };
            let expected = valid && (kind == 1 || kind == 2);
            assert_eq!(s.authenticable(), expected);
        }
    }
}

#[test]
fn session_kind_decodes_the_stored_integer() {
    let base = Session {
        id: Uuid::new(1),
        kind: 0,
        user_id: Uuid::new(2),
        valid: true,
        created_at: 0,
        updated_at: 0,
    };
    assert_eq!(Session { kind: 1, ..base }.kind(), SessionKind::Login);
    assert_eq!(Session { kind: 2, ..base }.kind(), SessionKind::Grant);
    assert_eq!(Session { kind: 0, ..base }.kind(), SessionKind::Invalid);
    assert_eq!(Session { kind: 99, ..base }.kind(), SessionKind::Invalid);
    assert_eq!(SessionKind::Login.code(), 1);
    assert_eq!(SessionKind::Grant.code(), 2);
    assert_eq!(SessionKind::Invalid.code(), 0);
}

#[test]
fn invite_usable_requires_all_three_conditions() {
    let invite = Invite {
        id: Uuid::new(1),
        creator_id: Uuid::new(2),
        granter_id: Some(Uuid::new(2)),
        user_id: None,
        active: true,
        created_at: 0,
        updated_at: 0,
    };
    assert!(invite.usable());
    assert!(!Invite { active: false, ..invite }.usable());
    assert!(!Invite { granter_id: None, ..invite }.usable());
    assert!(!Invite { user_id: Some(Uuid::new(3)), ..invite }.usable());
}

#[test]
fn invite_updated_replaces_only_the_given_fields() {
    let invite = Invite {
        id: Uuid::new(1),
        creator_id: Uuid::new(2),
        granter_id: Some(Uuid::new(2)),
        user_id: None,
        active: true,
        created_at: 5,
        updated_at: 5,
    };
    let updated = invite.updated(None, None, Some(Some(Uuid::new(9))), Some(false), 7);
    assert_eq!(updated.id, invite.id);
    assert_eq!(updated.creator_id, invite.creator_id);
    assert_eq!(updated.granter_id, invite.granter_id);
    assert_eq!(updated.user_id, Some(Uuid::new(9)));
    assert!(!updated.active);
    assert_eq!(updated.created_at, 5);
    assert_eq!(updated.updated_at, 7);
}

#[test]
fn modify_distinguishes_its_three_cases() {
    let fields = [Modify::Assign(5u32), Modify::Keep, Modify::Reset];
    assert!(matches!(fields[0], Modify::Assign(5)));
    assert!(matches!(fields[1], Modify::Keep));
    assert!(matches!(fields[2], Modify::Reset));
}
