use petclinic::session::{
    grant, login, step, GateAction, GateEvent, GateState, LoginOutcome, StoreReply, LANDING_PAGE,
    LOGIN_ERROR_PAGE, LOGIN_PAGE, SESSION_COOKIE,
};
use petclinic::User;
use std::collections::HashMap;

const ADMIN_DIGEST: &str = "d033e22ae348aeb5660fc2140aec35850c4da997";
const TIMEOUT: usize = 108000;

fn admin() -> User {
    User { id: 7, username: "admin".to_string(), password: ADMIN_DIGEST.to_string() }
}

fn copy(u: &User) -> User {
    User { id: u.id, username: u.username.clone(), password: u.password.clone() }
}

/// Runs the guard for one request against an in-memory store.
fn authorize(store: &HashMap<String, User>, cookie: Option<&str>) -> (GateState, Option<(String, usize)>) {
    let (state, action) = step(
        GateState::Unauthenticated,
        GateEvent::Request { cookie: cookie.map(|c| c.to_string()) },
        TIMEOUT,
    );
    let key = match action {
        GateAction::Lookup { key } => key,
        GateAction::RedirectToLogin => return (state, None),
        GateAction::RefreshAndProceed { .. } => panic!("refresh before lookup"),
    };
    let reply = match store.get(&key) {
        Some(u) => StoreReply::Found(copy(u)),
        None => StoreReply::Missing,
    };
    let (state, action) = step(state, GateEvent::Reply { reply }, TIMEOUT);
    match action {
        GateAction::RefreshAndProceed { key, ttl } => (state, Some((key, ttl))),
        _ => (state, None),
    }
}

#[test]
fn login_admin_scenario() {
    assert_eq!(SESSION_COOKIE, "axum_session");
    let mut store: HashMap<String, User> = HashMap::new();
    let token = match login(vec![admin()], "admin", TIMEOUT) {
        LoginOutcome::Granted { token, user, ttl } => {
            assert_eq!(ttl, TIMEOUT);
            assert_eq!(user.id, 7);
            store.insert(token.clone(), user);
            token
        }
        LoginOutcome::Denied => panic!("admin/admin refused"),
    };
    assert_eq!(LANDING_PAGE, "/pets");
    assert_eq!(token.len(), 32);
    assert!(store.contains_key(&token));

    let (state, refresh) = authorize(&store, Some(&token));
    match state {
        GateState::Authenticated { user } => assert_eq!(user.username, "admin"),
        _ => panic!("session not resolved"),
    }
    assert_eq!(refresh, Some((token.clone(), TIMEOUT)));
}

#[test]
fn login_wrong_password_scenario() {
    let outcome = login(vec![admin()], "wrong", TIMEOUT);
    assert!(matches!(outcome, LoginOutcome::Denied));
    assert_eq!(LOGIN_ERROR_PAGE, "/login?error");
}

#[test]
fn deleted_session_is_sent_to_login() {
    let mut store: HashMap<String, User> = HashMap::new();
    store.insert("abc".to_string(), admin());
    store.remove("abc");
    let (state, refresh) = authorize(&store, Some("abc"));
    assert!(matches!(state, GateState::Rejected));
    assert_eq!(refresh, None);
    assert_eq!(LOGIN_PAGE, "/login");
}

#[test]
fn never_issued_token_is_rejected() {
    let store: HashMap<String, User> = HashMap::new();
    let (state, _) = authorize(&store, Some("nope"));
    assert!(matches!(state, GateState::Rejected));
}

#[test]
fn missing_cookie_is_rejected() {
    let (state, action) = step(GateState::Unauthenticated, GateEvent::Request { cookie: None }, TIMEOUT);
    assert!(matches!(state, GateState::Rejected));
    assert!(matches!(action, GateAction::RedirectToLogin));
}

#[test]
fn unreachable_store_is_rejected() {
    let s = GateState::Authenticating { token: "t".to_string() };
    let (state, action) = step(s, GateEvent::Reply { reply: StoreReply::Unavailable }, TIMEOUT);
    assert!(matches!(state, GateState::Rejected));
    assert!(matches!(action, GateAction::RedirectToLogin));
}

#[test]
fn malformed_record_is_rejected() {
    let s = GateState::Authenticating { token: "t".to_string() };
    let (state, action) = step(s, GateEvent::Reply { reply: StoreReply::Malformed }, TIMEOUT);
    assert!(matches!(state, GateState::Rejected));
    assert!(matches!(action, GateAction::RedirectToLogin));
}

#[test]
fn repeated_authorization_refreshes_full_timeout() {
    let mut store: HashMap<String, User> = HashMap::new();
    store.insert("tok".to_string(), admin());
    for _ in 0..3 {
        let (state, refresh) = authorize(&store, Some("tok"));
        assert!(matches!(state, GateState::Authenticated { .. }));
        assert_eq!(refresh, Some(("tok".to_string(), TIMEOUT)));
    }
}

#[test]
fn out_of_order_event_is_rejected() {
    let (state, _) = step(
        GateState::Unauthenticated,
        GateEvent::Reply { reply: StoreReply::Found(admin()) },
        TIMEOUT,
    );
    assert!(matches!(state, GateState::Rejected));
}

#[test]
fn grant_carries_token_and_identity() {
    match grant(Some(admin()), "tok".to_string(), 5) {
        LoginOutcome::Granted { token, user, ttl } => {
            assert_eq!(token, "tok");
            assert_eq!(user.id, 7);
            assert_eq!(ttl, 5);
        }
        LoginOutcome::Denied => panic!("denied"),
    }
    assert!(matches!(grant(None, "tok".to_string(), 5), LoginOutcome::Denied));
}
