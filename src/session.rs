use vstd::prelude::*;
use crate::users::{authenticate, credentials_match, is_session_token, session_key, sha1_hex, User};

verus! {

/// Name of the cookie that carries the session token.
pub const SESSION_COOKIE: &'static str = "axum_session";

/// Where an accepted login lands.
pub const LANDING_PAGE: &'static str = "/pets";

/// Where a refused login goes: the login page with its error flag.
pub const LOGIN_ERROR_PAGE: &'static str = "/login?error";

/// Where an unauthenticated request goes.
pub const LOGIN_PAGE: &'static str = "/login";

/// Result of a login attempt.
pub enum LoginOutcome {
    /// Store `user` under `token` for `ttl` seconds, set the session cookie
    /// to `token` and go to the landing page.
    Granted { token: String, user: User, ttl: usize },
    /// No store write and no cookie; back to the login page with the error flag.
    Denied,
}

/// What a login leads to once the credentials are checked and a token drawn.
pub open spec fn grant_spec(user: Option<User>, token: Seq<char>, ttl: usize, r: LoginOutcome) -> bool {
    match user {
        Some(u) => (r matches LoginOutcome::Granted { token: t, user: v, ttl: n } && t@ == token
            && v == u && n == ttl),
        None => r is Denied,
    }
}

/// Turns the outcome of the credential check and a fresh token into the
/// login's outcome.
pub fn grant(user: Option<User>, token: String, ttl: usize) -> (r: LoginOutcome)
    ensures
        grant_spec(user, token@, ttl, r),
{
    match user {
        Some(u) => LoginOutcome::Granted { token, user: u, ttl },
        None => LoginOutcome::Denied,
    }
}

/// Login: checks `password` against the identities found for the submitted
/// name and, on success, issues a fresh token bound to the identity for
/// `session_timeout` seconds.
pub fn login(users: Vec<User>, password: &str, session_timeout: usize) -> (r: LoginOutcome)
    ensures
        (r is Granted) == credentials_match(users@, sha1_hex(password@)),
        r matches LoginOutcome::Granted { token, user, ttl } ==> is_session_token(token@)
            && user == users@[0] && ttl == session_timeout,
{
    let token = session_key();
    let user = authenticate(users, password);
    grant(user, token, session_timeout)
}

/// What the session store answered to a lookup of a token, with the record
/// already read back as an identity.
pub enum StoreReply {
    Found(User),
    /// A record is there but does not read back as an identity.
    Malformed,
    Missing,
    /// The store could not be reached or failed.
    Unavailable,
}

/// Where one protected request stands.
pub enum GateState {
    Unauthenticated,
    Authenticating { token: String },
    Authenticated { user: User },
    Rejected,
}

/// What happens to a protected request.
pub enum GateEvent {
    /// The request arrives, with the session cookie's value if it has one.
    Request { cookie: Option<String> },
    /// The store answered the lookup.
    Reply { reply: StoreReply },
}

/// What the caller must do next.
pub enum GateAction {
    /// Look `key` up in the store.
    Lookup { key: String },
    /// Reset the expiry of `key` to `ttl` seconds (a failure is only logged)
    /// and serve the request as the authenticated identity.
    RefreshAndProceed { key: String, ttl: usize },
    /// Send the client to the login page.
    RedirectToLogin,
}

/// One transition of the guard.
pub open spec fn gate_spec(
    state: GateState,
    event: GateEvent,
    ttl: usize,
    next: GateState,
    action: GateAction,
) -> bool {
    match (state, event) {
        (GateState::Unauthenticated, GateEvent::Request { cookie: Some(c) }) =>
{
            &&& (next matches GateState::Authenticating { token } && token@ == c@)
            &&& (action matches GateAction::Lookup { key } && key@ == c@)
        },
        (GateState::Authenticating { token }, GateEvent::Reply { reply: StoreReply::Found(u) }) =>
{
            &&& next == (GateState::Authenticated { user: u })
            &&& (action matches GateAction::RefreshAndProceed { key, ttl: n } && key@ == token@ && n == ttl)
        },
        _ => next is Rejected && action is RedirectToLogin,
    }
}

/// Advances the guard of one protected request by one event. A request with
/// no cookie, a missing, malformed or unreadable session, or an event out of
/// order is rejected: the guard fails closed.
pub fn step(state: GateState, event: GateEvent, session_timeout: usize) -> (r: (GateState, GateAction))
    ensures
        gate_spec(state, event, session_timeout, r.0, r.1),
{
    match (state, event) {
        (GateState::Unauthenticated, GateEvent::Request { cookie: Some(c) }) => {
            let key = c.clone();
            (GateState::Authenticating { token: c }, GateAction::Lookup { key })
        },
        (GateState::Authenticating { token }, GateEvent::Reply { reply: StoreReply::Found(u) }) => {
            (GateState::Authenticated { user: u }, GateAction::RefreshAndProceed { key: token, ttl: session_timeout })
        },
        _ => (GateState::Rejected, GateAction::RedirectToLogin),
    }
}

/// The session store: token to identity and the second at which it expires.
pub type StoreModel = Map<Seq<char>, (User, int)>;

/// The identity under `key` at second `now`, if its time has not run out.
pub open spec fn live(store: StoreModel, key: Seq<char>, now: int) -> Option<User> {
    if store.contains_key(key) && now < store[key].1 {
        Some(store[key].0)
    } else {
        None
    }
}

/// The reply to a lookup of `key` at second `now` from a reachable store.
pub open spec fn reply_of(store: StoreModel, key: Seq<char>, now: int) -> StoreReply {
    match live(store, key, now) {
        Some(u) => StoreReply::Found(u),
        None => StoreReply::Missing,
    }
}

/// Set with expiry: overwrites whatever was under `key`.
pub open spec fn put(store: StoreModel, key: Seq<char>, user: User, ttl: int, now: int) -> StoreModel {
    store.insert(key, (user, now + ttl))
}

/// Resets the expiry of a live entry; does nothing to a dead or absent one.
pub open spec fn touch(store: StoreModel, key: Seq<char>, ttl: int, now: int) -> StoreModel {
    match live(store, key, now) {
        Some(u) => store.insert(key, (u, now + ttl)),
        None => store,
    }
}

/// The store after a login's outcome has been carried out at second `now`.
pub open spec fn after_login(store: StoreModel, outcome: LoginOutcome, now: int) -> StoreModel {
    match outcome {
        LoginOutcome::Granted { token, user, ttl } => put(store, token@, user, ttl as int, now),
        LoginOutcome::Denied => store,
    }
}

/// A login with a wrong password, or for a name that matches no identity or
/// several, is denied and leaves the store as it was.
pub proof fn lemma_refused_login_writes_nothing(
    users: Seq<User>,
    password: Seq<char>,
    outcome: LoginOutcome,
    store: StoreModel,
    now: int,
)
    requires
        !credentials_match(users, sha1_hex(password)),
        (outcome is Granted) == credentials_match(users, sha1_hex(password)),
    ensures
        outcome is Denied,
        after_login(store, outcome, now) == store,
{
}

/// A token issued by a login and presented at once as the cookie is looked
/// up, resolves to the identity that logged in, and has its expiry reset to
/// the full timeout.
pub proof fn lemma_login_round_trip(
    store: StoreModel,
    token: String,
    user: User,
    ttl: usize,
    now: int,
    cookie: String,
    mid: GateState,
    lookup: GateAction,
    next: GateState,
    action: GateAction,
)
    requires
        ttl > 0,
        cookie@ == token@,
        gate_spec(GateState::Unauthenticated, GateEvent::Request { cookie: Some(cookie) }, ttl, mid, lookup),
        gate_spec(
            mid,
            GateEvent::Reply {
                reply: reply_of(after_login(store, LoginOutcome::Granted { token, user, ttl }, now), token@, now),
            },
            ttl,
            next,
            action,
        ),
    ensures
        lookup matches GateAction::Lookup { key } && key@ == token@,
        next == (GateState::Authenticated { user }),
        action matches GateAction::RefreshAndProceed { key, ttl: n } && key@ == token@ && n == ttl,
{
}

/// Every successful authorization resets the session's remaining lifetime
/// to the full timeout and keeps its identity; any later request within that
/// window finds the session alive, so repeated use never shortens it.
pub proof fn lemma_refresh_restores_full_ttl(store: StoreModel, key: Seq<char>, ttl: usize, now: int, later: int)
    requires
        live(store, key, now) is Some,
        now <= later < now + ttl,
    ensures
        touch(store, key, ttl as int, now)[key].1 - now == ttl,
        touch(store, key, ttl as int, now)[key].0 == store[key].0,
        live(touch(store, key, ttl as int, now), key, later) == live(store, key, now),
        touch(touch(store, key, ttl as int, now), key, ttl as int, later)[key].1 - later == ttl,
{
}

/// A token whose lifetime has run out (a lifetime of zero included) gets
/// the same reply as one that was never issued, and is rejected.
pub proof fn lemma_expired_as_never_issued(
    store: StoreModel,
    token: String,
    user: User,
    ttl: int,
    issued: int,
    now: int,
    session_timeout: usize,
)
    requires
        now >= issued + ttl,
    ensures
        reply_of(put(store, token@, user, ttl, issued), token@, now)
            == reply_of(store.remove(token@), token@, now),
        forall|next: GateState, action: GateAction|
            gate_spec(
                GateState::Authenticating { token },
                GateEvent::Reply { reply: reply_of(put(store, token@, user, ttl, issued), token@, now) },
                session_timeout,
                next,
                action,
            ) ==> next is Rejected && action is RedirectToLogin,
{
}

/// An unreachable store, a malformed record or a missing cookie always ends
/// in a rejection with a redirect to the login page, whatever the token.
pub proof fn lemma_fail_closed(
    state: GateState,
    event: GateEvent,
    ttl: usize,
    next: GateState,
    action: GateAction,
)
    requires
        gate_spec(state, event, ttl, next, action),
        event matches GateEvent::Reply { reply } ==> !(reply is Found),
        event matches GateEvent::Request { cookie } ==> cookie is None,
    ensures
        next is Rejected,
        action is RedirectToLogin,
{
}

} // verus!
