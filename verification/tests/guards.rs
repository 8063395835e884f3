use backend::auth::jwt::{create_token, Claims, Keys};
use backend::middlewares::auth::pipeline::{protect, protect_at, step, RequestState};
use backend::middlewares::auth::session_owner_guard::{
    session_owner_guard, unauthorized, CrossUserAccess,
};
use backend::middlewares::auth::verify_jwt::{
    extract_bearer, get_claims_from_auth_token, get_claims_from_optional_auth_token,
    get_claims_from_optional_auth_token_at, BearerToken, JWTDecryptError,
};
use backend::models::user::{User, UserStore};
use backend::status::{INTERNAL_SERVER_ERROR, UNAUTHORIZED};

const NOW: i64 = 1_700_000_000;
const LATER: usize = 1_700_086_400;

fn user(id: &str, username: &str, salt: &str) -> User {
    User {
        id: String::from(id),
        email: format!("{}@example.com", username),
        password: String::from("$2b$04$hash"),
        salt: String::from(salt),
        created_at: 10,
        updated_at: 20,
        username: String::from(username),
        roles: vec![],
    }
}

fn store() -> UserStore {
    let mut store = UserStore::new();
    store.save_user(user("A", "alice", "salt-a"));
    store.save_user(user("B", "bob", "salt-b"));
    store
}

fn token_for(id: &str, salt: &str, exp: usize, keys: &Keys) -> String {
    let claims = Claims { id: String::from(id), salt: String::from(salt), exp };
    create_token(&claims, &keys.encoding).unwrap()
}

fn bearer(token: &str) -> Vec<u8> {
    format!("Bearer {}", token).into_bytes()
}

#[test]
fn statuses() {
    assert_eq!(UNAUTHORIZED, 401);
    assert_eq!(INTERNAL_SERVER_ERROR, 500);
    assert_eq!(unauthorized(), "Unauthorized");
}

#[test]
fn header_absent_is_rejected() {
    assert_eq!(BearerToken::from_header(None), Err(401));
}

#[test]
fn header_that_is_not_text_is_rejected() {
    assert_eq!(BearerToken::from_header(Some(&[0x80])), Err(401));
    assert_eq!(BearerToken::from_header(Some(b"Bearer \xffabc")), Err(401));
    assert_eq!(BearerToken::from_header(Some(&[0x7f])), Err(401));
    assert_eq!(BearerToken::from_header(Some(&[0x1f])), Err(401));
    assert_eq!(BearerToken::from_header(Some(b"abc\n")), Err(401));
    assert_eq!(BearerToken::from_header(Some(&[0])), Err(401));
    assert_eq!(BearerToken::from_header(Some("Bearer \u{e9}".as_bytes())), Err(401));
}

#[test]
fn header_text_is_taken_whole() {
    assert_eq!(
        BearerToken::from_header(Some(b"Bearer abc.def.ghi")),
        Ok(BearerToken(String::from("Bearer abc.def.ghi")))
    );
    assert_eq!(BearerToken::from_header(Some(b"")), Ok(BearerToken(String::new())));
    assert_eq!(BearerToken::from_header(Some(b" ~\t")), Ok(BearerToken(String::from(" ~\t"))));
    assert_eq!(
        BearerToken::from_header(Some(b"Basic dXNlcjpwdw==")),
        Ok(BearerToken(String::from("Basic dXNlcjpwdw==")))
    );
}

#[test]
fn scheme_is_stripped_from_the_front_only() {
    assert_eq!(BearerToken(String::from("Bearer abc")).token(), "abc");
    assert_eq!(BearerToken(String::from("abc")).token(), "abc");
    assert_eq!(BearerToken(String::from("Bearer ")).token(), "");
    assert_eq!(BearerToken(String::from("Bearer")).token(), "Bearer");
    assert_eq!(BearerToken(String::from("")).token(), "");
    assert_eq!(BearerToken(String::from("Bearer Bearer abc")).token(), "Bearer abc");
    assert_eq!(BearerToken(String::from("abc Bearer def")).token(), "abc Bearer def");
    assert_eq!(BearerToken(String::from("bearer abc")).token(), "bearer abc");
    assert_eq!(BearerToken(String::from(" Bearer abc")).token(), " Bearer abc");
    assert_eq!(BearerToken(String::from("Bearer  abc")).token(), " abc");
    assert_eq!(BearerToken(String::from("Bearer \u{e9}\u{4e16}")).token(), "\u{e9}\u{4e16}");
}

#[test]
fn bearer_is_extracted_from_the_header_bytes() {
    assert_eq!(extract_bearer(Some(b"Bearer abc.def.ghi")), Ok(String::from("abc.def.ghi")));
    assert_eq!(extract_bearer(Some(b"abc.def.ghi")), Ok(String::from("abc.def.ghi")));
    assert_eq!(extract_bearer(Some(b"Bearer ")), Ok(String::new()));
    assert_eq!(extract_bearer(Some(b"")), Ok(String::new()));
    assert_eq!(extract_bearer(None), Err(401));
    assert_eq!(extract_bearer(Some(b"Bearer \x00")), Err(401));
    assert_eq!(extract_bearer(Some(&[0xc3, 0xa9])), Err(401));
}

#[test]
fn claims_come_from_a_bearer_header() {
    let keys = Keys::new(b"secret");
    let token = token_for("A", "salt-a", 4102444800, &keys);
    let expected = Claims { id: String::from("A"), salt: String::from("salt-a"), exp: 4102444800 };
    let header = BearerToken(format!("Bearer {}", token));
    assert_eq!(get_claims_from_auth_token(header, &keys), Ok(expected.clone()));
    let bare = BearerToken(token);
    assert_eq!(get_claims_from_auth_token(bare, &keys), Ok(expected));
    let junk = BearerToken(String::from("Bearer junk"));
    assert_eq!(get_claims_from_auth_token(junk, &keys), Err(JWTDecryptError));
    let old = BearerToken(format!("Bearer {}", token_for("A", "salt-a", 1000, &keys)));
    assert_eq!(get_claims_from_auth_token(old, &keys), Err(JWTDecryptError));
}

#[test]
fn optional_claims() {
    let keys = Keys::new(b"secret");
    assert_eq!(get_claims_from_optional_auth_token_at(None, &keys, NOW), Ok(None));
    assert_eq!(get_claims_from_optional_auth_token(None, &keys), Ok(None));
    let token = token_for("A", "salt-a", LATER, &keys);
    let expected = Claims { id: String::from("A"), salt: String::from("salt-a"), exp: LATER };
    let header = || Some(BearerToken(format!("Bearer {}", token)));
    assert_eq!(
        get_claims_from_optional_auth_token_at(header(), &keys, NOW),
        Ok(Some(expected))
    );
    assert_eq!(
        get_claims_from_optional_auth_token_at(header(), &keys, NOW + 86401),
        Err(JWTDecryptError)
    );
    assert_eq!(get_claims_from_optional_auth_token(header(), &keys), Err(JWTDecryptError));
    let junk = Some(BearerToken(String::from("junk")));
    assert_eq!(get_claims_from_optional_auth_token_at(junk, &keys, NOW), Err(JWTDecryptError));
}

#[test]
fn owner_guard_lets_the_owner_through() {
    let alice = user("A", "alice", "salt-a");
    assert_eq!(session_owner_guard(&alice, "A"), Ok(()));
}

#[test]
fn owner_guard_turns_others_away() {
    let bob = user("B", "bob", "salt-b");
    assert_eq!(
        session_owner_guard(&bob, "A"),
        Err(CrossUserAccess { subject: String::from("B"), target: String::from("A") })
    );
    assert!(session_owner_guard(&bob, "b").is_err());
    assert!(session_owner_guard(&bob, "").is_err());
    assert!(session_owner_guard(&bob, "B ").is_err());
}

#[test]
fn protected_route_admits_a_valid_token() {
    let keys = Keys::new(b"secret");
    let store = store();
    let header = bearer(&token_for("A", "salt-a", LATER, &keys));
    assert_eq!(protect_at(Some(&header), None, &keys, &store, NOW), Ok(user("A", "alice", "salt-a")));
    assert_eq!(
        protect_at(Some(&header), Some("A"), &keys, &store, NOW),
        Ok(user("A", "alice", "salt-a"))
    );
}

#[test]
fn protected_route_rejects_another_users_path() {
    let keys = Keys::new(b"secret");
    let store = store();
    let header = bearer(&token_for("B", "salt-b", LATER, &keys));
    assert_eq!(protect_at(Some(&header), None, &keys, &store, NOW), Ok(user("B", "bob", "salt-b")));
    assert_eq!(protect_at(Some(&header), Some("A"), &keys, &store, NOW), Err(401));
    assert_eq!(protect_at(Some(&header), Some("C"), &keys, &store, NOW), Err(401));
}

#[test]
fn protected_route_rejects_at_every_guard() {
    let keys = Keys::new(b"secret");
    let store = store();
    assert_eq!(protect_at(None, None, &keys, &store, NOW), Err(401));
    assert_eq!(protect_at(Some(b"\xff"), None, &keys, &store, NOW), Err(401));
    assert_eq!(protect_at(Some(b"Bearer junk"), None, &keys, &store, NOW), Err(401));
    let expired = bearer(&token_for("A", "salt-a", 1000, &keys));
    assert_eq!(protect_at(Some(&expired), None, &keys, &store, NOW), Err(401));
    let stale = bearer(&token_for("A", "salt-0", LATER, &keys));
    assert_eq!(protect_at(Some(&stale), None, &keys, &store, NOW), Err(401));
    let stranger = bearer(&token_for("C", "salt-a", LATER, &keys));
    assert_eq!(protect_at(Some(&stranger), None, &keys, &store, NOW), Err(401));
    let foreign = bearer(&token_for("A", "salt-a", LATER, &Keys::new(b"other")));
    assert_eq!(protect_at(Some(&foreign), None, &keys, &store, NOW), Err(401));
}

#[test]
fn protected_route_now() {
    let keys = Keys::new(b"secret");
    let store = store();
    let header = bearer(&token_for("A", "salt-a", 4102444800, &keys));
    assert_eq!(protect(Some(&header), Some("A"), &keys, &store), Ok(user("A", "alice", "salt-a")));
    assert_eq!(protect(Some(&header), Some("B"), &keys, &store), Err(401));
    let expired = bearer(&token_for("A", "salt-a", 1000, &keys));
    assert_eq!(protect(Some(&expired), None, &keys, &store), Err(401));
}

#[test]
fn a_request_passes_state_by_state() {
    let keys = Keys::new(b"secret");
    let store = store();
    let token = token_for("A", "salt-a", LATER, &keys);
    let header = bearer(&token);
    let go = |state: RequestState| step(state, Some(&header), Some("A"), &keys, &store, NOW);
    let state = go(RequestState::Unauthenticated);
    assert_eq!(state, RequestState::BearerExtracted(BearerToken(format!("Bearer {}", token))));
    let state = go(state);
    assert_eq!(
        state,
        RequestState::ClaimsVerified(Claims {
            id: String::from("A"),
            salt: String::from("salt-a"),
            exp: LATER
        })
    );
    let state = go(state);
    assert_eq!(state, RequestState::IdentityResolved(user("A", "alice", "salt-a")));
    let state = go(state);
    assert_eq!(state, RequestState::Authorized(user("A", "alice", "salt-a")));
    let state = go(state);
    assert_eq!(state, RequestState::Handled);
    assert_eq!(go(state), RequestState::Handled);
}

#[test]
fn every_state_can_lead_to_rejection() {
    let keys = Keys::new(b"secret");
    let store = store();
    let go = |state: RequestState, header: Option<&[u8]>, owner: Option<&str>| {
        step(state, header, owner, &keys, &store, NOW)
    };
    assert_eq!(go(RequestState::Unauthenticated, None, None), RequestState::Rejected(401));
    assert_eq!(
        go(RequestState::BearerExtracted(BearerToken(String::from("Bearer x"))), None, None),
        RequestState::Rejected(401)
    );
    let stale = Claims { id: String::from("A"), salt: String::from("old"), exp: LATER };
    assert_eq!(go(RequestState::ClaimsVerified(stale), None, None), RequestState::Rejected(401));
    assert_eq!(
        go(RequestState::IdentityResolved(user("B", "bob", "salt-b")), None, Some("A")),
        RequestState::Rejected(401)
    );
    assert_eq!(
        go(RequestState::IdentityResolved(user("B", "bob", "salt-b")), None, None),
        RequestState::Authorized(user("B", "bob", "salt-b"))
    );
    assert_eq!(go(RequestState::Rejected(401), None, None), RequestState::Rejected(401));
    assert_eq!(go(RequestState::Rejected(500), None, None), RequestState::Rejected(500));
}

#[test]
fn optional_header() {
    assert_eq!(BearerToken::from_optional_header(None), Ok(None));
    assert_eq!(
        BearerToken::from_optional_header(Some(b"Bearer abc")),
        Ok(Some(BearerToken(String::from("Bearer abc"))))
    );
    assert_eq!(
        BearerToken::from_optional_header(Some(b"")),
        Ok(Some(BearerToken(String::new())))
    );
    assert_eq!(BearerToken::from_optional_header(Some(&[0xff])), Err(401));
    assert_eq!(BearerToken::from_optional_header(Some(b"Bearer \n")), Err(401));
}
