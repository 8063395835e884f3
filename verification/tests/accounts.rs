use backend::auth::jwt::{Claims, Keys};
use backend::auth::login::{
    authenticate, create_claims, issue, issue_when, judge, login, login_at, process_roles,
    unable_to_login,
    LoginError, LoginPayload, LoginResponse, UnexpectedCause,
};
use backend::auth::logout::{logged_out, logout, logout_with, salt_rotation, LogoutError};
use backend::auth::password::verify;
use backend::auth::salt::{salt, SALT_BYTES};
use backend::error::Error;
use backend::graphql::user::{Mutation, Query};
use backend::middlewares::auth::lookup_user::{lookup_optional_user, lookup_user_from_token};
use backend::middlewares::auth::pipeline::protect_at;
use backend::middlewares::auth::verify_jwt::{get_claims, get_claims_at};
use backend::models::user::{Role, UpdateUser, User, UserError, UserStore};
use base64::Engine;

const NOW: i64 = 1_700_000_000;

fn hashed(password: &str) -> String {
    bcrypt::hash(password, 4).unwrap()
}

fn role(name: &str) -> Role {
    Role { id: format!("role-{}", name), name: String::from(name), created_at: 1, updated_at: 2 }
}

fn user(id: &str, username: &str, password: &str, salt: &str) -> User {
    User {
        id: String::from(id),
        email: format!("{}@example.com", username),
        password: hashed(password),
        salt: String::from(salt),
        created_at: 10,
        updated_at: 20,
        username: String::from(username),
        roles: vec![role("admin"), role("player")],
    }
}

fn store_with(users: Vec<User>) -> UserStore {
    let mut store = UserStore::new();
    for u in users {
        store.save_user(u);
    }
    store
}

fn payload(username: &str, password: &str) -> LoginPayload {
    LoginPayload { username: String::from(username), password: String::from(password) }
}

fn bearer(token: &str) -> Vec<u8> {
    format!("Bearer {}", token).into_bytes()
}

#[test]
fn verify_tells_right_from_wrong() {
    let hash = hashed("secret123");
    assert_eq!(verify("secret123", &hash), Ok(true));
    assert_eq!(verify("secret124", &hash), Ok(false));
    assert_eq!(verify("", &hash), Ok(false));
    assert_eq!(verify(&hash, &hash), Ok(false));
}

#[test]
fn verify_checks_a_known_hash() {
    let hash = "$2y$12$L6Bc/AlTQHyd9liGgGEZyOFLPHNgyxeEPfgYfBCVxJ7JIlwxyVU3u";
    assert_eq!(verify("password", hash), Ok(false));
    let hash = "$2a$05$CCCCCCCCCCCCCCCCCCCCC.E5YPO9kmyuRGyh0XouQYb4YMJKvyOeW";
    assert_eq!(verify("U*U", hash), Ok(true));
}

#[test]
fn verify_fails_on_a_malformed_hash() {
    assert_eq!(verify("secret123", "not a hash"), Err(UserError::BadDecryption));
    assert_eq!(verify("secret123", ""), Err(UserError::BadDecryption));
    assert_eq!(verify("secret123", "secret123"), Err(UserError::BadDecryption));
    assert_eq!(verify("secret123", "$2y$12$tooshort"), Err(UserError::BadDecryption));
}

#[test]
fn login_answers_with_profile_and_token() {
    let store = store_with(vec![user("id-1", "alice", "secret123", "salt-1")]);
    let keys = Keys::new(b"secret");
    let response = login_at(&store, &keys, payload("alice", "secret123"), NOW).unwrap();
    assert_eq!(response.id, "id-1");
    assert_eq!(response.username, "alice");
    assert_eq!(response.email, "alice@example.com");
    assert_eq!(response.roles, vec![String::from("ROLE_ADMIN"), String::from("ROLE_PLAYER")]);
    let claims = get_claims_at(&response.access_token, &keys.decoding, NOW).unwrap();
    assert_eq!(
        claims,
        Claims { id: String::from("id-1"), salt: String::from("salt-1"), exp: 1_700_086_400 }
    );
}

#[test]
fn login_token_lasts_one_day() {
    let store = store_with(vec![user("id-1", "alice", "secret123", "salt-1")]);
    let keys = Keys::new(b"secret");
    let token = login_at(&store, &keys, payload("alice", "secret123"), NOW).unwrap().access_token;
    assert!(get_claims_at(&token, &keys.decoding, NOW + 86400).is_ok());
    assert!(get_claims_at(&token, &keys.decoding, NOW + 86401).is_err());
}

#[test]
fn login_now_gives_a_token_that_is_valid_now() {
    let store = store_with(vec![user("id-1", "alice", "secret123", "salt-1")]);
    let keys = Keys::new(b"secret");
    let response = login(&store, &keys, payload("alice", "secret123")).unwrap();
    let claims = get_claims(&response.access_token, &keys.decoding).unwrap();
    assert_eq!(claims.id, "id-1");
    assert_eq!(claims.salt, "salt-1");
}

#[test]
fn login_with_wrong_password_fails() {
    let store = store_with(vec![user("id-1", "alice", "secret123", "salt-1")]);
    let keys = Keys::new(b"secret");
    let expected = Err(LoginError::AuthError(UserError::InvalidCredentials));
    assert_eq!(login_at(&store, &keys, payload("alice", "secret124"), NOW), expected);
    assert_eq!(login(&store, &keys, payload("alice", "secret124")), expected);
}

#[test]
fn login_with_unknown_user_fails() {
    let store = store_with(vec![user("id-1", "alice", "secret123", "salt-1")]);
    let keys = Keys::new(b"secret");
    let expected = Err(LoginError::AuthError(UserError::UserNotFound));
    assert_eq!(login_at(&store, &keys, payload("nosuchuser", "secret123"), NOW), expected);
    assert_eq!(login(&store, &keys, payload("nosuchuser", "secret123")), expected);
    assert_eq!(login_at(&store, &keys, payload("Alice", "secret123"), NOW), expected);
    assert_eq!(login_at(&UserStore::new(), &keys, payload("alice", "secret123"), NOW), expected);
}

#[test]
fn unknown_user_and_wrong_password_are_answered_alike() {
    let store = store_with(vec![user("id-1", "alice", "secret123", "salt-1")]);
    let keys = Keys::new(b"secret");
    let unknown = login_at(&store, &keys, payload("nosuchuser", "x"), NOW).unwrap_err();
    let wrong = login_at(&store, &keys, payload("alice", "x"), NOW).unwrap_err();
    assert_eq!(unknown.status(), 401);
    assert_eq!(wrong.status(), 401);
    assert_eq!(unknown.body(), "Unable to login");
    assert_eq!(wrong.body(), unknown.body());
    assert_eq!(unknown.message(), wrong.message());
    assert_eq!(unable_to_login(), "Unable to login");
}

#[test]
fn login_with_a_name_held_twice_fails() {
    let store = store_with(vec![
        user("id-1", "alice", "secret123", "salt-1"),
        user("id-2", "alice", "secret123", "salt-2"),
    ]);
    let keys = Keys::new(b"secret");
    assert_eq!(
        login_at(&store, &keys, payload("alice", "secret123"), NOW),
        Err(LoginError::AuthError(UserError::UserNotFound))
    );
}

#[test]
fn login_with_a_malformed_hash_is_unexpected() {
    let mut broken = user("id-1", "alice", "secret123", "salt-1");
    broken.password = String::from("plain");
    let store = store_with(vec![broken]);
    let keys = Keys::new(b"secret");
    let err = login_at(&store, &keys, payload("alice", "plain"), NOW).unwrap_err();
    assert_eq!(err, LoginError::UnexpectedError(UnexpectedCause::User(UserError::BadDecryption)));
    assert_eq!(err.status(), 500);
    assert_eq!(err.body(), "Unable to login");
    assert_eq!(err.message(), "Something's gone wrong");
}

#[test]
fn login_with_a_key_that_cannot_sign_is_unexpected() {
    let store = store_with(vec![user("id-1", "alice", "secret123", "salt-1")]);
    let mut keys = Keys::new(b"secret");
    keys.encoding = jsonwebtoken::EncodingKey::from_rsa_der(b"secret");
    assert_eq!(
        login_at(&store, &keys, payload("alice", "secret123"), NOW),
        Err(LoginError::UnexpectedError(UnexpectedCause::TokenEncoding))
    );
}

#[test]
fn authenticate_returns_the_user() {
    let alice = user("id-1", "alice", "secret123", "salt-1");
    let store = store_with(vec![user("id-0", "bob", "hunter2", "salt-0"), alice.clone()]);
    assert_eq!(authenticate(&store, "alice", "secret123"), Ok(alice));
    assert_eq!(
        authenticate(&store, "alice", "hunter2"),
        Err(LoginError::AuthError(UserError::InvalidCredentials))
    );
}

#[test]
fn judge_maps_each_answer() {
    let alice = user("id-1", "alice", "secret123", "salt-1");
    assert_eq!(judge(alice.clone(), Ok(true)), Ok(alice.clone()));
    assert_eq!(
        judge(alice.clone(), Ok(false)),
        Err(LoginError::AuthError(UserError::InvalidCredentials))
    );
    assert_eq!(
        judge(alice.clone(), Err(UserError::BadDecryption)),
        Err(LoginError::UnexpectedError(UnexpectedCause::User(UserError::BadDecryption)))
    );
    assert_eq!(
        judge(alice, Err(UserError::UserNotFound)),
        Err(LoginError::AuthError(UserError::UserNotFound))
    );
}

#[test]
fn user_errors_at_the_login_boundary() {
    assert_eq!(
        LoginError::from(UserError::BadDecryption),
        LoginError::UnexpectedError(UnexpectedCause::User(UserError::BadDecryption))
    );
    assert_eq!(
        LoginError::from(UserError::NoDbConnectionError),
        LoginError::UnexpectedError(UnexpectedCause::User(UserError::NoDbConnectionError))
    );
    assert_eq!(
        LoginError::from(UserError::InvalidCredentials),
        LoginError::AuthError(UserError::InvalidCredentials)
    );
    assert_eq!(
        LoginError::from(UserError::UserNotFound),
        LoginError::AuthError(UserError::UserNotFound)
    );
    assert_eq!(LoginError::AuthError(UserError::UserNotFound).message(), "Authentication failed");
    assert_eq!(LoginError::UnexpectedError(UnexpectedCause::Clock).status(), 500);
    assert_eq!(Error::LoginFail(UserError::InvalidCredentials).status(), 401);
    assert_eq!(Error::LoginFail(UserError::BadDecryption).body(), "Unable to login");
    assert_eq!(UserError::NoDbConnectionError.label(), "NoDbConnectionError");
    assert_eq!(UserError::BadDecryption.label(), "BadDecryption");
    assert_eq!(UserError::InvalidCredentials.label(), "InvalidCredentials");
    assert_eq!(UserError::UserNotFound.label(), "UserNotFound");
}

#[test]
fn claims_copy_id_and_salt() {
    let alice = user("id-1", "alice", "secret123", "salt-1");
    assert_eq!(
        create_claims(&alice, 0),
        Claims { id: String::from("id-1"), salt: String::from("salt-1"), exp: 86400 }
    );
}

#[test]
fn issue_builds_the_response() {
    let alice = user("id-1", "alice", "secret123", "salt-1");
    let keys = Keys::new(b"secret");
    let response = issue(alice.clone(), &keys, NOW).unwrap();
    let token = response.access_token.clone();
    assert_eq!(response, LoginResponse::new(alice, token));
}

#[test]
fn roles_are_labelled_in_upper_case() {
    let labels = process_roles(vec![role("admin"), role("Club Director"), role("x9_z"), role("")]);
    assert_eq!(labels, vec!["ROLE_ADMIN", "ROLE_CLUB DIRECTOR", "ROLE_X9_Z", "ROLE_"]);
    assert_eq!(process_roles(vec![]), Vec::<String>::new());
}

#[test]
fn role_labels_leave_other_letters_alone() {
    let labels = process_roles(vec![role("\u{e9}mile"), role("stra\u{df}e")]);
    assert_eq!(labels, vec!["ROLE_\u{e9}MILE", "ROLE_STRA\u{df}E"]);
}

#[test]
fn salt_is_base64_of_forty_bytes() {
    let text = salt();
    assert_eq!(text.len(), 56);
    let bytes = base64::engine::general_purpose::STANDARD.decode(&text).unwrap();
    assert_eq!(bytes.len(), SALT_BYTES);
    assert_eq!(SALT_BYTES, 40);
    assert_ne!(text.as_bytes(), &bytes[..]);
}

#[test]
fn salts_differ() {
    let first = salt();
    let second = salt();
    assert_ne!(first, second);
    assert_ne!(first, base64::engine::general_purpose::STANDARD.encode([0u8; 40]));
}

#[test]
fn logout_rotates_only_the_salt_of_the_user() {
    let alice = user("id-1", "alice", "secret123", "salt-1");
    let bob = user("id-2", "bob", "hunter2", "salt-2");
    let mut store = store_with(vec![alice.clone(), bob.clone()]);
    assert_eq!(logout_with(&mut store, &alice, String::from("fresh")), Ok(()));
    let mut rotated = alice.clone();
    rotated.salt = String::from("fresh");
    assert_eq!(store.users, vec![rotated, bob]);
}

#[test]
fn logout_gives_a_fresh_salt() {
    let alice = user("id-1", "alice", "secret123", "salt-1");
    let mut store = store_with(vec![alice.clone()]);
    assert_eq!(logout(&mut store, &alice), Ok(()));
    let after = store.users[0].salt.clone();
    assert_ne!(after, "salt-1");
    assert_eq!(base64::engine::general_purpose::STANDARD.decode(&after).unwrap().len(), 40);
    let mut expected = alice;
    expected.salt = after;
    assert_eq!(store.users, vec![expected]);
}

#[test]
fn logout_of_an_unknown_user_changes_nothing() {
    let alice = user("id-1", "alice", "secret123", "salt-1");
    let ghost = user("id-9", "ghost", "boo", "salt-9");
    let mut store = store_with(vec![alice.clone()]);
    assert_eq!(logout(&mut store, &ghost), Ok(()));
    assert_eq!(store.users, vec![alice]);
}

#[test]
fn salt_rotation_names_user_and_salt() {
    let alice = user("id-1", "alice", "secret123", "salt-1");
    assert_eq!(
        salt_rotation(&alice, String::from("fresh")),
        UpdateUser {
            id: String::from("id-1"),
            username: None,
            email: None,
            password: None,
            salt: Some(String::from("fresh")),
        }
    );
}

#[test]
fn logout_texts() {
    assert_eq!(logged_out(), "Successfully logged out");
    assert_eq!(LogoutError::UserNotFound.message(), "User not found");
    assert_eq!(
        LogoutError::UnexpectedError(UserError::NoDbConnectionError).message(),
        "Something's gone wrong"
    );
}

#[test]
fn token_is_rejected_after_logout_though_it_still_decodes() {
    let alice = user("id-1", "alice", "secret123", "salt-1");
    let mut store = store_with(vec![alice.clone()]);
    let keys = Keys::new(b"secret");
    let token = login_at(&store, &keys, payload("alice", "secret123"), NOW).unwrap().access_token;
    let claims = get_claims_at(&token, &keys.decoding, NOW).unwrap();
    assert_eq!(lookup_user_from_token(&claims, &store), Ok(alice.clone()));
    logout(&mut store, &alice).unwrap();
    let again = get_claims_at(&token, &keys.decoding, NOW).unwrap();
    assert_eq!(again, claims);
    assert_eq!(
        lookup_user_from_token(&again, &store),
        Err(LoginError::AuthError(UserError::UserNotFound))
    );
    assert_eq!(protect_at(Some(&bearer(&token)), None, &keys, &store, NOW), Err(401));
}

#[test]
fn alice_logs_in_logs_out_and_logs_in_again() {
    let mut store = store_with(vec![user("id-1", "alice", "secret123", "salt-1")]);
    let keys = Keys::new(b"secret");
    let first = login_at(&store, &keys, payload("alice", "secret123"), NOW).unwrap().access_token;
    let alice = protect_at(Some(&bearer(&first)), None, &keys, &store, NOW).unwrap();
    assert_eq!(alice.username, "alice");
    assert_eq!(logout(&mut store, &alice), Ok(()));
    assert_eq!(protect_at(Some(&bearer(&first)), None, &keys, &store, NOW), Err(401));
    let second = login_at(&store, &keys, payload("alice", "secret123"), NOW).unwrap().access_token;
    assert_ne!(second, first);
    let back = protect_at(Some(&bearer(&second)), None, &keys, &store, NOW).unwrap();
    assert_eq!(back.id, "id-1");
    assert_eq!(back.salt, store.users[0].salt);
    assert_eq!(protect_at(Some(&bearer(&first)), None, &keys, &store, NOW), Err(401));
}

#[test]
fn logout_twice_succeeds_twice() {
    let mut store = store_with(vec![user("id-1", "alice", "secret123", "salt-1")]);
    let keys = Keys::new(b"secret");
    let token = login_at(&store, &keys, payload("alice", "secret123"), NOW).unwrap().access_token;
    let alice = store.users[0].clone();
    assert_eq!(logout(&mut store, &alice), Ok(()));
    let after_first = store.users[0].salt.clone();
    assert_eq!(protect_at(Some(&bearer(&token)), None, &keys, &store, NOW), Err(401));
    assert_eq!(logout(&mut store, &alice), Ok(()));
    let after_second = store.users[0].salt.clone();
    assert_ne!(after_first, after_second);
    assert_ne!(after_second, "salt-1");
    assert_eq!(protect_at(Some(&bearer(&token)), None, &keys, &store, NOW), Err(401));
}

#[test]
fn logout_of_one_user_leaves_the_tokens_of_another() {
    let mut store = store_with(vec![
        user("id-1", "alice", "secret123", "salt-1"),
        user("id-2", "bob", "hunter2", "salt-2"),
    ]);
    let keys = Keys::new(b"secret");
    let token = login_at(&store, &keys, payload("bob", "hunter2"), NOW).unwrap().access_token;
    let alice = store.users[0].clone();
    logout(&mut store, &alice).unwrap();
    let bob = protect_at(Some(&bearer(&token)), None, &keys, &store, NOW).unwrap();
    assert_eq!(bob.username, "bob");
}

#[test]
fn optional_lookup() {
    let alice = user("id-1", "alice", "secret123", "salt-1");
    let store = store_with(vec![alice.clone()]);
    assert_eq!(lookup_optional_user(None, &store), Ok(None));
    let good = Claims { id: String::from("id-1"), salt: String::from("salt-1"), exp: 1 };
    assert_eq!(lookup_optional_user(Some(&good), &store), Ok(Some(alice)));
    let stale = Claims { id: String::from("id-1"), salt: String::from("salt-0"), exp: 1 };
    assert_eq!(
        lookup_optional_user(Some(&stale), &store),
        Err(LoginError::AuthError(UserError::UserNotFound))
    );
    let stranger = Claims { id: String::from("id-7"), salt: String::from("salt-1"), exp: 1 };
    assert_eq!(
        lookup_user_from_token(&stranger, &store),
        Err(LoginError::AuthError(UserError::UserNotFound))
    );
}

#[test]
fn graphql_queries() {
    let alice = user("id-1", "alice", "secret123", "salt-1");
    let bob = user("id-2", "bob", "hunter2", "salt-2");
    let store = store_with(vec![alice.clone(), bob.clone()]);
    assert_eq!(Query.users(&store), vec![alice.clone(), bob]);
    assert_eq!(Query.user(&store, String::from("alice")), vec![alice]);
    assert_eq!(Query.user(&store, String::from("carol")), Vec::<User>::new());
}

#[test]
fn graphql_mutations() {
    let alice = user("id-1", "alice", "secret123", "salt-1");
    let mut store = store_with(vec![alice.clone()]);
    let keys = Keys::new(b"secret");
    let response = Mutation.login(&store, &keys, payload("alice", "secret123")).unwrap();
    assert_eq!(response.id, "id-1");
    assert_eq!(
        Mutation.login(&store, &keys, payload("alice", "nope")),
        Err(LoginError::AuthError(UserError::InvalidCredentials))
    );
    assert_eq!(Mutation.logout(&mut store, &None), Err(LogoutError::UserNotFound));
    assert_eq!(store.users, vec![alice.clone()]);
    assert_eq!(
        Mutation.logout(&mut store, &Some(alice)),
        Ok(String::from("User: alice logged out"))
    );
    assert_ne!(store.users[0].salt, "salt-1");
}

#[test]
fn login_at_a_time_without_expiration_is_the_clocks_failure() {
    let store = store_with(vec![user("id-1", "alice", "secret123", "salt-1")]);
    let keys = Keys::new(b"secret");
    let clock = Err(LoginError::UnexpectedError(UnexpectedCause::Clock));
    assert_eq!(login_at(&store, &keys, payload("alice", "secret123"), -1), clock);
    assert_eq!(login_at(&store, &keys, payload("alice", "secret123"), i64::MIN), clock);
    assert_eq!(login_at(&store, &keys, payload("alice", "secret123"), i64::MAX), clock);
    assert_eq!(login_at(&store, &keys, payload("alice", "secret123"), i64::MAX - 86399), clock);
    assert!(login_at(&store, &keys, payload("alice", "secret123"), i64::MAX - 86400).is_ok());
    assert!(login_at(&store, &keys, payload("alice", "secret123"), 0).is_ok());
}

#[test]
fn failing_credentials_come_before_the_clock() {
    let store = store_with(vec![user("id-1", "alice", "secret123", "salt-1")]);
    let keys = Keys::new(b"secret");
    assert_eq!(
        login_at(&store, &keys, payload("alice", "wrong"), -1),
        Err(LoginError::AuthError(UserError::InvalidCredentials))
    );
    assert_eq!(
        login_at(&store, &keys, payload("nosuchuser", "secret123"), i64::MAX),
        Err(LoginError::AuthError(UserError::UserNotFound))
    );
}

#[test]
fn issue_when_the_clock_allows() {
    let alice = user("id-1", "alice", "secret123", "salt-1");
    let keys = Keys::new(b"secret");
    assert_eq!(
        issue_when(alice.clone(), &keys, -1),
        Err(LoginError::UnexpectedError(UnexpectedCause::Clock))
    );
    assert_eq!(issue_when(alice.clone(), &keys, NOW), issue(alice.clone(), &keys, NOW));
    let token = issue_when(alice, &keys, NOW).unwrap().access_token;
    assert_eq!(get_claims_at(&token, &keys.decoding, NOW).unwrap().exp, 1_700_086_400);
}

#[test]
fn logout_failures_are_answered_by_kind() {
    assert_eq!(LogoutError::UserNotFound.status(), 401);
    assert_eq!(LogoutError::UnexpectedError(UserError::NoDbConnectionError).status(), 500);
}
