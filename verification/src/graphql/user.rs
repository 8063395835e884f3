//! Queries and mutations on users.

use crate::auth::jwt::Keys;
use crate::auth::login::{
    credentials, logged_in_at, login, LoginError, LoginPayload, LoginResponse,
};
use crate::auth::logout::{after_logout, logout, LogoutError};
use crate::auth::salt::is_salt;
use crate::models::user::{found, user_views, User, UserQuery, UserStore};
use vstd::prelude::*;

verus! {

/// The root of the queries.
#[derive(Debug, PartialEq, Eq, Structural, Clone, Copy)]
pub struct Query;

/// The root of the mutations.
#[derive(Debug, PartialEq, Eq, Structural, Clone, Copy)]
pub struct Mutation;

impl Query {
    /// Every user of the store.
    pub fn users(&self, store: &UserStore) -> (all: Vec<User>)
        ensures
            user_views(all@) == store@,
    {
        store.all_users()
    }

    /// The users registered under `username`.
    pub fn user(&self, store: &UserStore, username: String) -> (hits: Vec<User>)
        ensures
            user_views(hits@) == found(
                store@,
                UserQuery { id: None, username: Some(username@), email: None, salt: None },
            ),
    {
        store.find_user(None, Some(username.as_str()), None, None)
    }
}

/// The answer to a logout over GraphQL.
pub open spec fn logout_notice(username: Seq<char>) -> Seq<char> {
    "User: "@ + username + " logged out"@
}

impl Mutation {
    /// Logs in, as `login` does.
    pub fn login(&self, store: &UserStore, keys: &Keys, payload: LoginPayload) -> (r: Result<
        LoginResponse,
        LoginError,
    >)
        ensures
            exists|now: i64| #[trigger]
                logged_in_at(r, store@, *keys, payload.username@, payload.password@, now),
            credentials(store@, payload.username@, payload.password@) matches Err(e) ==> r
                == Err::<LoginResponse, LoginError>(e),
    {
        login(store, keys, payload)
    }

    /// Logs out the user of the request. A request without a user fails and
    /// leaves the store as it is; otherwise the user's salt is rotated and
    /// the answer names the user.
    pub fn logout(&self, store: &mut UserStore, user: &Option<User>) -> (r: Result<
        String,
        LogoutError,
    >)
        ensures
            match *user {
                Some(target) => r is Ok && r->Ok_0@ == logout_notice(target.username@)
                    && exists|fresh: Seq<char>|
                    is_salt(fresh) && final(store)@ == #[trigger] after_logout(
                        old(store)@,
                        target.id@,
                        fresh,
                    ),
                None => r == Err::<String, LogoutError>(LogoutError::UserNotFound) && final(store)@
                    == old(store)@,
            },
    {
        match user {
            Some(target) => match logout(store, target) {
                Ok(()) => Ok(
                    String::from_str("User: ").concat(target.username.as_str()).concat(
                        " logged out",
                    ),
                ),
                Err(e) => Err(e),
            },
            None => Err(LogoutError::UserNotFound),
        }
    }
}

} // verus!
