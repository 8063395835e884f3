//! Logging out: rotating the user's salt, which revokes every token issued
//! before.

use crate::auth::salt::{is_salt, salt};
use crate::models::user::{updated, UpdateUser, UpdateUserView, User, UserError, UserStore, UserView};
use crate::status::{INTERNAL_SERVER_ERROR, UNAUTHORIZED};
use vstd::prelude::*;

verus! {

/// Why a logout failed.
#[derive(Debug, PartialEq, Eq, Structural, Clone, Copy)]
pub enum LogoutError {
    /// The request carried no user to log out.
    UserNotFound,
    /// The store failed.
    UnexpectedError(UserError),
}

/// The status with which a failed logout is answered: a request without a
/// user lacks credentials, a failing store is the server's fault.
pub open spec fn logout_status(err: LogoutError) -> u16 {
    match err {
        LogoutError::UserNotFound => UNAUTHORIZED,
        LogoutError::UnexpectedError(_) => INTERNAL_SERVER_ERROR,
    }
}

impl LogoutError {
    /// The status sent to the client.
    pub fn status(&self) -> (code: u16)
        ensures
            code == logout_status(*self),
    {
        match self {
            LogoutError::UserNotFound => UNAUTHORIZED,
            LogoutError::UnexpectedError(_) => INTERNAL_SERVER_ERROR,
        }
    }

    /// The text of the error for the server's log.
    pub fn message(&self) -> (text: &'static str)
        ensures
            text@ == match *self {
                LogoutError::UserNotFound => "User not found"@,
                LogoutError::UnexpectedError(_) => "Something's gone wrong"@,
            },
    {
        match self {
            LogoutError::UserNotFound => "User not found",
            LogoutError::UnexpectedError(_) => "Something's gone wrong",
        }
    }
}

/// The message that a successful logout is answered with.
pub fn logged_out() -> (text: &'static str)
    ensures
        text@ == "Successfully logged out"@,
{
    "Successfully logged out"
}

/// The change that gives the user `id` the salt `salt` and touches nothing
/// else.
pub open spec fn rotation(id: Seq<char>, salt: Seq<char>) -> UpdateUserView {
    UpdateUserView { id, username: None, email: None, password: None, salt: Some(salt) }
}

/// The store after the user `id` was logged out with the fresh salt `salt`.
pub open spec fn after_logout(store: Seq<UserView>, id: Seq<char>, salt: Seq<char>) -> Seq<
    UserView,
> {
    store.map_values(|u: UserView| updated(u, rotation(id, salt)))
}

/// The change to persist when `user` logs out with the fresh salt `salt`.
pub fn salt_rotation(user: &User, salt: String) -> (update: UpdateUser)
    ensures
        update@ == rotation(user.id@, salt@),
{
    UpdateUser { id: user.id.clone(), username: None, email: None, password: None, salt: Some(salt) }
}

/// Logs `user` out with the given fresh salt.
pub fn logout_with(store: &mut UserStore, user: &User, salt: String) -> (r: Result<(), LogoutError>)
    ensures
        r is Ok,
        final(store)@ == after_logout(old(store)@, user.id@, salt@),
{
    store.update_user(salt_rotation(user, salt));
    Ok(())
}

/// Logs `user` out: the user's salt becomes a fresh random one. Always
/// succeeds, also where the user was logged out before.
pub fn logout(store: &mut UserStore, user: &User) -> (r: Result<(), LogoutError>)
    ensures
        r is Ok,
        exists|fresh: Seq<char>|
            is_salt(fresh) && final(store)@ == #[trigger] after_logout(old(store)@, user.id@, fresh),
{
    let fresh = salt();
    logout_with(store, user, fresh)
}

/// The last logout wins: of two logouts of one user in a row, the store
/// keeps the salt of the second and nothing of the first.
pub proof fn last_logout_wins(store: Seq<UserView>, id: Seq<char>, first: Seq<char>, second: Seq<char>)
    ensures
        after_logout(after_logout(store, id, first), id, second) == after_logout(store, id, second),
{
    assert(after_logout(after_logout(store, id, first), id, second) =~= after_logout(
        store,
        id,
        second,
    ));
}

/// A logout touches the salt of the user it names and nothing else: every
/// other user, and every other field of that user, stays as it was.
pub proof fn logout_touches_one_salt(store: Seq<UserView>, id: Seq<char>, fresh: Seq<char>, i: int)
    requires
        0 <= i < store.len(),
    ensures
        after_logout(store, id, fresh).len() == store.len(),
        store[i].id != id ==> after_logout(store, id, fresh)[i] == store[i],
        store[i].id == id ==> after_logout(store, id, fresh)[i] == (UserView {
            salt: fresh,
            ..store[i]
        }),
{
}

} // verus!
