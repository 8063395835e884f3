//! From verified claims to the user they name.

use crate::auth::jwt::{Claims, ClaimsView};
use crate::auth::login::LoginError;
use crate::auth::logout::{after_logout, rotation};
use crate::models::user::{
    found, found_is_complete, found_is_sound, updated, User, UserError, UserQuery, UserStore,
    UserView,
};
use vstd::prelude::*;

verus! {

/// The user that `claims` name: the first record with the claims' id whose
/// current salt is the claims' salt.
pub open spec fn identity(store: Seq<UserView>, claims: ClaimsView) -> Option<UserView> {
    let hits = found(
        store,
        UserQuery { id: Some(claims.id), username: None, email: None, salt: Some(claims.salt) },
    );
    if hits.len() > 0 {
        Some(hits[0])
    } else {
        None
    }
}

/// Resolves claims into a user. Fails as bad credentials where no record has
/// both the id and the salt of the claims, which is how the token of a user
/// who has logged out since is turned away.
pub fn lookup_user_from_token(claims: &Claims, store: &UserStore) -> (r: Result<User, LoginError>)
    ensures
        match identity(store@, claims@) {
            Some(user) => r is Ok && r->Ok_0@ == user,
            None => r == Err::<User, LoginError>(LoginError::AuthError(UserError::UserNotFound)),
        },
{
    let mut users = store.find_user(
        Some(claims.id.as_str()),
        None,
        None,
        Some(claims.salt.as_str()),
    );
    if users.len() > 0 {
        Ok(users.remove(0))
    } else {
        Err(LoginError::AuthError(UserError::UserNotFound))
    }
}

/// The user of a request that may be anonymous.
pub open spec fn optional_identity(store: Seq<UserView>, claims: Option<ClaimsView>) -> Result<
    Option<UserView>,
    LoginError,
> {
    match claims {
        None => Ok(None),
        Some(c) => match identity(store, c) {
            Some(user) => Ok(Some(user)),
            None => Err(LoginError::AuthError(UserError::UserNotFound)),
        },
    }
}

/// Resolves the claims of a request that may be anonymous: no claims give no
/// user, claims are resolved as `lookup_user_from_token` resolves them.
pub fn lookup_optional_user(claims: Option<&Claims>, store: &UserStore) -> (r: Result<
    Option<User>,
    LoginError,
>)
    ensures
        match optional_identity(
            store@,
            match claims {
                Some(c) => Some(c@),
                None => None,
            },
        ) {
            Ok(Some(user)) => r is Ok && r->Ok_0 is Some && r->Ok_0->Some_0@ == user,
            Ok(None) => r is Ok && r->Ok_0 is None,
            Err(e) => r == Err::<Option<User>, LoginError>(e),
        },
{
    match claims {
        None => Ok(None),
        Some(c) => match lookup_user_from_token(c, store) {
            Ok(user) => Ok(Some(user)),
            Err(e) => Err(e),
        },
    }
}

/// Logging out revokes: once the user of `claims` has been logged out with a
/// fresh salt other than the one in the claims, the claims resolve to no
/// user, whatever the store held before.
pub proof fn rotated_salt_is_rejected(store: Seq<UserView>, claims: ClaimsView, fresh: Seq<char>)
    requires
        claims.salt != fresh,
    ensures
        identity(after_logout(store, claims.id, fresh), claims) is None,
{
    let rotated = after_logout(store, claims.id, fresh);
    let query = UserQuery {
        id: Some(claims.id),
        username: None,
        email: None,
        salt: Some(claims.salt),
    };
    if found(rotated, query).len() > 0 {
        found_is_sound(rotated, query, 0);
        let hit = found(rotated, query)[0];
        let j = choose|j: int| 0 <= j < rotated.len() && rotated[j] == hit;
        assert(hit == updated(store[j], rotation(claims.id, fresh)));
    }
}

/// Logging out twice revokes as logging out once does: claims issued before
/// the first logout resolve to no user after it, and to none after the
/// second, as long as neither fresh salt is the one in the claims.
pub proof fn logout_twice_keeps_rejecting(
    store: Seq<UserView>,
    claims: ClaimsView,
    first: Seq<char>,
    second: Seq<char>,
)
    requires
        claims.salt != first,
        claims.salt != second,
    ensures
        identity(after_logout(store, claims.id, first), claims) is None,
        identity(
            after_logout(after_logout(store, claims.id, first), claims.id, second),
            claims,
        ) is None,
{
    rotated_salt_is_rejected(store, claims, first);
    rotated_salt_is_rejected(after_logout(store, claims.id, first), claims, second);
}

/// Claims whose id and salt are those of a user of the store resolve to a
/// user with that id and salt.
pub proof fn current_salt_is_accepted(store: Seq<UserView>, claims: ClaimsView, i: int)
    requires
        0 <= i < store.len(),
        store[i].id == claims.id,
        store[i].salt == claims.salt,
    ensures
        identity(store, claims) matches Some(user) && user.id == claims.id && user.salt
            == claims.salt && store.contains(user),
{
    let query = UserQuery {
        id: Some(claims.id),
        username: None,
        email: None,
        salt: Some(claims.salt),
    };
    found_is_complete(store, query, i);
    found_is_sound(store, query, 0);
}

} // verus!
