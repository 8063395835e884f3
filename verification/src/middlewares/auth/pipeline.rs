//! The states a request to a protected route passes through, and the chain
//! of guards as one function.

use crate::auth::jwt::{decoded, Claims, ClaimsView, Keys};
use crate::auth::logout::after_logout;
use crate::clock::unix_now;
use crate::middlewares::auth::lookup_user::{
    identity, lookup_user_from_token, rotated_salt_is_rejected,
};
use crate::middlewares::auth::session_owner_guard::session_owner_guard;
use crate::middlewares::auth::verify_jwt::{extracted, get_claims_at, without_scheme, BearerToken};
use crate::models::user::{User, UserStore, UserView};
use crate::status::UNAUTHORIZED;
use crate::text::optional_str;
use jsonwebtoken::DecodingKey;
use vstd::prelude::*;

verus! {

/// Where a request to a protected route stands.
#[derive(Debug, PartialEq, Eq)]
pub enum RequestState {
    /// Nothing is known of the caller yet.
    Unauthenticated,
    /// The `Authorization` header was read as text.
    BearerExtracted(BearerToken),
    /// The token was decoded into claims.
    ClaimsVerified(Claims),
    /// The claims were resolved into a user.
    IdentityResolved(User),
    /// The user may reach the resource.
    Authorized(User),
    /// The handler has run. Terminal.
    Handled,
    /// A guard turned the request away with this status. Terminal.
    Rejected(u16),
}

/// What a `RequestState` stands for.
pub enum StateView {
    Unauthenticated,
    BearerExtracted(Seq<char>),
    ClaimsVerified(ClaimsView),
    IdentityResolved(UserView),
    Authorized(UserView),
    Handled,
    Rejected(u16),
}

impl View for RequestState {
    type V = StateView;

    open spec fn view(&self) -> StateView {
        match *self {
            RequestState::Unauthenticated => StateView::Unauthenticated,
            RequestState::BearerExtracted(token) => StateView::BearerExtracted(token.0@),
            RequestState::ClaimsVerified(claims) => StateView::ClaimsVerified(claims@),
            RequestState::IdentityResolved(user) => StateView::IdentityResolved(user@),
            RequestState::Authorized(user) => StateView::Authorized(user@),
            RequestState::Handled => StateView::Handled,
            RequestState::Rejected(status) => StateView::Rejected(status),
        }
    }
}

/// Whether a state is terminal.
pub open spec fn is_terminal(state: StateView) -> bool {
    state is Handled || state is Rejected
}

/// What the guards see of a request and its surroundings.
pub struct Surroundings {
    /// The bytes of the `Authorization` header, if the request has one.
    pub header: Option<Seq<u8>>,
    /// The owner id in the path, on an owner-scoped route.
    pub owner: Option<Seq<char>>,
    /// The key that tokens are verified with.
    pub key: DecodingKey,
    /// The users known at the time of the request.
    pub store: Seq<UserView>,
    /// The time of the request.
    pub now: i64,
}

/// Whether `user` may reach the resources of `owner`: on a route without an
/// owner every user may, otherwise only the owner.
pub open spec fn entitled(user: UserView, owner: Option<Seq<char>>) -> bool {
    owner matches Some(id) ==> user.id == id
}

/// The state that follows `state`.
pub open spec fn next(state: StateView, around: Surroundings) -> StateView {
    match state {
        StateView::Unauthenticated => match extracted(around.header) {
            Some(text) => StateView::BearerExtracted(text),
            None => StateView::Rejected(UNAUTHORIZED),
        },
        StateView::BearerExtracted(text) => match decoded(
            without_scheme(text),
            around.key,
            around.now,
        ) {
            Some(claims) => StateView::ClaimsVerified(claims),
            None => StateView::Rejected(UNAUTHORIZED),
        },
        StateView::ClaimsVerified(claims) => match identity(around.store, claims) {
            Some(user) => StateView::IdentityResolved(user),
            None => StateView::Rejected(UNAUTHORIZED),
        },
        StateView::IdentityResolved(user) => if entitled(user, around.owner) {
            StateView::Authorized(user)
        } else {
            StateView::Rejected(UNAUTHORIZED)
        },
        StateView::Authorized(_) => StateView::Handled,
        StateView::Handled => StateView::Handled,
        StateView::Rejected(status) => StateView::Rejected(status),
    }
}

/// What the guards see when they run with these arguments.
pub open spec fn surroundings(
    header: Option<&[u8]>,
    owner: Option<&str>,
    keys: &Keys,
    store: &UserStore,
    now: i64,
) -> Surroundings {
    Surroundings {
        header: optional_bytes(header),
        owner: optional_str(owner),
        key: keys.decoding,
        store: store@,
        now,
    }
}

/// The view of an optional header.
pub open spec fn optional_bytes(header: Option<&[u8]>) -> Option<Seq<u8>> {
    match header {
        Some(raw) => Some(raw@),
        None => None,
    }
}

/// Moves a request one state on. A failing guard leads straight to
/// `Rejected`; the terminal states stay as they are.
pub fn step(
    state: RequestState,
    header: Option<&[u8]>,
    owner: Option<&str>,
    keys: &Keys,
    store: &UserStore,
    now: i64,
) -> (r: RequestState)
    ensures
        r@ == next(
            state@,
            surroundings(header, owner, keys, store, now),
        ),
{
    match state {
        RequestState::Unauthenticated => match BearerToken::from_header(header) {
            Ok(token) => RequestState::BearerExtracted(token),
            Err(status) => RequestState::Rejected(status),
        },
        RequestState::BearerExtracted(bearer) => {
            let token = bearer.token();
            match get_claims_at(token.as_str(), &keys.decoding, now) {
                Ok(claims) => RequestState::ClaimsVerified(claims),
                Err(e) => RequestState::Rejected(e.status()),
            }
        },
        RequestState::ClaimsVerified(claims) => match lookup_user_from_token(&claims, store) {
            Ok(user) => RequestState::IdentityResolved(user),
            Err(e) => RequestState::Rejected(e.status()),
        },
        RequestState::IdentityResolved(user) => match owner {
            Some(id) => match session_owner_guard(&user, id) {
                Ok(()) => RequestState::Authorized(user),
                Err(_) => RequestState::Rejected(UNAUTHORIZED),
            },
            None => RequestState::Authorized(user),
        },
        RequestState::Authorized(_) => RequestState::Handled,
        RequestState::Handled => RequestState::Handled,
        RequestState::Rejected(status) => RequestState::Rejected(status),
    }
}

/// The user that the chain of guards lets through; none where any guard
/// turns the request away.
pub open spec fn admitted(around: Surroundings) -> Option<UserView> {
    match extracted(around.header) {
        None => None,
        Some(text) => match decoded(without_scheme(text), around.key, around.now) {
            None => None,
            Some(claims) => match identity(around.store, claims) {
                None => None,
                Some(user) => if entitled(user, around.owner) {
                    Some(user)
                } else {
                    None
                },
            },
        },
    }
}

/// Whether `r` is the outcome `expected` of the chain of guards.
pub open spec fn is_admission(r: Result<User, u16>, expected: Option<UserView>) -> bool {
    match expected {
        Some(user) => r is Ok && r->Ok_0@ == user,
        None => r == Err::<User, u16>(UNAUTHORIZED),
    }
}

/// Runs the whole chain of guards as of time `now`: bearer extraction,
/// claims verification, identity lookup and, on an owner-scoped route, the
/// owner guard. Every rejection has the same status.
pub fn protect_at(
    header: Option<&[u8]>,
    owner: Option<&str>,
    keys: &Keys,
    store: &UserStore,
    now: i64,
) -> (r: Result<User, u16>)
    ensures
        is_admission(
            r,
            admitted(
                surroundings(header, owner, keys, store, now),
            ),
        ),
{
    let bearer = match BearerToken::from_header(header) {
        Ok(bearer) => bearer,
        Err(status) => {
            return Err(status);
        },
    };
    let token = bearer.token();
    let claims = match get_claims_at(token.as_str(), &keys.decoding, now) {
        Ok(claims) => claims,
        Err(e) => {
            return Err(e.status());
        },
    };
    let user = match lookup_user_from_token(&claims, store) {
        Ok(user) => user,
        Err(e) => {
            return Err(e.status());
        },
    };
    match owner {
        Some(id) => match session_owner_guard(&user, id) {
            Ok(()) => Ok(user),
            Err(_) => Err(UNAUTHORIZED),
        },
        None => Ok(user),
    }
}

/// Runs the whole chain of guards as of the current time.
pub fn protect(header: Option<&[u8]>, owner: Option<&str>, keys: &Keys, store: &UserStore) -> (r:
    Result<User, u16>)
    ensures
        exists|now: i64|
            is_admission(
                r,
                admitted(
                    #[trigger] surroundings(header, owner, keys, store, now),
                ),
            ),
{
    let now = unix_now();
    protect_at(header, owner, keys, store, now)
}

/// The chain of guards is the state machine run from `Unauthenticated`: a
/// request is admitted exactly where four steps lead to `Authorized`, and
/// one more step then hands it to the handler; every other request has
/// been rejected with the unauthorized status by then.
pub proof fn chain_is_four_steps(around: Surroundings)
    ensures
        match admitted(around) {
            Some(user) => next(
                next(next(next(StateView::Unauthenticated, around), around), around),
                around,
            ) == StateView::Authorized(user),
            None => next(
                next(next(next(StateView::Unauthenticated, around), around), around),
                around,
            ) == StateView::Rejected(UNAUTHORIZED),
        },
        admitted(around) is Some ==> next(
            next(next(next(next(StateView::Unauthenticated, around), around), around), around),
            around,
        ) == StateView::Handled,
{
}

/// On an owner-scoped route, a request authenticated as any user other
/// than the owner is rejected, even though its token is valid and its user
/// is found.
pub proof fn other_user_is_rejected(around: Surroundings, user: UserView)
    requires
        around.owner is Some,
        user.id != around.owner->Some_0,
    ensures
        next(StateView::IdentityResolved(user), around) == StateView::Rejected(UNAUTHORIZED),
        admitted(around) != Some(user),
{
}

/// After a logout the old token no longer opens a protected route: where
/// the store is the one left by logging out the user of `claims` with a
/// fresh salt, a request whose token still decodes to `claims` is rejected.
pub proof fn logged_out_token_is_rejected(
    around: Surroundings,
    before: Seq<UserView>,
    claims: ClaimsView,
    fresh: Seq<char>,
)
    requires
        claims.salt != fresh,
        around.store == after_logout(before, claims.id, fresh),
        extracted(around.header) matches Some(text) && decoded(
            without_scheme(text),
            around.key,
            around.now,
        ) == Some(claims),
    ensures
        admitted(around) is None,
        next(StateView::ClaimsVerified(claims), around) == StateView::Rejected(UNAUTHORIZED),
{
    rotated_salt_is_rejected(before, claims, fresh);
}

} // verus!
