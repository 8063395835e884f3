//! Logging in: from a username and a password to a signed token.

use crate::auth::jwt::{
    create_token, decode_inverts_encode, decoded, encoding_secret, issued_under, token_of, Claims,
    ClaimsView, Keys,
};
use crate::auth::password::{password_check, verdict, verify};
use crate::clock::unix_now;
use crate::models::user::{
    found, found_is_sound, role_views, Role, RoleView, User, UserError, UserQuery, UserStore,
    UserView,
};
use crate::status::{INTERNAL_SERVER_ERROR, UNAUTHORIZED};
use crate::text::{ascii_uppercase, to_ascii_uppercase};
use vstd::prelude::*;

verus! {

/// What went wrong beneath the login flow.
#[derive(Debug, PartialEq, Eq, Structural, Clone, Copy)]
pub enum UnexpectedCause {
    /// The user store or a stored record failed.
    User(UserError),
    /// The token could not be signed.
    TokenEncoding,
    /// The clock gave a time from which no expiration can be computed.
    Clock,
}

/// Why a login failed.
#[derive(Debug, PartialEq, Eq, Structural, Clone, Copy)]
pub enum LoginError {
    /// Bad credentials. The cause is kept for the log and never sent out.
    AuthError(UserError),
    /// A failure beneath the login flow.
    UnexpectedError(UnexpectedCause),
}

/// The error that a failure on users becomes at the login boundary: a
/// malformed hash or an unreachable store is unexpected, the rest is bad
/// credentials.
pub open spec fn login_error(err: UserError) -> LoginError {
    match err {
        UserError::BadDecryption | UserError::NoDbConnectionError => LoginError::UnexpectedError(
            UnexpectedCause::User(err),
        ),
        _ => LoginError::AuthError(err),
    }
}

impl From<UserError> for LoginError {
    fn from(err: UserError) -> (r: LoginError) {
        match err {
            UserError::BadDecryption | UserError::NoDbConnectionError => {
                LoginError::UnexpectedError(UnexpectedCause::User(err))
            },
            _ => LoginError::AuthError(err),
        }
    }
}

impl vstd::std_specs::convert::FromSpecImpl<UserError> for LoginError {
    open spec fn obeys_from_spec() -> bool {
        true
    }

    open spec fn from_spec(err: UserError) -> LoginError {
        login_error(err)
    }
}

/// The status with which an error is answered.
pub open spec fn status_of(err: LoginError) -> u16 {
    match err {
        LoginError::AuthError(_) => UNAUTHORIZED,
        LoginError::UnexpectedError(_) => INTERNAL_SERVER_ERROR,
    }
}

/// The one message that every failed login is answered with.
pub fn unable_to_login() -> (text: &'static str)
    ensures
        text@ == "Unable to login"@,
{
    "Unable to login"
}

impl LoginError {
    /// The status sent to the client.
    pub fn status(&self) -> (code: u16)
        ensures
            code == status_of(*self),
    {
        match self {
            LoginError::AuthError(_) => UNAUTHORIZED,
            LoginError::UnexpectedError(_) => INTERNAL_SERVER_ERROR,
        }
    }

    /// The message sent to the client: the same for every error.
    pub fn body(&self) -> (text: &'static str)
        ensures
            text@ == "Unable to login"@,
    {
        unable_to_login()
    }

    /// The text of the error for the server's log.
    pub fn message(&self) -> (text: &'static str)
        ensures
            text@ == match *self {
                LoginError::AuthError(_) => "Authentication failed"@,
                LoginError::UnexpectedError(_) => "Something's gone wrong"@,
            },
    {
        match self {
            LoginError::AuthError(_) => "Authentication failed",
            LoginError::UnexpectedError(_) => "Something's gone wrong",
        }
    }
}

/// What a client sends to log in.
#[derive(Debug, PartialEq, Eq)]
pub struct LoginPayload {
    pub username: String,
    pub password: String,
}

/// What a client gets back from a successful login.
#[derive(Debug, PartialEq, Eq)]
pub struct LoginResponse {
    pub id: String,
    pub username: String,
    pub email: String,
    pub roles: Vec<String>,
    pub access_token: String,
}

/// What a `LoginResponse` stands for.
pub struct LoginResponseView {
    pub id: Seq<char>,
    pub username: Seq<char>,
    pub email: Seq<char>,
    pub roles: Seq<Seq<char>>,
    pub access_token: Seq<char>,
}

/// The texts of a sequence of strings.
pub open spec fn texts(items: Seq<String>) -> Seq<Seq<char>> {
    items.map_values(|s: String| s@)
}

impl View for LoginResponse {
    type V = LoginResponseView;

    open spec fn view(&self) -> LoginResponseView {
        LoginResponseView {
            id: self.id@,
            username: self.username@,
            email: self.email@,
            roles: texts(self.roles@),
            access_token: self.access_token@,
        }
    }
}

/// The name under which a role is shown to callers.
pub open spec fn role_label(name: Seq<char>) -> Seq<char> {
    "ROLE_"@ + ascii_uppercase(name)
}

/// The labels of a sequence of roles, in order.
pub open spec fn role_labels(roles: Seq<RoleView>) -> Seq<Seq<char>> {
    roles.map_values(|r: RoleView| role_label(r.name))
}

/// The response to a successful login of `user` with `token`.
pub open spec fn response(user: UserView, token: Seq<char>) -> LoginResponseView {
    LoginResponseView {
        id: user.id,
        username: user.username,
        email: user.email,
        roles: role_labels(user.roles),
        access_token: token,
    }
}

/// Formats each role as `ROLE_<NAME>`, the name in upper case.
pub fn process_roles(roles: Vec<Role>) -> (labels: Vec<String>)
    ensures
        texts(labels@) == role_labels(role_views(roles@)),
{
    let mut labels: Vec<String> = Vec::new();
    let mut i: usize = 0;
    while i < roles.len()
        invariant
            i <= roles.len(),
            labels.len() == i,
            forall|j: int| 0 <= j < i ==> labels[j]@ == role_label(#[trigger] roles[j]@.name),
        decreases roles.len() - i,
    {
        let upper = to_ascii_uppercase(roles[i].name.as_str());
        let label = String::from_str("ROLE_").concat(upper.as_str());
        labels.push(label);
        i += 1;
    }
    assert(texts(labels@) =~= role_labels(role_views(roles@)));
    labels
}

impl LoginResponse {
    pub fn new(user: User, token: String) -> (r: LoginResponse)
        ensures
            r@ == response(user@, token@),
    {
        LoginResponse {
            id: user.id,
            username: user.username,
            email: user.email,
            roles: process_roles(user.roles),
            access_token: token,
        }
    }
}

/// Seconds in a day.
pub const SECONDS_PER_DAY: i64 = 86400;

/// For how many days a token stays valid.
pub const TOKEN_DAYS: i64 = 1;

/// The moment `days` days after `from`.
pub open spec fn later(from: i64, days: i64) -> int {
    from + days * SECONDS_PER_DAY
}

/// The time `days` days after `from`, in seconds since the Unix epoch.
pub fn add_time(from: i64, days: i64) -> (at: usize)
    requires
        i64::MIN <= days * SECONDS_PER_DAY <= i64::MAX,
        0 <= later(from, days) <= i64::MAX,
        later(from, days) <= usize::MAX,
    ensures
        at == later(from, days),
{
    let sixty_four = from + (days * SECONDS_PER_DAY);
    sixty_four as usize
}

/// Whether a token can be issued at time `now`: the time is not before the
/// epoch, and the expiration fits the machine's integers.
pub open spec fn issuable(now: i64) -> bool {
    &&& 0 <= now
    &&& later(now, TOKEN_DAYS) <= i64::MAX
    &&& later(now, TOKEN_DAYS) <= usize::MAX
}

/// Whether a token can be issued at time `now`.
pub fn can_issue(now: i64) -> (r: bool)
    ensures
        r == issuable(now),
{
    now >= 0 && now <= i64::MAX - SECONDS_PER_DAY && (now + SECONDS_PER_DAY) as u64
        <= usize::MAX as u64
}

/// The claims issued to `user` at time `now`.
pub open spec fn claims_for(user: UserView, now: i64) -> ClaimsView {
    ClaimsView { id: user.id, salt: user.salt, exp: later(now, TOKEN_DAYS) as usize }
}

/// The claims for `user` at time `now`: the user's id and current salt, and
/// an expiration one day on.
pub fn create_claims(user: &User, now: i64) -> (claims: Claims)
    requires
        issuable(now),
    ensures
        claims@ == claims_for(user@, now),
{
    Claims { id: user.id.clone(), salt: user.salt.clone(), exp: add_time(now, TOKEN_DAYS) }
}

/// The one user registered under `username`; none where no record or more
/// than one record carries the name.
pub open spec fn candidate(store: Seq<UserView>, username: Seq<char>) -> Option<UserView> {
    let hits = found(
        store,
        UserQuery { id: None, username: Some(username), email: None, salt: None },
    );
    if hits.len() == 1 {
        Some(hits[0])
    } else {
        None
    }
}

/// What the answer of the password check means for the login of `user`: a
/// match lets the user in, a mismatch is bad credentials, and a failed check
/// is passed on as the login boundary passes on any failure on users.
pub open spec fn judged(user: UserView, check: Result<bool, UserError>) -> Result<
    UserView,
    LoginError,
> {
    match check {
        Ok(true) => Ok(user),
        Ok(false) => Err(LoginError::AuthError(UserError::InvalidCredentials)),
        Err(e) => Err(login_error(e)),
    }
}

/// Decides the login of `user` from the answer of the password check.
pub fn judge(user: User, check: Result<bool, UserError>) -> (r: Result<User, LoginError>)
    ensures
        match judged(user@, check) {
            Ok(admitted) => r is Ok && r->Ok_0@ == admitted,
            Err(e) => r == Err::<User, LoginError>(e),
        },
{
    match check {
        Ok(true) => Ok(user),
        Ok(false) => Err(LoginError::AuthError(UserError::InvalidCredentials)),
        Err(e) => Err(LoginError::from(e)),
    }
}

/// The outcome of checking a username and a password against the store.
pub open spec fn credentials(store: Seq<UserView>, username: Seq<char>, password: Seq<char>) -> Result<
    UserView,
    LoginError,
> {
    match candidate(store, username) {
        None => Err(LoginError::AuthError(UserError::UserNotFound)),
        Some(user) => judged(user, verdict(password_check(password, user.password))),
    }
}

/// Checks a username and a password against the store: the name must belong
/// to exactly one user, and the password must match that user's hash.
pub fn authenticate(store: &UserStore, username: &str, password: &str) -> (r: Result<
    User,
    LoginError,
>)
    ensures
        match credentials(store@, username@, password@) {
            Ok(user) => r is Ok && r->Ok_0@ == user,
            Err(e) => r == Err::<User, LoginError>(e),
        },
{
    let mut users = store.find_user(None, Some(username), None, None);
    if users.len() != 1 {
        return Err(LoginError::AuthError(UserError::UserNotFound));
    }
    let user = users.remove(0);
    let check = verify(password, user.password.as_str());
    judge(user, check)
}

/// The outcome of issuing a token to `user` at time `now`.
pub open spec fn issued(user: UserView, key: jsonwebtoken::EncodingKey, now: i64) -> Result<
    LoginResponseView,
    LoginError,
> {
    match token_of(claims_for(user, now), key) {
        Some(token) => Ok(response(user, token)),
        None => Err(LoginError::UnexpectedError(UnexpectedCause::TokenEncoding)),
    }
}

/// The outcome of issuing a token to `user` at a time `now` that the clock
/// gave: the clock's failure where no token can be issued at that time,
/// otherwise the outcome of issuing.
pub open spec fn issued_when(user: UserView, key: jsonwebtoken::EncodingKey, now: i64) -> Result<
    LoginResponseView,
    LoginError,
> {
    if issuable(now) {
        issued(user, key, now)
    } else {
        Err(LoginError::UnexpectedError(UnexpectedCause::Clock))
    }
}

/// The outcome of a login at time `now`: the failure of the credentials
/// where they fail, whatever the time; otherwise the outcome of issuing a
/// token at that time.
pub open spec fn login_outcome(
    store: Seq<UserView>,
    key: jsonwebtoken::EncodingKey,
    username: Seq<char>,
    password: Seq<char>,
    now: i64,
) -> Result<LoginResponseView, LoginError> {
    match credentials(store, username, password) {
        Ok(user) => issued_when(user, key, now),
        Err(e) => Err(e),
    }
}

/// Whether `r` is the outcome `expected`.
pub open spec fn is_outcome(
    r: Result<LoginResponse, LoginError>,
    expected: Result<LoginResponseView, LoginError>,
) -> bool {
    match expected {
        Ok(view) => r is Ok && r->Ok_0@ == view,
        Err(e) => r == Err::<LoginResponse, LoginError>(e),
    }
}

/// Whether `token` was issued to `user` at time `now` under the signing
/// secret of `keys`.
pub open spec fn issued_to(token: Seq<char>, keys: Keys, user: UserView, now: i64) -> bool {
    encoding_secret(keys.encoding) matches Some(secret) && issued_under(
        token,
        secret,
        claims_for(user, now),
    )
}

/// Issues a token to a user whose credentials have been checked.
pub fn issue(user: User, keys: &Keys, now: i64) -> (r: Result<LoginResponse, LoginError>)
    requires
        issuable(now),
    ensures
        is_outcome(r, issued(user@, keys.encoding, now)),
        r is Ok ==> issued_to(r->Ok_0.access_token@, *keys, user@, now),
{
    let claims = create_claims(&user, now);
    match create_token(&claims, &keys.encoding) {
        Ok(token) => Ok(LoginResponse::new(user, token)),
        Err(_) => Err(LoginError::UnexpectedError(UnexpectedCause::TokenEncoding)),
    }
}

/// Issues a token to a user whose credentials have been checked, at a time
/// `now` that the clock gave. Fails with the clock's failure exactly where no
/// token can be issued at that time.
pub fn issue_when(user: User, keys: &Keys, now: i64) -> (r: Result<LoginResponse, LoginError>)
    ensures
        is_outcome(r, issued_when(user@, keys.encoding, now)),
        r is Ok ==> issuable(now) && issued_to(r->Ok_0.access_token@, *keys, user@, now),
{
    if can_issue(now) {
        issue(user, keys, now)
    } else {
        Err(LoginError::UnexpectedError(UnexpectedCause::Clock))
    }
}

/// Logs in at time `now`, for every `now`. Fails with bad credentials where
/// no single user carries the name or the password is wrong, and
/// unexpectedly where the stored hash is malformed, where no token can be
/// issued at time `now`, or where the key cannot sign; otherwise answers
/// with the user's public fields and a token that carries the user's id and
/// current salt and expires one day after `now`.
pub fn login_at(store: &UserStore, keys: &Keys, payload: LoginPayload, now: i64) -> (r: Result<
    LoginResponse,
    LoginError,
>)
    ensures
        is_outcome(
            r,
            login_outcome(store@, keys.encoding, payload.username@, payload.password@, now),
        ),
        r is Ok ==> issuable(now) && credentials(store@, payload.username@, payload.password@)
            is Ok && issued_to(
            r->Ok_0.access_token@,
            *keys,
            credentials(store@, payload.username@, payload.password@)->Ok_0,
            now,
        ),
{
    match authenticate(store, payload.username.as_str(), payload.password.as_str()) {
        Ok(user) => issue_when(user, keys, now),
        Err(e) => Err(e),
    }
}

/// Whether `r` is what a login at time `now` returns, the token included.
pub open spec fn logged_in_at(
    r: Result<LoginResponse, LoginError>,
    store: Seq<UserView>,
    keys: Keys,
    username: Seq<char>,
    password: Seq<char>,
    now: i64,
) -> bool {
    &&& is_outcome(r, login_outcome(store, keys.encoding, username, password, now))
    &&& r is Ok ==> issuable(now) && credentials(store, username, password) is Ok && issued_to(
        r->Ok_0.access_token@,
        keys,
        credentials(store, username, password)->Ok_0,
        now,
    )
}

/// Logs in at the current time: the result is what `login_at` returns for
/// the time that the clock gives. Failing credentials are therefore answered
/// with their own failure whatever the clock says, and only they are.
pub fn login(store: &UserStore, keys: &Keys, payload: LoginPayload) -> (r: Result<
    LoginResponse,
    LoginError,
>)
    ensures
        exists|now: i64| #[trigger]
            logged_in_at(r, store@, *keys, payload.username@, payload.password@, now),
        credentials(store@, payload.username@, payload.password@) matches Err(e) ==> r == Err::<
            LoginResponse,
            LoginError,
        >(e),
{
    let now = unix_now();
    let r = login_at(store, keys, payload, now);
    assert(logged_in_at(r, store@, *keys, payload.username@, payload.password@, now));
    r
}

/// The status and the message that a failed login is answered with.
pub open spec fn reply_of(err: LoginError) -> (u16, Seq<char>) {
    (status_of(err), "Unable to login"@)
}

/// A user of the store that a lookup by `username` can return.
pub open spec fn registered(store: Seq<UserView>, username: Seq<char>, user: UserView) -> bool {
    store.contains(user) && user.username == username
}

/// The candidate for a username is a user of the store with that name.
pub proof fn candidate_is_registered(store: Seq<UserView>, username: Seq<char>)
    ensures
        candidate(store, username) matches Some(user) ==> registered(store, username, user),
{
    let query = UserQuery { id: None, username: Some(username), email: None, salt: None };
    if candidate(store, username) is Some {
        found_is_sound(store, query, 0);
    }
}

/// A login with a password that is wrong for every user of that name fails
/// as bad credentials, and the answer is the one that an unknown username
/// gets: the same status and the same message.
pub proof fn wrong_password_fails(store: Seq<UserView>, username: Seq<char>, password: Seq<char>)
    requires
        forall|user: UserView| #[trigger]
            registered(store, username, user) ==> password_check(password, user.password) == Some(
                false,
            ),
    ensures
        credentials(store, username, password) is Err,
        credentials(store, username, password)->Err_0 is AuthError,
        reply_of(credentials(store, username, password)->Err_0) == reply_of(
            LoginError::AuthError(UserError::UserNotFound),
        ),
        reply_of(credentials(store, username, password)->Err_0) == (
            UNAUTHORIZED,
            "Unable to login"@,
        ),
{
    candidate_is_registered(store, username);
}

/// A token issued at login names the user: decoded with the keys of one
/// secret at any moment up to its expiration, it yields the user's id and the
/// user's salt at the time of login.
pub proof fn login_token_names_user(
    token: Seq<char>,
    keys: Keys,
    secret: Seq<u8>,
    user: UserView,
    now: i64,
    at: i64,
)
    requires
        keys.holds(secret),
        issuable(now),
        issued_to(token, keys, user, now),
        at <= later(now, TOKEN_DAYS),
    ensures
        decoded(token, keys.decoding, at) == Some(claims_for(user, now)),
        claims_for(user, now).id == user.id,
        claims_for(user, now).salt == user.salt,
{
    decode_inverts_encode(token, secret, claims_for(user, now), at);
}

} // verus!
