//! Users, their roles, and the store that holds them.

use crate::text::{optional_str, optional_text, same_text};
use vstd::prelude::*;

verus! {

/// A named role that users can hold.
#[derive(Debug, PartialEq, Eq)]
pub struct Role {
    pub id: String,
    pub name: String,
    /// Seconds since the Unix epoch.
    pub created_at: i64,
    /// Seconds since the Unix epoch.
    pub updated_at: i64,
}

/// What a `Role` stands for.
pub struct RoleView {
    pub id: Seq<char>,
    pub name: Seq<char>,
    pub created_at: i64,
    pub updated_at: i64,
}

impl View for Role {
    type V = RoleView;

    open spec fn view(&self) -> RoleView {
        RoleView {
            id: self.id@,
            name: self.name@,
            created_at: self.created_at,
            updated_at: self.updated_at,
        }
    }
}

impl Clone for Role {
    fn clone(&self) -> (copy: Role)
        ensures
            copy@ == self@,
    {
        Role {
            id: self.id.clone(),
            name: self.name.clone(),
            created_at: self.created_at,
            updated_at: self.updated_at,
        }
    }
}

/// The views of a sequence of roles.
pub open spec fn role_views(roles: Seq<Role>) -> Seq<RoleView> {
    roles.map_values(|r: Role| r@)
}

/// A registered user. `password` is the stored hash, never the plain text.
#[derive(Debug, PartialEq, Eq)]
pub struct User {
    pub id: String,
    pub email: String,
    pub password: String,
    pub salt: String,
    /// Seconds since the Unix epoch.
    pub created_at: i64,
    /// Seconds since the Unix epoch.
    pub updated_at: i64,
    pub username: String,
    pub roles: Vec<Role>,
}

/// What a `User` stands for.
pub struct UserView {
    pub id: Seq<char>,
    pub email: Seq<char>,
    pub password: Seq<char>,
    pub salt: Seq<char>,
    pub created_at: i64,
    pub updated_at: i64,
    pub username: Seq<char>,
    pub roles: Seq<RoleView>,
}

impl View for User {
    type V = UserView;

    open spec fn view(&self) -> UserView {
        UserView {
            id: self.id@,
            email: self.email@,
            password: self.password@,
            salt: self.salt@,
            created_at: self.created_at,
            updated_at: self.updated_at,
            username: self.username@,
            roles: role_views(self.roles@),
        }
    }
}

fn copy_roles(roles: &Vec<Role>) -> (copy: Vec<Role>)
    ensures
        role_views(copy@) == role_views(roles@),
{
    let mut copy: Vec<Role> = Vec::new();
    let mut i: usize = 0;
    while i < roles.len()
        invariant
            i <= roles.len(),
            copy.len() == i,
            forall|j: int| 0 <= j < i ==> copy[j]@ == roles[j]@,
        decreases roles.len() - i,
    {
        copy.push(roles[i].clone());
        i += 1;
    }
    assert(role_views(copy@) =~= role_views(roles@));
    copy
}

impl Clone for User {
    fn clone(&self) -> (copy: User)
        ensures
            copy@ == self@,
    {
        User {
            id: self.id.clone(),
            email: self.email.clone(),
            password: self.password.clone(),
            salt: self.salt.clone(),
            created_at: self.created_at,
            updated_at: self.updated_at,
            username: self.username.clone(),
            roles: copy_roles(&self.roles),
        }
    }
}

/// The views of a sequence of users.
pub open spec fn user_views(users: Seq<User>) -> Seq<UserView> {
    users.map_values(|u: User| u@)
}

/// Why an operation on users failed.
#[derive(Debug, PartialEq, Eq, Structural, Clone, Copy)]
#[non_exhaustive]
pub enum UserError {
    /// The store could not be reached.
    NoDbConnectionError,
    /// The stored password hash is malformed.
    BadDecryption,
    /// The password does not match.
    InvalidCredentials,
    /// No user matches.
    UserNotFound,
}

impl UserError {
    /// The name of the variant.
    pub fn label(&self) -> (text: &'static str)
        ensures
            text@ == match *self {
                UserError::NoDbConnectionError => "NoDbConnectionError"@,
                UserError::BadDecryption => "BadDecryption"@,
                UserError::InvalidCredentials => "InvalidCredentials"@,
                UserError::UserNotFound => "UserNotFound"@,
            },
    {
        match self {
            UserError::NoDbConnectionError => "NoDbConnectionError",
            UserError::BadDecryption => "BadDecryption",
            UserError::InvalidCredentials => "InvalidCredentials",
            UserError::UserNotFound => "UserNotFound",
        }
    }
}

/// The fields a lookup may constrain; an absent field constrains nothing.
pub struct UserQuery {
    pub id: Option<Seq<char>>,
    pub username: Option<Seq<char>>,
    pub email: Option<Seq<char>>,
    pub salt: Option<Seq<char>>,
}

/// Whether `user` meets every constraint of `query`.
pub open spec fn satisfies(user: UserView, query: UserQuery) -> bool {
    &&& query.id matches Some(id) ==> user.id == id
    &&& query.username matches Some(username) ==> user.username == username
    &&& query.email matches Some(email) ==> user.email == email
    &&& query.salt matches Some(salt) ==> user.salt == salt
}

/// The most records that one lookup returns.
pub const LOOKUP_LIMIT: usize = 5;

/// The users that meet `query`, in store order.
pub open spec fn matching(users: Seq<UserView>, query: UserQuery) -> Seq<UserView> {
    users.filter(|u: UserView| satisfies(u, query))
}

/// What a lookup returns: the first `LOOKUP_LIMIT` users that meet `query`.
pub open spec fn found(users: Seq<UserView>, query: UserQuery) -> Seq<UserView> {
    let all = matching(users, query);
    if all.len() <= LOOKUP_LIMIT {
        all
    } else {
        all.take(LOOKUP_LIMIT as int)
    }
}

/// Every user that a lookup returns is a user of the store and meets the
/// query.
pub proof fn found_is_sound(users: Seq<UserView>, query: UserQuery, i: int)
    requires
        0 <= i < found(users, query).len(),
    ensures
        users.contains(found(users, query)[i]),
        satisfies(found(users, query)[i], query),
{
    let pred = |u: UserView| satisfies(u, query);
    let all = users.filter(pred);
    assert(found(users, query)[i] == all[i]);
    users.lemma_filter_pred(pred, i);
    assert(all.contains(all[i]));
    users.lemma_filter_contains_rev(pred, all[i]);
}

/// A lookup that returns nothing has passed over no user that meets the
/// query.
pub proof fn found_is_complete(users: Seq<UserView>, query: UserQuery, i: int)
    requires
        0 <= i < users.len(),
        satisfies(users[i], query),
    ensures
        found(users, query).len() > 0,
{
    let pred = |u: UserView| satisfies(u, query);
    users.lemma_filter_contains(pred, i);
}

/// A change to the user with the given id; an absent field is left as it is.
#[derive(Debug, PartialEq, Eq, Default)]
pub struct UpdateUser {
    pub id: String,
    pub username: Option<String>,
    pub email: Option<String>,
    pub password: Option<String>,
    pub salt: Option<String>,
}

/// What an `UpdateUser` stands for.
pub struct UpdateUserView {
    pub id: Seq<char>,
    pub username: Option<Seq<char>>,
    pub email: Option<Seq<char>>,
    pub password: Option<Seq<char>>,
    pub salt: Option<Seq<char>>,
}

impl View for UpdateUser {
    type V = UpdateUserView;

    open spec fn view(&self) -> UpdateUserView {
        UpdateUserView {
            id: self.id@,
            username: optional_text(self.username),
            email: optional_text(self.email),
            password: optional_text(self.password),
            salt: optional_text(self.salt),
        }
    }
}

/// A field after a change: the new value where there is one.
pub open spec fn changed(current: Seq<char>, change: Option<Seq<char>>) -> Seq<char> {
    match change {
        Some(value) => value,
        None => current,
    }
}

/// `user` after `update`, which touches it only if the ids agree.
pub open spec fn updated(user: UserView, update: UpdateUserView) -> UserView {
    if user.id == update.id {
        UserView {
            username: changed(user.username, update.username),
            email: changed(user.email, update.email),
            password: changed(user.password, update.password),
            salt: changed(user.salt, update.salt),
            ..user
        }
    } else {
        user
    }
}

fn changed_text(current: &String, change: &Option<String>) -> (r: String)
    ensures
        r@ == changed(current@, optional_text(*change)),
{
    match change {
        Some(value) => value.clone(),
        None => current.clone(),
    }
}

fn updated_user(user: &User, update: &UpdateUser) -> (r: User)
    ensures
        r@ == updated(user@, update@),
{
    if same_text(user.id.as_str(), update.id.as_str()) {
        User {
            id: user.id.clone(),
            email: changed_text(&user.email, &update.email),
            password: changed_text(&user.password, &update.password),
            salt: changed_text(&user.salt, &update.salt),
            created_at: user.created_at,
            updated_at: user.updated_at,
            username: changed_text(&user.username, &update.username),
            roles: copy_roles(&user.roles),
        }
    } else {
        user.clone()
    }
}

fn meets(user: &User, user_id: Option<&str>, username: Option<&str>, email: Option<&str>, salt: Option<&str>) -> (r: bool)
    ensures
        r == satisfies(
            user@,
            UserQuery {
                id: optional_str(user_id),
                username: optional_str(username),
                email: optional_str(email),
                salt: optional_str(salt),
            },
        ),
{
    let id_ok = match user_id {
        Some(id) => same_text(user.id.as_str(), id),
        None => true,
    };
    let username_ok = match username {
        Some(name) => same_text(user.username.as_str(), name),
        None => true,
    };
    let email_ok = match email {
        Some(address) => same_text(user.email.as_str(), address),
        None => true,
    };
    let salt_ok = match salt {
        Some(value) => same_text(user.salt.as_str(), value),
        None => true,
    };
    id_ok && username_ok && email_ok && salt_ok
}

/// The users known to the system, in the order they were saved.
#[derive(Debug, PartialEq, Eq)]
pub struct UserStore {
    pub users: Vec<User>,
}

impl View for UserStore {
    type V = Seq<UserView>;

    open spec fn view(&self) -> Seq<UserView> {
        user_views(self.users@)
    }
}

impl UserStore {
    /// An empty store.
    pub fn new() -> (store: UserStore)
        ensures
            store@ == Seq::<UserView>::empty(),
    {
        let store = UserStore { users: Vec::new() };
        assert(store@ =~= Seq::<UserView>::empty());
        store
    }

    /// Adds `user` at the end of the store.
    pub fn save_user(&mut self, user: User)
        ensures
            final(self)@ == old(self)@.push(user@),
    {
        self.users.push(user);
        assert(self@ =~= old(self)@.push(user@));
    }

    /// Every user of the store, in store order.
    pub fn all_users(&self) -> (all: Vec<User>)
        ensures
            user_views(all@) == self@,
    {
        let mut all: Vec<User> = Vec::new();
        let mut i: usize = 0;
        while i < self.users.len()
            invariant
                i <= self.users.len(),
                all.len() == i,
                forall|j: int| 0 <= j < i ==> all[j]@ == self.users[j]@,
            decreases self.users.len() - i,
        {
            all.push(self.users[i].clone());
            i += 1;
        }
        assert(user_views(all@) =~= self@);
        all
    }

    /// The first `LOOKUP_LIMIT` users that meet every constraint given.
    pub fn find_user(
        &self,
        user_id: Option<&str>,
        username: Option<&str>,
        email: Option<&str>,
        salt: Option<&str>,
    ) -> (hits: Vec<User>)
        ensures
            user_views(hits@) == found(
                self@,
                UserQuery {
                    id: optional_str(user_id),
                    username: optional_str(username),
                    email: optional_str(email),
                    salt: optional_str(salt),
                },
            ),
    {
        let ghost query = UserQuery {
            id: optional_str(user_id),
            username: optional_str(username),
            email: optional_str(email),
            salt: optional_str(salt),
        };
        let ghost pred = |u: UserView| satisfies(u, query);
        let mut hits: Vec<User> = Vec::new();
        let mut i: usize = 0;
        proof {
            reveal(Seq::filter);
            assert(self@.take(0) =~= Seq::<UserView>::empty());
            assert(user_views(hits@) =~= self@.take(0).filter(pred));
        }
        while i < self.users.len() && hits.len() < LOOKUP_LIMIT
            invariant
                i <= self.users.len(),
                hits.len() <= LOOKUP_LIMIT,
                query == (UserQuery {
                    id: optional_str(user_id),
                    username: optional_str(username),
                    email: optional_str(email),
                    salt: optional_str(salt),
                }),
                pred == (|u: UserView| satisfies(u, query)),
                user_views(hits@) == self@.take(i as int).filter(pred),
            decreases self.users.len() - i,
        {
            proof {
                assert(self@.take(i + 1) =~= self@.take(i as int).push(self.users[i as int]@));
                self@.take(i as int).lemma_filter_push(self.users[i as int]@, pred);
            }
            if meets(&self.users[i], user_id, username, email, salt) {
                let ghost before = hits@;
                let copy = self.users[i].clone();
                hits.push(copy);
                assert(user_views(hits@) =~= user_views(before).push(copy@));
            }
            i += 1;
        }
        proof {
            let done = self@.take(i as int);
            let rest = self@.skip(i as int);
            assert(self@ =~= done + rest);
            Seq::filter_distributes_over_add(done, rest, pred);
            let all = matching(self@, query);
            assert(all == done.filter(pred) + rest.filter(pred));
            if i == self.users.len() {
                assert(rest =~= Seq::<UserView>::empty());
                assert(rest.filter(pred) =~= Seq::<UserView>::empty()) by {
                    reveal(Seq::filter);
                }
                assert(all =~= done.filter(pred));
            } else {
                assert(done.filter(pred).len() == LOOKUP_LIMIT);
                assert(all.take(LOOKUP_LIMIT as int) =~= done.filter(pred));
                if all.len() <= LOOKUP_LIMIT {
                    assert(all =~= done.filter(pred));
                }
            }
        }
        hits
    }

    /// Applies `update` to every user with its id; the others stay as they are.
    pub fn update_user(&mut self, update: UpdateUser)
        ensures
            final(self)@ == old(self)@.map_values(|u: UserView| updated(u, update@)),
    {
        let mut next: Vec<User> = Vec::new();
        let mut i: usize = 0;
        while i < self.users.len()
            invariant
                i <= self.users.len(),
                next.len() == i,
                forall|j: int| 0 <= j < i ==> next[j]@ == updated(self.users[j]@, update@),
            decreases self.users.len() - i,
        {
            next.push(updated_user(&self.users[i], &update));
            i += 1;
        }
        self.users = next;
        assert(self@ =~= old(self)@.map_values(|u: UserView| updated(u, update@)));
    }
}

} // verus!
