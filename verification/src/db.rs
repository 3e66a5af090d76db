//! The user record, and a mathematical model of the credential store that
//! keeps it.

use vstd::prelude::*;
use vstd::string::StringExecFns;

verus! {

/// A point in time, in microseconds since the Unix epoch.
pub type Timestamp = i64;

/// A registered user, as the credential store holds it.
#[derive(Debug, PartialEq, Eq)]
pub struct User {
    pub id: i32,
    pub username: String,
    pub login_token: String,
    pub balance: i32,
    pub machine_address: String,
    pub last_login: Timestamp,
}

/// The mathematical value of a [`User`].
pub struct UserView {
    pub id: i32,
    pub username: Seq<char>,
    pub login_token: Seq<char>,
    pub balance: i32,
    pub machine_address: Seq<char>,
    pub last_login: Timestamp,
}

impl UserView {
    /// A balance is never negative.
    pub open spec fn valid(self) -> bool {
        self.balance >= 0
    }

    /// The record after a login from `machine_address` at `now`: the two
    /// fields that a login refreshes are set, the others are kept.
    pub open spec fn seen(self, machine_address: Seq<char>, now: Timestamp) -> UserView {
        UserView { machine_address, last_login: now, ..self }
    }
}

impl View for User {
    type V = UserView;

    open spec fn view(&self) -> UserView {
        UserView {
            id: self.id,
            username: self.username@,
            login_token: self.login_token@,
            balance: self.balance,
            machine_address: self.machine_address@,
            last_login: self.last_login,
        }
    }
}

impl Clone for User {
    fn clone(&self) -> (r: User)
        ensures
            r@ == self@,
    {
        User {
            id: self.id,
            username: self.username.clone(),
            login_token: self.login_token.clone(),
            balance: self.balance,
            machine_address: self.machine_address.clone(),
            last_login: self.last_login,
        }
    }
}

impl User {
    /// Tells whether the record is valid.
    pub fn is_valid(&self) -> (r: bool)
        ensures
            r == self@.valid(),
    {
        self.balance >= 0
    }

    /// The record after a login from `machine_address` at `now`.
    pub fn seen(self, machine_address: &str, now: Timestamp) -> (r: User)
        ensures
            r@ == self@.seen(machine_address@, now),
    {
        User { machine_address: String::from_str(machine_address), last_login: now, ..self }
    }
}

/// What a credential store holds: the users, each found by its login token.
///
/// A token is bound to one user, so the store is a map from tokens to users.
pub type Store = Map<Seq<char>, UserView>;

/// Every user is valid, is filed under its own login token, and has a token
/// that is not empty.
pub open spec fn store_consistent(store: Store) -> bool {
    forall|token: Seq<char>| #[trigger]
        store.contains_key(token) ==> {
            &&& token.len() > 0
            &&& store[token].login_token == token
            &&& store[token].valid()
        }
}

/// The store's answer when asked for the user with `token`.
pub open spec fn find_user_by_token(store: Store, token: Seq<char>) -> Option<UserView> {
    if store.contains_key(token) {
        Some(store[token])
    } else {
        None
    }
}

/// The store after it has written `user` back.
pub open spec fn update_user(store: Store, user: UserView) -> Store {
    store.insert(user.login_token, user)
}

/// Writing a valid user back under a token that is not empty keeps the store
/// consistent, and changes the answer for no other token.
pub proof fn update_user_keeps_others(store: Store, user: UserView, other: Seq<char>)
    requires
        store_consistent(store),
        user.valid(),
        user.login_token.len() > 0,
    ensures
        store_consistent(update_user(store, user)),
        find_user_by_token(update_user(store, user), user.login_token) == Some(user),
        other != user.login_token ==> find_user_by_token(update_user(store, user), other)
            == find_user_by_token(store, other),
{
}

} // verus!
