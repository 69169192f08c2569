//! Accounts as the directory service reports them, and the execution
//! environment derived from an authenticated account.

use vstd::prelude::*;

verus! {

/// An account record, produced whole by one directory lookup.
///
/// All fields arrive together: there is no partially populated `User`.
#[derive(Debug, PartialEq, Eq)]
pub struct User {
    pub uid: u32,
    pub username: String,
    pub home: String,
    pub shell: String,
    pub password_set: bool,
}

/// The mathematical content of a [`User`].
pub ghost struct UserView {
    pub uid: u32,
    pub username: Seq<char>,
    pub home: Seq<char>,
    pub shell: Seq<char>,
    pub password_set: bool,
}

impl View for User {
    type V = UserView;

    open spec fn view(&self) -> UserView {
        UserView {
            uid: self.uid,
            username: self.username@,
            home: self.home@,
            shell: self.shell@,
            password_set: self.password_set,
        }
    }
}

impl Clone for User {
    fn clone(&self) -> (copy: Self)
        ensures
            copy == *self,
    {
        User {
            uid: self.uid,
            username: self.username.clone(),
            home: self.home.clone(),
            shell: self.shell.clone(),
            password_set: self.password_set,
        }
    }
}

impl User {
    /// Builds an account record from its five parts.
    pub fn new(uid: u32, username: &str, home: &str, shell: &str, password_set: bool) -> (user:
        User)
        ensures
            user@ == (UserView {
                uid,
                username: username@,
                home: home@,
                shell: shell@,
                password_set,
            }),
    {
        User {
            uid,
            username: username.to_owned(),
            home: home.to_owned(),
            shell: shell.to_owned(),
            password_set,
        }
    }
}

/// The environment a shell is launched with: `HOME` and `USER`.
///
/// It is an explicit value handed to the shell launch, not a change to the
/// environment of the running process.
#[derive(Debug, PartialEq, Eq)]
pub struct ExecutionContext {
    pub home: String,
    pub user: String,
}

/// The mathematical content of an [`ExecutionContext`].
pub ghost struct ExecutionContextView {
    pub home: Seq<char>,
    pub user: Seq<char>,
}

impl View for ExecutionContext {
    type V = ExecutionContextView;

    open spec fn view(&self) -> ExecutionContextView {
        ExecutionContextView { home: self.home@, user: self.user@ }
    }
}

/// The environment that belongs to `user`: `HOME` is the account's home
/// directory and `USER` its name.
pub open spec fn context_of(user: UserView) -> ExecutionContextView {
    ExecutionContextView { home: user.home, user: user.username }
}

impl ExecutionContext {
    /// Derives the environment of `user`, fully populated.
    pub fn for_user(user: &User) -> (ctx: ExecutionContext)
        ensures
            ctx@ == context_of(user@),
    {
        ExecutionContext { home: user.home.clone(), user: user.username.clone() }
    }
}

} // verus!
