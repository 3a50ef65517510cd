//! Users, and the capability to find and create them.

use crate::ident::{canonical_text, is_random_v4, UserId};
use vstd::prelude::*;
use vstd::string::*;

verus! {

/// A user, as a mathematical value.
pub struct UserView {
    pub id: u128,
    pub username: Seq<char>,
}

/// A user: an identifier and a name.
#[derive(Debug)]
pub struct User {
    pub id: UserId,
    pub username: String,
}

impl View for User {
    type V = UserView;

    open spec fn view(&self) -> UserView {
        UserView { id: self.id@, username: self.username@ }
    }
}

/// What a caller supplies to have a user created.
#[derive(Debug)]
pub struct CreateUser {
    pub username: String,
}

/// The ways in which a repository can fail.
#[derive(Clone, Copy, Debug, PartialEq, Eq, Structural)]
pub enum UserRepoError {
    NotFound,
    InvalidUsername,
}

/// Every user that a repository hands out has a name that is not empty.
pub open spec fn is_valid_user(user: UserView) -> bool {
    user.username.len() > 0
}

/// What `find` owes for `id`, given what the repository holds under it: the
/// user held, or `NotFound` where there is none.
pub open spec fn find_outcome(
    stored: Option<UserView>,
    id: u128,
    r: Result<User, UserRepoError>,
) -> bool {
    match stored {
        Some(user) => r matches Ok(found) && found@ == user && user.id == id && is_valid_user(
            user,
        ),
        None => r matches Err(e) && e == UserRepoError::NotFound,
    }
}

/// The capability to look users up and to create them.
pub trait UserRepo {
    /// The user that the repository holds under `id`, if it holds one.
    spec fn stored(&self, id: u128) -> Option<UserView>;

    /// Whether the repository takes `username` for a new user.
    spec fn accepts(&self, username: Seq<char>) -> bool;

    /// Whether `user` is one that `create` may hand out for `username`.
    spec fn may_create(&self, username: Seq<char>, user: UserView) -> bool;

    /// Looks up the user with the given identifier.
    fn find(&self, id: UserId) -> (r: Result<User, UserRepoError>)
        ensures
            find_outcome(self.stored(id@), id@, r),
    ;

    /// Creates a user with a fresh identifier; `InvalidUsername` exactly where
    /// the repository does not take the name.
    fn create(&self, params: CreateUser) -> (r: Result<User, UserRepoError>)
        ensures
            match r {
                Ok(user) => self.accepts(params.username@) && self.may_create(
                    params.username@,
                    user@,
                ) && is_valid_user(user@),
                Err(e) => !self.accepts(params.username@) && e == UserRepoError::InvalidUsername,
            },
    ;
}

/// A repository that holds nothing and makes its users up.
pub struct ExampleUserRepo;

/// The user that the example repository makes up for a new identifier.
pub fn created_user(id: UserId) -> (user: User)
    ensures
        user@ == (UserView { id: id@, username: "new example"@ }),
{
    User { id, username: "new example".to_owned() }
}

impl UserRepo for ExampleUserRepo {
    /// Every identifier answers with a user named `example`, but those whose
    /// canonical text begins with `a`.
    open spec fn stored(&self, id: u128) -> Option<UserView> {
        if canonical_text(id)[0] != 'a' {
            Some(UserView { id, username: "example"@ })
        } else {
            None
        }
    }

    /// Every name is taken.
    open spec fn accepts(&self, username: Seq<char>) -> bool {
        true
    }

    /// A new user is named `new example`, whatever name was supplied, and has
    /// a randomly drawn identifier.
    open spec fn may_create(&self, username: Seq<char>, user: UserView) -> bool {
        user.username == "new example"@ && is_random_v4(user.id)
    }

    fn find(&self, id: UserId) -> (r: Result<User, UserRepoError>) {
        let text = id.to_text();
        let first = text.as_str().get_char(0);
        if first != 'a' {
            proof {
                reveal_strlit("example");
            }
            Ok(User { id, username: "example".to_owned() })
        } else {
            Err(UserRepoError::NotFound)
        }
    }

    fn create(&self, params: CreateUser) -> (r: Result<User, UserRepoError>) {
        let id = UserId::new_v4();
        proof {
            reveal_strlit("new example");
        }
        Ok(created_user(id))
    }
}

} // verus!
