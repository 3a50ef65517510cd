//! The two request handlers: show a user, create a user.

use crate::error::{error_body, message_of, status_of, AppError};
use crate::ident::{
    canonical_text, canonical_text_round_trip, canonical_text_shape, is_random_v4, text_value,
    UserId,
};
use crate::repo::{
    is_valid_user, CreateUser, ExampleUserRepo, User, UserRepo, UserRepoError, UserView,
};
use vstd::prelude::*;

verus! {

/// The status code of a reply that carries a result.
pub const STATUS_OK: u16 = 200;

/// What showing a user owes for an identifier, given what the repository
/// holds under it: the user held, who answers to that identifier and is
/// valid, or the repository's `NotFound`.
pub open spec fn show_outcome(
    stored: Option<UserView>,
    id: u128,
    r: Result<User, AppError>,
) -> bool {
    match stored {
        Some(user) => r matches Ok(found) && found@ == user && user.id == id && is_valid_user(
            user,
        ),
        None => r matches Err(e) && e == AppError::UserRepo(UserRepoError::NotFound),
    }
}

/// What creating a user owes for a name: a valid user that the repository
/// may create for it where it takes the name, else its `InvalidUsername`.
pub open spec fn create_outcome<R: UserRepo + ?Sized>(
    repo: &R,
    username: Seq<char>,
    r: Result<User, AppError>,
) -> bool {
    match r {
        Ok(user) => repo.accepts(username) && repo.may_create(username, user@) && is_valid_user(
            user@,
        ),
        Err(e) => !repo.accepts(username) && e == AppError::UserRepo(
            UserRepoError::InvalidUsername,
        ),
    }
}

/// The status code of the reply to a handled request: 200 with a user, the
/// error's own code without.
pub open spec fn outcome_status(r: Result<User, AppError>) -> u16 {
    match r {
        Ok(_) => STATUS_OK,
        Err(e) => status_of(e),
    }
}

/// A repository's result as a handler's: the user as it is, the error as
/// the service's error of that kind.
pub fn app_result(result: Result<User, UserRepoError>) -> (r: Result<User, AppError>)
    ensures
        match result {
            Ok(user) => r matches Ok(same) && same == user,
            Err(err) => r matches Err(e) && e == AppError::UserRepo(err),
        },
{
    match result {
        Ok(user) => Ok(user),
        Err(err) => Err(AppError::from(err)),
    }
}

/// Shows the user with the given identifier.
pub fn users_show<R: UserRepo + ?Sized>(user_id: UserId, repo: &R) -> (r: Result<
    User,
    AppError,
>)
    ensures
        show_outcome(repo.stored(user_id@), user_id@, r),
{
    app_result(repo.find(user_id))
}

/// Creates a user from what the caller supplied.
pub fn users_create<R: UserRepo + ?Sized>(repo: &R, params: CreateUser) -> (r: Result<
    User,
    AppError,
>)
    ensures
        create_outcome(repo, params.username@, r),
{
    app_result(repo.create(params))
}

/// The status code of the reply to a handled request.
pub fn response_status(outcome: &Result<User, AppError>) -> (code: u16)
    ensures
        code == outcome_status(*outcome),
{
    match outcome {
        Ok(_) => STATUS_OK,
        Err(e) => e.status(),
    }
}

/// Whatever the repository, a user that a handler returns is valid, and a
/// user shown answers to the identifier asked for.
pub proof fn returned_users_are_valid<R: UserRepo + ?Sized>(
    repo: &R,
    id: u128,
    shown: Result<User, AppError>,
    username: Seq<char>,
    created: Result<User, AppError>,
)
    requires
        show_outcome(repo.stored(id), id, shown),
        create_outcome(repo, username, created),
    ensures
        shown matches Ok(user) ==> user@.id == id && is_valid_user(user@),
        created matches Ok(user) ==> is_valid_user(user@),
{
}

/// Whatever the repository, a reply has one of three status codes: showing
/// a user is answered with 200 or 404, creating one with 200 or 400.
pub proof fn reply_statuses<R: UserRepo + ?Sized>(
    repo: &R,
    id: u128,
    shown: Result<User, AppError>,
    username: Seq<char>,
    created: Result<User, AppError>,
)
    requires
        show_outcome(repo.stored(id), id, shown),
        create_outcome(repo, username, created),
    ensures
        outcome_status(shown) == (if repo.stored(id) is Some { 200u16 } else { 404u16 }),
        outcome_status(created) == (if repo.accepts(username) { 200u16 } else { 400u16 }),
{
}

/// With the example repository, an identifier whose canonical text does not
/// begin with `a` is shown with status 200, as the user named `example`.
pub proof fn example_show_found(id: u128, r: Result<User, AppError>)
    requires
        canonical_text(id)[0] != 'a',
        show_outcome(ExampleUserRepo.stored(id), id, r),
    ensures
        outcome_status(r) == 200,
        r matches Ok(user) && user@ == (UserView { id, username: "example"@ }),
{
}

/// With the example repository, an identifier whose canonical text begins
/// with `a` is answered with status 404 and the body
/// `{"error":"user not found"}`.
pub proof fn example_show_not_found(id: u128, r: Result<User, AppError>)
    requires
        canonical_text(id)[0] == 'a',
        show_outcome(ExampleUserRepo.stored(id), id, r),
    ensures
        outcome_status(r) == 404,
        r matches Err(e) && error_body(message_of(e)) == "{\"error\":\"user not found\"}"@,
{
    reveal_strlit("error");
    reveal_strlit("user not found");
    reveal_strlit("{\"error\":\"user not found\"}");
    assert(error_body("user not found"@) =~= "{\"error\":\"user not found\"}"@);
}

/// With the example repository, creating a user is answered with status
/// 200 whatever name was supplied; the user is named `new example`, and its
/// identifier is randomly drawn and has a canonical text of 36 characters.
pub proof fn example_create_succeeds(username: Seq<char>, r: Result<User, AppError>)
    requires
        create_outcome(&ExampleUserRepo, username, r),
    ensures
        outcome_status(r) == 200,
        r matches Ok(user) && user@.username == "new example"@ && is_random_v4(user@.id)
            && canonical_text(user@.id).len() == 36,
{
    match r {
        Ok(user) => {
            canonical_text_shape(user@.id);
        },
        Err(_) => {},
    }
}

/// With the example repository, any two creations give users of one name,
/// whatever names were supplied.
pub proof fn example_created_names_agree(
    first_name: Seq<char>,
    first: Result<User, AppError>,
    second_name: Seq<char>,
    second: Result<User, AppError>,
)
    requires
        create_outcome(&ExampleUserRepo, first_name, first),
        create_outcome(&ExampleUserRepo, second_name, second),
    ensures
        first matches Ok(a) && second matches Ok(b) && a@.username == b@.username,
{
}

/// With the example repository, the canonical text of a created user's
/// identifier denotes that identifier, so a lookup by that text reads it
/// back. Whether the lookup then finds a user is another matter: the example
/// repository holds none of the users it creates.
pub proof fn example_created_id_reads_back(username: Seq<char>, r: Result<User, AppError>)
    requires
        create_outcome(&ExampleUserRepo, username, r),
    ensures
        r matches Ok(user) && text_value(canonical_text(user@.id)) == Some(user@.id as nat),
{
    match r {
        Ok(user) => {
            canonical_text_round_trip(user@.id);
        },
        Err(_) => {},
    }
}

} // verus!
