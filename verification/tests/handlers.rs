use std::sync::Arc;

use user_service::error::AppError;
use user_service::handlers::{response_status, users_create, users_show};
use user_service::ident::UserId;
use user_service::repo::{
    CreateUser, ExampleUserRepo, User, UserRepo, UserRepoError, UserView,
};

type DynUserRepo = Arc<dyn UserRepo + Send + Sync>;

fn example_repo() -> DynUserRepo {
    Arc::new(ExampleUserRepo)
}

fn id_in(uri: &str) -> UserId {
    let segment = uri.strip_prefix("/users/").unwrap();
    UserId::parse_str(segment).unwrap()
}

#[test]
fn test_users_show_found() {
    let repo = example_repo();

    let outcome = users_show(id_in("/users/bd8197e0-8a30-4e7c-9c93-972fd13ed4c8"), &*repo);

    assert_eq!(response_status(&outcome), 200);
}

#[test]
fn test_users_show_not_found() {
    let repo = example_repo();

    let outcome = users_show(id_in("/users/ad8197e0-8a30-4e7c-9c93-972fd13ed4c8"), &*repo);

    assert_eq!(response_status(&outcome), 404);
}

#[test]
fn test_users_create() {
    let repo = example_repo();
    let body: serde_json::Value = serde_json::from_str(r#"{"username":"example"}"#).unwrap();
    let username = body.get("username").and_then(serde_json::Value::as_str).unwrap_or("no name");

    let outcome = users_create(&*repo, CreateUser { username: username.to_string() });

    assert_eq!(response_status(&outcome), 200);

    let user = outcome.unwrap();
    let id = user.id.to_text();

    assert_eq!(id.len(), 36);
    assert_eq!(user.username, "new example");
}

#[test]
fn show_found_returns_the_requested_user() {
    let id = UserId::from_u128(0xbd8197e0_8a30_4e7c_9c93_972fd13ed4c8);

    let user = users_show(id, &ExampleUserRepo).unwrap();

    assert_eq!(user.id, id);
    assert_eq!(user.username, "example");
}

#[test]
fn show_not_found_is_the_repository_error() {
    let id = UserId::from_u128(0xad8197e0_8a30_4e7c_9c93_972fd13ed4c8);

    let outcome = users_show(id, &ExampleUserRepo);

    assert_eq!(outcome.unwrap_err(), AppError::UserRepo(UserRepoError::NotFound));
}

#[test]
fn show_depends_on_the_first_digit_only() {
    let rest: u128 = 0x0123_4567_89ab_cdef_0123_4567_89ab_cdef & (u128::MAX >> 4);
    for digit in 0..16u128 {
        let id = UserId::from_u128((digit << 124) | rest);
        let outcome = users_show(id, &ExampleUserRepo);
        if digit == 0xa {
            assert_eq!(response_status(&outcome), 404, "digit {digit:x}");
        } else {
            assert_eq!(response_status(&outcome), 200, "digit {digit:x}");
        }
    }
}

#[test]
fn an_a_elsewhere_in_the_text_is_found() {
    let id = UserId::parse_str("0aaaaaaa-aaaa-aaaa-aaaa-aaaaaaaaaaaa").unwrap();

    assert!(users_show(id, &ExampleUserRepo).is_ok());
}

#[test]
fn nil_and_max_identifiers_are_found() {
    assert!(users_show(UserId::from_u128(0), &ExampleUserRepo).is_ok());
    assert!(users_show(UserId::from_u128(u128::MAX), &ExampleUserRepo).is_ok());
}

#[test]
fn create_ignores_the_supplied_name() {
    for name in ["", "example", "new example", "\"quoted\"", "名前"] {
        let user = users_create(&ExampleUserRepo, CreateUser { username: name.to_string() })
            .unwrap();
        assert_eq!(user.username, "new example");
    }
}

#[test]
fn repeated_creation_gives_new_identifiers_and_one_name() {
    let first = users_create(&ExampleUserRepo, CreateUser { username: "example".to_string() })
        .unwrap();
    let second = users_create(&ExampleUserRepo, CreateUser { username: "example".to_string() })
        .unwrap();

    assert_ne!(first.id, second.id);
    assert_eq!(first.username, second.username);
}

#[test]
fn created_identifier_is_read_back_by_lookup() {
    let created = users_create(&ExampleUserRepo, CreateUser { username: "example".to_string() })
        .unwrap();

    let text = created.id.to_text();
    let read = UserId::parse_str(&text);

    assert_eq!(read, Some(created.id));
    let looked_up = users_show(read.unwrap(), &ExampleUserRepo);
    assert_eq!(looked_up.is_err(), text.starts_with('a'));
}

#[test]
fn status_of_each_outcome() {
    let user = User { id: UserId::from_u128(1), username: "example".to_string() };

    assert_eq!(response_status(&Ok(user)), 200);
    assert_eq!(response_status(&Err(AppError::UserRepo(UserRepoError::NotFound))), 404);
    assert_eq!(response_status(&Err(AppError::UserRepo(UserRepoError::InvalidUsername))), 400);
}

struct PickyRepo;

// The three ghost methods are a repository's model in proofs; compiled code
// never calls them.
impl UserRepo for PickyRepo {
    fn stored(&self, _id: u128) -> Option<UserView> {
        unreachable!()
    }

    fn accepts(&self, _username: vstd::seq::Seq<char>) -> bool {
        unreachable!()
    }

    fn may_create(&self, _username: vstd::seq::Seq<char>, _user: UserView) -> bool {
        unreachable!()
    }

    fn find(&self, _id: UserId) -> Result<User, UserRepoError> {
        Err(UserRepoError::NotFound)
    }

    fn create(&self, params: CreateUser) -> Result<User, UserRepoError> {
        if params.username.is_empty() {
            Err(UserRepoError::InvalidUsername)
        } else {
            Ok(User { id: UserId::from_u128(7), username: params.username })
        }
    }
}

#[test]
fn handlers_work_with_any_repository() {
    let repo: DynUserRepo = Arc::new(PickyRepo);

    let shown = users_show(UserId::from_u128(0), &*repo);
    assert_eq!(response_status(&shown), 404);

    let refused = users_create(&*repo, CreateUser { username: String::new() });
    assert_eq!(refused.as_ref().unwrap_err(), &AppError::UserRepo(UserRepoError::InvalidUsername));
    assert_eq!(response_status(&refused), 400);

    let created = users_create(&*repo, CreateUser { username: "ada".to_string() }).unwrap();
    assert_eq!(created.id, UserId::from_u128(7));
    assert_eq!(created.username, "ada");
}
