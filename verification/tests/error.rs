use user_service::error::{AppError, ErrorReply};
use user_service::repo::UserRepoError;

fn error_field(reply: &ErrorReply) -> String {
    let body: serde_json::Value = serde_json::from_str(&reply.body).unwrap();
    let members = body.as_object().unwrap();
    assert_eq!(members.len(), 1);
    members.get("error").and_then(serde_json::Value::as_str).unwrap().to_string()
}

#[test]
fn not_found_is_404_with_its_message() {
    let reply = AppError::UserRepo(UserRepoError::NotFound).into_response();

    assert_eq!(reply.status, 404);
    assert_eq!(reply.body, r#"{"error":"user not found"}"#);
    assert_eq!(error_field(&reply), "user not found");
}

#[test]
fn invalid_username_is_400_with_its_message() {
    let reply = AppError::UserRepo(UserRepoError::InvalidUsername).into_response();

    assert_eq!(reply.status, 400);
    assert_eq!(reply.body, r#"{"error":"invalid username"}"#);
    assert_eq!(error_field(&reply), "invalid username");
}

#[test]
fn status_and_message_of_each_error() {
    let not_found = AppError::UserRepo(UserRepoError::NotFound);
    let invalid = AppError::UserRepo(UserRepoError::InvalidUsername);

    assert_eq!(not_found.status(), 404);
    assert_eq!(not_found.message(), "user not found");
    assert_eq!(invalid.status(), 400);
    assert_eq!(invalid.message(), "invalid username");
}

#[test]
fn repository_errors_become_app_errors() {
    assert_eq!(
        AppError::from(UserRepoError::NotFound),
        AppError::UserRepo(UserRepoError::NotFound)
    );
    assert_eq!(
        AppError::from(UserRepoError::InvalidUsername),
        AppError::UserRepo(UserRepoError::InvalidUsername)
    );
}
