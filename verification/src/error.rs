//! Errors of the service, and what each one looks like to an HTTP client.

use crate::repo::UserRepoError;
use vstd::prelude::*;

verus! {

/// What can go wrong while a request is handled.
#[derive(Clone, Copy, Debug, PartialEq, Eq, Structural)]
pub enum AppError {
    /// The repository failed.
    UserRepo(UserRepoError),
}

impl From<UserRepoError> for AppError {
    fn from(err: UserRepoError) -> (e: AppError) {
        AppError::UserRepo(err)
    }
}

impl vstd::std_specs::convert::FromSpecImpl<UserRepoError> for AppError {
    open spec fn obeys_from_spec() -> bool {
        true
    }

    open spec fn from_spec(err: UserRepoError) -> AppError {
        AppError::UserRepo(err)
    }
}

/// The HTTP status code that answers an error.
pub open spec fn status_of(e: AppError) -> u16 {
    match e {
        AppError::UserRepo(UserRepoError::NotFound) => 404,
        AppError::UserRepo(UserRepoError::InvalidUsername) => 400,
    }
}

/// The message that tells a client of an error.
pub open spec fn message_of(e: AppError) -> Seq<char> {
    match e {
        AppError::UserRepo(UserRepoError::NotFound) => "user not found"@,
        AppError::UserRepo(UserRepoError::InvalidUsername) => "invalid username"@,
    }
}

/// Whether a character stands for itself inside a JSON string: every one
/// but the quotation mark, the backslash and the control characters.
pub open spec fn is_plain_char(c: char) -> bool {
    c as u32 >= 0x20 && c != '"' && c != '\\'
}

/// Whether every character of a text stands for itself inside a JSON string.
pub open spec fn is_plain_text(s: Seq<char>) -> bool {
    forall|i: int| 0 <= i < s.len() ==> is_plain_char(#[trigger] s[i])
}

/// The compact JSON text of an object with one member whose value is a
/// string, for a key and a value that are plain texts.
pub open spec fn single_member_object(key: Seq<char>, value: Seq<char>) -> Seq<char> {
    seq!['{', '"'] + key + seq!['"', ':', '"'] + value + seq!['"', '}']
}

/// The body that carries an error message to a client.
pub open spec fn error_body(message: Seq<char>) -> Seq<char> {
    single_member_object("error"@, message)
}

/// What a client receives in place of a result: a status code and a JSON
/// body.
#[derive(Debug)]
pub struct ErrorReply {
    pub status: u16,
    pub body: String,
}

/// `serde_json`'s `Display` for `serde_json::Value`, on an object built with
/// `serde_json::Map::insert` to hold the one member given. The text is
/// compact: no space is written, and a plain text stands between its
/// quotation marks unchanged.
#[verifier::external_body]
fn object_text(key: &str, value: &str) -> (text: String)
    requires
        is_plain_text(key@),
        is_plain_text(value@),
    ensures
        text@ == single_member_object(key@, value@),
{
    let mut members = serde_json::Map::new();
    members.insert(key.to_owned(), serde_json::Value::String(value.to_owned()));
    serde_json::Value::Object(members).to_string()
}

impl AppError {
    /// The HTTP status code that answers this error.
    pub fn status(&self) -> (code: u16)
        ensures
            code == status_of(*self),
    {
        match self {
            AppError::UserRepo(UserRepoError::NotFound) => 404,
            AppError::UserRepo(UserRepoError::InvalidUsername) => 400,
        }
    }

    /// The message that tells a client of this error.
    pub fn message(&self) -> (message: &'static str)
        ensures
            message@ == message_of(*self),
            is_plain_text(message@),
    {
        proof {
            reveal_strlit("user not found");
            reveal_strlit("invalid username");
        }
        match self {
            AppError::UserRepo(UserRepoError::NotFound) => "user not found",
            AppError::UserRepo(UserRepoError::InvalidUsername) => "invalid username",
        }
    }

    /// The reply that answers this error: its status code, and its message
    /// as the `error` member of a JSON object.
    pub fn into_response(self) -> (reply: ErrorReply)
        ensures
            reply.status == status_of(self),
            reply.body@ == error_body(message_of(self)),
    {
        let status = self.status();
        let message = self.message();
        proof {
            reveal_strlit("error");
        }
        ErrorReply { status, body: object_text("error", message) }
    }
}

} // verus!
