//! Decision machines of the route handlers. Each handler alternates outside
//! work — body parsing, store queries, hashing, token signing — with
//! decisions; the decisions live here, verified, and take what the outside
//! work returned as plain values. Every step either names the next piece of
//! outside work or ends in the exact `(status_line, body)` pair the
//! connection is owed.

use crate::http;
use crate::model::{LoginUserInput, User, UserCreateInput, UserUpdateInput};
use crate::parse;
use crate::validate;
use vstd::prelude::*;

verus! {

/// Whether `bcrypt::verify(password, hash)` accepts, rejects, or fails to
/// parse the hash (`None`): deterministic in its two arguments.
pub uninterp spec fn bcrypt_verify_of(password: Seq<char>, hash: Seq<char>) -> Option<bool>;

/// Relies on bcrypt::verify: it re-derives the hash from the password and
/// the salt embedded in `hash` and compares, a pure function of the two
/// arguments; an unparsable hash is an error.
#[verifier::external_body]
fn bcrypt_verify(password: &str, hash: &str) -> (r: Option<bool>)
    ensures
        r == bcrypt_verify_of(password@, hash@),
{
    match bcrypt::verify(password, hash) {
        Ok(b) => Some(b),
        Err(_) => None,
    }
}

/// Relies on bcrypt::hash at bcrypt's default cost: the salt is drawn fresh
/// from the OS, so nothing can be promised of the result beyond its arrival.
#[verifier::external_body]
fn bcrypt_hash_password(password: &str) -> (r: Option<String>) {
    match bcrypt::hash(password, bcrypt::DEFAULT_COST) {
        Ok(h) => Some(h),
        Err(_) => None,
    }
}

/// How long an issued session token stays valid: one hour.
pub const TOKEN_VALIDITY_SECS: i64 = 3600;

/// Expiry stamp claimed by a token issued at `now_secs`.
pub fn token_expiry(now_secs: i64) -> (r: i64)
    requires
        now_secs + TOKEN_VALIDITY_SECS <= i64::MAX,
    ensures
        r == now_secs + TOKEN_VALIDITY_SECS,
{
    now_secs + TOKEN_VALIDITY_SECS
}

/// Next step of the login flow.
pub enum LoginStep {
    /// Terminal: write this response.
    Respond(String, String),
    /// Look the stored password hash up by email, then `login_on_password`.
    FetchPassword,
    /// Credentials passed: sign a token for the email, then `login_on_token`.
    IssueToken,
}

/// Login, first decision: a body that did not parse is answered with the
/// parse error as a bad request; empty credentials are refused without
/// touching the store; otherwise the stored hash is needed.
pub fn login_begin(parsed: &Result<LoginUserInput, String>) -> (s: LoginStep)
    ensures
        match parsed {
            Err(m) => (s matches LoginStep::Respond(st, b) && st@ == http::BAD_REQUEST@ && b@
                == m@),
            Ok(input) => {
                if input.email@.len() == 0 || input.password@.len() == 0 {
                    s matches LoginStep::Respond(st, b) && st@ == http::BAD_REQUEST@ && b@
                        == "Invalid email or password"@
                } else {
                    s is FetchPassword
                }
            },
        },
{
    match parsed {
        Err(m) => LoginStep::Respond(http::BAD_REQUEST.to_owned(), m.clone()),
        Ok(input) => {
            if input.email.as_str().is_empty() || input.password.as_str().is_empty() {
                LoginStep::Respond(
                    http::BAD_REQUEST.to_owned(),
                    "Invalid email or password".to_owned(),
                )
            } else {
                LoginStep::FetchPassword
            }
        },
    }
}

/// Login, second decision, given what the store returned for the email: a
/// token is owed exactly when a hash is stored and, cleaned of trailing
/// whitespace, verifies the presented password. Everything else — no stored
/// hash, an unparsable one, or a password that does not match — is one and
/// the same bad request, so the reply never betrays whether the email
/// exists.
pub fn login_on_password(input: &LoginUserInput, fetched: &Option<String>) -> (s: LoginStep)
    ensures
        match fetched {
            None => (s matches LoginStep::Respond(st, b) && st@ == http::BAD_REQUEST@ && b@
                == "Invalid email or password"@),
            Some(hash) => {
                if bcrypt_verify_of(input.password@, parse::spec_trim_end(hash@)) == Some(true) {
                    s is IssueToken
                } else {
                    s matches LoginStep::Respond(st, b) && st@ == http::BAD_REQUEST@ && b@
                        == "Invalid email or password"@
                }
            },
        },
{
    match fetched {
        None => LoginStep::Respond(
            http::BAD_REQUEST.to_owned(),
            "Invalid email or password".to_owned(),
        ),
        Some(hash) => {
            let trimmed = parse::trim_end_spaces(hash.as_str());
            match bcrypt_verify(input.password.as_str(), trimmed) {
                Some(true) => LoginStep::IssueToken,
                _ => LoginStep::Respond(
                    http::BAD_REQUEST.to_owned(),
                    "Invalid email or password".to_owned(),
                ),
            }
        },
    }
}

/// Login, last decision, given the signer's outcome: a signed token is
/// wrapped as a small JSON object — the signer's alphabet needs no escaping
/// — and a signing failure is an internal error carrying its message.
pub fn login_on_token(token: &Result<String, String>) -> (r: (String, String))
    ensures
        match token {
            Ok(t) => r.0@ == http::OK_RESPONSE@ && r.1@ == "{\"token\":\""@ + t@ + "\"}"@,
            Err(e) => r.0@ == http::INTERNAL_ERROR@ && r.1@ == e@,
        },
{
    match token {
        Ok(t) => {
            let mut body = "{\"token\":\"".to_owned();
            body.append(t.as_str());
            body.append("\"}");
            (http::OK_RESPONSE.to_owned(), body)
        },
        Err(e) => (http::INTERNAL_ERROR.to_owned(), e.clone()),
    }
}

/// Next step of the create flow.
pub enum CreateStep {
    /// Terminal: write this response.
    Respond(String, String),
    /// Ask the store whether the email is taken, then `create_on_email_checked`.
    CheckEmail,
    /// Open a transaction and insert this record, then `create_on_inserted`.
    Insert(User),
    /// Re-read the inserted record by id, then `fetched_user_response`.
    Refetch(i32),
}

/// Create, first decision: a malformed body is a bad request — carrying the
/// parse message — and so is one that breaks a local rule, with that rule's
/// message; otherwise the store must be asked whether the email is taken.
pub fn create_begin(parsed: &Result<UserCreateInput, String>) -> (s: CreateStep)
    ensures
        match parsed {
            Err(m) => (s matches CreateStep::Respond(st, b) && st@ == http::BAD_REQUEST@ && b@
                == m@),
            Ok(input) => match validate::spec_validate_create_local(*input) {
                Err(m) => (s matches CreateStep::Respond(st, b) && st@ == http::BAD_REQUEST@ && b@
                    == m),
                Ok(()) => s is CheckEmail,
            },
        },
{
    match parsed {
        Err(m) => CreateStep::Respond(http::BAD_REQUEST.to_owned(), m.clone()),
        Ok(input) => match validate::validate_create_local(input) {
            Err(m) => CreateStep::Respond(http::BAD_REQUEST.to_owned(), m),
            Ok(()) => CreateStep::CheckEmail,
        },
    }
}

/// Create, second decision, given the uniqueness answer: a taken email or a
/// failed lookup is a bad request; otherwise the password is hashed — a
/// hashing failure is an internal error — and the record to insert is built
/// with the hash in place of the password.
pub fn create_on_email_checked(input: &UserCreateInput, exists_check: &Result<bool, ()>) -> (s:
    CreateStep)
    ensures
        match s {
            CreateStep::Respond(st, b) => (exists_check == Ok::<bool, ()>(true) && st@
                == http::BAD_REQUEST@ && b@ == "Email already exists"@) || (exists_check is Err
                && st@ == http::BAD_REQUEST@ && b@ == "Internal error"@) || (exists_check == Ok::<
                bool,
                (),
            >(false) && st@ == http::INTERNAL_ERROR@ && b@ == "Internal error"@),
            CreateStep::Insert(u) => exists_check == Ok::<bool, ()>(false) && u.id == 0 && u.name@
                == input.name@ && u.email@ == input.email@,
            _ => false,
        },
{
    match validate::validate_create_email(exists_check) {
        Err(m) => CreateStep::Respond(http::BAD_REQUEST.to_owned(), m),
        Ok(()) => match bcrypt_hash_password(input.password.as_str()) {
            None => CreateStep::Respond(
                http::INTERNAL_ERROR.to_owned(),
                "Internal error".to_owned(),
            ),
            Some(hash) => CreateStep::Insert(input.tranform_to_user(hash)),
        },
    }
}

/// Create, on the transaction opening: a store that cannot open one is an
/// internal error; nothing else changes.
pub fn create_on_tx_begun(ok: bool) -> (r: Option<(String, String)>)
    ensures
        match r {
            None => ok,
            Some((st, b)) => !ok && st@ == http::INTERNAL_ERROR@ && b@
                == "Failed to start transaction"@,
        },
{
    if ok {
        None
    } else {
        Some((http::INTERNAL_ERROR.to_owned(), "Failed to start transaction".to_owned()))
    }
}

/// Create, on the insert's outcome: a failed insert is an internal error,
/// a successful one must still be committed.
pub fn create_on_inserted(inserted: &Result<User, ()>) -> (r: Option<(String, String)>)
    ensures
        match r {
            None => inserted is Ok,
            Some((st, b)) => inserted is Err && st@ == http::INTERNAL_ERROR@ && b@
                == "Failed to create new user"@,
        },
{
    match inserted {
        Ok(_) => None,
        Err(()) => Some(
            (http::INTERNAL_ERROR.to_owned(), "Failed to create new user".to_owned()),
        ),
    }
}

/// Create, on the commit's outcome: a failed commit is an internal error; a
/// committed insert is re-read by its new id.
pub fn create_on_committed(ok: bool, new_id: i32) -> (s: CreateStep)
    ensures
        ok ==> s == CreateStep::Refetch(new_id),
        !ok ==> (s matches CreateStep::Respond(st, b) && st@ == http::INTERNAL_ERROR@ && b@
            == "Failed to commit transaction"@),
{
    if ok {
        CreateStep::Refetch(new_id)
    } else {
        CreateStep::Respond(
            http::INTERNAL_ERROR.to_owned(),
            "Failed to commit transaction".to_owned(),
        )
    }
}

/// A fetched record serialized for the client, shared by the create, edit
/// and get flows: a missing record or a failed serialization is an internal
/// error, otherwise the JSON is the body.
pub fn fetched_user_response(json: &Option<Result<String, ()>>) -> (r: (String, String))
    ensures
        match json {
            None => r.0@ == http::INTERNAL_ERROR@ && r.1@ == "Internal error"@,
            Some(Err(())) => r.0@ == http::INTERNAL_ERROR@ && r.1@ == "Internal error"@,
            Some(Ok(j)) => r.0@ == http::OK_RESPONSE@ && r.1@ == j@,
        },
{
    match json {
        None => (http::INTERNAL_ERROR.to_owned(), "Internal error".to_owned()),
        Some(Err(())) => (http::INTERNAL_ERROR.to_owned(), "Internal error".to_owned()),
        Some(Ok(j)) => (http::OK_RESPONSE.to_owned(), j.clone()),
    }
}

/// Next step of the edit flow.
pub enum EditStep {
    /// Terminal: write this response.
    Respond(String, String),
    /// Check the record exists, then update it: `edit_on_exists`,
    /// `edit_on_updated`.
    Update(User),
}

/// Edit, first decision, from the raw request and the parsed body: a
/// malformed body is a bad request carrying the parse message; an id that
/// does not parse is an internal error; with both in hand the ids must agree
/// and the name rules hold, and the record for the update statement is
/// built.
pub fn edit_begin(request: &str, parsed: &Result<UserUpdateInput, String>) -> (s: EditStep)
    ensures
        match (parse::spec_parse_i32(parse::spec_get_id(request@)), parsed) {
            (Some(id), Ok(input)) => match validate::spec_validate_update(id, *input) {
                Err(m) => (s matches EditStep::Respond(st, b) && st@ == http::BAD_REQUEST@ && b@
                    == m),
                Ok(()) => (s matches EditStep::Update(u) && u.id == input.id && u.name@
                    == input.name@),
            },
            (_, Err(m)) => (s matches EditStep::Respond(st, b) && st@ == http::BAD_REQUEST@ && b@
                == m@),
            (None, Ok(_)) => (s matches EditStep::Respond(st, b) && st@ == http::INTERNAL_ERROR@
                && b@ == "Internal error"@),
        },
{
    let id = parse::parse_i32(parse::get_id(request));
    match (id, parsed) {
        (Some(id), Ok(input)) => match validate::validate_update(id, input) {
            Err(m) => EditStep::Respond(http::BAD_REQUEST.to_owned(), m),
            Ok(()) => EditStep::Update(input.tranform_to_user()),
        },
        (_, Err(m)) => EditStep::Respond(http::BAD_REQUEST.to_owned(), m.clone()),
        (None, Ok(_)) => EditStep::Respond(
            http::INTERNAL_ERROR.to_owned(),
            "Internal error".to_owned(),
        ),
    }
}

/// Edit, on the existence check: a record that cannot be read is answered
/// not-found.
pub fn edit_on_exists(found: bool) -> (r: Option<(String, String)>)
    ensures
        match r {
            None => found,
            Some((st, b)) => !found && st@ == http::NOT_FOUND@ && b@ == "User not found"@,
        },
{
    if found {
        None
    } else {
        Some((http::NOT_FOUND.to_owned(), "User not found".to_owned()))
    }
}

/// Edit, on the update statement's outcome: a failed update is an internal
/// error; a successful one leads to the re-read and `fetched_user_response`.
pub fn edit_on_updated(ok: bool) -> (r: Option<(String, String)>)
    ensures
        match r {
            None => ok,
            Some((st, b)) => !ok && st@ == http::INTERNAL_ERROR@ && b@ == "Failed to update user"@,
        },
{
    if ok {
        None
    } else {
        Some((http::INTERNAL_ERROR.to_owned(), "Failed to update user".to_owned()))
    }
}

/// Delete or get, first decision: the path id must parse.
pub fn id_begin(request: &str) -> (r: Result<i32, (String, String)>)
    ensures
        match r {
            Ok(id) => parse::spec_parse_i32(parse::spec_get_id(request@)) == Some(id),
            Err((st, b)) => parse::spec_parse_i32(parse::spec_get_id(request@)) is None && st@
                == http::INTERNAL_ERROR@ && b@ == "Internal error"@,
        },
{
    match parse::parse_i32(parse::get_id(request)) {
        Some(id) => Ok(id),
        None => Err((http::INTERNAL_ERROR.to_owned(), "Internal error".to_owned())),
    }
}

/// Delete, on the existence check: only an existing record is deleted.
pub fn delete_on_exists(found: bool) -> (r: Option<(String, String)>)
    ensures
        match r {
            None => found,
            Some((st, b)) => !found && st@ == http::NOT_FOUND@ && b@ == "User not found"@,
        },
{
    if found {
        None
    } else {
        Some((http::NOT_FOUND.to_owned(), "User not found".to_owned()))
    }
}

/// Delete, on the delete statement's outcome: success is answered with no
/// content, failure as an internal error.
pub fn delete_on_deleted(ok: bool) -> (r: (String, String))
    ensures
        ok ==> r.0@ == http::NO_CONTENT@ && r.1@ == ""@,
        !ok ==> r.0@ == http::INTERNAL_ERROR@ && r.1@ == "Failed to delete user"@,
{
    if ok {
        (http::NO_CONTENT.to_owned(), "".to_owned())
    } else {
        (http::INTERNAL_ERROR.to_owned(), "Failed to delete user".to_owned())
    }
}

/// Get, on the fetch: a record that cannot be read is answered not-found;
/// a fetched one goes through `fetched_user_response`.
pub fn get_on_fetched(found: bool) -> (r: Option<(String, String)>)
    ensures
        match r {
            None => found,
            Some((st, b)) => !found && st@ == http::NOT_FOUND@ && b@ == "User not found"@,
        },
{
    if found {
        None
    } else {
        Some((http::NOT_FOUND.to_owned(), "User not found".to_owned()))
    }
}

/// List, on the fetch and serialization: a failed listing or serialization
/// is an internal error, otherwise the serialized array is the body.
pub fn list_response(json: &Option<Result<String, ()>>) -> (r: (String, String))
    ensures
        match json {
            None => r.0@ == http::INTERNAL_ERROR@ && r.1@ == "Internal error"@,
            Some(Err(())) => r.0@ == http::INTERNAL_ERROR@ && r.1@ == "Internal error"@,
            Some(Ok(j)) => r.0@ == http::OK_RESPONSE@ && r.1@ == j@,
        },
{
    match json {
        None => (http::INTERNAL_ERROR.to_owned(), "Internal error".to_owned()),
        Some(Err(())) => (http::INTERNAL_ERROR.to_owned(), "Internal error".to_owned()),
        Some(Ok(j)) => (http::OK_RESPONSE.to_owned(), j.clone()),
    }
}

} // verus!
