//! Signing up and signing in: the fields a request must carry, the checks
//! on a password, and the session cookie that a signed-in user gets.

use crate::backend::error::{BadRequest, Unauthorized};
use crate::backend::password::{argon2_phc, argon2_verdict, generate_salt, hash_password, is_b64_salt, verify_password};
use crate::common::user::User;
use crate::entity::active_value::ActiveValue;
use crate::entity::user as user_entity;
use crate::str_map::StrMap;
use crate::text::join2;
use vstd::prelude::*;
use vstd::string::*;

verus! {

/// The field `name` of a request body, or the refusal that names it.
fn required_field(map: &StrMap<String>, name: &str) -> (r: Result<String, BadRequest>)
    ensures
        map@.contains_key(name@) ==> r == Ok::<String, BadRequest>(map@[name@]),
        !map@.contains_key(name@) ==> (r matches Err(BadRequest::MissingField(f)) && f@ == name@),
{
    match map.get(name) {
        Some(v) => Ok(v.clone()),
        None => Err(BadRequest::MissingField(name.to_owned())),
    }
}

/// The result of reading required fields from a body: their values, or the
/// refusal naming the first one missing.
pub open spec fn fields_result(m: Map<Seq<char>, String>, names: Seq<Seq<char>>) -> Result<Seq<String>, Seq<char>>
    decreases names.len(),
{
    if names.len() == 0 {
        Ok(Seq::empty())
    } else if !m.contains_key(names[0]) {
        Err(names[0])
    } else {
        match fields_result(m, names.drop_first()) {
            Ok(vs) => Ok(seq![m[names[0]]] + vs),
            Err(f) => Err(f),
        }
    }
}

/// The email and password of a sign-in request; refused with the first of
/// the two that is missing.
pub fn get_login_details(map: &StrMap<String>) -> (r: Result<(String, String), BadRequest>)
    ensures
        match fields_result(map@, seq!["email"@, "password"@]) {
            Ok(vs) => r matches Ok((e, p)) && e == vs[0] && p == vs[1],
            Err(f) => r matches Err(BadRequest::MissingField(g)) && g@ == f,
        },
{
    proof {
        reveal_with_fuel(fields_result, 3);
        let names = seq!["email"@, "password"@];
        assert(names.drop_first() =~= seq!["password"@]);
        assert(names.drop_first().drop_first() =~= Seq::<Seq<char>>::empty());
    }
    let email = required_field(map, "email")?;
    let password = required_field(map, "password")?;
    Ok((email, password))
}

/// The email, username and password of a sign-up request; refused with the
/// first of the three that is missing.
pub fn get_signup_details(map: &StrMap<String>) -> (r: Result<(String, String, String), BadRequest>)
    ensures
        match fields_result(map@, seq!["email"@, "username"@, "password"@]) {
            Ok(vs) => r matches Ok((e, u, p)) && e == vs[0] && u == vs[1] && p == vs[2],
            Err(f) => r matches Err(BadRequest::MissingField(g)) && g@ == f,
        },
{
    proof {
        reveal_with_fuel(fields_result, 4);
        let names = seq!["email"@, "username"@, "password"@];
        assert(names.drop_first() =~= seq!["username"@, "password"@]);
        assert(names.drop_first().drop_first() =~= seq!["password"@]);
        assert(names.drop_first().drop_first().drop_first() =~= Seq::<Seq<char>>::empty());
    }
    let email = required_field(map, "email")?;
    let username = required_field(map, "username")?;
    let password = required_field(map, "password")?;
    Ok((email, username, password))
}

/// The signed-in user's id from their session token. `session` is what
/// looking the token up gave: `None` when the lookup failed or found no
/// session, else the session's `user_id` entry. Every failure is an
/// invalid token.
pub fn get_auth(session: Option<Option<i32>>) -> (r: Result<i32, Unauthorized>)
    ensures
        r == (match session {
            Some(Some(id)) => Ok(id),
            _ => Err(Unauthorized::InvalidToken),
        }),
{
    match session {
        Some(Some(id)) => Ok(id),
        _ => Err(Unauthorized::InvalidToken),
    }
}

/// The signed-in user, from the row found for their session's user id; an
/// invalid user when there is none.
pub fn with_auth_user(found: Option<user_entity::Model>) -> (r: Result<User, Unauthorized>)
    ensures
        match found {
            Some(m) => r matches Ok(u) && u.id == m.id && u.email == m.email && u.username == m.username
                && u.campaigns@.len() == 0,
            None => r == Err::<User, Unauthorized>(Unauthorized::InvalidUser),
        },
{
    match found {
        Some(m) => Ok(User::from_model(m)),
        None => Err(Unauthorized::InvalidUser),
    }
}

/// Why a sign-in was refused.
#[derive(Debug, PartialEq, Eq, Structural, Clone, Copy)]
pub enum LogInError {
    /// No user has the given email; the request is answered as not found.
    UnknownEmail,
    /// The password does not match.
    InvalidCredentials,
}

/// Whether the stored password hash of the user found for a sign-in, if
/// any, can be read.
pub open spec fn stored_hash_readable(user: Option<user_entity::Model>, password: &str) -> bool {
    user matches Some(u) ==> argon2_verdict(password.spec_bytes(), u.password_hash@) is Some
}

/// What a sign-in gives: the user's id when the password matches the
/// stored hash.
pub open spec fn log_in_result(user: Option<user_entity::Model>, password: &str) -> Result<i32, LogInError> {
    match user {
        None => Err(LogInError::UnknownEmail),
        Some(u) => if argon2_verdict(password.spec_bytes(), u.password_hash@) == Some(true) {
            Ok(u.id)
        } else {
            Err(LogInError::InvalidCredentials)
        },
    }
}

/// What a sign-in gives once the password was checked against the stored
/// hash of the user `user_id`: `verdict` is what the check gave, `None`
/// where the hash could not be read. The user's id when the check accepted
/// the password, else invalid credentials.
pub fn log_in_checked(user_id: i32, verdict: Option<bool>) -> (r: Result<i32, LogInError>)
    ensures
        r == (if verdict == Some(true) {
            Ok::<i32, LogInError>(user_id)
        } else {
            Err::<i32, LogInError>(LogInError::InvalidCredentials)
        }),
{
    match verdict {
        Some(true) => Ok(user_id),
        _ => Err(LogInError::InvalidCredentials),
    }
}

/// Checks a sign-in: `user` is the row found for the email, if any. The
/// stored hash must be readable.
pub fn log_in(user: Option<&user_entity::Model>, password: &str) -> (r: Result<i32, LogInError>)
    requires
        stored_hash_readable(match user { Some(u) => Some(*u), None => None }, password),
    ensures
        r == log_in_result(match user { Some(u) => Some(*u), None => None }, password),
{
    match user {
        None => Err(LogInError::UnknownEmail),
        Some(u) => log_in_checked(u.id, verify_password(password.as_bytes(), u.password_hash.as_str())),
    }
}

/// Checks a sign-in as `log_in` does; `None` when the stored hash cannot
/// be read.
pub fn try_log_in(user: Option<&user_entity::Model>, password: &str) -> (r: Option<Result<i32, LogInError>>)
    ensures
        stored_hash_readable(match user { Some(u) => Some(*u), None => None }, password)
            ==> r == Some(log_in_result(match user { Some(u) => Some(*u), None => None }, password)),
        !stored_hash_readable(match user { Some(u) => Some(*u), None => None }, password) ==> r is None,
{
    match user {
        Some(u) => match verify_password(password.as_bytes(), u.password_hash.as_str()) {
            None => None,
            Some(_) => Some(log_in(user, password)),
        },
        None => Some(log_in(user, password)),
    }
}

/// The `set-cookie` value that gives a signed-in user their session token.
pub fn session_cookie(token: &str) -> (r: String)
    ensures
        r@ == "session-token="@ + token@ + "; Path=/"@,
{
    let mut s = join2("session-token=", token);
    s.append("; Path=/");
    s
}

/// The body of the answer to a successful sign-in or sign-up.
pub fn ok_body() -> (r: &'static str)
    ensures
        r@ == "OK"@,
{
    "OK"
}

/// The row that stores a new user with the given password hash and salt;
/// the store gives it its id.
pub fn new_user_model(email: String, username: String, password_hash: String, password_salt: String) -> (r: user_entity::ActiveModel)
    ensures
        r == (user_entity::ActiveModel {
            id: ActiveValue::NotSet,
            email: ActiveValue::SetTo(email),
            username: ActiveValue::SetTo(username),
            password_hash: ActiveValue::SetTo(password_hash),
            password_salt: ActiveValue::SetTo(password_salt),
        }),
{
    user_entity::ActiveModel {
        id: ActiveValue::NotSet,
        email: ActiveValue::SetTo(email),
        username: ActiveValue::SetTo(username),
        password_hash: ActiveValue::SetTo(password_hash),
        password_salt: ActiveValue::SetTo(password_salt),
    }
}

/// Whether `m` is a row that signing up with these details writes: no id,
/// the email and username as given, a salt that is the B64 text of
/// sixteen bytes, and the Argon2 hash of the password with that salt,
/// against which the password checks.
pub open spec fn sign_up_row(m: user_entity::ActiveModel, email: String, username: String, password: &str) -> bool {
    &&& m.id is NotSet
    &&& m.email == ActiveValue::SetTo(email)
    &&& m.username == ActiveValue::SetTo(username)
    &&& m.password_salt matches ActiveValue::SetTo(salt)
    &&& is_b64_salt(salt@)
    &&& m.password_hash matches ActiveValue::SetTo(hash)
    &&& argon2_phc(password.spec_bytes(), salt@) == Some(hash@)
    &&& argon2_verdict(password.spec_bytes(), hash@) == Some(true)
}

/// The row that stores a new user once the password was hashed with the
/// salt `salt`: `hash` is what hashing gave, `None` where it refused the
/// salt, and then there is no row.
pub fn signed_up_row(email: String, username: String, hash: Option<String>, salt: String) -> (r: Option<user_entity::ActiveModel>)
    ensures
        r == (match hash {
            Some(h) => Some(user_entity::ActiveModel {
                id: ActiveValue::NotSet,
                email: ActiveValue::SetTo(email),
                username: ActiveValue::SetTo(username),
                password_hash: ActiveValue::SetTo(h),
                password_salt: ActiveValue::SetTo(salt),
            }),
            None => None,
        }),
{
    match hash {
        Some(h) => Some(new_user_model(email, username, h, salt)),
        None => None,
    }
}

/// The row that stores a new user: a fresh random salt, and the Argon2
/// hash of the password with it. There is one exactly when the password
/// is no longer than `u32::MAX` bytes, the most Argon2 hashes.
pub fn sign_up(email: String, username: String, password: &str) -> (r: Option<user_entity::ActiveModel>)
    ensures
        r is Some <==> password.spec_bytes().len() <= u32::MAX,
        r matches Some(m) ==> sign_up_row(m, email, username, password),
{
    let salt = generate_salt();
    let hash = hash_password(password.as_bytes(), salt.as_str());
    signed_up_row(email, username, hash, salt)
}

/// A user stored from the row that signing up wrote can sign in with the
/// password they signed up with.
pub proof fn lemma_sign_up_then_log_in(
    m: user_entity::ActiveModel,
    email: String,
    username: String,
    password: &str,
    stored: user_entity::Model,
)
    requires
        sign_up_row(m, email, username, password),
        user_entity::written_by(m, stored),
    ensures
        stored_hash_readable(Some(stored), password),
        log_in_result(Some(stored), password) == Ok::<i32, LogInError>(stored.id),
{
}

} // verus!
