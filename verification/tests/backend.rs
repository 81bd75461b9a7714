use mist::backend::auth::{
    get_auth, get_login_details, get_signup_details, log_in, log_in_checked, new_user_model, ok_body, session_cookie,
    sign_up, signed_up_row, try_log_in, with_auth_user, LogInError,
};
use mist::backend::error::{handle_rejection, BadRequest, Rejection, Unauthorized};
use mist::backend::rooms::{Rooms, RoomsImpl, SocketRooms};
use mist::backend::user_routes::{get_me, get_user};
use mist::common::user::User;
use mist::entity::active_value::ActiveValue;
use mist::entity::user as user_entity;
use mist::str_map::StrMap;

fn body(fields: &[(&str, &str)]) -> StrMap<String> {
    let mut m = StrMap::new();
    for (k, v) in fields {
        m.insert(k.to_string(), v.to_string());
    }
    m
}

fn stored_user(row: user_entity::ActiveModel, id: i32) -> user_entity::Model {
    match (row.email, row.username, row.password_hash, row.password_salt) {
        (ActiveValue::SetTo(email), ActiveValue::SetTo(username), ActiveValue::SetTo(password_hash), ActiveValue::SetTo(password_salt)) => {
            user_entity::Model { id, email, username, password_hash, password_salt }
        }
        _ => panic!("sign-up writes every column but the id"),
    }
}

#[test]
fn rejection_answers() {
    let (b, status) = handle_rejection(&Rejection::NotFound);
    assert_eq!((b.msg.as_str(), b.detail, b.code, status), ("NOT_FOUND", None, 404, 404));
    let (b, status) = handle_rejection(&Rejection::Other);
    assert_eq!((b.msg.as_str(), b.detail, b.code, status), ("INTERNAL_SERVER_ERROR", None, 500, 500));
    let (b, status) = handle_rejection(&Rejection::BadRequest(BadRequest::MissingField("email".to_string())));
    assert_eq!(b.msg, "BAD_REQUEST");
    assert_eq!(b.detail, Some("Field missing: email".to_string()));
    assert_eq!((b.code, status), (400, 400));
    let (b, status) = handle_rejection(&Rejection::Unauthorized(Unauthorized::InvalidToken));
    assert_eq!(b.msg, "UNAUTHORIZED");
    assert_eq!(b.detail, Some("Invalid token.".to_string()));
    assert_eq!((b.code, status), (401, 401));
}

#[test]
fn unauthorized_details() {
    assert_eq!(Unauthorized::NotLoggedIn.detail(), "User not logged in.");
    assert_eq!(Unauthorized::InvalidToken.detail(), "Invalid token.");
    assert_eq!(Unauthorized::InvalidUser.detail(), "Token refers to invalid user.");
    assert_eq!(Unauthorized::InvalidCredentials.detail(), "Invalid credentials.");
    assert_eq!(Unauthorized::SessionTimedOut.detail(), "Session timed out.");
}

#[test]
fn login_details_need_email_then_password() {
    let ok = get_login_details(&body(&[("password", "pw"), ("email", "a@b.c")])).unwrap();
    assert_eq!(ok, ("a@b.c".to_string(), "pw".to_string()));
    assert_eq!(
        get_login_details(&body(&[])).unwrap_err(),
        BadRequest::MissingField("email".to_string())
    );
    assert_eq!(
        get_login_details(&body(&[("email", "a@b.c")])).unwrap_err(),
        BadRequest::MissingField("password".to_string())
    );
}

#[test]
fn signup_details_need_email_username_password() {
    let ok = get_signup_details(&body(&[("email", "e"), ("username", "u"), ("password", "p")])).unwrap();
    assert_eq!(ok, ("e".to_string(), "u".to_string(), "p".to_string()));
    assert_eq!(
        get_signup_details(&body(&[("password", "p")])).unwrap_err(),
        BadRequest::MissingField("email".to_string())
    );
    assert_eq!(
        get_signup_details(&body(&[("email", "e"), ("password", "p")])).unwrap_err(),
        BadRequest::MissingField("username".to_string())
    );
    assert_eq!(
        get_signup_details(&body(&[("email", "e"), ("username", "u")])).unwrap_err(),
        BadRequest::MissingField("password".to_string())
    );
}

#[test]
fn session_lookups() {
    assert_eq!(get_auth(Some(Some(7))), Ok(7));
    assert_eq!(get_auth(Some(None)), Err(Unauthorized::InvalidToken));
    assert_eq!(get_auth(None), Err(Unauthorized::InvalidToken));
    assert_eq!(with_auth_user(None), Err(Unauthorized::InvalidUser));
    let u = with_auth_user(Some(user_entity::Model {
        id: 3,
        email: "e".to_string(),
        username: "u".to_string(),
        password_hash: "h".to_string(),
        password_salt: "s".to_string(),
    }))
    .unwrap();
    assert_eq!((u.id, u.email.as_str(), u.username.as_str(), u.campaigns.len()), (3, "e", "u", 0));
}

#[test]
fn sign_up_then_log_in() {
    let row = sign_up("a@b.c".to_string(), "ann".to_string(), "hunter2").expect("the generated salt is accepted");
    assert_eq!(row.id, ActiveValue::NotSet);
    assert_eq!(row.email, ActiveValue::SetTo("a@b.c".to_string()));
    assert_eq!(row.username, ActiveValue::SetTo("ann".to_string()));
    let stored = stored_user(row, 11);
    assert!(stored.password_hash.starts_with("$argon2"));
    assert_ne!(stored.password_hash, "hunter2");
    assert!(stored.password_hash.contains(stored.password_salt.as_str()));
    assert_eq!(log_in(Some(&stored), "hunter2"), Ok(11));
    assert_eq!(log_in(Some(&stored), "hunter3"), Err(LogInError::InvalidCredentials));
    assert_eq!(try_log_in(Some(&stored), "hunter2"), Some(Ok(11)));
    assert_eq!(log_in(None, "hunter2"), Err(LogInError::UnknownEmail));
    assert_eq!(try_log_in(None, "x"), Some(Err(LogInError::UnknownEmail)));
}

#[test]
fn sign_ups_use_fresh_salts() {
    let a = stored_user(sign_up("a".to_string(), "a".to_string(), "same").unwrap(), 1);
    let b = stored_user(sign_up("b".to_string(), "b".to_string(), "same").unwrap(), 2);
    assert_ne!(a.password_salt, b.password_salt);
    assert_ne!(a.password_hash, b.password_hash);
}

#[test]
fn unreadable_stored_hash() {
    let broken = user_entity::Model {
        id: 1,
        email: "e".to_string(),
        username: "u".to_string(),
        password_hash: "not a phc string".to_string(),
        password_salt: "s".to_string(),
    };
    assert_eq!(try_log_in(Some(&broken), "pw"), None);
}

#[test]
fn new_user_row() {
    let m = new_user_model("e".to_string(), "u".to_string(), "h".to_string(), "s".to_string());
    assert_eq!(m.id, ActiveValue::NotSet);
    assert_eq!(m.password_hash, ActiveValue::SetTo("h".to_string()));
    assert_eq!(m.password_salt, ActiveValue::SetTo("s".to_string()));
}

#[test]
fn cookie_and_bodies() {
    assert_eq!(session_cookie("abc123"), "session-token=abc123; Path=/");
    assert_eq!(session_cookie(""), "session-token=; Path=/");
    assert_eq!(ok_body(), "OK");
    let user = User { id: 1, email: "me@x.y".to_string(), username: "me".to_string(), campaigns: Vec::new() };
    assert_eq!(get_me(&user), ("Logged in as me@x.y".to_string(), 200));
    assert_eq!(get_user("42"), ("User not found.".to_string(), 404));
}

#[test]
fn rooms_join_and_leave() {
    let mut rooms = SocketRooms::new();
    assert!(!rooms.is_member("dice", 1));
    rooms.join("dice", 1);
    rooms.join("dice", 1);
    rooms.join("dice", 2);
    rooms.join("character/5", 1);
    assert!(rooms.is_member("dice", 1));
    assert!(rooms.is_member("character/5", 1));
    assert!(!rooms.is_member("character/5", 2));
    let mut all = rooms.recipients("dice", None);
    all.sort();
    assert_eq!(all, vec![1, 2]);
    assert_eq!(rooms.recipients("dice", Some(1)), vec![2]);
    assert_eq!(rooms.recipients("character/5", Some(1)), Vec::<u64>::new());
    assert_eq!(rooms.recipients("nowhere", None), Vec::<u64>::new());
    rooms.leave_all(1);
    assert!(!rooms.is_member("dice", 1));
    assert!(!rooms.is_member("character/5", 1));
    assert!(rooms.is_member("dice", 2));
    assert_eq!(rooms.recipients("dice", None), vec![2]);
}

#[test]
fn rooms_impl_hands_out_its_rooms() {
    let mut r = RoomsImpl::new();
    r.rooms.join("a", 3);
    assert!(r.get().is_member("a", 3));
}

#[test]
fn checked_sign_in_and_sign_up_rows() {
    assert_eq!(log_in_checked(4, Some(true)), Ok(4));
    assert_eq!(log_in_checked(4, Some(false)), Err(LogInError::InvalidCredentials));
    assert_eq!(log_in_checked(4, None), Err(LogInError::InvalidCredentials));
    assert_eq!(signed_up_row("e".to_string(), "u".to_string(), None, "salt".to_string()), None);
    let row = signed_up_row("e".to_string(), "u".to_string(), Some("hash".to_string()), "salt".to_string()).unwrap();
    assert_eq!(row, new_user_model("e".to_string(), "u".to_string(), "hash".to_string(), "salt".to_string()));
}
