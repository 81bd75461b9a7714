//! How a refused request is answered.

use crate::text::join2;
use vstd::prelude::*;
use vstd::string::*;

verus! {

/// The HTTP status of a successful request.
pub const STATUS_OK: u16 = 200;
/// The HTTP status of a malformed request.
pub const STATUS_BAD_REQUEST: u16 = 400;
/// The HTTP status of a request that needs a signed-in user.
pub const STATUS_UNAUTHORIZED: u16 = 401;
/// The HTTP status of a request for something that is not there.
pub const STATUS_NOT_FOUND: u16 = 404;
/// The HTTP status of a request the server failed on.
pub const STATUS_INTERNAL_SERVER_ERROR: u16 = 500;

/// Why a request that needs a signed-in user was refused.
#[derive(Debug, PartialEq, Eq, Structural, Clone, Copy)]
pub enum Unauthorized {
    NotLoggedIn,
    InvalidToken,
    InvalidUser,
    InvalidCredentials,
    SessionTimedOut,
}

/// Why a malformed request was refused.
#[derive(Debug, PartialEq)]
pub enum BadRequest {
    /// A required field of the body is missing; the payload is its name.
    MissingField(String),
}

/// The body of the answer to a refused request.
#[derive(Debug, PartialEq)]
pub struct ErrorType {
    pub msg: String,
    pub detail: Option<String>,
    pub code: u16,
}

/// What a refused request was refused for, as far as the answer tells.
#[derive(Debug, PartialEq)]
pub enum Rejection {
    /// No route matched.
    NotFound,
    /// The request needed a signed-in user.
    Unauthorized(Unauthorized),
    /// The request was malformed.
    BadRequest(BadRequest),
    /// Any other refusal.
    Other,
}

/// The detail text of an unauthorized answer.
pub open spec fn unauthorized_detail(u: Unauthorized) -> Seq<char> {
    match u {
        Unauthorized::NotLoggedIn => "User not logged in."@,
        Unauthorized::InvalidToken => "Invalid token."@,
        Unauthorized::InvalidUser => "Token refers to invalid user."@,
        Unauthorized::InvalidCredentials => "Invalid credentials."@,
        Unauthorized::SessionTimedOut => "Session timed out."@,
    }
}

/// The message, detail and code of the answer to a refusal; the code is
/// also the answer's HTTP status.
pub open spec fn rejection_answer(r: Rejection) -> (Seq<char>, Option<Seq<char>>, u16) {
    match r {
        Rejection::NotFound => ("NOT_FOUND"@, None, STATUS_NOT_FOUND),
        Rejection::Unauthorized(u) => ("UNAUTHORIZED"@, Some(unauthorized_detail(u)), STATUS_UNAUTHORIZED),
        Rejection::BadRequest(BadRequest::MissingField(f)) => (
            "BAD_REQUEST"@,
            Some("Field missing: "@ + f@),
            STATUS_BAD_REQUEST,
        ),
        Rejection::Other => ("INTERNAL_SERVER_ERROR"@, None, STATUS_INTERNAL_SERVER_ERROR),
    }
}

impl Unauthorized {
    /// The detail text of an unauthorized answer.
    pub fn detail(&self) -> (s: &'static str)
        ensures
            s@ == unauthorized_detail(*self),
    {
        match self {
            Unauthorized::NotLoggedIn => "User not logged in.",
            Unauthorized::InvalidToken => "Invalid token.",
            Unauthorized::InvalidUser => "Token refers to invalid user.",
            Unauthorized::InvalidCredentials => "Invalid credentials.",
            Unauthorized::SessionTimedOut => "Session timed out.",
        }
    }
}

/// The answer to a refused request: its body and its HTTP status.
pub fn handle_rejection(err: &Rejection) -> (r: (ErrorType, u16))
    ensures
        r.0.msg@ == rejection_answer(*err).0,
        (match r.0.detail { Some(d) => Some(d@), None => None }) == rejection_answer(*err).1,
        r.0.code == rejection_answer(*err).2,
        r.1 == r.0.code,
{
    match err {
        Rejection::NotFound => {
            let body = ErrorType { msg: String::from_str("NOT_FOUND"), detail: None, code: STATUS_NOT_FOUND };
            (body, STATUS_NOT_FOUND)
        },
        Rejection::Unauthorized(u) => {
            let body = ErrorType {
                msg: String::from_str("UNAUTHORIZED"),
                detail: Some(String::from_str(u.detail())),
                code: STATUS_UNAUTHORIZED,
            };
            (body, STATUS_UNAUTHORIZED)
        },
        Rejection::BadRequest(BadRequest::MissingField(field_name)) => {
            let body = ErrorType {
                msg: String::from_str("BAD_REQUEST"),
                detail: Some(join2("Field missing: ", field_name.as_str())),
                code: STATUS_BAD_REQUEST,
            };
            (body, STATUS_BAD_REQUEST)
        },
        Rejection::Other => {
            let body = ErrorType {
                msg: String::from_str("INTERNAL_SERVER_ERROR"),
                detail: None,
                code: STATUS_INTERNAL_SERVER_ERROR,
            };
            (body, STATUS_INTERNAL_SERVER_ERROR)
        },
    }
}

} // verus!
