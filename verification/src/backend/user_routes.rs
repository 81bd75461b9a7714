//! The answers of the user routes.

use crate::backend::error::{STATUS_NOT_FOUND, STATUS_OK};
use crate::common::user::User;
use crate::text::join2;
use vstd::prelude::*;
use vstd::string::*;

verus! {

/// The answer to "who am I": the signed-in user's email, with status OK.
pub fn get_me(user: &User) -> (r: (String, u16))
    ensures
        r.0@ == "Logged in as "@ + user.email@,
        r.1 == STATUS_OK,
{
    (join2("Logged in as ", user.email.as_str()), STATUS_OK)
}

/// The answer to a lookup of a user by id: no user is found, whatever the id.
pub fn get_user(uid: &str) -> (r: (String, u16))
    ensures
        r.0@ == "User not found."@,
        r.1 == STATUS_NOT_FOUND,
{
    (String::from_str("User not found."), STATUS_NOT_FOUND)
}

} // verus!
