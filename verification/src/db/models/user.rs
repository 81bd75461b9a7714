//! Rows of the `users` table.

use vstd::prelude::*;

verus! {

/// The columns an update of a user may change; `None` leaves a column as it is.
#[derive(Debug, PartialEq)]
pub struct UserUpdateModel {
    pub id: u64,
    pub email: Option<String>,
    pub username: Option<String>,
}

} // verus!
