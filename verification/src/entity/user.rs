//! The `users` table.

use crate::entity::active_value::{holds_written, ActiveValue};
use vstd::prelude::*;

verus! {

/// A stored user, with the hash and salt of their password.
#[derive(Debug, PartialEq)]
pub struct Model {
    pub id: i32,
    pub email: String,
    pub username: String,
    pub password_hash: String,
    pub password_salt: String,
}

/// The columns an insert or update of a user writes.
#[derive(Debug, PartialEq)]
pub struct ActiveModel {
    pub id: ActiveValue<i32>,
    pub email: ActiveValue<String>,
    pub username: ActiveValue<String>,
    pub password_hash: ActiveValue<String>,
    pub password_salt: ActiveValue<String>,
}

impl Default for ActiveModel {
    /// An insert or update that writes no column.
    fn default() -> (r: Self)
        ensures
            r.id is NotSet,
            r.email is NotSet,
            r.username is NotSet,
            r.password_hash is NotSet,
            r.password_salt is NotSet,
    {
        ActiveModel {
            id: ActiveValue::NotSet,
            email: ActiveValue::NotSet,
            username: ActiveValue::NotSet,
            password_hash: ActiveValue::NotSet,
            password_salt: ActiveValue::NotSet,
        }
    }
}

/// Whether a stored row holds every column that an insert or update wrote.
pub open spec fn written_by(a: ActiveModel, m: Model) -> bool {
    &&& holds_written(a.id, m.id)
    &&& holds_written(a.email, m.email)
    &&& holds_written(a.username, m.username)
    &&& holds_written(a.password_hash, m.password_hash)
    &&& holds_written(a.password_salt, m.password_salt)
}

} // verus!
