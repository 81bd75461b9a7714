//! Users, as the rest of the model sees them.

use crate::common::campaign::Campaign;
use crate::entity::user as user_entity;
use vstd::prelude::*;

verus! {

/// A user and the campaigns they take part in.
#[derive(Debug, PartialEq)]
pub struct User {
    pub id: i32,
    pub email: String,
    pub username: String,
    pub campaigns: Vec<Campaign>,
}

impl User {
    /// The user a stored row stands for, with no campaigns loaded; the
    /// password columns are not carried over.
    pub fn from_model(entity: user_entity::Model) -> (r: User)
        ensures
            r.id == entity.id,
            r.email == entity.email,
            r.username == entity.username,
            r.campaigns@ == Seq::<Campaign>::empty(),
    {
        User { id: entity.id, email: entity.email, username: entity.username, campaigns: Vec::new() }
    }
}

} // verus!
