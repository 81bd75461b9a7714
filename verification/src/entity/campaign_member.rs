//! The `campaign_member` table: who plays in which campaign, and as what.

use vstd::prelude::*;

verus! {

/// Whether a member runs the campaign or plays in it.
#[derive(Debug, PartialEq, Eq, Structural, Clone, Copy)]
pub enum MemberType {
    GM,
    Player,
}

/// A stored membership.
#[derive(Debug, PartialEq, Eq, Structural, Clone, Copy)]
pub struct Model {
    pub campaign_id: i32,
    pub user_id: i32,
    pub character_id: Option<i32>,
    pub member_type: MemberType,
}

/// The tables a membership row points to.
#[derive(Debug, PartialEq, Eq, Structural, Clone, Copy)]
pub enum Relation {
    Campaign,
    User,
    Character,
}

} // verus!
