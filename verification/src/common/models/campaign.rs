//! Campaigns as the relational store keeps them.

use crate::common::models::character::Character;
use crate::common::models::user::User;
use vstd::prelude::*;

verus! {

/// Whether a member runs the campaign or plays in it.
#[derive(Debug, PartialEq, Eq, Structural, Clone, Copy)]
pub enum MemberType {
    GM,
    Player,
}

/// Someone who takes part in a campaign, with their character if they play.
#[derive(Debug, PartialEq)]
pub struct Member {
    member_type: MemberType,
    user: User,
    character: Option<Character>,
}

/// A stored campaign. Its members are `None` until they are loaded.
#[derive(Debug, PartialEq)]
pub struct Campaign {
    pub id: u64,
    pub name: String,
    pub members: Option<Vec<Member>>,
}

impl Campaign {
    /// The members, if they are loaded.
    pub fn members(&self) -> (r: Option<&Vec<Member>>)
        ensures
            r == (match &self.members {
                Some(v) => Some(v),
                None => None::<&Vec<Member>>,
            }),
    {
        self.members.as_ref()
    }

    /// The members, to change in place, if they are loaded.
    pub fn members_mut(&mut self) -> (r: Option<&mut Vec<Member>>)
        ensures
            (match old(self).members {
                None => r is None && final(self).members is None,
                Some(ms) => r is Some && *r->0 == ms && final(self).members == Some(*final(r->0)),
            }),
            final(self).id == old(self).id,
            final(self).name == old(self).name,
    {
        self.members.as_mut()
    }
}

} // verus!
