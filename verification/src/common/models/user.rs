//! Users as the relational store keeps them.

use crate::common::models::campaign::Campaign;
use vstd::prelude::*;

verus! {

/// A stored user.
#[derive(Debug, PartialEq)]
pub struct User {
    pub id: u64,
    pub email: String,
    pub username: String,
}

/// A stored user with the hash and salt of their password.
#[derive(Debug, PartialEq)]
pub struct UserWithPassword {
    pub id: u64,
    pub email: String,
    pub username: String,
    pub password_hash: String,
    pub password_salt: String,
}

/// A stored user with the campaigns they take part in.
#[derive(Debug, PartialEq)]
pub struct UserWithCampaigns {
    pub id: u64,
    pub email: String,
    pub username: String,
    pub campaigns: Vec<Campaign>,
}

} // verus!
