//! The model as the relational store keeps it: unsigned ids and unsigned
//! counters, themes kept apart from the character they belong to.

pub mod campaign;
pub mod character;
pub mod theme;
pub mod user;
