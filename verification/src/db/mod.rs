//! Rows of the relational store and the logic that turns query results
//! into the model.

pub mod managers;
pub mod models;
