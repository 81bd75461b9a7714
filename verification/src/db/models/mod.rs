//! The rows that queries read and write.

pub mod character;
pub mod theme;
pub mod user;
