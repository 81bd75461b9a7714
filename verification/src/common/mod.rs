//! The shared data model: themes, characters, campaigns and users.

pub mod campaign;
pub mod character;
pub mod models;
pub mod theme;
pub mod theme_descriptor;
pub mod user;
