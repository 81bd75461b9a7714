//! The server's rules: how a refused request is answered, how users sign
//! up and sign in, which characters are kept loaded, and what each
//! websocket event does.

pub mod auth;
pub mod character;
pub mod error;
pub mod inject;
pub mod password;
pub mod rooms;
pub mod user_routes;
pub mod watcher;
pub mod websocket;
