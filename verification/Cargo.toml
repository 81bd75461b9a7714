[package]
name = "mist"
version = "0.1.0"
edition = "2021"
publish = false

[dependencies]
argon2 = "=0.4.1"
rand = "=0.8.8"
serde = { version = "=1.0.229", features = ["derive"] }
serde_json = "=1.0.154"
warp = "=0.3.7"
tokio = { version = "=1.54.1", features = ["full"] }
tokio-stream = { version = "=0.1.19", features = ["sync"] }
futures = "=0.3.34"
async-session = "=3.0.0"
dotenv = "=0.15.0"
sea-orm = { version = "=0.10.7", default-features = false, features = ["sqlx-mysql", "runtime-tokio-rustls", "macros"] }

[dev-dependencies]
derive_builder = "0.11"
derive-new = "0.5"
derive-getters = "0.2"
