[package]
name = "browser_sessions"
version = "0.1.0"
edition = "2021"
publish = false

[dependencies]
chromiumoxide = { version = "*", default-features = false, features = ["tokio-runtime"] }
futures = "0.3"
lazy_static = "1"
napi = { version = "2", features = ["async"] }
napi-derive = "2"
nix = { version = "*", features = ["signal"] }
serde = { version = "1", features = ["derive"] }
serde_json = "1"
tokio = { version = "1", features = ["sync", "rt", "macros"] }
walkdir = "2"
