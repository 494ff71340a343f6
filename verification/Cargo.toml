[package]
name = "sqlite_functions"
version = "0.1.0"
edition = "2021"
publish = false

[dependencies]
libsqlite3-sys = { version = "0.30", features = ["bundled"] }
parking_lot = "0.12"
sqlx = { version = "0.8", default-features = false, features = ["sqlite", "migrate", "runtime-tokio"] }
thiserror = "2"
tracing = "0.1"
