[package]
name = "userauth"
version = "0.1.0"
edition = "2021"
publish = false

[dependencies]
argon2 = { version = "0.5", features = ["std"] }
sea-orm = { version = "*", features = ["sqlx-mysql", "runtime-tokio-rustls", "macros"] }
sea-orm-migration = { version = "*", features = ["sqlx-mysql", "runtime-tokio-rustls"] }
tokio = { version = "1", features = ["rt-multi-thread", "macros"] }
