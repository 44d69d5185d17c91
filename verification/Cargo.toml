[package]
name = "toypos"
version = "0.1.0"
edition = "2021"
publish = false

[dependencies]
argon2 = "0.5"
jiff = { version = "0.2", default-features = false, features = ["std", "tzdb-bundle-always"] }
rand_core = { version = "0.6", features = ["getrandom"] }
serde = { version = "1", features = ["derive"] }
serde_json = "1"
sqlx = { version = "0.8", default-features = false, features = ["sqlite", "runtime-tokio"] }
thiserror = "2"
uuid = { version = "1", features = ["v4"] }
