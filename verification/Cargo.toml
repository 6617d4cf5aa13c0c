[package]
name = "limit_enforcer"
version = "0.1.0"
edition = "2021"
publish = false

[dependencies]
log = "0.4"
poise = "0.6"
sqlx = { version = "0.7", default-features = false, features = ["postgres", "runtime-tokio"] }
