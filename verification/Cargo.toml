[package]
name = "attendance"
version = "0.1.0"
edition = "2021"
publish = false

[dependencies]
hmac = "*"
sha2 = "*"
hex = "*"
chrono = "*"
chrono-tz = "*"
sqlx = { version = "*", default-features = false, features = ["postgres", "runtime-tokio", "chrono"] }
async-graphql = { version = "*", features = ["chrono"] }
