[package]
name = "minehelm"
version = "0.1.0"
edition = "2021"
publish = false

[dependencies]
rand = "0.8"
pwhash = "*"
docker-api = "*"
sqlx = { version = "*", default-features = false, features = ["postgres", "runtime-tokio"] }
tokio = { version = "*", default-features = false, features = ["rt-multi-thread", "macros"] }
