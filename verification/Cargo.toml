[package]
name = "row_decode"
version = "0.1.0"
edition = "2021"
publish = false

[dependencies]
ustr = "*"
sqlx = { version = "*", default-features = false, features = ["postgres", "runtime-tokio"] }
