[package]
name = "balances"
version = "0.1.0"
edition = "2021"
publish = false

[dependencies]
fixnum = { version = "*", features = ["i64", "serde"] }
serde = { version = "1", features = ["derive"] }
csv = "1"
thiserror = "*"
