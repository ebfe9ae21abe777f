[package]
name = "grabit"
version = "0.1.0"
edition = "2021"
publish = false

[dependencies]
sqlx = { version = "0.8", default-features = false, features = ["sqlite", "runtime-tokio", "chrono", "macros"] }
chrono = "0.4"
colored = "*"
directories = "*"
thiserror = "*"
tracing = "0.1"
