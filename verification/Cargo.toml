[package]
name = "sheesh"
version = "0.1.0"
edition = "2021"
publish = false

[dependencies]
chrono = "0.4"
scrypt = { version = "0.11", features = ["std"] }
r2d2 = "0.8"
r2d2_sqlite = "0.24"
rusqlite = { version = "0.31", features = ["bundled", "chrono"] }
