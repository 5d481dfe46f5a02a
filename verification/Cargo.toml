[package]
name = "bank_ledger"
version = "0.1.0"
edition = "2021"

[dependencies]
rusqlite = { version = "*", features = ["bundled"] }
