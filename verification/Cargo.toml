[package]
name = "typeql_parser"
version = "0.1.0"
edition = "2021"
publish = false

[dependencies]
antlr-rust = "=0.3.0-beta"
chrono = { version = "=0.4.45", default-features = false, features = ["std"] }
