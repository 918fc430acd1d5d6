[package]
name = "root_span"
version = "0.1.0"
edition = "2021"
publish = false

[dependencies]
actix-web = { version = "4", default-features = false }
tracing = { version = "0.1", default-features = false, features = ["std"] }
