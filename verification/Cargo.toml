[package]
name = "edenapi_core"
version = "0.1.0"
edition = "2021"
publish = false

[dependencies]
anyhow = "1"
bytes = "1"
futures = "0.3"
gotham = "*"
gotham_derive = "*"
quickcheck = "*"
serde = { version = "1", features = ["derive"] }
