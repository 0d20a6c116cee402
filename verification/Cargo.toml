[package]
name = "actix_bincode"
version = "0.1.0"
edition = "2021"
publish = false

[dependencies]
actix-web = { version = "4", default-features = false }
bincode = "1.3"
bytes = "1"
futures-util = "0.3"
serde = "1"
tracing = "0.1"
