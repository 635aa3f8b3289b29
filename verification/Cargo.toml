[package]
name = "xmtp_store"
version = "0.1.0"
edition = "2021"
publish = false

[dependencies]
anyhow = "1"
diesel = { version = "2", features = ["sqlite"] }
hex = "0.4"
libsqlite3-sys = { version = "*", features = ["bundled"] }
prost = "*"
serde = { version = "1", features = ["derive"] }
serde_json = "1"
sha2 = "0.10"
thiserror = "1"
