[package]
name = "third_party_notices"
version = "0.1.0"
edition = "2021"
publish = false

[dependencies]
spdx = { version = "*", features = ["text"] }
clap = { version = "*", features = ["derive"] }
reqwest = { version = "*", default-features = false, features = ["blocking"] }
tempfile = "*"
zip = { version = "*", default-features = false, features = ["deflate"] }
serde = { version = "*", features = ["derive"] }
serde_json = "*"
