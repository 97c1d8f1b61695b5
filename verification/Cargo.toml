[package]
name = "profileit"
version = "0.1.0"
edition = "2021"
publish = false

[dependencies]
serde = { version = "1", features = ["derive"] }
serde_json = "1"
toml = "0.8"
toml_edit = "0.22"
maud = "0.26"
axum = "0.8"
tokio = { version = "1", features = ["rt-multi-thread", "net", "signal", "macros"] }
ureq = { version = "2", features = ["json"] }
keyring = "3"
