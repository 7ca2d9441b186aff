[package]
name = "mullvad-types"
version = "0.1.0"
edition = "2021"
publish = false

[dependencies]
jnix = { version = "=0.5.3", features = ["derive"] }
log = "=0.4.34"
serde = { version = "=1.0.229", features = ["derive"] }

[dev-dependencies]
serde_json = "=1.0.154"
