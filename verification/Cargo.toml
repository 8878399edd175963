[package]
name = "kit-vpn-companion"
version = "0.1.0"
edition = "2021"
publish = false

[dependencies]
nix = { version = "0.29", features = ["fs", "process", "sched", "signal", "user"] }
serde = { version = "1", features = ["derive"] }
serde_json = "1"
toml = "0.8"
