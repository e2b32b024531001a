[package]
name = "ficha"
version = "0.1.0"
edition = "2021"
publish = false

[dependencies]
chrono = "0.4"
nix = { version = "0.30", features = ["signal", "process"] }
pam = "0.8"
rusqlite = { version = "0.37", features = ["bundled"] }
serde = { version = "1", features = ["derive"] }
tokio = { version = "1", features = ["time"] }
uuid = { version = "1", features = ["v4"] }
