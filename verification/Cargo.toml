[package]
name = "sunsetr"
version = "0.1.0"
edition = "2021"
publish = false

[dependencies]
anyhow = "=1.0.104"
chrono = "=0.4.45"
chrono-tz = "=0.10.4"
dirs = "=7.0.0"
fs2 = "=0.4.3"
nix = { version = "=0.31.3", features = ["signal", "time", "user", "fs"] }
once_cell = "=1.21.4"
serde = { version = "=1.0.229", features = ["derive"] }
serde_json = "=1.0.154"
sha256 = { version = "=1.6.0", default-features = false }
signal-hook = "=0.3.18"
sunrise = "=3.0.0"
tzf-rs = "=2.3.0"
zbus = "=5.19.0"
