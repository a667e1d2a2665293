[package]
name = "lazyproarcconvert"
version = "0.1.0"
edition = "2021"
publish = false

[dependencies]
anyhow = "1"
blake3 = { version = "1", features = ["pure"] }
chrono = { version = "0.4", default-features = false, features = ["clock", "std"] }
clap = { version = "4", features = ["derive"] }
crossterm = "0.27"
image = { version = "0.24", default-features = false, features = ["tiff"] }
ratatui = "0.26"
serde = { version = "1", features = ["derive"] }
serde_json = "1"
webp = { version = "0.2", default-features = false }
