[package]
name = "mylauncher"
version = "0.1.0"
edition = "2021"
publish = false

[dependencies]
anyhow = "1"
log = "0.4"
serde = { version = "1", features = ["derive"] }
serde_json = "1"
image = { version = "0.24", default-features = false, features = ["png"] }
tiny-skia = "0.11"
tokio = { version = "1", features = ["sync", "process", "rt", "macros"] }
