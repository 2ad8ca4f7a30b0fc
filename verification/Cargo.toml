[package]
name = "shara"
version = "0.1.0"
edition = "2021"
publish = false

[dependencies]
regex = "=1.13.1"
serde = { version = "=1.0.229", features = ["derive"] }
serde_json = "=1.0.154"
anyhow = "=1.0.104"
log = "=0.4.35"
once_cell = "=1.21.4"
futures = "=0.3.34"
tokio = { version = "=1.54.1", features = ["macros", "rt-multi-thread"] }
tokio-stream = "=0.1.19"
tokio-util = { version = "0.6", features = ["codec"] }
teloxide = { version = "=0.4.0", features = ["macros", "auto-send"] }
sqlx = { version = "=0.5.13", features = ["runtime-tokio-rustls", "postgres"] }
warp = "=0.3.7"
