[package]
name = "game_presence"
version = "0.1.0"
edition = "2021"
publish = false

[dependencies]
directories = "=5.0.1"
serde_json = { version = "=1.0.154", features = ["preserve_order"] }
snafu = "=0.8.9"
tokio = { version = "=1.54.1", features = ["fs", "io-util"] }
