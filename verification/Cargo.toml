[package]
name = "smaug_publish"
version = "0.1.0"
edition = "2021"
publish = false

[dependencies]
clap = "2"
rm_rf = "0.6"
serde = { version = "1", features = ["derive"] }
serde_json = "1"
