[package]
name = "bee"
version = "0.1.0"
edition = "2021"
publish = false

[dependencies]
serde = { version = "1", features = ["derive"] }
serde_json = "1"
futures = "0.3"
chrono = "0.4"
log = "0.4"
async-std = { version = "1", features = ["unstable"] }
tokio = { version = "0.2", features = ["time", "macros", "rt-threaded"] }
actix = "0.10"
actix-rt = "1"
actix-web = "3"
actix-web-actors = "3"
rust-embed = "5"
mime_guess = "2"
rumqtt = "0.31"
