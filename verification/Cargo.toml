[package]
name = "chat_session"
version = "0.1.0"
edition = "2021"
publish = false

[dependencies]
tokio = { version = "1", features = ["macros", "rt-multi-thread", "io-std", "io-util", "sync"] }
tokio-stream = "0.1"
tonic = "0.13"
prost = "0.13"
