[package]
name = "core_api"
version = "0.1.0"
edition = "2021"
publish = false

[dependencies]
axum = "0.6"
color-eyre = "0.6"
tokio = { version = "1", features = ["macros", "rt-multi-thread", "signal"] }
tracing = "0.1"
tracing-subscriber = "0.3"
