[package]
name = "weather"
version = "0.1.0"
edition = "2021"
publish = false

[dependencies]
axum = "0.7"
askama_axum = "0.4"
reqwest = { version = "0.12", default-features = false }
serde = { version = "1", features = ["derive"] }
tokio = { version = "1", features = ["macros", "rt-multi-thread", "net"] }
