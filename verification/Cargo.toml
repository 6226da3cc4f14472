[package]
name = "torii"
version = "0.1.0"
edition = "2021"
publish = false

[dependencies]
serde = { version = "1", features = ["derive"] }
serde_json = "1"
once_cell = "1"
uuid = { version = "1", features = ["v7"] }
tokio = { version = "1", features = ["macros", "rt-multi-thread"] }
axum = "*"
tracing = "0.1"
tracing-subscriber = { version = "0.3", features = ["json"] }
