[package]
name = "dsl"
version = "0.1.0"
edition = "2021"
publish = false

[dependencies]
serde = { version = "1", features = ["derive"] }
serde_json = "1"
elasticsearch = "8.5.0-alpha.1"
tokio = { version = "1", features = ["macros", "rt-multi-thread"] }
