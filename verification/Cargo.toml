[package]
name = "chat_completion"
version = "0.1.0"
edition = "2021"
publish = false

[dependencies]
clap = { version = "4", features = ["derive"] }
reqwest = { version = "0.12" }
serde_json = "1"
tokio = { version = "1", features = ["macros", "rt-multi-thread"] }
