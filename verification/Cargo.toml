[package]
name = "cli_chat"
version = "0.1.0"
edition = "2021"
publish = false

[dependencies]
serde_json = "1"
anyhow = "1"
clap = { version = "4", features = ["derive"] }
reqwest = { version = "0.12", default-features = false }
rustyline = "*"
tokio = { version = "1", features = ["macros", "rt-multi-thread"] }
