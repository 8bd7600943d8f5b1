[package]
name = "issue_triage"
version = "0.1.0"
edition = "2021"
publish = false

[dependencies]
anthropic = "=0.0.8"
anyhow = "=1.0.104"
clap = { version = "=4.6.7", features = ["derive"] }
octocrab = "=0.40.0"
serde = { version = "=1.0.229", features = ["derive"] }
tokio = { version = "=1.53.2", features = ["macros", "rt-multi-thread"] }
toml = "=1.1.7"
