[package]
name = "slack_conversation_logger"
version = "0.1.0"
edition = "2021"
publish = false

[dependencies]
anyhow = "1"
async-trait = "0.1"
chrono = "0.4"
clap = { version = "4", features = ["derive", "env"] }
hyper-rustls = "*"
hyper-util = "*"
once_cell = "1"
rmcp = { version = "*", features = ["server", "transport-io", "macros"] }
schemars = "*"
serde = { version = "1", features = ["derive"] }
slack-morphism = { version = "*", features = ["hyper"] }
tokio = { version = "1", features = ["macros", "rt-multi-thread", "io-std"] }
