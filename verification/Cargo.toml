[package]
name = "bot_core"
version = "0.1.0"
edition = "2021"
publish = false

[dependencies]
chrono = "=0.4.45"
rand = "=0.8.8"
serenity = "=0.11.7"
tokio = { version = "=1.53.2", features = ["macros", "rt-multi-thread", "time"] }
reqwest = { version = "=0.11.27", features = ["json"] }
serde = { version = "=1.0.229", features = ["derive"] }
ron = "=0.8.1"
edgedb-tokio = "=0.5.1"
