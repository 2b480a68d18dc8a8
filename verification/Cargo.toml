[package]
name = "gossip_chat"
version = "0.1.0"
edition = "2021"
publish = false

[dependencies]
anyhow = "1"
chrono = { version = "0.4", default-features = false, features = ["clock", "std"] }
clap = { version = "4", default-features = false, features = ["derive", "std", "help", "usage", "error-context"] }
data-encoding = "2"
futures-lite = { version = "2", default-features = false, features = ["std"] }
iroh-base = { version = "0.33", default-features = false, features = ["key"] }
iroh-gossip = { version = "0.33", default-features = false }
rand = "0.8"
serde = { version = "1", features = ["derive"] }
serde_json = "1"
tokio = { version = "1", default-features = false, features = ["macros", "rt-multi-thread", "sync"] }
