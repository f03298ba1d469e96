[package]
name = "ai_commit"
version = "0.1.0"
edition = "2021"
publish = false

[dependencies]
anyhow = "*"
clap = "*"
colored = "*"
git2 = "*"
log = "*"
reqwest = { version = "*", default-features = false, features = ["json", "rustls-tls", "blocking"] }
serde = { version = "*", features = ["derive"] }
tokio = { version = "*", features = ["macros", "rt-multi-thread"] }
toml = "*"
