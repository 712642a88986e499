[package]
name = "yousync"
version = "0.1.0"
edition = "2021"
publish = false

[dependencies]
anyhow = "*"
clap = { version = "*", features = ["derive"] }
http = "*"
octocrab = "=0.44.1"
reqwest = { version = "=0.13.5", features = ["json", "query"] }
rpassword = "*"
serde = { version = "*", features = ["derive"] }
tokio = { version = "*", features = ["macros", "rt-multi-thread"] }
