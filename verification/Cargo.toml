[package]
name = "music_bot"
version = "0.1.0"
edition = "2021"
publish = false

[dependencies]
async-trait = "*"
dotenvy = "*"
reqwest = { version = "=0.12.28", default-features = false, features = ["json", "rustls-tls"] }
serde = { version = "*", features = ["derive"] }
tokio = { version = "*", features = ["macros", "rt-multi-thread", "sync", "time"] }
