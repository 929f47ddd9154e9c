[package]
name = "vidpipe"
version = "0.1.0"
edition = "2021"
publish = false

[dependencies]
anyhow = "=1.0.104"
clap = { version = "=4.6.7", features = ["derive"] }
indicatif = "=0.17.11"
regex = "=1.13.1"
reqwest = { version = "=0.11.27", default-features = false, features = ["json", "multipart", "rustls-tls", "stream"] }
serde_json = "=1.0.151"
takecell = "=0.1.1"
teloxide = { version = "=0.12.2", default-features = false, features = ["macros", "rustls"] }
tokio = { version = "=1.53.2", features = ["macros", "rt-multi-thread", "fs", "io-util"] }
