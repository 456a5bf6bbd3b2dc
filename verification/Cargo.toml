[package]
name = "bedrock_updater"
version = "0.1.0"
edition = "2021"
publish = false

[dependencies]
scraper = "*"
url = "*"
reqwest = { version = "*", default-features = false, features = ["rustls-tls"] }
tokio = { version = "*", features = ["macros", "rt-multi-thread"] }
clap = { version = "*", features = ["derive"] }
thiserror = "*"
bytes = "*"
fs_extra = "*"
zip-extract = "*"
tracing = "*"
tracing-subscriber = "*"
