[package]
name = "multifiledownloader"
version = "0.1.0"
edition = "2021"
publish = false

[dependencies]
clap = { version = "4", features = ["derive"] }
clap_complete = "4"
dotenvy = "0.15"
futures = "0.3"
humansize = "2"
indicatif = "0.17"
rand = "0.9"
reqwest = { version = "0.12", features = ["stream"] }
serde = { version = "1", features = ["derive"] }
shellexpand = "3"
thiserror = "2"
tokio = { version = "1", features = ["full"] }
tracing = "0.1"
tracing-subscriber = { version = "0.3", features = ["env-filter"] }
url = "2"
