[package]
name = "botcast"
version = "0.1.0"
edition = "2021"
publish = false

[dependencies]
srtlib = "*"
urlencoding = "2"
xmldecl = "*"
encoding = "0.2"
encoding_rs = "*"
cron = "*"
chrono = "0.4"
uuid = { version = "1", features = ["v4"] }
rand = "0.8"
serde = { version = "1", features = ["derive"] }
serde_json = "1"
anyhow = "1"
thiserror = "*"
log = "0.4"
reqwest = { version = "0.12", default-features = false, features = ["json"] }
tokio = { version = "1", features = ["rt-multi-thread", "macros", "process", "fs", "io-util"] }
wavers = "*"
clap = { version = "4", features = ["derive"] }
rss = "*"
tl = "*"
