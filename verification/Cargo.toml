[package]
name = "lnxdrive"
version = "0.1.0"
edition = "2021"
publish = false

[dependencies]
dashmap = "6"
url = "2"
chrono = { version = "0.4", features = ["serde"] }
serde = { version = "1", features = ["derive"] }
serde_json = "1"
tokio = { version = "1", features = ["rt", "rt-multi-thread", "sync", "time", "macros", "fs", "io-util"] }
tokio-util = "0.7"
fuser = { version = "0.15", default-features = false }
libc = "0.2"
reqwest = { version = "0.12", default-features = false, features = ["json", "stream"] }
zbus = { version = "4", default-features = false, features = ["tokio"] }
async-trait = "0.1"
tracing = "0.1"
dirs = "5"
anyhow = "1"
thiserror = "1"
futures-util = "0.3"
