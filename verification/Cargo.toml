[package]
name = "zync_core"
version = "0.1.0"
edition = "2021"
publish = false

[dependencies]
anyhow = "1"
async-trait = "0.1"
dirs = "5"
regex = "1"
russh = "0.45"
russh-keys = "0.45"
serde = { version = "1", features = ["derive"] }
serde_json = "1"
tokio = { version = "1", features = ["io-util", "macros", "net", "process", "rt", "rt-multi-thread", "sync"] }
uuid = { version = "1", features = ["v4"] }
whoami = "1"
