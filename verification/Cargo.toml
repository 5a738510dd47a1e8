[package]
name = "subc_daemon"
version = "0.1.0"
edition = "2021"
publish = false

[dependencies]
serde = { version = "1", features = ["derive"] }
serde_json = "1"
tokio = { version = "1", features = ["net", "rt", "rt-multi-thread", "time", "signal", "macros", "sync", "io-util"] }
tracing = "0.1"
fs4 = "*"
rlimit = "*"
