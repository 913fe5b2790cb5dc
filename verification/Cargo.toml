[package]
name = "yt-dlp-gui"
version = "0.1.0"
edition = "2021"
publish = false

[dependencies]
dirs = "5"
encoding_rs = "0.8"
futures-util = "0.3"
open = "5"
reqwest = { version = "0.11", features = ["stream"] }
serde = { version = "1", features = ["derive"] }
serde_json = "1"
tokio = { version = "1", features = ["fs", "io-util", "macros", "net", "process", "rt-multi-thread", "sync"] }
window-shadows = "0.2"
zip = { version = "0.6", default-features = false, features = ["deflate"] }
