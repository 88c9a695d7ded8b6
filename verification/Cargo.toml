[package]
name = "launcher_core"
version = "0.1.0"
edition = "2021"
publish = false

[dependencies]
base64 = "*"
chksum-sha1 = "*"
flate2 = "*"
futures = "*"
futures-util = "*"
reqwest = { version = "*", default-features = false, features = ["stream"] }
serde = { version = "*", features = ["derive"] }
serde_json = "*"
sha2 = "*"
sysinfo = "*"
tar = "*"
tokio = { version = "*", features = ["rt-multi-thread", "macros"] }
zip = { version = "*", default-features = false, features = ["deflate"] }
