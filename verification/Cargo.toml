[package]
name = "cdp_target"
version = "0.1.0"
edition = "2021"
publish = false

[dependencies]
futures-util = { version = "*", features = ["sink"] }
log = "*"
reqwest = { version = "*", default-features = false, features = ["json"] }
serde_json = "*"
tokio = { version = "*", features = ["net", "rt", "time"] }
tokio-tungstenite = "*"
