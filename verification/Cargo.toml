[package]
name = "tauri-plugin-localhost"
version = "0.1.0"
edition = "2021"
publish = false

[dependencies]
futures-util = { version = "0.3", features = ["sink"] }
http = "1"
http-body-util = "0.1"
hyper = { version = "1", features = ["server", "http1"] }
hyper-tungstenite = "*"
hyper-util = { version = "0.1", features = ["tokio"] }
log = "0.4"
reqwest = { version = "0.12", default-features = false }
tauri = { version = "2", default-features = false }
tokio = { version = "1", features = ["net", "rt", "rt-multi-thread", "sync"] }
tokio-tungstenite = "*"
tungstenite = "*"
url = "2"
