[package]
name = "oghab_vpn"
version = "0.1.0"
edition = "2021"
publish = false

[dependencies]
include_dir = "0.7"
jni = "0.21"
reqwest = { version = "0.12", default-features = false, features = ["rustls-tls", "socks"] }
serde = { version = "1", features = ["derive"] }
serde_json = "1"
tokio = { version = "1", features = ["macros", "net", "rt", "sync", "time"] }
url = "2"
urlencoding = "2"
winapi = { version = "0.3", features = ["wininet"] }
winreg = "0.52"
