[package]
name = "ruda"
version = "0.1.0"
edition = "2021"
publish = false

[dependencies]
uuid = { version = "1", features = ["v4"] }
names = { version = "0.14", default-features = false }
chrono = "0.4"
url = "2"
sysinfo = "*"
tokio = { version = "1", features = ["full"] }
tokio-tungstenite = "*"
tokio-util = "0.7"
futures-util = "0.3"
pot = "3"
serde = { version = "1", features = ["derive"] }
anyhow = "1"
thiserror = "*"
log = "0.4"
clap = "4"
config = { version = "*", default-features = false, features = ["toml"] }
reqwest = { version = "0.12", default-features = false }
service-manager = "*"
