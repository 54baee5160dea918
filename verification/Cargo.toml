[package]
name = "wechat-cli"
version = "0.1.0"
edition = "2021"
publish = false

[dependencies]
aes = "0.8"
anyhow = "1"
base64 = "0.22"
block-padding = "0.3"
chrono = "0.4"
cipher = { version = "0.4", features = ["alloc", "block-padding"] }
clap = { version = "4", features = ["derive"] }
dirs = "5"
ecb = { version = "0.1", features = ["alloc", "block-padding"] }
hex = "0.4"
log = "0.4"
md5 = "0.7"
mime_guess = "2"
qrcode = { version = "0.14", default-features = false }
rand = "0.8"
reqwest = { version = "0.12", default-features = false, features = ["rustls-tls"] }
serde = { version = "1", features = ["derive"] }
serde_json = "1"
snafu = "0.8"
tokio = { version = "1", features = ["macros", "rt-multi-thread", "signal", "time"] }
tracing-subscriber = { version = "0.3", features = ["env-filter"] }
uuid = { version = "1", features = ["v4"] }
