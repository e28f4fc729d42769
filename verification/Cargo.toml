[package]
name = "rmbtd"
version = "1.3.5"
edition = "2021"
publish = false

[dependencies]
anyhow = "1"
base64 = "0.22"
chrono = "0.4"
env_logger = "0.11"
fastrand = "2"
hmac = "*"
lazy_static = "1"
log = { version = "0.4", features = ["std"] }
mio = { version = "1", features = ["os-poll", "net"] }
rustls = { version = "0.23", default-features = false, features = ["ring", "std", "tls12", "logging"] }
rustls-pemfile = "2"
sha1 = "*"
sha2 = "*"
tokio = { version = "1", features = ["rt-multi-thread", "signal"] }
tungstenite = "*"
