[package]
name = "oxyde-cloud"
version = "0.1.0"
edition = "2021"
publish = false

[dependencies]
anyhow = "=1.0.104"
axum = "0.8"
clap = { version = "=4.6.7", features = ["derive"] }
cliclack = "0.3"
heck = "=0.5.0"
http = "=1.5.0"
keyring = { version = "3", features = ["apple-native", "linux-native", "windows-native"] }
log = "0.4"
opener = "0.7"
reqwest = { version = "=0.12.28", default-features = false, features = ["json", "multipart", "rustls-tls"] }
serde = { version = "=1.0.229", features = ["derive"] }
serde_json = "=1.0.154"
simple_logger = "5"
tera = { version = "1", default-features = false }
tokio = { version = "=1.54.1", features = ["fs", "io-util", "macros", "net", "rt-multi-thread", "sync", "time"] }
toml = "=0.8.23"
urlencoding = "=2.1.3"
walkdir = "=2.5.0"
