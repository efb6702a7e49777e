[package]
name = "fischl"
version = "0.1.0"
edition = "2021"
publish = false

[dependencies]
md-5 = "0.10"
chksum-md5 = "0.1"
sha2 = "0.10"
zstd = "0.13"
serde = { version = "1", features = ["derive"] }
serde_json = "1"
thiserror = "2"
reqwest = { version = "0.12", default-features = false, features = ["blocking", "json", "rustls-tls"] }
reqwest-middleware = "0.4"
tokio = { version = "1", features = ["full"] }
crossbeam-deque = "0.8"
prost = "0.13"
sysinfo = "0.37"
zip = "2"
tar = "0.4"
flate2 = "1"
liblzma = "0.4"
zesven = "3"
wincompatlib = "0.7"
