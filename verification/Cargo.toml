[package]
name = "relayclip"
version = "0.1.0"
edition = "2021"
publish = false

[dependencies]
sha2 = "=0.10.9"
hex = "=0.4.3"
base64 = "=0.22.1"
uuid = { version = "=1.29.0", features = ["v4"] }
chrono = "=0.4.45"
sys-locale = "=0.3.2"
hostname = "=0.4.2"
rcgen = { version = "=0.13.2", default-features = false, features = ["crypto", "ring", "pem"] }
serde = { version = "=1.0.229", features = ["derive"] }
serde_json = "=1.0.154"
prost = "=0.13.5"
dirs = "=5.0.1"
libc = "=0.2.191"
tokio = { version = "=1.54.1", features = ["rt-multi-thread", "net", "io-util", "macros", "sync", "time"] }
rustls = { version = "=0.23.46", default-features = false, features = ["ring", "std", "tls12", "logging"] }
tokio-rustls = { version = "=0.26.6", default-features = false, features = ["ring", "tls12", "logging"] }
mdns-sd = "=0.21.7"
arboard = "=3.7.0"
image = { version = "=0.25.10", default-features = false, features = ["png"] }
anyhow = "=1.0.104"
