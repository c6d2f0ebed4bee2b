[package]
name = "pendrake"
version = "0.1.0"
edition = "2021"
publish = false

[dependencies]
anyhow = "=1.0.104"
dirs = "=6.0.0"
fs2 = "=0.4.3"
http = "=1.5.0"
rustls = { version = "=0.23.46", default-features = false, features = ["ring", "std"] }
serde = { version = "=1.0.229", features = ["derive"] }
serde_json = "=1.0.154"
thiserror = "=2.0.21"
tokio = { version = "=1.54.1", features = ["rt-multi-thread", "macros", "sync", "time", "net", "io-util"] }
tonic = { version = "=0.14.9", default-features = false }
tracing = "=0.1.44"
zcash_protocol = "=0.11.0"
zingo-netutils = "6"
zip32 = "=0.2.1"
