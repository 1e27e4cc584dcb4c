[package]
name = "rumax"
version = "0.1.0"
edition = "2021"
publish = false

[dependencies]
async-trait = "0.1"
bytes = "=1.12.1"
chrono = "=0.4.45"
futures-util = { version = "0.3", features = ["sink"] }
http = "1"
log = "0.4"
lz4_flex = "=0.11.6"
rand = "=0.8.8"
rmp-serde = "=1.3.1"
rmpv = "=1.3.1"
rustls = { version = "0.23", default-features = false, features = ["ring", "std", "logging", "tls12"] }
rustls-native-certs = "0.8"
serde = { version = "1", features = ["derive"] }
serde_json = "=1.0.154"
tokio = { version = "1", features = ["full"] }
tokio-rustls = { version = "0.26", default-features = false, features = ["ring", "logging", "tls12"] }
yawc = "=0.2.7"
