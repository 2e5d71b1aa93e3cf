[package]
name = "dobby"
version = "0.1.0"
edition = "2021"
publish = false

[dependencies]
sha2 = "0.10"
const-hex = "1"
subtle = "2"
rand = "0.9"
ed25519-dalek = "2"
base64 = "0.22"
http = "1"
anyhow = "1"
clap = { version = "4", features = ["derive"] }
serde = { version = "1", features = ["derive"] }
toml = "0.9"
thiserror = "2"
tokio = { version = "1", features = ["full"] }
tonic = { version = "0.14", default-features = false, features = ["transport", "tls-ring", "codegen", "router"] }
tonic-prost = "0.14"
prost = "0.14"
tracing = "0.1"
tracing-subscriber = { version = "0.3", features = ["env-filter"] }
zeroize = "1"
rcgen = "0.14"
tokio-rustls = { version = "0.26", default-features = false, features = ["ring", "logging", "tls12"] }
hyper-util = { version = "0.1", features = ["tokio"] }
tower-service = "0.3"
