[package]
name = "ghostmesh"
version = "0.1.0"
edition = "2021"
publish = false

[dependencies]
anyhow = "1"
base64 = "0.22"
bytes = "1"
chacha20poly1305 = "0.10"
clap = { version = "4", default-features = false, features = ["std", "derive", "help", "usage", "error-context"] }
crdts = "7"
futures = "0.3"
libp2p = { version = "0.53", features = ["tokio", "gossipsub", "mdns", "noise", "macros", "tcp", "yamux", "ping", "identify", "ed25519"] }
serde = { version = "1", features = ["derive"] }
serde_json = "1"
tokio = { version = "1", features = ["full"] }
tracing = "0.1"
tracing-subscriber = { version = "0.3", features = ["env-filter"] }
uuid = "1"
warp = { version = "0.3", default-features = false, features = ["websocket"] }
