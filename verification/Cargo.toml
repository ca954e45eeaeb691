[package]
name = "rjremote"
version = "0.1.0"
edition = "2021"
publish = false

[dependencies]
base64 = "=0.22.1"
dirs-next = "=2.0.0"
enigo = "=0.2.1"
hostname = "=0.4.2"
image = { version = "=0.25.10", default-features = false, features = ["jpeg"] }
log = "=0.4.35"
mdns-sd = "=0.11.5"
rand = "=0.8.8"
scrap = "=0.5.0"
serde = { version = "=1.0.229", features = ["derive"] }
serde_json = "=1.0.154"
tokio = { version = "=1.54.1", features = ["rt-multi-thread", "net", "io-util", "time", "macros"] }
