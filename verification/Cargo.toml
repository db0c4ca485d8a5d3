[package]
name = "stund"
version = "0.1.6"
edition = "2021"
publish = false

[dependencies]
atty = "=0.2.14"
base64 = "=0.10.1"
bytes = "=0.4.12"
daemonize = "=0.4.1"
dirs = "=2.0.2"
failure = "0.1"
futures = "=0.1.31"
libc = "=0.2.191"
mio = "=0.6.23"
rand = "=0.6.5"
serde = { version = "=1.0.229", features = ["derive"] }
structopt = "=0.2.18"
tokio = "=0.1.22"
tokio-codec = "=0.1.2"
tokio-core = "=0.1.18"
tokio-io = "=0.1.13"
tokio-serde-bincode = "=0.2.1"
tokio-serde-json = "=0.2.0"
tokio-signal = "=0.2.9"
tokio-stdin = "=0.1.2"
tokio-uds = "=0.2.7"
