[package]
name = "rrcp"
version = "0.1.0"
edition = "2021"
publish = false

[dependencies]
anyhow = "1"
log = "0.4"
quinn = { version = "0.11", default-features = false, features = ["rustls-ring", "runtime-tokio", "log"] }
rustls = { version = "0.23", default-features = false, features = ["ring", "std", "logging", "tls12"] }
rcgen = { version = "0.13", default-features = false, features = ["crypto", "pem", "ring"] }
rmp-serde = "1"
serde = { version = "1", features = ["derive"] }
serde_bytes = "0.11"
simple_logger = "5"
tokio = { version = "1", features = ["rt-multi-thread", "macros", "sync", "time", "io-util"] }
