[package]
name = "stscli"
version = "0.1.0"
edition = "2021"
publish = false

[dependencies]
rust-ini = "0.21"
serde_json = "1"
clap = "4"
rusoto_core = { version = "0.48", default-features = false, features = ["rustls"] }
rusoto_sts = { version = "0.48", default-features = false, features = ["rustls"] }
tokio = { version = "1", features = ["rt"] }
