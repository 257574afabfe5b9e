[package]
name = "norgopolis_module"
version = "0.1.0"
edition = "2021"
publish = false

[dependencies]
anyhow = "*"
futures = "*"
norgopolis-protos = "*"
tokio = { version = "*", features = ["sync", "rt-multi-thread", "time", "io-std", "io-util"] }
tonic = "*"
