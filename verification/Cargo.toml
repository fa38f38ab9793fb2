[package]
name = "replay_harness"
version = "0.1.0"
edition = "2021"
publish = false

[dependencies]
clap = { version = "*", features = ["derive"] }
log = "*"
parity-scale-codec = "*"
serde = "*"
sp-core = "*"
sp-io = "*"
sp-runtime = "*"
sp-version = "*"
