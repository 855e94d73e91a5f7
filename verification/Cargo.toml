[package]
name = "ssh_session"
version = "0.1.0"
edition = "2021"
publish = false

[dependencies]
anyhow = "=1.0.104"
async-trait = "=0.1.92"
base64 = "=0.22.1"
dirs = "=7.0.0"
rand = "0.10"
russh = "=0.60.3"
tokio = { version = "=1.54.1", features = ["full"] }
