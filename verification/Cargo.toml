[package]
name = "repl"
version = "0.1.0"
edition = "2021"
publish = false

[dependencies]
anyhow = "=1.0.104"
futures = "=0.3.34"
jupyter-protocol = "=2.0.2"
runtimelib = { version = "=3.0.0", features = ["async-dispatcher-runtime"] }
serde_json = "=1.0.151"
smol = "=2.0.2"
uuid = { version = "=1.27.0", features = ["v4"] }
