[package]
name = "script_bridge"
version = "0.1.0"
edition = "2021"
publish = false

[dependencies]
deno_core = "=0.387.0"
deno_error = "=0.7.3"
reqwest = { version = "=0.13.5", default-features = false }
serde_json = "=1.0.154"
thiserror = "=2.0.21"
tokio = { version = "=1.54.1", features = ["rt", "rt-multi-thread"] }
url = "=2.5.8"
