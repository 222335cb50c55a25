[package]
name = "gitdl"
version = "0.1.0"
edition = "2021"
publish = false

[dependencies]
anyhow = "*"
clap = "*"
glob = "*"
num_cpus = "*"
reqwest = { version = "*", default-features = false, features = ["blocking", "gzip", "rustls-tls"] }
serde_json = "*"
threadpool = "*"
url = "*"
