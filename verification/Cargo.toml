[package]
name = "halomcc"
version = "0.1.0"
edition = "2021"
publish = false

[dependencies]
async-trait = "0.1"
csv = "1"
futures = "0.3"
http = "0.2"
hyper = { version = "0.14", features = ["full"] }
hyper-tls = "0.5"
juniper = "0.15"
juniper_hyper = ">=0.6, <0.9"
regex = "1"
scraper = "*"
serde = { version = "1", features = ["derive"] }
time = "0.2"
tokio = { version = "1", features = ["full"] }
ttl_cache = "0.5"
