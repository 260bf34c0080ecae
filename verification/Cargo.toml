[package]
name = "vmm"
version = "0.1.0"
edition = "2021"
publish = false

[dependencies]
anyhow = "1"
base-62 = "0.1"
byte-unit = { version = "5", features = ["serde"] }
clap = { version = "4", features = ["derive"] }
ctrlc = "3"
dashmap = "6"
directories = "5"
futures = "0.3"
ipnet = { version = "2", features = ["serde"] }
rand_core = { version = "0.9", features = ["os_rng"] }
reqwest = { version = "0.12", default-features = false, features = ["stream"] }
rtnetlink = "0.14"
serde = { version = "1", features = ["derive"] }
serde_json = "1"
serde_yaml = "0.9"
sha2 = "0.10"
tokio = { version = "1", features = ["full"] }
tokio-util = { version = "0.7", features = ["time"] }
url = { version = "2", features = ["serde"] }
