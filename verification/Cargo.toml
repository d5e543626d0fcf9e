[package]
name = "nexus_actor"
version = "0.1.0"
edition = "2021"
publish = false

[dependencies]
rand = "0.9"
regex = "1"
dashmap = "6"
siphasher = "1"
prost = "0.13"
serde = { version = "1", features = ["derive"] }
serde_json = "1"
thiserror = "2"
tokio = { version = "1", default-features = false, features = ["sync"] }
opentelemetry = { version = "*", default-features = false, features = ["metrics"] }
