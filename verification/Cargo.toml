[package]
name = "cim-domain-identity"
version = "0.1.0"
edition = "2021"
publish = false

[dependencies]
async-trait = "0.1"
bevy_ecs = { version = "0.16", default-features = false, features = ["std"] }
chrono = { version = "0.4", features = ["serde"] }
serde = { version = "1", features = ["derive"] }
serde_json = "1"
thiserror = "2"
tokio = { version = "1", features = ["rt"] }
uuid = { version = "1", features = ["v4", "serde"] }
