[package]
name = "risk_core"
version = "0.1.0"
edition = "2021"
publish = false

[dependencies]
chrono = { version = "0.4", features = ["serde"] }
schemars = { version = "0.8", features = ["chrono", "uuid1"] }
serde = { version = "1", features = ["derive"] }
uuid = { version = "1", features = ["serde"] }

[dev-dependencies]
serde_json = "1"
