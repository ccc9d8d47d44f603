[package]
name = "scoreboard"
version = "0.1.0"
edition = "2021"
publish = false

[dependencies]
rocket = "0.5"
rocket_ws = "0.1"
serde = { version = "1", features = ["derive"] }
serde_json = "1"
serde_millis = "0.1"
strum = { version = "0.26", features = ["derive"] }
tokio = { version = "1", features = ["macros", "rt", "sync", "time"] }
uuid = { version = "1", features = ["v4"] }
