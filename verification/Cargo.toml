[package]
name = "whist_browser"
version = "0.1.0"
edition = "2021"
publish = false

[dependencies]
egui = "*"
futures = "0.3"
reqwest = { version = "0.12", default-features = false, features = ["json"] }
semver = { version = "1", features = ["serde"] }
serde = { version = "1", features = ["derive"] }
serde_json = "1"
tokio = { version = "1", features = ["macros", "net", "rt", "rt-multi-thread", "time"] }
tokio-tungstenite = "*"
url = "2"
