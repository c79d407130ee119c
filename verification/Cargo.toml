[package]
name = "chadd_updater"
version = "0.1.0"
edition = "2021"
publish = false

[dependencies]
dotenv = "0.15"
futures-util = "0.3"
reqwest = { version = "0.11", default-features = false, features = ["json", "stream"] }
serde = { version = "1", features = ["derive"] }
tokio = { version = "1", features = ["time"] }
