[package]
name = "activity_meter"
version = "0.1.0"
edition = "2021"
publish = false

[dependencies]
serde_json = "1"
tokio = { version = "1", features = ["macros", "rt-multi-thread", "time"] }
reqwest = "0.11"
dotenv = "0.15"
device_query = "1"
