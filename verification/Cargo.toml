[package]
name = "home_assistant_rest"
version = "0.1.0"
edition = "2021"
publish = false

[dependencies]
bytes = "1"
chrono = { version = "0.4", default-features = false, features = ["std"] }
reqwest = { version = "0.11", default-features = false }
serde = "1"
serde_json = "1"
thiserror = "1"
url = "2"
