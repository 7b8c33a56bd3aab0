[package]
name = "crates_io_api"
version = "0.1.0"
edition = "2021"
publish = false

[dependencies]
url = "2"
serde = "1"
serde_derive = "1"
serde_json = "1"
serde_path_to_error = "0.1"
reqwest = { version = "0.12", default-features = false, features = ["blocking"] }
chrono = { version = "0.4", features = ["serde"] }
