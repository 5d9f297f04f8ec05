[package]
name = "pricer_models"
version = "0.1.0"
edition = "2021"
publish = false

[dependencies]
chrono = { version = "0.4", default-features = false, features = ["std"] }
serde = { version = "1", features = ["derive"] }
serde_json = "1"
thiserror = "1"
lru = "0.12"
parking_lot = "0.12"
ordered-float = "4"
num-traits = "0.2"
