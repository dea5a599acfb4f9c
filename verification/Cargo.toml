[package]
name = "rustic_vault"
version = "0.1.0"
edition = "2021"
publish = false

[dependencies]
uuid = { version = "1", features = ["v4"] }
semver = "1"
rand = "0.9"
chrono = { version = "0.4", default-features = false, features = ["clock", "serde"] }
serde = { version = "1", features = ["derive"] }
serde_json = "1"
hostname = "0.4"
bytesize = "*"
jiff = "*"
tokio = { version = "1", features = ["rt"] }
rustic_core = { version = "*", default-features = false }
rustic_backend = { version = "*", default-features = false }
iced = { version = "0.14", default-features = false, features = ["tokio"] }
