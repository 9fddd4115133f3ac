[package]
name = "obdium"
version = "0.1.0"
edition = "2021"
publish = false

[dependencies]
chrono = "0.4"
num_enum = "0.7"
serde = { version = "1", features = ["derive"] }
serde_json = "1"
serialport = { version = "4", default-features = false }
sqlite = "*"
thiserror = "*"
xz2 = "0.1"
