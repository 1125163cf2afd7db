[package]
name = "rcron"
version = "0.1.0"
edition = "2021"
publish = false

[dependencies]
bincode = "1.3"
chrono = "0.4"
clap = "2.34"
log = "0.4"
serde = { version = "1", features = ["derive"] }
simple-logging = "2"
