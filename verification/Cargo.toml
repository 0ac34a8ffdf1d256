[package]
name = "lunar_lander"
version = "0.1.0"
edition = "2021"
publish = false

[dependencies]
rand = "*"
rand_chacha = "*"
foxglove = "*"
tokio = { version = "*", features = ["macros", "rt-multi-thread", "signal", "time"] }
serde = { version = "*", features = ["derive"] }
serde_json = "*"
schemars = "*"
anyhow = "*"
noise = "*"
parking_lot = "*"
chrono = "*"
tempfile = "*"
