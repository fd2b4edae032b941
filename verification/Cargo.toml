[package]
name = "window"
version = "0.1.0"
edition = "2021"
publish = false

[dependencies]
clap = { version = "*", features = ["derive"] }
crossbeam-channel = "*"
ctrlc = "*"
futures = "*"
serde = { version = "*", features = ["derive"] }
serde_json = "*"
windows = { version = "*", features = ["Foundation", "Media_Control"] }
