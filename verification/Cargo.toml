[package]
name = "imagesync"
version = "0.1.0"
edition = "2021"
publish = false

[dependencies]
bollard = "0.16"
futures = "0.3"
serde = { version = "1", features = ["derive"] }
tokio = { version = "1", features = ["rt-multi-thread", "macros"] }
warp = "0.3"
