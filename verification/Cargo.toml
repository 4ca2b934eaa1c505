[package]
name = "orca"
version = "0.1.0"
edition = "2021"
publish = false

[dependencies]
hcloud = "*"
tokio = { version = "*", features = ["rt-multi-thread", "macros", "time"] }
