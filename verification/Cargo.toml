[package]
name = "demo_runner"
version = "0.1.0"
edition = "2021"
publish = false

[dependencies]
async-trait = "*"
tokio = { version = "*", features = ["macros", "rt-multi-thread", "time"] }
