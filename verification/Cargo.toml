[package]
name = "watchfilter"
version = "0.1.0"
edition = "2021"
publish = false

[dependencies]
watchexec = "*"
watchexec-events = "*"
tokio = { version = "*", features = ["macros", "rt-multi-thread"] }
anyhow = "*"
