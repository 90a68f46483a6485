[package]
name = "promkit_async"
version = "0.1.0"
edition = "2021"
publish = false

[dependencies]
anyhow = "=1.0.104"
async-trait = "=0.1.92"
crossterm = { version = "=0.28.1", features = ["event-stream", "libc"] }
futures = "=0.3.34"
futures-timer = "=3.0.4"
promkit = "=0.5.1"
tokio = { version = "=1.54.1", features = ["full"] }
