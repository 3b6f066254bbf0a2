[package]
name = "agent_core"
version = "0.1.0"
edition = "2021"
publish = false

[dependencies]
chrono = "*"
uuid = { version = "*", features = ["v4"] }
ollama-rs = "*"
tokio = { version = "*", features = ["rt-multi-thread", "macros"] }
