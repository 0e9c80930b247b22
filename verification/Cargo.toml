[package]
name = "antigravity_agent"
version = "0.1.0"
edition = "2021"
publish = false

[dependencies]
rusqlite = { version = "*", features = ["bundled"] }
sysinfo = "*"
dirs = "*"
serde_json = "*"
base64 = "*"
chrono = "*"
