[package]
name = "directive_agent"
version = "0.1.0"
edition = "2021"
publish = false

[dependencies]
dusa_collection_utils = "*"
serde = { version = "*", features = ["derive"] }
serde_json = "*"
walkdir = "*"
gethostname = "*"
sysinfo = "*"
uuid = { version = "*", features = ["v4"] }
tokio = { version = "*", features = ["rt-multi-thread", "macros", "time"] }
