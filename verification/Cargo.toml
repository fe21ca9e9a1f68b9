[package]
name = "llm_mock_server"
version = "0.1.0"
edition = "2021"
publish = false

[dependencies]
axum = "0.6"
num_cpus = "*"
once_cell = "*"
sysinfo = "*"
tokio = { version = "1", features = ["rt-multi-thread", "macros", "signal", "time", "sync"] }
tower = "0.4"
tower-http = { version = "0.4", features = ["limit"] }
tracing-subscriber = "*"
