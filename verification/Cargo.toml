[package]
name = "smart_search_mcp"
version = "0.1.0"
edition = "2021"
publish = false

[dependencies]
clap = { version = "=4.6.7", features = ["derive"] }
reqwest = { version = "=0.12.28", default-features = false, features = ["multipart"] }
rmcp = { version = "=0.3.2", features = ["server", "macros", "transport-sse-server", "transport-io"] }
schemars = "=1.2.3"
serde = { version = "=1.0.229", features = ["derive"] }
serde_json = "=1.0.154"
tokio = { version = "=1.54.1", features = ["macros", "rt-multi-thread", "signal", "io-std"] }
tokio-util = "=0.7.20"
tracing-subscriber = { version = "=0.3.23", features = ["env-filter"] }

[dev-dependencies]
futures-util = "=0.3.34"
