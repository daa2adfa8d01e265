[package]
name = "backend_llm_anthropic"
version = "1.0.0"
edition = "2021"
publish = false

[dependencies]
async-trait = "0.1"
futures = "0.3"
reqwest = { version = "0.12", default-features = false, features = ["json", "rustls-tls", "stream"] }
serde = { version = "1", features = ["derive"] }
serde_json = "1"
tokio = { version = "1", features = ["rt", "sync"] }
