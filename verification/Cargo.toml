[package]
name = "calc_tools"
version = "0.1.0"
edition = "2021"
publish = false

[dependencies]
rmcp = { version = "=3.5.1", features = ["client", "server", "macros", "transport-io", "transport-child-process"] }
tokio = { version = "=1.53.2", features = ["full"] }
serde = { version = "=1.0.229", features = ["derive"] }
serde_json = "=1.0.151"
async-openai = { version = "=0.42.1", features = ["chat-completion"] }
