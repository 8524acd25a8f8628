[package]
name = "llama_cpp"
version = "0.1.0"
edition = "2021"
publish = false

[dependencies]
async-stream = "0.3"
bytes = "1"
futures = "0.3"
reqwest = { version = "0.12", default-features = false, features = ["json", "stream"] }
reqwest-eventsource = "0.6"
schemars = "1"
serde = { version = "1", features = ["derive"] }
serde_json = "1"
tracing = "0.1"
tracing-futures = { version = "0.2", features = ["futures-03"] }
