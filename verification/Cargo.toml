[package]
name = "text_to_cypher_node"
version = "0.1.0"
edition = "2021"
publish = false

[dependencies]
falkordb = { version = "=0.10.5", features = ["tokio"] }
genai = "=0.6.5"
napi = { version = "=2.16.17", features = ["async"] }
napi-derive = "=2.16.13"
serde = { version = "=1.0.229", features = ["derive"] }
serde_json = "=1.0.154"
text-to-cypher = { version = "=0.3.0", default-features = false }
tokio = { version = "=1.54.1", features = ["rt-multi-thread"] }
