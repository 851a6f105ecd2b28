[package]
name = "chat_gateway"
version = "0.1.0"
edition = "2021"
publish = false

[dependencies]
genai-types = "*"
mcp-protocol = "*"
hex = "*"
serde = { version = "*", features = ["derive"] }
serde_json = "*"
sha1 = "*"
