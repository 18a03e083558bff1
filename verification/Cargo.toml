[package]
name = "code_assistant"
version = "0.1.0"
edition = "2021"
publish = false

[dependencies]
dotenv = "0.15"
serde = { version = "1", features = ["derive"] }
ureq = { version = "2", features = ["json"] }
