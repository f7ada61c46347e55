[package]
name = "ai_model_catalog"
version = "0.1.0"
edition = "2021"
publish = false

[dependencies]
once_cell = "1"
reqwest = { version = "0.12", features = ["blocking", "json"] }
serde_json = { version = "1", features = ["preserve_order"] }
