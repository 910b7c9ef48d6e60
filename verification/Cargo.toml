[package]
name = "business"
version = "0.1.0"
edition = "2021"
publish = false

[dependencies]
serde = { version = "1", features = ["derive"] }
serde_json = "1"
thiserror = "2"
tokio = { version = "1", features = ["rt", "time", "process", "macros", "rt-multi-thread"] }
async-trait = "0.1"
reqwest = { version = "0.12", default-features = false, features = ["blocking", "json"] }
uuid = { version = "1", features = ["v4"] }
pdfium-render = "*"
