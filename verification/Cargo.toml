[package]
name = "wire_substrate"
version = "0.1.0"
edition = "2021"
publish = false

[dependencies]
serde = { version = "1", features = ["derive"] }
serde_json = "1"
time = { version = "0.3", features = ["formatting"] }
ureq = { version = "2", features = ["json"] }
uuid = { version = "1", features = ["v4"] }
