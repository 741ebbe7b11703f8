[package]
name = "stream_config"
version = "0.1.0"
edition = "2021"
publish = false

[dependencies]
async-trait = "0.1"
diesel = { version = "2", features = ["postgres"] }
futures = "0.3"
isahc = "1"
rocket = { version = "0.5", features = ["json"] }
serde = { version = "1", features = ["derive"] }
serde_json = "1"
