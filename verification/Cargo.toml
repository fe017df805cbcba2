[package]
name = "nga_monitor"
version = "0.1.0"
edition = "2021"
publish = false

[dependencies]
async-trait = "*"
axum = "*"
chrono = "=0.4.45"
reqwest = { version = "=0.13.5", default-features = false, features = ["json", "form"] }
serde = { version = "*", features = ["derive"] }
serde_json = "*"
tokio = { version = "*", features = ["full"] }
tower-http = { version = "*", features = ["cors"] }
url = "*"
