[package]
name = "weatherlog"
version = "0.1.0"
edition = "2021"
publish = false

[dependencies]
chrono = "0.4"
csv = "1"
dotenvy = "0.15"
reqwest = "0.11"
serde = { version = "1", features = ["derive"] }
serde_json = "1"
termion = "2"
tokio = { version = "1", features = ["macros", "rt-multi-thread"] }
url = "2"
viuer = "0.6"
