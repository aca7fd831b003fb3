[package]
name = "k2"
version = "0.1.0"
edition = "2021"
publish = false

[dependencies]
chrono = "0.4"
chrono-english = "0.1"
clap = "2"
rdkafka = "*"
serde_json = "1"
tokio = { version = "1", features = ["macros", "rt-multi-thread"] }
