[package]
name = "osu_stats"
version = "0.1.0"
edition = "2021"
publish = false

[dependencies]
serde_json = "*"
reqwest = { version = "*", default-features = false, features = ["rustls-tls"] }
tokio = { version = "*", default-features = false, features = ["rt-multi-thread", "macros"] }
dotenv = "*"
