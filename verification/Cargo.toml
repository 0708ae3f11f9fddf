[package]
name = "oxide_mc"
version = "0.2.1"
edition = "2021"
publish = false

[dependencies]
anyhow = "1"
directories = "5"
flate2 = "1"
futures-util = "0.3"
reqwest = { version = "0.12", default-features = false, features = ["json", "stream", "rustls-tls"] }
serde = { version = "1", features = ["derive"] }
serde_json = "1"
tar = "0.4"
tokio = { version = "1", features = ["full"] }
tracing = "0.1"
zip = { version = "2", default-features = false, features = ["deflate"] }
