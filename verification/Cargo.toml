[package]
name = "blog_api"
version = "0.1.0"
edition = "2021"
publish = false

[dependencies]
jsonwebtoken = { version = "9", default-features = false }
pretty-sha2 = "*"
serde = { version = "1", features = ["derive"] }
serde_json = { version = "1", features = ["raw_value"] }
chrono = { version = "0.4", default-features = false, features = ["now"] }
uuid = { version = "1", features = ["v4"] }
axum = { version = "0.6", default-features = false, features = ["json", "query", "tokio", "http1"] }
http = "0.2"
tokio = { version = "1", features = ["macros", "rt-multi-thread", "sync"] }
anyhow = "1"
dotenv = "0.15"
log = "0.4"
