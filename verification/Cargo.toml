[package]
name = "notion_digest"
version = "0.1.0"
edition = "2021"
publish = false

[dependencies]
askama = "*"
futures = "=0.3.34"
lettre = { version = "=0.11.23", default-features = false, features = ["builder", "smtp-transport"] }
rand = "=0.8.8"
reqwest = { version = "=0.12.28", default-features = false, features = ["json", "rustls-tls"] }
scraper = { version = "=0.29.0", default-features = false, features = ["errors"] }
serde = { version = "=1.0.229", features = ["derive"] }
serde_json = "=1.0.154"
tokio = { version = "=1.54.1", features = ["macros", "rt-multi-thread"] }
