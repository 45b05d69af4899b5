[package]
name = "meilisearch_http"
version = "0.1.0"
edition = "2021"
publish = false

[dependencies]
actix-web = { version = "4", default-features = false }
serde_json = "1"
tokio = { version = "1", features = ["rt"] }
