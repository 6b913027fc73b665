[package]
name = "erika_catalogue"
version = "0.1.0"
edition = "2021"
publish = false

[dependencies]
base64 = "0.22"
chrono = { version = "0.4", default-features = false, features = ["std"] }
cookie = "0.18"
form_urlencoded = "1"
paginate = "1"
serde_json = "1"
sha2 = "0.10"
slug = "0.1"
sublime_fuzzy = "0.7"
axum = "0.8"
maud = "0.27"
reqwest = { version = "0.12", default-features = false, features = ["rustls-tls"] }
rusqlite = { version = "0.32", features = ["bundled"] }
tokio = { version = "1", features = ["rt-multi-thread", "macros", "net"] }
