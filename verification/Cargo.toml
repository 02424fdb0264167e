[package]
name = "admin_views"
version = "0.1.0"
edition = "2021"
publish = false

[dependencies]
time = { version = "0.3", default-features = false, features = ["std", "parsing", "formatting"] }
url = "2"
uuid = { version = "1", features = ["serde"] }
serde = { version = "1", features = ["derive"] }
axum = "0.8"
axum-extra = { version = "0.10", features = ["form"] }
axum-htmx = { version = "0.8", features = ["serde", "guards"] }
