[package]
name = "templar"
version = "0.1.0"
edition = "2021"
publish = false

[dependencies]
anyhow = "1"
axum = "0.8"
dotenvy = "0.15"
handlebars = "=6.4.4"
lettre = { version = "=0.11.23", default-features = false, features = ["smtp-transport", "builder", "file-transport", "rustls-tls"] }
once_cell = "1"
rand = "=0.9.5"
serde = { version = "1", features = ["derive"] }
serde_json = "=1.0.151"
thiserror = "2"
tokio = { version = "1", features = ["rt-multi-thread", "macros", "net"] }
tracing = "0.1"
tracing-subscriber = "0.3"
