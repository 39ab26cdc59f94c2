[package]
name = "cardbot"
version = "0.1.0"
edition = "2021"
publish = false

[dependencies]
hemoglobin = "=0.14.0"
reqwest = { version = "=0.12.28", default-features = false, features = ["json", "rustls-tls"] }
serde = { version = "1", features = ["derive"] }
serenity = { version = "=0.12.5", default-features = false, features = ["client", "gateway", "model", "rustls_backend"] }
tokio = { version = "=1.54.1", features = ["macros", "rt-multi-thread"] }
