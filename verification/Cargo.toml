[package]
name = "morum"
version = "0.1.0"
edition = "2021"
publish = false

[dependencies]
pulldown-cmark = { version = "=0.9.6", default-features = false }
ruma = { version = "=0.7.4", features = ["events", "unstable-sanitize", "client", "client-ext-client-api", "client-api-c", "client-reqwest-rustls-webpki-roots", "rand"] }
jsonwebtoken = "8"
serde = { version = "1", features = ["derive"] }
serde_json = "1"
serde_yaml = "0.9"
tokio = { version = "1", features = ["rt-multi-thread", "macros", "time"] }
