[package]
name = "annict_notify"
version = "0.1.0"
edition = "2021"
publish = false

[dependencies]
bitflags = "1"
chrono = { version = "0.4", features = ["serde"] }
custom_debug = "0.6"
diesel = { version = "2", features = ["postgres", "chrono"] }
diesel_migrations = "2"
dotenv = "0.15"
regex = "1"
reqwest = { version = "0.11", default-features = false, features = ["json", "rustls-tls"] }
serde = { version = "1", features = ["derive"] }
serde_json = "1"
serenity = { version = "0.12", features = ["collector"] }
tokio = { version = "1", features = ["macros", "rt-multi-thread", "time"] }
tracing = "0.1"
tracing-subscriber = { version = "0.3", features = ["env-filter"] }
