[package]
name = "water_reminder"
version = "0.1.0"
edition = "2021"
publish = false

[dependencies]
chrono = "=0.4.45"
rand = "=0.9.5"
anyhow = "=1.0.104"
dotenvy = "=0.15.7"
rusqlite = { version = "=0.40.2", features = ["bundled"] }
serenity = { version = "=0.12.5", features = ["collector"] }
tokio = { version = "=1.54.1", features = ["macros", "rt-multi-thread", "sync"] }
tokio_schedule = "=0.3.2"
tracing = "=0.1.44"
tracing-subscriber = "=0.3.23"
