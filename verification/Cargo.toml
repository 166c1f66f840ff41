[package]
name = "nxy"
version = "0.1.0"
edition = "2021"
publish = false

[dependencies]
serde_json = { version = "=1.0.154", features = ["preserve_order"] }
uuid = { version = "=1.29.0", features = ["v4", "serde"] }
serde = { version = "=1.0.229", features = ["derive"] }
tokio = { version = "=1.54.1", features = ["full"] }
axum = { version = "=0.6.20", features = ["ws", "headers"] }
sqlx = { version = "=0.7.4", default-features = false, features = ["runtime-tokio", "postgres", "uuid", "chrono", "json", "migrate"] }
tungstenite = "=0.18.0"
clap = { version = "=4.6.7", features = ["derive"] }
ureq = { version = "=2.12.1", default-features = false, features = ["json"] }
tabled = "=0.10.0"
color-eyre = "=0.6.5"
tracing = "=0.1.44"
tracing-subscriber = { version = "=0.3.23", features = ["env-filter"] }
tracing-error = "=0.2.1"
tower-http = { version = "=0.4.4", features = ["trace"] }
futures-util = "=0.3.34"
chrono = { version = "=0.4.45", features = ["serde"] }
