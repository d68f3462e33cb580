[package]
name = "arena"
version = "0.1.0"
edition = "2021"
publish = false

[dependencies]
axum = "0.8"
chrono = { version = "0.4", features = ["serde"] }
chrono-humanize = "0.2"
cja = "*"
color-eyre = "0.6"
maud = { version = "0.27", features = ["axum"] }
serde = { version = "1", features = ["derive"] }
sqlx = { version = "0.8", default-features = false, features = ["postgres", "uuid", "chrono"] }
tracing = "0.1"
uuid = { version = "1", features = ["v4", "serde"] }
