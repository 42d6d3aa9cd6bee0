[package]
name = "vessel_telemetry"
version = "0.1.0"
edition = "2021"
publish = false

[dependencies]
actix-files = "0.6"
actix-web = { version = "4", default-features = false, features = ["macros"] }
csv = "1"
serde = { version = "1", features = ["derive"] }
serde_json = "1"
shuttle-actix-web = "0.57"
shuttle-runtime = "0.57"
shuttle-shared-db = { version = "0.57", features = ["postgres", "sqlx"] }
sqlx = { version = "0.8", default-features = false, features = ["postgres", "runtime-tokio", "time", "uuid", "json", "derive"] }
time = { version = "0.3", features = ["formatting", "parsing", "macros", "serde"] }
uuid = { version = "1", features = ["v4", "serde"] }
