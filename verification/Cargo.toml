[package]
name = "ugs_metadata"
version = "0.1.0"
edition = "2021"
publish = false

[dependencies]
chrono = { version = "=0.4.45", features = ["serde"] }
log = "=0.4.34"
rocket = { version = "=0.5.1", features = ["json"] }
rocket_db_pools = { version = "=0.2.0", features = ["sqlx_mysql"] }
serde = { version = "=1.0.229", features = ["derive"] }
serde_repr = "=0.1.21"
sqlx = { version = "=0.7.4", features = ["chrono", "mysql", "runtime-tokio"] }
