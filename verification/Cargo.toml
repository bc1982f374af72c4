[package]
name = "appbase_backend"
version = "0.1.0"
edition = "2021"
publish = false

[dependencies]
ammonia = "*"
bcrypt = "*"
chrono = { version = "0.4", features = ["serde"] }
clap = { version = "4", features = ["derive"] }
dotenvy = "*"
html-escape = "*"
log = "0.4"
r2d2 = "*"
r2d2_sqlite = "*"
redb = "1"
regex = "1"
rusqlite = { version = "*", features = ["bundled"] }
serde = { version = "1", features = ["derive"] }
serde_json = "1"
thiserror = "1"
uuid = { version = "1", features = ["v4"] }
