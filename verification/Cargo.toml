[package]
name = "lunchbox"
version = "0.1.0"
edition = "2021"
publish = false

[dependencies]
bcrypt = "=0.15.1"
chrono = { version = "=0.4.45", features = ["serde"] }
serde = { version = "=1.0.229", features = ["derive"] }
actix-web = "=4.18.1"
actix-rt = "=2.15.0"
actix-session = { version = "=0.9.0", features = ["cookie-session"] }
actix-files = "=0.6.10"
sqlx = { version = "=0.7.4", default-features = false, features = ["mysql", "runtime-tokio", "chrono"] }
env_logger = "=0.10.2"
mysql = { version = "=25.0.1", default-features = false, features = ["minimal"] }
actix-helper-macros = "=4.0.1"

[dev-dependencies]
mysql_common = { version = "=0.32.4", default-features = false }
