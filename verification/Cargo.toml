[package]
name = "notebook_ci"
version = "0.1.0"
edition = "2021"
publish = false

[dependencies]
actix-cors = "0.6"
actix-files = "0.6"
actix-web = { version = "4", default-features = false, features = ["macros"] }
anyhow = "1"
chrono = { version = "0.4", default-features = false, features = ["std", "clock"] }
cmd_lib = "1"
config = { version = "0.11", default-features = false }
dotenv = "0.15"
fancy-regex = "0.11"
lazy_static = "1"
reqwest = { version = "0.11", default-features = false, features = ["blocking", "json"] }
retry = "2"
serde = { version = "1", features = ["derive"] }
serde_json = "1"
signal-hook = "0.3"
sqlx = { version = "0.7", default-features = false, features = ["postgres", "runtime-tokio", "migrate"] }
uuid = { version = "0.8", features = ["v4"] }
