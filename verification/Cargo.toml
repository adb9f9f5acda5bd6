[package]
name = "octopower"
version = "0.1.0"
edition = "2021"
publish = false

[dependencies]
url = "*"
reqwest = { version = "*", default-features = false, features = ["json"] }
tokio = { version = "*", default-features = false, features = ["macros", "rt-multi-thread", "time"] }
serde = { version = "*", features = ["derive"] }
serde_json = "*"
serde_repr = "*"
toml = "*"
chrono = { version = "*", features = ["serde"] }
influx_db_client = "*"
log = "*"
pretty_env_logger = "*"
