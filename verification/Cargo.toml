[package]
name = "yunchaoplus_rw"
version = "0.1.0"
edition = "2021"
publish = false

[dependencies]
actix-web = "*"
chrono = "*"
deadpool-postgres = "*"
dotenv = "*"
log = "*"
pretty_env_logger = "*"
serde = { version = "*", features = ["derive"] }
serde_json = "*"
thiserror = "*"
tokio = { version = "*", features = ["macros", "rt-multi-thread"] }
tokio-postgres = { version = "*", features = ["with-chrono-0_4", "with-serde_json-1"] }
