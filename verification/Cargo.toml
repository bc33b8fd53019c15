[package]
name = "service_registry"
version = "0.1.0"
edition = "2021"
publish = false

[dependencies]
actix-web = "4"
paperclip = { version = "*", features = ["actix4", "swagger-ui"] }
serde = { version = "1", features = ["derive"] }
serde_json = "1"
log = "0.4"
pretty_env_logger = "*"
