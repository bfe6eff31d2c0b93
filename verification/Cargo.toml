[package]
name = "fullstack_backend"
version = "0.1.0"
edition = "2021"
publish = false

[dependencies]
etag = "*"
serde_json = "1"
serde = { version = "1", features = ["derive"] }
actix-web = "4"
actix-files = "0.6"
r2d2 = "0.8"
r2d2_sqlite = { version = "*", features = ["bundled"] }
dotenv = "0.15"
env_logger = "*"
log = "0.4"
