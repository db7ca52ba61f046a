[package]
name = "graph_builder"
version = "0.1.0"
edition = "2021"
publish = false

[dependencies]
prometheus = { version = "0.13", default-features = false }
parking_lot = "0.12"
actix-web = { version = "4", default-features = false, features = ["macros", "compress-gzip"] }
actix-service = "2"
futures = "0.3"
log = "0.4"
env_logger = "*"
opentelemetry = "*"

[dev-dependencies]
memchr = "2"
