[package]
name = "container_fixtures"
version = "0.1.0"
edition = "2021"
publish = false

[dependencies]
regex = "1"
parse_duration = "*"
docker-api = "*"
futures-util = "0.3"
log = "0.4"
tokio = { version = "1", features = ["time", "macros", "rt"] }
