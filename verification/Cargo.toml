[package]
name = "dexprice"
version = "0.1.0"
edition = "2021"
publish = false

[dependencies]
env_logger = "*"
prost = "*"
rdkafka = { version = "*", features = ["tokio"] }
tokio = { version = "*", features = ["macros", "rt-multi-thread", "time"] }
