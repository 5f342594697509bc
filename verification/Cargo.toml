[package]
name = "mqtt_common"
version = "0.1.0"
edition = "2021"
publish = false

[dependencies]
tokio = { version = "1", features = ["rt-multi-thread", "macros", "net", "io-util", "io-std", "time", "sync"] }
async-trait = "0.1"
futures = "0.3"
pin-project-lite = "0.2"
