[package]
name = "jetson_gateway"
version = "0.1.0"
edition = "2021"
publish = false

[dependencies]
serde_json = "*"
rumqttc = "*"
tokio = { version = "*", features = ["macros", "rt-multi-thread", "time"] }
