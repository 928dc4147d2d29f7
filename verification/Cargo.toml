[package]
name = "adsb_relay"
version = "0.1.0"
edition = "2021"
publish = false

[dependencies]
serde_json = "*"
rumqttc = "*"
rdkafka = "*"
tokio = { version = "*", features = ["rt", "rt-multi-thread"] }
dotenv = "*"
indicatif = "*"
colored = "*"
