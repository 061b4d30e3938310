[package]
name = "itag2mqttd"
version = "0.1.0"
edition = "2021"
publish = false

[dependencies]
bluer = { version = "*", features = ["bluetoothd"] }
configparser = "3"
rumqttc = "*"
tokio = { version = "1", features = ["rt", "macros", "time", "sync"] }
tokio-stream = "0.1"
