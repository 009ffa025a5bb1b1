[package]
name = "udpreceiver"
version = "0.1.0"
edition = "2021"
publish = false

[dependencies]
hidapi = { version = "2", default-features = false, features = ["linux-native-basic-udev"] }
tokio = { version = "1", features = ["macros", "net", "rt-multi-thread", "sync", "time"] }
