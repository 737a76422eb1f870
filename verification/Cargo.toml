[package]
name = "ping_fake_device"
version = "0.1.0"
edition = "2021"
publish = false

[dependencies]
actix-web = { version = "=4.18.1", default-features = false }
bluerobotics-ping = "=0.3.6"
futures-util = { version = "0.3", default-features = false }
rand = "=0.10.3"
tokio = { version = "1", features = ["macros", "rt-multi-thread", "sync", "time", "io-util", "io-std"] }
tokio-util = { version = "=0.7.20", features = ["codec"] }
tracing = "0.1"
