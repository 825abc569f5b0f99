[package]
name = "skywalking"
version = "0.1.0"
edition = "2021"
publish = false

[dependencies]
base64 = "=0.22.1"
uuid = { version = "=1.29.0", features = ["v4"] }
tokio = { version = "=1.54.1", features = ["rt", "rt-multi-thread", "time", "sync", "macros"] }
hostname = "=0.4.2"
systemstat = "=0.2.7"
portable-atomic = { version = "=1.15.0", features = ["float"] }
tracing = "=0.1.44"
rdkafka = "*"
