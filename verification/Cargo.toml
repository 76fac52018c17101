[package]
name = "meeting_capture"
version = "0.1.0"
edition = "2021"
publish = false

[dependencies]
anyhow = "=1.0.104"
bytes = "=1.12.1"
chrono = "=0.4.45"
dasp = { version = "=0.11.0", features = ["interpolate", "interpolate-linear"] }
futures-util = "=0.3.34"
hound = "=3.5.1"
ractor = "=0.16.5"
ringbuf = "=0.5.3"
serde = { version = "=1.0.229", features = ["derive"] }
serde_json = "=1.0.154"
tokio = { version = "=1.54.1", features = ["rt", "macros", "sync", "time"] }
tokio-util = "=0.7.20"
tracing = "=0.1.44"
url = "=2.5.8"
uuid = { version = "=1.29.0", features = ["v4"] }
vorbis_rs = "=0.5.6"
