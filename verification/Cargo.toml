[package]
name = "status_bar"
version = "0.1.0"
edition = "2021"
publish = false

[dependencies]
anyhow = "=1.0.104"
byte-unit = "=5.2.6"
cnx = "=0.3.0"
cnx-contrib = "=0.1.0"
sysinfo = { version = "=0.30.13", default-features = false }
tokio = { version = "=1.54.1", features = ["time", "rt"] }
tokio-stream = { version = "=0.1.19", features = ["time"] }

[dev-dependencies]
tokio = { version = "=1.54.1", features = ["time", "rt", "test-util"] }
