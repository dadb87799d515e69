[package]
name = "ruuvi_telemetry"
version = "0.1.0"
edition = "2021"
publish = false

[dependencies]
ruuvi-decoders = "=1.0.0"
metrics = "=0.24.6"
metrics-util = "=0.20.4"
metrics-exporter-prometheus = { version = "=0.18.3", default-features = false, features = ["http-listener"] }
metrics-process = "=2.4.3"
bluer = { version = "=0.17.4", features = ["bluetoothd"] }
tokio = { version = "=1.54.1", features = ["macros", "rt-multi-thread", "sync", "time"] }
futures = "=0.3.34"
compile-time = "=0.4.0"
duration-string = "=0.5.3"
