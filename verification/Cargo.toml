[package]
name = "absquic"
version = "0.1.0"
edition = "2021"
publish = false

[dependencies]
atomic-waker = "=1.1.2"
bytes = "=1.12.1"
futures-core = "=0.3.34"
futures-util = "=0.3.34"
one_err = "=0.0.8"
parking_lot = "=0.12.5"
pin-project-lite = "=0.2.17"
quinn-proto = "=0.8.4"
quinn-udp = "=0.1.4"
rustls = { version = "=0.20.9", features = ["dangerous_configuration"] }
rcgen = "=0.14.10"
tokio = { version = "=1.54.1", features = ["rt", "rt-multi-thread", "sync", "time", "net", "macros"] }
tracing = "=0.1.44"
tracing-subscriber = "=0.3.23"
quiche = "=0.14.0"
