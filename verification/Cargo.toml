[package]
name = "deconz"
version = "0.1.0"
edition = "2021"
publish = false

[dependencies]
anyhow = "=1.0.104"
bytes = "=1.12.1"
futures = "=0.3.34"
hex = "=0.4.3"
slip-codec = { version = "=0.4.0", features = ["tokio-codec"] }
structopt = "=0.3.26"
thiserror = "=2.0.21"
tokio = { version = "=1.53.2", features = ["rt-multi-thread", "macros", "sync", "time", "io-util"] }
tokio-serial = "=5.5.0"
tokio-util = { version = "=0.7.19", features = ["codec"] }
tracing = "=0.1.44"
tracing-subscriber = "=0.3.23"
