[package]
name = "modbus_rtu"
version = "0.1.0"
edition = "2021"
publish = false

[dependencies]
anyhow = "=1.0.104"
clap = { version = "=4.6.7", features = ["derive"] }
tokio = { version = "=1.54.1", features = ["rt-multi-thread", "macros", "time", "io-util"] }
tokio-serial = { version = "=5.5.0", default-features = false }

[dev-dependencies]
tokio-modbus = { version = "=0.17.0", default-features = false, features = ["rtu"] }
